use rmqtt_codec::error::DecodeError;
use uring_mqtt::codec::parse::{Fault, Rejection};
use uring_mqtt::codec::types::EncodeError;
use uring_mqtt::error::{Error, IoError, IoErrorKind};

fn io(kind: IoErrorKind, message: &str) -> IoError {
    IoError::Transport {
        kind,
        message: message.to_string(),
    }
}

#[test]
fn test_error_io() {
    let io_err = io(IoErrorKind::NotFound, "file not found");
    let err = Error::Io(io_err);

    let msg = err.message();
    assert!(msg.contains("I/O error"));
    assert!(msg.contains("file not found"));
}

#[test]
fn test_error_io_from() {
    let io_err = io(IoErrorKind::ConnectionReset, "connection reset");
    let err: Error = io_err.into();

    assert!(matches!(err, Error::Io(_)));
    let msg = err.message();
    assert!(msg.contains("connection reset"));
}

#[test]
fn test_error_timeout() {
    let err = Error::Timeout;

    assert_eq!(err.message(), "Connection timeout");
}

#[test]
fn test_error_protocol() {
    let err = Error::Protocol("invalid packet type".to_string());

    let msg = err.message();
    assert!(msg.contains("Protocol error"));
    assert!(msg.contains("invalid packet type"));
}

#[test]
fn test_error_worker() {
    let err = Error::Worker("worker crashed".to_string());

    let msg = err.message();
    assert!(msg.contains("Worker error"));
    assert!(msg.contains("worker crashed"));
}

#[test]
fn test_error_debug() {
    let err = Error::Timeout;
    let debug_str = format!("{err:?}");
    assert!(debug_str.contains("Timeout"));

    let err = Error::Protocol("test".to_string());
    let debug_str = format!("{err:?}");
    assert!(debug_str.contains("Protocol"));
    assert!(debug_str.contains("test"));
}

#[test]
fn routine_disconnects_are_classified_as_routine() {
    assert!(Error::Timeout.is_routine_disconnect());
    assert!(Error::ClientClosed.is_routine_disconnect());
    assert!(Error::Io(io(IoErrorKind::ConnectionReset, "any")).is_routine_disconnect());
    assert!(Error::Io(io(IoErrorKind::BrokenPipe, "any")).is_routine_disconnect());
}

#[test]
fn non_routine_errors_are_not_routine() {
    assert!(!Error::Io(io(IoErrorKind::NotFound, "x")).is_routine_disconnect());
    assert!(!Error::Protocol("x".into()).is_routine_disconnect());
    assert!(!Error::Worker("x".into()).is_routine_disconnect());
}

#[test]
fn codec_errors_are_not_routine() {
    assert!(!Error::Decode(DecodeError::MalformedPacket).is_routine_disconnect());
    assert!(!Error::Decode(DecodeError::InvalidClientId).is_routine_disconnect());
    assert!(!Error::Encode(EncodeError::MalformedPacket).is_routine_disconnect());
}

#[test]
fn near_miss_io_kinds_are_not_routine() {
    for kind in [
        IoErrorKind::UnexpectedEof,
        IoErrorKind::TimedOut,
        IoErrorKind::ConnectionAborted,
        IoErrorKind::ConnectionRefused,
        IoErrorKind::WouldBlock,
        IoErrorKind::Other,
    ] {
        assert!(
            !Error::Io(io(kind, "x")).is_routine_disconnect(),
            "{kind:?} must not be classified as a routine disconnect"
        );
    }
}

#[test]
fn test_error_client_closed() {
    let err = Error::ClientClosed;

    assert_eq!(err.message(), "Client closed connection during handshake");
}

#[test]
fn misleading_messages_do_not_fool_classification() {
    assert!(!Error::Protocol("reset closed Timeout".into()).is_routine_disconnect());
    assert!(Error::Io(io(
        IoErrorKind::ConnectionReset,
        "totally unrelated message",
    ))
    .is_routine_disconnect());
}

#[test]
fn codec_errors_name_their_side() {
    let decode = Error::Decode(DecodeError::MalformedPacket).message();
    assert!(decode.contains(&DecodeError::MalformedPacket.to_string()));
    let rejected = Error::Io(IoError::Rejected(Rejection::new(DecodeError::InvalidProtocol)))
    .message();
    assert!(rejected.contains("I/O error"));
    assert!(rejected.contains(&DecodeError::InvalidProtocol.to_string()));
    let encode: Vec<String> = [
        EncodeError::OverMaxPacketSize { size: 1, max: 0 },
        EncodeError::InvalidLength,
        EncodeError::MalformedPacket,
    ]
    .into_iter()
    .map(|e| Error::Encode(e).message())
    .collect();
    assert_ne!(encode[0], encode[1]);
    assert_ne!(encode[1], encode[2]);
}

#[test]
fn a_rejection_is_invalid_data_and_never_routine() {
    let rejected = IoError::Rejected(Rejection::new(DecodeError::InvalidClientId));
    assert_eq!(rejected.kind(), IoErrorKind::InvalidData);
    assert!(!rejected.is_routine());
}

#[test]
fn encode_errors_are_worded() {
    let over = |size, max| Error::Encode(EncodeError::OverMaxPacketSize { size, max }).message();
    assert_eq!(
        over(300, 128),
        "MQTT encode error: Packet is bigger than peer's Maximum Packet Size: size=300, max=128"
    );
    assert_eq!(
        over(u32::MAX, 0),
        "MQTT encode error: Packet is bigger than peer's Maximum Packet Size: size=4294967295, max=0"
    );
    for digits in [7, 10, 98, 1234567890, 1000000001] {
        assert!(over(digits, digits).ends_with(&format!("size={digits}, max={digits}")));
    }
    assert_eq!(
        Error::Encode(EncodeError::InvalidLength).message(),
        "MQTT encode error: Invalid length"
    );
    assert_eq!(
        Error::Encode(EncodeError::MalformedPacket).message(),
        "MQTT encode error: Malformed packet"
    );
}

#[test]
fn every_other_kind_is_not_routine() {
    for kind in [
        IoErrorKind::PermissionDenied,
        IoErrorKind::AddrNotAvailable,
        IoErrorKind::AddrInUse,
        IoErrorKind::NetworkDown,
        IoErrorKind::WriteZero,
        IoErrorKind::Interrupted,
    ] {
        let err = Error::Io(io(kind, "x"));
        assert!(!err.is_routine_disconnect());
        assert!(matches!(err, Error::Io(e) if e.kind() == kind));
    }
}

#[test]
fn codec_errors_convert() {
    let decode: Error = DecodeError::InvalidTopicName.into();
    assert_eq!(decode.message(), "MQTT decode error: Invalid topic name");
    let encode: Error = EncodeError::InvalidLength.into();
    assert!(matches!(encode, Error::Encode(EncodeError::InvalidLength)));
}

#[test]
fn every_decode_error_has_its_fault() {
    for (error, fault) in [
        (DecodeError::InvalidProtocol, Fault::InvalidProtocol),
        (DecodeError::InvalidLength, Fault::InvalidLength),
        (DecodeError::MalformedPacket, Fault::MalformedPacket),
        (
            DecodeError::UnsupportedProtocolLevel,
            Fault::UnsupportedProtocolLevel,
        ),
        (
            DecodeError::ConnectReservedFlagSet,
            Fault::ConnectReservedFlagSet,
        ),
        (
            DecodeError::InvalidConnectFlags,
            Fault::InvalidConnectFlags,
        ),
        (
            DecodeError::ConnAckReservedFlagSet,
            Fault::ConnAckReservedFlagSet,
        ),
        (DecodeError::InvalidClientId, Fault::InvalidClientId),
        (
            DecodeError::UnsupportedPacketType,
            Fault::UnsupportedPacketType,
        ),
        (DecodeError::PacketIdRequired, Fault::PacketIdRequired),
        (
            DecodeError::MaxSizeExceeded { size: 7, max: 5 },
            Fault::MaxSizeExceeded { size: 7, max: 5 },
        ),
        (DecodeError::InvalidTopicFilter, Fault::InvalidTopicFilter),
        (DecodeError::InvalidTopicName, Fault::InvalidTopicName),
        (DecodeError::Utf8Error, Fault::Utf8Error),
        (DecodeError::Io("x".to_string().into()), Fault::Io),
    ] {
        let text = error.to_string();
        let rejection = Rejection::new(error);
        assert_eq!(rejection.fault, fault);
        assert_eq!(rejection.text, text);
    }
}
