use bytes::BytesMut;
use rmqtt_codec::error::DecodeError;
use rmqtt_codec::{v3, v5};
use tokio_util::codec::{Decoder, Encoder};
use uring_mqtt::codec::decoder::{
    bare_packet, connect_packet, filters_packet, publish_packet, Decoded, MqttDecoder,
    VersionDecoder,
};
use uring_mqtt::codec::encoder::{encode_packet, MqttEncoder};
use uring_mqtt::codec::id::{FilterCount, PacketId, PacketLimit};
use uring_mqtt::codec::parse::{ConnectFields, Fault, PublishFields};
use uring_mqtt::codec::types::{
    ConnectAck, ConnectAckReason, ConnectAckReasonV5, ConnectAckV5, DisconnectReasonCode,
    EncodeError, MqttPacket, PacketV3, PacketV5, QoS, ServerPacket, ServerPacketV3, ServerPacketV5,
    SubscribeReturnCode, UnsubscribeAckReason,
};
use uring_mqtt::codec::version::ProtocolVersion;
use uring_mqtt::error::{IoError, IoErrorKind};

const V3_CONNECT_TEST: [u8; 18] = [
    0x10, 0x10, 0x00, 0x04, b'M', b'Q', b'T', b'T', 0x04, 0x00, 0x00, 0x3C, 0x00, 0x04, b't', b'e',
    b's', b't',
];

fn v5_bytes(packet: v5::Packet) -> BytesMut {
    let mut buf = BytesMut::new();
    v5::Codec::default().encode(packet, &mut buf).expect("encode");
    buf
}

fn decode_one(decoder: &mut MqttDecoder, buf: &mut BytesMut) -> MqttPacket {
    match decoder.decode(buf) {
        Ok(Decoded::Item((packet, _))) => packet,
        other => panic!("expected a packet, got {other:?}"),
    }
}

#[test]
fn test_mqtt_decoder_new_v3() {
    let decoder = MqttDecoder::new(ProtocolVersion::MQTT3);
    assert!(matches!(decoder.version, ProtocolVersion::MQTT3));
}

#[test]
fn test_mqtt_decoder_new_v5() {
    let decoder = MqttDecoder::new(ProtocolVersion::MQTT5);
    assert!(matches!(decoder.version, ProtocolVersion::MQTT5));
}

#[test]
fn test_mqtt_decoder_v3_shortcut() {
    let decoder = MqttDecoder::v3();
    assert!(matches!(decoder.version, ProtocolVersion::MQTT3));
}

#[test]
fn test_mqtt_decoder_v5_shortcut() {
    let decoder = MqttDecoder::v5();
    assert!(matches!(decoder.version, ProtocolVersion::MQTT5));
}

#[test]
fn test_mqtt_encoder_new_v3() {
    let encoder = MqttEncoder::new(ProtocolVersion::MQTT3);
    assert!(matches!(encoder.version, ProtocolVersion::MQTT3));
}

#[test]
fn test_mqtt_encoder_new_v5() {
    let encoder = MqttEncoder::new(ProtocolVersion::MQTT5);
    assert!(matches!(encoder.version, ProtocolVersion::MQTT5));
}

#[test]
fn test_encode_decode_pingreq_v3() {
    let encoder = MqttEncoder::v3();
    let mut decoder = MqttDecoder::v3();

    let mut buf = BytesMut::new();
    let packet = ServerPacket::V3(ServerPacketV3::PingRequest);
    encoder.encode(&packet, &mut buf).unwrap();

    assert!(!buf.is_empty());

    let decoded = decode_one(&mut decoder, &mut buf);
    match decoded {
        MqttPacket::V3(PacketV3::PingRequest) => {}
        _ => panic!("Expected PINGREQ, got {decoded:?}"),
    }
}

#[test]
fn test_encode_decode_pingresp_v3() {
    let encoder = MqttEncoder::v3();
    let mut decoder = MqttDecoder::v3();

    let mut buf = BytesMut::new();
    let packet = ServerPacket::V3(ServerPacketV3::PingResponse);
    encoder.encode(&packet, &mut buf).unwrap();

    let decoded = decode_one(&mut decoder, &mut buf);
    match decoded {
        MqttPacket::V3(PacketV3::PingResponse) => {}
        _ => panic!("Expected PINGRESP, got {decoded:?}"),
    }
}

#[test]
fn test_encode_decode_connack_v3() {
    let encoder = MqttEncoder::v3();
    let mut decoder = MqttDecoder::v3();

    let mut buf = BytesMut::new();
    let packet = ServerPacket::V3(ServerPacketV3::ConnectAck(ConnectAck {
        session_present: false,
        return_code: ConnectAckReason::ConnectionAccepted,
    }));
    encoder.encode(&packet, &mut buf).unwrap();
    assert_eq!(&buf[..], &[0x20, 0x02, 0x00, 0x00][..]);

    match v3::Codec::default().decode(&mut buf.clone()).unwrap() {
        Some((v3::Packet::ConnectAck(ack), _)) => {
            assert!(!ack.session_present);
            assert!(matches!(
                ack.return_code,
                v3::ConnectAckReason::ConnectionAccepted
            ));
        }
        other => panic!("Expected CONNACK, got {other:?}"),
    }
    let decoded = decode_one(&mut decoder, &mut buf);
    match decoded {
        MqttPacket::V3(PacketV3::ConnectAck) => {}
        _ => panic!("Expected CONNACK, got {decoded:?}"),
    }
}

#[test]
fn test_decode_insufficient_data() {
    let mut decoder = MqttDecoder::v3();
    let mut buf = BytesMut::new();

    let result = decoder.decode(&mut buf).unwrap();
    assert!(matches!(result, Decoded::Insufficient));
}

#[test]
fn test_decode_partial_packet() {
    let mut decoder = MqttDecoder::v3();
    let mut buf = BytesMut::new();

    buf.extend_from_slice(&[0xC0]);

    let result = decoder.decode(&mut buf).unwrap();
    assert!(matches!(result, Decoded::Insufficient));
}

#[test]
fn test_encode_v5_connack_client_identifier_not_valid() {
    let ack = ConnectAckV5 {
        reason_code: ConnectAckReasonV5::ClientIdentifierNotValid,
        session_present: false,
        session_expiry_interval_secs: Some(0),
        max_qos: QoS::AtMostOnce,
        retain_available: true,
        wildcard_subscription_available: false,
        subscription_identifiers_available: false,
        shared_subscription_available: false,
        assigned_client_id: None,
        server_keepalive_sec: None,
    };
    let encoder = MqttEncoder::v5();
    let mut buf = BytesMut::new();
    let pkt = ServerPacket::V5(ServerPacketV5::ConnectAck(ack));
    encoder.encode(&pkt, &mut buf).expect("encode");
    println!("v5 connack bytes ({}): {:02x?}", buf.len(), &buf[..]);
    assert!(!buf.is_empty());
    match v5::Codec::default().decode(&mut buf).expect("decode") {
        Some((v5::Packet::ConnectAck(ack), _)) => {
            assert!(matches!(
                ack.reason_code,
                v5::ConnectAckReason::ClientIdentifierNotValid
            ));
            assert_eq!(ack.session_expiry_interval_secs, Some(0));
            assert!(matches!(
                ack.max_qos,
                rmqtt_codec::types::QoS::AtMostOnce
            ));
            assert!(ack.retain_available);
            assert!(!ack.wildcard_subscription_available);
            assert!(!ack.subscription_identifiers_available);
            assert!(!ack.shared_subscription_available);
        }
        other => panic!("Expected CONNACK, got {other:?}"),
    }
}

#[test]
fn test_encode_v3_connack_identifier_rejected() {
    let ack = ConnectAck {
        return_code: ConnectAckReason::IdentifierRejected,
        session_present: false,
    };
    let encoder = MqttEncoder::v3();
    let mut buf = BytesMut::new();
    let pkt = ServerPacket::V3(ServerPacketV3::ConnectAck(ack));
    encoder.encode(&pkt, &mut buf).expect("encode");
    println!("v3 connack bytes ({}): {:02x?}", buf.len(), &buf[..]);
    assert_eq!(buf.len(), 4);
}

#[test]
fn test_version_decoder_new() {
    let decoder = VersionDecoder::new();
    assert!(matches!(
        decoder.decode(&BytesMut::new()),
        Ok(Decoded::Insufficient)
    ));
}

#[test]
fn test_version_decoder_default() {
    let decoder = VersionDecoder::default();
    assert!(matches!(
        decoder.decode(&BytesMut::new()),
        Ok(Decoded::Insufficient)
    ));
}

#[test]
fn test_decode_empty_buffer_returns_insufficient() {
    let decoder = VersionDecoder::new();
    let buf = BytesMut::new();

    let result = decoder.decode(&buf).unwrap();
    assert!(matches!(result, Decoded::Insufficient));
}

#[test]
fn test_decode_mqtt311_connect() {
    let decoder = VersionDecoder::new();
    let mut buf = BytesMut::new();
    buf.extend_from_slice(&V3_CONNECT_TEST);

    let result = decoder.decode(&buf).unwrap();
    match result {
        Decoded::Item(version) => {
            assert!(matches!(version, ProtocolVersion::MQTT3));
        }
        _ => panic!("Expected MQTT3 version, got {result:?}"),
    }
    assert_eq!(&buf[..], &V3_CONNECT_TEST[..]);
}

#[test]
fn test_decode_mqtt5_connect() {
    let decoder = VersionDecoder::new();
    let mut buf = BytesMut::new();
    buf.extend_from_slice(&[
        0x10, 0x11, 0x00, 0x04, b'M', b'Q', b'T', b'T', 0x05, 0x00, 0x00, 0x3C, 0x00, 0x00, 0x04,
        b't', b'e', b's', b't',
    ]);

    let result = decoder.decode(&buf).unwrap();
    match result {
        Decoded::Item(version) => {
            assert!(matches!(version, ProtocolVersion::MQTT5));
        }
        _ => panic!("Expected MQTT5 version, got {result:?}"),
    }
}

#[test]
fn test_decode_partial_connect_returns_insufficient() {
    let decoder = VersionDecoder::new();
    let mut buf = BytesMut::new();

    buf.extend_from_slice(&[0x10, 0x10, 0x00, 0x04]);

    let result = decoder.decode(&buf).unwrap();
    assert!(matches!(result, Decoded::Insufficient));
}

#[test]
fn test_protocol_version_debug() {
    let v3 = ProtocolVersion::MQTT3;
    let v5 = ProtocolVersion::MQTT5;

    let v3_str = format!("{v3:?}");
    let v5_str = format!("{v5:?}");

    assert!(v3_str.contains("MQTT3"));
    assert!(v5_str.contains("MQTT5"));
}

#[test]
fn rejected_first_byte_error_carries_typed_decode_error_source() {
    let decoder = VersionDecoder::new();
    let buf = BytesMut::from(&[0xC0_u8, 0x00][..]);

    let err = decoder.decode(&buf).unwrap_err();
    assert_eq!(err.kind(), IoErrorKind::InvalidData);
    match err {
        IoError::Rejected(rejection) => assert!(
            matches!(rejection.error, DecodeError::UnsupportedPacketType),
            "expected originating UnsupportedPacketType variant, got {rejection:?}"
        ),
        other => panic!("expected a rejection, got {other:?}"),
    }
}

#[test]
fn invalid_protocol_name_error_carries_invalid_protocol_source() {
    let decoder = VersionDecoder::new();
    let buf = BytesMut::from(
        &[
            0x10_u8, 0x10, 0x00, 0x04, b'M', b'Q', b'T', b'X', 0x04, 0x00, 0x00, 0x3C, 0x00, 0x04,
            b't', b'e', b's', b't',
        ][..],
    );

    let err = decoder.decode(&buf).unwrap_err();
    assert_eq!(err.kind(), IoErrorKind::InvalidData);
    match err {
        IoError::Rejected(rejection) => assert!(
            matches!(rejection.error, DecodeError::InvalidProtocol),
            "expected originating InvalidProtocol variant, got {rejection:?}"
        ),
        other => panic!("expected a rejection, got {other:?}"),
    }
}

#[test]
fn a_v3_connect_is_read_with_its_fields() {
    let mut buf = BytesMut::from(&V3_CONNECT_TEST[..]);
    match MqttDecoder::v3().decode(&mut buf) {
        Ok(Decoded::Item((MqttPacket::V3(PacketV3::Connect(connect)), 16))) => {
            assert!(!connect.clean_session);
            assert_eq!(connect.keep_alive, 60);
            assert_eq!(connect.client_id, "test");
        }
        other => panic!("expected CONNECT, got {other:?}"),
    }
    assert!(buf.is_empty());
}

#[test]
fn a_v5_connect_is_read_with_its_fields() {
    let connect = v5::Connect {
        client_id: "dev5".to_string().into(),
        clean_start: true,
        keep_alive: 7,
        auth_method: Some("PLAIN".to_string().into()),
        max_packet_size: std::num::NonZeroU32::new(128),
        ..Default::default()
    };
    let mut buf = v5_bytes(v5::Packet::Connect(Box::new(connect)));
    match decode_one(&mut MqttDecoder::v5(), &mut buf) {
        MqttPacket::V5(PacketV5::Connect(connect)) => {
            assert!(connect.clean_start);
            assert_eq!(connect.keep_alive, 7);
            assert_eq!(connect.client_id, "dev5");
            assert_eq!(connect.auth_method.as_deref(), Some("PLAIN"));
            assert_eq!(connect.max_packet_size, PacketLimit::new(128));
        }
        other => panic!("expected CONNECT, got {other:?}"),
    }
}

#[test]
fn a_publish_is_read_with_its_fields() {
    let mut buf = BytesMut::from(&[0x32_u8, 0x09, 0, 1, b't', 0x12, 0x34, 9, 8, 7, 6][..]);
    match decode_one(&mut MqttDecoder::v3(), &mut buf) {
        MqttPacket::V3(PacketV3::Publish(publish)) => {
            assert_eq!(publish.qos, QoS::AtLeastOnce);
            assert_eq!(publish.topic, "t");
            assert_eq!(publish.packet_id, PacketId::new(0x1234));
            assert_eq!(publish.payload, vec![9, 8, 7, 6]);
        }
        other => panic!("expected PUBLISH, got {other:?}"),
    }
    let mut buf = BytesMut::from(&[0x30_u8, 0x06, 0, 1, b't', 0, 5, 6][..]);
    match decode_one(&mut MqttDecoder::v5(), &mut buf) {
        MqttPacket::V5(PacketV5::Publish(publish)) => {
            assert_eq!(publish.qos, QoS::AtMostOnce);
            assert_eq!(publish.topic, "t");
            assert_eq!(publish.packet_id, None);
            assert_eq!(publish.payload, vec![5, 6]);
        }
        other => panic!("expected PUBLISH, got {other:?}"),
    }
}

#[test]
fn filters_are_counted() {
    let mut buf = BytesMut::from(
        &[0x82_u8, 0x0A, 0, 5, 0, 1, b'a', 0, 0, 1, b'b', 1][..],
    );
    match decode_one(&mut MqttDecoder::v3(), &mut buf) {
        MqttPacket::V3(PacketV3::Subscribe { packet_id, filters }) => {
            assert_eq!(packet_id.get(), 5);
            assert_eq!(filters, 2);
        }
        other => panic!("expected SUBSCRIBE, got {other:?}"),
    }
    let mut buf = BytesMut::from(&[0xA2_u8, 0x06, 0, 9, 0, 0, 1, b'a'][..]);
    match decode_one(&mut MqttDecoder::v5(), &mut buf) {
        MqttPacket::V5(PacketV5::Unsubscribe { packet_id, filters }) => {
            assert_eq!(packet_id.get(), 9);
            assert_eq!(filters, 1);
        }
        other => panic!("expected UNSUBSCRIBE, got {other:?}"),
    }
}

#[test]
fn every_split_of_a_packet_is_read_alike() {
    let whole = format!(
        "{:?}",
        decode_one(
            &mut MqttDecoder::v3(),
            &mut BytesMut::from(&V3_CONNECT_TEST[..])
        )
    );
    for cut in 0..V3_CONNECT_TEST.len() {
        let mut decoder = MqttDecoder::v3();
        let mut buf = BytesMut::from(&V3_CONNECT_TEST[..cut]);
        assert!(matches!(
            decoder.decode(&mut buf),
            Ok(Decoded::Insufficient)
        ));
        assert!(matches!(
            decoder.decode(&mut buf),
            Ok(Decoded::Insufficient)
        ));
        buf.extend_from_slice(&V3_CONNECT_TEST[cut..]);
        let packet = decode_one(&mut decoder, &mut buf);
        assert_eq!(format!("{packet:?}"), whole, "cut at {cut}");
        assert!(buf.is_empty());
    }
}

#[test]
fn packets_in_one_buffer_are_read_in_turn() {
    let mut decoder = MqttDecoder::v3();
    let mut buf = BytesMut::from(&V3_CONNECT_TEST[..]);
    buf.extend_from_slice(&[0x30, 0x07, 0x00, 0x01, b't', 0x09, 0xC4, 0x03, 0xF5]);
    buf.extend_from_slice(&[0xC0, 0x00]);
    buf.extend_from_slice(&[0xE0, 0x00]);
    assert!(matches!(
        decode_one(&mut decoder, &mut buf),
        MqttPacket::V3(PacketV3::Connect(_))
    ));
    assert!(matches!(
        decode_one(&mut decoder, &mut buf),
        MqttPacket::V3(PacketV3::Publish(_))
    ));
    assert!(matches!(
        decode_one(&mut decoder, &mut buf),
        MqttPacket::V3(PacketV3::PingRequest)
    ));
    assert_eq!(&buf[..], &[0xE0, 0x00][..]);
}

#[test]
fn an_invalid_client_id_is_told_apart() {
    let mut buf = BytesMut::from(
        &[
            0x10_u8, 0x0C, 0x00, 0x04, b'M', b'Q', b'T', b'T', 0x04, 0x00, 0x00, 0x3C, 0x00, 0x00,
        ][..],
    );
    match MqttDecoder::v3().decode(&mut buf) {
        Err(IoError::Rejected(rejection)) => {
            assert_eq!(rejection.fault, Fault::InvalidClientId);
            assert!(matches!(rejection.error, DecodeError::InvalidClientId));
        }
        other => panic!("expected a rejection, got {other:?}"),
    }
    let mut reserved = BytesMut::from(&V3_CONNECT_TEST[..]);
    reserved[9] = 0x01;
    match MqttDecoder::v3().decode(&mut reserved) {
        Err(IoError::Rejected(rejection)) => {
            assert_eq!(rejection.fault, Fault::ConnectReservedFlagSet);
        }
        other => panic!("expected a rejection, got {other:?}"),
    }
}

#[test]
fn kinds_are_read_off_the_first_byte() {
    for (kind, packet) in [
        (0x20_u8, "ConnectAck"),
        (0x40, "PublishAck"),
        (0x50, "PublishReceived"),
        (0x62, "PublishRelease"),
        (0x70, "PublishComplete"),
        (0x90, "SubscribeAck"),
        (0xB0, "UnsubscribeAck"),
        (0xC0, "PingRequest"),
        (0xD0, "PingResponse"),
        (0xE0, "Disconnect"),
    ] {
        for version in [ProtocolVersion::MQTT3, ProtocolVersion::MQTT5] {
            let got = bare_packet(version, kind).expect("a known kind");
            assert!(format!("{got:?}").contains(packet), "{kind:#x}: {got:?}");
        }
    }
    assert!(bare_packet(ProtocolVersion::MQTT3, 0xF0).is_none());
    assert!(matches!(
        bare_packet(ProtocolVersion::MQTT5, 0xF0),
        Some(MqttPacket::V5(PacketV5::Auth))
    ));
    assert!(bare_packet(ProtocolVersion::MQTT5, 0x00).is_none());
}

#[test]
fn fields_make_packets() {
    let fields = ConnectFields {
        clean: true,
        keep_alive: 9,
        client_id: "id".to_string(),
        auth_method: None,
        max_packet_size: Some(0),
    };
    match connect_packet(ProtocolVersion::MQTT5, fields) {
        MqttPacket::V5(PacketV5::Connect(connect)) => {
            assert!(connect.clean_start);
            assert_eq!(connect.keep_alive, 9);
            assert_eq!(connect.max_packet_size, None);
        }
        other => panic!("expected CONNECT, got {other:?}"),
    }
    let publish = |qos| PublishFields {
        qos,
        topic: "t".to_string(),
        packet_id: Some(3),
        payload: vec![1],
    };
    assert!(matches!(
        publish_packet(ProtocolVersion::MQTT3, publish(2)),
        Some(MqttPacket::V3(PacketV3::Publish(_)))
    ));
    assert!(publish_packet(ProtocolVersion::MQTT3, publish(3)).is_none());
    assert!(matches!(
        filters_packet(ProtocolVersion::MQTT3, true, 4, 2),
        Some(MqttPacket::V3(PacketV3::Subscribe { filters: 2, .. }))
    ));
    assert!(filters_packet(ProtocolVersion::MQTT5, false, 0, 2).is_none());
}

#[test]
fn every_disconnect_has_its_code() {
    for (reason_code, byte) in [
        (DisconnectReasonCode::MalformedPacket, 0x81_u8),
        (DisconnectReasonCode::ProtocolError, 0x82),
        (DisconnectReasonCode::PacketTooLarge, 0x95),
        (DisconnectReasonCode::QosNotSupported, 0x9B),
    ] {
        let packet = ServerPacket::V5(ServerPacketV5::Disconnect { reason_code });
        assert_eq!(
            encode_packet(&packet, ProtocolVersion::MQTT5),
            Ok(vec![0xE0, 0x02, byte, 0x00])
        );
        assert_eq!(
            encode_packet(&packet, ProtocolVersion::MQTT3),
            Err(EncodeError::MalformedPacket)
        );
    }
}

#[test]
fn an_encoder_appends() {
    let mut buf = BytesMut::from(&b"x"[..]);
    let pong = ServerPacket::V5(ServerPacketV5::PingResponse);
    MqttEncoder::v5().encode(&pong, &mut buf).expect("encode");
    MqttEncoder::v5().encode(&pong, &mut buf).expect("encode");
    assert_eq!(&buf[..], &[b'x', 0xD0, 0, 0xD0, 0][..]);
}

#[test]
fn an_overlong_identifier_cannot_be_encoded() {
    let ack = |len: usize| {
        ServerPacket::V5(ServerPacketV5::ConnectAck(ConnectAckV5 {
            reason_code: ConnectAckReasonV5::Success,
            session_present: false,
            session_expiry_interval_secs: None,
            max_qos: QoS::ExactlyOnce,
            retain_available: true,
            wildcard_subscription_available: true,
            subscription_identifiers_available: true,
            shared_subscription_available: true,
            assigned_client_id: Some("i".repeat(len)),
            server_keepalive_sec: None,
        }))
    };
    assert_eq!(
        encode_packet(&ack(65_536), ProtocolVersion::MQTT5),
        Err(EncodeError::InvalidLength)
    );
    let bytes = encode_packet(&ack(65_535), ProtocolVersion::MQTT5).expect("encode");
    // Header byte, three length bytes, two fixed bytes, three property length
    // bytes, then the property: its code, a two-byte length, the text.
    assert_eq!(bytes.len(), 1 + 3 + 2 + 3 + 3 + 65_535);
}

#[test]
fn ids_are_never_zero() {
    assert_eq!(PacketId::new(0), None);
    assert_eq!(FilterCount::new(0), None);
    assert_eq!(PacketLimit::new(0), None);
    assert_eq!(PacketId::new(7).map(|id| id.get()), Some(7));
    assert_eq!(FilterCount::new(8).map(|n| n.get()), Some(8));
    assert_eq!(PacketLimit::new(9).map(|n| n.get()), Some(9));
}

#[test]
fn a_first_packet_is_told_by_its_header() {
    let told = |bytes: &[u8]| VersionDecoder::new().decode(&BytesMut::from(bytes));
    for partial in [
        &[0xC0_u8][..],
        &[0xC0, 0x80],
        &[0xC0, 0x80, 0x80],
        &[0xC0, 0x80, 0x80, 0x80],
    ] {
        assert!(matches!(told(partial), Ok(Decoded::Insufficient)));
    }
    for other in [
        &[0xC0_u8, 0x00][..],
        &[0x30, 0x80, 0x01],
        &[0x82, 0x80, 0x80, 0x01],
        &[0xE0, 0x80, 0x80, 0x80, 0x01],
        &[0xE0, 0x80, 0x80, 0x80, 0x80],
    ] {
        assert!(matches!(told(other), Err(IoError::Rejected(_))));
    }
}

#[test]
fn a_header_waits_apart_from_the_stream() {
    let mut decoder = MqttDecoder::v3();
    let mut buf = BytesMut::from(&V3_CONNECT_TEST[..5]);
    assert!(matches!(
        decoder.decode(&mut buf),
        Ok(Decoded::Insufficient)
    ));
    assert_eq!(decoder.header, vec![0x10, 0x10]);
    assert_eq!(&buf[..], &V3_CONNECT_TEST[2..5]);
}

#[test]
fn a_rejected_packet_leaves_its_header() {
    let bytes = [0x00_u8, 0x01, 0xAA, 0xC0, 0x00];
    let mut decoder = MqttDecoder::v3();
    let mut buf = BytesMut::from(&bytes[..]);
    let mut codec = v3::Codec::default();
    let mut theirs = BytesMut::from(&bytes[..]);
    for left in [&[0xC0_u8, 0x00][..], &[0x00], &[]] {
        match decoder.decode(&mut buf) {
            Err(IoError::Rejected(rejection)) => {
                assert_eq!(rejection.text, "Unsupported packet type");
            }
            other => panic!("expected a rejection, got {other:?}"),
        }
        assert_eq!(decoder.header, vec![0x00, 0x01]);
        assert_eq!(&buf[..], left);
        assert!(codec.decode(&mut theirs).is_err());
        assert_eq!(&theirs[..], left);
    }
    assert!(matches!(
        decoder.decode(&mut buf),
        Ok(Decoded::Insufficient)
    ));
    assert!(matches!(codec.decode(&mut theirs), Ok(None)));
}

#[test]
fn pings_are_written_in_both_versions() {
    for (packet, version, first) in [
        (
            ServerPacket::V3(ServerPacketV3::PingRequest),
            ProtocolVersion::MQTT3,
            0xC0,
        ),
        (
            ServerPacket::V3(ServerPacketV3::PingResponse),
            ProtocolVersion::MQTT3,
            0xD0,
        ),
        (
            ServerPacket::V5(ServerPacketV5::PingRequest),
            ProtocolVersion::MQTT5,
            0xC0,
        ),
        (
            ServerPacket::V5(ServerPacketV5::PingResponse),
            ProtocolVersion::MQTT5,
            0xD0,
        ),
    ] {
        assert_eq!(encode_packet(&packet, version), Ok(vec![first, 0x00]));
    }
}

#[test]
fn bytes_that_are_no_header_are_rejected() {
    for version in [ProtocolVersion::MQTT3, ProtocolVersion::MQTT5] {
        let mut buf = BytesMut::from(&[0xC0_u8, 0x80, 0x80, 0x80][..]);
        let mut decoder = MqttDecoder::new(version);
        assert!(matches!(
            decoder.decode(&mut buf),
            Ok(Decoded::Insufficient)
        ));
        buf.extend_from_slice(&[0x80]);
        assert!(matches!(
            decoder.decode(&mut buf),
            Err(IoError::Rejected(_))
        ));
    }
}

#[test]
fn an_overlong_refusal_says_how_long_it_is() {
    let id = PacketId::new(1).expect("non-zero");
    let most = 268_435_455;
    let over = |size| Err(EncodeError::OverMaxPacketSize { size, max: most });
    let v3 = |count| {
        ServerPacket::V3(ServerPacketV3::SubscribeAck {
            packet_id: id,
            status: vec![SubscribeReturnCode::Failure; count],
        })
    };
    assert_eq!(
        encode_packet(&v3(most as usize - 1), ProtocolVersion::MQTT3),
        over(most + 1)
    );
    let v5 = |count| {
        ServerPacket::V5(ServerPacketV5::UnsubscribeAck {
            packet_id: id,
            status: vec![UnsubscribeAckReason::NoSubscriptionExisted; count],
        })
    };
    assert_eq!(
        encode_packet(&v5(most as usize), ProtocolVersion::MQTT5),
        over(most + 3)
    );
}
