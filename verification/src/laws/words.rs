//! What is logged: which errors are routine, how loud a line is, and what it says.

use crate::broker::handler;
use crate::broker::handler::{Level, Note, Refusal};
use crate::broker::packet::{Reply, Violation};
use crate::codec::parse;
use crate::codec::types;
use crate::codec::types::{
    ConnectAckReason, ConnectAckReasonV5, EncodeError, ServerPacket, ServerPacketV3, ServerPacketV5,
};
use crate::error::{Error, IoError, IoErrorKind};
use rmqtt_codec::error::DecodeError;
use vstd::prelude::*;

verus! {

/// A client that falls silent, closes, or breaks the connection off went away as clients
/// do. Nothing else is routine: no other failure of the transport, no rejected bytes, and
/// nothing that the broker did.
pub proof fn law_routine_is_the_client_going_away(e: Error, r: bool)
    requires
        call_ensures(Error::is_routine_disconnect, (&e,), r),
    ensures
        r <==> match e {
            Error::Timeout | Error::ClientClosed => true,
            Error::Io(IoError::Transport { kind, .. }) => kind == IoErrorKind::ConnectionReset
                || kind == IoErrorKind::BrokenPipe,
            Error::Io(IoError::Rejected(_)) => false,
            Error::Decode(_) | Error::Encode(_) | Error::Protocol(_) | Error::Worker(_) => false,
        },
{
}

/// A failure of the transport has the kind that the transport told, and rejected bytes
/// are invalid data. Only a reset and a broken pipe are routine.
pub proof fn law_failures_have_their_kind(e: IoError, kind: IoErrorKind, routine: bool)
    requires
        call_ensures(IoError::kind, (&e,), kind),
        call_ensures(IoError::is_routine, (&e,), routine),
    ensures
        e matches IoError::Transport { kind: told, .. } ==> kind == told,
        e is Rejected ==> kind == IoErrorKind::InvalidData,
        routine <==> kind == IoErrorKind::ConnectionReset || kind == IoErrorKind::BrokenPipe,
{
}

/// An error in words is what it is, and behind that what its cause has to say.
pub proof fn law_errors_name_their_cause(e: Error, r: String)
    requires
        call_ensures(Error::message, (&e,), r),
    ensures
        match e {
            Error::Io(IoError::Transport { message, .. }) => r@ == "I/O error: "@ + message@,
            Error::Io(IoError::Rejected(rejection)) => r@ == "I/O error: "@ + rejection.text@,
            Error::Decode(cause) => r@ == "MQTT decode error: "@ + parse::words(cause),
            Error::Encode(cause) => forall|text: String| #[trigger]
                call_ensures(EncodeError::message, (cause,), text) ==> r@
                    == "MQTT encode error: "@ + text@,
            Error::Timeout => r@ == "Connection timeout"@,
            Error::ClientClosed => r@ == "Client closed connection during handshake"@,
            Error::Protocol(detail) => r@ == "Protocol error: "@ + detail@,
            Error::Worker(detail) => r@ == "Worker error: "@ + detail@,
        },
{
}

/// A failure is wrapped as what it is: of the transport or its bytes, of the decoder, or
/// of the encoder.
pub proof fn law_causes_are_kept(
    io: IoError,
    decode: DecodeError,
    encode: EncodeError,
    a: Error,
    b: Error,
    c: Error,
)
    requires
        call_ensures(<Error as From<IoError>>::from, (io,), a),
        call_ensures(<Error as From<DecodeError>>::from, (decode,), b),
        call_ensures(<Error as From<EncodeError>>::from, (encode,), c),
    ensures
        a == Error::Io(io),
        b == Error::Decode(decode),
        c == Error::Encode(encode),
{
}

/// A line asks for attention exactly where a client did something wrong, or a handshake's
/// transport failed in no routine way.
pub proof fn law_lines_are_as_loud_as_they_matter(note: Note, r: Level)
    requires
        call_ensures(Note::level, (note,), r),
    ensures
        r == Level::Warn <==> match note {
            Note::FirstPacketNotConnect | Note::MalformedConnect | Note::HandshakeTransportError
            | Note::InvalidClientId | Note::ConnectRefused(_) | Note::Violation(_) => true,
            Note::DetectedVersion(_) | Note::HandshakeDisconnect | Note::VersionTimeout
            | Note::ConnectTimeout | Note::FlushTimeout(_) | Note::ClientDisconnect
            | Note::PacketError | Note::ClientClosed | Note::IdleTimeout => false,
        },
{
}

/// A line says what happened. That of a violation says the violation's reason, and that of
/// a stalled write says which write it was.
pub proof fn law_lines_say_what_happened(note: Note, r: &'static str)
    requires
        call_ensures(Note::text, (note,), r),
    ensures
        match note {
            Note::DetectedVersion(_) => r@ == "Detected protocol version"@,
            Note::FirstPacketNotConnect => r@
                == "handshake violation: first packet was not CONNECT"@,
            Note::MalformedConnect => r@ == "handshake violation: malformed CONNECT"@,
            Note::HandshakeDisconnect => r@ == "client disconnected during handshake"@,
            Note::HandshakeTransportError => r@ == "handshake transport error"@,
            Note::VersionTimeout => r@ == "handshake timeout during version detect"@,
            Note::ConnectTimeout => r@ == "handshake timeout during CONNECT read"@,
            Note::InvalidClientId => r@ == "CONNECT refused: invalid client id"@,
            Note::ConnectRefused(refusal) => r@ == match refusal {
                Refusal::IdentifierRejected => "CONNECT refused: IdentifierRejected"@,
                Refusal::ImplementationSpecificError =>
                "CONNECT refused: ImplementationSpecificError"@,
                Refusal::ClientIdentifierNotValid => "CONNECT refused: ClientIdentifierNotValid"@,
                Refusal::BadAuthenticationMethod => "CONNECT refused: BadAuthenticationMethod"@,
                Refusal::Unknown => "CONNECT refused: unknown"@,
            },
            Note::FlushTimeout(context) => r@ == context@,
            Note::ClientDisconnect => r@ == "Client requested disconnect"@,
            Note::PacketError => r@ == "Packet error"@,
            Note::ClientClosed => r@ == "Client closed connection"@,
            Note::IdleTimeout => r@ == "client idle timeout"@,
            Note::Violation(violation) => forall|reason: &'static str| #[trigger]
                call_ensures(Violation::reason, (violation,), reason) ==> r@ == reason@,
        },
{
}

/// A violation is reported as what the client did.
pub proof fn law_violations_say_their_reason(violation: Violation, r: &'static str)
    requires
        call_ensures(Violation::reason, (violation,), r),
    ensures
        r@ == match violation {
            Violation::DuplicateConnect => "protocol violation: duplicate CONNECT"@,
            Violation::PublishMissingPacketId =>
            "protocol violation: PUBLISH at QoS 1 or above without a packet id"@,
            Violation::EmptyTopicFilterList => "protocol violation: empty topic filter list"@,
            Violation::ReplyOverMaxPacketSize =>
            "protocol violation: reply exceeds the client's maximum packet size"@,
            Violation::ServerOnlyPacket =>
            "protocol violation: server-to-client packet from a client"@,
            Violation::Qos2FlowNotImplemented =>
            "protocol violation: QoS 2 flow packet, receiver flow not implemented"@,
            Violation::PublishAckFromClient =>
            "protocol violation: PUBACK from a client this server never publishes to"@,
            Violation::AuthNotNegotiated =>
            "protocol violation: AUTH without a negotiated authentication method"@,
            Violation::PublishQosAboveMaximum =>
            "protocol violation: PUBLISH above the advertised maximum QoS"@,
            Violation::MalformedPacket => "protocol violation: malformed packet"@,
            Violation::VersionProbe =>
            "protocol violation: codec yielded a bare protocol-version item"@,
        },
{
}

/// A reply that stalls is reported as the reply that it is.
pub proof fn law_stalls_name_the_reply(reply: Reply, r: &'static str)
    requires
        call_ensures(Reply::timeout_context, (reply,), r),
    ensures
        r == match reply {
            Reply::PingResponse => "idle timeout during PINGRESP flush",
            Reply::PublishAck(_) => "idle timeout during PUBACK flush",
            Reply::SubscribeRefusal(_, _) => "idle timeout during SUBACK flush",
            Reply::UnsubscribeAck(_, _) => "idle timeout during UNSUBACK flush",
        },
{
}

/// A refusal is logged with the reason that its CONNACK gives the client.
pub proof fn law_refusals_are_logged_as_they_are_told(connack: ServerPacket, r: Refusal)
    requires
        call_ensures(handler::refusal, (&connack,), r),
    ensures
        r == Refusal::IdentifierRejected <==> (connack matches ServerPacket::V3(
            ServerPacketV3::ConnectAck(ack),
        ) && ack.return_code == ConnectAckReason::IdentifierRejected),
        r == Refusal::ImplementationSpecificError <==> (connack matches ServerPacket::V5(
            ServerPacketV5::ConnectAck(ack),
        ) && ack.reason_code == ConnectAckReasonV5::ImplementationSpecificError),
        r == Refusal::ClientIdentifierNotValid <==> (connack matches ServerPacket::V5(
            ServerPacketV5::ConnectAck(ack),
        ) && ack.reason_code == ConnectAckReasonV5::ClientIdentifierNotValid),
        r == Refusal::BadAuthenticationMethod <==> (connack matches ServerPacket::V5(
            ServerPacketV5::ConnectAck(ack),
        ) && ack.reason_code == ConnectAckReasonV5::BadAuthenticationMethod),
{
}

/// Whether `text` is a number in decimal digits: the last digit is what is left of the
/// number by tens, and the digits before it are the tens, if there are any.
pub open spec fn is_decimal(text: Seq<char>, n: nat) -> bool
    decreases text.len(),
{
    &&& text.len() > 0
    &&& '0' <= text.last() <= '9'
    &&& n % 10 == text.last() as nat - '0' as nat
    &&& if n < 10 {
        text.len() == 1
    } else {
        text.len() > 1 && is_decimal(text.drop_last(), n / 10)
    }
}

/// Numbers are written in decimal digits.
proof fn lemma_decimal(n: nat)
    ensures
        is_decimal(types::decimal_text(n), n),
    decreases n,
{
    reveal_strlit("0");
    reveal_strlit("1");
    reveal_strlit("2");
    reveal_strlit("3");
    reveal_strlit("4");
    reveal_strlit("5");
    reveal_strlit("6");
    reveal_strlit("7");
    reveal_strlit("8");
    reveal_strlit("9");
    let text = types::decimal_text(n);
    if n >= 10 {
        lemma_decimal(n / 10);
        assert(text.drop_last() =~= types::decimal_text(n / 10));
    }
}

/// An error of the encoder is said as it is: how large the packet is and how large it may
/// be, in decimal digits, or what is wrong with it.
pub proof fn law_encode_errors_are_said_in_full(e: EncodeError, r: String)
    requires
        call_ensures(EncodeError::message, (e,), r),
    ensures
        match e {
            EncodeError::OverMaxPacketSize { size, max } => exists|a: Seq<char>, b: Seq<char>|
                {
                    &&& #[trigger] is_decimal(a, size as nat)
                    &&& #[trigger] is_decimal(b, max as nat)
                    &&& r@ == "Packet is bigger than peer's Maximum Packet Size: size="@ + a
                        + ", max="@ + b
                },
            EncodeError::InvalidLength => r@ == "Invalid length"@,
            EncodeError::MalformedPacket => r@ == "Malformed packet"@,
        },
{
    if let EncodeError::OverMaxPacketSize { size, max } = e {
        lemma_decimal(size as nat);
        lemma_decimal(max as nat);
    }
}

} // verus!
