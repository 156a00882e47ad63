//! The session: what is written, what is handed on, and how it ends.

use crate::broker::event;
use crate::broker::handler;
use crate::broker::handler::{
    IoEvent, Next, Note, Phase, ReadEvent, SendEvent, Session, SessionOutcome, Step, Terms,
};
use crate::broker::packet;
use crate::broker::packet::{Disposition, PacketKind, Reply, Violation};
use crate::codec::encoder;
use crate::codec::id::{FilterCount, PacketId};
use crate::codec::types::{
    EncodeError, MqttPacket, Publish, QoS, ServerPacket, ServerPacketV3, ServerPacketV5,
};
use crate::codec::version::ProtocolVersion;
use crate::codec::wire;
use crate::error::IoError;
use std::time::Instant;
use vstd::prelude::*;

verus! {

/// The size that the size rule for replies goes by is the size of the bytes
/// that are written for it.
pub proof fn law_reply_is_measured_as_written(
    reply: Reply,
    version: ProtocolVersion,
    written: ServerPacket,
)
    requires
        reply.rendered(version, written),
    ensures
        packet::wire_len(written, version) == reply.wire_len(version),
        reply.wire_len(version) matches Some(n) ==> encoder::wire_form(written, version) matches Ok(
            bytes,
        ) && bytes.len() == n,
{
    packet::lemma_rendered_len(reply, version, written);
}

/// A rendered reply is a packet of the session's version, so that the codec
/// never meets one of the other.
pub proof fn law_reply_has_the_version(
    reply: Reply,
    version: ProtocolVersion,
    written: ServerPacket,
)
    requires
        reply.rendered(version, written),
    ensures
        encoder::wire_form(written, version) != Err::<Seq<u8>, EncodeError>(
            EncodeError::MalformedPacket,
        ),
        written is V3 <==> version == ProtocolVersion::MQTT3,
{
}

/// The protocol version that a session speaks, as long as it reads packets.
pub open spec fn spoken(phase: Phase) -> Option<ProtocolVersion> {
    match phase {
        Phase::Connecting(version) => Some(version),
        Phase::Serving(terms) => Some(terms.version),
        _ => None,
    }
}

/// Everything that a session writes is a packet of the version that it speaks,
/// so that the codec never meets one of the other. The codec reads packets of
/// that version alone.
pub proof fn law_sessions_write_their_version(
    session: Session,
    version: ProtocolVersion,
    event: ReadEvent<MqttPacket>,
    after: Session,
    step: Step,
)
    requires
        spoken(session.phase) == Some(version),
        event matches ReadEvent::Item(received) ==> if version == ProtocolVersion::MQTT3 {
            received is V3
        } else {
            received is V5
        },
        session.advanced(IoEvent::Packet(event), after, step),
    ensures
        step.next matches Next::Send { packet: written, .. } ==> {
            &&& written is V3 <==> version == ProtocolVersion::MQTT3
            &&& encoder::wire_form(written, version) != Err::<Seq<u8>, EncodeError>(
                EncodeError::MalformedPacket,
            )
        },
{
}

/// A refusal of a SUBSCRIBE carries one failure code for each topic filter,
/// behind the packet identifier of the request, and at least one.
pub proof fn law_refusal_answers_every_filter(
    id: PacketId,
    filters: FilterCount,
    version: ProtocolVersion,
    written: ServerPacket,
)
    requires
        Reply::SubscribeRefusal(id, filters).rendered(version, written),
        filters@ + 3 <= wire::MAX_REMAINING_LENGTH,
    ensures
        ({
            let codes = Seq::new(
                filters@ as nat,
                |i: int|
                    if version == ProtocolVersion::MQTT3 {
                        0x80u8
                    } else {
                        0x83u8
                    },
            );
            let rest = if version == ProtocolVersion::MQTT3 {
                wire::be16(id@) + codes
            } else {
                wire::be16(id@) + seq![0u8] + codes
            };
            encoder::wire_form(written, version) == Ok::<Seq<u8>, EncodeError>(
                wire::frame(0x90, rest),
            )
        }),
{
    match (version, written) {
        (
            ProtocolVersion::MQTT3,
            ServerPacket::V3(ServerPacketV3::SubscribeAck { packet_id, status }),
        ) => {
            assert(encoder::return_codes(status@) == Seq::new(
                filters@ as nat,
                |i: int|
                    if version == ProtocolVersion::MQTT3 {
                        0x80u8
                    } else {
                        0x83u8
                    },
            ));
        },
        (
            ProtocolVersion::MQTT5,
            ServerPacket::V5(ServerPacketV5::SubscribeAck { packet_id, status }),
        ) => {
            assert(encoder::subscribe_codes(status@) == Seq::new(
                filters@ as nat,
                |i: int|
                    if version == ProtocolVersion::MQTT3 {
                        0x80u8
                    } else {
                        0x83u8
                    },
            ));
        },
        _ => {},
    }
}

/// Nothing that is written in a session exceeds the packet size that the client
/// declared, neither a reply nor the DISCONNECT that a violation closes with.
pub proof fn law_sessions_keep_the_limit(
    session: Session,
    terms: Terms,
    event: IoEvent,
    after: Session,
    step: Step,
)
    requires
        session.phase == Phase::Serving(terms),
        session.advanced(event, after, step),
    ensures
        step.next matches Next::Send { packet: written, .. } ==> packet::fits(
            packet::wire_len(written, terms.version),
            terms.max_packet_size,
        ),
{
    reveal_with_fuel(wire::var_int, 2);
    if let IoEvent::Packet(ReadEvent::Item(received)) = event {
        let d = choose|d: Disposition|
            #[trigger] packet::disposition_is(packet::kind_of(received), d)
                && handler::after_disposition(terms, d, after.phase, step);
        if let Next::Send { packet: written, .. } = step.next {
            let reply = match d {
                Disposition::DeliverThenAck(_, id) => Reply::PublishAck(id),
                Disposition::Reply(reply) => reply,
                _ => Reply::PingResponse,
            };
            if reply.rendered(terms.version, written) {
                packet::lemma_rendered_len(reply, terms.version, written);
            }
        }
    }
}

/// A packet that breaks the protocol ends the session with that violation: at
/// once, or as soon as the DISCONNECT has been written or has failed to be.
pub proof fn law_violations_end_the_session(
    session: Session,
    terms: Terms,
    received: MqttPacket,
    violation: Violation,
    after: Session,
    step: Step,
    sent: SendEvent,
    last: Session,
    last_step: Step,
)
    requires
        session.phase == Phase::Serving(terms),
        packet::disposition_is(
            packet::kind_of(received),
            Disposition::Violation(violation),
        ),
        session.advanced(IoEvent::Packet(ReadEvent::Item(received)), after, step),
        after.phase is Ended || after.advanced(IoEvent::Sent(sent), last, last_step),
    ensures
        step.note == Some(Note::Violation(violation)),
        if after.phase is Ended {
            step.next == Next::Finish(Ok(SessionOutcome::Violation(violation)))
        } else {
            last_step.next == Next::Finish(Ok(SessionOutcome::Violation(violation)))
        },
{
}

/// A PUBACK answers a PUBLISH that asked for it, under its packet identifier,
/// and the reading that the payload holds has been handed on before.
pub proof fn law_acknowledged_is_delivered(
    session: Session,
    terms: Terms,
    received: MqttPacket,
    after: Session,
    step: Step,
    id: PacketId,
)
    requires
        session.phase == Phase::Serving(terms),
        session.advanced(IoEvent::Packet(ReadEvent::Item(received)), after, step),
        step.next matches Next::Send { packet: written, .. } && Reply::PublishAck(id).rendered(
            terms.version,
            written,
        ),
    ensures
        packet::kind_of(received) matches PacketKind::Publish(publish) && publish.qos
            == QoS::AtLeastOnce && publish.packet_id == Some(id) && step.deliver == event::reading(
            publish.payload@,
        ),
{
}

/// A PUBLISH at the lowest quality of service is handed on and not answered.
pub proof fn law_qos0_is_not_answered(
    session: Session,
    terms: Terms,
    received: MqttPacket,
    publish: Publish,
    after: Session,
    step: Step,
)
    requires
        session.phase == Phase::Serving(terms),
        packet::kind_of(received) == PacketKind::Publish(publish),
        publish.qos == QoS::AtMostOnce,
        session.advanced(IoEvent::Packet(ReadEvent::Item(received)), after, step),
    ensures
        after.phase == session.phase,
        step == (Step {
            note: None,
            deliver: event::reading(publish.payload@),
            next: Next::ReadPacket,
        }),
{
}

/// A session serves packets only after its CONNACK was flushed.
pub proof fn law_service_follows_the_connack(
    session: Session,
    event: IoEvent,
    after: Session,
    step: Step,
)
    requires
        session.advanced(event, after, step),
        after.phase is Serving || step.next is ReadPacket,
    ensures
        session.phase is Serving || session.phase is Replying || session.phase is Accepting,
        session.phase is Accepting ==> event == IoEvent::Sent(SendEvent::Flushed),
{
}

/// A client that was refused is not served: its session hands nothing on, and
/// ends when the refusal was written or failed to be.
pub proof fn law_the_refused_are_not_served(
    session: Session,
    event: IoEvent,
    after: Session,
    step: Step,
)
    requires
        session.phase is Refusing,
        session.advanced(event, after, step),
    ensures
        after.phase is Ended,
        step.deliver is None,
        event == IoEvent::Sent(SendEvent::Flushed) ==> step.next == Next::Finish(
            Ok(SessionOutcome::Refused),
        ),
        event != IoEvent::Sent(SendEvent::Flushed) ==> (step.next matches Next::Finish(Err(_))),
{
}

/// Only a PUBLISH of an established session is handed on.
pub proof fn law_only_publishes_are_delivered(
    session: Session,
    event: IoEvent,
    after: Session,
    step: Step,
)
    requires
        session.advanced(event, after, step),
        step.deliver is Some,
    ensures
        session.phase is Serving,
        event matches IoEvent::Packet(ReadEvent::Item(received)) && packet::kind_of(received)
            is Publish,
{
}

/// The terms of a session stand until it ends.
pub proof fn law_terms_stand(session: Session, event: IoEvent, after: Session, step: Step)
    requires
        session.advanced(event, after, step),
        session.terms() is Some,
    ensures
        after.phase is Ended || after.terms() == session.terms(),
{
}

/// A session that ended waits for nothing, and it ends exactly where the step
/// says that it is finished.
pub proof fn law_the_end_is_final(session: Session, event: IoEvent, after: Session, step: Step)
    requires
        session.advanced(event, after, step),
    ensures
        after.phase is Ended <==> step.next is Finish,
        after.phase is Ended ==> forall|e: IoEvent| !handler::awaited(after.phase, e),
{
}

/// What a session asks for is what it then waits for.
pub proof fn law_the_next_event_is_awaited(
    session: Session,
    event: IoEvent,
    after: Session,
    step: Step,
    next: IoEvent,
)
    requires
        session.advanced(event, after, step),
        match step.next {
            Next::DetectVersion => next is Version,
            Next::ReadConnect(_) => next is Packet,
            Next::ReadPacket => next is Packet,
            Next::Send { .. } => next is Sent,
            Next::Finish(_) => false,
        },
    ensures
        handler::awaited(after.phase, next),
{
}

/// A transport that fails is no violation, whatever kind of failure it was, and
/// bytes that are rejected are one, or a refusal, and never pass as a failure of
/// the transport.
pub proof fn law_failures_are_told_apart(session: Session, e: IoError, after: Session, step: Step)
    requires
        session.advanced(IoEvent::Packet(ReadEvent::Failed(e)), after, step) || session.advanced(
            IoEvent::Version(ReadEvent::Failed(e)),
            after,
            step,
        ),
    ensures
        e is Transport ==> !(step.note matches Some(note) && (note is Violation || note
            is FirstPacketNotConnect || note is MalformedConnect || note is InvalidClientId)),
        e is Transport && session.phase is Serving ==> step.next == Next::Finish(
            Ok(SessionOutcome::Served),
        ),
        e is Rejected ==> !(step.note matches Some(note) && (note is HandshakeTransportError || note
            is HandshakeDisconnect || note is PacketError)),
        e is Rejected ==> (step.note matches Some(note) && note.level_spec()
            == handler::Level::Warn),
{
}

/// A packet starts the clock of a session's silence anew, and nothing else does:
/// no reply, however slow, buys the client time.
pub proof fn law_only_packets_reset_the_deadline(
    session: Session,
    event: IoEvent,
    at: Instant,
    after: Session,
    step: Step,
)
    requires
        session.terms() is Some,
        session.advanced(event, after, step),
        session.clocked(event, at, after),
        after.terms() is Some,
    ensures
        after.allowance_ms() == session.allowance_ms(),
        after.allowed_since() == if event matches IoEvent::Packet(ReadEvent::Item(_)) {
            at
        } else {
            session.allowed_since()
        },
{
}

/// The first silence counts from the arrival of the CONNECT, however long the
/// CONNACK took.
pub proof fn law_first_silence_counts_from_the_connect(
    session: Session,
    first: MqttPacket,
    received_at: Instant,
    accepting: Session,
    step: Step,
    flushed_at: Instant,
    serving: Session,
    last_step: Step,
)
    requires
        session.phase is Connecting,
        session.advanced(IoEvent::Packet(ReadEvent::Item(first)), accepting, step),
        session.clocked(IoEvent::Packet(ReadEvent::Item(first)), received_at, accepting),
        accepting.phase is Accepting,
        accepting.advanced(IoEvent::Sent(SendEvent::Flushed), serving, last_step),
        accepting.clocked(IoEvent::Sent(SendEvent::Flushed), flushed_at, serving),
    ensures
        serving.terms() is Some,
        serving.allowed_since() == received_at,
{
}

/// One budget covers the whole handshake, from the first read to the flush of
/// the CONNACK. No step of it starts the clock anew.
pub proof fn law_handshake_has_one_budget(
    session: Session,
    event: IoEvent,
    at: Instant,
    after: Session,
)
    requires
        session.terms() is None,
        session.same_settings(after),
        session.clocked(event, at, after),
        after.terms() is None,
    ensures
        after.allowance_ms() == session.allowance_ms(),
        after.allowed_since() == session.allowed_since(),
{
}

} // verus!
