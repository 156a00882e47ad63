//! An established session: what every packet of a client leads to, by the packet's own
//! fields, down to the bytes that go back.

use crate::broker::event::Event;
use crate::broker::handler;
use crate::broker::handler::{
    IoEvent, Next, Note, Phase, ReadEvent, SendEvent, Session, SessionOutcome, Step, Terms,
};
use crate::broker::packet;
use crate::broker::packet::{Disposition, Reply, Violation};
use crate::codec::id::{PacketId, PacketLimit};
use crate::codec::types::{
    MqttPacket, PacketV3, PacketV5, Publish, QoS, ServerPacket, ServerPacketV3, ServerPacketV5,
};
use crate::codec::version::ProtocolVersion;
use crate::error::{Error, IoError};
use crate::laws::wire;
use crate::record::clock::Clock;
use std::time::Instant;
use vstd::prelude::*;

verus! {

/// Whether a session went on from `event` with `step`, in any of the ways in which it
/// can: at a given time, by a given clock, or by a clock of its own.
pub open spec fn stepped(session: &mut Session, event: IoEvent, step: Step) -> bool {
    ||| exists|at: Instant| call_ensures(Session::step_at, (session, event, at), step)
    ||| exists|clock: &mut Clock| call_ensures(Session::step_by, (session, clock, event), step)
    ||| call_ensures(Session::step, (session, event), step)
}

/// Whether a packet arrived in an established session and led to `step`.
pub open spec fn served(
    session: &mut Session,
    terms: Terms,
    received: MqttPacket,
    step: Step,
) -> bool {
    &&& session.phase == Phase::Serving(terms)
    &&& stepped(session, IoEvent::Packet(ReadEvent::Item(received)), step)
}

/// Whether a client that declared `limit` can receive a packet of so many bytes.
pub open spec fn receives(limit: Option<PacketLimit>, size: int) -> bool {
    limit matches Some(l) ==> size <= l@
}

/// Whether exactly these bytes are written next. A stall is reported as `context`.
pub open spec fn writes(
    next: Next,
    version: ProtocolVersion,
    bytes: Seq<u8>,
    context: &'static str,
) -> bool {
    &&& next matches Next::Send { packet, timeout_context }
    &&& wire::encodes(packet, version, bytes)
    &&& timeout_context == context
}

/// Whether a breach of the protocol closes the session. A 5.0 client is told the
/// reason, unless it cannot receive the four bytes of a DISCONNECT, and a 3.1.1 client
/// is told nothing.
pub open spec fn closes(
    terms: Terms,
    violation: Violation,
    code: u8,
    after: Phase,
    step: Step,
) -> bool {
    &&& step.note == Some(Note::Violation(violation))
    &&& if terms.version == ProtocolVersion::MQTT5 && receives(terms.max_packet_size, 4) {
        &&& writes(
            step.next,
            ProtocolVersion::MQTT5,
            seq![0xE0u8, 2u8, code, 0u8],
            "idle timeout during DISCONNECT flush",
        )
        &&& after == Phase::Disconnecting(terms, violation)
    } else {
        &&& step.next == Next::Finish(Ok(SessionOutcome::Violation(violation)))
        &&& after is Ended
    }
}

/// Whether `event` is what a payload reports: nothing where it is shorter than four
/// bytes, else the temperature in the first two bytes, in two's complement, and the
/// pressure in the next two.
pub open spec fn reports(payload: Seq<u8>, event: Option<Event>) -> bool {
    if payload.len() < 4 {
        event is None
    } else {
        &&& event matches Some(Event::SensorV1 { temperature, pressure })
        &&& pressure == 256 * payload[2] + payload[3]
        &&& {
            ||| temperature == 256 * payload[0] + payload[1]
            ||| temperature == 256 * payload[0] + payload[1] - 65536
        }
    }
}

/// A packet of an established session leads where its disposition says.
proof fn lemma_served(session: &mut Session, terms: Terms, received: MqttPacket, step: Step)
    requires
        served(session, terms, received, step),
    ensures
        exists|d: Disposition| #[trigger]
            packet::disposition_is(packet::kind_of(received), d) && handler::after_disposition(
                terms,
                d,
                final(session).phase,
                step,
            ),
{
}

/// A violation closes the session.
proof fn lemma_closes(
    terms: Terms,
    violation: Violation,
    code: u8,
    deliver: Option<Event>,
    after: Phase,
    step: Step,
)
    requires
        handler::after_violation(terms, violation, deliver, after, step),
        code == match violation {
            Violation::MalformedPacket => 0x81u8,
            Violation::ReplyOverMaxPacketSize => 0x95u8,
            Violation::Qos2FlowNotImplemented => 0x9Bu8,
            Violation::PublishQosAboveMaximum => 0x9Bu8,
            _ => 0x82u8,
        },
    ensures
        closes(terms, violation, code, after, step),
        step.deliver == deliver,
{
    wire::law_disconnect_bytes(violation.close_code());
}

/// Every PUBLISH at the middle quality of service is handed on and then acknowledged:
/// the PUBACK carries the very packet identifier that the PUBLISH came with, whatever
/// it is. Only a client that cannot receive a PUBACK gets none, and it is cut off.
pub proof fn law_qos1_is_acknowledged(
    session: &mut Session,
    terms: Terms,
    received: MqttPacket,
    publish: Publish,
    id: PacketId,
    step: Step,
)
    requires
        served(session, terms, received, step),
        received == MqttPacket::V3(PacketV3::Publish(publish)) || received == MqttPacket::V5(
            PacketV5::Publish(publish),
        ),
        publish.qos == QoS::AtLeastOnce,
        publish.packet_id == Some(id),
    ensures
        reports(publish.payload@, step.deliver),
        ({
            let (high, low) = ((id@ / 256) as u8, (id@ % 256) as u8);
            let puback = if terms.version == ProtocolVersion::MQTT3 {
                seq![0x40u8, 2u8, high, low]
            } else {
                seq![0x40u8, 4u8, high, low, 0u8, 0u8]
            };
            if receives(terms.max_packet_size, puback.len() as int) {
                &&& writes(step.next, terms.version, puback, "idle timeout during PUBACK flush")
                &&& step.note is None
                &&& final(session).phase == Phase::Replying(
                    terms,
                    "idle timeout during PUBACK flush",
                )
            } else {
                closes(
                    terms,
                    Violation::ReplyOverMaxPacketSize,
                    0x95,
                    final(session).phase,
                    step,
                )
            }
        }),
{
    lemma_served(session, terms, received, step);
    wire::law_puback_v3_bytes(id);
    wire::law_puback_v5_bytes(id);
    reveal_with_fuel(crate::codec::wire::var_int, 2);
    if !packet::fits(Reply::PublishAck(id).wire_len(terms.version), terms.max_packet_size) {
        lemma_closes(
            terms,
            Violation::ReplyOverMaxPacketSize,
            0x95,
            step.deliver,
            final(session).phase,
            step,
        );
    }
}

/// A PUBLISH at the lowest quality of service is handed on, and the session reads on:
/// nothing goes back, with or without a packet identifier.
pub proof fn law_qos0_is_handed_on(
    session: &mut Session,
    terms: Terms,
    received: MqttPacket,
    publish: Publish,
    step: Step,
)
    requires
        served(session, terms, received, step),
        received == MqttPacket::V3(PacketV3::Publish(publish)) || received == MqttPacket::V5(
            PacketV5::Publish(publish),
        ),
        publish.qos == QoS::AtMostOnce,
    ensures
        reports(publish.payload@, step.deliver),
        step.note is None,
        step.next is ReadPacket,
        final(session).phase == Phase::Serving(terms),
{
    lemma_served(session, terms, received, step);
}

/// A PUBLISH at the highest quality of service is not handed on: it closes the session,
/// and so does one at the middle quality without a packet identifier.
pub proof fn law_what_cannot_be_acknowledged_is_refused(
    session: &mut Session,
    terms: Terms,
    received: MqttPacket,
    publish: Publish,
    step: Step,
)
    requires
        served(session, terms, received, step),
        received == MqttPacket::V3(PacketV3::Publish(publish)) || received == MqttPacket::V5(
            PacketV5::Publish(publish),
        ),
    ensures
        publish.qos == QoS::ExactlyOnce ==> step.deliver is None && closes(
            terms,
            Violation::PublishQosAboveMaximum,
            0x9B,
            final(session).phase,
            step,
        ),
        publish.qos == QoS::AtLeastOnce && publish.packet_id is None ==> step.deliver is None
            && closes(
            terms,
            Violation::PublishMissingPacketId,
            0x82,
            final(session).phase,
            step,
        ),
{
    lemma_served(session, terms, received, step);
    let after = final(session).phase;
    if publish.qos == QoS::ExactlyOnce {
        lemma_closes(terms, Violation::PublishQosAboveMaximum, 0x9B, None, after, step);
    } else if publish.qos == QoS::AtLeastOnce && publish.packet_id is None {
        lemma_closes(terms, Violation::PublishMissingPacketId, 0x82, None, after, step);
    }
}

/// Whether a request for so many topic filters is answered: a packet that begins with
/// `first` and holds `rest` goes back, if a header can count it at all. Where the
/// client declared a limit and the packet exceeds it, the session closes instead.
pub open spec fn answers(
    terms: Terms,
    first: u8,
    rest: Seq<u8>,
    context: &'static str,
    after: Phase,
    step: Step,
) -> bool {
    let size = 1 + wire::field_size(rest.len()) + rest.len();
    if terms.max_packet_size is None || (rest.len() <= 268_435_455 && receives(
        terms.max_packet_size,
        size as int,
    )) {
        &&& step.note is None
        &&& after == Phase::Replying(terms, context)
        &&& step.next matches Next::Send { packet, timeout_context }
        &&& timeout_context == context
        &&& rest.len() <= 268_435_455 ==> wire::encodes_as(packet, terms.version, first, rest)
    } else {
        closes(terms, Violation::ReplyOverMaxPacketSize, 0x95, after, step)
    }
}

/// A reply is written behind the least header, or closes the session.
proof fn lemma_answers(
    terms: Terms,
    reply: Reply,
    first: u8,
    rest: Seq<u8>,
    after: Phase,
    step: Step,
)
    requires
        handler::after_reply(terms, reply, None, after, step),
        reply.remaining_length(terms.version) == rest.len(),
        forall|packet: ServerPacket|
            #![trigger reply.rendered(terms.version, packet)]
            reply.rendered(terms.version, packet) && rest.len() <= 268_435_455 ==> wire::encodes_as(
                packet,
                terms.version,
                first,
                rest,
            ),
    ensures
        answers(terms, first, rest, reply.context(), after, step),
        step.deliver is None,
{
    if rest.len() <= 268_435_455 {
        crate::codec::wire::lemma_var_int_len(rest.len());
    }
    if !packet::fits(reply.wire_len(terms.version), terms.max_packet_size) {
        lemma_closes(terms, Violation::ReplyOverMaxPacketSize, 0x95, None, after, step);
    }
}

/// Every SUBSCRIBE is answered with its own packet identifier and exactly as many
/// failure codes as it named topic filters, whatever their number. One without topic
/// filters closes the session.
pub proof fn law_subscribe_is_answered_filter_by_filter(
    session: &mut Session,
    terms: Terms,
    received: MqttPacket,
    packet_id: PacketId,
    filters: usize,
    step: Step,
)
    requires
        served(session, terms, received, step),
        received == MqttPacket::V3(PacketV3::Subscribe { packet_id, filters }) || received
            == MqttPacket::V5(PacketV5::Subscribe { packet_id, filters }),
    ensures
        step.deliver is None,
        ({
            let (high, low) = ((packet_id@ / 256) as u8, (packet_id@ % 256) as u8);
            let rest = if terms.version == ProtocolVersion::MQTT3 {
                seq![high, low] + Seq::new(filters as nat, |i: int| 0x80u8)
            } else {
                seq![high, low, 0u8] + Seq::new(filters as nat, |i: int| 0x83u8)
            };
            if filters == 0 {
                closes(terms, Violation::EmptyTopicFilterList, 0x82, final(session).phase, step)
            } else {
                answers(
                    terms,
                    0x90,
                    rest,
                    "idle timeout during SUBACK flush",
                    final(session).phase,
                    step,
                )
            }
        }),
{
    lemma_served(session, terms, received, step);
    let after = final(session).phase;
    let d = choose|d: Disposition| #[trigger]
        packet::disposition_is(packet::kind_of(received), d) && handler::after_disposition(
            terms,
            d,
            after,
            step,
        );
    if filters == 0 {
        lemma_closes(terms, Violation::EmptyTopicFilterList, 0x82, None, after, step);
    } else if let Disposition::Reply(reply) = d {
        let (high, low) = ((packet_id@ / 256) as u8, (packet_id@ % 256) as u8);
        let rest = if terms.version == ProtocolVersion::MQTT3 {
            seq![high, low] + Seq::new(filters as nat, |i: int| 0x80u8)
        } else {
            seq![high, low, 0u8] + Seq::new(filters as nat, |i: int| 0x83u8)
        };
        assert forall|packet: ServerPacket|
            #![trigger reply.rendered(terms.version, packet)]
            reply.rendered(terms.version, packet) && rest.len()
                <= 268_435_455 implies wire::encodes_as(packet, terms.version, 0x90, rest) by {
            match packet {
                ServerPacket::V3(ServerPacketV3::SubscribeAck { packet_id, status }) => {
                    wire::law_suback_v3_bytes(packet_id, status);
                },
                ServerPacket::V5(ServerPacketV5::SubscribeAck { packet_id, status }) => {
                    wire::law_suback_v5_bytes(packet_id, status);
                },
                _ => {},
            }
        }
        lemma_answers(terms, reply, 0x90, rest, after, step);
    }
}

/// The SUBACK that goes back has one code for each topic filter of the SUBSCRIBE, no more
/// and no fewer, and so has the UNSUBACK of a 5.0 UNSUBSCRIBE. Either carries the packet
/// identifier of its request. Here the client has set no limit.
pub proof fn law_as_many_codes_as_filters(
    session: &mut Session,
    terms: Terms,
    received: MqttPacket,
    packet_id: PacketId,
    filters: usize,
    step: Step,
)
    requires
        served(session, terms, received, step),
        terms.max_packet_size is None,
        filters > 0,
    ensures
        received == MqttPacket::V3(PacketV3::Subscribe { packet_id, filters }) || received
            == MqttPacket::V5(PacketV5::Subscribe { packet_id, filters }) ==> {
            ||| {
                &&& terms.version == ProtocolVersion::MQTT3
                &&& step.next matches Next::Send {
                    packet: ServerPacket::V3(
                        ServerPacketV3::SubscribeAck { packet_id: id, status },
                    ),
                    ..
                }
                &&& id == packet_id
                &&& status@.len() == filters
            }
            ||| {
                &&& terms.version == ProtocolVersion::MQTT5
                &&& step.next matches Next::Send {
                    packet: ServerPacket::V5(
                        ServerPacketV5::SubscribeAck { packet_id: id, status },
                    ),
                    ..
                }
                &&& id == packet_id
                &&& status@.len() == filters
            }
        },
        received == MqttPacket::V3(PacketV3::Unsubscribe { packet_id, filters }) || received
            == MqttPacket::V5(PacketV5::Unsubscribe { packet_id, filters }) ==> {
            ||| {
                &&& terms.version == ProtocolVersion::MQTT3
                &&& step.next matches Next::Send {
                    packet: ServerPacket::V3(ServerPacketV3::UnsubscribeAck { packet_id: id }),
                    ..
                }
                &&& id == packet_id
            }
            ||| {
                &&& terms.version == ProtocolVersion::MQTT5
                &&& step.next matches Next::Send {
                    packet: ServerPacket::V5(
                        ServerPacketV5::UnsubscribeAck { packet_id: id, status },
                    ),
                    ..
                }
                &&& id == packet_id
                &&& status@.len() == filters
            }
        },
{
    lemma_served(session, terms, received, step);
}

/// Every UNSUBSCRIBE is acknowledged with its own packet identifier, and on 5.0 with
/// exactly as many codes as it named topic filters. One without topic filters closes
/// the session.
pub proof fn law_unsubscribe_is_acknowledged(
    session: &mut Session,
    terms: Terms,
    received: MqttPacket,
    packet_id: PacketId,
    filters: usize,
    step: Step,
)
    requires
        served(session, terms, received, step),
        received == MqttPacket::V3(PacketV3::Unsubscribe { packet_id, filters }) || received
            == MqttPacket::V5(PacketV5::Unsubscribe { packet_id, filters }),
    ensures
        step.deliver is None,
        ({
            let (high, low) = ((packet_id@ / 256) as u8, (packet_id@ % 256) as u8);
            let rest = if terms.version == ProtocolVersion::MQTT3 {
                seq![high, low]
            } else {
                seq![high, low, 0u8] + Seq::new(filters as nat, |i: int| 0x11u8)
            };
            if filters == 0 {
                closes(terms, Violation::EmptyTopicFilterList, 0x82, final(session).phase, step)
            } else {
                answers(
                    terms,
                    0xB0,
                    rest,
                    "idle timeout during UNSUBACK flush",
                    final(session).phase,
                    step,
                )
            }
        }),
{
    lemma_served(session, terms, received, step);
    let after = final(session).phase;
    let d = choose|d: Disposition| #[trigger]
        packet::disposition_is(packet::kind_of(received), d) && handler::after_disposition(
            terms,
            d,
            after,
            step,
        );
    if filters == 0 {
        lemma_closes(terms, Violation::EmptyTopicFilterList, 0x82, None, after, step);
    } else if let Disposition::Reply(reply) = d {
        let (high, low) = ((packet_id@ / 256) as u8, (packet_id@ % 256) as u8);
        let rest = if terms.version == ProtocolVersion::MQTT3 {
            seq![high, low]
        } else {
            seq![high, low, 0u8] + Seq::new(filters as nat, |i: int| 0x11u8)
        };
        assert forall|packet: ServerPacket|
            #![trigger reply.rendered(terms.version, packet)]
            reply.rendered(terms.version, packet) && rest.len()
                <= 268_435_455 implies wire::encodes_as(packet, terms.version, 0xB0, rest) by {
            match packet {
                ServerPacket::V3(ServerPacketV3::UnsubscribeAck { packet_id }) => {
                    wire::law_unsuback_v3_bytes(packet_id);
                    let bytes = seq![0xB0u8, 2u8, high, low];
                    assert(bytes.skip(2) == rest);
                    assert(wire::is_packet(bytes, 0xB0, rest));
                },
                ServerPacket::V5(ServerPacketV5::UnsubscribeAck { packet_id, status }) => {
                    wire::law_unsuback_v5_bytes(packet_id, status);
                },
                _ => {},
            }
        }
        lemma_answers(terms, reply, 0xB0, rest, after, step);
    }
}

/// Every PINGREQ is answered with a PINGRESP, unless the client cannot receive its two
/// bytes.
pub proof fn law_ping_is_answered(
    session: &mut Session,
    terms: Terms,
    received: MqttPacket,
    step: Step,
)
    requires
        served(session, terms, received, step),
        received == MqttPacket::V3(PacketV3::PingRequest) || received == MqttPacket::V5(
            PacketV5::PingRequest,
        ),
    ensures
        step.deliver is None,
        if receives(terms.max_packet_size, 2) {
            &&& writes(
                step.next,
                terms.version,
                seq![0xD0u8, 0u8],
                "idle timeout during PINGRESP flush",
            )
            &&& step.note is None
            &&& final(session).phase == Phase::Replying(terms, "idle timeout during PINGRESP flush")
        } else {
            closes(terms, Violation::ReplyOverMaxPacketSize, 0x95, final(session).phase, step)
        },
{
    lemma_served(session, terms, received, step);
    wire::law_ping_bytes();
    reveal_with_fuel(crate::codec::wire::var_int, 2);
    if !packet::fits(Reply::PingResponse.wire_len(terms.version), terms.max_packet_size) {
        lemma_closes(
            terms,
            Violation::ReplyOverMaxPacketSize,
            0x95,
            None,
            final(session).phase,
            step,
        );
    }
}

/// A client that takes its leave is let go: the session ends as served, and nothing is
/// written.
pub proof fn law_leave_is_taken(
    session: &mut Session,
    terms: Terms,
    received: MqttPacket,
    step: Step,
)
    requires
        served(session, terms, received, step),
        received == MqttPacket::V3(PacketV3::Disconnect) || received == MqttPacket::V5(
            PacketV5::Disconnect,
        ),
    ensures
        step == (Step {
            note: Some(Note::ClientDisconnect),
            deliver: None,
            next: Next::Finish(Ok(SessionOutcome::Served)),
        }),
        final(session).phase is Ended,
{
    lemma_served(session, terms, received, step);
}

/// A packet that no client may send in a session closes it, with the violation that it
/// is, and nothing is handed on: a second CONNECT, a packet that only servers send, a
/// packet of the flow at the highest quality of service, a PUBACK, an AUTH, and no packet
/// at all.
pub proof fn law_breaches_close_the_session(
    session: &mut Session,
    terms: Terms,
    received: MqttPacket,
    step: Step,
)
    requires
        served(session, terms, received, step),
    ensures
        (received matches MqttPacket::V3(PacketV3::Connect(_))) || (received matches MqttPacket::V5(
            PacketV5::Connect(_),
        )) ==> step.deliver is None && closes(
            terms,
            Violation::DuplicateConnect,
            0x82,
            final(session).phase,
            step,
        ),
        received == MqttPacket::V3(PacketV3::ConnectAck) || received == MqttPacket::V3(
            PacketV3::SubscribeAck,
        ) || received == MqttPacket::V3(PacketV3::UnsubscribeAck) || received == MqttPacket::V3(
            PacketV3::PingResponse,
        ) || received == MqttPacket::V5(PacketV5::ConnectAck) || received == MqttPacket::V5(
            PacketV5::SubscribeAck,
        ) || received == MqttPacket::V5(PacketV5::UnsubscribeAck) || received == MqttPacket::V5(
            PacketV5::PingResponse,
        ) ==> step.deliver is None && closes(
            terms,
            Violation::ServerOnlyPacket,
            0x82,
            final(session).phase,
            step,
        ),
        received == MqttPacket::V3(PacketV3::PublishReceived) || received == MqttPacket::V3(
            PacketV3::PublishRelease,
        ) || received == MqttPacket::V3(PacketV3::PublishComplete) || received == MqttPacket::V5(
            PacketV5::PublishReceived,
        ) || received == MqttPacket::V5(PacketV5::PublishRelease) || received == MqttPacket::V5(
            PacketV5::PublishComplete,
        ) ==> step.deliver is None && closes(
            terms,
            Violation::Qos2FlowNotImplemented,
            0x9B,
            final(session).phase,
            step,
        ),
        received == MqttPacket::V3(PacketV3::PublishAck) || received == MqttPacket::V5(
            PacketV5::PublishAck,
        ) ==> step.deliver is None && closes(
            terms,
            Violation::PublishAckFromClient,
            0x82,
            final(session).phase,
            step,
        ),
        received == MqttPacket::V5(PacketV5::Auth) ==> step.deliver is None && closes(
            terms,
            Violation::AuthNotNegotiated,
            0x82,
            final(session).phase,
            step,
        ),
        received is Version ==> step.deliver is None && closes(
            terms,
            Violation::VersionProbe,
            0x82,
            final(session).phase,
            step,
        ),
{
    lemma_served(session, terms, received, step);
    if let Some(Note::Violation(violation)) = step.note {
        let code = match violation {
            Violation::MalformedPacket => 0x81u8,
            Violation::ReplyOverMaxPacketSize => 0x95u8,
            Violation::Qos2FlowNotImplemented => 0x9Bu8,
            Violation::PublishQosAboveMaximum => 0x9Bu8,
            _ => 0x82u8,
        };
        if handler::after_violation(terms, violation, None, final(session).phase, step) {
            lemma_closes(terms, violation, code, None, final(session).phase, step);
        }
    }
}

/// A read that brings no packet ends the session. Only bytes that were rejected are a
/// breach of the protocol: a client that is gone, or silent for too long, was served.
pub proof fn law_reads_without_a_packet_end_the_session(
    session: &mut Session,
    terms: Terms,
    event: ReadEvent<MqttPacket>,
    step: Step,
)
    requires
        old(session).phase == Phase::Serving(terms),
        stepped(session, IoEvent::Packet(event), step),
        !(event is Item),
    ensures
        step.deliver is None,
        event matches ReadEvent::Failed(IoError::Rejected(_)) ==> closes(
            terms,
            Violation::MalformedPacket,
            0x81,
            final(session).phase,
            step,
        ),
        !(event matches ReadEvent::Failed(IoError::Rejected(_))) ==> {
            &&& final(session).phase is Ended
            &&& step.next == Next::Finish(Ok(SessionOutcome::Served))
            &&& step.note == match event {
                ReadEvent::Failed(_) => Some(Note::PacketError),
                ReadEvent::Closed => Some(Note::ClientClosed),
                _ => Some(Note::IdleTimeout),
            }
        },
{
    if let ReadEvent::Failed(IoError::Rejected(_)) = event {
        lemma_closes(terms, Violation::MalformedPacket, 0x81, None, final(session).phase, step);
    }
}

/// A reply that was flushed lets the session read on, on the same terms. One that could
/// not be written ends it with the failure, and one that stalled ends it as timed out.
pub proof fn law_replies_are_flushed(
    session: &mut Session,
    terms: Terms,
    context: &'static str,
    event: SendEvent,
    step: Step,
)
    requires
        old(session).phase == Phase::Replying(terms, context),
        stepped(session, IoEvent::Sent(event), step),
    ensures
        step.deliver is None,
        match event {
            SendEvent::Flushed => {
                &&& final(session).phase == Phase::Serving(terms)
                &&& step.note is None
                &&& step.next is ReadPacket
            },
            SendEvent::Failed(e) => {
                &&& final(session).phase is Ended
                &&& step.note is None
                &&& step.next == Next::Finish(Err(Error::Io(e)))
            },
            SendEvent::TimedOut => {
                &&& final(session).phase is Ended
                &&& step.note == Some(Note::FlushTimeout(context))
                &&& step.next == Next::Finish(Err(Error::Timeout))
            },
        },
{
}

/// The DISCONNECT that closes on a violation is the last word, whether or not it could
/// be written: the session ends with that violation.
pub proof fn law_the_farewell_is_the_last_word(
    session: &mut Session,
    terms: Terms,
    violation: Violation,
    event: SendEvent,
    step: Step,
)
    requires
        old(session).phase == Phase::Disconnecting(terms, violation),
        stepped(session, IoEvent::Sent(event), step),
    ensures
        final(session).phase is Ended,
        step.deliver is None,
        step.next == Next::Finish(Ok(SessionOutcome::Violation(violation))),
        step.note == if event is TimedOut {
            Some(Note::FlushTimeout("idle timeout during DISCONNECT flush"))
        } else {
            None
        },
{
}

} // verus!
