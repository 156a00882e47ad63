//! From end to end: what a client sends, over all that the broker does with it, and what
//! it gets.

use crate::broker::handler::{
    IoEvent, Next, Phase, ReadEvent, SendEvent, Session, SessionOutcome, Step, Terms,
};
use crate::broker::worker::{SessionEnd, Worker, WorkerEvent, WorkerNext};
use crate::buffer;
use crate::codec::decoder::{Decoded, MqttDecoder};
use crate::codec::encoder::MqttEncoder;
use crate::codec::parse;
use crate::codec::parse::{ClientPacket, Decoding};
use crate::codec::types::{Connect, EncodeError, MqttPacket, PacketV3, PacketV5};
use crate::codec::version::ProtocolVersion;
use crate::error::{Error, IoError};
use crate::laws::connect;
use crate::laws::decoding;
use crate::laws::served;
use crate::laws::timing;
use crate::laws::wire;
use crate::laws::workers;
use bytes::BytesMut;
use std::time::Instant;
use vstd::prelude::*;

verus! {

/// A PUBLISH at the middle quality of service that is on the stream puts a PUBACK with its
/// very packet identifier behind what is to be written, where the client has set no limit
/// and there is room, and what its payload reports has been handed on.
pub proof fn law_a_publish_on_the_stream_is_acknowledged(
    decoder: &mut MqttDecoder,
    src: &mut BytesMut,
    packet: MqttPacket,
    length: u32,
    topic: Seq<char>,
    id: u16,
    payload: Seq<u8>,
    session: &mut Session,
    terms: Terms,
    step: Step,
    encoder: MqttEncoder,
    dst: &mut BytesMut,
    r: Result<(), EncodeError>,
    bytes: Vec<u8>,
)
    requires
        call_ensures(
            MqttDecoder::decode,
            (decoder, src),
            Ok::<Decoded<(MqttPacket, u32)>, IoError>(Decoded::Item((packet, length))),
        ),
        parse::decoded(old(decoder).version, old(decoder).header@ + buffer::held(*old(src)))
            == Decoding::Packet(
            ClientPacket::Publish { qos: 1, topic, packet_id: Some(id), payload },
            length,
        ),
        served::served(session, terms, packet, step),
        terms.version == old(decoder).version,
        terms.max_packet_size is None,
        encoder.version == terms.version,
        step.next matches Next::Send { packet: written, .. } ==> {
            &&& call_ensures(MqttEncoder::encode, (&encoder, &written, dst), r)
            &&& call_ensures(
                crate::codec::encoder::encode_packet,
                (&written, encoder.version),
                Ok::<Vec<u8>, EncodeError>(bytes),
            )
        },
        buffer::held(*old(dst)).len() + 6 <= isize::MAX,
    ensures
        step.next is Send,
        served::reports(payload, step.deliver),
        r is Ok,
        buffer::held(*final(dst)) == buffer::held(*old(dst)) + if terms.version
            == ProtocolVersion::MQTT3 {
            seq![0x40u8, 2u8, (id / 256) as u8, (id % 256) as u8]
        } else {
            seq![0x40u8, 4u8, (id / 256) as u8, (id % 256) as u8, 0u8, 0u8]
        },
{
    decoding::law_publishes_are_decoded_in_full(
        decoder,
        src,
        Ok(Decoded::Item((packet, length))),
        1,
        topic,
        Some(id),
        payload,
        length,
    );
    let publish = match packet {
        MqttPacket::V3(PacketV3::Publish(p)) => p,
        MqttPacket::V5(PacketV5::Publish(p)) => p,
        _ => arbitrary(),
    };
    served::law_qos1_is_acknowledged(
        session,
        terms,
        packet,
        publish,
        publish.packet_id->Some_0,
        step,
    );
    if let Next::Send { packet: written, .. } = step.next {
        wire::law_encoder_appends(encoder, written, dst, r, bytes);
    }
}

/// A 3.1.1 client that is let in with a keep-alive is cut off for its silence after one and
/// a half times that keep-alive, or after the ceiling where that is shorter, and this
/// counts from when its CONNECT came.
pub proof fn law_a_keep_alive_becomes_the_deadline(
    session: &mut Session,
    c: Connect,
    at: Instant,
    step: Step,
    accepted: &mut Session,
    flushed_at: Instant,
    last_step: Step,
    allowance: (u64, Instant),
)
    requires
        c.keep_alive > 0,
        old(session).phase == Phase::Connecting(ProtocolVersion::MQTT3),
        call_ensures(
            Session::step_at,
            (
                session,
                IoEvent::Packet(ReadEvent::Item(MqttPacket::V3(PacketV3::Connect(c)))),
                at,
            ),
            step,
        ),
        c.client_id@.len() > 0 || c.clean_session,
        *old(accepted) == *final(session),
        call_ensures(
            Session::step_at,
            (accepted, IoEvent::Sent(SendEvent::Flushed), flushed_at),
            last_step,
        ),
        call_ensures(Session::allowance, (final(accepted),), allowance),
    ensures
        last_step.next is ReadPacket,
        allowance.1 == at,
        ({
            let ceiling_ms = 1000 * connect::at_most_a_year(old(session).idle_timeout_secs);
            allowance.0 == if 1500 * c.keep_alive <= ceiling_ms {
                1500 * c.keep_alive
            } else {
                ceiling_ms
            }
        }),
        final(accepted).state.keep_alive == c.keep_alive,
{
    let first = MqttPacket::V3(PacketV3::Connect(c));
    let event = IoEvent::Packet(ReadEvent::Item(first));
    assert(served::stepped(session, event, step));
    connect::law_first_packets_are_answered(session, ProtocolVersion::MQTT3, first, step);
    timing::law_first_silence_counts_from_the_first_packet(session, first, at, step);
    assert(served::stepped(accepted, IoEvent::Sent(SendEvent::Flushed), last_step));
    connect::law_connacks_are_flushed(accepted, SendEvent::Flushed, last_step);
    timing::law_deadlines_follow_the_phase(*final(accepted), allowance);
}

/// A worker that is told to stop while sessions are left waits for them. When it has waited
/// for as long as it said, it ends, and cuts off exactly those that are still there.
pub proof fn law_stop_waits_then_cuts_off(
    worker: &mut Worker,
    nanos: u128,
    later: &mut Worker,
    waited: u128,
    last: WorkerNext,
)
    requires
        call_ensures(Worker::step, (worker, WorkerEvent::Stopped), WorkerNext::Wait(nanos)),
        old(later).drain_timeout_secs == old(worker).drain_timeout_secs,
        waited >= nanos,
        call_ensures(Worker::step, (later, WorkerEvent::Waited(waited)), last),
    ensures
        old(worker).state@.active_connections > 0,
        nanos == 1_000_000_000 * connect::at_most_a_year(old(worker).drain_timeout_secs),
        last == WorkerNext::End(old(later).state@.active_connections),
        final(later).stage is Ended,
{
    workers::law_sessions_get_their_grace(
        worker,
        WorkerEvent::Stopped,
        0,
        WorkerNext::Wait(nanos),
    );
    workers::law_sessions_get_their_grace(later, WorkerEvent::Waited(waited), waited, last);
}

/// A worker that waits for its sessions ends as soon as the last of them has ended, however
/// it ended, and cuts off nobody.
pub proof fn law_the_last_session_ends_the_wait(
    worker: &mut Worker,
    result: Result<SessionOutcome, Error>,
    end: SessionEnd,
    idle: &mut Worker,
    waited: u128,
    last: WorkerNext,
)
    requires
        old(worker).state@.active_connections == 1,
        call_ensures(Worker::on_session_end, (worker, &result), end),
        *old(idle) == *final(worker),
        call_ensures(Worker::step, (idle, WorkerEvent::Waited(waited)), last),
    ensures
        last == WorkerNext::End(0),
        final(idle).stage is Ended,
{
    workers::law_sessions_get_their_grace(idle, WorkerEvent::Waited(waited), waited, last);
}

} // verus!
