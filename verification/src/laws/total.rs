//! What may be asked: no input of a client is too much, and what a session or a worker
//! asks for it can be given.

use crate::broker::config::BrokerConfig;
use crate::broker::event;
use crate::broker::handler;
use crate::broker::handler::{IoEvent, Next, Session, Step};
use crate::broker::handshake;
use crate::broker::packet;
use crate::broker::startup;
use crate::broker::startup::{MqttBroker, WorkerExit};
use crate::broker::worker::{Worker, WorkerEvent, WorkerNext};
use crate::codec::decoder::{MqttDecoder, VersionDecoder};
use crate::codec::encoder;
use crate::codec::encoder::MqttEncoder;
use crate::codec::types::{MqttPacket, ServerPacket};
use crate::codec::version::ProtocolVersion;
use crate::error::{Error, IoError};
use crate::laws::served;
use crate::record::clock::Clock;
use bytes::BytesMut;
use std::time::Instant;
use vstd::prelude::*;

verus! {

/// Whatever bytes come are decoded, whatever packet comes is decided on, and whatever
/// packet is to go is encoded: nothing is asked of them first.
pub proof fn law_no_input_is_too_much(
    decoder: &mut MqttDecoder,
    src: &mut BytesMut,
    version_decoder: VersionDecoder,
    seen: BytesMut,
    received: MqttPacket,
    idle_timeout_secs: u64,
    peer_addr: &str,
    payload: &[u8],
    e: IoError,
    encoder: MqttEncoder,
    item: ServerPacket,
    version: ProtocolVersion,
    dst: &mut BytesMut,
)
    ensures
        call_requires(MqttDecoder::decode, (decoder, src)),
        call_requires(VersionDecoder::decode, (&version_decoder, &seen)),
        call_requires(packet::dispatch, (&received,)),
        call_requires(handshake::evaluate_connect, (&received, idle_timeout_secs, peer_addr)),
        call_requires(event::parse_sensor_data, (payload,)),
        call_requires(packet::classify_read_error, (&e,)),
        call_requires(encoder::encode_packet, (&item, version)),
        call_requires(MqttEncoder::encode, (&encoder, &item, dst)),
{
}

/// Whatever was configured and however the workers end, there is an answer.
pub proof fn law_no_setting_is_too_much(
    config: BrokerConfig,
    processors: Option<usize>,
    exits: Vec<WorkerExit>,
    finished: Vec<bool>,
    peer_addr: String,
    connection_timeout_secs: u64,
    idle_timeout_secs: u64,
    at: Instant,
    session: Session,
    allowance_ms: u64,
    elapsed_nanos: u128,
    error: Error,
    worker: Worker,
)
    ensures
        call_requires(MqttBroker::worker_count, (&config, processors)),
        call_requires(startup::join_result, (exits,)),
        call_requires(startup::all_running, (&finished,)),
        call_requires(
            Session::begun_at,
            (peer_addr, connection_timeout_secs, idle_timeout_secs, at),
        ),
        call_requires(Session::allowance, (&session,)),
        call_requires(handler::remaining, (allowance_ms, elapsed_nanos)),
        call_requires(Error::is_routine_disconnect, (&error,)),
        call_requires(Error::message, (&error,)),
        call_requires(Worker::on_drain, (&worker, elapsed_nanos)),
{
}

/// Whether `event` is how that may end which a session asked for.
pub open spec fn may_follow(next: Next, event: IoEvent) -> bool {
    match next {
        Next::DetectVersion => event is Version,
        Next::ReadConnect(_) => event is Packet,
        Next::ReadPacket => event is Packet,
        Next::Send { .. } => event is Sent,
        Next::Finish(_) => false,
    }
}

/// However that ends which a session asked for, the session goes on from it: it is stuck
/// nowhere before its end.
pub proof fn law_sessions_go_on_till_their_end(
    session: &mut Session,
    event: IoEvent,
    step: Step,
    later: &mut Session,
    clock: &mut Clock,
    next: IoEvent,
    at: Instant,
)
    requires
        served::stepped(session, event, step),
        *old(later) == *final(session),
        may_follow(step.next, next),
    ensures
        call_requires(Session::step_at, (later, next, at)),
        call_requires(Session::step_by, (later, clock, next)),
        call_requires(Session::step, (later, next)),
{
}

/// A session begins with the detection of the version, however that ends.
pub proof fn law_sessions_begin_with_the_version(
    peer_addr: String,
    connection_timeout_secs: u64,
    idle_timeout_secs: u64,
    begun_at: Instant,
    session: &mut Session,
    next: IoEvent,
    at: Instant,
)
    requires
        call_ensures(
            Session::begun_at,
            (peer_addr, connection_timeout_secs, idle_timeout_secs, begun_at),
            *old(session),
        ),
        next is Version,
    ensures
        call_requires(Session::step_at, (session, next, at)),
{
}

/// However that ends which a worker asked for, the worker goes on from it, and it can be
/// told to stop whenever it takes connections. Only the count of all its connections has
/// an end.
pub proof fn law_workers_go_on_till_their_end(
    worker: &mut Worker,
    event: WorkerEvent,
    r: WorkerNext,
    later: &mut Worker,
    next: WorkerEvent,
)
    requires
        call_ensures(Worker::step, (worker, event), r),
        *old(later) == *final(worker),
        old(later).accepted < u64::MAX,
        match r {
            WorkerNext::Abort | WorkerNext::End(_) => false,
            WorkerNext::Wait(_) => next is Waited,
            _ => next is Connection || next is AcceptFailed || next is Stopped,
        },
    ensures
        call_requires(Worker::step, (later, next)),
{
}

/// A worker begins with the wait for the word, whatever it is.
pub proof fn law_workers_begin_with_the_word(
    worker_id: usize,
    max_connections: usize,
    drain_timeout_secs: u64,
    worker: &mut Worker,
    word: Option<bool>,
)
    requires
        call_ensures(Worker::new, (worker_id, max_connections, drain_timeout_secs), *old(worker)),
    ensures
        call_requires(Worker::step, (worker, WorkerEvent::Word(word))),
{
}

} // verus!
