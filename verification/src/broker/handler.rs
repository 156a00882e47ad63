//! One client session, from the first byte to the close: which read or write
//! comes next, given how the last one ended.

use crate::broker::event;
use crate::broker::event::Event;
use crate::broker::handshake;
use crate::broker::handshake::ConnectDecision;
use crate::broker::packet;
use crate::broker::packet::{Disposition, Reply, Violation};
use crate::codec::id::PacketLimit;
use crate::codec::parse::Fault;
use crate::codec::types::{
    ConnectAck, ConnectAckReason, ConnectAckReasonV5, MqttPacket, ServerPacket, ServerPacketV3,
    ServerPacketV5,
};
use crate::codec::version::ProtocolVersion;
use crate::connection::ConnectionState;
use crate::error::{Error, IoError};
use crate::record::clock::Clock;
use std::time::Instant;
use vstd::prelude::*;

verus! {

/// What a stalled CONNACK is reported as.
pub const TIMEOUT_CTX_CONNACK_FLUSH: &'static str = "handshake timeout during CONNACK flush";

/// What a stalled DISCONNECT is reported as.
pub const TIMEOUT_CTX_DISCONNECT_FLUSH: &'static str = "idle timeout during DISCONNECT flush";

/// What a session that ended without an error amounted to.
#[derive(Debug, Clone, Copy, PartialEq, Eq, Structural)]
pub enum SessionOutcome {
    /// The client was served until it left, fell silent, or was cut off.
    Served,
    /// Its CONNECT was refused.
    Refused,
    /// It broke the protocol.
    Violation(Violation),
}

/// How a read under a deadline ended.
#[derive(Debug)]
pub enum ReadEvent<T> {
    Item(T),
    Failed(IoError),
    /// The client closed the stream.
    Closed,
    TimedOut,
}

/// How a write under a deadline ended.
#[derive(Debug)]
pub enum SendEvent {
    Flushed,
    Failed(IoError),
    TimedOut,
}

/// How the read or write that was asked for ended.
#[derive(Debug)]
pub enum IoEvent {
    Version(ReadEvent<ProtocolVersion>),
    Packet(ReadEvent<MqttPacket>),
    Sent(SendEvent),
}

/// What a CONNECT was refused for.
#[derive(Debug, Clone, Copy, PartialEq, Eq, Structural)]
pub enum Refusal {
    IdentifierRejected,
    ImplementationSpecificError,
    ClientIdentifierNotValid,
    BadAuthenticationMethod,
    Unknown,
}

/// What the CONNACK that refuses a CONNECT gives as its reason.
pub open spec fn refusal_spec(connack: ServerPacket) -> Refusal {
    match connack {
        ServerPacket::V3(ServerPacketV3::ConnectAck(ack)) => match ack.return_code {
            ConnectAckReason::IdentifierRejected => Refusal::IdentifierRejected,
            ConnectAckReason::ConnectionAccepted => Refusal::Unknown,
        },
        ServerPacket::V5(ServerPacketV5::ConnectAck(ack)) => match ack.reason_code {
            ConnectAckReasonV5::ImplementationSpecificError => Refusal::ImplementationSpecificError,
            ConnectAckReasonV5::ClientIdentifierNotValid => Refusal::ClientIdentifierNotValid,
            ConnectAckReasonV5::BadAuthenticationMethod => Refusal::BadAuthenticationMethod,
            ConnectAckReasonV5::Success => Refusal::Unknown,
        },
        _ => Refusal::Unknown,
    }
}

/// What the CONNACK that refuses a CONNECT gives as its reason.
pub fn refusal(connack: &ServerPacket) -> (r: Refusal)
    ensures
        r == refusal_spec(*connack),
{
    match connack {
        ServerPacket::V3(ServerPacketV3::ConnectAck(ack)) => match ack.return_code {
            ConnectAckReason::IdentifierRejected => Refusal::IdentifierRejected,
            ConnectAckReason::ConnectionAccepted => Refusal::Unknown,
        },
        ServerPacket::V5(ServerPacketV5::ConnectAck(ack)) => match ack.reason_code {
            ConnectAckReasonV5::ImplementationSpecificError => Refusal::ImplementationSpecificError,
            ConnectAckReasonV5::ClientIdentifierNotValid => Refusal::ClientIdentifierNotValid,
            ConnectAckReasonV5::BadAuthenticationMethod => Refusal::BadAuthenticationMethod,
            ConnectAckReasonV5::Success => Refusal::Unknown,
        },
        _ => Refusal::Unknown,
    }
}

/// Something worth a log line.
#[derive(Debug, Clone, Copy, PartialEq, Eq)]
pub enum Note {
    DetectedVersion(ProtocolVersion),
    FirstPacketNotConnect,
    MalformedConnect,
    HandshakeDisconnect,
    HandshakeTransportError,
    VersionTimeout,
    ConnectTimeout,
    InvalidClientId,
    ConnectRefused(Refusal),
    FlushTimeout(&'static str),
    ClientDisconnect,
    PacketError,
    ClientClosed,
    IdleTimeout,
    Violation(Violation),
}

/// How much attention a log line asks for.
#[derive(Debug, Clone, Copy, PartialEq, Eq, Structural)]
pub enum Level {
    Debug,
    Warn,
}

impl Note {
    /// What a client did wrong, and a transport that failed in no routine way,
    /// asks for attention. The rest is routine.
    pub open spec fn level_spec(self) -> Level {
        match self {
            Note::FirstPacketNotConnect => Level::Warn,
            Note::MalformedConnect => Level::Warn,
            Note::HandshakeTransportError => Level::Warn,
            Note::InvalidClientId => Level::Warn,
            Note::ConnectRefused(_) => Level::Warn,
            Note::Violation(_) => Level::Warn,
            _ => Level::Debug,
        }
    }

    /// How much attention the line asks for.
    pub fn level(self) -> (r: Level)
        ensures
            r == self.level_spec(),
    {
        match self {
            Note::FirstPacketNotConnect
            | Note::MalformedConnect
            | Note::HandshakeTransportError
            | Note::InvalidClientId
            | Note::ConnectRefused(_)
            | Note::Violation(_) => Level::Warn,
            Note::DetectedVersion(_)
            | Note::HandshakeDisconnect
            | Note::VersionTimeout
            | Note::ConnectTimeout
            | Note::FlushTimeout(_)
            | Note::ClientDisconnect
            | Note::PacketError
            | Note::ClientClosed
            | Note::IdleTimeout => Level::Debug,
        }
    }

    /// What the line says. Who the client is, and what an error has to add, comes
    /// on top.
    pub open spec fn text_spec(self) -> &'static str {
        match self {
            Note::DetectedVersion(_) => "Detected protocol version",
            Note::FirstPacketNotConnect => "handshake violation: first packet was not CONNECT",
            Note::MalformedConnect => "handshake violation: malformed CONNECT",
            Note::HandshakeDisconnect => "client disconnected during handshake",
            Note::HandshakeTransportError => "handshake transport error",
            Note::VersionTimeout => "handshake timeout during version detect",
            Note::ConnectTimeout => "handshake timeout during CONNECT read",
            Note::InvalidClientId => "CONNECT refused: invalid client id",
            Note::ConnectRefused(Refusal::IdentifierRejected) =>
            "CONNECT refused: IdentifierRejected",
            Note::ConnectRefused(Refusal::ImplementationSpecificError) =>
            "CONNECT refused: ImplementationSpecificError",
            Note::ConnectRefused(Refusal::ClientIdentifierNotValid) =>
            "CONNECT refused: ClientIdentifierNotValid",
            Note::ConnectRefused(Refusal::BadAuthenticationMethod) =>
            "CONNECT refused: BadAuthenticationMethod",
            Note::ConnectRefused(Refusal::Unknown) => "CONNECT refused: unknown",
            Note::ClientDisconnect => "Client requested disconnect",
            Note::PacketError => "Packet error",
            Note::ClientClosed => "Client closed connection",
            Note::IdleTimeout => "client idle timeout",
            Note::FlushTimeout(context) => context,
            Note::Violation(violation) => violation.reason_text(),
        }
    }

    /// What the line says.
    pub fn text(self) -> (r: &'static str)
        ensures
            r@ == self.text_spec()@,
    {
        match self {
            Note::DetectedVersion(_) => "Detected protocol version",
            Note::FirstPacketNotConnect => "handshake violation: first packet was not CONNECT",
            Note::MalformedConnect => "handshake violation: malformed CONNECT",
            Note::HandshakeDisconnect => "client disconnected during handshake",
            Note::HandshakeTransportError => "handshake transport error",
            Note::VersionTimeout => "handshake timeout during version detect",
            Note::ConnectTimeout => "handshake timeout during CONNECT read",
            Note::InvalidClientId => "CONNECT refused: invalid client id",
            Note::ConnectRefused(Refusal::IdentifierRejected) =>
            "CONNECT refused: IdentifierRejected",
            Note::ConnectRefused(Refusal::ImplementationSpecificError) =>
            "CONNECT refused: ImplementationSpecificError",
            Note::ConnectRefused(Refusal::ClientIdentifierNotValid) =>
            "CONNECT refused: ClientIdentifierNotValid",
            Note::ConnectRefused(Refusal::BadAuthenticationMethod) =>
            "CONNECT refused: BadAuthenticationMethod",
            Note::ConnectRefused(Refusal::Unknown) => "CONNECT refused: unknown",
            Note::ClientDisconnect => "Client requested disconnect",
            Note::PacketError => "Packet error",
            Note::ClientClosed => "Client closed connection",
            Note::IdleTimeout => "client idle timeout",
            Note::FlushTimeout(context) => context,
            Note::Violation(violation) => violation.reason(),
        }
    }
}

/// The read or write that comes next, or the end.
#[derive(Debug)]
pub enum Next {
    /// Read on until the protocol version is known, which takes nothing off the
    /// stream.
    DetectVersion,
    /// Read the first packet with the codec of this version.
    ReadConnect(ProtocolVersion),
    /// Read a packet.
    ReadPacket,
    /// Write and flush the packet. The context names the write if it stalls.
    Send { packet: ServerPacket, timeout_context: &'static str },
    /// Close the connection.
    Finish(Result<SessionOutcome, Error>),
}

/// What one event leads to: a line to log, then an event to hand on, then the
/// read or write that comes next. The order is part of the protocol: what is
/// acknowledged has been handed on before.
#[derive(Debug)]
pub struct Step {
    pub note: Option<Note>,
    pub deliver: Option<Event>,
    pub next: Next,
}

/// The terms of an accepted session.
#[derive(Debug, Clone, Copy, PartialEq, Eq, Structural)]
pub struct Terms {
    pub version: ProtocolVersion,
    /// How long the session may stay silent, in milliseconds.
    pub idle_timeout_ms: u64,
    /// The largest packet the client can receive, if it set a limit.
    pub max_packet_size: Option<PacketLimit>,
}

/// Where a session stands: what it waits for.
#[derive(Debug)]
pub enum Phase {
    /// The protocol version.
    Detecting,
    /// The CONNECT.
    Connecting(ProtocolVersion),
    /// The flush of the CONNACK that accepts. Carries who the client is, its
    /// keep-alive, and when its CONNECT arrived.
    Accepting(Terms, Option<String>, u16, Instant),
    /// The flush of the CONNACK that refuses.
    Refusing,
    /// A packet.
    Serving(Terms),
    /// The flush of a reply, with its context.
    Replying(Terms, &'static str),
    /// The flush of the DISCONNECT that closes on a violation.
    Disconnecting(Terms, Violation),
    /// Nothing any more.
    Ended,
}

/// The note on a handshake read that failed: `violation` where bytes were
/// rejected, and else a line on the transport.
pub open spec fn failure_note(e: IoError, violation: Note) -> Note {
    match e {
        IoError::Rejected(_) => violation,
        IoError::Transport { .. } => if Error::Io(e).routine() {
            Note::HandshakeDisconnect
        } else {
            Note::HandshakeTransportError
        },
    }
}

/// The note on a handshake read that failed.
fn note_failure(e: &IoError, violation: Note) -> (r: Note)
    ensures
        r == failure_note(*e, violation),
{
    match e {
        IoError::Rejected(_) => violation,
        IoError::Transport { .. } => {
            if e.is_routine() {
                Note::HandshakeDisconnect
            } else {
                Note::HandshakeTransportError
            }
        },
    }
}

/// The end of a session with an error.
pub open spec fn failed(phase: Phase, step: Step, note: Option<Note>, e: Error) -> bool {
    &&& phase is Ended
    &&& step == (Step { note, deliver: None, next: Next::Finish(Err(e)) })
}

/// The end of a session without an error.
pub open spec fn finished(
    phase: Phase,
    step: Step,
    note: Option<Note>,
    outcome: SessionOutcome,
) -> bool {
    &&& phase is Ended
    &&& step == (Step { note, deliver: None, next: Next::Finish(Ok(outcome)) })
}

/// Where the wait for the protocol version leads.
pub open spec fn after_version(
    event: ReadEvent<ProtocolVersion>,
    phase: Phase,
    step: Step,
) -> bool {
    match event {
        ReadEvent::Item(version) => {
            &&& phase == Phase::Connecting(version)
            &&& step == (Step {
                note: Some(Note::DetectedVersion(version)),
                deliver: None,
                next: Next::ReadConnect(version),
            })
        },
        ReadEvent::Failed(e) => failed(
            phase,
            step,
            Some(failure_note(e, Note::FirstPacketNotConnect)),
            Error::Io(e),
        ),
        ReadEvent::Closed => failed(phase, step, None, Error::ClientClosed),
        ReadEvent::TimedOut => failed(phase, step, Some(Note::VersionTimeout), Error::Timeout),
    }
}

/// Where a decision on the first packet leads.
pub open spec fn after_decision(
    version: ProtocolVersion,
    decision: ConnectDecision,
    phase: Phase,
    step: Step,
) -> bool {
    match decision {
        ConnectDecision::NotConnect => {
            &&& phase is Ended
            &&& step.note == Some(Note::FirstPacketNotConnect)
            &&& step.deliver is None
            &&& step.next matches Next::Finish(Err(Error::Protocol(text)))
            &&& text@ == "first packet was not CONNECT"@
        },
        ConnectDecision::Refuse { connack, sendable } => if sendable {
            &&& phase is Refusing
            &&& step == (Step {
                note: Some(Note::ConnectRefused(refusal_spec(connack))),
                deliver: None,
                next: Next::Send { packet: connack, timeout_context: TIMEOUT_CTX_CONNACK_FLUSH },
            })
        } else {
            finished(
                phase,
                step,
                Some(Note::ConnectRefused(refusal_spec(connack))),
                SessionOutcome::Refused,
            )
        },
        ConnectDecision::Accept {
            connack,
            client_id,
            keep_alive_secs,
            idle_timeout_ms,
            max_packet_size,
        } => {
            &&& phase matches Phase::Accepting(terms, id, keep_alive, _)
            &&& terms == (Terms { version, idle_timeout_ms, max_packet_size })
            &&& id == client_id
            &&& keep_alive == keep_alive_secs
            &&& step == (Step {
                note: None,
                deliver: None,
                next: Next::Send { packet: connack, timeout_context: TIMEOUT_CTX_CONNACK_FLUSH },
            })
        },
    }
}

/// Whether `packet` is the CONNACK that refuses an identifier.
pub open spec fn identifier_refusal(version: ProtocolVersion, packet: ServerPacket) -> bool {
    match version {
        ProtocolVersion::MQTT3 => packet == ServerPacket::V3(
            ServerPacketV3::ConnectAck(
                ConnectAck {
                    return_code: ConnectAckReason::IdentifierRejected,
                    session_present: false,
                },
            ),
        ),
        ProtocolVersion::MQTT5 => {
            &&& packet matches ServerPacket::V5(ServerPacketV5::ConnectAck(ack))
            &&& handshake::honest(ack, ConnectAckReasonV5::ClientIdentifierNotValid, None, None)
        },
    }
}

/// Where the wait for the CONNECT leads.
pub open spec fn after_connect(
    version: ProtocolVersion,
    idle_timeout_secs: u64,
    peer_addr: Seq<char>,
    event: ReadEvent<MqttPacket>,
    phase: Phase,
    step: Step,
) -> bool {
    match event {
        ReadEvent::Item(first) => exists|decision: ConnectDecision|
            #[trigger] handshake::decided(first, idle_timeout_secs, peer_addr, decision)
                && after_decision(version, decision, phase, step),
        ReadEvent::Failed(IoError::Rejected(rejection)) => if rejection.fault is InvalidClientId {
            &&& phase is Refusing
            &&& step.note == Some(Note::InvalidClientId)
            &&& step.deliver is None
            &&& step.next matches Next::Send { packet, timeout_context }
            &&& identifier_refusal(version, packet)
            &&& timeout_context == TIMEOUT_CTX_CONNACK_FLUSH
        } else {
            failed(
                phase,
                step,
                Some(Note::MalformedConnect),
                Error::Io(IoError::Rejected(rejection)),
            )
        },
        ReadEvent::Failed(e) => failed(
            phase,
            step,
            Some(failure_note(e, Note::MalformedConnect)),
            Error::Io(e),
        ),
        ReadEvent::Closed => failed(phase, step, None, Error::ClientClosed),
        ReadEvent::TimedOut => failed(phase, step, Some(Note::ConnectTimeout), Error::Timeout),
    }
}

/// Where a violation leads: to the DISCONNECT that the client can receive, or
/// straight to the end.
pub open spec fn after_violation(
    terms: Terms,
    violation: Violation,
    deliver: Option<Event>,
    phase: Phase,
    step: Step,
) -> bool {
    match violation.farewell(terms.version, terms.max_packet_size) {
        Some(packet) => {
            &&& phase == Phase::Disconnecting(terms, violation)
            &&& step == (Step {
                note: Some(Note::Violation(violation)),
                deliver,
                next: Next::Send { packet, timeout_context: TIMEOUT_CTX_DISCONNECT_FLUSH },
            })
        },
        None => {
            &&& phase is Ended
            &&& step == (Step {
                note: Some(Note::Violation(violation)),
                deliver,
                next: Next::Finish(Ok(SessionOutcome::Violation(violation))),
            })
        },
    }
}

/// Where a reply leads: to its flush, or to a violation where the client cannot
/// receive it.
pub open spec fn after_reply(
    terms: Terms,
    reply: Reply,
    deliver: Option<Event>,
    phase: Phase,
    step: Step,
) -> bool {
    if packet::fits(reply.wire_len(terms.version), terms.max_packet_size) {
        &&& phase == Phase::Replying(terms, reply.context())
        &&& step.note is None
        &&& step.deliver == deliver
        &&& step.next matches Next::Send { packet, timeout_context }
        &&& reply.rendered(terms.version, packet)
        &&& timeout_context == reply.context()
    } else {
        after_violation(terms, Violation::ReplyOverMaxPacketSize, deliver, phase, step)
    }
}

/// Where a disposition leads.
pub open spec fn after_disposition(
    terms: Terms,
    disposition: Disposition,
    phase: Phase,
    step: Step,
) -> bool {
    match disposition {
        Disposition::Deliver(publish) => {
            &&& phase == Phase::Serving(terms)
            &&& step == (Step {
                note: None,
                deliver: event::reading(publish.payload@),
                next: Next::ReadPacket,
            })
        },
        Disposition::DeliverThenAck(publish, id) => after_reply(
            terms,
            Reply::PublishAck(id),
            event::reading(publish.payload@),
            phase,
            step,
        ),
        Disposition::Reply(reply) => after_reply(terms, reply, None, phase, step),
        Disposition::Close => finished(
            phase,
            step,
            Some(Note::ClientDisconnect),
            SessionOutcome::Served,
        ),
        Disposition::Violation(violation) => after_violation(terms, violation, None, phase, step),
    }
}

/// Where the wait for a packet leads.
pub open spec fn after_packet(
    terms: Terms,
    event: ReadEvent<MqttPacket>,
    phase: Phase,
    step: Step,
) -> bool {
    match event {
        ReadEvent::Item(received) => exists|d: Disposition|
            #[trigger] packet::disposition_is(packet::kind_of(received), d) && after_disposition(
                terms,
                d,
                phase,
                step,
            ),
        ReadEvent::Failed(IoError::Rejected(_)) => after_violation(
            terms,
            Violation::MalformedPacket,
            None,
            phase,
            step,
        ),
        ReadEvent::Failed(IoError::Transport { .. }) => finished(
            phase,
            step,
            Some(Note::PacketError),
            SessionOutcome::Served,
        ),
        ReadEvent::Closed => finished(phase, step, Some(Note::ClientClosed), SessionOutcome::Served),
        ReadEvent::TimedOut => finished(
            phase,
            step,
            Some(Note::IdleTimeout),
            SessionOutcome::Served,
        ),
    }
}

/// Where a write that did not succeed leads, unless the session was to end with
/// it.
pub open spec fn after_stall(
    context: &'static str,
    event: SendEvent,
    phase: Phase,
    step: Step,
) -> bool {
    match event {
        SendEvent::Flushed => false,
        SendEvent::Failed(e) => failed(phase, step, None, Error::Io(e)),
        SendEvent::TimedOut => failed(phase, step, Some(Note::FlushTimeout(context)), Error::Timeout),
    }
}

/// Where the flush of a packet leads.
pub open spec fn after_send(waiting: Phase, event: SendEvent, phase: Phase, step: Step) -> bool {
    match waiting {
        Phase::Accepting(terms, _, _, _) => if event is Flushed {
            &&& phase == Phase::Serving(terms)
            &&& step == (Step { note: None, deliver: None, next: Next::ReadPacket })
        } else {
            after_stall(TIMEOUT_CTX_CONNACK_FLUSH, event, phase, step)
        },
        Phase::Refusing => if event is Flushed {
            finished(phase, step, None, SessionOutcome::Refused)
        } else {
            after_stall(TIMEOUT_CTX_CONNACK_FLUSH, event, phase, step)
        },
        Phase::Replying(terms, context) => if event is Flushed {
            &&& phase == Phase::Serving(terms)
            &&& step == (Step { note: None, deliver: None, next: Next::ReadPacket })
        } else {
            after_stall(context, event, phase, step)
        },
        Phase::Disconnecting(_, violation) => finished(
            phase,
            step,
            if event is TimedOut {
                Some(Note::FlushTimeout(TIMEOUT_CTX_DISCONNECT_FLUSH))
            } else {
                None
            },
            SessionOutcome::Violation(violation),
        ),
        _ => false,
    }
}

/// Whether a session that stands at `waiting` asked for what `event` reports.
pub open spec fn awaited(waiting: Phase, event: IoEvent) -> bool {
    match event {
        IoEvent::Version(_) => waiting is Detecting,
        IoEvent::Packet(_) => waiting is Connecting || waiting is Serving,
        IoEvent::Sent(_) => waiting is Accepting || waiting is Refusing || waiting is Replying
            || waiting is Disconnecting,
    }
}

/// The end of a session with an error.
fn fail(note: Option<Note>, e: Error) -> (r: (Phase, Step))
    ensures
        failed(r.0, r.1, note, e),
{
    (Phase::Ended, Step { note, deliver: None, next: Next::Finish(Err(e)) })
}

/// The end of a session without an error.
fn finish(note: Option<Note>, outcome: SessionOutcome) -> (r: (Phase, Step))
    ensures
        finished(r.0, r.1, note, outcome),
{
    (Phase::Ended, Step { note, deliver: None, next: Next::Finish(Ok(outcome)) })
}

/// Goes on from the wait for the protocol version.
pub fn on_version(event: ReadEvent<ProtocolVersion>) -> (r: (Phase, Step))
    ensures
        after_version(event, r.0, r.1),
{
    match event {
        ReadEvent::Item(version) => (
            Phase::Connecting(version),
            Step {
                note: Some(Note::DetectedVersion(version)),
                deliver: None,
                next: Next::ReadConnect(version),
            },
        ),
        ReadEvent::Failed(e) => {
            let note = note_failure(&e, Note::FirstPacketNotConnect);
            fail(Some(note), Error::Io(e))
        },
        ReadEvent::Closed => fail(None, Error::ClientClosed),
        ReadEvent::TimedOut => fail(Some(Note::VersionTimeout), Error::Timeout),
    }
}

/// Goes on from a decision on the first packet, which arrived at `received_at`.
pub fn on_decision(version: ProtocolVersion, decision: ConnectDecision, received_at: Instant) -> (r:
    (Phase, Step))
    ensures
        after_decision(version, decision, r.0, r.1),
        r.0 matches Phase::Accepting(_, _, _, at) ==> at == received_at,
{
    match decision {
        ConnectDecision::NotConnect => fail(
            Some(Note::FirstPacketNotConnect),
            Error::Protocol("first packet was not CONNECT".to_owned()),
        ),
        ConnectDecision::Refuse { connack, sendable } => {
            let note = Some(Note::ConnectRefused(refusal(&connack)));
            if sendable {
                (
                    Phase::Refusing,
                    Step {
                        note,
                        deliver: None,
                        next: Next::Send {
                            packet: connack,
                            timeout_context: TIMEOUT_CTX_CONNACK_FLUSH,
                        },
                    },
                )
            } else {
                finish(note, SessionOutcome::Refused)
            }
        },
        ConnectDecision::Accept {
            connack,
            client_id,
            keep_alive_secs,
            idle_timeout_ms,
            max_packet_size,
        } => (
            Phase::Accepting(
                Terms { version, idle_timeout_ms, max_packet_size },
                client_id,
                keep_alive_secs,
                received_at,
            ),
            Step {
                note: None,
                deliver: None,
                next: Next::Send { packet: connack, timeout_context: TIMEOUT_CTX_CONNACK_FLUSH },
            },
        ),
    }
}

/// The CONNACK that refuses an identifier.
fn refuse_identifier(version: ProtocolVersion) -> (packet: ServerPacket)
    ensures
        identifier_refusal(version, packet),
{
    match version {
        ProtocolVersion::MQTT3 => ServerPacket::V3(
            ServerPacketV3::ConnectAck(
                ConnectAck {
                    return_code: ConnectAckReason::IdentifierRejected,
                    session_present: false,
                },
            ),
        ),
        ProtocolVersion::MQTT5 => ServerPacket::V5(
            ServerPacketV5::ConnectAck(
                handshake::honest_v5_connack(ConnectAckReasonV5::ClientIdentifierNotValid),
            ),
        ),
    }
}

/// Goes on from the wait for the CONNECT, which ended at `received_at`.
pub fn on_connect(
    version: ProtocolVersion,
    idle_timeout_secs: u64,
    peer_addr: &str,
    event: ReadEvent<MqttPacket>,
    received_at: Instant,
) -> (r: (Phase, Step))
    ensures
        after_connect(version, idle_timeout_secs, peer_addr@, event, r.0, r.1),
        r.0 matches Phase::Accepting(_, _, _, at) ==> at == received_at,
{
    match event {
        ReadEvent::Item(first) => {
            let decision = handshake::evaluate_connect(&first, idle_timeout_secs, peer_addr);
            on_decision(version, decision, received_at)
        },
        ReadEvent::Failed(e) => {
            let invalid_client_id = match &e {
                IoError::Rejected(rejection) => matches!(rejection.fault, Fault::InvalidClientId),
                IoError::Transport { .. } => false,
            };
            if invalid_client_id {
                return (
                    Phase::Refusing,
                    Step {
                        note: Some(Note::InvalidClientId),
                        deliver: None,
                        next: Next::Send {
                            packet: refuse_identifier(version),
                            timeout_context: TIMEOUT_CTX_CONNACK_FLUSH,
                        },
                    },
                );
            }
            let note = note_failure(&e, Note::MalformedConnect);
            fail(Some(note), Error::Io(e))
        },
        ReadEvent::Closed => fail(None, Error::ClientClosed),
        ReadEvent::TimedOut => fail(Some(Note::ConnectTimeout), Error::Timeout),
    }
}

/// Goes on from a violation.
fn on_violation(terms: Terms, violation: Violation, deliver: Option<Event>) -> (r: (Phase, Step))
    ensures
        after_violation(terms, violation, deliver, r.0, r.1),
{
    match violation.disconnect(terms.version, terms.max_packet_size) {
        Some(packet) => (
            Phase::Disconnecting(terms, violation),
            Step {
                note: Some(Note::Violation(violation)),
                deliver,
                next: Next::Send { packet, timeout_context: TIMEOUT_CTX_DISCONNECT_FLUSH },
            },
        ),
        None => (
            Phase::Ended,
            Step {
                note: Some(Note::Violation(violation)),
                deliver,
                next: Next::Finish(Ok(SessionOutcome::Violation(violation))),
            },
        ),
    }
}

/// Goes on from a reply that is owed.
fn on_reply(terms: Terms, reply: Reply, deliver: Option<Event>) -> (r: (Phase, Step))
    ensures
        after_reply(terms, reply, deliver, r.0, r.1),
{
    match packet::reply_over_max_packet_size(reply, terms.version, terms.max_packet_size) {
        Some(violation) => on_violation(terms, violation, deliver),
        None => (
            Phase::Replying(terms, reply.timeout_context()),
            Step {
                note: None,
                deliver,
                next: Next::Send {
                    packet: reply.render(terms.version),
                    timeout_context: reply.timeout_context(),
                },
            },
        ),
    }
}

/// Goes on from the wait for a packet.
pub fn on_packet(terms: Terms, event: ReadEvent<MqttPacket>) -> (r: (Phase, Step))
    ensures
        after_packet(terms, event, r.0, r.1),
{
    match event {
        ReadEvent::Item(received) => match packet::dispatch(&received) {
            Disposition::Deliver(publish) => {
                let deliver = event::parse_sensor_data(publish.payload.as_slice());
                (Phase::Serving(terms), Step { note: None, deliver, next: Next::ReadPacket })
            },
            Disposition::DeliverThenAck(publish, id) => {
                let deliver = event::parse_sensor_data(publish.payload.as_slice());
                on_reply(terms, Reply::PublishAck(id), deliver)
            },
            Disposition::Reply(reply) => on_reply(terms, reply, None),
            Disposition::Close => finish(Some(Note::ClientDisconnect), SessionOutcome::Served),
            Disposition::Violation(violation) => on_violation(terms, violation, None),
        },
        ReadEvent::Failed(e) => match packet::classify_read_error(&e) {
            Some(violation) => on_violation(terms, violation, None),
            None => finish(Some(Note::PacketError), SessionOutcome::Served),
        },
        ReadEvent::Closed => finish(Some(Note::ClientClosed), SessionOutcome::Served),
        ReadEvent::TimedOut => finish(Some(Note::IdleTimeout), SessionOutcome::Served),
    }
}

/// One client session.
#[derive(Debug)]
pub struct Session {
    pub phase: Phase,
    pub state: ConnectionState,
    pub peer_addr: String,
    /// How long the handshake may take, in milliseconds.
    pub handshake_budget_ms: u64,
    /// The configured idle timeout, in seconds.
    pub idle_timeout_secs: u64,
    /// When the handshake began.
    pub started_at: Instant,
}

impl Session {
    /// Where an event takes the session, and what it leads to.
    pub open spec fn advanced(self, event: IoEvent, after: Session, step: Step) -> bool {
        match (self.phase, event) {
            (Phase::Detecting, IoEvent::Version(event)) => after_version(event, after.phase, step),
            (Phase::Connecting(version), IoEvent::Packet(event)) => after_connect(
                version,
                self.idle_timeout_secs,
                self.peer_addr@,
                event,
                after.phase,
                step,
            ),
            (Phase::Serving(terms), IoEvent::Packet(event)) => after_packet(
                terms,
                event,
                after.phase,
                step,
            ),
            (waiting, IoEvent::Sent(event)) => after_send(waiting, event, after.phase, step),
            _ => false,
        }
    }

    /// What an event at the given time does to what the session knows of the
    /// client and to its clocks. A packet of an established session sets the
    /// clock of its silence. That of the first silence runs from the arrival of
    /// the CONNECT, however long the CONNACK took.
    pub open spec fn clocked(self, event: IoEvent, at: Instant, after: Session) -> bool {
        &&& after.started_at == self.started_at
        &&& after.phase matches Phase::Accepting(_, _, _, received_at) ==> received_at == at
        &&& after.state == match (self.phase, event) {
            (
                Phase::Accepting(_, client_id, keep_alive, received_at),
                IoEvent::Sent(SendEvent::Flushed),
            ) => ConnectionState { client_id, keep_alive, last_packet_time: received_at },
            (Phase::Serving(_), IoEvent::Packet(ReadEvent::Item(_))) => self.state.active_at(at),
            _ => self.state,
        }
    }

    /// What no event changes: who is at the other end, and what was configured.
    pub open spec fn same_settings(self, after: Session) -> bool {
        &&& after.peer_addr == self.peer_addr
        &&& after.handshake_budget_ms == self.handshake_budget_ms
        &&& after.idle_timeout_secs == self.idle_timeout_secs
    }

    /// A session at its beginning: it waits for the protocol version.
    pub fn new(peer_addr: String, connection_timeout_secs: u64, idle_timeout_secs: u64) -> (r:
        Session)
        ensures
            r == Session::beginning(
                peer_addr,
                connection_timeout_secs,
                idle_timeout_secs,
                r.started_at,
            ),
            exists|clock: &mut Clock|
                call_ensures(
                    Session::new_by,
                    (clock, peer_addr, connection_timeout_secs, idle_timeout_secs),
                    r,
                ),
    {
        Session::new_by(
            &mut Clock::new(),
            peer_addr,
            connection_timeout_secs,
            idle_timeout_secs,
        )
    }

    /// A session at its beginning, by the given clock.
    pub fn new_by(
        clock: &mut Clock,
        peer_addr: String,
        connection_timeout_secs: u64,
        idle_timeout_secs: u64,
    ) -> (r: Session)
        ensures
            old(clock).told_once(r.started_at, *final(clock)),
            r == Session::beginning(
                peer_addr,
                connection_timeout_secs,
                idle_timeout_secs,
                r.started_at,
            ),
    {
        let at = clock.now();
        Session::begun_at(peer_addr, connection_timeout_secs, idle_timeout_secs, at)
    }

    /// A session that began at the given time.
    pub open spec fn beginning(
        peer_addr: String,
        connection_timeout_secs: u64,
        idle_timeout_secs: u64,
        at: Instant,
    ) -> Session {
        Session {
            phase: Phase::Detecting,
            state: ConnectionState { client_id: None, keep_alive: 60, last_packet_time: at },
            peer_addr,
            handshake_budget_ms: (handshake::supported_secs(connection_timeout_secs)
                * 1000) as u64,
            idle_timeout_secs,
            started_at: at,
        }
    }

    /// A session that began at the given time.
    pub fn begun_at(
        peer_addr: String,
        connection_timeout_secs: u64,
        idle_timeout_secs: u64,
        at: Instant,
    ) -> (r: Session)
        ensures
            r == Session::beginning(peer_addr, connection_timeout_secs, idle_timeout_secs, at),
    {
        Session {
            phase: Phase::Detecting,
            state: ConnectionState::begun_at(at),
            peer_addr,
            handshake_budget_ms: handshake::clamp_timeout_secs(connection_timeout_secs) * 1000,
            idle_timeout_secs,
            started_at: at,
        }
    }

    /// The terms that the session is on, once its CONNECT was accepted.
    pub open spec fn terms(self) -> Option<Terms> {
        match self.phase {
            Phase::Serving(terms) => Some(terms),
            Phase::Replying(terms, _) => Some(terms),
            Phase::Disconnecting(terms, _) => Some(terms),
            _ => None,
        }
    }

    /// How long the read or write that the session waits for may take, in
    /// milliseconds: the whole handshake shares one budget, which runs from its
    /// start, and a session's silence counts from its last packet.
    pub open spec fn allowance_ms(self) -> u64 {
        match self.terms() {
            Some(terms) => terms.idle_timeout_ms,
            None => self.handshake_budget_ms,
        }
    }

    /// From when the allowance runs.
    pub open spec fn allowed_since(self) -> Instant {
        match self.terms() {
            Some(_) => self.state.last_packet_time,
            None => self.started_at,
        }
    }

    /// How long the read or write that the session waits for may take, in
    /// milliseconds, and from when that counts.
    pub fn allowance(&self) -> (r: (u64, Instant))
        ensures
            r == (self.allowance_ms(), self.allowed_since()),
    {
        match &self.phase {
            Phase::Serving(terms) | Phase::Replying(terms, _) | Phase::Disconnecting(terms, _) => {
                (terms.idle_timeout_ms, self.state.last_packet_time)
            },
            _ => (self.handshake_budget_ms, self.started_at),
        }
    }

    /// How long the read or write that the session waits for may still take, in
    /// nanoseconds, by the clock.
    pub fn remaining_nanos(&self) -> (r: u128)
        ensures
            exists|elapsed_nanos: u128| r == #[trigger] left_of(self.allowance_ms(), elapsed_nanos),
            exists|clock: &mut Clock| call_ensures(Session::remaining_by, (self, clock), r),
    {
        self.remaining_by(&mut Clock::new())
    }

    /// How long the read or write that the session waits for may still take, in
    /// nanoseconds, by the given clock: the time since the allowance runs is read.
    pub fn remaining_by(&self, clock: &mut Clock) -> (r: u128)
        ensures
            old(clock).read(self.allowed_since(), *final(clock)),
            r == left_of(self.allowance_ms(), final(clock).elapsed()),
    {
        let (allowance_ms, since) = self.allowance();
        let elapsed_nanos = clock.elapsed_nanos(&since);
        remaining(allowance_ms, elapsed_nanos)
    }

    /// Goes on after the read or write that the session asked for.
    pub fn step(&mut self, event: IoEvent) -> (step: Step)
        requires
            awaited(old(self).phase, event),
        ensures
            old(self).advanced(event, *final(self), step),
            old(self).same_settings(*final(self)),
            exists|at: Instant| #[trigger] old(self).clocked(event, at, *final(self)),
            exists|session: &mut Session, clock: &mut Clock|
                {
                    &&& call_ensures(Session::step_by, (session, clock, event), step)
                    &&& *session == *old(self)
                    &&& *final(session) == *final(self)
                },
    {
        let mut clock = Clock::new();
        let step = self.step_by(&mut clock, event);
        assert(old(self).clocked(event, clock.told().last(), *self));
        step
    }

    /// Goes on after the read or write that the session asked for, by the given
    /// clock.
    pub fn step_by(&mut self, clock: &mut Clock, event: IoEvent) -> (step: Step)
        requires
            awaited(old(self).phase, event),
        ensures
            old(clock).told_once(final(clock).told().last(), *final(clock)),
            old(self).advanced(event, *final(self), step),
            old(self).same_settings(*final(self)),
            old(self).clocked(event, final(clock).told().last(), *final(self)),
    {
        let at = clock.now();
        self.step_at(event, at)
    }

    /// Goes on after the read or write that the session asked for, which ended
    /// at the given time.
    pub fn step_at(&mut self, event: IoEvent, at: Instant) -> (step: Step)
        requires
            awaited(old(self).phase, event),
        ensures
            old(self).advanced(event, *final(self), step),
            old(self).same_settings(*final(self)),
            old(self).clocked(event, at, *final(self)),
    {
        let mut waiting = Phase::Ended;
        core::mem::swap(&mut self.phase, &mut waiting);
        let (phase, step) = match event {
            IoEvent::Version(event) => on_version(event),
            IoEvent::Packet(event) => match waiting {
                Phase::Connecting(version) => on_connect(
                    version,
                    self.idle_timeout_secs,
                    self.peer_addr.as_str(),
                    event,
                    at,
                ),
                Phase::Serving(terms) => {
                    if matches!(event, ReadEvent::Item(_)) {
                        self.state.set_activity(at);
                    }
                    on_packet(terms, event)
                },
                _ => finish(None, SessionOutcome::Served),
            },
            IoEvent::Sent(event) => match waiting {
                Phase::Accepting(terms, client_id, keep_alive, received_at) => {
                    if matches!(event, SendEvent::Flushed) {
                        self.state = ConnectionState {
                            client_id,
                            keep_alive,
                            last_packet_time: received_at,
                        };
                        serve(terms)
                    } else {
                        on_stall(TIMEOUT_CTX_CONNACK_FLUSH, event)
                    }
                },
                Phase::Refusing => {
                    if matches!(event, SendEvent::Flushed) {
                        finish(None, SessionOutcome::Refused)
                    } else {
                        on_stall(TIMEOUT_CTX_CONNACK_FLUSH, event)
                    }
                },
                Phase::Replying(terms, context) => {
                    if matches!(event, SendEvent::Flushed) {
                        serve(terms)
                    } else {
                        on_stall(context, event)
                    }
                },
                Phase::Disconnecting(_, violation) => {
                    let note = if matches!(event, SendEvent::TimedOut) {
                        Some(Note::FlushTimeout(TIMEOUT_CTX_DISCONNECT_FLUSH))
                    } else {
                        None
                    };
                    finish(note, SessionOutcome::Violation(violation))
                },
                _ => finish(None, SessionOutcome::Served),
            },
        };
        self.phase = phase;
        step
    }
}

/// What is left of an allowance after some time has passed, in nanoseconds.
pub open spec fn left_of(allowance_ms: u64, elapsed_nanos: u128) -> int {
    if elapsed_nanos < allowance_ms * 1_000_000 {
        allowance_ms * 1_000_000 - elapsed_nanos
    } else {
        0
    }
}

/// What is left of an allowance after some time has passed, in nanoseconds.
pub fn remaining(allowance_ms: u64, elapsed_nanos: u128) -> (r: u128)
    ensures
        r == left_of(allowance_ms, elapsed_nanos),
{
    let allowance: u128 = allowance_ms as u128 * 1_000_000;
    if elapsed_nanos < allowance {
        allowance - elapsed_nanos
    } else {
        0
    }
}

/// Waits for the next packet.
fn serve(terms: Terms) -> (r: (Phase, Step))
    ensures
        r.0 == Phase::Serving(terms),
        r.1 == (Step { note: None, deliver: None, next: Next::ReadPacket }),
{
    (Phase::Serving(terms), Step { note: None, deliver: None, next: Next::ReadPacket })
}

/// Goes on from a write that did not succeed.
fn on_stall(context: &'static str, event: SendEvent) -> (r: (Phase, Step))
    requires
        !(event is Flushed),
    ensures
        after_stall(context, event, r.0, r.1),
{
    match event {
        SendEvent::Failed(e) => fail(None, Error::Io(e)),
        _ => fail(Some(Note::FlushTimeout(context)), Error::Timeout),
    }
}

} // verus!
