//! The handshake: keep-alive, capabilities, packet size.

use crate::broker::handler;
use crate::broker::handler::{Next, Phase, Step};
use crate::broker::handshake;
use crate::broker::handshake::{ConnectDecision, MAX_TIMEOUT_SECS};
use crate::broker::packet;
use crate::broker::packet::{Disposition, PacketKind, Reply, Violation};
use crate::codec::id::{PacketId, PacketLimit};
use crate::codec::types::{
    Connect, ConnectAckReasonV5, ConnectAckV5, ConnectV5, Publish, ServerPacket, ServerPacketV5,
};
use crate::codec::version::ProtocolVersion;
use crate::codec::wire;
use vstd::prelude::*;

verus! {

/// A session's deadline is one and a half times the keep-alive in force: the
/// broker holds to the keep-alive that it announced, and to the client's own
/// where it announced none. Without a keep-alive the ceiling is the deadline.
pub proof fn law_keep_alive_is_honoured(keep_alive: u16, ceiling_secs: u64)
    requires
        ceiling_secs <= MAX_TIMEOUT_SECS,
    ensures
        ({
            let k = handshake::keep_alive_v5(keep_alive, ceiling_secs);
            &&& k.secs != 0 ==> k.idle_ms == handshake::grace_ms(k.secs)
            &&& k.secs == 0 <==> keep_alive == 0
            &&& k.secs == 0 ==> k.idle_ms == ceiling_secs * 1000
            &&& k.announce is Some ==> k.announce == Some(k.secs)
            &&& k.announce is None ==> k.secs == keep_alive
        }),
{
}

/// The ceiling bounds every 5.0 deadline, but for a ceiling under two seconds,
/// which the one-second keep-alive that is announced then exceeds by at most a
/// second and a half.
pub proof fn law_ceiling_bounds_deadline_v5(keep_alive: u16, ceiling_secs: u64)
    requires
        ceiling_secs <= MAX_TIMEOUT_SECS,
    ensures
        ceiling_secs >= 2 ==> handshake::keep_alive_v5(keep_alive, ceiling_secs).idle_ms
            <= ceiling_secs * 1000,
        handshake::keep_alive_v5(keep_alive, ceiling_secs).idle_ms <= ceiling_secs * 1000 + 1500,
{
}

/// The ceiling bounds every 3.1.1 deadline, and so does the client's keep-alive
/// with its grace.
pub proof fn law_ceiling_bounds_deadline_v3(keep_alive: u16, ceiling_secs: u64)
    ensures
        handshake::idle_ms_v3(keep_alive, ceiling_secs) <= ceiling_secs * 1000,
        keep_alive != 0 ==> handshake::idle_ms_v3(keep_alive, ceiling_secs)
            <= handshake::grace_ms(keep_alive),
{
}

/// A keep-alive is announced only where the client's own, with its grace, would
/// exceed the ceiling, and it is then a shorter one, unless the client's own was
/// a second already.
pub proof fn law_announcement_shortens(keep_alive: u16, ceiling_secs: u64)
    requires
        ceiling_secs <= MAX_TIMEOUT_SECS,
    ensures
        ({
            let k = handshake::keep_alive_v5(keep_alive, ceiling_secs);
            &&& k.announce is Some <==> handshake::grace_ms(keep_alive) > ceiling_secs * 1000
            &&& k.announce is Some ==> k.secs < keep_alive || keep_alive == 1
        }),
{
}

/// The CONNACK promises what the packet loop keeps: a PUBLISH is refused for its
/// quality of service exactly where it is above the one advertised.
pub proof fn law_advertised_qos_is_served(
    ack: ConnectAckV5,
    reason: ConnectAckReasonV5,
    assigned: Option<Seq<char>>,
    announce: Option<u16>,
    publish: Publish,
    d: Disposition,
)
    requires
        handshake::honest(ack, reason, assigned, announce),
        packet::disposition_is(PacketKind::Publish(publish), d),
    ensures
        d == Disposition::Violation(Violation::PublishQosAboveMaximum) <==> publish.qos.level()
            > ack.max_qos.level(),
        publish.qos.level() <= ack.max_qos.level() && publish.packet_id is Some ==> d is Deliver || d
            is DeliverThenAck,
{
}

/// The answer to a 5.0 CONNECT is written only where the client can receive it,
/// whether it accepts or refuses.
pub proof fn law_handshakes_keep_the_limit(
    first: ConnectV5,
    ceiling_secs: u64,
    peer_addr: Seq<char>,
    decision: ConnectDecision,
    after: Phase,
    step: Step,
)
    requires
        handshake::decided_v5(first, ceiling_secs, peer_addr, decision),
        handler::after_decision(ProtocolVersion::MQTT5, decision, after, step),
    ensures
        step.next matches Next::Send { packet: written, .. } ==> packet::fits(
            packet::wire_len(written, ProtocolVersion::MQTT5),
            first.max_packet_size,
        ),
{
    handshake::lemma_bare_connack_len();
    let assigned = handshake::assigned_id(first, peer_addr);
    let announce = handshake::keep_alive_v5(first.keep_alive, ceiling_secs).announce;
    match decision {
        ConnectDecision::Accept { connack: ServerPacket::V5(ServerPacketV5::ConnectAck(ack)), .. } => {
            handshake::lemma_connack_len(ack, ConnectAckReasonV5::Success, assigned, announce);
        },
        ConnectDecision::Refuse {
            connack: ServerPacket::V5(ServerPacketV5::ConnectAck(ack)),
            ..
        } => {
            handshake::lemma_connack_len(ack, ack.reason_code, None, None);
        },
        _ => {},
    }
}

/// A client that can receive its CONNACK can receive a PINGRESP, a PUBACK, and
/// the DISCONNECT of any violation: it is refused before a session begins whose
/// first reply would break its limit.
pub proof fn law_accepted_clients_can_be_answered(
    assigned: Option<Seq<char>>,
    announce: Option<u16>,
    limit: Option<PacketLimit>,
    id: PacketId,
    violation: Violation,
)
    requires
        packet::fits(handshake::connack_len(assigned, announce), limit),
    ensures
        packet::fits(Reply::PingResponse.wire_len(ProtocolVersion::MQTT5), limit),
        packet::fits(Reply::PublishAck(id).wire_len(ProtocolVersion::MQTT5), limit),
        violation.farewell(ProtocolVersion::MQTT5, limit) is Some,
{
    reveal_with_fuel(wire::var_int, 2);
    if limit is Some {
        let properties = handshake::honest_properties_len(assigned, announce);
        wire::lemma_var_int_len(properties);
    }
}

/// The authentication refusal goes before the packet size: a 5.0 client that
/// fails on both is told of its authentication method.
pub proof fn law_authentication_outranks_size(
    c: ConnectV5,
    ceiling_secs: u64,
    peer_addr: Seq<char>,
    decision: ConnectDecision,
)
    requires
        handshake::decided_v5(c, ceiling_secs, peer_addr, decision),
        c.auth_method is Some,
    ensures
        decision matches ConnectDecision::Refuse {
            connack: ServerPacket::V5(ServerPacketV5::ConnectAck(ack)),
            ..
        } && ack.reason_code == ConnectAckReasonV5::BadAuthenticationMethod,
{
}

/// A packet size concerns 5.0 alone: a 3.1.1 CONNECT is refused only for its
/// identifier, its refusal can always be sent, and its session has no limit.
pub proof fn law_size_does_not_concern_v3(
    c: Connect,
    ceiling_secs: u64,
    decision: ConnectDecision,
)
    requires
        handshake::decided_v3(c, ceiling_secs, decision),
    ensures
        decision is Refuse <==> c.client_id@.len() == 0 && !c.clean_session,
        decision matches ConnectDecision::Refuse { sendable, .. } ==> sendable,
        decision matches ConnectDecision::Accept { max_packet_size, .. } ==> max_packet_size is None,
{
}

/// What a refusal says of the broker is what an acceptance says of it.
pub proof fn law_refusals_are_as_honest(
    accepted: ConnectAckV5,
    refused: ConnectAckV5,
    reason: ConnectAckReasonV5,
    assigned: Option<Seq<char>>,
    announce: Option<u16>,
)
    requires
        handshake::honest(accepted, ConnectAckReasonV5::Success, assigned, announce),
        handshake::honest(refused, reason, None, None),
    ensures
        refused.max_qos == accepted.max_qos,
        refused.retain_available == accepted.retain_available,
        refused.wildcard_subscription_available == accepted.wildcard_subscription_available,
        refused.subscription_identifiers_available == accepted.subscription_identifiers_available,
        refused.shared_subscription_available == accepted.shared_subscription_available,
        refused.session_expiry_interval_secs == accepted.session_expiry_interval_secs,
{
}

/// A larger packet size never turns an acceptance into a refusal.
pub proof fn law_acceptance_is_monotonic(
    c: ConnectV5,
    larger: ConnectV5,
    ceiling_secs: u64,
    peer_addr: Seq<char>,
    decision: ConnectDecision,
    larger_decision: ConnectDecision,
)
    requires
        handshake::decided_v5(c, ceiling_secs, peer_addr, decision),
        handshake::decided_v5(larger, ceiling_secs, peer_addr, larger_decision),
        larger == (ConnectV5 { max_packet_size: larger.max_packet_size, ..c }),
        larger.max_packet_size matches Some(l) ==> c.max_packet_size matches Some(n) && n@ <= l@,
        decision is Accept,
    ensures
        larger_decision is Accept,
{
}

} // verus!
