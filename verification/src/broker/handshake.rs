//! What the broker makes of the first packet of a connection.

use crate::broker::packet;
use crate::codec::encoder;
use crate::codec::id::PacketLimit;
use crate::codec::types::{
    Connect, ConnectAck, ConnectAckReason, ConnectAckReasonV5, ConnectAckV5, ConnectV5, MqttPacket,
    PacketV3, PacketV5, QoS, ServerPacket, ServerPacketV3, ServerPacketV5,
};
use crate::codec::version::ProtocolVersion;
use crate::codec::wire;
use vstd::prelude::*;
use vstd::string::StringExecFns;

verus! {

/// A session is idle after one and a half times its keep-alive: milliseconds of
/// grace for each second of keep-alive.
pub const KEEP_ALIVE_GRACE_MILLIS_PER_SEC: u64 = 1500;

/// The longest configured timeout that is supported: a year. What is configured
/// beyond it counts as a year.
pub const MAX_TIMEOUT_SECS: u64 = 31_536_000;

/// The highest quality of service that the broker acknowledges. The CONNACK
/// advertises it, and a PUBLISH above it is a violation.
pub const MAX_QOS: QoS = QoS::AtLeastOnce;

/// What the first packet of a connection leads to.
#[derive(Debug)]
pub enum ConnectDecision {
    /// The session begins.
    Accept {
        connack: ServerPacket,
        /// `None` for an anonymous 3.1.1 client.
        client_id: Option<String>,
        /// The keep-alive in force: the one announced to the client, or else its
        /// own.
        keep_alive_secs: u16,
        /// How long the session may stay silent, in milliseconds.
        idle_timeout_ms: u64,
        /// The largest packet the client can receive, if it set a limit.
        max_packet_size: Option<PacketLimit>,
    },
    /// The CONNECT is refused. The CONNACK that says so is written only where
    /// the client can receive it.
    Refuse { connack: ServerPacket, sendable: bool },
    /// The first packet was no CONNECT: the connection closes without a word.
    NotConnect,
}

/// A configured timeout, in seconds, as far as it is supported.
pub open spec fn supported_secs(configured: u64) -> u64 {
    if configured <= MAX_TIMEOUT_SECS {
        configured
    } else {
        MAX_TIMEOUT_SECS
    }
}

/// A configured timeout, in seconds, as far as it is supported.
pub fn clamp_timeout_secs(configured: u64) -> (r: u64)
    ensures
        r == supported_secs(configured),
{
    if configured <= MAX_TIMEOUT_SECS {
        configured
    } else {
        MAX_TIMEOUT_SECS
    }
}

/// One and a half times a keep-alive, in milliseconds.
pub open spec fn grace_ms(keep_alive: u16) -> nat {
    (keep_alive * KEEP_ALIVE_GRACE_MILLIS_PER_SEC) as nat
}

/// The idle timeout of a 3.1.1 session: the keep-alive with its grace, but no
/// longer than the ceiling, which alone counts where there is no keep-alive.
pub open spec fn idle_ms_v3(keep_alive: u16, ceiling_secs: u64) -> nat {
    if keep_alive == 0 || grace_ms(keep_alive) > ceiling_secs * 1000 {
        (ceiling_secs * 1000) as nat
    } else {
        grace_ms(keep_alive)
    }
}

/// The keep-alive to announce so that, with its grace, it stays under the
/// ceiling: two thirds of it, but at least a second.
pub open spec fn announced_keep_alive(ceiling_secs: u64) -> u16 {
    let two_thirds = ceiling_secs * 2 / 3;
    if two_thirds < 1 {
        1
    } else if two_thirds > u16::MAX {
        u16::MAX
    } else {
        two_thirds as u16
    }
}

/// The keep-alive of a 5.0 session.
#[derive(Debug, Clone, Copy, PartialEq, Eq, Structural)]
pub struct KeepAlive {
    /// The keep-alive in force, in seconds.
    pub secs: u16,
    /// How long the session may stay silent, in milliseconds.
    pub idle_ms: u64,
    /// What the CONNACK announces in place of the client's own keep-alive.
    pub announce: Option<u16>,
}

/// The keep-alive of a 5.0 session: the client's own where it stays under the
/// ceiling, and an announced one where it does not.
pub open spec fn keep_alive_v5(keep_alive: u16, ceiling_secs: u64) -> KeepAlive {
    if keep_alive == 0 {
        KeepAlive { secs: 0, idle_ms: (ceiling_secs * 1000) as u64, announce: None }
    } else if grace_ms(keep_alive) <= ceiling_secs * 1000 {
        KeepAlive { secs: keep_alive, idle_ms: grace_ms(keep_alive) as u64, announce: None }
    } else {
        let secs = announced_keep_alive(ceiling_secs);
        KeepAlive { secs, idle_ms: grace_ms(secs) as u64, announce: Some(secs) }
    }
}

/// The keep-alive of a 5.0 session under a supported ceiling.
pub fn negotiate_keep_alive(keep_alive: u16, ceiling_secs: u64) -> (r: KeepAlive)
    requires
        ceiling_secs <= MAX_TIMEOUT_SECS,
    ensures
        r == keep_alive_v5(keep_alive, ceiling_secs),
{
    let ceiling_ms: u64 = ceiling_secs * 1000;
    if keep_alive == 0 {
        return KeepAlive { secs: 0, idle_ms: ceiling_ms, announce: None };
    }
    let own_ms: u64 = keep_alive as u64 * KEEP_ALIVE_GRACE_MILLIS_PER_SEC;
    if own_ms <= ceiling_ms {
        return KeepAlive { secs: keep_alive, idle_ms: own_ms, announce: None };
    }
    let two_thirds: u64 = ceiling_secs * 2 / 3;
    let secs: u16 = if two_thirds < 1 {
        1
    } else if two_thirds > u16::MAX as u64 {
        u16::MAX
    } else {
        two_thirds as u16
    };
    let idle_ms: u64 = secs as u64 * KEEP_ALIVE_GRACE_MILLIS_PER_SEC;
    KeepAlive { secs, idle_ms, announce: Some(secs) }
}

/// Whether `ack` is the 5.0 CONNACK with the given reason: truthful about what
/// the broker can do, and silent about all else but an assigned identifier and
/// an announced keep-alive.
pub open spec fn honest(
    ack: ConnectAckV5,
    reason: ConnectAckReasonV5,
    assigned: Option<Seq<char>>,
    announce: Option<u16>,
) -> bool {
    &&& !ack.session_present
    &&& ack.reason_code == reason
    &&& ack.session_expiry_interval_secs == Some(0u32)
    &&& ack.max_qos == MAX_QOS
    &&& match assigned {
        Some(id) => ack.assigned_client_id matches Some(text) && text@ == id,
        None => ack.assigned_client_id is None,
    }
    &&& ack.retain_available
    &&& ack.wildcard_subscription_available
    &&& ack.subscription_identifiers_available
    &&& ack.shared_subscription_available
    &&& ack.server_keepalive_sec == announce
}

/// The 5.0 CONNACK with the given reason and what the broker can do.
pub fn honest_v5_connack(reason: ConnectAckReasonV5) -> (ack: ConnectAckV5)
    ensures
        honest(ack, reason, None, None),
{
    ConnectAckV5 {
        session_present: false,
        reason_code: reason,
        session_expiry_interval_secs: Some(0),
        max_qos: MAX_QOS,
        assigned_client_id: None,
        retain_available: true,
        wildcard_subscription_available: true,
        subscription_identifiers_available: true,
        shared_subscription_available: true,
        server_keepalive_sec: None,
    }
}

/// How many bytes the properties of an honest CONNACK take.
pub open spec fn honest_properties_len(assigned: Option<Seq<char>>, announce: Option<u16>) -> nat {
    7 + (match assigned {
        Some(id) => 3 + vstd::utf8::encode_utf8(id).len(),
        None => 0nat,
    }) + (if announce is Some {
        3nat
    } else {
        0
    })
}

/// How many bytes an honest CONNACK takes on the wire, if it has a wire form:
/// an assigned identifier has to fit its two-byte length.
pub open spec fn connack_len(assigned: Option<Seq<char>>, announce: Option<u16>) -> Option<nat> {
    if assigned matches Some(id) && vstd::utf8::encode_utf8(id).len() > 0xFFFF {
        None
    } else {
        let properties = honest_properties_len(assigned, announce);
        packet::framed_len(2 + wire::var_int(properties).len() + properties)
    }
}

/// An honest CONNACK is as long as `connack_len` says.
pub proof fn lemma_connack_len(
    ack: ConnectAckV5,
    reason: ConnectAckReasonV5,
    assigned: Option<Seq<char>>,
    announce: Option<u16>,
)
    requires
        honest(ack, reason, assigned, announce),
    ensures
        packet::wire_len(
            ServerPacket::V5(ServerPacketV5::ConnectAck(ack)),
            ProtocolVersion::MQTT5,
        ) == connack_len(assigned, announce),
{
    let fields = encoder::connack_fields(ack);
    wire::lemma_properties_len(fields);
    assert(fields.properties_len() == honest_properties_len(assigned, announce));
}

/// The CONNACK without an assigned identifier or an announced keep-alive takes
/// twelve bytes.
pub proof fn lemma_bare_connack_len()
    ensures
        connack_len(None, None) == Some(12nat),
{
    reveal_with_fuel(wire::var_int, 2);
}

/// Whether `decision` is a 5.0 refusal for the given reason to a client with the
/// given limit.
pub open spec fn refused_v5(
    reason: ConnectAckReasonV5,
    limit: Option<PacketLimit>,
    decision: ConnectDecision,
) -> bool {
    &&& decision matches ConnectDecision::Refuse { connack, sendable }
    &&& connack matches ServerPacket::V5(ServerPacketV5::ConnectAck(ack))
    &&& honest(ack, reason, None, None)
    &&& sendable == packet::fits(Some(12), limit)
}

/// A 5.0 refusal. Its CONNACK is sendable where it fits the limit that the
/// CONNECT declared.
pub fn refuse_v5(reason: ConnectAckReasonV5, max_packet_size: Option<PacketLimit>) -> (decision:
    ConnectDecision)
    ensures
        refused_v5(reason, max_packet_size, decision),
{
    let ack = honest_v5_connack(reason);
    proof {
        lemma_connack_len(ack, reason, None, None);
        lemma_bare_connack_len();
    }
    let connack = ServerPacket::V5(ServerPacketV5::ConnectAck(ack));
    let sendable = packet::fits_max_packet_size(&connack, ProtocolVersion::MQTT5, max_packet_size);
    ConnectDecision::Refuse { connack, sendable }
}

/// Whether `decision` is what a 3.1.1 CONNECT leads to. Only an empty identifier
/// that is to outlast the connection is refused.
pub open spec fn decided_v3(c: Connect, ceiling_secs: u64, decision: ConnectDecision) -> bool {
    if c.client_id@.len() == 0 && !c.clean_session {
        decision == (ConnectDecision::Refuse {
            connack: ServerPacket::V3(
                ServerPacketV3::ConnectAck(
                    ConnectAck {
                        return_code: ConnectAckReason::IdentifierRejected,
                        session_present: false,
                    },
                ),
            ),
            sendable: true,
        })
    } else {
        &&& decision matches ConnectDecision::Accept {
            connack,
            client_id,
            keep_alive_secs,
            idle_timeout_ms,
            max_packet_size,
        }
        &&& connack == ServerPacket::V3(
            ServerPacketV3::ConnectAck(
                ConnectAck {
                    return_code: ConnectAckReason::ConnectionAccepted,
                    session_present: false,
                },
            ),
        )
        &&& if c.client_id@.len() == 0 {
            client_id is None
        } else {
            client_id matches Some(id) && id@ == c.client_id@
        }
        &&& keep_alive_secs == c.keep_alive
        &&& idle_timeout_ms == idle_ms_v3(c.keep_alive, ceiling_secs)
        &&& max_packet_size is None
    }
}

/// The identifier that a 5.0 client without one is assigned: the address it
/// comes from, behind a prefix.
pub open spec fn assigned_id(c: ConnectV5, peer_addr: Seq<char>) -> Option<Seq<char>> {
    if c.client_id@.len() == 0 {
        Some("auto-"@ + peer_addr)
    } else {
        None
    }
}

/// Whether `decision` is what a 5.0 CONNECT leads to. An authentication method
/// is refused before all else, and then a limit that the CONNACK exceeds.
pub open spec fn decided_v5(
    c: ConnectV5,
    ceiling_secs: u64,
    peer_addr: Seq<char>,
    decision: ConnectDecision,
) -> bool {
    let assigned = assigned_id(c, peer_addr);
    let keep_alive = keep_alive_v5(c.keep_alive, ceiling_secs);
    if c.auth_method is Some {
        refused_v5(ConnectAckReasonV5::BadAuthenticationMethod, c.max_packet_size, decision)
    } else if !packet::fits(connack_len(assigned, keep_alive.announce), c.max_packet_size) {
        refused_v5(ConnectAckReasonV5::ImplementationSpecificError, c.max_packet_size, decision)
    } else {
        &&& decision matches ConnectDecision::Accept {
            connack,
            client_id,
            keep_alive_secs,
            idle_timeout_ms,
            max_packet_size,
        }
        &&& connack matches ServerPacket::V5(ServerPacketV5::ConnectAck(ack))
        &&& honest(ack, ConnectAckReasonV5::Success, assigned, keep_alive.announce)
        &&& client_id matches Some(id)
        &&& id@ == match assigned {
            Some(text) => text,
            None => c.client_id@,
        }
        &&& keep_alive_secs == keep_alive.secs
        &&& idle_timeout_ms == keep_alive.idle_ms
        &&& max_packet_size == c.max_packet_size
    }
}

/// Whether `decision` is what the first packet of a connection leads to, under a
/// configured idle timeout, for a client at the given address.
pub open spec fn decided(
    first: MqttPacket,
    config_idle_timeout_secs: u64,
    peer_addr: Seq<char>,
    decision: ConnectDecision,
) -> bool {
    match first {
        MqttPacket::V3(PacketV3::Connect(c)) => decided_v3(
            c,
            supported_secs(config_idle_timeout_secs),
            decision,
        ),
        MqttPacket::V5(PacketV5::Connect(c)) => decided_v5(
            c,
            supported_secs(config_idle_timeout_secs),
            peer_addr,
            decision,
        ),
        _ => decision is NotConnect,
    }
}

/// Decides on a 3.1.1 CONNECT.
fn evaluate_connect_v3(c: &Connect, ceiling_secs: u64) -> (decision: ConnectDecision)
    requires
        ceiling_secs <= MAX_TIMEOUT_SECS,
    ensures
        decided_v3(*c, ceiling_secs, decision),
{
    let anonymous = c.client_id.as_str().is_empty();
    if anonymous && !c.clean_session {
        return ConnectDecision::Refuse {
            connack: ServerPacket::V3(
                ServerPacketV3::ConnectAck(
                    ConnectAck {
                        return_code: ConnectAckReason::IdentifierRejected,
                        session_present: false,
                    },
                ),
            ),
            sendable: true,
        };
    }
    let client_id = if anonymous {
        None
    } else {
        Some(c.client_id.clone())
    };
    let ceiling_ms: u64 = ceiling_secs * 1000;
    let own_ms: u64 = c.keep_alive as u64 * KEEP_ALIVE_GRACE_MILLIS_PER_SEC;
    let idle_timeout_ms: u64 = if c.keep_alive == 0 || own_ms > ceiling_ms {
        ceiling_ms
    } else {
        own_ms
    };
    ConnectDecision::Accept {
        connack: ServerPacket::V3(
            ServerPacketV3::ConnectAck(
                ConnectAck {
                    return_code: ConnectAckReason::ConnectionAccepted,
                    session_present: false,
                },
            ),
        ),
        client_id,
        keep_alive_secs: c.keep_alive,
        idle_timeout_ms,
        max_packet_size: None,
    }
}

/// Decides on a 5.0 CONNECT.
fn evaluate_connect_v5(c: &ConnectV5, ceiling_secs: u64, peer_addr: &str) -> (decision:
    ConnectDecision)
    requires
        ceiling_secs <= MAX_TIMEOUT_SECS,
    ensures
        decided_v5(*c, ceiling_secs, peer_addr@, decision),
{
    if c.auth_method.is_some() {
        return refuse_v5(ConnectAckReasonV5::BadAuthenticationMethod, c.max_packet_size);
    }
    let keep_alive = negotiate_keep_alive(c.keep_alive, ceiling_secs);
    let mut connack = honest_v5_connack(ConnectAckReasonV5::Success);
    connack.server_keepalive_sec = keep_alive.announce;
    let client_id = if c.client_id.as_str().is_empty() {
        let mut id = "auto-".to_owned();
        id.append(peer_addr);
        connack.assigned_client_id = Some(id.clone());
        id
    } else {
        c.client_id.clone()
    };
    proof {
        lemma_connack_len(
            connack,
            ConnectAckReasonV5::Success,
            assigned_id(*c, peer_addr@),
            keep_alive.announce,
        );
    }
    let connack = ServerPacket::V5(ServerPacketV5::ConnectAck(connack));
    if !packet::fits_max_packet_size(&connack, ProtocolVersion::MQTT5, c.max_packet_size) {
        return refuse_v5(ConnectAckReasonV5::ImplementationSpecificError, c.max_packet_size);
    }
    ConnectDecision::Accept {
        connack,
        client_id: Some(client_id),
        keep_alive_secs: keep_alive.secs,
        idle_timeout_ms: keep_alive.idle_ms,
        max_packet_size: c.max_packet_size,
    }
}

/// Decides on the first packet of a connection.
pub fn evaluate_connect(first: &MqttPacket, config_idle_timeout_secs: u64, peer_addr: &str) -> (
decision: ConnectDecision)
    ensures
        decided(*first, config_idle_timeout_secs, peer_addr@, decision),
{
    let ceiling_secs: u64 = clamp_timeout_secs(config_idle_timeout_secs);
    match first {
        MqttPacket::V3(PacketV3::Connect(c)) => evaluate_connect_v3(c, ceiling_secs),
        MqttPacket::V5(PacketV5::Connect(c)) => evaluate_connect_v5(c, ceiling_secs, peer_addr),
        _ => ConnectDecision::NotConnect,
    }
}

} // verus!
