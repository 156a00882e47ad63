//! The way into a session: what a first packet leads to, by its own fields, down to the
//! bytes of the CONNACK and the deadlines that follow.

use crate::broker::handler;
use crate::broker::handler::{
    IoEvent, Next, Note, Phase, ReadEvent, Refusal, SendEvent, Session, SessionOutcome, Step,
};
use crate::broker::handshake;
use crate::broker::handshake::{ConnectDecision, KeepAlive};
use crate::codec::encoder;
use crate::codec::id::PacketLimit;
use crate::codec::parse::Fault;
use crate::codec::types::{
    Connect, ConnectAck, ConnectAckReason, ConnectAckReasonV5, ConnectAckV5, ConnectV5, MqttPacket,
    PacketV3, PacketV5, QoS, ServerPacket, ServerPacketV5,
};
use crate::codec::version::ProtocolVersion;
use crate::error::{Error, IoError, IoErrorKind};
use crate::laws::served;
use crate::laws::wire;
use vstd::prelude::*;

verus! {

/// A configured timeout of so many seconds, as far as it counts: a year at most.
pub open spec fn at_most_a_year(secs: u64) -> int {
    if secs < 31_536_000 {
        secs as int
    } else {
        31_536_000
    }
}

/// A configured timeout counts in full up to a year, and no further.
pub proof fn law_timeouts_count_up_to_a_year(configured: u64, r: u64)
    requires
        call_ensures(handshake::clamp_timeout_secs, (configured,), r),
    ensures
        r <= configured,
        r <= 31_536_000,
        r == configured || r == 31_536_000,
{
}

/// Whether `ms` is the time that a 3.1.1 client with the given keep-alive may stay
/// silent: the smaller one of the ceiling and one and a half times the keep-alive, and
/// the ceiling where there is no keep-alive.
pub open spec fn allowed_v3(keep_alive: u16, ceiling_secs: int, ms: int) -> bool {
    if keep_alive == 0 {
        ms == 1000 * ceiling_secs
    } else {
        &&& ms <= 1500 * keep_alive
        &&& ms <= 1000 * ceiling_secs
        &&& ms == 1500 * keep_alive || ms == 1000 * ceiling_secs
    }
}

/// Whether a 3.1.1 CONNECT is decided on rightly. Only an empty identifier without a
/// clean session is refused.
pub open spec fn judged_v3(c: Connect, ceiling_secs: int, decision: ConnectDecision) -> bool {
    if c.client_id@.len() == 0 && !c.clean_session {
        &&& decision matches ConnectDecision::Refuse { connack, sendable }
        &&& wire::encodes(connack, ProtocolVersion::MQTT3, seq![0x20u8, 2u8, 0u8, 2u8])
        &&& sendable
    } else {
        &&& decision matches ConnectDecision::Accept {
            connack,
            client_id,
            keep_alive_secs,
            idle_timeout_ms,
            max_packet_size,
        }
        &&& wire::encodes(connack, ProtocolVersion::MQTT3, seq![0x20u8, 2u8, 0u8, 0u8])
        &&& match client_id {
            Some(id) => id@ == c.client_id@ && id@.len() > 0,
            None => c.client_id@.len() == 0,
        }
        &&& keep_alive_secs == c.keep_alive
        &&& allowed_v3(c.keep_alive, ceiling_secs, idle_timeout_ms as int)
        &&& max_packet_size is None
    }
}

/// Whether a 5.0 client with the given keep-alive is given the right one. It keeps its
/// own where one and a half times that is within the ceiling. Else it is told the
/// longest that is, and at least a second. Either way it may stay silent for one and a
/// half times the keep-alive in force, and for the ceiling where there is none.
pub open spec fn allowed_v5(
    keep_alive: u16,
    ceiling_secs: int,
    secs: u16,
    ms: int,
    announce: Option<u16>,
) -> bool {
    if keep_alive == 0 {
        &&& announce is None
        &&& secs == 0
        &&& ms == 1000 * ceiling_secs
    } else if 1500 * keep_alive <= 1000 * ceiling_secs {
        &&& announce is None
        &&& secs == keep_alive
        &&& ms == 1500 * keep_alive
    } else {
        &&& announce == Some(secs)
        &&& secs >= 1
        &&& secs == 1 || 1500 * secs <= 1000 * ceiling_secs
        &&& secs == 65535 || 1500 * (secs + 1) > 1000 * ceiling_secs
        &&& ms == 1500 * secs
    }
}

/// A 5.0 keep-alive is negotiated so that the session's silence stays within the
/// ceiling, and no shorter than it has to be.
pub proof fn law_keep_alive_is_the_longest_allowed(
    keep_alive: u16,
    ceiling_secs: u64,
    r: KeepAlive,
)
    requires
        ceiling_secs <= 31_536_000,
        call_ensures(handshake::negotiate_keep_alive, (keep_alive, ceiling_secs), r),
    ensures
        allowed_v5(keep_alive, ceiling_secs as int, r.secs, r.idle_ms as int, r.announce),
{
}

/// Whether a 5.0 CONNACK is honest about the broker: no session, no session expiry, no
/// quality of service above the middle one, and nothing else missing.
pub open spec fn is_honest(ack: ConnectAckV5, reason: ConnectAckReasonV5) -> bool {
    &&& !ack.session_present
    &&& ack.reason_code == reason
    &&& ack.session_expiry_interval_secs == Some(0u32)
    &&& ack.max_qos == QoS::AtLeastOnce
    &&& ack.retain_available
    &&& ack.wildcard_subscription_available
    &&& ack.subscription_identifiers_available
    &&& ack.shared_subscription_available
}

/// The bytes of a 5.0 refusal with the given reason code.
pub open spec fn refusal_bytes(code: u8) -> Seq<u8> {
    seq![0x20u8, 10u8, 0u8, code, 7u8, 0x11u8, 0u8, 0u8, 0u8, 0u8, 0x24u8, 1u8]
}

/// Whether a 5.0 CONNECT is refused with the given code. The refusal is written only to
/// a client that can receive its twelve bytes.
pub open spec fn is_refused(
    code: u8,
    limit: Option<PacketLimit>,
    decision: ConnectDecision,
) -> bool {
    &&& decision matches ConnectDecision::Refuse { connack, sendable }
    &&& wire::encodes(connack, ProtocolVersion::MQTT5, refusal_bytes(code))
    &&& sendable == served::receives(limit, 12)
}

/// How many bytes the CONNACK takes that accepts a 5.0 client: with an assigned
/// identifier of so many bytes, and with or without an announced keep-alive.
pub open spec fn connack_size(assigned: Option<nat>, announced: bool) -> nat {
    let properties = 7 + (match assigned {
        Some(n) => 3 + n,
        None => 0nat,
    }) + (if announced {
        3nat
    } else {
        0
    });
    let rest = 2 + wire::field_size(properties) + properties;
    1 + wire::field_size(rest) + rest
}

/// Whether a 5.0 CONNECT is decided on rightly. An authentication method is refused
/// before all else. Then a client is refused whose limit its CONNACK exceeds. All others
/// are accepted, with an identifier made from their address where they have none.
pub open spec fn judged_v5(
    c: ConnectV5,
    ceiling_secs: int,
    peer_addr: Seq<char>,
    decision: ConnectDecision,
) -> bool {
    let anonymous = c.client_id@.len() == 0;
    let given = "auto-"@ + peer_addr;
    let given_len = vstd::utf8::encode_utf8(given).len();
    let announced = c.keep_alive != 0 && 1500 * c.keep_alive > 1000 * ceiling_secs;
    let size = connack_size(
        if anonymous {
            Some(given_len)
        } else {
            None
        },
        announced,
    );
    if c.auth_method is Some {
        is_refused(0x8C, c.max_packet_size, decision)
    } else if c.max_packet_size is Some && (anonymous && given_len > 65535 || !served::receives(
        c.max_packet_size,
        size as int,
    )) {
        is_refused(0x83, c.max_packet_size, decision)
    } else {
        &&& decision matches ConnectDecision::Accept {
            connack: ServerPacket::V5(ServerPacketV5::ConnectAck(ack)),
            client_id: Some(id),
            keep_alive_secs,
            idle_timeout_ms,
            max_packet_size,
        }
        &&& is_honest(ack, ConnectAckReasonV5::Success)
        &&& if anonymous {
            id@ == given && (ack.assigned_client_id matches Some(told) && told@ == given)
        } else {
            id@ == c.client_id@ && ack.assigned_client_id is None
        }
        &&& allowed_v5(
            c.keep_alive,
            ceiling_secs,
            keep_alive_secs,
            idle_timeout_ms as int,
            ack.server_keepalive_sec,
        )
        &&& max_packet_size == c.max_packet_size
        &&& !anonymous || given_len <= 65535 ==> exists|bytes: Seq<u8>| #[trigger]
            wire::is_connack(bytes, ack) && bytes.len() == size && wire::encodes(
                ServerPacket::V5(ServerPacketV5::ConnectAck(ack)),
                ProtocolVersion::MQTT5,
                bytes,
            )
    }
}

/// Whether a first packet is decided on rightly, under a configured idle timeout.
pub open spec fn judged(
    first: MqttPacket,
    idle_timeout_secs: u64,
    peer_addr: Seq<char>,
    decision: ConnectDecision,
) -> bool {
    match first {
        MqttPacket::V3(PacketV3::Connect(c)) => judged_v3(
            c,
            at_most_a_year(idle_timeout_secs),
            decision,
        ),
        MqttPacket::V5(PacketV5::Connect(c)) => judged_v5(
            c,
            at_most_a_year(idle_timeout_secs),
            peer_addr,
            decision,
        ),
        _ => decision is NotConnect,
    }
}

/// The bytes of an honest 5.0 refusal.
proof fn lemma_refusal(ack: ConnectAckV5, reason: ConnectAckReasonV5)
    requires
        handshake::honest(ack, reason, None, None),
    ensures
        wire::encodes(
            ServerPacket::V5(ServerPacketV5::ConnectAck(ack)),
            ProtocolVersion::MQTT5,
            refusal_bytes(reason.code()),
        ),
{
    let fields = encoder::connack_fields(ack);
    wire::lemma_connack_properties(ack);
    let properties = seq![0x11u8, 0u8, 0u8, 0u8, 0u8, 0x24u8, 1u8];
    assert(wire::connack_properties(ack) =~= properties);
    wire::lemma_frame(reason.code(), properties);
    let rest = seq![0u8, reason.code(), 7u8] + properties;
    assert(fields.body() =~= rest);
    wire::lemma_frame(0x20, rest);
    assert(seq![0x20u8, 10u8] + rest =~= refusal_bytes(reason.code()));
}

/// A refusal is written only where it can be received.
proof fn lemma_refused(
    reason: ConnectAckReasonV5,
    limit: Option<PacketLimit>,
    decision: ConnectDecision,
)
    requires
        handshake::refused_v5(reason, limit, decision),
    ensures
        is_refused(reason.code(), limit, decision),
{
    if let ConnectDecision::Refuse {
        connack: ServerPacket::V5(ServerPacketV5::ConnectAck(ack)),
        ..
    } = decision {
        lemma_refusal(ack, reason);
    }
}

/// The size that a CONNACK is held to is the size of its bytes.
proof fn lemma_connack_size(
    ack: ConnectAckV5,
    assigned: Option<Seq<char>>,
    announce: Option<u16>,
)
    requires
        handshake::honest(ack, ConnectAckReasonV5::Success, assigned, announce),
        assigned matches Some(id) ==> vstd::utf8::encode_utf8(id).len() <= 65535,
    ensures
        ({
            let size = connack_size(
                match assigned {
                    Some(id) => Some(vstd::utf8::encode_utf8(id).len()),
                    None => None,
                },
                announce is Some,
            );
            &&& handshake::connack_len(assigned, announce) == Some(size)
            &&& exists|bytes: Seq<u8>| #[trigger]
                wire::is_connack(bytes, ack) && bytes.len() == size && wire::encodes(
                    ServerPacket::V5(ServerPacketV5::ConnectAck(ack)),
                    ProtocolVersion::MQTT5,
                    bytes,
                )
        }),
{
    let properties = handshake::honest_properties_len(assigned, announce);
    crate::codec::wire::lemma_var_int_len(properties);
    crate::codec::wire::lemma_var_int_len(2 + wire::field_size(properties) + properties);
    wire::law_connack_v5_bytes(ack);
    wire::lemma_connack_properties(ack);
    crate::codec::wire::lemma_properties_len(encoder::connack_fields(ack));
    assert(wire::connack_properties(ack).len() == properties);
}

/// What is decided is decided rightly.
proof fn lemma_judged(
    first: MqttPacket,
    idle_timeout_secs: u64,
    peer_addr: Seq<char>,
    decision: ConnectDecision,
)
    requires
        handshake::decided(first, idle_timeout_secs, peer_addr, decision),
    ensures
        judged(first, idle_timeout_secs, peer_addr, decision),
{
    let ceiling = handshake::supported_secs(idle_timeout_secs);
    match first {
        MqttPacket::V3(PacketV3::Connect(c)) => {
            wire::law_connack_v3_bytes(
                ConnectAck {
                    return_code: ConnectAckReason::IdentifierRejected,
                    session_present: false,
                },
            );
            wire::law_connack_v3_bytes(
                ConnectAck {
                    return_code: ConnectAckReason::ConnectionAccepted,
                    session_present: false,
                },
            );
        },
        MqttPacket::V5(PacketV5::Connect(c)) => {
            let assigned = handshake::assigned_id(c, peer_addr);
            let announce = handshake::keep_alive_v5(c.keep_alive, ceiling).announce;
            let small = assigned matches Some(id) ==> vstd::utf8::encode_utf8(id).len() <= 65535;
            if c.auth_method is Some {
                lemma_refused(
                    ConnectAckReasonV5::BadAuthenticationMethod,
                    c.max_packet_size,
                    decision,
                );
            } else {
                lemma_connack_len_is(assigned, announce);
                match decision {
                    ConnectDecision::Accept {
                        connack: ServerPacket::V5(ServerPacketV5::ConnectAck(ack)),
                        ..
                    } => {
                        if small {
                            lemma_connack_size(ack, assigned, announce);
                        }
                    },
                    _ => {
                        lemma_refused(
                            ConnectAckReasonV5::ImplementationSpecificError,
                            c.max_packet_size,
                            decision,
                        );
                    },
                }
            }
        },
        _ => {},
    }
}

/// The size that a CONNACK is held to.
proof fn lemma_connack_len_is(assigned: Option<Seq<char>>, announce: Option<u16>)
    ensures
        handshake::connack_len(assigned, announce) == if assigned matches Some(id)
            && vstd::utf8::encode_utf8(id).len() > 65535 {
            None
        } else {
            Some(
                connack_size(
                    match assigned {
                        Some(id) => Some(vstd::utf8::encode_utf8(id).len()),
                        None => None,
                    },
                    announce is Some,
                ),
            )
        },
{
    let properties = handshake::honest_properties_len(assigned, announce);
    if properties <= 70000 {
        crate::codec::wire::lemma_var_int_len(properties);
        crate::codec::wire::lemma_var_int_len(2 + wire::field_size(properties) + properties);
    }
}

/// A first packet is decided on by its own fields and the configured idle timeout: a
/// CONNECT is accepted or refused, and no other packet opens a session. The silence that
/// an accepted client is allowed is one and a half times its keep-alive, or the ceiling
/// where that is shorter.
pub proof fn law_connects_are_judged_rightly(
    first: MqttPacket,
    idle_timeout_secs: u64,
    peer_addr: &str,
    decision: ConnectDecision,
)
    requires
        call_ensures(handshake::evaluate_connect, (&first, idle_timeout_secs, peer_addr), decision),
    ensures
        judged(first, idle_timeout_secs, peer_addr@, decision),
{
    lemma_judged(first, idle_timeout_secs, peer_addr@, decision);
}

/// A 3.1.1 client that was accepted with a keep-alive may stay silent for exactly one and
/// a half times that keep-alive, wherever the ceiling admits it, and for the ceiling
/// where it does not.
pub proof fn law_keep_alive_has_its_grace(
    c: Connect,
    idle_timeout_secs: u64,
    peer_addr: &str,
    decision: ConnectDecision,
)
    requires
        c.keep_alive > 0,
        c.client_id@.len() > 0 || c.clean_session,
        call_ensures(
            handshake::evaluate_connect,
            (&MqttPacket::V3(PacketV3::Connect(c)), idle_timeout_secs, peer_addr),
            decision,
        ),
    ensures
        decision matches ConnectDecision::Accept { idle_timeout_ms, .. } && {
            let ceiling_ms = 1000 * at_most_a_year(idle_timeout_secs);
            &&& 1500 * c.keep_alive <= ceiling_ms ==> idle_timeout_ms == 1500 * c.keep_alive
            &&& 1500 * c.keep_alive > ceiling_ms ==> idle_timeout_ms == ceiling_ms
        },
{
    lemma_judged(
        MqttPacket::V3(PacketV3::Connect(c)),
        idle_timeout_secs,
        peer_addr@,
        decision,
    );
}

/// A 3.1.1 CONNECT is refused exactly where it has no identifier and wants a session that
/// outlasts the connection. The refusal is a CONNACK with the code two, the acceptance one
/// with the code zero. The client keeps its identifier and its keep-alive.
pub proof fn law_v3_clients_are_refused_for_their_identifier_alone(
    c: Connect,
    idle_timeout_secs: u64,
    peer_addr: &str,
    decision: ConnectDecision,
)
    requires
        call_ensures(
            handshake::evaluate_connect,
            (&MqttPacket::V3(PacketV3::Connect(c)), idle_timeout_secs, peer_addr),
            decision,
        ),
    ensures
        decision is Refuse <==> c.client_id@.len() == 0 && !c.clean_session,
        decision is Accept <==> c.client_id@.len() > 0 || c.clean_session,
        decision matches ConnectDecision::Refuse { connack, sendable } ==> {
            &&& sendable
            &&& wire::encodes(connack, ProtocolVersion::MQTT3, seq![0x20u8, 2u8, 0u8, 2u8])
        },
        decision matches ConnectDecision::Accept { connack, client_id, keep_alive_secs, .. } ==> {
            &&& wire::encodes(connack, ProtocolVersion::MQTT3, seq![0x20u8, 2u8, 0u8, 0u8])
            &&& client_id is None <==> c.client_id@.len() == 0
            &&& client_id matches Some(id) ==> id@ == c.client_id@
            &&& keep_alive_secs == c.keep_alive
        },
        c.keep_alive == 0 ==> (decision matches ConnectDecision::Accept { idle_timeout_ms, .. }
            ==> idle_timeout_ms == 1000 * at_most_a_year(idle_timeout_secs)),
{
    lemma_judged(
        MqttPacket::V3(PacketV3::Connect(c)),
        idle_timeout_secs,
        peer_addr@,
        decision,
    );
}

/// A 5.0 CONNECT with an authentication method is refused, whatever else it says, and
/// told that the method is bad if it can receive twelve bytes.
pub proof fn law_v5_authentication_is_refused(
    c: ConnectV5,
    idle_timeout_secs: u64,
    peer_addr: &str,
    decision: ConnectDecision,
)
    requires
        c.auth_method is Some,
        call_ensures(
            handshake::evaluate_connect,
            (&MqttPacket::V5(PacketV5::Connect(c)), idle_timeout_secs, peer_addr),
            decision,
        ),
    ensures
        decision matches ConnectDecision::Refuse { connack, sendable } && {
            &&& wire::encodes(
                connack,
                ProtocolVersion::MQTT5,
                seq![
                    0x20u8, 10u8, 0u8, 0x8Cu8, 7u8, 0x11u8, 0u8, 0u8, 0u8, 0u8, 0x24u8, 1u8,
                ],
            )
            &&& sendable <==> c.max_packet_size is None || c.max_packet_size->Some_0@ >= 12
        },
{
    lemma_judged(
        MqttPacket::V5(PacketV5::Connect(c)),
        idle_timeout_secs,
        peer_addr@,
        decision,
    );
}

/// A 5.0 client that names itself and asks for no authentication is accepted if it can
/// receive its CONNACK, and refused if it cannot. The CONNACK takes twelve bytes, and three
/// more where it announces a keep-alive, which it does only where the client's own, with
/// its grace, exceeds the ceiling.
pub proof fn law_v5_clients_are_told_their_keep_alive(
    c: ConnectV5,
    idle_timeout_secs: u64,
    peer_addr: &str,
    decision: ConnectDecision,
)
    requires
        c.auth_method is None,
        c.client_id@.len() > 0,
        call_ensures(
            handshake::evaluate_connect,
            (&MqttPacket::V5(PacketV5::Connect(c)), idle_timeout_secs, peer_addr),
            decision,
        ),
    ensures
        ({
            let ceiling_ms = 1000 * at_most_a_year(idle_timeout_secs);
            let long = 1500 * c.keep_alive > ceiling_ms;
            let size = if long {
                15int
            } else {
                12
            };
            if c.max_packet_size is Some && c.max_packet_size->Some_0@ < size {
                &&& decision matches ConnectDecision::Refuse { connack, sendable }
                &&& wire::encodes(
                    connack,
                    ProtocolVersion::MQTT5,
                    seq![
                        0x20u8, 10u8, 0u8, 0x83u8, 7u8, 0x11u8, 0u8, 0u8, 0u8, 0u8, 0x24u8, 1u8,
                    ],
                )
                &&& sendable <==> c.max_packet_size->Some_0@ >= 12
            } else {
                &&& decision matches ConnectDecision::Accept {
                    connack,
                    client_id: Some(id),
                    keep_alive_secs: secs,
                    idle_timeout_ms,
                    max_packet_size,
                }
                &&& id@ == c.client_id@
                &&& max_packet_size == c.max_packet_size
                &&& if long {
                    &&& wire::encodes(
                        connack,
                        ProtocolVersion::MQTT5,
                        seq![
                            0x20u8, 13u8, 0u8, 0u8, 10u8, 0x11u8, 0u8, 0u8, 0u8, 0u8, 0x24u8, 1u8,
                            0x13u8, (secs / 256) as u8, (secs % 256) as u8,
                        ],
                    )
                    &&& idle_timeout_ms == 1500 * secs
                    &&& secs == 1 || (secs > 1 && 1500 * secs <= ceiling_ms)
                    &&& secs == 65535 || 1500 * (secs + 1) > ceiling_ms
                } else {
                    &&& wire::encodes(
                        connack,
                        ProtocolVersion::MQTT5,
                        seq![
                            0x20u8, 10u8, 0u8, 0u8, 7u8, 0x11u8, 0u8, 0u8, 0u8, 0u8, 0x24u8, 1u8,
                        ],
                    )
                    &&& secs == c.keep_alive
                    &&& idle_timeout_ms == if secs == 0 {
                        ceiling_ms
                    } else {
                        1500 * secs
                    }
                }
            }
        }),
{
    lemma_judged(
        MqttPacket::V5(PacketV5::Connect(c)),
        idle_timeout_secs,
        peer_addr@,
        decision,
    );
    if let ConnectDecision::Accept {
        connack: ServerPacket::V5(ServerPacketV5::ConnectAck(ack)),
        ..
    } = decision {
        lemma_accepting_connack(ack, ack.server_keepalive_sec);
    }
}

/// The bytes of the CONNACK that accepts a client with an identifier.
proof fn lemma_accepting_connack(ack: ConnectAckV5, announce: Option<u16>)
    requires
        is_honest(ack, ConnectAckReasonV5::Success),
        ack.server_keepalive_sec == announce,
    ensures
        ack.assigned_client_id is None ==> wire::encodes(
            ServerPacket::V5(ServerPacketV5::ConnectAck(ack)),
            ProtocolVersion::MQTT5,
            match announce {
                None => seq![
                    0x20u8, 10u8, 0u8, 0u8, 7u8, 0x11u8, 0u8, 0u8, 0u8, 0u8, 0x24u8, 1u8,
                ],
                Some(secs) => seq![
                    0x20u8, 13u8, 0u8, 0u8, 10u8, 0x11u8, 0u8, 0u8, 0u8, 0u8, 0x24u8, 1u8, 0x13u8,
                    (secs / 256) as u8, (secs % 256) as u8,
                ],
            },
        ),
{
    if ack.assigned_client_id is None {
        let fields = encoder::connack_fields(ack);
        wire::lemma_connack_properties(ack);
        let common = seq![0x11u8, 0u8, 0u8, 0u8, 0u8, 0x24u8, 1u8];
        let properties = common + wire::said_keep_alive(announce);
        assert(wire::connack_properties(ack) =~= properties);
        wire::lemma_frame(0, properties);
        let rest = seq![0u8, 0u8, properties.len() as u8] + properties;
        assert(fields.body() =~= rest);
        wire::lemma_frame(0x20, rest);
        match announce {
            None => {
                assert(seq![0x20u8, 10u8] + rest =~= seq![
                    0x20u8, 10u8, 0u8, 0u8, 7u8, 0x11u8, 0u8, 0u8, 0u8, 0u8, 0x24u8, 1u8,
                ]);
            },
            Some(secs) => {
                assert(seq![0x20u8, 13u8] + rest =~= seq![
                    0x20u8, 13u8, 0u8, 0u8, 10u8, 0x11u8, 0u8, 0u8, 0u8, 0u8, 0x24u8, 1u8, 0x13u8,
                    (secs / 256) as u8, (secs % 256) as u8,
                ]);
            },
        }
    }
}

/// A 5.0 client without an identifier, and with no limit, is accepted under one that is
/// made from its address, and told so.
pub proof fn law_v5_anonymous_clients_are_named(
    c: ConnectV5,
    idle_timeout_secs: u64,
    peer_addr: &str,
    decision: ConnectDecision,
)
    requires
        c.auth_method is None,
        c.max_packet_size is None,
        c.client_id@.len() == 0,
        call_ensures(
            handshake::evaluate_connect,
            (&MqttPacket::V5(PacketV5::Connect(c)), idle_timeout_secs, peer_addr),
            decision,
        ),
    ensures
        decision matches ConnectDecision::Accept {
            connack: ServerPacket::V5(ServerPacketV5::ConnectAck(ack)),
            client_id: Some(id),
            keep_alive_secs,
            idle_timeout_ms,
            ..
        } && {
            &&& id@ == "auto-"@ + peer_addr@
            &&& ack.assigned_client_id matches Some(told)
            &&& told@ == id@
            &&& keep_alive_secs > 0 ==> idle_timeout_ms == 1500 * keep_alive_secs
            &&& ack.server_keepalive_sec == if keep_alive_secs == c.keep_alive && 1500
                * c.keep_alive <= 1000 * at_most_a_year(idle_timeout_secs) {
                None
            } else {
                Some(keep_alive_secs)
            }
        },
{
    lemma_judged(
        MqttPacket::V5(PacketV5::Connect(c)),
        idle_timeout_secs,
        peer_addr@,
        decision,
    );
}

/// A 5.0 refusal gives its reason in a CONNACK of twelve bytes, which is written only to a
/// client that can receive it.
pub proof fn law_v5_refusals_give_their_reason(
    reason: ConnectAckReasonV5,
    limit: Option<PacketLimit>,
    decision: ConnectDecision,
)
    requires
        call_ensures(handshake::refuse_v5, (reason, limit), decision),
    ensures
        decision matches ConnectDecision::Refuse { connack, sendable } && {
            &&& wire::encodes(
                connack,
                ProtocolVersion::MQTT5,
                seq![
                    0x20u8,
                    10u8,
                    0u8,
                    match reason {
                        ConnectAckReasonV5::Success => 0u8,
                        ConnectAckReasonV5::ImplementationSpecificError => 0x83u8,
                        ConnectAckReasonV5::ClientIdentifierNotValid => 0x85u8,
                        ConnectAckReasonV5::BadAuthenticationMethod => 0x8Cu8,
                    },
                    7u8,
                    0x11u8,
                    0u8,
                    0u8,
                    0u8,
                    0u8,
                    0x24u8,
                    1u8,
                ],
            )
            &&& sendable <==> limit is None || limit->Some_0@ >= 12
        },
{
    lemma_refused(reason, limit, decision);
}

/// A CONNACK is honest about the broker, whatever its reason, and assigns and announces
/// nothing by itself.
pub proof fn law_connacks_are_honest(reason: ConnectAckReasonV5, ack: ConnectAckV5)
    requires
        call_ensures(handshake::honest_v5_connack, (reason,), ack),
    ensures
        is_honest(ack, reason),
        ack.assigned_client_id is None,
        ack.server_keepalive_sec is None,
{
}

/// No packet but a CONNECT opens a session.
pub proof fn law_only_connects_open_a_session(
    first: MqttPacket,
    idle_timeout_secs: u64,
    peer_addr: &str,
    decision: ConnectDecision,
)
    requires
        call_ensures(handshake::evaluate_connect, (&first, idle_timeout_secs, peer_addr), decision),
    ensures
        decision is NotConnect <==> !((first matches MqttPacket::V3(PacketV3::Connect(_))) || (
        first matches MqttPacket::V5(PacketV5::Connect(_)))),
{
    lemma_judged(first, idle_timeout_secs, peer_addr@, decision);
}

/// What a CONNECT was refused for, as the log line says it.
pub open spec fn refused_for(first: MqttPacket) -> Refusal {
    match first {
        MqttPacket::V5(PacketV5::Connect(c)) => if c.auth_method is Some {
            Refusal::BadAuthenticationMethod
        } else {
            Refusal::ImplementationSpecificError
        },
        _ => Refusal::IdentifierRejected,
    }
}

/// Whether a decision on the first packet is carried out: the CONNACK is written, and
/// the session waits for its flush. A refusal that the client cannot receive is not
/// written, and what is no CONNECT gets no answer.
pub open spec fn carried_out(
    version: ProtocolVersion,
    first: MqttPacket,
    decision: ConnectDecision,
    after: Phase,
    step: Step,
) -> bool {
    let context = "handshake timeout during CONNACK flush";
    &&& step.deliver is None
    &&& match decision {
        ConnectDecision::NotConnect => {
            &&& after is Ended
            &&& step.note == Some(Note::FirstPacketNotConnect)
            &&& step.next matches Next::Finish(Err(Error::Protocol(text)))
            &&& text@ == "first packet was not CONNECT"@
        },
        ConnectDecision::Refuse { connack, sendable } => {
            &&& step.note == Some(Note::ConnectRefused(refused_for(first)))
            &&& if sendable {
                &&& after is Refusing
                &&& step.next == (Next::Send { packet: connack, timeout_context: context })
            } else {
                &&& after is Ended
                &&& step.next == Next::Finish(Ok(SessionOutcome::Refused))
            }
        },
        ConnectDecision::Accept {
            connack,
            client_id,
            keep_alive_secs,
            idle_timeout_ms,
            max_packet_size,
        } => {
            &&& after matches Phase::Accepting(terms, id, keep_alive, _)
            &&& terms.version == version
            &&& terms.idle_timeout_ms == idle_timeout_ms
            &&& terms.max_packet_size == max_packet_size
            &&& id == client_id
            &&& keep_alive == keep_alive_secs
            &&& step.note is None
            &&& step.next == (Next::Send { packet: connack, timeout_context: context })
        },
    }
}

/// A session takes its first packet for what it is: the decision on it is the right one
/// for the configured timeout and the client's address, and it is carried out.
pub proof fn law_first_packets_are_answered(
    session: &mut Session,
    version: ProtocolVersion,
    first: MqttPacket,
    step: Step,
)
    requires
        old(session).phase == Phase::Connecting(version),
        served::stepped(session, IoEvent::Packet(ReadEvent::Item(first)), step),
    ensures
        exists|decision: ConnectDecision| #[trigger]
            judged(first, old(session).idle_timeout_secs, old(session).peer_addr@, decision)
                && carried_out(version, first, decision, final(session).phase, step),
{
    let decision = choose|decision: ConnectDecision| #[trigger]
        handshake::decided(
            first,
            old(session).idle_timeout_secs,
            old(session).peer_addr@,
            decision,
        ) && handler::after_decision(version, decision, final(session).phase, step);
    lemma_judged(first, old(session).idle_timeout_secs, old(session).peer_addr@, decision);
    assert(carried_out(version, first, decision, final(session).phase, step));
}

/// A handshake that brings no packet ends. A rejected client identifier is answered with
/// the CONNACK that says so, and nothing else is answered.
pub proof fn law_handshakes_without_a_packet_end(
    session: &mut Session,
    version: ProtocolVersion,
    event: ReadEvent<MqttPacket>,
    step: Step,
)
    requires
        old(session).phase == Phase::Connecting(version),
        served::stepped(session, IoEvent::Packet(event), step),
        !(event is Item),
    ensures
        step.deliver is None,
        if event matches ReadEvent::Failed(IoError::Rejected(rejection)) && rejection.fault
            == Fault::InvalidClientId {
            &&& final(session).phase is Refusing
            &&& step.note == Some(Note::InvalidClientId)
            &&& served::writes(
                step.next,
                version,
                if version == ProtocolVersion::MQTT3 {
                    seq![0x20u8, 2u8, 0u8, 2u8]
                } else {
                    refusal_bytes(0x85)
                },
                "handshake timeout during CONNACK flush",
            )
        } else {
            &&& final(session).phase is Ended
            &&& match event {
                ReadEvent::Failed(e) => {
                    &&& step.next == Next::Finish(Err(Error::Io(e)))
                    &&& step.note == Some(
                        match e {
                            IoError::Rejected(_) => Note::MalformedConnect,
                            IoError::Transport {
                                kind: IoErrorKind::ConnectionReset | IoErrorKind::BrokenPipe,
                                ..
                            } => Note::HandshakeDisconnect,
                            _ => Note::HandshakeTransportError,
                        },
                    )
                },
                ReadEvent::Closed => {
                    &&& step.next == Next::Finish(Err(Error::ClientClosed))
                    &&& step.note is None
                },
                _ => {
                    &&& step.next == Next::Finish(Err(Error::Timeout))
                    &&& step.note == Some(Note::ConnectTimeout)
                },
            }
        },
{
    wire::law_connack_v3_bytes(
        ConnectAck { return_code: ConnectAckReason::IdentifierRejected, session_present: false },
    );
    if let Next::Send {
        packet: ServerPacket::V5(ServerPacketV5::ConnectAck(ack)),
        ..
    } = step.next {
        if version == ProtocolVersion::MQTT5 {
            lemma_refusal(ack, ConnectAckReasonV5::ClientIdentifierNotValid);
        }
    }
}

/// A version that was told is the version that the CONNECT is read with. Where none is
/// told the session ends, and nothing is written.
pub proof fn law_the_version_comes_first(
    session: &mut Session,
    event: ReadEvent<ProtocolVersion>,
    step: Step,
)
    requires
        old(session).phase is Detecting,
        served::stepped(session, IoEvent::Version(event), step),
    ensures
        step.deliver is None,
        match event {
            ReadEvent::Item(version) => {
                &&& final(session).phase == Phase::Connecting(version)
                &&& step.next == Next::ReadConnect(version)
                &&& step.note == Some(Note::DetectedVersion(version))
            },
            ReadEvent::Failed(e) => {
                &&& final(session).phase is Ended
                &&& step.next == Next::Finish(Err(Error::Io(e)))
                &&& step.note == Some(
                    match e {
                        IoError::Rejected(_) => Note::FirstPacketNotConnect,
                        IoError::Transport {
                            kind: IoErrorKind::ConnectionReset | IoErrorKind::BrokenPipe,
                            ..
                        } => Note::HandshakeDisconnect,
                        _ => Note::HandshakeTransportError,
                    },
                )
            },
            ReadEvent::Closed => {
                &&& final(session).phase is Ended
                &&& step.next == Next::Finish(Err(Error::ClientClosed))
                &&& step.note is None
            },
            ReadEvent::TimedOut => {
                &&& final(session).phase is Ended
                &&& step.next == Next::Finish(Err(Error::Timeout))
                &&& step.note == Some(Note::VersionTimeout)
            },
        },
{
}

/// The flush of a CONNACK opens the session on the terms that were agreed, or ends it
/// where the CONNACK refused. A CONNACK that could not be written ends it either way.
pub proof fn law_connacks_are_flushed(session: &mut Session, event: SendEvent, step: Step)
    requires
        old(session).phase is Accepting || old(session).phase is Refusing,
        served::stepped(session, IoEvent::Sent(event), step),
    ensures
        step.deliver is None,
        match event {
            SendEvent::Flushed => match old(session).phase {
                Phase::Accepting(terms, client_id, keep_alive, received_at) => {
                    &&& final(session).phase == Phase::Serving(terms)
                    &&& step.next is ReadPacket
                    &&& step.note is None
                    &&& final(session).state.client_id == client_id
                    &&& final(session).state.keep_alive == keep_alive
                    &&& final(session).state.last_packet_time == received_at
                },
                _ => {
                    &&& final(session).phase is Ended
                    &&& step.next == Next::Finish(Ok(SessionOutcome::Refused))
                    &&& step.note is None
                },
            },
            SendEvent::Failed(e) => {
                &&& final(session).phase is Ended
                &&& step.next == Next::Finish(Err(Error::Io(e)))
                &&& step.note is None
            },
            SendEvent::TimedOut => {
                &&& final(session).phase is Ended
                &&& step.next == Next::Finish(Err(Error::Timeout))
                &&& step.note == Some(Note::FlushTimeout("handshake timeout during CONNACK flush"))
            },
        },
{
}

} // verus!
