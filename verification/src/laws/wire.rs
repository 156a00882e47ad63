//! The bytes of every packet that the broker writes.

use crate::buffer;
use crate::codec::encoder;
use crate::codec::encoder::MqttEncoder;
use crate::codec::id::PacketId;
use crate::codec::parse;
use crate::codec::types::{
    ConnectAck, ConnectAckReason, ConnectAckReasonV5, ConnectAckV5, DisconnectReasonCode,
    EncodeError, PublishAckReason, QoS, ServerPacket, ServerPacketV3, ServerPacketV5,
    SubscribeAckReason, SubscribeReturnCode, UnsubscribeAckReason,
};
use crate::codec::version::ProtocolVersion;
use crate::codec::wire;
use crate::laws::codec;
use bytes::BytesMut;
use vstd::prelude::*;

verus! {

/// Whether `encode_packet` turns a packet into exactly these bytes.
pub open spec fn encodes(packet: ServerPacket, version: ProtocolVersion, bytes: Seq<u8>) -> bool {
    forall|r: Result<Vec<u8>, EncodeError>| #[trigger]
        call_ensures(encoder::encode_packet, (&packet, version), r) ==> (r matches Ok(written)
            && written@ == bytes)
}

/// Whether `encode_packet` fails on a packet with exactly this error.
pub open spec fn refuses(packet: ServerPacket, version: ProtocolVersion, e: EncodeError) -> bool {
    forall|r: Result<Vec<u8>, EncodeError>| #[trigger]
        call_ensures(encoder::encode_packet, (&packet, version), r) ==> (r matches Err(f) && f == e)
}

/// How many bytes a length field of the least size takes.
pub open spec fn field_size(length: nat) -> nat {
    if length < 128 {
        1
    } else if length < 16384 {
        2
    } else if length < 2097152 {
        3
    } else {
        4
    }
}

/// Whether `bytes` are one whole packet: its first byte, the length of the rest in as
/// few bytes as can say it, and the rest.
pub open spec fn is_packet(bytes: Seq<u8>, first: u8, rest: Seq<u8>) -> bool {
    &&& bytes.len() == 1 + field_size(rest.len()) + rest.len()
    &&& bytes[0] == first
    &&& parse::length_field(bytes) == Some((rest.len(), field_size(rest.len())))
    &&& bytes.skip((1 + field_size(rest.len())) as int) == rest
}

/// Whether `encode_packet` turns a packet into one that begins with `first` and holds
/// `rest`.
pub open spec fn encodes_as(
    packet: ServerPacket,
    version: ProtocolVersion,
    first: u8,
    rest: Seq<u8>,
) -> bool {
    exists|bytes: Seq<u8>| #[trigger]
        is_packet(bytes, first, rest) && encodes(packet, version, bytes)
}

/// A frame that a header can carry is one whole packet.
pub proof fn lemma_frame(first: u8, rest: Seq<u8>)
    requires
        rest.len() <= 268_435_455,
    ensures
        is_packet(wire::frame(first, rest), first, rest),
        rest.len() < 128 ==> wire::frame(first, rest) == seq![first, rest.len() as u8] + rest,
{
    reveal_with_fuel(wire::var_int, 4);
    wire::lemma_var_int_len(rest.len());
    codec::lemma_frame_is_whole(first, rest);
    let bytes = wire::frame(first, rest);
    assert(bytes.skip((1 + field_size(rest.len())) as int) == rest);
    if rest.len() < 128 {
        assert(bytes == seq![first, rest.len() as u8] + rest);
    }
}

/// A frame of less than 128 bytes has its length in one byte.
proof fn lemma_short(first: u8, rest: Seq<u8>, bytes: Seq<u8>)
    requires
        rest.len() < 128,
        bytes =~= seq![first, rest.len() as u8] + rest,
    ensures
        wire::frame(first, rest) == bytes,
{
    lemma_frame(first, rest);
}

/// A 3.1.1 CONNACK is four bytes: its type, the length two, no session, and zero to
/// accept or two to reject the identifier.
pub proof fn law_connack_v3_bytes(ack: ConnectAck)
    ensures
        encodes(
            ServerPacket::V3(ServerPacketV3::ConnectAck(ack)),
            ProtocolVersion::MQTT3,
            seq![
                0x20u8,
                2u8,
                if ack.session_present {
                    1u8
                } else {
                    0u8
                },
                if ack.return_code == ConnectAckReason::ConnectionAccepted {
                    0u8
                } else {
                    2u8
                },
            ],
        ),
{
    let rest = seq![wire::flag(ack.session_present), ack.return_code.code()];
    lemma_frame(0x20, rest);
    assert(wire::frame(0x20, rest) == seq![0x20u8, 2u8, rest[0], rest[1]]);
}

/// A 3.1.1 PUBACK is four bytes: its type, the length two, and the packet
/// identifier, most significant byte first.
pub proof fn law_puback_v3_bytes(packet_id: PacketId)
    ensures
        encodes(
            ServerPacket::V3(ServerPacketV3::PublishAck { packet_id }),
            ProtocolVersion::MQTT3,
            seq![0x40u8, 2u8, (packet_id@ / 256) as u8, (packet_id@ % 256) as u8],
        ),
{
    let rest = seq![(packet_id@ / 256) as u8, (packet_id@ % 256) as u8];
    lemma_short(0x40, rest, seq![0x40u8, 2u8, rest[0], rest[1]]);
}

/// A 5.0 PUBACK is six bytes: its type, the length four, the packet identifier, the
/// reason zero for success, and no properties.
pub proof fn law_puback_v5_bytes(packet_id: PacketId)
    ensures
        encodes(
            ServerPacket::V5(
                ServerPacketV5::PublishAck { packet_id, reason_code: PublishAckReason::Success },
            ),
            ProtocolVersion::MQTT5,
            seq![0x40u8, 4u8, (packet_id@ / 256) as u8, (packet_id@ % 256) as u8, 0u8, 0u8],
        ),
{
    let rest = wire::be16(packet_id@) + seq![PublishAckReason::Success.code(), 0u8];
    lemma_short(0x40, rest, seq![0x40u8, 4u8, rest[0], rest[1], 0u8, 0u8]);
}

/// A 3.1.1 UNSUBACK is four bytes: its type, the length two, and the packet
/// identifier.
pub proof fn law_unsuback_v3_bytes(packet_id: PacketId)
    ensures
        encodes(
            ServerPacket::V3(ServerPacketV3::UnsubscribeAck { packet_id }),
            ProtocolVersion::MQTT3,
            seq![0xB0u8, 2u8, (packet_id@ / 256) as u8, (packet_id@ % 256) as u8],
        ),
{
    let rest = seq![(packet_id@ / 256) as u8, (packet_id@ % 256) as u8];
    lemma_short(0xB0, rest, seq![0xB0u8, 2u8, rest[0], rest[1]]);
}

/// A PINGREQ and a PINGRESP are two bytes in either version: the type, and the length
/// zero.
pub proof fn law_ping_bytes()
    ensures
        encodes(
            ServerPacket::V3(ServerPacketV3::PingRequest),
            ProtocolVersion::MQTT3,
            seq![0xC0u8, 0u8],
        ),
        encodes(
            ServerPacket::V5(ServerPacketV5::PingRequest),
            ProtocolVersion::MQTT5,
            seq![0xC0u8, 0u8],
        ),
        encodes(
            ServerPacket::V3(ServerPacketV3::PingResponse),
            ProtocolVersion::MQTT3,
            seq![0xD0u8, 0u8],
        ),
        encodes(
            ServerPacket::V5(ServerPacketV5::PingResponse),
            ProtocolVersion::MQTT5,
            seq![0xD0u8, 0u8],
        ),
{
    lemma_short(0xC0, seq![], seq![0xC0u8, 0u8]);
    lemma_short(0xD0, seq![], seq![0xD0u8, 0u8]);
}

/// A DISCONNECT is four bytes: its type, the length two, the reason, and no
/// properties. The reasons have the codes that the protocol gives them.
pub proof fn law_disconnect_bytes(reason_code: DisconnectReasonCode)
    ensures
        encodes(
            ServerPacket::V5(ServerPacketV5::Disconnect { reason_code }),
            ProtocolVersion::MQTT5,
            seq![
                0xE0u8,
                2u8,
                match reason_code {
                    DisconnectReasonCode::MalformedPacket => 0x81u8,
                    DisconnectReasonCode::ProtocolError => 0x82u8,
                    DisconnectReasonCode::PacketTooLarge => 0x95u8,
                    DisconnectReasonCode::QosNotSupported => 0x9Bu8,
                },
                0u8,
            ],
        ),
{
    let rest = seq![reason_code.code(), 0u8];
    lemma_short(0xE0, rest, seq![0xE0u8, 2u8, rest[0], 0u8]);
}

/// A 3.1.1 SUBACK carries, behind the packet identifier, one failure code for each of
/// its entries and nothing else. One that no header can count is an error.
pub proof fn law_suback_v3_bytes(packet_id: PacketId, status: Vec<SubscribeReturnCode>)
    ensures
        ({
            let packet = ServerPacket::V3(ServerPacketV3::SubscribeAck { packet_id, status });
            let rest = seq![(packet_id@ / 256) as u8, (packet_id@ % 256) as u8] + Seq::new(
                status@.len(),
                |i: int| 0x80u8,
            );
            if status@.len() <= 268_435_453 {
                encodes_as(packet, ProtocolVersion::MQTT3, 0x90, rest)
            } else {
                refuses(
                    packet,
                    ProtocolVersion::MQTT3,
                    EncodeError::OverMaxPacketSize {
                        size: if status@.len() + 2 <= 0xFFFF_FFFF {
                            (status@.len() + 2) as u32
                        } else {
                            0xFFFF_FFFFu32
                        },
                        max: 268_435_455,
                    },
                )
            }
        }),
{
    let rest = seq![(packet_id@ / 256) as u8, (packet_id@ % 256) as u8] + Seq::new(
        status@.len(),
        |i: int| 0x80u8,
    );
    assert(wire::be16(packet_id@) + encoder::return_codes(status@) == rest);
    if status@.len() <= 268_435_453 {
        lemma_frame(0x90, rest);
    }
}

/// A 5.0 SUBACK carries, behind the packet identifier and no properties, one code for
/// each of its entries and nothing else. One that no header can count is an error.
pub proof fn law_suback_v5_bytes(packet_id: PacketId, status: Vec<SubscribeAckReason>)
    ensures
        ({
            let packet = ServerPacket::V5(ServerPacketV5::SubscribeAck { packet_id, status });
            let rest = seq![(packet_id@ / 256) as u8, (packet_id@ % 256) as u8, 0u8] + Seq::new(
                status@.len(),
                |i: int| 0x83u8,
            );
            if status@.len() <= 268_435_452 {
                encodes_as(packet, ProtocolVersion::MQTT5, 0x90, rest)
            } else {
                refuses(
                    packet,
                    ProtocolVersion::MQTT5,
                    EncodeError::OverMaxPacketSize {
                        size: if status@.len() + 3 <= 0xFFFF_FFFF {
                            (status@.len() + 3) as u32
                        } else {
                            0xFFFF_FFFFu32
                        },
                        max: 268_435_455,
                    },
                )
            }
        }),
{
    let rest = seq![(packet_id@ / 256) as u8, (packet_id@ % 256) as u8, 0u8] + Seq::new(
        status@.len(),
        |i: int| 0x83u8,
    );
    assert(wire::be16(packet_id@) + seq![0u8] + encoder::subscribe_codes(status@) == rest);
    if status@.len() <= 268_435_452 {
        lemma_frame(0x90, rest);
    }
}

/// A 5.0 UNSUBACK carries, behind the packet identifier and no properties, one code
/// for each of its entries and nothing else. One that no header can count is an error.
pub proof fn law_unsuback_v5_bytes(packet_id: PacketId, status: Vec<UnsubscribeAckReason>)
    ensures
        ({
            let packet = ServerPacket::V5(ServerPacketV5::UnsubscribeAck { packet_id, status });
            let rest = seq![(packet_id@ / 256) as u8, (packet_id@ % 256) as u8, 0u8] + Seq::new(
                status@.len(),
                |i: int| 0x11u8,
            );
            if status@.len() <= 268_435_452 {
                encodes_as(packet, ProtocolVersion::MQTT5, 0xB0, rest)
            } else {
                refuses(
                    packet,
                    ProtocolVersion::MQTT5,
                    EncodeError::OverMaxPacketSize {
                        size: if status@.len() + 3 <= 0xFFFF_FFFF {
                            (status@.len() + 3) as u32
                        } else {
                            0xFFFF_FFFFu32
                        },
                        max: 268_435_455,
                    },
                )
            }
        }),
{
    let rest = seq![(packet_id@ / 256) as u8, (packet_id@ % 256) as u8, 0u8] + Seq::new(
        status@.len(),
        |i: int| 0x11u8,
    );
    assert(wire::be16(packet_id@) + seq![0u8] + encoder::unsubscribe_codes(status@) == rest);
    if status@.len() <= 268_435_452 {
        lemma_frame(0xB0, rest);
    }
}

/// Acknowledgements of different packets are different bytes: whoever reads a PUBACK
/// or an UNSUBACK, of either version, knows which packet it is about.
pub proof fn law_acknowledgements_tell_packets_apart(
    a: ServerPacket,
    b: ServerPacket,
    version: ProtocolVersion,
    m: PacketId,
    n: PacketId,
    a_bytes: Vec<u8>,
    b_bytes: Vec<u8>,
)
    requires
        call_ensures(encoder::encode_packet, (&a, version), Ok(a_bytes)),
        call_ensures(encoder::encode_packet, (&b, version), Ok(b_bytes)),
        a_bytes@ == b_bytes@,
        match version {
            ProtocolVersion::MQTT3 => {
                ||| {
                    &&& a == ServerPacket::V3(ServerPacketV3::PublishAck { packet_id: m })
                    &&& b == ServerPacket::V3(ServerPacketV3::PublishAck { packet_id: n })
                }
                ||| {
                    &&& a == ServerPacket::V3(ServerPacketV3::UnsubscribeAck { packet_id: m })
                    &&& b == ServerPacket::V3(ServerPacketV3::UnsubscribeAck { packet_id: n })
                }
            },
            ProtocolVersion::MQTT5 => {
                &&& a matches ServerPacket::V5(ServerPacketV5::PublishAck { packet_id, .. })
                    && packet_id == m
                &&& b matches ServerPacket::V5(ServerPacketV5::PublishAck { packet_id, .. })
                    && packet_id == n
            },
        },
    ensures
        m@ == n@,
{
    law_puback_v3_bytes(m);
    law_puback_v3_bytes(n);
    law_unsuback_v3_bytes(m);
    law_unsuback_v3_bytes(n);
    law_puback_v5_bytes(m);
    law_puback_v5_bytes(n);
    assert(a_bytes@[2] == (m@ / 256) as u8 && a_bytes@[3] == (m@ % 256) as u8);
    assert(b_bytes@[2] == (n@ / 256) as u8 && b_bytes@[3] == (n@ % 256) as u8);
}

/// A session expiry in a CONNACK: its mark, and the seconds, most significant byte
/// first.
pub open spec fn said_expiry(secs: Option<u32>) -> Seq<u8> {
    match secs {
        Some(secs) => seq![
            0x11u8,
            (secs / 16777216) as u8,
            (secs / 65536 % 256) as u8,
            (secs / 256 % 256) as u8,
            (secs % 256) as u8,
        ],
        None => seq![],
    }
}

/// An assigned identifier in a CONNACK: its mark, its length, and its text.
pub open spec fn said_identifier(id: Option<String>) -> Seq<u8> {
    match id {
        Some(id) => {
            let text = vstd::utf8::encode_utf8(id@);
            seq![0x12u8, (text.len() / 256) as u8, (text.len() % 256) as u8] + text
        },
        None => seq![],
    }
}

/// A keep-alive in a CONNACK: its mark, and the seconds, most significant byte first.
pub open spec fn said_keep_alive(secs: Option<u16>) -> Seq<u8> {
    match secs {
        Some(secs) => seq![0x13u8, (secs / 256) as u8, (secs % 256) as u8],
        None => seq![],
    }
}

/// The highest quality of service in a CONNACK, where it is not the highest there is.
pub open spec fn said_qos(qos: QoS) -> Seq<u8> {
    match qos {
        QoS::AtMostOnce => seq![0x24u8, 0u8],
        QoS::AtLeastOnce => seq![0x24u8, 1u8],
        QoS::ExactlyOnce => seq![],
    }
}

/// What the broker cannot do, in a CONNACK. What it can do is not said.
pub open spec fn said_missing(mark: u8, available: bool) -> Seq<u8> {
    if available {
        seq![]
    } else {
        seq![mark, 0u8]
    }
}

/// What a 5.0 CONNACK says besides its reason, in the order in which it is said: the
/// session expiry, the highest quality of service, no retained messages, the assigned
/// identifier, no wildcards, no subscription identifiers, no shared subscriptions, the
/// keep-alive.
pub open spec fn connack_properties(ack: ConnectAckV5) -> Seq<u8> {
    said_expiry(ack.session_expiry_interval_secs) + said_qos(ack.max_qos) + said_missing(
        0x25,
        ack.retain_available,
    ) + said_identifier(ack.assigned_client_id) + said_missing(
        0x28,
        ack.wildcard_subscription_available,
    ) + said_missing(0x29, ack.subscription_identifiers_available) + said_missing(
        0x2A,
        ack.shared_subscription_available,
    ) + said_keep_alive(ack.server_keepalive_sec)
}

/// Whether `bytes` are a 5.0 CONNACK: its type, the length of the rest, whether there is
/// a session, the reason, and the properties behind their length.
pub open spec fn is_connack(bytes: Seq<u8>, ack: ConnectAckV5) -> bool {
    let properties = connack_properties(ack);
    let length = 2 + field_size(properties.len()) + properties.len();
    let rest = bytes.skip((1 + field_size(length)) as int);
    &&& is_packet(bytes, 0x20, rest)
    &&& rest.len() == length
    &&& rest[0] == if ack.session_present {
        1u8
    } else {
        0u8
    }
    &&& is_packet(
        rest.skip(1),
        match ack.reason_code {
            ConnectAckReasonV5::Success => 0u8,
            ConnectAckReasonV5::ImplementationSpecificError => 0x83u8,
            ConnectAckReasonV5::ClientIdentifierNotValid => 0x85u8,
            ConnectAckReasonV5::BadAuthenticationMethod => 0x8Cu8,
        },
        properties,
    )
}

/// A 5.0 CONNACK is written with its reason and all that it says. Only an identifier that two bytes
/// cannot count keeps it from being written.
pub proof fn law_connack_v5_bytes(ack: ConnectAckV5)
    ensures
        ({
            let packet = ServerPacket::V5(ServerPacketV5::ConnectAck(ack));
            if ack.assigned_client_id matches Some(id) && vstd::utf8::encode_utf8(id@).len()
                > 65535 {
                refuses(packet, ProtocolVersion::MQTT5, EncodeError::InvalidLength)
            } else {
                exists|bytes: Seq<u8>| #[trigger]
                    is_connack(bytes, ack) && encodes(packet, ProtocolVersion::MQTT5, bytes)
            }
        }),
{
    let fields = encoder::connack_fields(ack);
    if fields.encodable() {
        lemma_connack_properties(ack);
        wire::lemma_connack_body_len(fields);
        let properties = connack_properties(ack);
        let reason = wire::frame(ack.reason_code.code(), properties);
        let rest = seq![wire::flag(ack.session_present)] + reason;
        assert(fields.body() == rest);
        lemma_frame(ack.reason_code.code(), properties);
        lemma_frame(0x20, rest);
        let bytes = wire::frame(0x20, rest);
        assert(rest.skip(1) == reason);
        assert(is_connack(bytes, ack));
    }
}

/// A session expiry is written as it is said.
proof fn lemma_expiry(secs: Option<u32>)
    ensures
        wire::expiry_property(secs) == said_expiry(secs),
{
    if let Some(n) = secs {
        let high = (n / 65536) as u16;
        let low = (n % 65536) as u16;
        assert(high / 256 == n / 16777216 && high % 256 == n / 65536 % 256);
        assert(low / 256 == n / 256 % 256 && low % 256 == n % 256);
        assert(seq![0x11u8] + (wire::be16(high) + wire::be16(low)) =~= said_expiry(secs));
    }
}

/// An identifier that two bytes can count is written as it is said.
proof fn lemma_identifier(id: Option<String>)
    requires
        id matches Some(id) ==> vstd::utf8::encode_utf8(id@).len() <= 65535,
    ensures
        wire::client_id_property(id) == said_identifier(id),
{
    if let Some(id) = id {
        let text = vstd::utf8::encode_utf8(id@);
        let n = text.len() as u16;
        assert(seq![0x12u8] + wire::be16(n) =~= seq![0x12u8, (n / 256) as u8, (n % 256) as u8]);
    }
}

/// A keep-alive is written as it is said.
proof fn lemma_keep_alive(secs: Option<u16>)
    ensures
        wire::keepalive_property(secs) == said_keep_alive(secs),
{
    if let Some(n) = secs {
        assert(seq![0x13u8] + wire::be16(n) =~= said_keep_alive(secs));
    }
}

/// The property list of a CONNACK that can be written.
pub proof fn lemma_connack_properties(ack: ConnectAckV5)
    requires
        encoder::connack_fields(ack).encodable(),
    ensures
        encoder::connack_fields(ack).properties() == connack_properties(ack),
{
    lemma_expiry(ack.session_expiry_interval_secs);
    lemma_identifier(ack.assigned_client_id);
    lemma_keep_alive(ack.server_keepalive_sec);
    assert(wire::max_qos_property(ack.max_qos.level()) == said_qos(ack.max_qos));
}

/// A packet of one version has no bytes in the other.
pub proof fn law_versions_do_not_mix(v3: ServerPacketV3, v5: ServerPacketV5)
    ensures
        refuses(ServerPacket::V3(v3), ProtocolVersion::MQTT5, EncodeError::MalformedPacket),
        refuses(ServerPacket::V5(v5), ProtocolVersion::MQTT3, EncodeError::MalformedPacket),
{
}

/// An encoder puts the bytes of the packet in its own version behind all that was
/// there, where an allocation can hold them, and changes nothing where it fails.
pub proof fn law_encoder_appends(
    encoder: MqttEncoder,
    item: ServerPacket,
    dst: &mut BytesMut,
    r: Result<(), EncodeError>,
    bytes: Vec<u8>,
)
    requires
        call_ensures(MqttEncoder::encode, (&encoder, &item, dst), r),
        call_ensures(encoder::encode_packet, (&item, encoder.version), Ok(bytes)),
    ensures
        r is Ok <==> bytes@.len() == 0 || buffer::held(*old(dst)).len() + bytes@.len()
            <= isize::MAX,
        r matches Err(e) ==> (e matches EncodeError::OverMaxPacketSize { size, max } && size
            == bytes@.len() && max == if buffer::held(*old(dst)).len() <= isize::MAX {
            isize::MAX - buffer::held(*old(dst)).len()
        } else {
            0
        }),
        buffer::held(*final(dst)) == if r is Ok {
            buffer::held(*old(dst)) + bytes@
        } else {
            buffer::held(*old(dst))
        },
{
    encoder::lemma_wire_form_len(item, encoder.version);
}

/// An encoder fails on a packet without bytes as `encode_packet` does, and changes
/// nothing.
pub proof fn law_encoder_fails_alike(
    encoder: MqttEncoder,
    item: ServerPacket,
    dst: &mut BytesMut,
    r: Result<(), EncodeError>,
    e: EncodeError,
)
    requires
        call_ensures(MqttEncoder::encode, (&encoder, &item, dst), r),
        call_ensures(encoder::encode_packet, (&item, encoder.version), Err(e)),
    ensures
        r == Err::<(), EncodeError>(e),
        buffer::held(*final(dst)) == buffer::held(*old(dst)),
{
}

/// An encoder speaks the version that it was made for.
pub proof fn law_encoders_have_their_version(
    version: ProtocolVersion,
    encoder: MqttEncoder,
    v3: MqttEncoder,
    v5: MqttEncoder,
)
    requires
        call_ensures(MqttEncoder::new, (version,), encoder),
        call_ensures(MqttEncoder::v3, (), v3),
        call_ensures(MqttEncoder::v5, (), v5),
    ensures
        encoder.version == version,
        v3.version == ProtocolVersion::MQTT3,
        v5.version == ProtocolVersion::MQTT5,
{
}

} // verus!
