//! Server packets to bytes.

use crate::buffer;
use crate::codec::types::{
    ConnectAckV5, EncodeError, ServerPacket, ServerPacketV3, ServerPacketV5, SubscribeAckReason,
    SubscribeReturnCode, UnsubscribeAckReason,
};
use crate::codec::version::ProtocolVersion;
use crate::codec::wire;
use bytes::BytesMut;
use vstd::prelude::*;

verus! {

/// The fields of a 5.0 CONNACK as plain values.
pub open spec fn connack_fields(ack: ConnectAckV5) -> wire::ConnackFields {
    wire::ConnackFields {
        session_present: ack.session_present,
        reason_code: ack.reason_code.code(),
        session_expiry_interval_secs: ack.session_expiry_interval_secs,
        max_qos: ack.max_qos.level(),
        assigned_client_id: ack.assigned_client_id,
        retain_available: ack.retain_available,
        wildcard_subscription_available: ack.wildcard_subscription_available,
        subscription_identifiers_available: ack.subscription_identifiers_available,
        shared_subscription_available: ack.shared_subscription_available,
        server_keepalive_sec: ack.server_keepalive_sec,
    }
}

/// The error of a remaining length that no header carries. It counts as far as 32
/// bits go.
pub open spec fn over_max(length: nat) -> EncodeError {
    EncodeError::OverMaxPacketSize {
        size: if length <= u32::MAX {
            length as u32
        } else {
            u32::MAX
        },
        max: wire::MAX_REMAINING_LENGTH as u32,
    }
}

/// The error of a remaining length that no header carries: that of so many
/// codes, and a few bytes ahead of them.
fn too_long(ahead: usize, codes: usize) -> (r: EncodeError)
    requires
        ahead <= 3,
    ensures
        r == over_max((ahead + codes) as nat),
{
    let most: usize = 0xFFFF_FFFF;
    let size: u32 = if codes > most - ahead {
        0xFFFF_FFFF
    } else {
        (ahead + codes) as u32
    };
    EncodeError::OverMaxPacketSize { size, max: 268_435_455 }
}

/// The whole packet, or the error of a remaining length that no header carries.
pub open spec fn bounded_frame(first: u8, rest: Seq<u8>) -> Result<Seq<u8>, EncodeError> {
    if rest.len() <= wire::MAX_REMAINING_LENGTH {
        Ok(wire::frame(first, rest))
    } else {
        Err(over_max(rest.len()))
    }
}

/// The wire form of a 3.1.1 packet.
pub open spec fn wire_form_v3(packet: ServerPacketV3) -> Result<Seq<u8>, EncodeError> {
    match packet {
        ServerPacketV3::ConnectAck(ack) => bounded_frame(
            0x20,
            seq![wire::flag(ack.session_present), ack.return_code.code()],
        ),
        ServerPacketV3::PublishAck { packet_id } => bounded_frame(0x40, wire::be16(packet_id@)),
        ServerPacketV3::SubscribeAck { packet_id, status } => bounded_frame(
            0x90,
            wire::be16(packet_id@) + return_codes(status@),
        ),
        ServerPacketV3::UnsubscribeAck { packet_id } => bounded_frame(0xB0, wire::be16(packet_id@)),
        ServerPacketV3::PingRequest => bounded_frame(0xC0, seq![]),
        ServerPacketV3::PingResponse => bounded_frame(0xD0, seq![]),
    }
}

/// The wire form of a 5.0 packet.
pub open spec fn wire_form_v5(packet: ServerPacketV5) -> Result<Seq<u8>, EncodeError> {
    match packet {
        ServerPacketV5::ConnectAck(ack) => if connack_fields(ack).encodable() {
            bounded_frame(0x20, connack_fields(ack).body())
        } else {
            Err(EncodeError::InvalidLength)
        },
        ServerPacketV5::PublishAck { packet_id, reason_code } => bounded_frame(
            0x40,
            wire::be16(packet_id@) + seq![reason_code.code(), 0u8],
        ),
        ServerPacketV5::SubscribeAck { packet_id, status } => bounded_frame(
            0x90,
            wire::be16(packet_id@) + seq![0u8] + subscribe_codes(status@),
        ),
        ServerPacketV5::UnsubscribeAck { packet_id, status } => bounded_frame(
            0xB0,
            wire::be16(packet_id@) + seq![0u8] + unsubscribe_codes(status@),
        ),
        ServerPacketV5::PingRequest => bounded_frame(0xC0, seq![]),
        ServerPacketV5::PingResponse => bounded_frame(0xD0, seq![]),
        ServerPacketV5::Disconnect { reason_code } => bounded_frame(
            0xE0,
            seq![reason_code.code(), 0u8],
        ),
    }
}

/// The wire form of a packet under the codec of one protocol version. A packet
/// of the other version has none.
pub open spec fn wire_form(packet: ServerPacket, version: ProtocolVersion) -> Result<
    Seq<u8>,
    EncodeError,
> {
    match (packet, version) {
        (ServerPacket::V3(p), ProtocolVersion::MQTT3) => wire_form_v3(p),
        (ServerPacket::V5(p), ProtocolVersion::MQTT5) => wire_form_v5(p),
        _ => Err(EncodeError::MalformedPacket),
    }
}

/// The codes of a 3.1.1 SUBACK.
pub open spec fn return_codes(status: Seq<SubscribeReturnCode>) -> Seq<u8> {
    status.map_values(|code: SubscribeReturnCode| code.code())
}

/// The codes of a 5.0 SUBACK.
pub open spec fn subscribe_codes(status: Seq<SubscribeAckReason>) -> Seq<u8> {
    status.map_values(|code: SubscribeAckReason| code.code())
}

/// The codes of a 5.0 UNSUBACK.
pub open spec fn unsubscribe_codes(status: Seq<UnsubscribeAckReason>) -> Seq<u8> {
    status.map_values(|code: UnsubscribeAckReason| code.code())
}

/// The codes of a 5.0 SUBACK as bytes.
fn subscribe_code_bytes(status: &Vec<SubscribeAckReason>) -> (r: Vec<u8>)
    ensures
        r@ == subscribe_codes(status@),
{
    let mut r: Vec<u8> = Vec::new();
    let mut i: usize = 0;
    while i < status.len()
        invariant
            i <= status@.len(),
            r@ == subscribe_codes(status@.take(i as int)),
        decreases status@.len() - i,
    {
        r.push(status[i].value());
        proof {
            assert(status@.take(i + 1) == status@.take(i as int).push(status@[i as int]));
        }
        i = i + 1;
    }
    proof {
        assert(status@.take(i as int) == status@);
    }
    r
}

/// The codes of a 5.0 UNSUBACK as bytes.
fn unsubscribe_code_bytes(status: &Vec<UnsubscribeAckReason>) -> (r: Vec<u8>)
    ensures
        r@ == unsubscribe_codes(status@),
{
    let mut r: Vec<u8> = Vec::new();
    let mut i: usize = 0;
    while i < status.len()
        invariant
            i <= status@.len(),
            r@ == unsubscribe_codes(status@.take(i as int)),
        decreases status@.len() - i,
    {
        r.push(status[i].value());
        proof {
            assert(status@.take(i + 1) == status@.take(i as int).push(status@[i as int]));
        }
        i = i + 1;
    }
    proof {
        assert(status@.take(i as int) == status@);
    }
    r
}

/// The bytes of a 3.1.1 packet.
fn encode_v3(packet: &ServerPacketV3) -> (r: Result<Vec<u8>, EncodeError>)
    ensures
        match r {
            Ok(bytes) => wire_form_v3(*packet) == Ok::<Seq<u8>, EncodeError>(bytes@),
            Err(e) => wire_form_v3(*packet) == Err::<Seq<u8>, EncodeError>(e),
        },
{
    match packet {
        ServerPacketV3::ConnectAck(ack) => Ok(
            wire::encode_v3_connack(ack.session_present, ack.return_code.value()),
        ),
        ServerPacketV3::PublishAck { packet_id } => Ok(wire::encode_v3_puback(packet_id.get())),
        ServerPacketV3::SubscribeAck { packet_id, status } => {
            if status.len() > wire::MAX_REMAINING_LENGTH - 2 {
                return Err(too_long(2, status.len()));
            }
            proof {
                assert(return_codes(status@) == Seq::new(status@.len(), |i: int| 0x80u8));
            }
            Ok(wire::encode_v3_suback(packet_id.get(), status.len()))
        },
        ServerPacketV3::UnsubscribeAck { packet_id } => Ok(
            wire::encode_v3_unsuback(packet_id.get()),
        ),
        ServerPacketV3::PingRequest => Ok(wire::encode_v3_pingreq()),
        ServerPacketV3::PingResponse => Ok(wire::encode_v3_pingresp()),
    }
}

/// The bytes of a 5.0 CONNACK.
fn encode_connack_v5(ack: &ConnectAckV5) -> (r: Result<Vec<u8>, EncodeError>)
    ensures
        match r {
            Ok(bytes) => wire_form_v5(ServerPacketV5::ConnectAck(*ack)) == Ok::<
                Seq<u8>,
                EncodeError,
            >(bytes@),
            Err(e) => wire_form_v5(ServerPacketV5::ConnectAck(*ack)) == Err::<
                Seq<u8>,
                EncodeError,
            >(e),
        },
{
    if let Some(id) = &ack.assigned_client_id {
        if id.as_str().as_bytes().len() > 0xFFFF {
            return Err(EncodeError::InvalidLength);
        }
    }
    let fields = wire::ConnackFields {
        session_present: ack.session_present,
        reason_code: ack.reason_code.value(),
        session_expiry_interval_secs: ack.session_expiry_interval_secs,
        max_qos: ack.max_qos.value(),
        assigned_client_id: ack.assigned_client_id.clone(),
        retain_available: ack.retain_available,
        wildcard_subscription_available: ack.wildcard_subscription_available,
        subscription_identifiers_available: ack.subscription_identifiers_available,
        shared_subscription_available: ack.shared_subscription_available,
        server_keepalive_sec: ack.server_keepalive_sec,
    };
    proof {
        assert(fields == connack_fields(*ack));
        wire::lemma_connack_body_len(fields);
    }
    Ok(wire::encode_v5_connack(fields))
}

/// The bytes of a 5.0 packet.
fn encode_v5(packet: &ServerPacketV5) -> (r: Result<Vec<u8>, EncodeError>)
    ensures
        match r {
            Ok(bytes) => wire_form_v5(*packet) == Ok::<Seq<u8>, EncodeError>(bytes@),
            Err(e) => wire_form_v5(*packet) == Err::<Seq<u8>, EncodeError>(e),
        },
{
    match packet {
        ServerPacketV5::ConnectAck(ack) => encode_connack_v5(ack),
        ServerPacketV5::PublishAck { packet_id, reason_code } => Ok(
            wire::encode_v5_puback(packet_id.get(), reason_code.value()),
        ),
        ServerPacketV5::SubscribeAck { packet_id, status } => {
            if status.len() > wire::MAX_REMAINING_LENGTH - 3 {
                return Err(too_long(3, status.len()));
            }
            Ok(wire::encode_v5_suback(packet_id.get(), subscribe_code_bytes(status)))
        },
        ServerPacketV5::UnsubscribeAck { packet_id, status } => {
            if status.len() > wire::MAX_REMAINING_LENGTH - 3 {
                return Err(too_long(3, status.len()));
            }
            Ok(wire::encode_v5_unsuback(packet_id.get(), unsubscribe_code_bytes(status)))
        },
        ServerPacketV5::PingRequest => Ok(wire::encode_v5_pingreq()),
        ServerPacketV5::PingResponse => Ok(wire::encode_v5_pingresp()),
        ServerPacketV5::Disconnect { reason_code } => Ok(
            wire::encode_v5_disconnect(reason_code.value()),
        ),
    }
}

/// The bytes of a packet under the codec of `version`.
pub fn encode_packet(packet: &ServerPacket, version: ProtocolVersion) -> (r: Result<
    Vec<u8>,
    EncodeError,
>)
    ensures
        match r {
            Ok(bytes) => wire_form(*packet, version) == Ok::<Seq<u8>, EncodeError>(bytes@),
            Err(e) => wire_form(*packet, version) == Err::<Seq<u8>, EncodeError>(e),
        },
{
    match (packet, version) {
        (ServerPacket::V3(p), ProtocolVersion::MQTT3) => encode_v3(p),
        (ServerPacket::V5(p), ProtocolVersion::MQTT5) => encode_v5(p),
        _ => Err(EncodeError::MalformedPacket),
    }
}

/// Puts server packets on the wire in the form of one protocol version.
#[derive(Debug)]
pub struct MqttEncoder {
    pub version: ProtocolVersion,
}

impl MqttEncoder {
    /// An encoder for `version`.
    pub fn new(version: ProtocolVersion) -> (r: MqttEncoder)
        ensures
            r.version == version,
    {
        MqttEncoder { version }
    }

    /// An encoder for MQTT 3.1.1.
    pub fn v3() -> (r: MqttEncoder)
        ensures
            r.version == ProtocolVersion::MQTT3,
    {
        MqttEncoder::new(ProtocolVersion::MQTT3)
    }

    /// An encoder for MQTT 5.0.
    pub fn v5() -> (r: MqttEncoder)
        ensures
            r.version == ProtocolVersion::MQTT5,
    {
        MqttEncoder::new(ProtocolVersion::MQTT5)
    }

    /// Appends the packet to `dst`. A packet that has no wire form leaves `dst`
    /// as it is, and so does one that no allocation has room for behind it: the
    /// error then says how long the packet is, and how much room there is.
    pub fn encode(&self, item: &ServerPacket, dst: &mut BytesMut) -> (r: Result<(), EncodeError>)
        ensures
            match (wire_form(*item, self.version), r) {
                (Err(e), Err(f)) => e == f,
                (Ok(bytes), Ok(_)) => {
                    &&& bytes.len() <= room_behind(buffer::held(*old(dst)).len())
                    &&& buffer::held(*final(dst)) == buffer::held(*old(dst)) + bytes
                },
                (Ok(bytes), Err(f)) => {
                    &&& bytes.len() > room_behind(buffer::held(*old(dst)).len())
                    &&& f == EncodeError::OverMaxPacketSize {
                        size: bytes.len() as u32,
                        max: room_behind(buffer::held(*old(dst)).len()) as u32,
                    }
                },
                _ => false,
            },
            r is Err ==> buffer::held(*final(dst)) == buffer::held(*old(dst)),
    {
        let bytes = match encode_packet(item, self.version) {
            Ok(bytes) => bytes,
            Err(e) => return Err(e),
        };
        proof {
            lemma_wire_form_len(*item, self.version);
        }
        let most: usize = isize::MAX as usize;
        let room: usize = if dst.len() > most {
            0
        } else {
            most - dst.len()
        };
        if bytes.len() > room {
            let (size, max): (u32, u32) = (bytes.len() as u32, room as u32);
            return Err(EncodeError::OverMaxPacketSize { size, max });
        }
        dst.extend_from_slice(bytes.as_slice());
        Ok(())
    }
}

/// How many more bytes an allocation can hold behind so many.
pub open spec fn room_behind(len: nat) -> nat {
    if len > isize::MAX {
        0
    } else {
        (isize::MAX - len) as nat
    }
}

/// A wire form is at most as long as the longest fixed header and the longest
/// remaining length together.
pub proof fn lemma_wire_form_len(packet: ServerPacket, version: ProtocolVersion)
    ensures
        wire_form(packet, version) matches Ok(bytes) ==> bytes.len() <= 5
            + wire::MAX_REMAINING_LENGTH,
{
    assert forall|first: u8, rest: Seq<u8>|
        rest.len() <= wire::MAX_REMAINING_LENGTH implies (#[trigger] wire::frame(
        first,
        rest,
    )).len() <= 5 + wire::MAX_REMAINING_LENGTH by {
        wire::lemma_var_int_len(rest.len());
    }
}

} // verus!
