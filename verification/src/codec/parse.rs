//! What `rmqtt_codec` makes of a client's bytes.

use crate::codec::version::ProtocolVersion;
use bytes::BytesMut;
use rmqtt_codec::error::DecodeError;
use rmqtt_codec::version::VersionCodec;
use rmqtt_codec::{v3, v5, MqttCodec, MqttPacket};
use std::num::{NonZeroU16, NonZeroU32};
use tokio_util::codec::Decoder;
use vstd::prelude::*;

verus! {

/// Why `rmqtt_codec` rejects bytes.
#[verifier::external_type_specification]
#[verifier::external_body]
pub struct ExDecodeError(DecodeError);

/// Why bytes are rejected.
#[derive(Debug, Clone, Copy, PartialEq, Eq, Structural)]
pub enum Fault {
    InvalidProtocol,
    InvalidLength,
    MalformedPacket,
    UnsupportedProtocolLevel,
    ConnectReservedFlagSet,
    InvalidConnectFlags,
    ConnAckReservedFlagSet,
    InvalidClientId,
    UnsupportedPacketType,
    PacketIdRequired,
    InvalidTopicFilter,
    InvalidTopicName,
    Utf8Error,
    MaxSizeExceeded { size: u32, max: u32 },
    Io,
}

/// Which fault a decoder's error is.
pub uninterp spec fn fault(error: DecodeError) -> Fault;

/// A decoder's error in its own words.
pub uninterp spec fn words(error: DecodeError) -> Seq<char>;

/// The variant of a `rmqtt_codec::error::DecodeError`, and what it counts.
#[verifier::external_body]
fn fault_of(error: &DecodeError) -> (r: Fault)
    ensures
        r == fault(*error),
{
    match error {
        DecodeError::InvalidProtocol => Fault::InvalidProtocol, DecodeError::InvalidLength => Fault::InvalidLength,
        DecodeError::MalformedPacket => Fault::MalformedPacket, DecodeError::UnsupportedProtocolLevel => Fault::UnsupportedProtocolLevel,
        DecodeError::ConnectReservedFlagSet => Fault::ConnectReservedFlagSet, DecodeError::InvalidConnectFlags => Fault::InvalidConnectFlags,
        DecodeError::ConnAckReservedFlagSet => Fault::ConnAckReservedFlagSet, DecodeError::InvalidClientId => Fault::InvalidClientId,
        DecodeError::UnsupportedPacketType => Fault::UnsupportedPacketType, DecodeError::PacketIdRequired => Fault::PacketIdRequired,
        DecodeError::InvalidTopicFilter => Fault::InvalidTopicFilter, DecodeError::InvalidTopicName => Fault::InvalidTopicName,
        DecodeError::Utf8Error => Fault::Utf8Error, DecodeError::Io(_) => Fault::Io,
        DecodeError::MaxSizeExceeded { size, max } => Fault::MaxSizeExceeded { size: *size, max: *max },
    }
}

/// `rmqtt_codec::error::DecodeError` in its own words, by its `to_string`.
#[verifier::external_body]
pub(crate) fn words_of(error: &DecodeError) -> (r: String)
    ensures
        r@ == words(*error),
{
    error.to_string()
}

/// A decoder's rejection: its error, which fault that is, and the error in words.
#[derive(Debug)]
pub struct Rejection {
    pub error: DecodeError,
    pub fault: Fault,
    pub text: String,
}

impl Rejection {
    /// The rejection with the given error.
    pub fn new(error: DecodeError) -> (r: Rejection)
        ensures
            r.error == error,
            r.fault == fault(error),
            r.text@ == words(error),
    {
        Rejection { fault: fault_of(&error), text: words_of(&error), error }
    }
}

/// The fields of a CONNECT of either version. A 3.1.1 CONNECT has no
/// authentication method and no maximum packet size.
#[derive(Debug)]
pub struct ConnectFields {
    pub clean: bool,
    pub keep_alive: u16,
    pub client_id: String,
    pub auth_method: Option<String>,
    pub max_packet_size: Option<u32>,
}

/// The fields of a PUBLISH of either version.
#[derive(Debug)]
pub struct PublishFields {
    pub qos: u8,
    pub topic: String,
    pub packet_id: Option<u16>,
    pub payload: Vec<u8>,
}

/// A decoded client packet as values.
#[allow(inconsistent_fields)]
pub enum ClientPacket {
    Connect {
        clean: bool,
        keep_alive: u16,
        client_id: Seq<char>,
        auth_method: Option<Seq<char>>,
        max_packet_size: Option<u32>,
    },
    Publish { qos: u8, topic: Seq<char>, packet_id: Option<u16>, payload: Seq<u8> },
    Subscribe { packet_id: u16, filters: usize },
    Unsubscribe { packet_id: u16, filters: usize },
    /// Any other packet, by its first header byte without the flags of a PUBLISH.
    Other(u8),
}

/// The outcome of one decoding attempt as values.
pub enum Decoding {
    /// A packet and its remaining length.
    Packet(ClientPacket, u32),
    /// More bytes are needed.
    Incomplete,
    /// Why, and why in words.
    Rejected { fault: Fault, text: Seq<char> },
}

/// What a fresh `rmqtt_codec::MqttCodec` of the given version decodes from
/// `bytes`.
pub uninterp spec fn decoded(version: ProtocolVersion, bytes: Seq<u8>) -> Decoding;

/// What `rmqtt_codec::version::VersionCodec` makes of `bytes`: a version, a need
/// for more bytes, or a rejection, with why in words.
pub uninterp spec fn detected(bytes: Seq<u8>) -> Result<
    Option<ProtocolVersion>,
    (Fault, Seq<char>),
>;

impl ClientPacket {
    /// The packet type, as the first header byte shows it.
    pub open spec fn kind(self) -> u8 {
        match self {
            ClientPacket::Connect { .. } => 0x10,
            ClientPacket::Publish { .. } => 0x30,
            ClientPacket::Subscribe { .. } => 0x82,
            ClientPacket::Unsubscribe { .. } => 0xA2,
            ClientPacket::Other(kind) => kind,
        }
    }
}

/// The packet types that `ClientPacket::Other` stands for.
pub open spec fn is_other_kind(version: ProtocolVersion, kind: u8) -> bool {
    kind == 0x20 || kind == 0x40 || kind == 0x50 || kind == 0x62 || kind == 0x70 || kind == 0x90
        || kind == 0xB0 || kind == 0xC0 || kind == 0xD0 || kind == 0xE0 || (version
        == ProtocolVersion::MQTT5 && kind == 0xF0)
}

/// The first header byte of a CONNECT.
pub const CONNECT: u8 = 0x10;

/// Whether a packet of the given type can begin with the given byte: the byte
/// shows the type, and of a PUBLISH also its flags.
pub open spec fn opens_with(kind: u8, first: u8) -> bool {
    if kind == 0x30 {
        0x30 <= first <= 0x3F
    } else {
        first == kind
    }
}

/// The remaining length that the fixed header at the start of `bytes` carries,
/// and how many bytes it takes there: seven bits a byte, least significant group
/// first, up to the first byte below 128. `None` where no such byte is among the
/// four that a length may take.
pub open spec fn length_field(bytes: Seq<u8>) -> Option<(nat, nat)> {
    if bytes.len() >= 2 && bytes[1] < 128 {
        Some((bytes[1] as nat, 1))
    } else if bytes.len() >= 3 && bytes[2] < 128 {
        Some(((bytes[1] - 128 + bytes[2] * 128) as nat, 2))
    } else if bytes.len() >= 4 && bytes[3] < 128 {
        Some(((bytes[1] - 128 + (bytes[2] - 128) * 128 + bytes[3] * 16384) as nat, 3))
    } else if bytes.len() >= 5 && bytes[4] < 128 {
        Some(
            (
                (bytes[1] - 128 + (bytes[2] - 128) * 128 + (bytes[3] - 128) * 16384 + bytes[4]
                    * 2097152) as nat,
                4,
            ),
        )
    } else {
        None
    }
}

/// How much of a packet a stream begins with.
pub enum Framing {
    /// Its fixed header is not all there.
    NoHeader,
    /// There is no fixed header: a length ends after four bytes.
    BadHeader,
    /// Its fixed header, of so many bytes, and not all of the rest.
    Partial(nat),
    /// All of it: a fixed header of so many bytes, and the rest of so many.
    Whole(nat, nat),
}

/// How much of a packet `bytes` begins with.
pub open spec fn framing(bytes: Seq<u8>) -> Framing {
    match length_field(bytes) {
        None => if bytes.len() < 5 {
            Framing::NoHeader
        } else {
            Framing::BadHeader
        },
        Some((length, size)) => if bytes.len() < 1 + size + length {
            Framing::Partial(1 + size)
        } else {
            Framing::Whole(1 + size, length)
        },
    }
}

/// How many bytes a decoding attempt takes away: a whole packet, or the fixed
/// header of a partial one.
pub open spec fn taken(bytes: Seq<u8>) -> nat {
    match framing(bytes) {
        Framing::NoHeader => 0,
        Framing::BadHeader => 0,
        Framing::Partial(header) => header,
        Framing::Whole(header, rest) => header + rest,
    }
}

/// What the framing shows of the outcome of a decoding attempt. Only a whole
/// packet is looked into.
pub open spec fn framed(bytes: Seq<u8>, outcome: Decoding) -> bool {
    match framing(bytes) {
        Framing::NoHeader => outcome is Incomplete,
        Framing::BadHeader => outcome is Rejected,
        Framing::Partial(_) => outcome is Incomplete,
        Framing::Whole(_, rest) => match outcome {
            Decoding::Packet(packet, length) => length == rest && opens_with(
                packet.kind(),
                bytes[0],
            ),
            Decoding::Incomplete => false,
            Decoding::Rejected { .. } => true,
        },
    }
}

/// The head of a decoding attempt: the packet's type and remaining length, and
/// how many bytes the attempt left.
#[derive(Debug)]
pub struct Head {
    pub outcome: Result<Option<(u8, u32)>, DecodeError>,
    pub left: usize,
}

/// What the head shows of the whole outcome, and what it leaves.
pub open spec fn head_agrees(
    version: ProtocolVersion,
    bytes: Seq<u8>,
    head: Head,
    outcome: Decoding,
) -> bool {
    &&& framed(bytes, outcome)
    &&& head.left == bytes.len() - taken(bytes)
    &&& match head.outcome {
        Ok(Some((kind, length))) => {
            &&& outcome matches Decoding::Packet(packet, n)
            &&& length == n
            &&& kind == packet.kind()
            &&& packet is Other ==> is_other_kind(version, kind)
        },
        Ok(None) => outcome == Decoding::Incomplete,
        Err(e) => outcome == (Decoding::Rejected { fault: fault(e), text: words(e) }),
    }
}

/// `rmqtt_codec::MqttCodec::decode` of a fresh codec, as far as the kind of the
/// packet, its remaining length, and the number of bytes left go. A packet begins
/// with the byte that shows its type. Whole packets are taken away, be they
/// decoded or rejected, and of a partial packet the fixed header.
#[verifier::external_body]
pub(crate) fn decode_head(version: ProtocolVersion, bytes: &[u8]) -> (head: Head)
    ensures
        head_agrees(version, bytes@, head, decoded(version, bytes@)),
{
    let mut buf = BytesMut::from(bytes);
    let outcome = match version {
        ProtocolVersion::MQTT3 => v3::Codec::default().decode(&mut buf).map(|o| o.map(|(p, n)| (p.packet_type(), n))),
        ProtocolVersion::MQTT5 => v5::Codec::default().decode(&mut buf).map(|o| o.map(|(p, n)| (p.packet_type(), n))),
    };
    Head { outcome, left: buf.len() }
}

/// Whether `fields` are those of the decoded CONNECT, if it is one.
pub open spec fn connect_agrees(fields: Option<ConnectFields>, outcome: Decoding) -> bool {
    match outcome {
        Decoding::Packet(
            ClientPacket::Connect { clean, keep_alive, client_id, auth_method, max_packet_size },
            _,
        ) => {
            &&& fields matches Some(c)
            &&& c.clean == clean
            &&& c.keep_alive == keep_alive
            &&& c.client_id@ == client_id
            &&& c.auth_method is Some <==> auth_method is Some
            &&& c.auth_method matches Some(method) ==> auth_method == Some(method@)
            &&& c.max_packet_size == max_packet_size
            &&& c.max_packet_size != Some(0u32)
        },
        _ => fields is None,
    }
}

/// `rmqtt_codec::v3::Codec::decode` of a fresh codec, as far as the fields of a
/// CONNECT go.
#[verifier::external_body]
pub(crate) fn decode_connect_v3(bytes: &[u8]) -> (r: Option<ConnectFields>)
    ensures
        connect_agrees(r, decoded(ProtocolVersion::MQTT3, bytes@)),
{
    match v3::Codec::default().decode(&mut BytesMut::from(bytes)) {
        Ok(Some((v3::Packet::Connect(c), _))) => Some(ConnectFields {
            clean: c.clean_session,
            keep_alive: c.keep_alive,
            client_id: c.client_id.to_string(),
            auth_method: None,
            max_packet_size: None,
        }),
        _ => None,
    }
}

/// `rmqtt_codec::v5::Codec::decode` of a fresh codec, as far as the fields of a
/// CONNECT go. A declared maximum packet size is not zero.
#[verifier::external_body]
pub(crate) fn decode_connect_v5(bytes: &[u8]) -> (r: Option<ConnectFields>)
    ensures
        connect_agrees(r, decoded(ProtocolVersion::MQTT5, bytes@)),
{
    match v5::Codec::default().decode(&mut BytesMut::from(bytes)) {
        Ok(Some((v5::Packet::Connect(c), _))) => Some(ConnectFields {
            clean: c.clean_start,
            keep_alive: c.keep_alive,
            client_id: c.client_id.to_string(),
            auth_method: c.auth_method.map(|method| method.to_string()),
            max_packet_size: c.max_packet_size.map(NonZeroU32::get),
        }),
        _ => None,
    }
}

/// Whether `fields` are those of the decoded PUBLISH, if it is one.
pub open spec fn publish_agrees(fields: Option<PublishFields>, outcome: Decoding) -> bool {
    match outcome {
        Decoding::Packet(ClientPacket::Publish { qos, topic, packet_id, payload }, _) => {
            &&& fields matches Some(p)
            &&& p.qos == qos
            &&& p.qos <= 2
            &&& p.topic@ == topic
            &&& p.packet_id == packet_id
            &&& p.packet_id != Some(0u16)
            &&& p.payload@ == payload
        },
        _ => fields is None,
    }
}

/// `rmqtt_codec::MqttCodec::decode` of a fresh codec, as far as the fields of a
/// PUBLISH go. A packet identifier is not zero, and there are three levels of
/// quality of service.
#[verifier::external_body]
pub(crate) fn decode_publish(version: ProtocolVersion, bytes: &[u8]) -> (r: Option<PublishFields>)
    ensures
        publish_agrees(r, decoded(version, bytes@)),
{
    let mut codec = match version {
        ProtocolVersion::MQTT3 => MqttCodec::V3(v3::Codec::default()),
        ProtocolVersion::MQTT5 => MqttCodec::V5(v5::Codec::default()),
    };
    match codec.decode(&mut BytesMut::from(bytes)) {
        Ok(Some((MqttPacket::V3(v3::Packet::Publish(p)) | MqttPacket::V5(v5::Packet::Publish(p)), _))) => Some(PublishFields {
            qos: p.qos.value(),
            topic: p.topic.to_string(),
            packet_id: p.packet_id.map(NonZeroU16::get),
            payload: p.payload.to_vec(),
        }),
        _ => None,
    }
}

/// Whether `fields` are the packet identifier and the number of topic filters
/// of the decoded SUBSCRIBE or UNSUBSCRIBE, if it is one.
pub open spec fn filters_agree(fields: Option<(u16, usize)>, outcome: Decoding) -> bool {
    match outcome {
        Decoding::Packet(ClientPacket::Subscribe { packet_id, filters }, _) => fields == Some(
            (packet_id, filters),
        ) && packet_id != 0,
        Decoding::Packet(ClientPacket::Unsubscribe { packet_id, filters }, _) => fields == Some(
            (packet_id, filters),
        ) && packet_id != 0,
        _ => fields is None,
    }
}

/// `rmqtt_codec::v3::Codec::decode` of a fresh codec, as far as the packet
/// identifier and the topic filters of a SUBSCRIBE or UNSUBSCRIBE go.
#[verifier::external_body]
pub(crate) fn decode_filters_v3(bytes: &[u8]) -> (r: Option<(u16, usize)>)
    ensures
        filters_agree(r, decoded(ProtocolVersion::MQTT3, bytes@)),
{
    match v3::Codec::default().decode(&mut BytesMut::from(bytes)) {
        Ok(Some((v3::Packet::Subscribe { packet_id, topic_filters }, _))) => {
            Some((packet_id.get(), topic_filters.len()))
        },
        Ok(Some((v3::Packet::Unsubscribe { packet_id, topic_filters }, _))) => {
            Some((packet_id.get(), topic_filters.len()))
        },
        _ => None,
    }
}

/// `rmqtt_codec::v5::Codec::decode` of a fresh codec, as far as the packet
/// identifier and the topic filters of a SUBSCRIBE or UNSUBSCRIBE go.
#[verifier::external_body]
pub(crate) fn decode_filters_v5(bytes: &[u8]) -> (r: Option<(u16, usize)>)
    ensures
        filters_agree(r, decoded(ProtocolVersion::MQTT5, bytes@)),
{
    match v5::Codec::default().decode(&mut BytesMut::from(bytes)) {
        Ok(Some((v5::Packet::Subscribe(s), _))) => Some((s.packet_id.get(), s.topic_filters.len())),
        Ok(Some((v5::Packet::Unsubscribe(s), _))) => Some((s.packet_id.get(), s.topic_filters.len())),
        _ => None,
    }
}

/// Whether a stream begins with a packet that is no CONNECT.
pub open spec fn is_other_packet(bytes: Seq<u8>) -> bool {
    !(framing(bytes) is NoHeader) && bytes[0] != CONNECT
}

/// `rmqtt_codec::version::VersionCodec::decode`, which takes no bytes away. A
/// packet has at least two header bytes. A version is told of a CONNECT alone,
/// and any other packet is rejected as soon as its fixed header is there. A client
/// identifier is not looked at.
#[verifier::external_body]
pub(crate) fn detect_version(bytes: &[u8]) -> (r: Result<Option<ProtocolVersion>, DecodeError>)
    ensures
        match r {
            Ok(v) => detected(bytes@) == Ok::<Option<ProtocolVersion>, (Fault, Seq<char>)>(v),
            Err(e) => detected(bytes@) == Err::<Option<ProtocolVersion>, (Fault, Seq<char>)>(
                (fault(e), words(e)),
            ) && !(fault(e) is InvalidClientId),
        },
        r matches Ok(Some(_)) ==> !(framing(bytes@) is NoHeader) && bytes@[0] == CONNECT,
        is_other_packet(bytes@) ==> r is Err,
        framing(bytes@) is NoHeader ==> (r matches Ok(None)),
        framing(bytes@) is BadHeader ==> r is Err,
{
    match VersionCodec.decode(&mut BytesMut::from(bytes)) {
        Ok(Some(rmqtt_codec::version::ProtocolVersion::MQTT3)) => Ok(Some(ProtocolVersion::MQTT3)),
        Ok(Some(rmqtt_codec::version::ProtocolVersion::MQTT5)) => Ok(Some(ProtocolVersion::MQTT5)),
        Ok(None) => Ok(None),
        Err(error) => Err(error),
    }
}

} // verus!
