//! Bytes to client packets.

use crate::buffer;
use crate::codec::id::{PacketId, PacketLimit};
use crate::codec::parse;
use crate::codec::types::{Connect, ConnectV5, MqttPacket, PacketV3, PacketV5, Publish, QoS};
use crate::codec::version::ProtocolVersion;
use crate::error::IoError;
use bytes::BytesMut;
use vstd::prelude::*;

verus! {

/// The 3.1.1 packet of a type whose packets the broker does not look into.
pub open spec fn bare_packet_v3(kind: u8) -> Option<PacketV3> {
    match kind {
        0x20 => Some(PacketV3::ConnectAck),
        0x40 => Some(PacketV3::PublishAck),
        0x50 => Some(PacketV3::PublishReceived),
        0x62 => Some(PacketV3::PublishRelease),
        0x70 => Some(PacketV3::PublishComplete),
        0x90 => Some(PacketV3::SubscribeAck),
        0xB0 => Some(PacketV3::UnsubscribeAck),
        0xC0 => Some(PacketV3::PingRequest),
        0xD0 => Some(PacketV3::PingResponse),
        0xE0 => Some(PacketV3::Disconnect),
        _ => None,
    }
}

/// The 5.0 packet of a type whose packets the broker does not look into.
pub open spec fn bare_packet_v5(kind: u8) -> Option<PacketV5> {
    match kind {
        0x20 => Some(PacketV5::ConnectAck),
        0x40 => Some(PacketV5::PublishAck),
        0x50 => Some(PacketV5::PublishReceived),
        0x62 => Some(PacketV5::PublishRelease),
        0x70 => Some(PacketV5::PublishComplete),
        0x90 => Some(PacketV5::SubscribeAck),
        0xB0 => Some(PacketV5::UnsubscribeAck),
        0xC0 => Some(PacketV5::PingRequest),
        0xD0 => Some(PacketV5::PingResponse),
        0xE0 => Some(PacketV5::Disconnect),
        0xF0 => Some(PacketV5::Auth),
        _ => None,
    }
}

/// The packet of a type whose packets the broker does not look into, or `None`
/// for any other type.
pub fn bare_packet(version: ProtocolVersion, kind: u8) -> (r: Option<MqttPacket>)
    ensures
        version == ProtocolVersion::MQTT3 ==> match bare_packet_v3(kind) {
            Some(p) => r == Some(MqttPacket::V3(p)),
            None => r is None,
        },
        version == ProtocolVersion::MQTT5 ==> match bare_packet_v5(kind) {
            Some(p) => r == Some(MqttPacket::V5(p)),
            None => r is None,
        },
{
    match version {
        ProtocolVersion::MQTT3 => match kind {
            0x20 => Some(MqttPacket::V3(PacketV3::ConnectAck)),
            0x40 => Some(MqttPacket::V3(PacketV3::PublishAck)),
            0x50 => Some(MqttPacket::V3(PacketV3::PublishReceived)),
            0x62 => Some(MqttPacket::V3(PacketV3::PublishRelease)),
            0x70 => Some(MqttPacket::V3(PacketV3::PublishComplete)),
            0x90 => Some(MqttPacket::V3(PacketV3::SubscribeAck)),
            0xB0 => Some(MqttPacket::V3(PacketV3::UnsubscribeAck)),
            0xC0 => Some(MqttPacket::V3(PacketV3::PingRequest)),
            0xD0 => Some(MqttPacket::V3(PacketV3::PingResponse)),
            0xE0 => Some(MqttPacket::V3(PacketV3::Disconnect)),
            _ => None,
        },
        ProtocolVersion::MQTT5 => match kind {
            0x20 => Some(MqttPacket::V5(PacketV5::ConnectAck)),
            0x40 => Some(MqttPacket::V5(PacketV5::PublishAck)),
            0x50 => Some(MqttPacket::V5(PacketV5::PublishReceived)),
            0x62 => Some(MqttPacket::V5(PacketV5::PublishRelease)),
            0x70 => Some(MqttPacket::V5(PacketV5::PublishComplete)),
            0x90 => Some(MqttPacket::V5(PacketV5::SubscribeAck)),
            0xB0 => Some(MqttPacket::V5(PacketV5::UnsubscribeAck)),
            0xC0 => Some(MqttPacket::V5(PacketV5::PingRequest)),
            0xD0 => Some(MqttPacket::V5(PacketV5::PingResponse)),
            0xE0 => Some(MqttPacket::V5(PacketV5::Disconnect)),
            0xF0 => Some(MqttPacket::V5(PacketV5::Auth)),
            _ => None,
        },
    }
}

/// A declared maximum packet size as a limit. Zero declares none.
pub open spec fn limit_of(max_packet_size: Option<u32>, limit: Option<PacketLimit>) -> bool {
    match max_packet_size {
        Some(n) => if n == 0 {
            limit is None
        } else {
            limit matches Some(l) && l@ == n
        },
        None => limit is None,
    }
}

/// The CONNECT with the given fields. A 3.1.1 CONNECT keeps the three that it
/// has.
pub fn connect_packet(version: ProtocolVersion, fields: parse::ConnectFields) -> (r: MqttPacket)
    ensures
        version == ProtocolVersion::MQTT3 ==> r == MqttPacket::V3(
            PacketV3::Connect(
                (Connect {
                    clean_session: fields.clean,
                    keep_alive: fields.keep_alive,
                    client_id: fields.client_id,
                }),
            ),
        ),
        version == ProtocolVersion::MQTT5 ==> {
            &&& r matches MqttPacket::V5(PacketV5::Connect(c))
            &&& c.clean_start == fields.clean
            &&& c.keep_alive == fields.keep_alive
            &&& c.client_id == fields.client_id
            &&& c.auth_method == fields.auth_method
            &&& limit_of(fields.max_packet_size, c.max_packet_size)
        },
{
    match version {
        ProtocolVersion::MQTT3 => MqttPacket::V3(
            PacketV3::Connect(
                Connect {
                    clean_session: fields.clean,
                    keep_alive: fields.keep_alive,
                    client_id: fields.client_id,
                },
            ),
        ),
        ProtocolVersion::MQTT5 => {
            let max_packet_size = match fields.max_packet_size {
                Some(n) => PacketLimit::new(n),
                None => None,
            };
            MqttPacket::V5(
                PacketV5::Connect(
                    ConnectV5 {
                        clean_start: fields.clean,
                        keep_alive: fields.keep_alive,
                        client_id: fields.client_id,
                        auth_method: fields.auth_method,
                        max_packet_size,
                    },
                ),
            )
        },
    }
}

/// Whether `publish` has the given fields. Zero is no packet identifier.
pub open spec fn publish_has(publish: Publish, fields: parse::PublishFields) -> bool {
    &&& publish.qos.level() == fields.qos
    &&& publish.topic == fields.topic
    &&& publish.payload == fields.payload
    &&& match fields.packet_id {
        Some(n) => if n == 0 {
            publish.packet_id is None
        } else {
            publish.packet_id matches Some(id) && id@ == n
        },
        None => publish.packet_id is None,
    }
}

/// The PUBLISH with the given fields, or `None` where the quality of service is
/// none of the three.
pub fn publish_packet(version: ProtocolVersion, fields: parse::PublishFields) -> (r: Option<
    MqttPacket,
>)
    ensures
        r is Some <==> fields.qos <= 2,
        r is Some && version == ProtocolVersion::MQTT3 ==> {
            &&& r matches Some(MqttPacket::V3(PacketV3::Publish(p)))
            &&& publish_has(p, fields)
        },
        r is Some && version == ProtocolVersion::MQTT5 ==> {
            &&& r matches Some(MqttPacket::V5(PacketV5::Publish(p)))
            &&& publish_has(p, fields)
        },
{
    let qos = match fields.qos {
        0 => QoS::AtMostOnce,
        1 => QoS::AtLeastOnce,
        2 => QoS::ExactlyOnce,
        _ => return None,
    };
    let packet_id = match fields.packet_id {
        Some(n) => PacketId::new(n),
        None => None,
    };
    let publish = Publish { qos, topic: fields.topic, packet_id, payload: fields.payload };
    match version {
        ProtocolVersion::MQTT3 => Some(MqttPacket::V3(PacketV3::Publish(publish))),
        ProtocolVersion::MQTT5 => Some(MqttPacket::V5(PacketV5::Publish(publish))),
    }
}

/// The SUBSCRIBE or UNSUBSCRIBE with the given packet identifier and number of
/// topic filters, or `None` for the identifier zero.
pub fn filters_packet(
    version: ProtocolVersion,
    subscribe: bool,
    packet_id: u16,
    filters: usize,
) -> (r: Option<MqttPacket>)
    ensures
        r is Some <==> packet_id != 0,
        r matches Some(packet) ==> match (version, subscribe) {
            (ProtocolVersion::MQTT3, true) => packet matches MqttPacket::V3(
                PacketV3::Subscribe { packet_id: id, filters: n },
            ) && id@ == packet_id && n == filters,
            (ProtocolVersion::MQTT3, false) => packet matches MqttPacket::V3(
                PacketV3::Unsubscribe { packet_id: id, filters: n },
            ) && id@ == packet_id && n == filters,
            (ProtocolVersion::MQTT5, true) => packet matches MqttPacket::V5(
                PacketV5::Subscribe { packet_id: id, filters: n },
            ) && id@ == packet_id && n == filters,
            (ProtocolVersion::MQTT5, false) => packet matches MqttPacket::V5(
                PacketV5::Unsubscribe { packet_id: id, filters: n },
            ) && id@ == packet_id && n == filters,
        },
{
    let packet_id = match PacketId::new(packet_id) {
        Some(id) => id,
        None => return None,
    };
    match (version, subscribe) {
        (ProtocolVersion::MQTT3, true) => Some(
            MqttPacket::V3(PacketV3::Subscribe { packet_id, filters }),
        ),
        (ProtocolVersion::MQTT3, false) => Some(
            MqttPacket::V3(PacketV3::Unsubscribe { packet_id, filters }),
        ),
        (ProtocolVersion::MQTT5, true) => Some(
            MqttPacket::V5(PacketV5::Subscribe { packet_id, filters }),
        ),
        (ProtocolVersion::MQTT5, false) => Some(
            MqttPacket::V5(PacketV5::Unsubscribe { packet_id, filters }),
        ),
    }
}

/// Whether `packet` is the decoded packet `client`, as far as the broker reads
/// it.
pub open spec fn packet_is(
    version: ProtocolVersion,
    packet: MqttPacket,
    client: parse::ClientPacket,
) -> bool {
    match version {
        ProtocolVersion::MQTT3 => packet matches MqttPacket::V3(p) && packet_v3_is(p, client),
        ProtocolVersion::MQTT5 => packet matches MqttPacket::V5(p) && packet_v5_is(p, client),
    }
}

/// `packet_is` of a 3.1.1 packet.
pub open spec fn packet_v3_is(packet: PacketV3, client: parse::ClientPacket) -> bool {
    match client {
        parse::ClientPacket::Connect { clean, keep_alive, client_id, .. } => {
            &&& packet matches PacketV3::Connect(c)
            &&& c.clean_session == clean
            &&& c.keep_alive == keep_alive
            &&& c.client_id@ == client_id
        },
        parse::ClientPacket::Publish { qos, topic, packet_id, payload } => {
            &&& packet matches PacketV3::Publish(p)
            &&& publish_is(p, qos, topic, packet_id, payload)
        },
        parse::ClientPacket::Subscribe { packet_id, filters } => {
            &&& packet matches PacketV3::Subscribe { packet_id: id, filters: n }
            &&& id@ == packet_id
            &&& n == filters
        },
        parse::ClientPacket::Unsubscribe { packet_id, filters } => {
            &&& packet matches PacketV3::Unsubscribe { packet_id: id, filters: n }
            &&& id@ == packet_id
            &&& n == filters
        },
        parse::ClientPacket::Other(kind) => bare_packet_v3(kind) == Some(packet),
    }
}

/// `packet_is` of a 5.0 packet.
pub open spec fn packet_v5_is(packet: PacketV5, client: parse::ClientPacket) -> bool {
    match client {
        parse::ClientPacket::Connect {
            clean,
            keep_alive,
            client_id,
            auth_method,
            max_packet_size,
        } => {
            &&& packet matches PacketV5::Connect(c)
            &&& c.clean_start == clean
            &&& c.keep_alive == keep_alive
            &&& c.client_id@ == client_id
            &&& c.auth_method is Some <==> auth_method is Some
            &&& c.auth_method matches Some(method) ==> auth_method == Some(method@)
            &&& limit_of(max_packet_size, c.max_packet_size)
        },
        parse::ClientPacket::Publish { qos, topic, packet_id, payload } => {
            &&& packet matches PacketV5::Publish(p)
            &&& publish_is(p, qos, topic, packet_id, payload)
        },
        parse::ClientPacket::Subscribe { packet_id, filters } => {
            &&& packet matches PacketV5::Subscribe { packet_id: id, filters: n }
            &&& id@ == packet_id
            &&& n == filters
        },
        parse::ClientPacket::Unsubscribe { packet_id, filters } => {
            &&& packet matches PacketV5::Unsubscribe { packet_id: id, filters: n }
            &&& id@ == packet_id
            &&& n == filters
        },
        parse::ClientPacket::Other(kind) => bare_packet_v5(kind) == Some(packet),
    }
}

/// Whether `publish` is the PUBLISH with the given values.
pub open spec fn publish_is(
    publish: Publish,
    qos: u8,
    topic: Seq<char>,
    packet_id: Option<u16>,
    payload: Seq<u8>,
) -> bool {
    &&& publish.qos.level() == qos
    &&& publish.topic@ == topic
    &&& publish.packet_id is Some <==> packet_id is Some
    &&& publish.packet_id matches Some(id) ==> packet_id == Some(id@)
    &&& publish.payload@ == payload
}

/// The packet that the bytes hold, once its type is known. `None` never comes
/// where the type is the one that `decode_head` told.
fn read_packet(version: ProtocolVersion, kind: u8, bytes: &[u8]) -> (r: Option<MqttPacket>)
    ensures
        match parse::decoded(version, bytes@) {
            parse::Decoding::Packet(client, _) => kind == client.kind() && (client is Other
                ==> parse::is_other_kind(version, kind)) ==> (r matches Some(packet) && packet_is(
                version,
                packet,
                client,
            )),
            _ => true,
        },
{
    if kind == 0x10 {
        let fields = match version {
            ProtocolVersion::MQTT3 => parse::decode_connect_v3(bytes),
            ProtocolVersion::MQTT5 => parse::decode_connect_v5(bytes),
        };
        match fields {
            Some(fields) => Some(connect_packet(version, fields)),
            None => None,
        }
    } else if kind == 0x30 {
        match parse::decode_publish(version, bytes) {
            Some(fields) => publish_packet(version, fields),
            None => None,
        }
    } else if kind == 0x82 || kind == 0xA2 {
        let fields = match version {
            ProtocolVersion::MQTT3 => parse::decode_filters_v3(bytes),
            ProtocolVersion::MQTT5 => parse::decode_filters_v5(bytes),
        };
        match fields {
            Some((packet_id, filters)) => filters_packet(version, kind == 0x82, packet_id, filters),
            None => None,
        }
    } else {
        bare_packet(version, kind)
    }
}

/// What one decoding attempt on a stream yields.
#[derive(Debug)]
pub enum Decoded<T> {
    Item(T),
    /// More bytes are needed.
    Insufficient,
}

/// Takes client packets of one protocol version off a byte stream.
#[derive(Debug)]
pub struct MqttDecoder {
    pub version: ProtocolVersion,
    /// The fixed header of a packet whose rest has not arrived, taken off the
    /// stream ahead of it.
    pub header: Vec<u8>,
}

/// The result of a decoding attempt, told by the attempt's outcome.
pub open spec fn decode_result_is(
    version: ProtocolVersion,
    result: Result<Decoded<(MqttPacket, u32)>, IoError>,
    outcome: parse::Decoding,
) -> bool {
    match outcome {
        parse::Decoding::Packet(client, length) => {
            &&& result matches Ok(Decoded::Item((packet, n)))
            &&& packet_is(version, packet, client)
            &&& n == length
        },
        parse::Decoding::Incomplete => result matches Ok(Decoded::Insufficient),
        parse::Decoding::Rejected { fault, text } => {
            &&& result matches Err(IoError::Rejected(rejection))
            &&& rejection.fault == fault
            &&& parse::fault(rejection.error) == fault
            &&& rejection.text@ == text
        },
    }
}

/// How many bytes the fixed header at the start of `bytes` takes, or zero where it
/// is not all there.
fn header_len(bytes: &[u8]) -> (r: usize)
    ensures
        r == match parse::length_field(bytes@) {
            Some((_, size)) => 1 + size,
            None => 0,
        },
{
    if bytes.len() >= 2 && bytes[1] < 128 {
        2
    } else if bytes.len() >= 3 && bytes[2] < 128 {
        3
    } else if bytes.len() >= 4 && bytes[3] < 128 {
        4
    } else if bytes.len() >= 5 && bytes[4] < 128 {
        5
    } else {
        0
    }
}

impl MqttDecoder {
    /// A decoder for `version`, at the start of a stream.
    pub fn new(version: ProtocolVersion) -> (r: MqttDecoder)
        ensures
            r.version == version,
            r.header@.len() == 0,
    {
        MqttDecoder { version, header: Vec::new() }
    }

    /// A decoder for MQTT 3.1.1.
    pub fn v3() -> (r: MqttDecoder)
        ensures
            r.version == ProtocolVersion::MQTT3,
            r.header@.len() == 0,
    {
        MqttDecoder::new(ProtocolVersion::MQTT3)
    }

    /// A decoder for MQTT 5.0.
    pub fn v5() -> (r: MqttDecoder)
        ensures
            r.version == ProtocolVersion::MQTT5,
            r.header@.len() == 0,
    {
        MqttDecoder::new(ProtocolVersion::MQTT5)
    }

    /// The bytes that the next attempt starts from.
    pub open spec fn stream(&self, src: BytesMut) -> Seq<u8> {
        self.header@ + buffer::held(src)
    }

    /// What an attempt makes of the stream: what it yields, what it leaves, and
    /// what the decoder remembers. A whole packet is taken away, be it decoded or
    /// rejected. Of a partial one the fixed header is taken away and remembered.
    /// That of a rejected one is remembered too: what comes next is then read as
    /// its rest.
    pub open spec fn took(
        self,
        src: BytesMut,
        after: MqttDecoder,
        src_after: BytesMut,
        r: Result<Decoded<(MqttPacket, u32)>, IoError>,
    ) -> bool {
        let all = self.stream(src);
        let outcome = parse::decoded(self.version, all);
        let taken = parse::taken(all) as int;
        &&& after.version == self.version
        &&& parse::framed(all, outcome)
        &&& decode_result_is(self.version, r, outcome)
        &&& buffer::held(src_after) == all.skip(taken)
        &&& after.header@ == match parse::framing(all) {
            parse::Framing::Partial(header) => all.take(header as int),
            parse::Framing::Whole(header, _) => if outcome is Rejected {
                all.take(header as int)
            } else {
                Seq::empty()
            },
            _ => Seq::empty(),
        }
    }

    /// Takes the next packet off `src`. Of a packet that is not complete the
    /// header is taken off and remembered. Bytes that are no packet are a
    /// rejection.
    pub fn decode(&mut self, src: &mut BytesMut) -> (r: Result<
        Decoded<(MqttPacket, u32)>,
        IoError,
    >)
        ensures
            old(self).took(*old(src), *final(self), *final(src), r),
    {
        let ghost all = self.stream(*src);
        let arrived = buffer::copy_bytes(src);
        let mut bytes: Vec<u8> = Vec::new();
        bytes.extend_from_slice(self.header.as_slice());
        bytes.extend_from_slice(arrived.as_slice());
        assert(bytes@ == all);
        let head = parse::decode_head(self.version, bytes.as_slice());
        let packet = match &head.outcome {
            Ok(Some((kind, _))) => read_packet(self.version, *kind, bytes.as_slice()),
            _ => None,
        };
        let taken: usize = bytes.len() - head.left;
        let header: usize = header_len(bytes.as_slice());
        let rest = bytes.split_off(taken);
        src.clear();
        src.extend_from_slice(rest.as_slice());
        self.header = Vec::new();
        match head.outcome {
            Ok(Some((_, length))) => match packet {
                Some(packet) => Ok(Decoded::Item((packet, length))),
                None => Ok(Decoded::Insufficient),
            },
            Ok(None) => {
                assert(taken == 0 ==> bytes@ == Seq::<u8>::empty());
                self.header = bytes;
                Ok(Decoded::Insufficient)
            },
            Err(error) => {
                if taken > 0 {
                    bytes.truncate(header);
                    assert(bytes@ == all.take(header as int));
                    self.header = bytes;
                }
                Err(IoError::Rejected(parse::Rejection::new(error)))
            },
        }
    }
}

/// Tells the protocol version of a stream from its first packet, which stays on
/// the stream.
#[derive(Debug)]
pub struct VersionDecoder {}

impl VersionDecoder {
    /// A version decoder.
    pub fn new() -> (r: VersionDecoder)
        ensures
            r == (VersionDecoder {  }),
    {
        VersionDecoder {  }
    }

    /// What a look at the stream tells of its version. A version is told of a
    /// CONNECT alone, and any other packet is rejected.
    pub open spec fn told(bytes: Seq<u8>, r: Result<Decoded<ProtocolVersion>, IoError>) -> bool {
        &&& match parse::detected(bytes) {
            Ok(Some(version)) => r == Ok::<Decoded<ProtocolVersion>, IoError>(
                Decoded::Item(version),
            ),
            Ok(None) => r == Ok::<Decoded<ProtocolVersion>, IoError>(Decoded::Insufficient),
            Err((fault, text)) => {
                &&& r matches Err(IoError::Rejected(rejection))
                &&& rejection.fault == fault
                &&& parse::fault(rejection.error) == fault
                &&& !(fault is InvalidClientId)
                &&& rejection.text@ == text
            },
        }
        &&& parse::framing(bytes) is NoHeader ==> r == Ok::<Decoded<ProtocolVersion>, IoError>(
            Decoded::Insufficient,
        )
        &&& parse::framing(bytes) is BadHeader ==> r is Err
        &&& r matches Ok(Decoded::Item(_)) ==> !(parse::framing(bytes) is NoHeader) && bytes[0]
            == parse::CONNECT
        &&& parse::is_other_packet(bytes) ==> r is Err
    }

    /// The version that the first packet on `src` names. A first packet that
    /// names none is rejected; `src` keeps its bytes either way.
    pub fn decode(&self, src: &BytesMut) -> (r: Result<Decoded<ProtocolVersion>, IoError>)
        ensures
            VersionDecoder::told(buffer::held(*src), r),
    {
        let bytes = buffer::copy_bytes(src);
        match parse::detect_version(bytes.as_slice()) {
            Ok(Some(version)) => Ok(Decoded::Item(version)),
            Ok(None) => Ok(Decoded::Insufficient),
            Err(error) => Err(IoError::Rejected(parse::Rejection::new(error))),
        }
    }
}

impl Default for VersionDecoder {
    fn default() -> (r: VersionDecoder)
        ensures
            r == (VersionDecoder {  }),
    {
        VersionDecoder::new()
    }
}

} // verus!
