//! Decoding: the packet that comes out is the packet that went in, field by field, and
//! the bytes that are not part of it stay where they are.

use crate::buffer;
use crate::codec::decoder;
use crate::codec::decoder::{Decoded, MqttDecoder, VersionDecoder};
use crate::codec::parse;
use crate::codec::parse::{ClientPacket, ConnectFields, Decoding, PublishFields, Rejection};
use crate::codec::id::{FilterCount, PacketId, PacketLimit};
use crate::codec::types::{MqttPacket, PacketV3, PacketV5, Publish, QoS};
use crate::codec::version::ProtocolVersion;
use crate::error::IoError;
use bytes::BytesMut;
use rmqtt_codec::error::DecodeError;
use vstd::prelude::*;

verus! {

/// A number that is no zero is kept as it is, and zero is none.
pub proof fn law_numbers_are_kept(
    value: u16,
    id: Option<PacketId>,
    count: usize,
    filters: Option<FilterCount>,
    size: u32,
    limit: Option<PacketLimit>,
)
    requires
        call_ensures(PacketId::new, (value,), id),
        call_ensures(FilterCount::new, (count,), filters),
        call_ensures(PacketLimit::new, (size,), limit),
    ensures
        id is None <==> value == 0,
        forall|n: u16|
            id is Some && #[trigger] call_ensures(PacketId::get, (id->Some_0,), n) ==> n == value,
        filters is None <==> count == 0,
        forall|n: usize|
            filters is Some && #[trigger] call_ensures(FilterCount::get, (filters->Some_0,), n)
                ==> n == count,
        limit is None <==> size == 0,
        forall|n: u32|
            limit is Some && #[trigger] call_ensures(PacketLimit::get, (limit->Some_0,), n) ==> n
                == size,
{
}

/// Whether a PUBLISH has these values.
pub open spec fn is_publish(
    publish: Publish,
    qos: u8,
    topic: Seq<char>,
    packet_id: Option<u16>,
    payload: Seq<u8>,
) -> bool {
    &&& publish.qos == QoS::AtMostOnce <==> qos == 0
    &&& publish.qos == QoS::AtLeastOnce <==> qos == 1
    &&& publish.qos == QoS::ExactlyOnce <==> qos == 2
    &&& publish.topic@ == topic
    &&& publish.payload@ == payload
    &&& match packet_id {
        Some(n) => publish.packet_id matches Some(id) && id@ == n,
        None => publish.packet_id is None,
    }
}

/// A decoded PUBLISH keeps its quality of service, its topic, its packet identifier and
/// its payload.
pub proof fn law_publishes_are_decoded_in_full(
    decoder: &mut MqttDecoder,
    src: &mut BytesMut,
    r: Result<Decoded<(MqttPacket, u32)>, IoError>,
    qos: u8,
    topic: Seq<char>,
    packet_id: Option<u16>,
    payload: Seq<u8>,
    length: u32,
)
    requires
        call_ensures(MqttDecoder::decode, (decoder, src), r),
        parse::decoded(old(decoder).version, old(decoder).header@ + buffer::held(*old(src)))
            == Decoding::Packet(ClientPacket::Publish { qos, topic, packet_id, payload }, length),
    ensures
        r matches Ok(Decoded::Item((packet, n))) && n == length && match old(decoder).version {
            ProtocolVersion::MQTT3 => packet matches MqttPacket::V3(PacketV3::Publish(p))
                && is_publish(p, qos, topic, packet_id, payload),
            ProtocolVersion::MQTT5 => packet matches MqttPacket::V5(PacketV5::Publish(p))
                && is_publish(p, qos, topic, packet_id, payload),
        },
{
}

/// A decoded CONNECT keeps its fields: whether the session is clean, the keep-alive and
/// the client identifier, and on 5.0 also the authentication method and the limit.
pub proof fn law_connects_are_decoded_in_full(
    decoder: &mut MqttDecoder,
    src: &mut BytesMut,
    r: Result<Decoded<(MqttPacket, u32)>, IoError>,
    clean: bool,
    keep_alive: u16,
    client_id: Seq<char>,
    auth_method: Option<Seq<char>>,
    max_packet_size: Option<u32>,
    length: u32,
)
    requires
        call_ensures(MqttDecoder::decode, (decoder, src), r),
        parse::decoded(old(decoder).version, old(decoder).header@ + buffer::held(*old(src)))
            == Decoding::Packet(
            ClientPacket::Connect { clean, keep_alive, client_id, auth_method, max_packet_size },
            length,
        ),
        max_packet_size != Some(0u32),
    ensures
        r matches Ok(Decoded::Item((packet, n))) && n == length && match old(decoder).version {
            ProtocolVersion::MQTT3 => {
                &&& packet matches MqttPacket::V3(PacketV3::Connect(c))
                &&& c.clean_session == clean
                &&& c.keep_alive == keep_alive
                &&& c.client_id@ == client_id
            },
            ProtocolVersion::MQTT5 => {
                &&& packet matches MqttPacket::V5(PacketV5::Connect(c))
                &&& c.clean_start == clean
                &&& c.keep_alive == keep_alive
                &&& c.client_id@ == client_id
                &&& match auth_method {
                    Some(text) => c.auth_method matches Some(method) && method@ == text,
                    None => c.auth_method is None,
                }
                &&& match max_packet_size {
                    Some(n) => c.max_packet_size matches Some(limit) && limit@ == n,
                    None => c.max_packet_size is None,
                }
            },
        },
{
}

/// A decoded SUBSCRIBE or UNSUBSCRIBE keeps its packet identifier and the number of its
/// topic filters.
pub proof fn law_requests_are_decoded_in_full(
    decoder: &mut MqttDecoder,
    src: &mut BytesMut,
    r: Result<Decoded<(MqttPacket, u32)>, IoError>,
    subscribe: bool,
    packet_id: u16,
    filters: usize,
    length: u32,
)
    requires
        call_ensures(MqttDecoder::decode, (decoder, src), r),
        parse::decoded(old(decoder).version, old(decoder).header@ + buffer::held(*old(src)))
            == Decoding::Packet(
            if subscribe {
                ClientPacket::Subscribe { packet_id, filters }
            } else {
                ClientPacket::Unsubscribe { packet_id, filters }
            },
            length,
        ),
    ensures
        r matches Ok(Decoded::Item((packet, n))) && n == length && match (
            old(decoder).version,
            subscribe,
        ) {
            (ProtocolVersion::MQTT3, true) => {
                &&& packet matches MqttPacket::V3(PacketV3::Subscribe { packet_id: id, filters: m })
                &&& id@ == packet_id
                &&& m == filters
            },
            (ProtocolVersion::MQTT3, false) => {
                &&& packet matches MqttPacket::V3(
                    PacketV3::Unsubscribe { packet_id: id, filters: m },
                )
                &&& id@ == packet_id
                &&& m == filters
            },
            (ProtocolVersion::MQTT5, true) => {
                &&& packet matches MqttPacket::V5(PacketV5::Subscribe { packet_id: id, filters: m })
                &&& id@ == packet_id
                &&& m == filters
            },
            (ProtocolVersion::MQTT5, false) => {
                &&& packet matches MqttPacket::V5(
                    PacketV5::Unsubscribe { packet_id: id, filters: m },
                )
                &&& id@ == packet_id
                &&& m == filters
            },
        },
{
}

/// Whether a packet that the broker does not look into is the one that its first byte
/// says it is.
pub open spec fn is_bare(version: ProtocolVersion, first: u8, packet: MqttPacket) -> bool {
    match packet {
        MqttPacket::V3(p) => version == ProtocolVersion::MQTT3 && match p {
            PacketV3::ConnectAck => first == 0x20,
            PacketV3::PublishAck => first == 0x40,
            PacketV3::PublishReceived => first == 0x50,
            PacketV3::PublishRelease => first == 0x62,
            PacketV3::PublishComplete => first == 0x70,
            PacketV3::SubscribeAck => first == 0x90,
            PacketV3::UnsubscribeAck => first == 0xB0,
            PacketV3::PingRequest => first == 0xC0,
            PacketV3::PingResponse => first == 0xD0,
            PacketV3::Disconnect => first == 0xE0,
            _ => false,
        },
        MqttPacket::V5(p) => version == ProtocolVersion::MQTT5 && match p {
            PacketV5::ConnectAck => first == 0x20,
            PacketV5::PublishAck => first == 0x40,
            PacketV5::PublishReceived => first == 0x50,
            PacketV5::PublishRelease => first == 0x62,
            PacketV5::PublishComplete => first == 0x70,
            PacketV5::SubscribeAck => first == 0x90,
            PacketV5::UnsubscribeAck => first == 0xB0,
            PacketV5::PingRequest => first == 0xC0,
            PacketV5::PingResponse => first == 0xD0,
            PacketV5::Disconnect => first == 0xE0,
            PacketV5::Auth => first == 0xF0,
            _ => false,
        },
        MqttPacket::Version(_) => false,
    }
}

/// Any other packet that is decoded is the one that its first byte on the stream says.
pub proof fn law_bare_packets_are_what_their_first_byte_says(
    decoder: &mut MqttDecoder,
    src: &mut BytesMut,
    r: Result<Decoded<(MqttPacket, u32)>, IoError>,
    kind: u8,
    length: u32,
)
    requires
        call_ensures(MqttDecoder::decode, (decoder, src), r),
        parse::decoded(old(decoder).version, old(decoder).header@ + buffer::held(*old(src)))
            == Decoding::Packet(ClientPacket::Other(kind), length),
        kind != 0x30,
    ensures
        r matches Ok(Decoded::Item((packet, n))) && n == length && is_bare(
            old(decoder).version,
            kind,
            packet,
        ),
        (old(decoder).header@ + buffer::held(*old(src)))[0] == kind,
{
}

/// A rejection is passed on with its fault and its words, and as a rejection.
pub proof fn law_rejections_are_passed_on(
    decoder: &mut MqttDecoder,
    src: &mut BytesMut,
    r: Result<Decoded<(MqttPacket, u32)>, IoError>,
)
    requires
        call_ensures(MqttDecoder::decode, (decoder, src), r),
    ensures
        ({
            let all = old(decoder).header@ + buffer::held(*old(src));
            match parse::decoded(old(decoder).version, all) {
                Decoding::Rejected { fault, text } => {
                    &&& r matches Err(IoError::Rejected(rejection))
                    &&& rejection.fault == fault
                    &&& parse::fault(rejection.error) == fault
                    &&& rejection.text@ == text
                },
                _ => r is Ok,
            }
        }),
{
}

/// No byte is lost or made up. Where more bytes are needed the stream is what it was.
/// Where a packet comes out exactly its bytes are gone, as its own length field counts
/// them, and nothing is held back. The decoder keeps its version.
pub proof fn law_no_byte_is_lost(
    decoder: &mut MqttDecoder,
    src: &mut BytesMut,
    r: Result<Decoded<(MqttPacket, u32)>, IoError>,
)
    requires
        call_ensures(MqttDecoder::decode, (decoder, src), r),
    ensures
        final(decoder).version == old(decoder).version,
        ({
            let all = old(decoder).header@ + buffer::held(*old(src));
            match r {
                Ok(Decoded::Insufficient) => final(decoder).header@ + buffer::held(*final(src))
                    == all,
                Ok(Decoded::Item((_, length))) => {
                    &&& final(decoder).header@.len() == 0
                    &&& parse::length_field(all) matches Some((rest, size))
                    &&& rest == length
                    &&& 1 + size + rest <= all.len()
                    &&& buffer::held(*final(src)) == all.skip((1 + size + rest) as int)
                },
                Err(_) => match parse::length_field(all) {
                    Some((rest, size)) => {
                        &&& 1 + size + rest <= all.len()
                        &&& final(decoder).header@ == all.take((1 + size) as int)
                        &&& buffer::held(*final(src)) == all.skip((1 + size + rest) as int)
                    },
                    None => {
                        &&& all.len() >= 5
                        &&& final(decoder).header@.len() == 0
                        &&& buffer::held(*final(src)) == all
                    },
                },
            }
        }),
{
    let all = old(decoder).header@ + buffer::held(*old(src));
    assert(all.skip(0) == all);
    assert(Seq::<u8>::empty() + all == all);
    if let parse::Framing::Partial(header) = parse::framing(all) {
        assert(all.take(header as int) + all.skip(header as int) == all);
    }
}

/// More bytes are asked for exactly while the first packet is not all there: its header,
/// of at most five bytes, or as many bytes behind it as the header counts.
pub proof fn law_more_is_asked_for_while_a_packet_is_not_whole(
    decoder: &mut MqttDecoder,
    src: &mut BytesMut,
    r: Result<Decoded<(MqttPacket, u32)>, IoError>,
)
    requires
        call_ensures(MqttDecoder::decode, (decoder, src), r),
    ensures
        ({
            let all = old(decoder).header@ + buffer::held(*old(src));
            (r matches Ok(Decoded::Insufficient)) <==> match parse::length_field(all) {
                Some((rest, size)) => all.len() < 1 + size + rest,
                None => all.len() < 5,
            }
        }),
{
}

/// A decoder begins with nothing held back, in the version that it was made for.
pub proof fn law_decoders_begin_empty(
    version: ProtocolVersion,
    decoder: MqttDecoder,
    v3: MqttDecoder,
    v5: MqttDecoder,
)
    requires
        call_ensures(MqttDecoder::new, (version,), decoder),
        call_ensures(MqttDecoder::v3, (), v3),
        call_ensures(MqttDecoder::v5, (), v5),
    ensures
        decoder.version == version,
        v3.version == ProtocolVersion::MQTT3,
        v5.version == ProtocolVersion::MQTT5,
        decoder.header@.len() == 0 && v3.header@.len() == 0 && v5.header@.len() == 0,
{
}

/// The version of a stream is the one that its first packet names, and a stream that does
/// not begin with a CONNECT has none.
pub proof fn law_versions_are_told_by_the_first_packet(
    decoder: VersionDecoder,
    src: BytesMut,
    r: Result<Decoded<ProtocolVersion>, IoError>,
)
    requires
        call_ensures(VersionDecoder::decode, (&decoder, &src), r),
    ensures
        match parse::detected(buffer::held(src)) {
            Ok(Some(version)) => r matches Ok(Decoded::Item(told)) && told == version,
            Ok(None) => r matches Ok(Decoded::Insufficient),
            Err((fault, text)) => {
                &&& r matches Err(IoError::Rejected(rejection))
                &&& rejection.fault == fault
                &&& parse::fault(rejection.error) == fault
                &&& rejection.text@ == text
            },
        },
        r matches Ok(Decoded::Item(_)) ==> buffer::held(src).len() >= 2 && buffer::held(src)[0]
            == 0x10,
        buffer::held(src).len() < 2 ==> (r matches Ok(Decoded::Insufficient)),
        buffer::held(src).len() >= 5 && buffer::held(src)[0] != 0x10 ==> r is Err,
{
}

/// A rejection keeps the error that it was made of, with its fault and its words.
pub proof fn law_rejections_keep_their_error(error: DecodeError, r: Rejection)
    requires
        call_ensures(Rejection::new, (error,), r),
    ensures
        r.error == error,
        r.fault == parse::fault(error),
        r.text@ == parse::words(error),
{
}

/// A packet that is put together from fields has these fields, in the version that was
/// asked for. Zero is no limit and no packet identifier, and there is no packet where the
/// protocol knows none.
pub proof fn law_packets_have_their_fields(
    version: ProtocolVersion,
    connect: ConnectFields,
    connect_packet: MqttPacket,
    publish: PublishFields,
    publish_packet: Option<MqttPacket>,
    subscribe: bool,
    packet_id: u16,
    filters: usize,
    filters_packet: Option<MqttPacket>,
    kind: u8,
    bare_packet: Option<MqttPacket>,
)
    requires
        call_ensures(decoder::connect_packet, (version, connect), connect_packet),
        call_ensures(decoder::publish_packet, (version, publish), publish_packet),
        call_ensures(
            decoder::filters_packet,
            (version, subscribe, packet_id, filters),
            filters_packet,
        ),
        call_ensures(decoder::bare_packet, (version, kind), bare_packet),
    ensures
        match version {
            ProtocolVersion::MQTT3 => {
                &&& connect_packet matches MqttPacket::V3(PacketV3::Connect(c))
                &&& c.clean_session == connect.clean
                &&& c.keep_alive == connect.keep_alive
                &&& c.client_id@ == connect.client_id@
            },
            ProtocolVersion::MQTT5 => {
                &&& connect_packet matches MqttPacket::V5(PacketV5::Connect(c))
                &&& c.clean_start == connect.clean
                &&& c.keep_alive == connect.keep_alive
                &&& c.client_id@ == connect.client_id@
                &&& c.auth_method == connect.auth_method
                &&& match connect.max_packet_size {
                    Some(n) => match c.max_packet_size {
                        Some(limit) => n != 0 && limit@ == n,
                        None => n == 0,
                    },
                    None => c.max_packet_size is None,
                }
            },
        },
        publish_packet is None <==> publish.qos > 2,
        publish_packet matches Some(packet) ==> {
            let id = if publish.packet_id == Some(0u16) {
                None
            } else {
                publish.packet_id
            };
            match version {
                ProtocolVersion::MQTT3 => packet matches MqttPacket::V3(PacketV3::Publish(p))
                    && is_publish(p, publish.qos, publish.topic@, id, publish.payload@),
                ProtocolVersion::MQTT5 => packet matches MqttPacket::V5(PacketV5::Publish(p))
                    && is_publish(p, publish.qos, publish.topic@, id, publish.payload@),
            }
        },
        filters_packet is None <==> packet_id == 0,
        filters_packet matches Some(packet) ==> match packet {
            MqttPacket::V3(PacketV3::Subscribe { packet_id: id, filters: n }) => version
                == ProtocolVersion::MQTT3 && subscribe && id@ == packet_id && n == filters,
            MqttPacket::V3(PacketV3::Unsubscribe { packet_id: id, filters: n }) => version
                == ProtocolVersion::MQTT3 && !subscribe && id@ == packet_id && n == filters,
            MqttPacket::V5(PacketV5::Subscribe { packet_id: id, filters: n }) => version
                == ProtocolVersion::MQTT5 && subscribe && id@ == packet_id && n == filters,
            MqttPacket::V5(PacketV5::Unsubscribe { packet_id: id, filters: n }) => version
                == ProtocolVersion::MQTT5 && !subscribe && id@ == packet_id && n == filters,
            _ => false,
        },
        bare_packet matches Some(packet) ==> is_bare(version, kind, packet),
        bare_packet is None <==> !(kind == 0x20 || kind == 0x40 || kind == 0x50 || kind == 0x62
            || kind == 0x70 || kind == 0x90 || kind == 0xB0 || kind == 0xC0 || kind == 0xD0 || kind
            == 0xE0 || kind == 0xF0 && version == ProtocolVersion::MQTT5),
{
}

} // verus!
