//! Single packets: what is owed for one, how it is measured, and how a close is worded.

use crate::broker::packet;
use crate::broker::packet::{Disposition, Reply, Violation};
use crate::codec::encoder;
use crate::codec::id::{PacketId, PacketLimit};
use crate::codec::types::{
    DisconnectReasonCode, EncodeError, MqttPacket, PacketV3, PacketV5, Publish, QoS, ServerPacket,
    ServerPacketV3, ServerPacketV5,
};
use crate::codec::version::ProtocolVersion;
use crate::error::IoError;
use crate::laws::served;
use crate::laws::wire;
use vstd::prelude::*;

verus! {

/// A PUBLISH is handed on at the two lower qualities of service, and acknowledged under
/// its own packet identifier at the middle one, whatever the identifier. Without one it
/// cannot be acknowledged, and at the highest quality it is not taken at all.
pub proof fn law_publishes_are_owed_their_acknowledgement<'a>(
    received: &'a MqttPacket,
    publish: &'a Publish,
    d: Disposition<'a>,
)
    requires
        *received == MqttPacket::V3(PacketV3::Publish(*publish)) || *received == MqttPacket::V5(
            PacketV5::Publish(*publish),
        ),
        call_ensures(packet::dispatch, (received,), d),
    ensures
        match (publish.qos, publish.packet_id) {
            (QoS::AtMostOnce, _) => d matches Disposition::Deliver(p) && *p == *publish,
            (QoS::AtLeastOnce, Some(id)) => d matches Disposition::DeliverThenAck(p, i) && *p
                == *publish && i == id,
            (QoS::AtLeastOnce, None) => d == Disposition::Violation(
                Violation::PublishMissingPacketId,
            ),
            (QoS::ExactlyOnce, _) => d == Disposition::Violation(
                Violation::PublishQosAboveMaximum,
            ),
        },
{
}

/// A request is answered under its own packet identifier, for as many topic filters as it
/// names. One that names none breaks the protocol.
pub proof fn law_requests_are_owed_an_answer<'a>(
    received: &'a MqttPacket,
    packet_id: PacketId,
    filters: usize,
    d: Disposition<'a>,
)
    requires
        call_ensures(packet::dispatch, (received,), d),
    ensures
        *received == MqttPacket::V3(PacketV3::Subscribe { packet_id, filters }) || *received
            == MqttPacket::V5(PacketV5::Subscribe { packet_id, filters }) ==> if filters == 0 {
            d == Disposition::Violation(Violation::EmptyTopicFilterList)
        } else {
            d matches Disposition::Reply(Reply::SubscribeRefusal(id, n)) && id == packet_id && n@
                == filters
        },
        *received == MqttPacket::V3(PacketV3::Unsubscribe { packet_id, filters }) || *received
            == MqttPacket::V5(PacketV5::Unsubscribe { packet_id, filters }) ==> if filters == 0 {
            d == Disposition::Violation(Violation::EmptyTopicFilterList)
        } else {
            d matches Disposition::Reply(Reply::UnsubscribeAck(id, n)) && id == packet_id && n@
                == filters
        },
        *received == MqttPacket::V3(PacketV3::PingRequest) || *received == MqttPacket::V5(
            PacketV5::PingRequest,
        ) ==> d == Disposition::Reply(Reply::PingResponse),
        *received == MqttPacket::V3(PacketV3::Disconnect) || *received == MqttPacket::V5(
            PacketV5::Disconnect,
        ) ==> d is Close,
{
}

/// A packet that no client may send in a session is the violation that its type makes it.
pub proof fn law_packets_out_of_place_are_violations<'a>(
    received: &'a MqttPacket,
    d: Disposition<'a>,
)
    requires
        call_ensures(packet::dispatch, (received,), d),
    ensures
        match *received {
            MqttPacket::V3(PacketV3::Connect(_)) | MqttPacket::V5(PacketV5::Connect(_)) => d
                == Disposition::Violation(Violation::DuplicateConnect),
            MqttPacket::V3(
                PacketV3::ConnectAck
                | PacketV3::SubscribeAck
                | PacketV3::UnsubscribeAck
                | PacketV3::PingResponse,
            )
            | MqttPacket::V5(
                PacketV5::ConnectAck
                | PacketV5::SubscribeAck
                | PacketV5::UnsubscribeAck
                | PacketV5::PingResponse,
            ) => d == Disposition::Violation(Violation::ServerOnlyPacket),
            MqttPacket::V3(
                PacketV3::PublishReceived | PacketV3::PublishRelease | PacketV3::PublishComplete,
            )
            | MqttPacket::V5(
                PacketV5::PublishReceived | PacketV5::PublishRelease | PacketV5::PublishComplete,
            ) => d == Disposition::Violation(Violation::Qos2FlowNotImplemented),
            MqttPacket::V3(PacketV3::PublishAck) | MqttPacket::V5(PacketV5::PublishAck) => d
                == Disposition::Violation(Violation::PublishAckFromClient),
            MqttPacket::V5(PacketV5::Auth) => d == Disposition::Violation(
                Violation::AuthNotNegotiated,
            ),
            MqttPacket::Version(_) => d == Disposition::Violation(Violation::VersionProbe),
            _ => !(d matches Disposition::Violation(
                Violation::DuplicateConnect
                | Violation::ServerOnlyPacket
                | Violation::Qos2FlowNotImplemented
                | Violation::PublishAckFromClient
                | Violation::AuthNotNegotiated
                | Violation::VersionProbe,
            )),
        },
{
}

/// A reply is measured as the bytes that it is then written in, and has no size exactly
/// where it cannot be written.
pub proof fn law_replies_are_measured_as_written(
    reply: Reply,
    version: ProtocolVersion,
    size: Option<usize>,
    rendered: ServerPacket,
    written: Result<Vec<u8>, EncodeError>,
)
    requires
        call_ensures(Reply::encoded_len, (reply, version), size),
        call_ensures(Reply::render, (reply, version), rendered),
        call_ensures(encoder::encode_packet, (&rendered, version), written),
    ensures
        match written {
            Ok(bytes) => size matches Some(n) && n == bytes@.len(),
            Err(_) => size is None,
        },
{
    packet::lemma_rendered_len(reply, version, rendered);
}

/// A packet is measured as the bytes that it is then written in, and fits a limit exactly
/// where these bytes are no more than the limit. Without a limit every packet fits.
pub proof fn law_packets_are_measured_as_written(
    item: ServerPacket,
    version: ProtocolVersion,
    limit: Option<PacketLimit>,
    size: Option<usize>,
    fitting: bool,
    written: Result<Vec<u8>, EncodeError>,
)
    requires
        call_ensures(packet::encoded_len, (&item, version), size),
        call_ensures(packet::fits_max_packet_size, (&item, version, limit), fitting),
        call_ensures(encoder::encode_packet, (&item, version), written),
    ensures
        match written {
            Ok(bytes) => size matches Some(n) && n == bytes@.len(),
            Err(_) => size is None,
        },
        fitting <==> match (limit, written) {
            (None, _) => true,
            (Some(l), Ok(bytes)) => bytes@.len() <= l@,
            (Some(_), Err(_)) => false,
        },
{
}

/// A size fits a limit exactly where it is no more than the limit, and a packet that has
/// no size fits no limit.
pub proof fn law_sizes_are_held_against_the_limit(
    size: Option<usize>,
    limit: Option<PacketLimit>,
    r: bool,
)
    requires
        call_ensures(packet::fits_within, (size, limit), r),
    ensures
        limit is None ==> r,
        limit matches Some(l) ==> (r <==> (size matches Some(n) && n <= l@)),
{
}

/// A reply that its client cannot receive is a violation in its place, and no other is.
pub proof fn law_oversized_replies_are_violations(
    reply: Reply,
    version: ProtocolVersion,
    limit: Option<PacketLimit>,
    size: Option<usize>,
    r: Option<Violation>,
)
    requires
        call_ensures(Reply::encoded_len, (reply, version), size),
        call_ensures(packet::reply_over_max_packet_size, (reply, version, limit), r),
    ensures
        r is None || r == Some(Violation::ReplyOverMaxPacketSize),
        r is None <==> limit is None || (size is Some && size->Some_0 <= limit->Some_0@),
{
}

/// A reply in either version is the packet of that version with the bytes that are owed.
pub proof fn law_replies_are_rendered(
    reply: Reply,
    version: ProtocolVersion,
    rendered: ServerPacket,
)
    requires
        call_ensures(Reply::render, (reply, version), rendered),
    ensures
        match (reply, version) {
            (Reply::PingResponse, _) => wire::encodes(rendered, version, seq![0xD0u8, 0u8]),
            (Reply::PublishAck(id), ProtocolVersion::MQTT3) => wire::encodes(
                rendered,
                version,
                seq![0x40u8, 2u8, (id@ / 256) as u8, (id@ % 256) as u8],
            ),
            (Reply::PublishAck(id), ProtocolVersion::MQTT5) => wire::encodes(
                rendered,
                version,
                seq![0x40u8, 4u8, (id@ / 256) as u8, (id@ % 256) as u8, 0u8, 0u8],
            ),
            (Reply::UnsubscribeAck(id, _), ProtocolVersion::MQTT3) => wire::encodes(
                rendered,
                version,
                seq![0xB0u8, 2u8, (id@ / 256) as u8, (id@ % 256) as u8],
            ),
            (Reply::SubscribeRefusal(id, n), ProtocolVersion::MQTT3) => n@ <= 268_435_453
                ==> wire::encodes_as(
                rendered,
                version,
                0x90,
                seq![(id@ / 256) as u8, (id@ % 256) as u8] + Seq::new(n@ as nat, |i: int| 0x80u8),
            ),
            (Reply::SubscribeRefusal(id, n), ProtocolVersion::MQTT5) => n@ <= 268_435_452
                ==> wire::encodes_as(
                rendered,
                version,
                0x90,
                seq![(id@ / 256) as u8, (id@ % 256) as u8, 0u8] + Seq::new(
                    n@ as nat,
                    |i: int| 0x83u8,
                ),
            ),
            (Reply::UnsubscribeAck(id, n), ProtocolVersion::MQTT5) => n@ <= 268_435_452
                ==> wire::encodes_as(
                rendered,
                version,
                0xB0,
                seq![(id@ / 256) as u8, (id@ % 256) as u8, 0u8] + Seq::new(
                    n@ as nat,
                    |i: int| 0x11u8,
                ),
            ),
        },
{
    wire::law_ping_bytes();
    match reply {
        Reply::PingResponse => {},
        Reply::PublishAck(id) => {
            wire::law_puback_v3_bytes(id);
            wire::law_puback_v5_bytes(id);
        },
        Reply::SubscribeRefusal(_, _) | Reply::UnsubscribeAck(_, _) => match rendered {
            ServerPacket::V3(ServerPacketV3::SubscribeAck { packet_id, status }) => {
                wire::law_suback_v3_bytes(packet_id, status);
            },
            ServerPacket::V3(ServerPacketV3::UnsubscribeAck { packet_id }) => {
                wire::law_unsuback_v3_bytes(packet_id);
            },
            ServerPacket::V5(ServerPacketV5::SubscribeAck { packet_id, status }) => {
                wire::law_suback_v5_bytes(packet_id, status);
            },
            ServerPacket::V5(ServerPacketV5::UnsubscribeAck { packet_id, status }) => {
                wire::law_unsuback_v5_bytes(packet_id, status);
            },
            _ => {},
        },
    }
}

/// The close after a violation says a code on 5.0 and nothing on 3.1.1: malformed bytes,
/// a reply that is too large and a quality of service that is not served have codes of
/// their own, and all else is an error of the protocol.
pub proof fn law_closes_have_their_codes(
    violation: Violation,
    version: ProtocolVersion,
    r: Option<DisconnectReasonCode>,
)
    requires
        call_ensures(Violation::disconnect_reason_code, (violation, version), r),
    ensures
        version == ProtocolVersion::MQTT3 ==> r is None,
        version == ProtocolVersion::MQTT5 ==> r == Some(
            match violation {
                Violation::MalformedPacket => DisconnectReasonCode::MalformedPacket,
                Violation::ReplyOverMaxPacketSize => DisconnectReasonCode::PacketTooLarge,
                Violation::Qos2FlowNotImplemented | Violation::PublishQosAboveMaximum => {
                    DisconnectReasonCode::QosNotSupported
                },
                _ => DisconnectReasonCode::ProtocolError,
            },
        ),
{
}

/// The DISCONNECT of a close carries the code of the close. It goes to 5.0 clients that
/// can receive its four bytes, and to nobody else.
pub proof fn law_farewells_carry_the_code(
    violation: Violation,
    version: ProtocolVersion,
    limit: Option<PacketLimit>,
    code: Option<DisconnectReasonCode>,
    r: Option<ServerPacket>,
)
    requires
        call_ensures(Violation::disconnect_reason_code, (violation, version), code),
        call_ensures(Violation::disconnect, (violation, version, limit), r),
    ensures
        r is Some <==> version == ProtocolVersion::MQTT5 && served::receives(limit, 4),
        r matches Some(farewell) ==> (code matches Some(code) && wire::encodes(
            farewell,
            ProtocolVersion::MQTT5,
            seq![
                0xE0u8,
                2u8,
                match code {
                    DisconnectReasonCode::MalformedPacket => 0x81u8,
                    DisconnectReasonCode::ProtocolError => 0x82u8,
                    DisconnectReasonCode::PacketTooLarge => 0x95u8,
                    DisconnectReasonCode::QosNotSupported => 0x9Bu8,
                },
                0u8,
            ],
        )),
{
    wire::law_disconnect_bytes(violation.close_code());
}

/// Bytes that were rejected break the protocol, and a transport that failed does not,
/// whatever kind its failure has.
pub proof fn law_only_rejected_bytes_are_malformed(err: IoError, r: Option<Violation>)
    requires
        call_ensures(packet::classify_read_error, (&err,), r),
    ensures
        err is Rejected ==> r == Some(Violation::MalformedPacket),
        err is Transport ==> r is None,
{
}

} // verus!
