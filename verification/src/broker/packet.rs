//! What the broker owes for one packet of an established session.

use crate::broker::handshake::MAX_QOS;
use crate::codec::encoder;
use crate::codec::id::{FilterCount, PacketId, PacketLimit};
use crate::codec::types::{
    DisconnectReasonCode, MqttPacket, PacketV3, PacketV5, Publish, PublishAckReason, QoS,
    ServerPacket, ServerPacketV3, ServerPacketV5, SubscribeAckReason, SubscribeReturnCode,
    UnsubscribeAckReason,
};
use crate::codec::version::ProtocolVersion;
use crate::codec::wire;
use crate::error::IoError;
use vstd::prelude::*;

verus! {

/// What a stalled PINGRESP is reported as.
pub const TIMEOUT_CTX_PINGRESP_FLUSH: &'static str = "idle timeout during PINGRESP flush";

/// What a stalled PUBACK is reported as.
pub const TIMEOUT_CTX_PUBACK_FLUSH: &'static str = "idle timeout during PUBACK flush";

/// What a stalled SUBACK is reported as.
pub const TIMEOUT_CTX_SUBACK_FLUSH: &'static str = "idle timeout during SUBACK flush";

/// What a stalled UNSUBACK is reported as.
pub const TIMEOUT_CTX_UNSUBACK_FLUSH: &'static str = "idle timeout during UNSUBACK flush";

/// A reply that the broker owes a client, before it takes the form of a
/// protocol version.
#[derive(Debug, Clone, Copy, PartialEq, Eq, Structural)]
pub enum Reply {
    PingResponse,
    PublishAck(PacketId),
    /// Every one of the requested topic filters is refused.
    SubscribeRefusal(PacketId, FilterCount),
    /// Every one of the named topic filters is acknowledged. A 3.1.1 UNSUBACK
    /// does not say how many they were.
    UnsubscribeAck(PacketId, FilterCount),
}

/// A breach of the protocol: it closes the connection.
#[derive(Debug, Clone, Copy, PartialEq, Eq, Structural)]
pub enum Violation {
    /// A second CONNECT on an established session.
    DuplicateConnect,
    /// A PUBLISH that asks for an acknowledgement and has no packet identifier.
    PublishMissingPacketId,
    /// A SUBSCRIBE or UNSUBSCRIBE without a topic filter.
    EmptyTopicFilterList,
    /// The reply that the request calls for is larger than the client can
    /// receive.
    ReplyOverMaxPacketSize,
    /// A packet that only servers send.
    ServerOnlyPacket,
    /// PUBREC, PUBREL or PUBCOMP.
    Qos2FlowNotImplemented,
    /// A PUBACK to a server that publishes nothing.
    PublishAckFromClient,
    /// AUTH where no authentication method was agreed on.
    AuthNotNegotiated,
    /// A PUBLISH above `MAX_QOS`.
    PublishQosAboveMaximum,
    /// Bytes that are no packet.
    MalformedPacket,
    /// A bare protocol version in place of a packet.
    VersionProbe,
}

impl Reply {
    /// What this reply is reported as when its flush stalls.
    pub open spec fn context(self) -> &'static str {
        match self {
            Reply::PingResponse => TIMEOUT_CTX_PINGRESP_FLUSH,
            Reply::PublishAck(_) => TIMEOUT_CTX_PUBACK_FLUSH,
            Reply::SubscribeRefusal(_, _) => TIMEOUT_CTX_SUBACK_FLUSH,
            Reply::UnsubscribeAck(_, _) => TIMEOUT_CTX_UNSUBACK_FLUSH,
        }
    }

    /// What this reply is reported as when its flush stalls.
    pub fn timeout_context(self) -> (r: &'static str)
        ensures
            r == self.context(),
    {
        match self {
            Reply::PingResponse => TIMEOUT_CTX_PINGRESP_FLUSH,
            Reply::PublishAck(_) => TIMEOUT_CTX_PUBACK_FLUSH,
            Reply::SubscribeRefusal(_, _) => TIMEOUT_CTX_SUBACK_FLUSH,
            Reply::UnsubscribeAck(_, _) => TIMEOUT_CTX_UNSUBACK_FLUSH,
        }
    }

    /// Whether `packet` is this reply in the form of `version`: one refusal code
    /// a filter, one acknowledgement code a filter, the identifier of the
    /// request.
    pub open spec fn rendered(self, version: ProtocolVersion, packet: ServerPacket) -> bool {
        match (self, version) {
            (Reply::PingResponse, ProtocolVersion::MQTT3) => packet == ServerPacket::V3(
                ServerPacketV3::PingResponse,
            ),
            (Reply::PingResponse, ProtocolVersion::MQTT5) => packet == ServerPacket::V5(
                ServerPacketV5::PingResponse,
            ),
            (Reply::PublishAck(id), ProtocolVersion::MQTT3) => packet == ServerPacket::V3(
                ServerPacketV3::PublishAck { packet_id: id },
            ),
            (Reply::PublishAck(id), ProtocolVersion::MQTT5) => packet == ServerPacket::V5(
                ServerPacketV5::PublishAck {
                    packet_id: id,
                    reason_code: PublishAckReason::Success,
                },
            ),
            (Reply::SubscribeRefusal(id, count), ProtocolVersion::MQTT3) => {
                &&& packet matches ServerPacket::V3(
                    ServerPacketV3::SubscribeAck { packet_id, status },
                )
                &&& packet_id == id
                &&& status@ == Seq::new(count@ as nat, |i: int| SubscribeReturnCode::Failure)
            },
            (Reply::SubscribeRefusal(id, count), ProtocolVersion::MQTT5) => {
                &&& packet matches ServerPacket::V5(
                    ServerPacketV5::SubscribeAck { packet_id, status },
                )
                &&& packet_id == id
                &&& status@ == Seq::new(
                    count@ as nat,
                    |i: int| SubscribeAckReason::ImplementationSpecificError,
                )
            },
            (Reply::UnsubscribeAck(id, _), ProtocolVersion::MQTT3) => packet == ServerPacket::V3(
                ServerPacketV3::UnsubscribeAck { packet_id: id },
            ),
            (Reply::UnsubscribeAck(id, count), ProtocolVersion::MQTT5) => {
                &&& packet matches ServerPacket::V5(
                    ServerPacketV5::UnsubscribeAck { packet_id, status },
                )
                &&& packet_id == id
                &&& status@ == Seq::new(
                    count@ as nat,
                    |i: int| UnsubscribeAckReason::NoSubscriptionExisted,
                )
            },
        }
    }

    /// The reply in the form of `version`.
    pub fn render(self, version: ProtocolVersion) -> (packet: ServerPacket)
        ensures
            self.rendered(version, packet),
    {
        match (self, version) {
            (Reply::PingResponse, ProtocolVersion::MQTT3) => ServerPacket::V3(
                ServerPacketV3::PingResponse,
            ),
            (Reply::PingResponse, ProtocolVersion::MQTT5) => ServerPacket::V5(
                ServerPacketV5::PingResponse,
            ),
            (Reply::PublishAck(packet_id), ProtocolVersion::MQTT3) => ServerPacket::V3(
                ServerPacketV3::PublishAck { packet_id },
            ),
            (Reply::PublishAck(packet_id), ProtocolVersion::MQTT5) => ServerPacket::V5(
                ServerPacketV5::PublishAck { packet_id, reason_code: PublishAckReason::Success },
            ),
            (Reply::SubscribeRefusal(packet_id, filters), ProtocolVersion::MQTT3) => {
                let status = repeat(SubscribeReturnCode::Failure, filters.get());
                ServerPacket::V3(ServerPacketV3::SubscribeAck { packet_id, status })
            },
            (Reply::SubscribeRefusal(packet_id, filters), ProtocolVersion::MQTT5) => {
                let status = repeat(SubscribeAckReason::ImplementationSpecificError, filters.get());
                ServerPacket::V5(ServerPacketV5::SubscribeAck { packet_id, status })
            },
            (Reply::UnsubscribeAck(packet_id, _), ProtocolVersion::MQTT3) => ServerPacket::V3(
                ServerPacketV3::UnsubscribeAck { packet_id },
            ),
            (Reply::UnsubscribeAck(packet_id, filters), ProtocolVersion::MQTT5) => {
                let status = repeat(UnsubscribeAckReason::NoSubscriptionExisted, filters.get());
                ServerPacket::V5(ServerPacketV5::UnsubscribeAck { packet_id, status })
            },
        }
    }

    /// How many bytes follow the fixed header of this reply.
    pub open spec fn remaining_length(self, version: ProtocolVersion) -> nat {
        match (self, version) {
            (Reply::PingResponse, _) => 0,
            (Reply::PublishAck(_), ProtocolVersion::MQTT3) => 2,
            (Reply::PublishAck(_), ProtocolVersion::MQTT5) => 4,
            (Reply::SubscribeRefusal(_, count), ProtocolVersion::MQTT3) => 2 + count@ as nat,
            (Reply::SubscribeRefusal(_, count), ProtocolVersion::MQTT5) => 3 + count@ as nat,
            (Reply::UnsubscribeAck(_, _), ProtocolVersion::MQTT3) => 2,
            (Reply::UnsubscribeAck(_, count), ProtocolVersion::MQTT5) => 3 + count@ as nat,
        }
    }

    /// How many bytes this reply takes on the wire, if it has a wire form.
    pub open spec fn wire_len(self, version: ProtocolVersion) -> Option<nat> {
        framed_len(self.remaining_length(version))
    }

    /// How many bytes this reply takes on the wire, or `None` when it cannot be
    /// encoded at all. Measured on the encoded packet.
    pub fn encoded_len(self, version: ProtocolVersion) -> (r: Option<usize>)
        ensures
            len_is(r, self.wire_len(version)),
    {
        match self {
            Reply::SubscribeRefusal(_, count) | Reply::UnsubscribeAck(_, count) => {
                if count.get() > wire::MAX_REMAINING_LENGTH && !(matches!(
                    version,
                    ProtocolVersion::MQTT3
                ) && matches!(self, Reply::UnsubscribeAck(_, _))) {
                    return None;
                }
            },
            _ => {},
        }
        let packet = self.render(version);
        proof {
            lemma_rendered_len(self, version, packet);
        }
        encoded_len(&packet, version)
    }
}

/// `count` copies of `value`.
fn repeat<T: Copy>(value: T, count: usize) -> (r: Vec<T>)
    ensures
        r@ == Seq::new(count as nat, |i: int| value),
{
    let mut r: Vec<T> = Vec::new();
    let mut i: usize = 0;
    while i < count
        invariant
            i <= count,
            r@ == Seq::new(i as nat, |j: int| value),
        decreases count - i,
    {
        r.push(value);
        i = i + 1;
    }
    r
}

/// The length of a packet with the given remaining length: one byte of type,
/// the length field, the rest. `None` where the length field cannot say it.
pub open spec fn framed_len(rest: nat) -> Option<nat> {
    if rest <= wire::MAX_REMAINING_LENGTH {
        Some(1 + wire::var_int(rest).len() + rest)
    } else {
        None
    }
}

/// Whether `r` is the length `len`.
pub open spec fn len_is(r: Option<usize>, len: Option<nat>) -> bool {
    match len {
        Some(n) => r matches Some(m) && m == n,
        None => r is None,
    }
}

/// The length of a packet's wire form, if it has one.
pub open spec fn wire_len(packet: ServerPacket, version: ProtocolVersion) -> Option<nat> {
    match encoder::wire_form(packet, version) {
        Ok(bytes) => Some(bytes.len()),
        Err(_) => None,
    }
}

/// The wire form of a rendered reply is as long as the reply's layout says.
pub proof fn lemma_rendered_len(reply: Reply, version: ProtocolVersion, packet: ServerPacket)
    requires
        reply.rendered(version, packet),
    ensures
        wire_len(packet, version) == reply.wire_len(version),
{
}

/// How many bytes `packet` takes on the wire under the codec of `version`, or
/// `None` when it cannot be encoded at all. Measured by encoding.
pub fn encoded_len(packet: &ServerPacket, version: ProtocolVersion) -> (r: Option<usize>)
    ensures
        len_is(r, wire_len(*packet, version)),
{
    match encoder::encode_packet(packet, version) {
        Ok(bytes) => Some(bytes.len()),
        Err(_) => None,
    }
}

/// Whether a packet of the given length may be sent under the given limit. No
/// limit admits every packet; a limit admits only packets that have a length,
/// and that length may reach it.
pub open spec fn fits(len: Option<nat>, limit: Option<PacketLimit>) -> bool {
    match limit {
        None => true,
        Some(limit) => len matches Some(n) && n <= limit@,
    }
}

/// A measured length as a number.
pub open spec fn as_nat(len: Option<usize>) -> Option<nat> {
    match len {
        Some(n) => Some(n as nat),
        None => None,
    }
}

/// Whether a packet measuring `len` may be sent to a client that declared
/// `max_packet_size`.
pub fn fits_within(len: Option<usize>, max_packet_size: Option<PacketLimit>) -> (r: bool)
    ensures
        r == fits(as_nat(len), max_packet_size),
{
    let limit = match max_packet_size {
        Some(limit) => limit.get(),
        None => return true,
    };
    match len {
        Some(len) => len as u64 <= limit as u64,
        None => false,
    }
}

/// Whether `packet` may be sent to a client that declared `max_packet_size`.
pub fn fits_max_packet_size(
    packet: &ServerPacket,
    version: ProtocolVersion,
    max_packet_size: Option<PacketLimit>,
) -> (r: bool)
    ensures
        r == fits(wire_len(*packet, version), max_packet_size),
{
    fits_within(encoded_len(packet, version), max_packet_size)
}

/// The size rule for replies: a reply that the client cannot receive is
/// a violation in its place.
pub fn reply_over_max_packet_size(
    reply: Reply,
    version: ProtocolVersion,
    max_packet_size: Option<PacketLimit>,
) -> (r: Option<Violation>)
    ensures
        r == if fits(reply.wire_len(version), max_packet_size) {
            None
        } else {
            Some(Violation::ReplyOverMaxPacketSize)
        },
{
    if fits_within(reply.encoded_len(version), max_packet_size) {
        None
    } else {
        Some(Violation::ReplyOverMaxPacketSize)
    }
}

impl Violation {
    /// The reason clause of the line that reports the violation.
    pub open spec fn reason_text(self) -> &'static str {
        match self {
            Violation::DuplicateConnect => "protocol violation: duplicate CONNECT",
            Violation::PublishMissingPacketId =>
            "protocol violation: PUBLISH at QoS 1 or above without a packet id",
            Violation::EmptyTopicFilterList => "protocol violation: empty topic filter list",
            Violation::ReplyOverMaxPacketSize =>
            "protocol violation: reply exceeds the client's maximum packet size",
            Violation::ServerOnlyPacket =>
            "protocol violation: server-to-client packet from a client",
            Violation::Qos2FlowNotImplemented =>
            "protocol violation: QoS 2 flow packet, receiver flow not implemented",
            Violation::PublishAckFromClient =>
            "protocol violation: PUBACK from a client this server never publishes to",
            Violation::AuthNotNegotiated =>
            "protocol violation: AUTH without a negotiated authentication method",
            Violation::PublishQosAboveMaximum =>
            "protocol violation: PUBLISH above the advertised maximum QoS",
            Violation::MalformedPacket => "protocol violation: malformed packet",
            Violation::VersionProbe =>
            "protocol violation: codec yielded a bare protocol-version item",
        }
    }

    /// The reason clause of the line that reports the violation.
    pub fn reason(self) -> (r: &'static str)
        ensures
            r@ == self.reason_text()@,
    {
        match self {
            Violation::DuplicateConnect => "protocol violation: duplicate CONNECT",
            Violation::PublishMissingPacketId =>
            "protocol violation: PUBLISH at QoS 1 or above without a packet id",
            Violation::EmptyTopicFilterList => "protocol violation: empty topic filter list",
            Violation::ReplyOverMaxPacketSize =>
            "protocol violation: reply exceeds the client's maximum packet size",
            Violation::ServerOnlyPacket =>
            "protocol violation: server-to-client packet from a client",
            Violation::Qos2FlowNotImplemented =>
            "protocol violation: QoS 2 flow packet, receiver flow not implemented",
            Violation::PublishAckFromClient =>
            "protocol violation: PUBACK from a client this server never publishes to",
            Violation::AuthNotNegotiated =>
            "protocol violation: AUTH without a negotiated authentication method",
            Violation::PublishQosAboveMaximum =>
            "protocol violation: PUBLISH above the advertised maximum QoS",
            Violation::MalformedPacket => "protocol violation: malformed packet",
            Violation::VersionProbe =>
            "protocol violation: codec yielded a bare protocol-version item",
        }
    }

    /// The reason code of a 5.0 close.
    pub open spec fn close_code(self) -> DisconnectReasonCode {
        match self {
            Violation::MalformedPacket => DisconnectReasonCode::MalformedPacket,
            Violation::ReplyOverMaxPacketSize => DisconnectReasonCode::PacketTooLarge,
            Violation::Qos2FlowNotImplemented => DisconnectReasonCode::QosNotSupported,
            Violation::PublishQosAboveMaximum => DisconnectReasonCode::QosNotSupported,
            _ => DisconnectReasonCode::ProtocolError,
        }
    }

    /// The reason code that this violation closes with. MQTT 3.1.1 has none: a
    /// server does not send DISCONNECT there.
    pub fn disconnect_reason_code(self, version: ProtocolVersion) -> (r: Option<
        DisconnectReasonCode,
    >)
        ensures
            r == match version {
                ProtocolVersion::MQTT3 => None,
                ProtocolVersion::MQTT5 => Some(self.close_code()),
            },
    {
        match (self, version) {
            (_, ProtocolVersion::MQTT3) => None,
            (
                Violation::DuplicateConnect
                | Violation::PublishMissingPacketId
                | Violation::EmptyTopicFilterList
                | Violation::ServerOnlyPacket
                | Violation::PublishAckFromClient
                | Violation::AuthNotNegotiated
                | Violation::VersionProbe,
                ProtocolVersion::MQTT5,
            ) => Some(DisconnectReasonCode::ProtocolError),
            (Violation::MalformedPacket, ProtocolVersion::MQTT5) => Some(
                DisconnectReasonCode::MalformedPacket,
            ),
            (Violation::ReplyOverMaxPacketSize, ProtocolVersion::MQTT5) => Some(
                DisconnectReasonCode::PacketTooLarge,
            ),
            (
                Violation::Qos2FlowNotImplemented | Violation::PublishQosAboveMaximum,
                ProtocolVersion::MQTT5,
            ) => Some(DisconnectReasonCode::QosNotSupported),
        }
    }

    /// The DISCONNECT that the close sends: on 5.0, to a client that can receive
    /// its four bytes.
    pub open spec fn farewell(
        self,
        version: ProtocolVersion,
        max_packet_size: Option<PacketLimit>,
    ) -> Option<ServerPacket> {
        if version == ProtocolVersion::MQTT5 && fits(Some(4), max_packet_size) {
            Some(
                ServerPacket::V5(ServerPacketV5::Disconnect { reason_code: self.close_code() }),
            )
        } else {
            None
        }
    }

    /// The DISCONNECT that the close sends, if any. It obeys the limit that the
    /// client declared, as every other packet does.
    pub fn disconnect(self, version: ProtocolVersion, max_packet_size: Option<PacketLimit>) -> (r:
        Option<ServerPacket>)
        ensures
            r == self.farewell(version, max_packet_size),
    {
        let reason_code = match self.disconnect_reason_code(version) {
            Some(code) => code,
            None => return None,
        };
        let packet = ServerPacket::V5(ServerPacketV5::Disconnect { reason_code });
        if fits_max_packet_size(&packet, version, max_packet_size) {
            Some(packet)
        } else {
            None
        }
    }
}

/// Tells a breach of the protocol from a failure of the transport: only bytes
/// that a decoder rejected are a violation, whatever kind the error has.
pub fn classify_read_error(err: &IoError) -> (r: Option<Violation>)
    ensures
        r == match *err {
            IoError::Rejected(_) => Some(Violation::MalformedPacket),
            IoError::Transport { .. } => None,
        },
{
    match err {
        IoError::Rejected(_) => Some(Violation::MalformedPacket),
        IoError::Transport { .. } => None,
    }
}

/// What the broker does for one packet.
#[derive(Debug)]
pub enum Disposition<'a> {
    /// Hand the payload on, then read on.
    Deliver(&'a Publish),
    /// Hand the payload on, and only after that acknowledge it.
    DeliverThenAck(&'a Publish, PacketId),
    /// Send the reply, then read on.
    Reply(Reply),
    /// The client takes its leave.
    Close,
    /// Close the connection on a violation.
    Violation(Violation),
}

/// A packet without the difference between the protocol versions.
pub enum PacketKind {
    Connect,
    Publish(Publish),
    Subscribe(PacketId, usize),
    Unsubscribe(PacketId, usize),
    PingRequest,
    Disconnect,
    /// CONNACK, SUBACK, UNSUBACK, PINGRESP.
    ServerOnly,
    /// PUBREC, PUBREL, PUBCOMP.
    Qos2Flow,
    PublishAck,
    Auth,
    VersionProbe,
}

/// The kind of a packet.
pub open spec fn kind_of(packet: MqttPacket) -> PacketKind {
    match packet {
        MqttPacket::V3(PacketV3::Connect(_)) => PacketKind::Connect,
        MqttPacket::V5(PacketV5::Connect(_)) => PacketKind::Connect,
        MqttPacket::V3(PacketV3::Publish(p)) => PacketKind::Publish(p),
        MqttPacket::V5(PacketV5::Publish(p)) => PacketKind::Publish(p),
        MqttPacket::V3(PacketV3::Subscribe { packet_id, filters }) => PacketKind::Subscribe(
            packet_id,
            filters,
        ),
        MqttPacket::V5(PacketV5::Subscribe { packet_id, filters }) => PacketKind::Subscribe(
            packet_id,
            filters,
        ),
        MqttPacket::V3(PacketV3::Unsubscribe { packet_id, filters }) => PacketKind::Unsubscribe(
            packet_id,
            filters,
        ),
        MqttPacket::V5(PacketV5::Unsubscribe { packet_id, filters }) => PacketKind::Unsubscribe(
            packet_id,
            filters,
        ),
        MqttPacket::V3(PacketV3::PingRequest) => PacketKind::PingRequest,
        MqttPacket::V5(PacketV5::PingRequest) => PacketKind::PingRequest,
        MqttPacket::V3(PacketV3::Disconnect) => PacketKind::Disconnect,
        MqttPacket::V5(PacketV5::Disconnect) => PacketKind::Disconnect,
        MqttPacket::V3(PacketV3::PublishReceived) => PacketKind::Qos2Flow,
        MqttPacket::V5(PacketV5::PublishReceived) => PacketKind::Qos2Flow,
        MqttPacket::V3(PacketV3::PublishRelease) => PacketKind::Qos2Flow,
        MqttPacket::V5(PacketV5::PublishRelease) => PacketKind::Qos2Flow,
        MqttPacket::V3(PacketV3::PublishComplete) => PacketKind::Qos2Flow,
        MqttPacket::V5(PacketV5::PublishComplete) => PacketKind::Qos2Flow,
        MqttPacket::V3(PacketV3::PublishAck) => PacketKind::PublishAck,
        MqttPacket::V5(PacketV5::PublishAck) => PacketKind::PublishAck,
        MqttPacket::V5(PacketV5::Auth) => PacketKind::Auth,
        MqttPacket::Version(_) => PacketKind::VersionProbe,
        _ => PacketKind::ServerOnly,
    }
}

/// Whether `d` is what the broker does for a packet of the given kind.
pub open spec fn disposition_is(kind: PacketKind, d: Disposition) -> bool {
    match kind {
        PacketKind::Connect => d == Disposition::Violation(Violation::DuplicateConnect),
        PacketKind::Publish(publish) => if publish.qos.level() > MAX_QOS.level() {
            d == Disposition::Violation(Violation::PublishQosAboveMaximum)
        } else if publish.qos == QoS::AtMostOnce {
            d == Disposition::Deliver(&publish)
        } else {
            match publish.packet_id {
                Some(id) => d == Disposition::DeliverThenAck(&publish, id),
                None => d == Disposition::Violation(Violation::PublishMissingPacketId),
            }
        },
        PacketKind::Subscribe(id, filters) => if filters == 0 {
            d == Disposition::Violation(Violation::EmptyTopicFilterList)
        } else {
            d matches Disposition::Reply(Reply::SubscribeRefusal(i, n)) && i == id && n@ == filters
        },
        PacketKind::Unsubscribe(id, filters) => if filters == 0 {
            d == Disposition::Violation(Violation::EmptyTopicFilterList)
        } else {
            d matches Disposition::Reply(Reply::UnsubscribeAck(i, n)) && i == id && n@ == filters
        },
        PacketKind::PingRequest => d == Disposition::Reply(Reply::PingResponse),
        PacketKind::Disconnect => d is Close,
        PacketKind::ServerOnly => d == Disposition::Violation(Violation::ServerOnlyPacket),
        PacketKind::Qos2Flow => d == Disposition::Violation(Violation::Qos2FlowNotImplemented),
        PacketKind::PublishAck => d == Disposition::Violation(Violation::PublishAckFromClient),
        PacketKind::Auth => d == Disposition::Violation(Violation::AuthNotNegotiated),
        PacketKind::VersionProbe => d == Disposition::Violation(Violation::VersionProbe),
    }
}

/// Decides on a PUBLISH.
fn dispatch_publish<'a>(publish: &'a Publish) -> (d: Disposition<'a>)
    ensures
        disposition_is(PacketKind::Publish(*publish), d),
{
    if publish.qos.value() > MAX_QOS.value() {
        return Disposition::Violation(Violation::PublishQosAboveMaximum);
    }
    match (publish.qos, publish.packet_id) {
        (QoS::AtMostOnce, _) => Disposition::Deliver(publish),
        (QoS::AtLeastOnce, Some(id)) => Disposition::DeliverThenAck(publish, id),
        (QoS::AtLeastOnce, None) => Disposition::Violation(Violation::PublishMissingPacketId),
        (QoS::ExactlyOnce, _) => Disposition::Violation(Violation::Qos2FlowNotImplemented),
    }
}

/// Decides on one packet of an established session.
pub fn dispatch<'a>(packet: &'a MqttPacket) -> (d: Disposition<'a>)
    ensures
        disposition_is(kind_of(*packet), d),
{
    match packet {
        MqttPacket::V3(PacketV3::Connect(_)) | MqttPacket::V5(PacketV5::Connect(_)) => {
            Disposition::Violation(Violation::DuplicateConnect)
        },
        MqttPacket::V3(PacketV3::Publish(publish)) => dispatch_publish(publish),
        MqttPacket::V5(PacketV5::Publish(publish)) => dispatch_publish(publish),
        MqttPacket::V3(PacketV3::PingRequest) | MqttPacket::V5(PacketV5::PingRequest) => {
            Disposition::Reply(Reply::PingResponse)
        },
        MqttPacket::V3(PacketV3::Disconnect) | MqttPacket::V5(PacketV5::Disconnect) => {
            Disposition::Close
        },
        MqttPacket::V3(PacketV3::Subscribe { packet_id, filters })
        | MqttPacket::V5(PacketV5::Subscribe { packet_id, filters }) => {
            match FilterCount::new(*filters) {
                Some(n) => Disposition::Reply(Reply::SubscribeRefusal(*packet_id, n)),
                None => Disposition::Violation(Violation::EmptyTopicFilterList),
            }
        },
        MqttPacket::V3(PacketV3::Unsubscribe { packet_id, filters })
        | MqttPacket::V5(PacketV5::Unsubscribe { packet_id, filters }) => {
            match FilterCount::new(*filters) {
                Some(n) => Disposition::Reply(Reply::UnsubscribeAck(*packet_id, n)),
                None => Disposition::Violation(Violation::EmptyTopicFilterList),
            }
        },
        MqttPacket::V3(
            PacketV3::ConnectAck
            | PacketV3::SubscribeAck
            | PacketV3::UnsubscribeAck
            | PacketV3::PingResponse,
        )
        | MqttPacket::V5(
            PacketV5::ConnectAck
            | PacketV5::SubscribeAck
            | PacketV5::UnsubscribeAck
            | PacketV5::PingResponse,
        ) => Disposition::Violation(Violation::ServerOnlyPacket),
        MqttPacket::V3(
            PacketV3::PublishReceived | PacketV3::PublishRelease | PacketV3::PublishComplete,
        )
        | MqttPacket::V5(
            PacketV5::PublishReceived | PacketV5::PublishRelease | PacketV5::PublishComplete,
        ) => Disposition::Violation(Violation::Qos2FlowNotImplemented),
        MqttPacket::V3(PacketV3::PublishAck) | MqttPacket::V5(PacketV5::PublishAck) => {
            Disposition::Violation(Violation::PublishAckFromClient)
        },
        MqttPacket::V5(PacketV5::Auth) => Disposition::Violation(Violation::AuthNotNegotiated),
        MqttPacket::Version(_) => Disposition::Violation(Violation::VersionProbe),
    }
}

} // verus!
