//! The packets a client sends and the packets a server sends.

use crate::codec::id::{PacketId, PacketLimit};
use crate::codec::version::ProtocolVersion;
use vstd::prelude::*;

verus! {

/// Quality of service of a PUBLISH.
#[derive(Debug, Clone, Copy, PartialEq, Eq, Structural)]
pub enum QoS {
    AtMostOnce,
    AtLeastOnce,
    ExactlyOnce,
}

impl QoS {
    /// The two-bit number that stands for the level on the wire; a higher level
    /// has a higher number.
    pub open spec fn level(self) -> u8 {
        match self {
            QoS::AtMostOnce => 0,
            QoS::AtLeastOnce => 1,
            QoS::ExactlyOnce => 2,
        }
    }

    /// The level as a number.
    pub fn value(self) -> (r: u8)
        ensures
            r == self.level(),
    {
        match self {
            QoS::AtMostOnce => 0,
            QoS::AtLeastOnce => 1,
            QoS::ExactlyOnce => 2,
        }
    }
}

/// Return code of a 3.1.1 CONNACK.
#[derive(Debug, Clone, Copy, PartialEq, Eq, Structural)]
pub enum ConnectAckReason {
    ConnectionAccepted,
    IdentifierRejected,
}

impl ConnectAckReason {
    /// The code on the wire.
    pub open spec fn code(self) -> u8 {
        match self {
            ConnectAckReason::ConnectionAccepted => 0,
            ConnectAckReason::IdentifierRejected => 2,
        }
    }

    /// The code on the wire.
    pub fn value(self) -> (r: u8)
        ensures
            r == self.code(),
    {
        match self {
            ConnectAckReason::ConnectionAccepted => 0,
            ConnectAckReason::IdentifierRejected => 2,
        }
    }
}

/// Reason code of a 5.0 CONNACK.
#[derive(Debug, Clone, Copy, PartialEq, Eq, Structural)]
pub enum ConnectAckReasonV5 {
    Success,
    ImplementationSpecificError,
    ClientIdentifierNotValid,
    BadAuthenticationMethod,
}

impl ConnectAckReasonV5 {
    /// The code on the wire.
    pub open spec fn code(self) -> u8 {
        match self {
            ConnectAckReasonV5::Success => 0,
            ConnectAckReasonV5::ImplementationSpecificError => 0x83,
            ConnectAckReasonV5::ClientIdentifierNotValid => 0x85,
            ConnectAckReasonV5::BadAuthenticationMethod => 0x8C,
        }
    }

    /// The code on the wire.
    pub fn value(self) -> (r: u8)
        ensures
            r == self.code(),
    {
        match self {
            ConnectAckReasonV5::Success => 0,
            ConnectAckReasonV5::ImplementationSpecificError => 0x83,
            ConnectAckReasonV5::ClientIdentifierNotValid => 0x85,
            ConnectAckReasonV5::BadAuthenticationMethod => 0x8C,
        }
    }
}

/// Reason code of a 5.0 PUBACK.
#[derive(Debug, Clone, Copy, PartialEq, Eq, Structural)]
pub enum PublishAckReason {
    Success,
}

impl PublishAckReason {
    /// The code on the wire.
    pub open spec fn code(self) -> u8 {
        0
    }

    /// The code on the wire.
    pub fn value(self) -> (r: u8)
        ensures
            r == self.code(),
    {
        0
    }
}

/// Return code of a 3.1.1 SUBACK.
#[derive(Debug, Clone, Copy, PartialEq, Eq, Structural)]
pub enum SubscribeReturnCode {
    Failure,
}

impl SubscribeReturnCode {
    /// The code on the wire.
    pub open spec fn code(self) -> u8 {
        0x80
    }

    /// The code on the wire.
    pub fn value(self) -> (r: u8)
        ensures
            r == self.code(),
    {
        0x80
    }
}

/// Reason code of a 5.0 SUBACK.
#[derive(Debug, Clone, Copy, PartialEq, Eq, Structural)]
pub enum SubscribeAckReason {
    ImplementationSpecificError,
}

impl SubscribeAckReason {
    /// The code on the wire.
    pub open spec fn code(self) -> u8 {
        0x83
    }

    /// The code on the wire.
    pub fn value(self) -> (r: u8)
        ensures
            r == self.code(),
    {
        0x83
    }
}

/// Reason code of a 5.0 UNSUBACK.
#[derive(Debug, Clone, Copy, PartialEq, Eq, Structural)]
pub enum UnsubscribeAckReason {
    NoSubscriptionExisted,
}

impl UnsubscribeAckReason {
    /// The code on the wire.
    pub open spec fn code(self) -> u8 {
        0x11
    }

    /// The code on the wire.
    pub fn value(self) -> (r: u8)
        ensures
            r == self.code(),
    {
        0x11
    }
}

/// Reason code of a 5.0 DISCONNECT that the server sends.
#[derive(Debug, Clone, Copy, PartialEq, Eq, Structural)]
pub enum DisconnectReasonCode {
    MalformedPacket,
    ProtocolError,
    PacketTooLarge,
    QosNotSupported,
}

impl DisconnectReasonCode {
    /// The code on the wire.
    pub open spec fn code(self) -> u8 {
        match self {
            DisconnectReasonCode::MalformedPacket => 0x81,
            DisconnectReasonCode::ProtocolError => 0x82,
            DisconnectReasonCode::PacketTooLarge => 0x95,
            DisconnectReasonCode::QosNotSupported => 0x9B,
        }
    }

    /// The code on the wire.
    pub fn value(self) -> (r: u8)
        ensures
            r == self.code(),
    {
        match self {
            DisconnectReasonCode::MalformedPacket => 0x81,
            DisconnectReasonCode::ProtocolError => 0x82,
            DisconnectReasonCode::PacketTooLarge => 0x95,
            DisconnectReasonCode::QosNotSupported => 0x9B,
        }
    }
}

/// A 3.1.1 CONNACK.
#[derive(Debug, Clone, Copy, PartialEq, Eq, Structural)]
pub struct ConnectAck {
    pub return_code: ConnectAckReason,
    pub session_present: bool,
}

/// A 5.0 CONNACK. What is not a field here has its default and is not written.
#[derive(Debug)]
pub struct ConnectAckV5 {
    pub session_present: bool,
    pub reason_code: ConnectAckReasonV5,
    pub session_expiry_interval_secs: Option<u32>,
    pub max_qos: QoS,
    pub assigned_client_id: Option<String>,
    pub retain_available: bool,
    pub wildcard_subscription_available: bool,
    pub subscription_identifiers_available: bool,
    pub shared_subscription_available: bool,
    pub server_keepalive_sec: Option<u16>,
}

/// A 3.1.1 packet that the encoder writes: those that a server sends, and the
/// PINGREQ that it answers.
#[derive(Debug)]
pub enum ServerPacketV3 {
    ConnectAck(ConnectAck),
    PublishAck { packet_id: PacketId },
    SubscribeAck { packet_id: PacketId, status: Vec<SubscribeReturnCode> },
    UnsubscribeAck { packet_id: PacketId },
    PingRequest,
    PingResponse,
}

/// A 5.0 packet that the encoder writes: those that a server sends, and the PINGREQ
/// that it answers.
#[allow(inconsistent_fields)]
#[derive(Debug)]
pub enum ServerPacketV5 {
    ConnectAck(ConnectAckV5),
    PublishAck { packet_id: PacketId, reason_code: PublishAckReason },
    SubscribeAck { packet_id: PacketId, status: Vec<SubscribeAckReason> },
    UnsubscribeAck { packet_id: PacketId, status: Vec<UnsubscribeAckReason> },
    PingRequest,
    PingResponse,
    Disconnect { reason_code: DisconnectReasonCode },
}

/// A packet that the encoder writes.
#[derive(Debug)]
pub enum ServerPacket {
    V3(ServerPacketV3),
    V5(ServerPacketV5),
}

/// Why a packet cannot be put on the wire.
#[derive(Debug, Clone, Copy, PartialEq, Eq, Structural)]
pub enum EncodeError {
    /// Longer than it may be.
    OverMaxPacketSize { size: u32, max: u32 },
    /// A string longer than its two-byte length can say.
    InvalidLength,
    /// A packet of the other protocol version.
    MalformedPacket,
}

/// A decimal digit.
pub open spec fn digit_text(digit: nat) -> &'static str {
    if digit == 0 {
        "0"
    } else if digit == 1 {
        "1"
    } else if digit == 2 {
        "2"
    } else if digit == 3 {
        "3"
    } else if digit == 4 {
        "4"
    } else if digit == 5 {
        "5"
    } else if digit == 6 {
        "6"
    } else if digit == 7 {
        "7"
    } else if digit == 8 {
        "8"
    } else {
        "9"
    }
}

/// A number in decimal digits.
pub open spec fn decimal_text(n: nat) -> Seq<char>
    decreases n,
{
    if n < 10 {
        digit_text(n)@
    } else {
        decimal_text(n / 10) + digit_text(n % 10)@
    }
}

/// `rmqtt_codec::error::EncodeError` in its own words, for the errors that the
/// broker can meet: the text of its variant, with the numbers in decimal digits.
#[verifier::external_body]
fn encode_error_text(e: EncodeError) -> (r: String)
    ensures
        r@ == e.text(),
{
    let error = match e {
        EncodeError::OverMaxPacketSize { size, max } => {
            rmqtt_codec::error::EncodeError::OverMaxPacketSize { size, max }
        },
        EncodeError::InvalidLength => rmqtt_codec::error::EncodeError::InvalidLength,
        EncodeError::MalformedPacket => rmqtt_codec::error::EncodeError::MalformedPacket,
    };
    error.to_string()
}

impl EncodeError {
    /// The error in words.
    pub open spec fn text(self) -> Seq<char> {
        match self {
            EncodeError::OverMaxPacketSize { size, max } =>
            "Packet is bigger than peer's Maximum Packet Size: size="@ + decimal_text(size as nat)
                + ", max="@ + decimal_text(max as nat),
            EncodeError::InvalidLength => "Invalid length"@,
            EncodeError::MalformedPacket => "Malformed packet"@,
        }
    }

    /// The error in words.
    pub fn message(self) -> (r: String)
        ensures
            r@ == self.text(),
    {
        encode_error_text(self)
    }
}

/// A PUBLISH, as far as the broker reads it.
#[derive(Debug)]
pub struct Publish {
    pub qos: QoS,
    pub topic: String,
    pub packet_id: Option<PacketId>,
    pub payload: Vec<u8>,
}

/// A 3.1.1 CONNECT, as far as the broker reads it.
#[derive(Debug)]
pub struct Connect {
    pub clean_session: bool,
    pub keep_alive: u16,
    pub client_id: String,
}

/// A 5.0 CONNECT, as far as the broker reads it.
#[derive(Debug)]
pub struct ConnectV5 {
    pub clean_start: bool,
    pub keep_alive: u16,
    pub client_id: String,
    pub auth_method: Option<String>,
    pub max_packet_size: Option<PacketLimit>,
}

/// A 3.1.1 packet that a client sent. Where the broker only tells the kind, the
/// variant holds nothing more.
#[derive(Debug)]
pub enum PacketV3 {
    Connect(Connect),
    ConnectAck,
    Publish(Publish),
    PublishAck,
    PublishReceived,
    PublishRelease,
    PublishComplete,
    Subscribe { packet_id: PacketId, filters: usize },
    SubscribeAck,
    Unsubscribe { packet_id: PacketId, filters: usize },
    UnsubscribeAck,
    PingRequest,
    PingResponse,
    Disconnect,
}

/// A 5.0 packet that a client sent. Where the broker only tells the kind, the
/// variant holds nothing more.
#[derive(Debug)]
pub enum PacketV5 {
    Connect(ConnectV5),
    ConnectAck,
    Publish(Publish),
    PublishAck,
    PublishReceived,
    PublishRelease,
    PublishComplete,
    Subscribe { packet_id: PacketId, filters: usize },
    SubscribeAck,
    Unsubscribe { packet_id: PacketId, filters: usize },
    UnsubscribeAck,
    PingRequest,
    PingResponse,
    Disconnect,
    Auth,
}

/// What a codec yields of a client's stream.
#[derive(Debug)]
pub enum MqttPacket {
    V3(PacketV3),
    V5(PacketV5),
    /// A bare protocol version, out of a version probe.
    Version(ProtocolVersion),
}

} // verus!
