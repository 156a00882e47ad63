//! The wire form of the packets a server sends, byte for byte, and the calls
//! into `rmqtt_codec` that produce it.

use bytes::BytesMut;
use rmqtt_codec::{v3, v5};
use tokio_util::codec::Encoder;
use vstd::prelude::*;

verus! {

/// The two bytes of `n`, most significant first.
pub open spec fn be16(n: u16) -> Seq<u8> {
    seq![(n / 256) as u8, (n % 256) as u8]
}

/// The four bytes of `n`, most significant first.
pub open spec fn be32(n: u32) -> Seq<u8> {
    be16((n / 65536) as u16) + be16((n % 65536) as u16)
}

/// `n` as a variable byte integer: seven bits a byte, least significant group
/// first, the top bit set on every byte but the last.
pub open spec fn var_int(n: nat) -> Seq<u8>
    decreases n,
{
    if n < 128 {
        seq![n as u8]
    } else {
        seq![(128 + n % 128) as u8] + var_int(n / 128)
    }
}

/// The largest remaining length that a fixed header can carry.
pub const MAX_REMAINING_LENGTH: usize = 268_435_455;

/// A whole control packet: the first header byte, the length of the rest, the
/// rest.
pub open spec fn frame(first: u8, rest: Seq<u8>) -> Seq<u8> {
    seq![first] + var_int(rest.len()) + rest
}

/// `0` or `1`.
pub open spec fn flag(b: bool) -> u8 {
    if b {
        1
    } else {
        0
    }
}

/// `rmqtt_codec::v3::Codec::encode` on a CONNACK. The return code is one of the
/// seven that `rmqtt_codec::v3::ConnectAckReason` has.
#[verifier::external_body]
pub(crate) fn encode_v3_connack(session_present: bool, return_code: u8) -> (r: Vec<u8>)
    requires
        return_code <= 6,
    ensures
        r@ == frame(0x20, seq![flag(session_present), return_code]),
{
    let mut buf = BytesMut::new();
    let ack = v3::ConnectAck { return_code: return_code.try_into().unwrap(), session_present };
    v3::Codec::default().encode(v3::Packet::ConnectAck(ack), &mut buf).unwrap();
    buf.to_vec()
}

/// `rmqtt_codec::v3::Codec::encode` on a PUBACK.
#[verifier::external_body]
pub(crate) fn encode_v3_puback(packet_id: u16) -> (r: Vec<u8>)
    requires
        packet_id != 0,
    ensures
        r@ == frame(0x40, be16(packet_id)),
{
    let mut buf = BytesMut::new();
    let packet = v3::Packet::PublishAck { packet_id: packet_id.try_into().unwrap() };
    v3::Codec::default().encode(packet, &mut buf).unwrap();
    buf.to_vec()
}

/// `rmqtt_codec::v3::Codec::encode` on a SUBACK that carries the failure return
/// code `failures` times over. The remaining length has to fit its header field:
/// the encoder panics on a longer one.
#[verifier::external_body]
pub(crate) fn encode_v3_suback(packet_id: u16, failures: usize) -> (r: Vec<u8>)
    requires
        packet_id != 0,
        2 + failures <= MAX_REMAINING_LENGTH,
    ensures
        r@ == frame(0x90, be16(packet_id) + Seq::new(failures as nat, |i: int| 0x80u8)),
{
    let mut buf = BytesMut::new();
    let packet = v3::Packet::SubscribeAck {
        packet_id: packet_id.try_into().unwrap(),
        status: vec![v3::SubscribeReturnCode::Failure; failures],
    };
    v3::Codec::default().encode(packet, &mut buf).unwrap();
    buf.to_vec()
}

/// `rmqtt_codec::v3::Codec::encode` on an UNSUBACK.
#[verifier::external_body]
pub(crate) fn encode_v3_unsuback(packet_id: u16) -> (r: Vec<u8>)
    requires
        packet_id != 0,
    ensures
        r@ == frame(0xB0, be16(packet_id)),
{
    let mut buf = BytesMut::new();
    let packet = v3::Packet::UnsubscribeAck { packet_id: packet_id.try_into().unwrap() };
    v3::Codec::default().encode(packet, &mut buf).unwrap();
    buf.to_vec()
}

/// `rmqtt_codec::v3::Codec::encode` on a PINGREQ.
#[verifier::external_body]
pub(crate) fn encode_v3_pingreq() -> (r: Vec<u8>)
    ensures
        r@ == frame(0xC0, seq![]),
{
    let mut buf = BytesMut::new();
    v3::Codec::default().encode(v3::Packet::PingRequest, &mut buf).unwrap();
    buf.to_vec()
}

/// `rmqtt_codec::v3::Codec::encode` on a PINGRESP.
#[verifier::external_body]
pub(crate) fn encode_v3_pingresp() -> (r: Vec<u8>)
    ensures
        r@ == frame(0xD0, seq![]),
{
    let mut buf = BytesMut::new();
    v3::Codec::default().encode(v3::Packet::PingResponse, &mut buf).unwrap();
    buf.to_vec()
}

/// The reason codes of `rmqtt_codec::v5::PublishAckReason`.
pub open spec fn is_puback_code(code: u8) -> bool {
    code == 0 || code == 16 || code == 128 || code == 131 || code == 135 || code == 144 || code
        == 145 || code == 151 || code == 153
}

/// The reason codes of `rmqtt_codec::v5::SubscribeAckReason`.
pub open spec fn is_suback_code(code: u8) -> bool {
    code <= 2 || code == 128 || code == 131 || code == 135 || code == 143 || code == 145 || code
        == 151 || code == 158 || code == 161 || code == 162
}

/// The reason codes of `rmqtt_codec::v5::UnsubscribeAckReason`.
pub open spec fn is_unsuback_code(code: u8) -> bool {
    code == 0 || code == 17 || code == 128 || code == 131 || code == 135 || code == 143 || code
        == 145
}

/// The reason codes of `rmqtt_codec::v5::DisconnectReasonCode` that name a
/// protocol fault of the client.
pub open spec fn is_disconnect_code(code: u8) -> bool {
    code == 129 || code == 130 || code == 149 || code == 155
}

/// The reason codes of `rmqtt_codec::v5::ConnectAckReason`.
pub open spec fn is_connack_code(code: u8) -> bool {
    code == 0 || 128 <= code <= 138 || code == 140 || code == 144 || code == 149 || code == 151
        || 153 <= code <= 157 || code == 159
}

/// `rmqtt_codec::v5::Codec::encode` on a PUBACK without properties.
#[verifier::external_body]
pub(crate) fn encode_v5_puback(packet_id: u16, reason_code: u8) -> (r: Vec<u8>)
    requires
        packet_id != 0,
        is_puback_code(reason_code),
    ensures
        r@ == frame(0x40, be16(packet_id) + seq![reason_code, 0u8]),
{
    let mut buf = BytesMut::new();
    let ack = v5::PublishAck {
        packet_id: packet_id.try_into().unwrap(),
        reason_code: reason_code.try_into().unwrap(),
        properties: Vec::new(),
        reason_string: None,
    };
    v5::Codec::default().encode(v5::Packet::PublishAck(ack), &mut buf).unwrap();
    buf.to_vec()
}

/// `rmqtt_codec::v5::Codec::encode` on a SUBACK without properties. The encoder
/// refuses a remaining length that its header field cannot carry, and computes
/// with the difference before it does, so such a length is left out.
#[verifier::external_body]
pub(crate) fn encode_v5_suback(packet_id: u16, status: Vec<u8>) -> (r: Vec<u8>)
    requires
        packet_id != 0,
        forall|i: int| 0 <= i < status@.len() ==> is_suback_code(#[trigger] status@[i]),
        3 + status@.len() <= MAX_REMAINING_LENGTH,
    ensures
        r@ == frame(0x90, be16(packet_id) + seq![0u8] + status@),
{
    let mut buf = BytesMut::new();
    let ack = v5::SubscribeAck {
        packet_id: packet_id.try_into().unwrap(),
        properties: Vec::new(),
        reason_string: None,
        status: status.into_iter().map(|code| code.try_into().unwrap()).collect(),
    };
    v5::Codec::default().encode(v5::Packet::SubscribeAck(ack), &mut buf).unwrap();
    buf.to_vec()
}

/// `rmqtt_codec::v5::Codec::encode` on an UNSUBACK without properties, under the
/// same bound as a SUBACK.
#[verifier::external_body]
pub(crate) fn encode_v5_unsuback(packet_id: u16, status: Vec<u8>) -> (r: Vec<u8>)
    requires
        packet_id != 0,
        forall|i: int| 0 <= i < status@.len() ==> is_unsuback_code(#[trigger] status@[i]),
        3 + status@.len() <= MAX_REMAINING_LENGTH,
    ensures
        r@ == frame(0xB0, be16(packet_id) + seq![0u8] + status@),
{
    let mut buf = BytesMut::new();
    let ack = v5::UnsubscribeAck {
        packet_id: packet_id.try_into().unwrap(),
        properties: Vec::new(),
        reason_string: None,
        status: status.into_iter().map(|code| code.try_into().unwrap()).collect(),
    };
    v5::Codec::default().encode(v5::Packet::UnsubscribeAck(ack), &mut buf).unwrap();
    buf.to_vec()
}

/// `rmqtt_codec::v5::Codec::encode` on a PINGREQ.
#[verifier::external_body]
pub(crate) fn encode_v5_pingreq() -> (r: Vec<u8>)
    ensures
        r@ == frame(0xC0, seq![]),
{
    let mut buf = BytesMut::new();
    v5::Codec::default().encode(v5::Packet::PingRequest, &mut buf).unwrap();
    buf.to_vec()
}

/// `rmqtt_codec::v5::Codec::encode` on a PINGRESP.
#[verifier::external_body]
pub(crate) fn encode_v5_pingresp() -> (r: Vec<u8>)
    ensures
        r@ == frame(0xD0, seq![]),
{
    let mut buf = BytesMut::new();
    v5::Codec::default().encode(v5::Packet::PingResponse, &mut buf).unwrap();
    buf.to_vec()
}

/// `rmqtt_codec::v5::Codec::encode` on a DISCONNECT without properties.
#[verifier::external_body]
pub(crate) fn encode_v5_disconnect(reason_code: u8) -> (r: Vec<u8>)
    requires
        is_disconnect_code(reason_code),
    ensures
        r@ == frame(0xE0, seq![reason_code, 0u8]),
{
    let mut buf = BytesMut::new();
    let disconnect = v5::Disconnect::new(reason_code.try_into().unwrap());
    v5::Codec::default().encode(v5::Packet::Disconnect(disconnect), &mut buf).unwrap();
    buf.to_vec()
}

/// What a 5.0 CONNACK says besides its defaults, as plain values.
#[derive(Debug)]
pub struct ConnackFields {
    pub session_present: bool,
    pub reason_code: u8,
    pub session_expiry_interval_secs: Option<u32>,
    pub max_qos: u8,
    pub assigned_client_id: Option<String>,
    pub retain_available: bool,
    pub wildcard_subscription_available: bool,
    pub subscription_identifiers_available: bool,
    pub shared_subscription_available: bool,
    pub server_keepalive_sec: Option<u16>,
}

/// A capability property: sent only to say that the capability is missing.
pub open spec fn capability(id: u8, available: bool) -> Seq<u8> {
    if available {
        seq![]
    } else {
        seq![id, 0u8]
    }
}

/// The session expiry interval property.
pub open spec fn expiry_property(secs: Option<u32>) -> Seq<u8> {
    match secs {
        Some(secs) => seq![0x11u8] + be32(secs),
        None => seq![],
    }
}

/// The maximum quality of service property: sent only for a level below 2.
pub open spec fn max_qos_property(level: u8) -> Seq<u8> {
    if level < 2 {
        seq![0x24u8, level]
    } else {
        seq![]
    }
}

/// The assigned client identifier property.
pub open spec fn client_id_property(id: Option<String>) -> Seq<u8> {
    match id {
        Some(id) => {
            let text = vstd::utf8::encode_utf8(id@);
            seq![0x12u8] + be16(text.len() as u16) + text
        },
        None => seq![],
    }
}

/// The server keep-alive property.
pub open spec fn keepalive_property(secs: Option<u16>) -> Seq<u8> {
    match secs {
        Some(secs) => seq![0x13u8] + be16(secs),
        None => seq![],
    }
}

impl ConnackFields {
    /// The property list, in the order in which the properties are written.
    pub open spec fn properties(&self) -> Seq<u8> {
        expiry_property(self.session_expiry_interval_secs) + max_qos_property(self.max_qos)
            + capability(0x25, self.retain_available) + client_id_property(self.assigned_client_id)
            + capability(0x28, self.wildcard_subscription_available) + capability(
            0x29,
            self.subscription_identifiers_available,
        ) + capability(0x2A, self.shared_subscription_available) + keepalive_property(
            self.server_keepalive_sec,
        )
    }

    /// How long the property list is.
    pub open spec fn properties_len(&self) -> nat {
        expiry_property(self.session_expiry_interval_secs).len() + max_qos_property(
            self.max_qos,
        ).len() + capability(0x25, self.retain_available).len() + client_id_property(
            self.assigned_client_id,
        ).len() + capability(0x28, self.wildcard_subscription_available).len() + capability(
            0x29,
            self.subscription_identifiers_available,
        ).len() + capability(0x2A, self.shared_subscription_available).len() + keepalive_property(
            self.server_keepalive_sec,
        ).len()
    }

    /// Flags, reason code, and the property list behind its length.
    pub open spec fn body(&self) -> Seq<u8> {
        seq![flag(self.session_present), self.reason_code] + var_int(self.properties().len())
            + self.properties()
    }

    /// A code that exists, a quality of service that exists, and an identifier
    /// that its two-byte length can count.
    pub open spec fn encodable(&self) -> bool {
        &&& is_connack_code(self.reason_code)
        &&& self.max_qos <= 2
        &&& self.assigned_client_id matches Some(id) ==> vstd::utf8::encode_utf8(id@).len() <= 0xFFFF
    }
}

/// A variable byte integer below 2^28 takes at most four bytes.
pub proof fn lemma_var_int_len(n: nat)
    requires
        n <= MAX_REMAINING_LENGTH,
    ensures
        var_int(n).len() == if n < 128 {
            1nat
        } else if n < 16384 {
            2
        } else if n < 2097152 {
            3
        } else {
            4
        },
{
    reveal_with_fuel(var_int, 4);
}

/// The property list is as long as its properties together.
pub proof fn lemma_properties_len(fields: ConnackFields)
    ensures
        fields.properties().len() == fields.properties_len(),
{
}

/// A CONNACK is far shorter than a fixed header can say.
pub proof fn lemma_connack_body_len(fields: ConnackFields)
    requires
        fields.encodable(),
    ensures
        fields.body().len() <= MAX_REMAINING_LENGTH,
{
    lemma_properties_len(fields);
    assert(expiry_property(fields.session_expiry_interval_secs).len() <= 5);
    assert(client_id_property(fields.assigned_client_id).len() <= 3 + 0xFFFF);
    assert(keepalive_property(fields.server_keepalive_sec).len() <= 3);
    assert(fields.properties().len() <= 70000);
    lemma_var_int_len(fields.properties().len());
    assert(fields.body().len() == 2 + var_int(fields.properties().len()).len()
        + fields.properties().len());
}

/// `rmqtt_codec::v5::Codec::encode` on a CONNACK whose other fields have their
/// defaults, which are not written.
#[verifier::external_body]
pub(crate) fn encode_v5_connack(fields: ConnackFields) -> (r: Vec<u8>)
    requires
        fields.encodable(),
    ensures
        r@ == frame(0x20, fields.body()),
{
    let mut buf = BytesMut::new();
    let ack = v5::ConnectAck {
        session_present: fields.session_present,
        reason_code: fields.reason_code.try_into().unwrap(),
        session_expiry_interval_secs: fields.session_expiry_interval_secs,
        max_qos: fields.max_qos.try_into().unwrap(),
        assigned_client_id: fields.assigned_client_id.map(Into::into),
        retain_available: fields.retain_available, wildcard_subscription_available: fields.wildcard_subscription_available,
        subscription_identifiers_available: fields.subscription_identifiers_available,
        shared_subscription_available: fields.shared_subscription_available,
        server_keepalive_sec: fields.server_keepalive_sec, ..Default::default()
    };
    v5::Codec::default().encode(v5::Packet::ConnectAck(Box::new(ack)), &mut buf).unwrap();
    buf.to_vec()
}

} // verus!
