use bytes::BytesMut;
use rmqtt_codec::v3;
use tokio_util::codec::Encoder;
use uring_mqtt::broker::handshake::{
    clamp_timeout_secs, evaluate_connect, negotiate_keep_alive, refuse_v5, ConnectDecision,
    KeepAlive,
};
use uring_mqtt::codec::decoder::{Decoded, MqttDecoder};
use uring_mqtt::codec::encoder::MqttEncoder;
use uring_mqtt::codec::id::PacketLimit;
use uring_mqtt::codec::types::{
    Connect, ConnectAckReason, ConnectAckReasonV5, ConnectAckV5, ConnectV5, MqttPacket, PacketV3,
    PacketV5, QoS, ServerPacket, ServerPacketV3, ServerPacketV5,
};

fn peer() -> &'static str {
    "127.0.0.1:9999"
}

fn v3_connect_with(client_id: &str, keep_alive: u16, clean_session: bool) -> MqttPacket {
    MqttPacket::V3(PacketV3::Connect(Connect {
        clean_session,
        keep_alive,
        client_id: client_id.to_string(),
    }))
}

fn v5_connect_with(
    client_id: &str,
    keep_alive: u16,
    clean_start: bool,
    auth_method: Option<&str>,
) -> MqttPacket {
    v5_connect_limited(client_id, keep_alive, clean_start, auth_method, None)
}

fn v5_connect_limited(
    client_id: &str,
    keep_alive: u16,
    clean_start: bool,
    auth_method: Option<&str>,
    max_packet_size: Option<PacketLimit>,
) -> MqttPacket {
    MqttPacket::V5(PacketV5::Connect(ConnectV5 {
        clean_start,
        keep_alive,
        client_id: client_id.to_string(),
        auth_method: auth_method.map(|m| m.to_string()),
        max_packet_size,
    }))
}

/// Client id, keep-alive and idle timeout of an accepted CONNECT.
fn accepted(d: ConnectDecision) -> (ServerPacket, Option<String>, u16, u64, Option<PacketLimit>) {
    match d {
        ConnectDecision::Accept {
            connack,
            client_id,
            keep_alive_secs,
            idle_timeout_ms,
            max_packet_size,
        } => (
            connack,
            client_id,
            keep_alive_secs,
            idle_timeout_ms,
            max_packet_size,
        ),
        other => panic!("expected Accept, got {other:?}"),
    }
}

fn refused(d: ConnectDecision) -> (ServerPacket, bool) {
    match d {
        ConnectDecision::Refuse { connack, sendable } => (connack, sendable),
        other => panic!("expected Refuse, got {other:?}"),
    }
}

fn v5_ack(packet: ServerPacket) -> ConnectAckV5 {
    match packet {
        ServerPacket::V5(ServerPacketV5::ConnectAck(ack)) => ack,
        other => panic!("expected v5 CONNACK, got {other:?}"),
    }
}

fn encoded_len(packet: &ServerPacket) -> usize {
    let mut buf = BytesMut::new();
    MqttEncoder::v5().encode(packet, &mut buf).expect("encode");
    buf.len()
}

#[test]
fn accepts_v3_connect_with_client_id_and_keepalive() {
    let packet = v3_connect_with("dev-1", 60, false);
    let (_, client_id, keep_alive_secs, idle_timeout_ms, _) =
        accepted(evaluate_connect(&packet, 300, peer()));
    assert_eq!(client_id.as_deref(), Some("dev-1"));
    assert_eq!(keep_alive_secs, 60);
    assert_eq!(idle_timeout_ms, 90_000);
}

#[test]
fn preserves_supplied_v5_client_id() {
    let packet = v5_connect_with("dev5", 60, false, None);
    let (connack, client_id, _, _, _) = accepted(evaluate_connect(&packet, 300, peer()));
    assert_eq!(client_id.as_deref(), Some("dev5"));
    assert_eq!(v5_ack(connack).assigned_client_id, None);
}

#[test]
fn keepalive_zero_falls_back_to_config_idle_timeout() {
    let packet = v3_connect_with("dev-1", 0, false);
    let (_, _, _, idle_timeout_ms, _) = accepted(evaluate_connect(&packet, 300, peer()));
    assert_eq!(idle_timeout_ms, 300_000);
}

#[test]
fn v3_keepalive_capped_at_config() {
    let packet = v3_connect_with("dev-1", 400, false);
    let (_, _, keep_alive_secs, idle_timeout_ms, _) =
        accepted(evaluate_connect(&packet, 300, peer()));
    assert_eq!(idle_timeout_ms, 300_000);
    assert_eq!(keep_alive_secs, 400);
}

#[test]
fn v3_zero_config_caps_idle_at_zero() {
    let packet = v3_connect_with("dev-1", 60, false);
    let (_, _, _, idle_timeout_ms, _) = accepted(evaluate_connect(&packet, 0, peer()));
    assert_eq!(idle_timeout_ms, 0);
}

#[test]
fn v5_capped_keepalive_announces_consistent_server_keepalive() {
    let packet = v5_connect_with("dev5", 400, true, None);
    let (connack, _, keep_alive_secs, idle_timeout_ms, _) =
        accepted(evaluate_connect(&packet, 300, peer()));
    assert_eq!(v5_ack(connack).server_keepalive_sec, Some(200));
    assert_eq!(keep_alive_secs, 200);
    assert_eq!(idle_timeout_ms, 300_000);
}

#[test]
fn v5_cap_non_divisible_by_three_rounds_down() {
    let packet = v5_connect_with("dev5", 200, true, None);
    let (connack, _, _, idle_timeout_ms, _) = accepted(evaluate_connect(&packet, 100, peer()));
    assert_eq!(v5_ack(connack).server_keepalive_sec, Some(66));
    assert_eq!(idle_timeout_ms, 99_000);
}

#[test]
fn v5_degenerate_cap_announces_at_least_one_second() {
    let packet = v5_connect_with("dev5", 60, true, None);
    let (connack, _, _, idle_timeout_ms, _) = accepted(evaluate_connect(&packet, 1, peer()));
    assert_eq!(v5_ack(connack).server_keepalive_sec, Some(1));
    assert_eq!(idle_timeout_ms, 1500);
}

#[test]
fn v5_zero_config_with_positive_keepalive_announces_one_second() {
    let packet = v5_connect_with("dev5", 60, true, None);
    let (connack, _, _, idle_timeout_ms, _) = accepted(evaluate_connect(&packet, 0, peer()));
    assert_eq!(v5_ack(connack).server_keepalive_sec, Some(1));
    assert_eq!(idle_timeout_ms, 1500);
}

#[test]
fn v5_uncapped_keepalive_has_no_announcement() {
    let packet = v5_connect_with("dev5", 2, true, None);
    let (connack, _, keep_alive_secs, idle_timeout_ms, _) =
        accepted(evaluate_connect(&packet, 30, peer()));
    assert_eq!(keep_alive_secs, 2);
    assert_eq!(idle_timeout_ms, 3000);
    assert_eq!(v5_ack(connack).server_keepalive_sec, None);
}

#[test]
fn huge_config_idle_clamped_to_supported_max() {
    let packet = v3_connect_with("dev-1", 0, false);
    let (_, _, _, idle_timeout_ms, _) = accepted(evaluate_connect(&packet, u64::MAX, peer()));
    assert_eq!(idle_timeout_ms, 31_536_000_000);
}

#[test]
fn rejects_v5_connect_with_auth_method() {
    let packet = v5_connect_with("dev5", 60, true, Some("PLAIN"));
    let (connack, _) = refused(evaluate_connect(&packet, 300, peer()));
    assert!(matches!(
        v5_ack(connack).reason_code,
        ConnectAckReasonV5::BadAuthenticationMethod
    ));
}

#[test]
fn refuses_v3_empty_client_id_without_clean_session() {
    let packet = v3_connect_with("", 0, false);
    let (connack, _) = refused(evaluate_connect(&packet, 300, peer()));
    let ServerPacket::V3(ServerPacketV3::ConnectAck(ack)) = connack else {
        panic!("expected v3 CONNACK");
    };
    assert!(matches!(
        ack.return_code,
        ConnectAckReason::IdentifierRejected
    ));
}

#[test]
fn accepts_v3_empty_client_id_with_clean_session_as_anonymous() {
    let packet = v3_connect_with("", 60, true);
    let (_, client_id, _, _, _) = accepted(evaluate_connect(&packet, 300, peer()));
    assert_eq!(client_id, None);
}

#[test]
fn assigns_client_id_to_v5_empty_client_id() {
    let packet = v5_connect_with("", 0, true, None);
    let (connack, client_id, _, _, _) = accepted(evaluate_connect(&packet, 60, peer()));
    let expected = "auto-127.0.0.1:9999";
    assert_eq!(client_id.as_deref(), Some(expected));
    assert_eq!(
        v5_ack(connack).assigned_client_id.as_deref(),
        Some(expected)
    );
}

#[test]
fn v5_accept_connack_is_honest_about_capabilities() {
    let packet = v5_connect_with("dev5", 60, true, None);
    let (connack, _, _, _, _) = accepted(evaluate_connect(&packet, 60, peer()));
    let ack = v5_ack(connack);
    assert_eq!(ack.max_qos, QoS::AtLeastOnce);
    assert!(ack.wildcard_subscription_available);
    assert!(ack.shared_subscription_available);
    assert!(ack.subscription_identifiers_available);
    assert_eq!(ack.session_expiry_interval_secs, Some(0));
    assert!(!ack.session_present);
    assert!(ack.retain_available);
}

#[test]
fn retains_client_max_packet_size() {
    let packet = v5_connect_limited("dev5", 60, false, None, PacketLimit::new(128));
    let (_, _, _, _, max_packet_size) = accepted(evaluate_connect(&packet, 300, peer()));
    assert_eq!(max_packet_size, PacketLimit::new(128));

    let packet = v5_connect_with("dev5", 60, true, None);
    let (_, _, _, _, max_packet_size) = accepted(evaluate_connect(&packet, 300, peer()));
    assert_eq!(max_packet_size, None);

    let packet = v3_connect_with("dev-1", 60, false);
    let (_, _, _, _, max_packet_size) = accepted(evaluate_connect(&packet, 300, peer()));
    assert_eq!(max_packet_size, None);
}

#[test]
fn v5_keepalive_zero_falls_back_to_config_without_announcement() {
    let packet = v5_connect_with("dev5", 0, true, None);
    let (connack, _, keep_alive_secs, idle_timeout_ms, _) =
        accepted(evaluate_connect(&packet, 300, peer()));
    assert_eq!(keep_alive_secs, 0);
    assert_eq!(idle_timeout_ms, 300_000);
    assert_eq!(v5_ack(connack).server_keepalive_sec, None);
}

#[test]
fn v5_keepalive_exactly_at_config_is_not_capped() {
    let packet = v5_connect_with("dev5", 2, true, None);
    let (connack, _, keep_alive_secs, idle_timeout_ms, _) =
        accepted(evaluate_connect(&packet, 3, peer()));
    assert_eq!(keep_alive_secs, 2);
    assert_eq!(idle_timeout_ms, 3000);
    assert_eq!(v5_ack(connack).server_keepalive_sec, None);
}

#[test]
fn v5_keepalive_one_second_over_config_is_capped() {
    let packet = v5_connect_with("dev5", 2, true, None);
    let (connack, _, keep_alive_secs, idle_timeout_ms, _) =
        accepted(evaluate_connect(&packet, 2, peer()));
    assert_eq!(v5_ack(connack).server_keepalive_sec, Some(1));
    assert_eq!(keep_alive_secs, 1);
    assert_eq!(idle_timeout_ms, 1500);
}

#[test]
fn v5_huge_config_idle_clamped_to_supported_max() {
    let packet = v5_connect_with("dev5", 0, true, None);
    let (connack, _, _, idle_timeout_ms, _) = accepted(evaluate_connect(&packet, u64::MAX, peer()));
    assert_eq!(idle_timeout_ms, 31_536_000_000);
    assert_eq!(v5_ack(connack).server_keepalive_sec, None);
}

#[test]
fn v5_maximum_keepalive_under_generous_config_is_not_capped() {
    let packet = v5_connect_with("dev5", u16::MAX, true, None);
    let (connack, _, keep_alive_secs, idle_timeout_ms, _) =
        accepted(evaluate_connect(&packet, 200_000, peer()));
    assert_eq!(keep_alive_secs, 65535);
    assert_eq!(idle_timeout_ms, 98_302_500);
    assert_eq!(v5_ack(connack).server_keepalive_sec, None);
}

#[test]
fn v3_odd_keepalive_keeps_half_second_precision() {
    let packet = v3_connect_with("dev-1", 3, false);
    let (_, _, _, idle_timeout_ms, _) = accepted(evaluate_connect(&packet, 300, peer()));
    assert_eq!(idle_timeout_ms, 4500);
}

#[test]
fn refuses_v5_auth_method_even_with_empty_client_id() {
    let packet = v5_connect_with("", 60, true, Some("PLAIN"));
    let (connack, _) = refused(evaluate_connect(&packet, 300, peer()));
    let ack = v5_ack(connack);
    assert!(matches!(
        ack.reason_code,
        ConnectAckReasonV5::BadAuthenticationMethod
    ));
    assert_eq!(ack.assigned_client_id, None);
}

#[test]
fn non_connect_v5_packet_yields_not_connect() {
    let packet = MqttPacket::V5(PacketV5::PingRequest);
    let d = evaluate_connect(&packet, 300, peer());
    assert!(matches!(d, ConnectDecision::NotConnect));
}

#[test]
fn accepts_connect_carrying_will_flag() {
    let c = v3::Connect {
        last_will: Some(v3::LastWill {
            qos: rmqtt_codec::types::QoS::AtMostOnce,
            retain: false,
            topic: "will/topic".to_string().into(),
            message: bytes::Bytes::from_static(b"goodbye"),
        }),
        ..v3::Connect::default()
    }
    .client_id("dev-1".to_string());
    let mut buf = BytesMut::new();
    v3::Codec::default()
        .encode(v3::Packet::Connect(Box::new(c)), &mut buf)
        .expect("encode CONNECT");
    let packet = match MqttDecoder::v3().decode(&mut buf) {
        Ok(Decoded::Item((packet, _))) => packet,
        other => panic!("expected CONNECT, got {other:?}"),
    };
    let d = evaluate_connect(&packet, 300, peer());
    assert!(matches!(d, ConnectDecision::Accept { .. }));
}

#[test]
fn non_connect_packet_yields_not_connect() {
    let packet = MqttPacket::V3(PacketV3::PingRequest);
    let d = evaluate_connect(&packet, 300, peer());
    assert!(matches!(d, ConnectDecision::NotConnect));
}

#[test]
fn refuses_v5_connect_whose_declared_limit_cannot_hold_the_connack() {
    let packet = v5_connect_limited("dev5", 60, false, None, PacketLimit::new(11));
    let (connack, sendable) = refused(evaluate_connect(&packet, 300, peer()));
    let ack = v5_ack(connack);
    assert!(
        matches!(
            ack.reason_code,
            ConnectAckReasonV5::ImplementationSpecificError
        ),
        "size-policy refusal is ImplementationSpecificError, got {:?}",
        ack.reason_code,
    );
    assert!(
        !sendable,
        "refusal CONNACK is 12 bytes over a declared 11 - must be withheld"
    );
}

#[test]
fn accepts_at_exactly_the_connack_length_for_every_connack_shape() {
    let (a_connack, ..) = accepted(evaluate_connect(
        &v5_connect_with("dev5", 60, false, None),
        300,
        peer(),
    ));
    let a_len = encoded_len(&a_connack);
    assert_eq!(a_len, 12, "bare CONNACK length pins the lower threshold");

    let (b_connack, ..) = accepted(evaluate_connect(
        &v5_connect_with("dev5", 30, false, None),
        30,
        peer(),
    ));
    let b_len = encoded_len(&b_connack);

    let (c_connack, ..) = accepted(evaluate_connect(
        &v5_connect_with("", 60, true, None),
        300,
        peer(),
    ));
    let c_len = encoded_len(&c_connack);

    assert_ne!(a_len, b_len);
    assert_ne!(a_len, c_len);
    assert_ne!(b_len, c_len);

    let packet = v5_connect_limited("dev5", 60, false, None, PacketLimit::new(a_len as u32));
    assert!(matches!(
        evaluate_connect(&packet, 300, peer()),
        ConnectDecision::Accept { .. }
    ));

    let packet = v5_connect_limited("dev5", 30, false, None, PacketLimit::new(b_len as u32));
    assert!(matches!(
        evaluate_connect(&packet, 30, peer()),
        ConnectDecision::Accept { .. }
    ));

    let packet = v5_connect_limited("", 60, true, None, PacketLimit::new(c_len as u32));
    assert!(matches!(
        evaluate_connect(&packet, 300, peer()),
        ConnectDecision::Accept { .. }
    ));

    let a_under = a_len as u32 - 1;
    let packet = v5_connect_limited("dev5", 60, false, None, PacketLimit::new(a_under));
    assert!(
        matches!(
            evaluate_connect(&packet, 300, peer()),
            ConnectDecision::Refuse { .. }
        ),
        "shape (a) at max_packet_size = {a_under} must refuse",
    );
}

#[test]
fn v3_connect_is_never_refused_for_packet_size() {
    let packet = v3_connect_with("dev-1", 60, false);
    let d = evaluate_connect(&packet, 300, peer());
    assert!(
        matches!(d, ConnectDecision::Accept { .. }),
        "v3 CONNECT cannot be refused for packet size"
    );
}

#[test]
fn authentication_refusal_outranks_the_packet_size_refusal() {
    for (label, max_packet_size, expected_sendable) in [
        ("max=11", PacketLimit::new(11), false),
        ("max=12", PacketLimit::new(12), true),
        ("max=None", None, true),
    ] {
        let packet = v5_connect_limited("dev5", 60, true, Some("PLAIN"), max_packet_size);
        let (connack, sendable) = refused(evaluate_connect(&packet, 300, peer()));
        let ack = v5_ack(connack);
        assert!(
            matches!(ack.reason_code, ConnectAckReasonV5::BadAuthenticationMethod),
            "{label}: size policy must not overwrite the auth refusal, got {:?}",
            ack.reason_code,
        );
        assert_eq!(
            sendable, expected_sendable,
            "{label}: auth-refusal sendable must follow the size rule (false at 11, true at 12/None)",
        );
    }
}

#[test]
fn refuses_one_byte_below_the_keepalive_and_assigned_id_connack_lengths() {
    let measure = |packet: &MqttPacket, cfg: u64| -> usize {
        let (connack, ..) = accepted(evaluate_connect(packet, cfg, peer()));
        encoded_len(&connack)
    };
    let b_len = measure(&v5_connect_with("dev5", 30, false, None), 30);
    let c_len = measure(&v5_connect_with("", 60, true, None), 300);

    for (label, client_id, keep_alive, clean_start, cfg, len) in [
        (
            "server-announced keep-alive",
            "dev5",
            30_u16,
            false,
            30_u64,
            b_len,
        ),
        ("assigned client id", "", 60, true, 300, c_len),
    ] {
        assert!(
            len > 12,
            "{label}: this shape must be larger than the bare CONNACK or it proves nothing; got {len}",
        );
        let under = len as u32 - 1;
        let packet = v5_connect_limited(
            client_id,
            keep_alive,
            clean_start,
            None,
            PacketLimit::new(under),
        );
        let (connack, sendable) = refused(evaluate_connect(&packet, cfg, peer()));
        let ack = v5_ack(connack);
        assert!(
            matches!(
                ack.reason_code,
                ConnectAckReasonV5::ImplementationSpecificError
            ),
            "{label}: size-policy refusal is ImplementationSpecificError, got {:?}",
            ack.reason_code,
        );
        assert!(
            sendable,
            "{label}: the 12-byte refusal CONNACK fits {under} and must be sent",
        );
    }
}

#[test]
fn v3_refusal_connack_is_always_sendable() {
    let packet = v3_connect_with("", 0, false);
    let (connack, sendable) = refused(evaluate_connect(&packet, 300, peer()));
    let ServerPacket::V3(ServerPacketV3::ConnectAck(ack)) = connack else {
        panic!("expected v3 CONNACK");
    };
    assert!(matches!(
        ack.return_code,
        ConnectAckReason::IdentifierRejected
    ));
    assert!(
        sendable,
        "a v3 refusal CONNACK is never gated by a Maximum Packet Size"
    );
}

#[test]
fn connack_bytes_are_pinned_for_every_shape() {
    let bytes = |packet: &ServerPacket| -> Vec<u8> {
        let mut buf = BytesMut::new();
        MqttEncoder::v5().encode(packet, &mut buf).expect("encode");
        buf.to_vec()
    };
    let (bare, ..) = accepted(evaluate_connect(
        &v5_connect_with("dev5", 60, false, None),
        300,
        peer(),
    ));
    assert_eq!(
        bytes(&bare),
        vec![0x20, 0x0A, 0x00, 0x00, 0x07, 0x11, 0, 0, 0, 0, 0x24, 0x01]
    );

    let (capped, ..) = accepted(evaluate_connect(
        &v5_connect_with("dev5", 400, false, None),
        300,
        peer(),
    ));
    assert_eq!(
        bytes(&capped),
        vec![0x20, 0x0D, 0x00, 0x00, 0x0A, 0x11, 0, 0, 0, 0, 0x24, 0x01, 0x13, 0x00, 0xC8]
    );

    let (assigned, ..) = accepted(evaluate_connect(
        &v5_connect_with("", 60, true, None),
        300,
        "h:1",
    ));
    let mut expected = vec![
        0x20, 0x15, 0x00, 0x00, 0x12, 0x11, 0, 0, 0, 0, 0x24, 0x01, 0x12, 0x00, 0x08,
    ];
    expected.extend_from_slice(b"auto-h:1");
    assert_eq!(bytes(&assigned), expected);

    let (refusal, sendable) = refused(refuse_v5(ConnectAckReasonV5::BadAuthenticationMethod, None));
    assert!(sendable);
    assert_eq!(
        bytes(&refusal),
        vec![0x20, 0x0A, 0x00, 0x8C, 0x07, 0x11, 0, 0, 0, 0, 0x24, 0x01]
    );
}

#[test]
fn missing_capabilities_are_written() {
    let ack = ConnectAckV5 {
        session_present: true,
        reason_code: ConnectAckReasonV5::ClientIdentifierNotValid,
        session_expiry_interval_secs: None,
        max_qos: QoS::ExactlyOnce,
        assigned_client_id: None,
        retain_available: false,
        wildcard_subscription_available: false,
        subscription_identifiers_available: false,
        shared_subscription_available: false,
        server_keepalive_sec: None,
    };
    let mut buf = BytesMut::new();
    MqttEncoder::v5()
        .encode(&ServerPacket::V5(ServerPacketV5::ConnectAck(ack)), &mut buf)
        .expect("encode");
    assert_eq!(
        &buf[..],
        &[0x20, 0x0B, 0x01, 0x85, 0x08, 0x25, 0, 0x28, 0, 0x29, 0, 0x2A, 0][..]
    );
}

#[test]
fn an_assigned_id_that_cannot_be_encoded_is_refused_under_a_limit() {
    let peer = "p".repeat(70_000);
    let unlimited = v5_connect_with("", 60, true, None);
    assert!(matches!(
        evaluate_connect(&unlimited, 300, &peer),
        ConnectDecision::Accept { .. }
    ));
    let limited = v5_connect_limited("", 60, true, None, PacketLimit::new(u32::MAX));
    let (connack, sendable) = refused(evaluate_connect(&limited, 300, &peer));
    assert_eq!(
        v5_ack(connack).reason_code,
        ConnectAckReasonV5::ImplementationSpecificError
    );
    assert!(sendable);
}

#[test]
fn announced_keep_alive_stays_under_the_ceiling() {
    for ceiling in [2_u64, 3, 10, 100, 43_690, 98_301] {
        let k = negotiate_keep_alive(u16::MAX, ceiling);
        assert_eq!(k.announce, Some(k.secs));
        assert_eq!(k.idle_ms, u64::from(k.secs) * 1500);
        assert!(k.idle_ms <= ceiling * 1000, "ceiling {ceiling}");
    }
    assert_eq!(
        negotiate_keep_alive(10, 1),
        KeepAlive {
            secs: 1,
            idle_ms: 1500,
            announce: Some(1)
        }
    );
}

#[test]
fn timeouts_are_clamped_to_a_year() {
    assert_eq!(clamp_timeout_secs(10), 10);
    assert_eq!(clamp_timeout_secs(31_536_000), 31_536_000);
    assert_eq!(clamp_timeout_secs(u64::MAX), 31_536_000);
}

#[test]
fn a_larger_limit_never_refuses() {
    let mut accepted_before = false;
    for limit in 1..64 {
        let packet = v5_connect_limited("", 400, true, None, PacketLimit::new(limit));
        let accepts = matches!(
            evaluate_connect(&packet, 300, peer()),
            ConnectDecision::Accept { .. }
        );
        assert!(accepts || !accepted_before, "refused at {limit}");
        accepted_before = accepts;
    }
    assert!(accepted_before);
}
