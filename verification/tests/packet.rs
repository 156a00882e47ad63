use bytes::BytesMut;
use uring_mqtt::broker::packet::{
    classify_read_error, dispatch, fits_max_packet_size, fits_within, reply_over_max_packet_size,
    Disposition, Reply, Violation, TIMEOUT_CTX_PINGRESP_FLUSH, TIMEOUT_CTX_PUBACK_FLUSH,
    TIMEOUT_CTX_SUBACK_FLUSH, TIMEOUT_CTX_UNSUBACK_FLUSH,
};
use uring_mqtt::codec::encoder::MqttEncoder;
use uring_mqtt::codec::id::{FilterCount, PacketId, PacketLimit};
use uring_mqtt::codec::parse::Rejection;
use uring_mqtt::codec::types::{
    Connect, ConnectV5, DisconnectReasonCode, EncodeError, MqttPacket, PacketV3, PacketV5, Publish,
    QoS, ServerPacket, ServerPacketV3, ServerPacketV5, SubscribeAckReason, SubscribeReturnCode,
    UnsubscribeAckReason,
};
use uring_mqtt::codec::version::ProtocolVersion;
use uring_mqtt::error::{IoError, IoErrorKind};

fn publish(qos: QoS, packet_id: Option<PacketId>) -> Publish {
    Publish {
        qos,
        topic: "t".to_string(),
        packet_id,
        payload: vec![0x09, 0xC4, 0x03, 0xF5],
    }
}

fn v3_publish_fixture() -> MqttPacket {
    MqttPacket::V3(PacketV3::Publish(publish(QoS::AtMostOnce, None)))
}

fn v5_publish_fixture() -> MqttPacket {
    MqttPacket::V5(PacketV5::Publish(publish(QoS::AtMostOnce, None)))
}

fn v3_qos1_publish(packet_id: Option<PacketId>) -> MqttPacket {
    MqttPacket::V3(PacketV3::Publish(publish(QoS::AtLeastOnce, packet_id)))
}

fn v5_qos1_publish(packet_id: Option<PacketId>) -> MqttPacket {
    MqttPacket::V5(PacketV5::Publish(publish(QoS::AtLeastOnce, packet_id)))
}

fn v3_connect() -> MqttPacket {
    MqttPacket::V3(PacketV3::Connect(Connect {
        clean_session: false,
        keep_alive: 0,
        client_id: String::new(),
    }))
}

fn v5_connect() -> MqttPacket {
    MqttPacket::V5(PacketV5::Connect(ConnectV5 {
        clean_start: false,
        keep_alive: 0,
        client_id: String::new(),
        auth_method: None,
        max_packet_size: None,
    }))
}

fn v3_subscribe(packet_id: PacketId, filters: Vec<(&'static str, QoS)>) -> MqttPacket {
    MqttPacket::V3(PacketV3::Subscribe {
        packet_id,
        filters: filters.len(),
    })
}

fn v5_subscribe(packet_id: PacketId, filters: Vec<&'static str>) -> MqttPacket {
    MqttPacket::V5(PacketV5::Subscribe {
        packet_id,
        filters: filters.len(),
    })
}

fn v3_unsubscribe(packet_id: PacketId, filters: Vec<&'static str>) -> MqttPacket {
    MqttPacket::V3(PacketV3::Unsubscribe {
        packet_id,
        filters: filters.len(),
    })
}

fn v5_unsubscribe(packet_id: PacketId, filters: Vec<&'static str>) -> MqttPacket {
    MqttPacket::V5(PacketV5::Unsubscribe {
        packet_id,
        filters: filters.len(),
    })
}

fn encode(packet: ServerPacket, version: ProtocolVersion) -> Vec<u8> {
    let enc = match version {
        ProtocolVersion::MQTT3 => MqttEncoder::v3(),
        ProtocolVersion::MQTT5 => MqttEncoder::v5(),
    };
    let mut buf = BytesMut::new();
    enc.encode(&packet, &mut buf).expect("encode");
    buf.to_vec()
}

#[test]
fn dispatch_qos0_publish_delivers() {
    let binding = v3_publish_fixture();
    match dispatch(&binding) {
        Disposition::Deliver(_) => {}
        other => panic!("expected Deliver, got {other:?}"),
    }
    let binding = v5_publish_fixture();
    match dispatch(&binding) {
        Disposition::Deliver(_) => {}
        other => panic!("expected Deliver, got {other:?}"),
    }
}

#[test]
fn dispatch_duplicate_connect_is_violation() {
    let binding = v3_connect();
    assert!(matches!(
        dispatch(&binding),
        Disposition::Violation(Violation::DuplicateConnect)
    ));
    let binding = v5_connect();
    assert!(matches!(
        dispatch(&binding),
        Disposition::Violation(Violation::DuplicateConnect)
    ));
}

#[test]
fn duplicate_connect_reason_names_protocol_violation() {
    assert_eq!(
        Violation::DuplicateConnect.reason(),
        "protocol violation: duplicate CONNECT"
    );
}

#[test]
fn v3_violation_disconnect_is_none() {
    let got = Violation::DuplicateConnect.disconnect(ProtocolVersion::MQTT3, None);
    assert!(got.is_none());
}

#[test]
fn v5_violation_disconnect_encodes_protocol_error() {
    let pkt = Violation::DuplicateConnect
        .disconnect(ProtocolVersion::MQTT5, None)
        .expect("v5 disconnect");
    let bytes = encode(pkt, ProtocolVersion::MQTT5);
    assert_eq!(bytes, vec![0xE0, 0x02, 0x82, 0x00]);
}

#[test]
fn ping_response_renders_per_version() {
    let v3 = Reply::PingResponse.render(ProtocolVersion::MQTT3);
    match v3 {
        ServerPacket::V3(ServerPacketV3::PingResponse) => {}
        other => panic!("expected a 3.1.1 PINGRESP, got {other:?}"),
    }
    let v3 = Reply::PingResponse.render(ProtocolVersion::MQTT3);
    assert_eq!(encode(v3, ProtocolVersion::MQTT3), vec![0xD0, 0x00]);

    let v5 = Reply::PingResponse.render(ProtocolVersion::MQTT5);
    match v5 {
        ServerPacket::V5(ServerPacketV5::PingResponse) => {}
        other => panic!("expected a 5.0 PINGRESP, got {other:?}"),
    }
    let v5 = Reply::PingResponse.render(ProtocolVersion::MQTT5);
    assert_eq!(encode(v5, ProtocolVersion::MQTT5), vec![0xD0, 0x00]);
}

#[test]
fn remaining_variants_are_violations() {
    let v3_suback = MqttPacket::V3(PacketV3::SubscribeAck);
    assert!(matches!(
        dispatch(&v3_suback),
        Disposition::Violation(Violation::ServerOnlyPacket)
    ));

    let v5_puback = MqttPacket::V5(PacketV5::PublishAck);
    assert!(matches!(
        dispatch(&v5_puback),
        Disposition::Violation(Violation::PublishAckFromClient)
    ));

    let probe = MqttPacket::Version(ProtocolVersion::MQTT3);
    assert!(matches!(
        dispatch(&probe),
        Disposition::Violation(Violation::VersionProbe)
    ));
}

#[test]
fn v5_disconnect_protocol_error_is_0x82() {
    let pkt = ServerPacket::V5(ServerPacketV5::Disconnect {
        reason_code: DisconnectReasonCode::ProtocolError,
    });
    let bytes = encode(pkt, ProtocolVersion::MQTT5);
    assert_eq!(bytes, vec![0xE0, 0x02, 0x82, 0x00]);
}

#[test]
fn dispatch_server_only_packets_are_violations() {
    for packet in [
        MqttPacket::V3(PacketV3::ConnectAck),
        MqttPacket::V3(PacketV3::SubscribeAck),
        MqttPacket::V3(PacketV3::UnsubscribeAck),
        MqttPacket::V3(PacketV3::PingResponse),
        MqttPacket::V5(PacketV5::ConnectAck),
        MqttPacket::V5(PacketV5::SubscribeAck),
        MqttPacket::V5(PacketV5::UnsubscribeAck),
        MqttPacket::V5(PacketV5::PingResponse),
    ] {
        match dispatch(&packet) {
            Disposition::Violation(Violation::ServerOnlyPacket) => {}
            other => panic!("expected ServerOnlyPacket for {packet:?}, got {other:?}"),
        }
    }
}

#[test]
fn dispatch_qos1_publish_delivers_then_acks() {
    let id = PacketId::new(1).expect("non-zero");
    let binding = v3_qos1_publish(Some(id));
    match dispatch(&binding) {
        Disposition::DeliverThenAck(_, got_id) => assert_eq!(got_id, id),
        other => panic!("expected DeliverThenAck, got {other:?}"),
    }
    let binding = v5_qos1_publish(Some(id));
    match dispatch(&binding) {
        Disposition::DeliverThenAck(_, got_id) => assert_eq!(got_id, id),
        other => panic!("expected DeliverThenAck, got {other:?}"),
    }
}

#[test]
fn dispatch_qos1_publish_without_packet_id_is_violation() {
    let binding = v5_qos1_publish(None);
    match dispatch(&binding) {
        Disposition::Violation(Violation::PublishMissingPacketId) => {}
        other => panic!("expected Violation(PublishMissingPacketId), got {other:?}"),
    }
}

#[test]
fn publish_ack_renders_per_version() {
    let id = PacketId::new(1).expect("non-zero");
    let v3 = Reply::PublishAck(id).render(ProtocolVersion::MQTT3);
    match &v3 {
        ServerPacket::V3(ServerPacketV3::PublishAck { packet_id }) => assert_eq!(*packet_id, id),
        other => panic!("expected a 3.1.1 PUBACK, got {other:?}"),
    }
    assert_eq!(
        encode(v3, ProtocolVersion::MQTT3),
        vec![0x40, 0x02, 0x00, 0x01]
    );

    let v5 = Reply::PublishAck(id).render(ProtocolVersion::MQTT5);
    match &v5 {
        ServerPacket::V5(ServerPacketV5::PublishAck { packet_id, .. }) => {
            assert_eq!(*packet_id, id);
        }
        other => panic!("expected a 5.0 PUBACK, got {other:?}"),
    }
    assert_eq!(
        encode(v5, ProtocolVersion::MQTT5),
        vec![0x40, 0x04, 0x00, 0x01, 0x00, 0x00]
    );
}

#[test]
fn dispatch_subscribe_refuses_every_filter() {
    let id = PacketId::new(1).expect("non-zero");
    let binding = v3_subscribe(id, vec![("a", QoS::AtMostOnce), ("b/c", QoS::AtMostOnce)]);
    match dispatch(&binding) {
        Disposition::Reply(Reply::SubscribeRefusal(got_id, n)) => {
            assert_eq!(got_id, id);
            assert_eq!(n.get(), 2);
        }
        other => panic!("expected SubscribeRefusal, got {other:?}"),
    }

    let binding = v5_subscribe(id, vec!["x"]);
    match dispatch(&binding) {
        Disposition::Reply(Reply::SubscribeRefusal(got_id, n)) => {
            assert_eq!(got_id, id);
            assert_eq!(n.get(), 1);
        }
        other => panic!("expected SubscribeRefusal, got {other:?}"),
    }
}

#[test]
fn dispatch_empty_filter_subscribe_is_violation() {
    let id = PacketId::new(1).expect("non-zero");
    let binding = v3_subscribe(id, vec![]);
    assert!(matches!(
        dispatch(&binding),
        Disposition::Violation(Violation::EmptyTopicFilterList)
    ));

    let binding = v5_subscribe(id, vec![]);
    assert!(matches!(
        dispatch(&binding),
        Disposition::Violation(Violation::EmptyTopicFilterList)
    ));
}

#[test]
fn subscribe_refusal_renders_one_failure_code_per_filter() {
    let id1 = PacketId::new(1).expect("non-zero");
    let id37 = PacketId::new(37).expect("non-zero");
    let one = FilterCount::new(1).expect("n");
    let two = FilterCount::new(2).expect("n");

    let v3_one = Reply::SubscribeRefusal(id1, one).render(ProtocolVersion::MQTT3);
    match &v3_one {
        ServerPacket::V3(ServerPacketV3::SubscribeAck { packet_id, status }) => {
            assert_eq!(*packet_id, id1);
            assert_eq!(status.len(), 1);
            assert!(matches!(status[0], SubscribeReturnCode::Failure));
        }
        other => panic!("expected a 3.1.1 SUBACK, got {other:?}"),
    }
    assert_eq!(
        encode(v3_one, ProtocolVersion::MQTT3),
        vec![0x90, 0x03, 0x00, 0x01, 0x80]
    );

    let v3_two = Reply::SubscribeRefusal(id1, two).render(ProtocolVersion::MQTT3);
    assert_eq!(
        encode(v3_two, ProtocolVersion::MQTT3),
        vec![0x90, 0x04, 0x00, 0x01, 0x80, 0x80]
    );

    let v5_one = Reply::SubscribeRefusal(id1, one).render(ProtocolVersion::MQTT5);
    match &v5_one {
        ServerPacket::V5(ServerPacketV5::SubscribeAck { packet_id, status }) => {
            assert_eq!(*packet_id, id1);
            assert_eq!(status.len(), 1);
            assert_eq!(status[0], SubscribeAckReason::ImplementationSpecificError);
        }
        other => panic!("expected a 5.0 SUBACK, got {other:?}"),
    }
    assert_eq!(
        encode(v5_one, ProtocolVersion::MQTT5),
        vec![0x90, 0x04, 0x00, 0x01, 0x00, 0x83]
    );

    let v5_two = Reply::SubscribeRefusal(id1, two).render(ProtocolVersion::MQTT5);
    assert_eq!(
        encode(v5_two, ProtocolVersion::MQTT5),
        vec![0x90, 0x05, 0x00, 0x01, 0x00, 0x83, 0x83]
    );

    let v3_id37 = Reply::SubscribeRefusal(id37, one).render(ProtocolVersion::MQTT3);
    assert_eq!(
        encode(v3_id37, ProtocolVersion::MQTT3),
        vec![0x90, 0x03, 0x00, 0x25, 0x80]
    );

    let v5_id37 = Reply::SubscribeRefusal(id37, one).render(ProtocolVersion::MQTT5);
    assert_eq!(
        encode(v5_id37, ProtocolVersion::MQTT5),
        vec![0x90, 0x04, 0x00, 0x25, 0x00, 0x83]
    );
}

#[test]
fn subscribe_refusal_over_client_max_packet_size_is_violation() {
    let id = PacketId::new(1).expect("non-zero");
    let refusal = Reply::SubscribeRefusal(id, FilterCount::new(200).expect("n"));
    assert_eq!(
        refusal.encoded_len(ProtocolVersion::MQTT5),
        Some(206),
        "3-byte fixed header + 2 packet id + 1 property length + 200 reason codes"
    );

    assert_eq!(
        reply_over_max_packet_size(
            refusal,
            ProtocolVersion::MQTT5,
            Some(PacketLimit::new(128).expect("non-zero")),
        ),
        Some(Violation::ReplyOverMaxPacketSize)
    );
    assert_eq!(
        reply_over_max_packet_size(
            refusal,
            ProtocolVersion::MQTT5,
            Some(PacketLimit::new(4096).expect("non-zero")),
        ),
        None
    );
    assert_eq!(
        reply_over_max_packet_size(refusal, ProtocolVersion::MQTT5, None),
        None
    );
}

#[test]
fn reply_exactly_at_max_packet_size_is_sendable() {
    let two = PacketLimit::new(2).expect("non-zero");
    let one = PacketLimit::new(1).expect("non-zero");
    assert_eq!(
        Reply::PingResponse.encoded_len(ProtocolVersion::MQTT3),
        Some(2)
    );
    assert_eq!(
        reply_over_max_packet_size(Reply::PingResponse, ProtocolVersion::MQTT3, Some(two)),
        None
    );
    assert_eq!(
        reply_over_max_packet_size(Reply::PingResponse, ProtocolVersion::MQTT3, Some(one)),
        Some(Violation::ReplyOverMaxPacketSize)
    );
}

#[test]
fn reply_over_max_packet_size_disconnects_with_packet_too_large() {
    let pkt = Violation::ReplyOverMaxPacketSize
        .disconnect(ProtocolVersion::MQTT5, None)
        .expect("v5 disconnect");
    assert_eq!(
        encode(pkt, ProtocolVersion::MQTT5),
        vec![0xE0, 0x02, 0x95, 0x00]
    );
    assert!(Violation::ReplyOverMaxPacketSize
        .disconnect(ProtocolVersion::MQTT3, None)
        .is_none());
    assert_eq!(
        Violation::ReplyOverMaxPacketSize.reason(),
        "protocol violation: reply exceeds the client's maximum packet size"
    );
}

#[test]
fn violation_disconnect_under_the_clients_max_packet_size_is_omitted() {
    let four = PacketLimit::new(4).expect("non-zero");
    let three = PacketLimit::new(3).expect("non-zero");
    for violation in [
        Violation::ReplyOverMaxPacketSize,
        Violation::DuplicateConnect,
        Violation::PublishMissingPacketId,
        Violation::EmptyTopicFilterList,
    ] {
        let pkt = violation
            .disconnect(ProtocolVersion::MQTT5, Some(four))
            .expect("v5 disconnect fits a 4-byte limit");
        assert_eq!(encode(pkt, ProtocolVersion::MQTT5).len(), 4);
        assert!(
            violation
                .disconnect(ProtocolVersion::MQTT5, Some(three))
                .is_none(),
            "{violation:?} must not send a 4-byte DISCONNECT under a 3-byte limit"
        );
    }
}

#[test]
fn dispatch_v5_wildcard_subscribe_refuses_with_suback() {
    let id = PacketId::new(1).expect("non-zero");
    let binding = v5_subscribe(id, vec!["t/#", "t/+", "$share/g/t"]);
    match dispatch(&binding) {
        Disposition::Reply(Reply::SubscribeRefusal(got_id, n)) => {
            assert_eq!(got_id, id);
            assert_eq!(n.get(), 3);
        }
        other => panic!("expected SubscribeRefusal with 3 filters, got {other:?}"),
    }
}

#[test]
fn dispatch_unsubscribe_acknowledges_every_filter() {
    let id1 = PacketId::new(1).expect("non-zero");
    let id37 = PacketId::new(37).expect("non-zero");

    let binding = v3_unsubscribe(id1, vec!["a", "b/c"]);
    match dispatch(&binding) {
        Disposition::Reply(Reply::UnsubscribeAck(got_id, n)) => {
            assert_eq!(got_id, id1);
            assert_eq!(n.get(), 2);
        }
        other => panic!("expected UnsubscribeAck with id 1, got {other:?}"),
    }

    let binding = v3_unsubscribe(id37, vec!["t"]);
    match dispatch(&binding) {
        Disposition::Reply(Reply::UnsubscribeAck(got_id, n)) => {
            assert_eq!(got_id, id37, "id must be propagated, not hardcoded 1");
            assert_eq!(n.get(), 1);
        }
        other => panic!("expected UnsubscribeAck with id 37, got {other:?}"),
    }

    let binding = v5_unsubscribe(id1, vec!["x"]);
    match dispatch(&binding) {
        Disposition::Reply(Reply::UnsubscribeAck(got_id, n)) => {
            assert_eq!(got_id, id1);
            assert_eq!(n.get(), 1);
        }
        other => panic!("expected v5 UnsubscribeAck with id 1, got {other:?}"),
    }
}

#[test]
fn dispatch_v5_unsubscribe_propagates_id_and_filter_count() {
    let id37 = PacketId::new(37).expect("non-zero");
    let binding = v5_unsubscribe(id37, vec!["a", "b/c"]);
    match dispatch(&binding) {
        Disposition::Reply(Reply::UnsubscribeAck(got_id, n)) => {
            assert_eq!(got_id, id37, "id must be propagated, not hardcoded 1");
            assert_eq!(n.get(), 2, "one status byte per requested filter");
        }
        other => panic!("expected v5 UnsubscribeAck with id 37 and 2 filters, got {other:?}"),
    }
}

#[test]
fn reply_timeout_context_matches_its_flush_constant() {
    let id = PacketId::new(1).expect("non-zero");
    let one = FilterCount::new(1).expect("non-zero");

    assert_eq!(
        Reply::PingResponse.timeout_context(),
        TIMEOUT_CTX_PINGRESP_FLUSH
    );
    assert_eq!(
        Reply::PublishAck(id).timeout_context(),
        TIMEOUT_CTX_PUBACK_FLUSH
    );
    assert_eq!(
        Reply::SubscribeRefusal(id, one).timeout_context(),
        TIMEOUT_CTX_SUBACK_FLUSH
    );
    assert_eq!(
        Reply::UnsubscribeAck(id, one).timeout_context(),
        TIMEOUT_CTX_UNSUBACK_FLUSH
    );

    let contexts = [
        Reply::PingResponse.timeout_context(),
        Reply::PublishAck(id).timeout_context(),
        Reply::SubscribeRefusal(id, one).timeout_context(),
        Reply::UnsubscribeAck(id, one).timeout_context(),
    ];
    let mut distinct = contexts.to_vec();
    distinct.sort_unstable();
    distinct.dedup();
    assert_eq!(
        distinct.len(),
        contexts.len(),
        "each reply must flush under a distinct context: {contexts:?}"
    );
}

#[test]
fn dispatch_empty_filter_unsubscribe_is_violation() {
    let id = PacketId::new(1).expect("non-zero");
    let binding = v3_unsubscribe(id, vec![]);
    assert!(matches!(
        dispatch(&binding),
        Disposition::Violation(Violation::EmptyTopicFilterList)
    ));

    let binding = v5_unsubscribe(id, vec![]);
    assert!(matches!(
        dispatch(&binding),
        Disposition::Violation(Violation::EmptyTopicFilterList)
    ));
}

#[test]
fn empty_filter_list_disconnect_encodes_protocol_error() {
    let id = PacketId::new(1).expect("non-zero");
    for binding in [v5_subscribe(id, vec![]), v5_unsubscribe(id, vec![])] {
        let violation = match dispatch(&binding) {
            Disposition::Violation(v @ Violation::EmptyTopicFilterList) => v,
            other => panic!("expected Violation(EmptyTopicFilterList), got {other:?}"),
        };
        let pkt = violation
            .disconnect(ProtocolVersion::MQTT5, None)
            .expect("v5 disconnect");
        assert_eq!(
            encode(pkt, ProtocolVersion::MQTT5),
            vec![0xE0, 0x02, 0x82, 0x00],
            "empty filter list is a Protocol Error (0x82), not MalformedPacket (0x81)"
        );
        assert!(violation.disconnect(ProtocolVersion::MQTT3, None).is_none());
    }
}

#[test]
fn unsubscribe_ack_renders_per_version() {
    let id1 = PacketId::new(1).expect("non-zero");
    let id37 = PacketId::new(37).expect("non-zero");
    let one = FilterCount::new(1).expect("n");
    let two = FilterCount::new(2).expect("n");

    let v3_one = Reply::UnsubscribeAck(id1, one).render(ProtocolVersion::MQTT3);
    match &v3_one {
        ServerPacket::V3(ServerPacketV3::UnsubscribeAck { packet_id }) => {
            assert_eq!(*packet_id, id1);
        }
        other => panic!("expected a 3.1.1 UNSUBACK, got {other:?}"),
    }
    assert_eq!(
        encode(v3_one, ProtocolVersion::MQTT3),
        vec![0xB0, 0x02, 0x00, 0x01]
    );

    let v3_two = Reply::UnsubscribeAck(id1, two).render(ProtocolVersion::MQTT3);
    assert_eq!(
        encode(v3_two, ProtocolVersion::MQTT3),
        vec![0xB0, 0x02, 0x00, 0x01]
    );

    let v5_one = Reply::UnsubscribeAck(id1, one).render(ProtocolVersion::MQTT5);
    match &v5_one {
        ServerPacket::V5(ServerPacketV5::UnsubscribeAck { packet_id, status }) => {
            assert_eq!(*packet_id, id1);
            assert_eq!(status.len(), 1);
            assert_eq!(status[0], UnsubscribeAckReason::NoSubscriptionExisted);
        }
        other => panic!("expected a 5.0 UNSUBACK, got {other:?}"),
    }
    assert_eq!(
        encode(v5_one, ProtocolVersion::MQTT5),
        vec![0xB0, 0x04, 0x00, 0x01, 0x00, 0x11]
    );

    let v5_two = Reply::UnsubscribeAck(id1, two).render(ProtocolVersion::MQTT5);
    assert_eq!(
        encode(v5_two, ProtocolVersion::MQTT5),
        vec![0xB0, 0x05, 0x00, 0x01, 0x00, 0x11, 0x11]
    );

    let v3_id37 = Reply::UnsubscribeAck(id37, one).render(ProtocolVersion::MQTT3);
    assert_eq!(
        encode(v3_id37, ProtocolVersion::MQTT3),
        vec![0xB0, 0x02, 0x00, 0x25]
    );

    let v5_id37 = Reply::UnsubscribeAck(id37, one).render(ProtocolVersion::MQTT5);
    assert_eq!(
        encode(v5_id37, ProtocolVersion::MQTT5),
        vec![0xB0, 0x04, 0x00, 0x25, 0x00, 0x11]
    );
}

#[test]
fn dispatch_qos2_flow_packets_are_violations() {
    for packet in [
        MqttPacket::V3(PacketV3::PublishReceived),
        MqttPacket::V3(PacketV3::PublishRelease),
        MqttPacket::V3(PacketV3::PublishComplete),
        MqttPacket::V5(PacketV5::PublishReceived),
        MqttPacket::V5(PacketV5::PublishRelease),
        MqttPacket::V5(PacketV5::PublishComplete),
    ] {
        assert!(matches!(
            dispatch(&packet),
            Disposition::Violation(Violation::Qos2FlowNotImplemented)
        ));
    }
}

#[test]
fn dispatch_qos2_publish_exceeds_max_qos() {
    let id = PacketId::new(1).expect("non-zero");
    let v3 = MqttPacket::V3(PacketV3::Publish(publish(QoS::ExactlyOnce, Some(id))));
    assert!(matches!(
        dispatch(&v3),
        Disposition::Violation(Violation::PublishQosAboveMaximum)
    ));
    let v5 = MqttPacket::V5(PacketV5::Publish(publish(QoS::ExactlyOnce, Some(id))));
    assert!(matches!(
        dispatch(&v5),
        Disposition::Violation(Violation::PublishQosAboveMaximum)
    ));
}

#[test]
fn dispatch_v5_auth_is_violation() {
    let binding = MqttPacket::V5(PacketV5::Auth);
    assert!(matches!(
        dispatch(&binding),
        Disposition::Violation(Violation::AuthNotNegotiated)
    ));
}

#[test]
fn dispatch_client_puback_is_violation() {
    let v3 = MqttPacket::V3(PacketV3::PublishAck);
    assert!(matches!(
        dispatch(&v3),
        Disposition::Violation(Violation::PublishAckFromClient)
    ));

    let v5 = MqttPacket::V5(PacketV5::PublishAck);
    assert!(matches!(
        dispatch(&v5),
        Disposition::Violation(Violation::PublishAckFromClient)
    ));
}

#[test]
fn qos_not_supported_disconnect_encodes_9b() {
    let pkt = Violation::PublishQosAboveMaximum
        .disconnect(ProtocolVersion::MQTT5, None)
        .expect("v5 disconnect");
    assert_eq!(
        encode(pkt, ProtocolVersion::MQTT5),
        vec![0xE0, 0x02, 0x9B, 0x00]
    );

    let pkt = Violation::Qos2FlowNotImplemented
        .disconnect(ProtocolVersion::MQTT5, None)
        .expect("v5 disconnect");
    assert_eq!(
        encode(pkt, ProtocolVersion::MQTT5),
        vec![0xE0, 0x02, 0x9B, 0x00]
    );
}

#[test]
fn classify_read_error_flags_decoder_rejection() {
    let err = IoError::Rejected(Rejection::new(
        rmqtt_codec::error::DecodeError::MalformedPacket,
    ));
    assert_eq!(err.kind(), IoErrorKind::InvalidData);
    assert_eq!(classify_read_error(&err), Some(Violation::MalformedPacket));
}

#[test]
fn classify_read_error_ignores_transport_error() {
    let err = IoError::Transport {
        kind: IoErrorKind::InvalidData,
        message: String::new(),
    };
    assert_eq!(err.kind(), IoErrorKind::InvalidData);
    assert_eq!(classify_read_error(&err), None);
}

#[test]
fn malformed_packet_disconnect_encodes_81() {
    let pkt = Violation::MalformedPacket
        .disconnect(ProtocolVersion::MQTT5, None)
        .expect("v5 disconnect");
    assert_eq!(
        encode(pkt, ProtocolVersion::MQTT5),
        vec![0xE0, 0x02, 0x81, 0x00]
    );
    assert!(Violation::MalformedPacket
        .disconnect(ProtocolVersion::MQTT3, None)
        .is_none());
}

#[test]
fn every_violation_has_its_own_reason() {
    let all = [
        Violation::DuplicateConnect,
        Violation::PublishMissingPacketId,
        Violation::EmptyTopicFilterList,
        Violation::ReplyOverMaxPacketSize,
        Violation::ServerOnlyPacket,
        Violation::Qos2FlowNotImplemented,
        Violation::PublishAckFromClient,
        Violation::AuthNotNegotiated,
        Violation::PublishQosAboveMaximum,
        Violation::MalformedPacket,
        Violation::VersionProbe,
    ];
    let mut reasons: Vec<&str> = all.iter().map(|v| v.reason()).collect();
    assert!(reasons.iter().all(|r| r.starts_with("protocol violation: ")));
    reasons.sort_unstable();
    reasons.dedup();
    assert_eq!(reasons.len(), all.len());
}

#[test]
fn ping_request_and_disconnect_are_answered_and_closed() {
    let ping = MqttPacket::V5(PacketV5::PingRequest);
    assert!(matches!(
        dispatch(&ping),
        Disposition::Reply(Reply::PingResponse)
    ));
    let leave = MqttPacket::V3(PacketV3::Disconnect);
    assert!(matches!(dispatch(&leave), Disposition::Close));
}

#[test]
fn an_unmeasurable_packet_fits_no_limit() {
    let limit = PacketLimit::new(u32::MAX);
    assert!(fits_within(None, None));
    assert!(!fits_within(None, limit));
    assert!(fits_within(Some(7), PacketLimit::new(7)));
    assert!(!fits_within(Some(8), PacketLimit::new(7)));

    let other_version = ServerPacket::V3(ServerPacketV3::PingResponse);
    assert!(!fits_max_packet_size(
        &other_version,
        ProtocolVersion::MQTT5,
        limit
    ));
    assert!(fits_max_packet_size(
        &other_version,
        ProtocolVersion::MQTT3,
        PacketLimit::new(2)
    ));
}

#[test]
fn a_reply_beyond_the_length_field_cannot_be_measured() {
    let id = PacketId::new(1).expect("non-zero");
    let huge = FilterCount::new(usize::MAX).expect("n");
    let refusal = Reply::SubscribeRefusal(id, huge);
    assert_eq!(refusal.encoded_len(ProtocolVersion::MQTT3), None);
    assert_eq!(refusal.encoded_len(ProtocolVersion::MQTT5), None);
    let ack = Reply::UnsubscribeAck(id, huge);
    assert_eq!(ack.encoded_len(ProtocolVersion::MQTT3), Some(4));
    assert_eq!(ack.encoded_len(ProtocolVersion::MQTT5), None);
}

#[test]
fn a_packet_of_the_other_version_is_malformed() {
    let mut buf = BytesMut::new();
    buf.extend_from_slice(b"kept");
    let packet = ServerPacket::V5(ServerPacketV5::PingResponse);
    assert_eq!(
        MqttEncoder::v3().encode(&packet, &mut buf),
        Err(EncodeError::MalformedPacket)
    );
    assert_eq!(&buf[..], b"kept");
}

#[test]
fn long_refusals_use_longer_length_fields() {
    let id = PacketId::new(0x1234).expect("non-zero");
    for (count, len) in [(124, 129), (125, 131), (16380, 16386), (16381, 16388)] {
        let refusal = Reply::SubscribeRefusal(id, FilterCount::new(count).expect("n"));
        assert_eq!(refusal.encoded_len(ProtocolVersion::MQTT5), Some(len));
        let bytes = encode(refusal.render(ProtocolVersion::MQTT5), ProtocolVersion::MQTT5);
        assert_eq!(bytes.len(), len);
        assert_eq!(bytes[0], 0x90);
        assert_eq!(bytes[len - 1], 0x83);
    }
}
