use bytes::BytesMut;
use rmqtt_codec::v5;
use std::time::{Duration, Instant};
use tokio_util::codec::{Decoder, Encoder};
use uring_mqtt::broker::event::Event;
use uring_mqtt::broker::handler::{
    IoEvent, Level, Next, Note, ReadEvent, SendEvent, Session, SessionOutcome,
};
use uring_mqtt::codec::decoder::{Decoded, MqttDecoder, VersionDecoder};
use uring_mqtt::codec::encoder::MqttEncoder;
use uring_mqtt::codec::types::MqttPacket;
use uring_mqtt::codec::version::ProtocolVersion;
use uring_mqtt::connection::ConnectionState;
use uring_mqtt::error::Error;
use uring_mqtt::record::clock::Clock;

const V3_CONNECT_TEST: [u8; 18] = [
    0x10, 0x10, 0x00, 0x04, b'M', b'Q', b'T', b'T', 0x04, 0x00, 0x00, 0x3C, 0x00, 0x04, b't', b'e',
    b's', b't',
];
const V3_CONNECT_TEST_KA1: [u8; 18] = [
    0x10, 0x10, 0x00, 0x04, b'M', b'Q', b'T', b'T', 0x04, 0x00, 0x00, 0x01, 0x00, 0x04, b't', b'e',
    b's', b't',
];
const V3_CONNECT_TEST_KA2: [u8; 18] = [
    0x10, 0x10, 0x00, 0x04, b'M', b'Q', b'T', b'T', 0x04, 0x00, 0x00, 0x02, 0x00, 0x04, b't', b'e',
    b's', b't',
];
const V3_CONNECT_FIRST_9: [u8; 9] = [0x10, 0x10, 0x00, 0x04, b'M', b'Q', b'T', b'T', 0x04];
const V3_CONNECT_LAST_9: [u8; 9] = [0x00, 0x00, 0x3C, 0x00, 0x04, b't', b'e', b's', b't'];
const V3_CONNECT_KA1_LAST_9: [u8; 9] = [0x00, 0x00, 0x01, 0x00, 0x04, b't', b'e', b's', b't'];
const PUBLISH_QOS0_T: [u8; 9] = [0x30, 0x07, 0x00, 0x01, b't', 0x09, 0xC4, 0x03, 0xF5];
const PINGREQ: [u8; 2] = [0xC0, 0x00];
const DISCONNECT: [u8; 2] = [0xE0, 0x00];
const CONNACK_OK: [u8; 4] = [0x20, 0x02, 0x00, 0x00];
const READING: Event = Event::SensorV1 {
    temperature: 2500,
    pressure: 1013,
};

/// A client and a stream on a clock of their own, which counts milliseconds from
/// the start of the session: when which bytes arrive, and how long writes take. A
/// client that has sent everything stays silent.
struct Script {
    connection_timeout_secs: u64,
    idle_timeout_secs: u64,
    arrivals: Vec<(u64, Vec<u8>)>,
    write_delay: u64,
    undelayed_writes: usize,
    peer: &'static str,
}

/// How a session on such a stream went.
struct Run {
    /// What was written, and when the write was done.
    writes: Vec<(u64, Vec<u8>)>,
    closed_at: u64,
    delivered: Vec<Event>,
    notes: Vec<Note>,
    result: Result<SessionOutcome, Error>,
    peer: String,
}

impl Run {
    fn written(&self) -> Vec<u8> {
        self.writes.iter().flat_map(|(_, w)| w.clone()).collect()
    }

    fn timeouts(&self, level: Level) -> Vec<&'static str> {
        let at_level = self.notes.iter().filter(|n| n.level() == level);
        let texts = at_level.map(|n| n.text());
        texts.filter(|t| t.contains("timeout")).collect()
    }

    fn warned(&self) -> bool {
        self.notes.iter().any(|n| n.level() == Level::Warn)
    }
}

fn script(connection_timeout_secs: u64, idle_timeout_secs: u64) -> Script {
    Script {
        connection_timeout_secs,
        idle_timeout_secs,
        arrivals: Vec::new(),
        write_delay: 0,
        undelayed_writes: 0,
        peer: "127.0.0.1:9999",
    }
}

impl Script {
    fn sends(mut self, at: u64, bytes: &[u8]) -> Script {
        self.arrivals.push((at, bytes.to_vec()));
        self
    }

    fn writes_take(mut self, millis: u64, undelayed: usize) -> Script {
        self.write_delay = millis;
        self.undelayed_writes = undelayed;
        self
    }

    fn from_peer(mut self, peer: &'static str) -> Script {
        self.peer = peer;
        self
    }

    /// Waits for bytes until the deadline. What is in the buffer goes first, so a
    /// deadline that has passed does not matter to it.
    fn wait(&mut self, now: &mut u64, deadline: u64, buf: &mut BytesMut) -> bool {
        match self.arrivals.first() {
            Some((at, _)) if *at <= *now || *at < deadline => {
                let (at, bytes) = self.arrivals.remove(0);
                *now = at.max(*now);
                buf.extend_from_slice(&bytes);
                true
            }
            _ => {
                *now = deadline.max(*now);
                false
            }
        }
    }

    fn run(mut self) -> Run {
        let t0 = Instant::now();
        let mut now: u64 = 0;
        let mut session = Session::begun_at(
            self.peer.to_string(),
            self.connection_timeout_secs,
            self.idle_timeout_secs,
            t0,
        );
        let mut buf = BytesMut::new();
        let mut decoder = MqttDecoder::v3();
        let mut writes = Vec::new();
        let mut delivered = Vec::new();
        let mut notes = Vec::new();
        let mut next = Next::DetectVersion;
        loop {
            let (allowance_ms, since) = session.allowance();
            let deadline = since.duration_since(t0).as_millis() as u64 + allowance_ms;
            let event = match next {
                Next::DetectVersion => loop {
                    match VersionDecoder::new().decode(&buf) {
                        Ok(Decoded::Item(version)) => {
                            break IoEvent::Version(ReadEvent::Item(version));
                        }
                        Ok(Decoded::Insufficient) => {}
                        Err(e) => break IoEvent::Version(ReadEvent::Failed(e)),
                    }
                    if !self.wait(&mut now, deadline, &mut buf) {
                        break IoEvent::Version(ReadEvent::TimedOut);
                    }
                },
                Next::ReadConnect(_) | Next::ReadPacket => {
                    if let Next::ReadConnect(version) = next {
                        decoder = MqttDecoder::new(version);
                    }
                    loop {
                        match decoder.decode(&mut buf) {
                            Ok(Decoded::Item((packet, _))) => {
                                break IoEvent::Packet(ReadEvent::Item(packet));
                            }
                            Ok(Decoded::Insufficient) => {}
                            Err(e) => break IoEvent::Packet(ReadEvent::Failed(e)),
                        }
                        if !self.wait(&mut now, deadline, &mut buf) {
                            break IoEvent::Packet(ReadEvent::TimedOut);
                        }
                    }
                }
                Next::Send { packet, .. } => {
                    let delay = if self.undelayed_writes > 0 {
                        self.undelayed_writes -= 1;
                        0
                    } else {
                        self.write_delay
                    };
                    if now + delay <= deadline {
                        now += delay;
                        let mut out = BytesMut::new();
                        MqttEncoder::new(decoder.version)
                            .encode(&packet, &mut out)
                            .expect("encode");
                        writes.push((now, out.to_vec()));
                        IoEvent::Sent(SendEvent::Flushed)
                    } else {
                        now = deadline.max(now);
                        IoEvent::Sent(SendEvent::TimedOut)
                    }
                }
                Next::Finish(result) => {
                    return Run {
                        writes,
                        closed_at: now,
                        delivered,
                        notes,
                        result,
                        peer: session.peer_addr,
                    };
                }
            };
            let step = session.step_at(event, t0 + Duration::from_millis(now));
            notes.extend(step.note);
            delivered.extend(step.deliver);
            next = step.next;
        }
    }
}

fn encode_v5(packet: v5::Packet) -> Vec<u8> {
    let mut buf = BytesMut::new();
    v5::Codec::default()
        .encode(packet, &mut buf)
        .expect("encode");
    buf.to_vec()
}

fn encode_v5_connect(keep_alive: u16, client_id: &str) -> Vec<u8> {
    encode_v5(v5::Packet::Connect(Box::new(v5::Connect {
        client_id: client_id.to_string().into(),
        keep_alive,
        ..Default::default()
    })))
}

fn v5_connack(written: &[u8]) -> v5::ConnectAck {
    match v5::Codec::default().decode(&mut BytesMut::from(written)) {
        Ok(Some((v5::Packet::ConnectAck(ack), _))) => *ack,
        other => panic!("expected v5 CONNACK, got {other:?}"),
    }
}

#[test]
fn v5_connect_publish_pingreq_full_roundtrip() {
    let mut coalesced = encode_v5_connect(60, "dev5");
    coalesced.extend_from_slice(&[0x30, 0x08, 0x00, 0x01, b't', 0x00, 0x09, 0xC4, 0x03, 0xF5]);
    coalesced.extend_from_slice(&PINGREQ);
    let run = script(2, 30)
        .sends(0, &coalesced)
        .sends(100, &DISCONNECT)
        .run();
    let ack = v5_connack(&run.writes[0].1);
    assert!(matches!(ack.reason_code, v5::ConnectAckReason::Success));
    assert!(!ack.session_present);
    assert!(matches!(
        ack.max_qos,
        rmqtt_codec::types::QoS::AtLeastOnce
    ));
    assert_eq!(run.writes[1].1, vec![0xD0, 0x00]);
    assert_eq!(run.delivered.len(), 1);
    assert!(matches!(run.delivered[0], Event::SensorV1 { .. }));
    assert!(run.result.is_ok());
}

#[test]
fn replies_client_identifier_not_valid_to_v5_empty_id_without_clean_start() {
    let connect = encode_v5(v5::Packet::Connect(Box::<v5::Connect>::default()));
    let run = script(2, 30).sends(0, &connect).run();
    let ack = v5_connack(&run.written());
    assert!(matches!(
        ack.reason_code,
        v5::ConnectAckReason::ClientIdentifierNotValid
    ));
    assert!(matches!(
        ack.max_qos,
        rmqtt_codec::types::QoS::AtLeastOnce
    ));
    assert!(ack.wildcard_subscription_available);
    assert!(ack.shared_subscription_available);
    assert!(ack.subscription_identifiers_available);
    assert_eq!(ack.session_expiry_interval_secs, Some(0));
    assert!(ack.retain_available);
    assert!(run.result.is_ok());
}

#[test]
fn closes_connection_when_keepalive_expires_at_1_5x() {
    let run = script(2, 30).sends(0, &V3_CONNECT_TEST_KA1).run();
    assert_eq!(run.written(), CONNACK_OK);
    assert!(run.result.is_ok());
    assert!((1300..=2300).contains(&run.closed_at));
    assert_eq!(run.closed_at, 1500);
}

#[test]
fn closes_at_1_5x_of_two_second_keepalive() {
    let run = script(2, 30).sends(0, &V3_CONNECT_TEST_KA2).run();
    assert_eq!(run.written(), CONNACK_OK);
    assert!(run.result.is_ok());
    assert_eq!(run.timeouts(Level::Debug), vec!["client idle timeout"]);
    assert!(!run.warned());
    assert!((2600..=4600).contains(&run.closed_at));
    assert_eq!(run.closed_at, 3000);
}

#[test]
fn v5_capped_keepalive_enforced_at_announced_deadline() {
    let run = script(2, 2).sends(0, &encode_v5_connect(60, "dev5")).run();
    assert_eq!(
        v5_connack(&run.written()).server_keepalive_sec,
        Some(1)
    );
    assert!(run.result.is_ok());
    assert!((1350..=1850).contains(&run.closed_at));
    assert_eq!(run.closed_at, 1500);
}

#[test]
fn closes_silent_client_when_handshake_budget_expires() {
    let run = script(1, 30).run();
    assert!(run.written().is_empty());
    assert!(matches!(run.result, Err(Error::Timeout)));
    assert_eq!(
        run.timeouts(Level::Debug),
        vec!["handshake timeout during version detect"]
    );
    assert!(!run.warned());
    assert!((700..=2500).contains(&run.closed_at));
    assert_eq!(run.closed_at, 1000);
}

#[test]
fn closes_blocked_writer_when_idle_deadline_passes() {
    let mut prefix = V3_CONNECT_TEST_KA1.to_vec();
    prefix.extend_from_slice(&PINGREQ);
    let run = script(5, 30)
        .sends(0, &prefix)
        .writes_take(10_000, 1)
        .run();
    assert!(matches!(run.result, Err(Error::Timeout)));
    assert_eq!(
        run.timeouts(Level::Debug),
        vec!["idle timeout during PINGRESP flush"]
    );
    assert!(!run.warned());
    assert!((1300..=2500).contains(&run.closed_at));
}

#[test]
fn closes_at_1_5x_from_connect_receipt_under_slow_connack_flush() {
    let run = script(5, 30)
        .sends(0, &V3_CONNECT_FIRST_9)
        .sends(1000, &V3_CONNECT_KA1_LAST_9)
        .writes_take(1000, 0)
        .run();
    assert_eq!(run.writes, vec![(2000, CONNACK_OK.to_vec())]);
    assert!(run.result.is_ok());
    let from_connect = run.closed_at - 1000;
    assert!((1300..=2100).contains(&from_connect));
    assert_eq!(from_connect, 1500);
}

#[test]
fn processes_publish_buffered_with_connect_under_overlong_flush() {
    let mut buffered = Vec::new();
    buffered.extend_from_slice(&V3_CONNECT_TEST_KA1);
    buffered.extend_from_slice(&PUBLISH_QOS0_T);
    assert_eq!(buffered.len(), 27);
    let run = script(5, 30)
        .sends(0, &buffered)
        .writes_take(2000, 0)
        .run();
    assert_eq!(run.written(), CONNACK_OK);
    assert_eq!(run.delivered, vec![READING]);
    assert!(run.result.is_ok());
    // The packet was read once the flush was done, and sets the clock anew.
    assert_eq!(run.closed_at, 3500);
}

#[test]
fn closes_immediately_after_overlong_connack_flush_with_nothing_buffered() {
    let run = script(5, 30)
        .sends(0, &V3_CONNECT_TEST_KA1)
        .writes_take(2000, 0)
        .run();
    assert_eq!(run.writes, vec![(2000, CONNACK_OK.to_vec())]);
    assert!(run.result.is_ok());
    assert!(run.closed_at - 2000 <= 1000);
    assert_eq!(run.closed_at, 2000);
}

#[test]
fn closes_after_overlong_flush_when_only_incomplete_packet_buffered() {
    let mut buffered = Vec::new();
    buffered.extend_from_slice(&V3_CONNECT_TEST_KA1);
    buffered.push(0x30);
    assert_eq!(buffered.len(), 19);
    let run = script(5, 30)
        .sends(0, &buffered)
        .writes_take(2000, 0)
        .run();
    assert_eq!(run.writes, vec![(2000, CONNACK_OK.to_vec())]);
    assert!(run.result.is_ok());
    assert!(run.closed_at - 2000 <= 1000);
    assert_eq!(run.delivered, vec![]);
}

#[test]
fn closes_at_config_capped_window_from_connect_receipt_under_slow_flush() {
    let run = script(5, 2)
        .sends(0, &V3_CONNECT_FIRST_9)
        .sends(1000, &V3_CONNECT_LAST_9)
        .writes_take(1000, 0)
        .run();
    assert_eq!(run.writes, vec![(2000, CONNACK_OK.to_vec())]);
    assert!(run.result.is_ok());
    let from_connect = run.closed_at - 1000;
    assert!((1700..=2600).contains(&from_connect));
    assert_eq!(from_connect, 2000);
}

#[test]
fn connack_flush_timeout_respects_shared_handshake_budget() {
    let run = script(3, 30)
        .sends(0, &V3_CONNECT_FIRST_9)
        .sends(2000, &V3_CONNECT_KA1_LAST_9)
        .writes_take(1500, 0)
        .run();
    assert!(run.written().is_empty());
    assert!(matches!(run.result, Err(Error::Timeout)));
    assert_eq!(run.timeouts(Level::Debug).len(), 1);
    assert!(!run.warned());
    assert!((2700..=4200).contains(&run.closed_at));
    assert_eq!(run.closed_at, 3000);
}

#[test]
fn concurrent_handshake_timeouts_attribute_each_line_to_its_own_peer() {
    let runs = [
        script(1, 30).from_peer("127.0.0.1:9998").run(),
        script(1, 30).from_peer("127.0.0.1:9999").run(),
    ];
    assert_ne!(runs[0].peer, runs[1].peer);
    for (run, peer) in runs.iter().zip(["127.0.0.1:9998", "127.0.0.1:9999"]) {
        assert!(matches!(run.result, Err(Error::Timeout)));
        assert_eq!(run.peer, peer);
        assert_eq!(
            run.timeouts(Level::Debug),
            vec!["handshake timeout during version detect"]
        );
        assert!(!run.warned());
    }
}

#[test]
fn a_whole_day_of_pings_keeps_a_session_open() {
    let mut plan = script(2, 30).sends(0, &V3_CONNECT_TEST);
    for i in 1..=2880 {
        plan = plan.sends(i * 29_999, &PINGREQ);
    }
    let run = plan.run();
    assert_eq!(run.writes.len(), 2881);
    assert_eq!(run.closed_at, 2880 * 29_999 + 30_000);
    assert!(matches!(run.result, Ok(SessionOutcome::Served)));
}

#[test]
fn clocks_tell_the_time_once() {
    let before = Instant::now();
    let mut clock = Clock::new();
    let mut state = ConnectionState::new_by(&mut clock);
    assert!(state.last_packet_time >= before);
    state.last_packet_time = before;
    while before.elapsed() < Duration::from_millis(1) {}
    state.update_activity_by(&mut clock);
    assert!(state.last_packet_time > before);

    let mut session = Session::new_by(&mut clock, "p".to_string(), 2, 30);
    assert!(session.started_at > before);
    session.step_by(
        &mut clock,
        IoEvent::Version(ReadEvent::Item(ProtocolVersion::MQTT3)),
    );
    let step = session.step_by(
        &mut clock,
        IoEvent::Packet(ReadEvent::Item(MqttPacket::Version(
            ProtocolVersion::MQTT3,
        ))),
    );
    assert!(matches!(step.next, Next::Finish(Err(Error::Protocol(_)))));
}
