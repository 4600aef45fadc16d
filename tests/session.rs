use boombot::backoff::Termination;
use boombot::frame::{decode_frame, heartbeat_text, identify_text};
use boombot::heartbeat::HeartbeatState;
use boombot::session::{ConnectionState, Input, Session};

fn live_session(h: u64, t0: u64) -> Session {
    let mut s = Session::new("tok".to_string(), "wss://gateway.example/".to_string());
    s.identified();
    assert_eq!(s.state, ConnectionState::Identified);
    let hello = format!("{{\"op\":10,\"d\":{{\"heartbeat_interval\":{}}}}}", h);
    let step = s.step(Input::Text(hello), t0);
    assert!(!step.send_heartbeat);
    assert!(step.dispatch.is_none());
    s
}

#[test]
fn hello_arms_timer_a_full_interval_later() {
    let mut s = live_session(41250, 1000);
    assert_eq!(s.state, ConnectionState::Live);
    assert_eq!(s.heartbeat.interval_ms, Some(41250));
    assert_eq!(s.heartbeat_due(), Some(42250));
    assert!(!s.step(Input::Tick, 1000).send_heartbeat);
    assert!(!s.step(Input::Tick, 42249).send_heartbeat);
    assert!(!s.heartbeat.outstanding);
    assert!(s.step(Input::Tick, 42250).send_heartbeat);
    assert!(s.heartbeat.outstanding);
    assert_eq!(s.heartbeat.last_sent_at, Some(42250));
    assert_eq!(s.heartbeat_due(), Some(83500));
    assert!(!s.step(Input::Tick, 42251).send_heartbeat);
}

#[test]
fn heartbeat_timer_polls_directly() {
    let mut hb = HeartbeatState::new();
    assert!(hb.on_hello(5, 10));
    assert!(!hb.on_hello(7, 11));
    assert_eq!(hb.interval_ms, Some(5));
    assert!(!hb.on_tick(14));
    assert!(hb.on_tick(15));
    assert_eq!(hb.next_due, Some(20));
}

#[test]
fn zero_interval_is_not_accepted() {
    let mut hb = HeartbeatState::new();
    assert!(!hb.on_hello(0, 10));
    assert_eq!(hb.interval_ms, None);
    assert!(!hb.on_tick(u64::MAX));
}

#[test]
fn server_heartbeat_request_is_answered_immediately() {
    let mut s = live_session(1000, 0);
    let step = s.step(Input::Text("{\"op\":1,\"d\":null}".to_string()), 300);
    assert!(step.send_heartbeat);
    assert_eq!(s.heartbeat.last_sent_at, Some(300));
    assert!(s.heartbeat.outstanding);
    assert_eq!(s.heartbeat_due(), Some(1000));
}

#[test]
fn ack_clears_outstanding_until_next_send() {
    let mut s = live_session(100, 0);
    assert!(s.step(Input::Tick, 100).send_heartbeat);
    assert!(s.heartbeat.outstanding);
    s.step(Input::Text("{\"op\":11}".to_string()), 120);
    assert!(!s.heartbeat.outstanding);
    s.step(Input::Tick, 150);
    s.step(Input::Text("{\"op\":7,\"t\":null}".to_string()), 160);
    assert!(!s.heartbeat.outstanding);
    assert!(s.step(Input::Tick, 200).send_heartbeat);
    assert!(s.heartbeat.outstanding);
}

#[test]
fn malformed_frame_is_skipped_and_next_event_dispatched() {
    let mut s = live_session(1000, 0);
    let before = s.heartbeat;
    let step = s.step(Input::Text("{not json".to_string()), 10);
    assert!(step.stop.is_none());
    assert!(step.dispatch.is_none());
    assert_eq!(s.heartbeat, before);
    assert_eq!(s.state, ConnectionState::Live);
    let step = s.step(
        Input::Text("{\"op\":0,\"t\":\"INTERACTION_CREATE\",\"s\":3,\"d\":{\"id\":\"42\"}}".to_string()),
        11,
    );
    let d = step.dispatch.expect("event reaches the handler");
    assert_eq!(d.event, "INTERACTION_CREATE");
    assert_eq!(d.data.as_deref(), Some("{\"id\":\"42\"}"));
}

#[test]
fn unknown_op_without_event_has_no_effect() {
    let mut s = live_session(1000, 0);
    let before = s.heartbeat;
    let step = s.step(Input::Text("{\"op\":99,\"d\":{\"x\":1}}".to_string()), 5);
    assert!(!step.send_heartbeat);
    assert!(step.pong.is_none());
    assert!(step.dispatch.is_none());
    assert!(step.stop.is_none());
    assert_eq!(s.heartbeat, before);
    assert_eq!(s.state, ConnectionState::Live);
}

#[test]
fn ping_is_answered_with_its_payload() {
    let mut s = live_session(1000, 0);
    let step = s.step(Input::Ping(vec![1, 2, 3]), 5);
    assert_eq!(step.pong, Some(vec![1, 2, 3]));
}

#[test]
fn close_frame_ends_cleanly_and_stops_timer() {
    let mut s = live_session(1000, 0);
    let step = s.step(Input::Close, 5);
    assert_eq!(step.stop, Some(Termination::Clean));
    assert_eq!(s.state, ConnectionState::Closed);
    assert_eq!(s.heartbeat_due(), None);
    let after = s.step(Input::Tick, 5000);
    assert!(!after.send_heartbeat);
    assert!(after.stop.is_none());
}

#[test]
fn transport_failures_end_with_error() {
    for input in [Input::ReadError, Input::WriteFailed, Input::Ended] {
        let mut s = live_session(1000, 0);
        let step = s.step(input, 5);
        assert_eq!(step.stop, Some(Termination::Error));
        assert_eq!(s.state, ConnectionState::Closed);
    }
}

#[test]
fn decode_reads_envelope_fields() {
    let f = decode_frame("{\"op\":10,\"d\":{\"heartbeat_interval\":45000},\"s\":null}").unwrap();
    assert_eq!(f.op, Some(10));
    assert_eq!(f.t, None);
    assert_eq!(f.s, None);
    assert_eq!(f.heartbeat_interval, Some(45000));
    assert_eq!(f.d.as_deref(), Some("{\"heartbeat_interval\":45000}"));
    let g = decode_frame("{\"op\":0,\"t\":\"READY\",\"s\":1}").unwrap();
    assert_eq!(g.t.as_deref(), Some("READY"));
    assert_eq!(g.s, Some(1));
    assert!(g.d.is_none());
    assert!(g.heartbeat_interval.is_none());
    let h = decode_frame("[1,2]").unwrap();
    assert!(h.op.is_none() && h.t.is_none() && h.d.is_none());
    assert!(decode_frame("").is_err());
    assert!(decode_frame("{\"op\":").is_err());
}

#[test]
fn heartbeat_frame_text() {
    assert_eq!(heartbeat_text(), "{\"op\":1,\"d\":null}");
    let v: serde_json::Value = serde_json::from_str(&heartbeat_text()).unwrap();
    assert_eq!(v.pointer("/op").and_then(|x| x.as_u64()), Some(1));
    assert!(v.pointer("/d").unwrap().is_null());
}

#[test]
fn identify_frame_quotes_the_token() {
    let text = identify_text("a\"b", "linux");
    let v: serde_json::Value = serde_json::from_str(&text).unwrap();
    assert_eq!(v.pointer("/op").and_then(|x| x.as_u64()), Some(2));
    assert_eq!(v.pointer("/d/token").and_then(|x| x.as_str()), Some("a\"b"));
    assert_eq!(v.pointer("/d/intents").and_then(|x| x.as_u64()), Some(513));
    assert_eq!(v.pointer("/d/properties/$os").and_then(|x| x.as_str()), Some("linux"));
    assert_eq!(v.pointer("/d/properties/$browser").and_then(|x| x.as_str()), Some("boombot"));
    assert_eq!(
        text,
        "{\"op\":2,\"d\":{\"token\":\"a\\\"b\",\"intents\":513,\"properties\":{\"$os\":\"linux\",\"$browser\":\"boombot\",\"$device\":\"boombot\"}}}"
    );
}
