use webdriver_bidi::demux::{step, Step};
use webdriver_bidi::logbuf::LogBuffer;
use webdriver_bidi::proto::Frame;

fn json(text: &str) -> serde_json::Value {
    serde_json::from_str(text).unwrap()
}

#[test]
fn resolves_matching_response() {
    let mut log = LogBuffer::new(10);
    let f = Frame::Response {
        id: 5,
        body: json(r#"{"ok": true}"#),
    };
    match step(f, 5, &mut log) {
        Step::Resolved(v) => assert_eq!(v["ok"], true),
        other => panic!("expected Resolved, got {other:?}"),
    }
}

#[test]
fn fails_on_matching_error() {
    let mut log = LogBuffer::new(10);
    let f = Frame::Error {
        id: 5,
        message: "no such element".into(),
    };
    match step(f, 5, &mut log) {
        Step::Failed(m) => assert!(m.contains("no such element")),
        other => panic!("expected Failed, got {other:?}"),
    }
}

#[test]
fn buffers_event_and_continues() {
    let mut log = LogBuffer::new(10);
    let f = Frame::Event {
        method: "log.entryAdded".into(),
        params: json(r#"{"text": "hello"}"#),
    };
    assert!(matches!(step(f, 5, &mut log), Step::Continue));
    let d = log.drain(None);
    assert_eq!(d.entries.len(), 1);
    assert_eq!(d.entries[0].params["text"], "hello");
}

#[test]
fn discards_stale_response_and_continues() {
    // A response for a command we are no longer waiting on must not resolve
    // the current one.
    let mut log = LogBuffer::new(10);
    let f = Frame::Response {
        id: 4,
        body: json(r#"{"stale": true}"#),
    };
    assert!(matches!(step(f, 5, &mut log), Step::Continue));
    assert_eq!(log.drain(None).entries.len(), 0);
}

#[test]
fn discards_stale_error_and_continues() {
    let mut log = LogBuffer::new(10);
    let f = Frame::Error {
        id: 4,
        message: "old failure".into(),
    };
    assert!(matches!(step(f, 5, &mut log), Step::Continue));
    assert_eq!(log.drain(None).entries.len(), 0);
}

#[test]
fn event_arriving_before_response_does_not_steal_it() {
    let mut log = LogBuffer::new(10);
    let ev = Frame::Event {
        method: "log.entryAdded".into(),
        params: json(r#"{"text": "noise"}"#),
    };
    assert!(matches!(step(ev, 5, &mut log), Step::Continue));

    let resp = Frame::Response {
        id: 5,
        body: json(r#"{"value": 42}"#),
    };
    match step(resp, 5, &mut log) {
        Step::Resolved(v) => assert_eq!(v["value"], 42),
        other => panic!("expected Resolved, got {other:?}"),
    }
    assert_eq!(log.drain(None).entries.len(), 1);
}

#[test]
fn failed_message_is_passed_through_unchanged() {
    let mut log = LogBuffer::new(1);
    let f = Frame::Error {
        id: 9,
        message: "no such node: boom".into(),
    };
    match step(f, 9, &mut log) {
        Step::Failed(m) => assert_eq!(m, "no such node: boom"),
        other => panic!("expected Failed, got {other:?}"),
    }
}
