use serde_json::Value;
use webdriver_bidi::caps::{BrowserCap, CapSet};
use webdriver_bidi::conn::{
    default_host, default_log_cap, default_path, default_timeout, ConnConfig, ConnState, Incoming,
    OpenArgs,
};
use webdriver_bidi::proto::{Frame, ProtoError};
use webdriver_bidi::tools::{session_new_request, Request};

fn json(text: &str) -> Value {
    serde_json::from_str(text).unwrap()
}

#[test]
fn command_ids_count_up_from_one() {
    let mut c = ConnState::new(10, CapSet::all());
    let (a, pa) = c.begin_command(&session_new_request());
    let (b, pb) = c.begin_command(&Request { method: "x.y".into(), params: "{}".into() });
    assert_eq!(a, 1);
    assert_eq!(b, 2);
    assert_eq!(pa, r#"{"id":1,"method":"session.new","params":{"capabilities":{}}}"#);
    assert_eq!(pb, r#"{"id":2,"method":"x.y","params":{}}"#);
}

#[test]
fn awaited_response_ends_the_wait() {
    let mut c = ConnState::new(10, CapSet::all());
    let ev = Incoming::Frame(Ok(Frame::Event {
        method: "log.entryAdded".into(),
        params: json(r#"{"text":"x"}"#),
    }));
    assert!(c.on_incoming(3, "script.evaluate", ev).is_none());
    let stale = Incoming::Frame(Ok(Frame::Response { id: 2, body: Value::Null }));
    assert!(c.on_incoming(3, "script.evaluate", stale).is_none());
    assert!(c.on_incoming(3, "script.evaluate", Incoming::Ignored).is_none());
    let resp = Incoming::Frame(Ok(Frame::Response { id: 3, body: json(r#"{"v":1}"#) }));
    let r = c.on_incoming(3, "script.evaluate", resp).unwrap().unwrap();
    assert_eq!(r["v"], 1);
    let d = c.drain_log(None);
    assert_eq!(d.entries.len(), 1);
}

#[test]
fn failures_are_reported_with_the_method() {
    let mut c = ConnState::new(10, CapSet::all());
    let err = Incoming::Frame(Ok(Frame::Error { id: 1, message: "no such frame: gone".into() }));
    assert_eq!(
        c.on_incoming(1, "browsingContext.close", err).unwrap().unwrap_err(),
        "browsingContext.close: no such frame: gone"
    );
    assert_eq!(
        c.on_incoming(1, "m", Incoming::Closed).unwrap().unwrap_err(),
        "websocket closed by peer"
    );
    let bad = Incoming::Frame(Err(ProtoError::MissingField("id")));
    assert_eq!(
        c.on_incoming(1, "m", bad).unwrap().unwrap_err(),
        "BiDi frame missing field \"id\""
    );
}

#[test]
fn handshake_reads_session_and_context() {
    let mut c = ConnState::new(0, CapSet::from_list(vec![BrowserCap::Read]));
    c.set_session_id(Some("s-1".into()));
    assert_eq!(c.session_id(), "s-1");
    c.set_session_id(None);
    assert_eq!(c.session_id(), "");
    assert_eq!(
        c.adopt_first_context(None).unwrap_err(),
        "BiDi endpoint returned no browsing context"
    );
    assert_eq!(c.context(), "");
    c.adopt_first_context(Some("ctx-1".into())).unwrap();
    assert_eq!(c.context(), "ctx-1");
    c.adopt_created_context(None);
    assert_eq!(c.context(), "ctx-1");
    c.adopt_created_context(Some("ctx-2".into()));
    assert_eq!(c.context(), "ctx-2");
    c.set_context("ctx-3".into());
    assert_eq!(c.context(), "ctx-3");
    assert!(c.caps().grants(BrowserCap::Read));
    assert!(!c.caps().grants(BrowserCap::Script));
}

#[test]
fn open_arguments_and_defaults() {
    assert_eq!(default_host(), "127.0.0.1");
    assert_eq!(default_path(), "/session");
    assert_eq!(default_timeout(), 30_000);
    assert_eq!(default_log_cap(), 1000);
    let cfg = ConnConfig::from_open_args(OpenArgs {
        host: default_host(),
        port: 9222,
        path: default_path(),
        timeout_ms: 45_000,
        log_buffer_cap: 5,
        allow: None,
    });
    assert_eq!(cfg.port, 9222);
    assert_eq!(cfg.timeout_ms, 45_000);
    assert!(cfg.caps.grants(BrowserCap::Input));
    let narrow = ConnConfig::from_open_args(OpenArgs {
        host: "::1".into(),
        port: 4444,
        path: "/".into(),
        timeout_ms: 1,
        log_buffer_cap: 1,
        allow: Some(vec![BrowserCap::Navigate, BrowserCap::Read]),
    });
    assert!(narrow.caps.grants(BrowserCap::Navigate));
    assert!(!narrow.caps.grants(BrowserCap::Script));
}

#[test]
fn handshake_replies_are_read_for_their_members() {
    let mut c = ConnState::new(1, CapSet::all());
    c.adopt_session_reply(&json(r#"{"sessionId":"abc","capabilities":{}}"#));
    assert_eq!(c.session_id(), "abc");
    c.adopt_session_reply(&json(r#"{"sessionId":5}"#));
    assert_eq!(c.session_id(), "");
    assert_eq!(
        c.adopt_tree_reply(&json(r#"{"contexts":[]}"#)).unwrap_err(),
        "BiDi endpoint returned no browsing context"
    );
    c.adopt_tree_reply(&json(r#"{"contexts":[{"context":"c1","children":[]},{"context":"c2"}]}"#))
        .unwrap();
    assert_eq!(c.context(), "c1");
    c.adopt_create_reply(&json(r#"{"context":"c9"}"#));
    assert_eq!(c.context(), "c9");
    c.adopt_create_reply(&json(r#"{}"#));
    assert_eq!(c.context(), "c9");
}
