use serde_json::Value;
use webdriver_bidi::caps::{BrowserCap, CapSet};
use webdriver_bidi::tools::{
    authorize, click_request, context_close_request, context_create_request,
    context_list_request, decode_screenshot, evaluate_request, get_text_request,
    matched_node, navigate_request, node_of_reply, page_text, screenshot_of_reply, text_of_reply, resolve_node_request, screenshot_request,
    screenshot_result, session_end_request, Base64Failure, subscribe_request, type_keys_request, Tool,
};

fn obj(pairs: Vec<(&str, Value)>) -> Value {
    let mut m = serde_json::Map::new();
    for (k, v) in pairs {
        m.insert(k.to_string(), v);
    }
    Value::Object(m)
}

fn s(text: &str) -> Value {
    Value::String(text.to_string())
}

#[test]
fn click_and_type_need_input_and_script() {
    let no_script = CapSet::from_list(vec![BrowserCap::Input, BrowserCap::Read, BrowserCap::Navigate]);
    let e = authorize(&no_script, Tool::Click).unwrap_err();
    assert_eq!(e, "capability browser:script is not granted to this session");
    assert!(authorize(&no_script, Tool::TypeText).is_err());
    let no_input = CapSet::from_list(vec![BrowserCap::Script]);
    assert_eq!(
        authorize(&no_input, Tool::Click).unwrap_err(),
        "capability browser:input is not granted to this session"
    );
    let both = CapSet::from_list(vec![BrowserCap::Script, BrowserCap::Input]);
    assert!(authorize(&both, Tool::Click).is_ok());
    assert!(authorize(&both, Tool::TypeText).is_ok());
    assert!(authorize(&both, Tool::Navigate).is_err());
}

#[test]
fn all_caps_allow_every_tool() {
    let all = CapSet::all();
    for t in [
        Tool::Navigate,
        Tool::ContextList,
        Tool::ContextCreate,
        Tool::ContextClose,
        Tool::Screenshot,
        Tool::Evaluate,
        Tool::GetText,
        Tool::Click,
        Tool::TypeText,
        Tool::ConsoleDrain,
    ] {
        assert!(authorize(&all, t).is_ok());
    }
    let none = CapSet::from_list(vec![]);
    assert!(authorize(&none, Tool::ConsoleDrain).is_err());
    assert_eq!(
        authorize(&none, Tool::GetText).unwrap_err(),
        "capability browser:read is not granted to this session"
    );
}

#[test]
fn navigate_params_match_serde_json() {
    let r = navigate_request("ctx", "https://example.com/?q=\"x\"", None);
    assert_eq!(r.method, "browsingContext.navigate");
    let expected = obj(vec![
        ("context", s("ctx")),
        ("url", s("https://example.com/?q=\"x\"")),
        ("wait", s("complete")),
    ]);
    assert_eq!(r.params, expected.to_string());
    let r = navigate_request("ctx", "u", Some("none".into()));
    assert_eq!(r.params, r#"{"context":"ctx","url":"u","wait":"none"}"#);
}

#[test]
fn context_requests() {
    let r = context_list_request();
    assert_eq!((r.method.as_str(), r.params.as_str()), ("browsingContext.getTree", "{}"));
    let r = context_create_request(None);
    assert_eq!(r.method, "browsingContext.create");
    assert_eq!(r.params, r#"{"type":"tab"}"#);
    assert_eq!(context_create_request(Some("window".into())).params, r#"{"type":"window"}"#);
    let r = context_close_request(None, "cur");
    assert_eq!(r.method, "browsingContext.close");
    assert_eq!(r.params, r#"{"context":"cur"}"#);
    assert_eq!(context_close_request(Some("other".into()), "cur").params, r#"{"context":"other"}"#);
    let r = screenshot_request("c\u{1}");
    assert_eq!(r.method, "browsingContext.captureScreenshot");
    assert_eq!(r.params, obj(vec![("context", s("c\u{1}"))]).to_string());
}

#[test]
fn evaluate_params_match_serde_json() {
    let r = evaluate_request("ctx", "document.title", None);
    assert_eq!(r.method, "script.evaluate");
    let expected = obj(vec![
        ("expression", s("document.title")),
        ("target", obj(vec![("context", s("ctx"))])),
        ("awaitPromise", Value::Bool(true)),
    ]);
    assert_eq!(r.params, expected.to_string());
    let r = evaluate_request("ctx", "1", Some(false));
    assert_eq!(r.params, r#"{"awaitPromise":false,"expression":"1","target":{"context":"ctx"}}"#);
}

#[test]
fn get_text_expressions() {
    let r = get_text_request("ctx", None);
    assert_eq!(
        r.params,
        r#"{"awaitPromise":false,"expression":"document.body.innerText","target":{"context":"ctx"}}"#
    );
    let r = get_text_request("ctx", Some("h1 > a".into()));
    let v: Value = serde_json::from_str(&r.params).unwrap();
    assert_eq!(
        v["expression"],
        "(document.querySelector(\"h1 > a\")||{}).innerText ?? ''"
    );
}

#[test]
fn resolve_node_params_match_serde_json() {
    let r = resolve_node_request("ctx", "a[href=\"x\"]");
    let expected = obj(vec![
        ("expression", s("document.querySelector(\"a[href=\\\"x\\\"]\")")),
        ("target", obj(vec![("context", s("ctx"))])),
        ("awaitPromise", Value::Bool(false)),
        ("resultOwnership", s("root")),
    ]);
    assert_eq!(r.method, "script.evaluate");
    assert_eq!(r.params, expected.to_string());
}

#[test]
fn click_actions_match_serde_json() {
    let r = click_request("ctx", "node-1");
    let actions = Value::Array(vec![obj(vec![
        ("type", s("pointer")),
        ("id", s("mouse")),
        (
            "actions",
            Value::Array(vec![
                obj(vec![
                    ("type", s("pointerMove")),
                    ("x", Value::from(0)),
                    ("y", Value::from(0)),
                    (
                        "origin",
                        obj(vec![
                            ("type", s("element")),
                            ("element", obj(vec![("sharedId", s("node-1"))])),
                        ]),
                    ),
                ]),
                obj(vec![("type", s("pointerDown")), ("button", Value::from(0))]),
                obj(vec![("type", s("pointerUp")), ("button", Value::from(0))]),
            ]),
        ),
    ])]);
    let expected = obj(vec![("context", s("ctx")), ("actions", actions)]);
    assert_eq!(r.method, "input.performActions");
    assert_eq!(r.params, expected.to_string());
}

#[test]
fn typing_sends_key_down_and_up_per_character() {
    let r = type_keys_request("ctx", "hé\"");
    let mut keys = Vec::new();
    for ch in "hé\"".chars() {
        let v = ch.to_string();
        keys.push(obj(vec![("type", s("keyDown")), ("value", s(&v))]));
        keys.push(obj(vec![("type", s("keyUp")), ("value", s(&v))]));
    }
    let expected = obj(vec![
        ("context", s("ctx")),
        (
            "actions",
            Value::Array(vec![obj(vec![
                ("type", s("key")),
                ("id", s("keyboard")),
                ("actions", Value::Array(keys)),
            ])]),
        ),
    ]);
    assert_eq!(r.params, expected.to_string());
    let empty = type_keys_request("ctx", "");
    assert_eq!(
        empty.params,
        r#"{"actions":[{"actions":[],"id":"keyboard","type":"key"}],"context":"ctx"}"#
    );
}

#[test]
fn session_requests() {
    assert_eq!(subscribe_request().params, r#"{"events":["log.entryAdded"]}"#);
    assert_eq!(subscribe_request().method, "session.subscribe");
    assert_eq!(session_end_request().method, "session.end");
    assert_eq!(session_end_request().params, "{}");
}

#[test]
fn unmatched_selector_is_refused() {
    assert_eq!(matched_node("#x", Some("n1".into())).unwrap(), "n1");
    assert_eq!(
        matched_node("#x", None).unwrap_err(),
        "no element matched selector \"#x\""
    );
}

#[test]
fn screenshot_data_is_decoded() {
    assert_eq!(decode_screenshot(Some("iVBORw==".into())).unwrap(), vec![0x89, 0x50, 0x4e, 0x47]);
    assert_eq!(
        decode_screenshot(None).unwrap_err(),
        "screenshot response had no data field"
    );
    let e = decode_screenshot(Some("not base64!".into())).unwrap_err();
    assert!(e.starts_with("bad base64 screenshot: "));
    assert!(e.len() > "bad base64 screenshot: ".len());
    assert_eq!(
        decode_screenshot(Some("not base64!".into())).unwrap_err(),
        format!("bad base64 screenshot: {}", base64::DecodeError::InvalidByte(3, b' '))
    );
    let e = screenshot_result(Err(Base64Failure::InvalidLength(3))).unwrap_err();
    assert_eq!(e, "bad base64 screenshot: Invalid input length: 3");
}

#[test]
fn decode_failures_read_as_the_base64_crate_writes_them() {
    let cases = [
        (Base64Failure::InvalidByte(7, 0x21), base64::DecodeError::InvalidByte(7, 0x21)),
        (Base64Failure::InvalidLength(5), base64::DecodeError::InvalidLength(5)),
        (Base64Failure::InvalidPadding, base64::DecodeError::InvalidPadding),
        (
            Base64Failure::InvalidLastSymbol { offset: 3, symbol: b'B', symbol_value: 1 },
            base64::DecodeError::InvalidLastSymbol { offset: 3, symbol: b'B', symbol_value: 1 },
        ),
        (
            Base64Failure::InvalidLastSymbol { offset: 0, symbol: 9, symbol_value: 0xff },
            base64::DecodeError::InvalidLastSymbol { offset: 0, symbol: 9, symbol_value: 0xff },
        ),
        (
            Base64Failure::InvalidLastSymbol { offset: 12, symbol: 0xc3, symbol_value: 0x80 },
            base64::DecodeError::InvalidLastSymbol { offset: 12, symbol: 0xc3, symbol_value: 0x80 },
        ),
    ];
    for (ours, theirs) in cases {
        assert_eq!(ours.message(), theirs.to_string());
    }
    assert_eq!(
        decode_screenshot(Some("QQ=".into())).unwrap_err(),
        format!("bad base64 screenshot: {}", base64::DecodeError::InvalidPadding)
    );
}

#[test]
fn page_text_defaults_to_empty() {
    assert_eq!(page_text(Some("Example Domain".into())), "Example Domain");
    assert_eq!(page_text(None), "");
}

fn reply(text: &str) -> Value {
    serde_json::from_str(text).unwrap()
}

#[test]
fn replies_are_read_for_their_members() {
    assert_eq!(
        text_of_reply(&reply(r#"{"realm":"r","result":{"type":"string","value":"Hello"}}"#)),
        "Hello"
    );
    assert_eq!(text_of_reply(&reply(r#"{"result":{"type":"number","value":3}}"#)), "");
    assert_eq!(text_of_reply(&reply(r#"{}"#)), "");
    assert_eq!(
        node_of_reply("#a", &reply(r#"{"result":{"type":"node","sharedId":"n-7"}}"#)).unwrap(),
        "n-7"
    );
    assert_eq!(
        node_of_reply("#a", &reply(r#"{"result":{"type":"null"}}"#)).unwrap_err(),
        "no element matched selector \"#a\""
    );
    assert_eq!(screenshot_of_reply(&reply(r#"{"data":"iVBORw=="}"#)).unwrap(), vec![0x89, 0x50, 0x4e, 0x47]);
    assert_eq!(
        screenshot_of_reply(&reply(r#"{"data":1}"#)).unwrap_err(),
        "screenshot response had no data field"
    );
}
