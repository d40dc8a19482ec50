//! The tools that a session offers: the capabilities each needs, the BiDi
//! command that each sends, and what each makes of the members that are read
//! from its reply.
//!
//! Parameters are written as JSON text with their members in lexicographic
//! order, which is the order in which serde_json writes an object.

use crate::caps::{denial_message, BrowserCap, CapSet};
use crate::json::{decimal, hex_text, json_string_text, push_char, push_decimal, push_hex, push_quoted_char, quote};
use crate::reply::{reply_result_member, reply_str_member, result_member, str_member};
use crate::text::{debug_quote, debug_text};
use vstd::prelude::*;

verus! {

/// An outgoing BiDi command: its method and its parameters as JSON text.
pub struct Request {
    pub method: String,
    pub params: String,
}

/// A tool of the component.
#[derive(Clone, Copy, Debug, PartialEq, Eq, Structural)]
pub enum Tool {
    Navigate,
    ContextList,
    ContextCreate,
    ContextClose,
    Screenshot,
    Evaluate,
    GetText,
    Click,
    TypeText,
    ConsoleDrain,
}

/// The capability classes a tool needs, in the order they are checked.
/// Clicking and typing resolve their element through script evaluation, so
/// they need `browser:script` as well as `browser:input`.
pub open spec fn required_caps(tool: Tool) -> Seq<BrowserCap> {
    match tool {
        Tool::Navigate => seq![BrowserCap::Navigate],
        Tool::ContextList => seq![BrowserCap::Read],
        Tool::ContextCreate => seq![BrowserCap::Navigate],
        Tool::ContextClose => seq![BrowserCap::Navigate],
        Tool::Screenshot => seq![BrowserCap::Read],
        Tool::Evaluate => seq![BrowserCap::Script],
        Tool::GetText => seq![BrowserCap::Read, BrowserCap::Script],
        Tool::Click => seq![BrowserCap::Input, BrowserCap::Script],
        Tool::TypeText => seq![BrowserCap::Input, BrowserCap::Script],
        Tool::ConsoleDrain => seq![BrowserCap::Read],
    }
}

/// Whether `granted` allows `tool`: it holds every capability the tool needs.
pub open spec fn authorized(granted: Seq<BrowserCap>, tool: Tool) -> bool {
    forall|i: int| 0 <= i < required_caps(tool).len() ==> granted.contains(#[trigger] required_caps(tool)[i])
}

impl Tool {
    /// The capability classes this tool needs, in the order they are checked.
    pub fn required_caps(self) -> (r: Vec<BrowserCap>)
        ensures
            r@ == required_caps(self),
    {
        let r = match self {
            Tool::Navigate => vec![BrowserCap::Navigate],
            Tool::ContextList => vec![BrowserCap::Read],
            Tool::ContextCreate => vec![BrowserCap::Navigate],
            Tool::ContextClose => vec![BrowserCap::Navigate],
            Tool::Screenshot => vec![BrowserCap::Read],
            Tool::Evaluate => vec![BrowserCap::Script],
            Tool::GetText => vec![BrowserCap::Read, BrowserCap::Script],
            Tool::Click => vec![BrowserCap::Input, BrowserCap::Script],
            Tool::TypeText => vec![BrowserCap::Input, BrowserCap::Script],
            Tool::ConsoleDrain => vec![BrowserCap::Read],
        };
        assert(r@ =~= required_caps(self));
        r
    }
}

/// Checks that `caps` allows `tool`, capability by capability in the order
/// the tool needs them; the first one missing is reported.
pub fn authorize(caps: &CapSet, tool: Tool) -> (r: Result<(), String>)
    ensures
        r is Ok <==> authorized(caps@, tool),
        r matches Err(m) ==> exists|i: int|
            0 <= i < required_caps(tool).len() && !caps@.contains(required_caps(tool)[i]) && (forall|
                j: int,
            | 0 <= j < i ==> caps@.contains(#[trigger] required_caps(tool)[j])) && m@
                == denial_message(required_caps(tool)[i]),
{
    let needed = tool.required_caps();
    let n = needed.len();
    let mut i: usize = 0;
    while i < n
        invariant
            n == needed@.len(),
            needed@ == required_caps(tool),
            i <= n,
            forall|j: int| 0 <= j < i ==> caps@.contains(#[trigger] required_caps(tool)[j]),
        decreases n - i,
    {
        match caps.require(needed[i]) {
            Ok(()) => {},
            Err(m) => {
                return Err(m);
            },
        }
        i = i + 1;
    }
    Ok(())
}

/// Every tool is allowed by the set of all capabilities.
pub proof fn lemma_all_caps_authorize_every_tool(tool: Tool)
    ensures
        authorized(crate::caps::all_caps(), tool),
{
    assert forall|i: int| 0 <= i < required_caps(tool).len() implies crate::caps::all_caps().contains(
        #[trigger] required_caps(tool)[i],
    ) by {
        let c = required_caps(tool)[i];
        let k: int = match c {
            BrowserCap::Navigate => 0,
            BrowserCap::Script => 1,
            BrowserCap::Input => 2,
            BrowserCap::Read => 3,
        };
        assert(crate::caps::all_caps()[k] == c);
    }
}

/// Clicking and typing are allowed exactly when both `browser:input` and
/// `browser:script` are granted: denying script evaluation also denies them.
pub proof fn lemma_input_tools_need_script(granted: Seq<BrowserCap>, tool: Tool)
    requires
        tool == Tool::Click || tool == Tool::TypeText,
    ensures
        authorized(granted, tool) <==> (granted.contains(BrowserCap::Input) && granted.contains(
            BrowserCap::Script,
        )),
{
    if authorized(granted, tool) {
        assert(granted.contains(required_caps(tool)[0]));
        assert(granted.contains(required_caps(tool)[1]));
    }
}

/// Reading page text needs both `browser:read` and `browser:script`.
pub proof fn lemma_get_text_needs_read_and_script(granted: Seq<BrowserCap>)
    ensures
        authorized(granted, Tool::GetText) <==> (granted.contains(BrowserCap::Read)
            && granted.contains(BrowserCap::Script)),
{
    if authorized(granted, Tool::GetText) {
        assert(granted.contains(required_caps(Tool::GetText)[0]));
        assert(granted.contains(required_caps(Tool::GetText)[1]));
    }
}

/// The JSON text of a string.
pub open spec fn js(s: Seq<char>) -> Seq<char> {
    json_string_text(s)
}

/// Parameters `{"context":…}`.
pub open spec fn context_params(context: Seq<char>) -> Seq<char> {
    "{\"context\":"@ + js(context) + "}"@
}

/// The readiness that `navigate` waits for: the one asked for, or `complete`.
pub open spec fn wait_or_default(wait: Option<String>) -> Seq<char> {
    match wait {
        Some(w) => w@,
        None => "complete"@,
    }
}

/// Parameters of `browsingContext.navigate`.
pub open spec fn navigate_params(context: Seq<char>, url: Seq<char>, wait: Seq<char>) -> Seq<char> {
    "{\"context\":"@ + js(context) + ",\"url\":"@ + js(url) + ",\"wait\":"@ + js(wait) + "}"@
}

/// The kind of browsing context that `context_create` opens: the one asked
/// for, or `tab`.
pub open spec fn kind_or_default(kind: Option<String>) -> Seq<char> {
    match kind {
        Some(k) => k@,
        None => "tab"@,
    }
}

/// Parameters of `browsingContext.create`.
pub open spec fn create_params(kind: Seq<char>) -> Seq<char> {
    "{\"type\":"@ + js(kind) + "}"@
}

/// The JSON text of a boolean.
pub open spec fn bool_text(b: bool) -> Seq<char> {
    if b { "true"@ } else { "false"@ }
}

/// Parameters of `script.evaluate` against the current context.
pub open spec fn evaluate_params(context: Seq<char>, expression: Seq<char>, await_promise: bool) -> Seq<
    char,
> {
    "{\"awaitPromise\":"@ + bool_text(await_promise) + ",\"expression\":"@ + js(expression)
        + ",\"target\":{\"context\":"@ + js(context) + "}}"@
}

/// Parameters of the `script.evaluate` that resolves a selector to a node
/// owned by the session's root realm.
pub open spec fn resolve_params(context: Seq<char>, expression: Seq<char>) -> Seq<char> {
    "{\"awaitPromise\":false,\"expression\":"@ + js(expression)
        + ",\"resultOwnership\":\"root\",\"target\":{\"context\":"@ + js(context) + "}}"@
}

/// The expression that finds the first element matching `selector`.
pub open spec fn query_expression(selector: Seq<char>) -> Seq<char> {
    "document.querySelector("@ + js(selector) + ")"@
}

/// The expression whose value is the visible text of the first element
/// matching `selector` (empty when none matches), or of the whole body.
pub open spec fn text_expression(selector: Option<String>) -> Seq<char> {
    match selector {
        Some(s) => "(document.querySelector("@ + js(s@) + ")||{}).innerText ?? ''"@,
        None => "document.body.innerText"@,
    }
}

/// The pointer action sequence that clicks the element `shared_id`: move
/// onto it, press and release the first button.
pub open spec fn click_actions(shared_id: Seq<char>) -> Seq<char> {
    "[{\"actions\":[{\"origin\":{\"element\":{\"sharedId\":"@ + js(shared_id)
        + "},\"type\":\"element\"},\"type\":\"pointerMove\",\"x\":0,\"y\":0},{\"button\":0,\"type\":\"pointerDown\"},{\"button\":0,\"type\":\"pointerUp\"}],\"id\":\"mouse\",\"type\":\"pointer\"}]"@
}

/// Parameters of `input.performActions` with the given action text.
pub open spec fn perform_params(context: Seq<char>, actions: Seq<char>) -> Seq<char> {
    "{\"actions\":"@ + actions + ",\"context\":"@ + js(context) + "}"@
}

/// The key-down and key-up actions that type the character `c`.
pub open spec fn key_pair(c: char) -> Seq<char> {
    "{\"type\":\"keyDown\",\"value\":"@ + js(seq![c]) + "},{\"type\":\"keyUp\",\"value\":"@ + js(
        seq![c],
    ) + "}"@
}

/// The key actions that type `text`, character by character, separated by
/// commas.
pub open spec fn key_actions(text: Seq<char>) -> Seq<char>
    decreases text.len(),
{
    if text.len() == 0 {
        Seq::empty()
    } else if text.len() == 1 {
        key_pair(text[0])
    } else {
        key_actions(text.drop_last()) + ","@ + key_pair(text.last())
    }
}

/// The keyboard action sequence that types `text`.
pub open spec fn keyboard_actions(text: Seq<char>) -> Seq<char> {
    "[{\"actions\":["@ + key_actions(text) + "],\"id\":\"keyboard\",\"type\":\"key\"}]"@
}

fn request(method: &str, params: String) -> (r: Request)
    ensures
        r.method@ == method@,
        r.params == params,
{
    Request { method: String::from_str(method), params }
}

fn push_json(out: &mut String, s: &str)
    ensures
        final(out)@ == old(out)@ + js(s@),
{
    let q = quote(s);
    out.append(q.as_str());
}

/// `browsingContext.navigate` of the current context to `url`, waiting for
/// `wait` (by default `complete`).
pub fn navigate_request(context: &str, url: &str, wait: Option<String>) -> (r: Request)
    ensures
        r.method@ == "browsingContext.navigate"@,
        r.params@ == navigate_params(context@, url@, wait_or_default(wait)),
{
    let w = match wait {
        Some(w) => w,
        None => String::from_str("complete"),
    };
    let mut p = String::from_str("{\"context\":");
    push_json(&mut p, context);
    p.append(",\"url\":");
    push_json(&mut p, url);
    p.append(",\"wait\":");
    push_json(&mut p, w.as_str());
    p.append("}");
    proof {
        reveal_strlit("complete");
        reveal_strlit("{\"context\":");
        reveal_strlit(",\"url\":");
        reveal_strlit(",\"wait\":");
        reveal_strlit("}");
    }
    request("browsingContext.navigate", p)
}

/// `browsingContext.getTree` with no parameters: lists the open contexts.
pub fn context_list_request() -> (r: Request)
    ensures
        r.method@ == "browsingContext.getTree"@,
        r.params@ == "{}"@,
{
    request("browsingContext.getTree", String::from_str("{}"))
}

/// `browsingContext.create` of a context of kind `kind` (by default `tab`).
pub fn context_create_request(kind: Option<String>) -> (r: Request)
    ensures
        r.method@ == "browsingContext.create"@,
        r.params@ == create_params(kind_or_default(kind)),
{
    let k = match kind {
        Some(k) => k,
        None => String::from_str("tab"),
    };
    let mut p = String::from_str("{\"type\":");
    push_json(&mut p, k.as_str());
    p.append("}");
    proof {
        reveal_strlit("tab");
        reveal_strlit("{\"type\":");
        reveal_strlit("}");
    }
    request("browsingContext.create", p)
}

fn context_only(context: &str) -> (r: String)
    ensures
        r@ == context_params(context@),
{
    let mut p = String::from_str("{\"context\":");
    push_json(&mut p, context);
    p.append("}");
    proof {
        reveal_strlit("{\"context\":");
        reveal_strlit("}");
    }
    p
}

/// `browsingContext.close` of the context asked for, by default the current
/// one.
pub fn context_close_request(requested: Option<String>, current: &str) -> (r: Request)
    ensures
        r.method@ == "browsingContext.close"@,
        r.params@ == context_params(
            match requested {
                Some(c) => c@,
                None => current@,
            },
        ),
{
    let p = match requested {
        Some(c) => context_only(c.as_str()),
        None => context_only(current),
    };
    request("browsingContext.close", p)
}

/// `browsingContext.captureScreenshot` of the current context.
pub fn screenshot_request(context: &str) -> (r: Request)
    ensures
        r.method@ == "browsingContext.captureScreenshot"@,
        r.params@ == context_params(context@),
{
    request("browsingContext.captureScreenshot", context_only(context))
}

fn bool_json(b: bool) -> (r: &'static str)
    ensures
        r@ == bool_text(b),
{
    if b {
        "true"
    } else {
        "false"
    }
}

/// `script.evaluate` of `expression` in the current context, awaiting a
/// promise result unless asked not to.
pub fn evaluate_request(context: &str, expression: &str, await_promise: Option<bool>) -> (r:
    Request)
    ensures
        r.method@ == "script.evaluate"@,
        r.params@ == evaluate_params(
            context@,
            expression@,
            match await_promise {
                Some(b) => b,
                None => true,
            },
        ),
{
    let b = match await_promise {
        Some(b) => b,
        None => true,
    };
    let mut p = String::from_str("{\"awaitPromise\":");
    p.append(bool_json(b));
    p.append(",\"expression\":");
    push_json(&mut p, expression);
    p.append(",\"target\":{\"context\":");
    push_json(&mut p, context);
    p.append("}}");
    proof {
        reveal_strlit("{\"awaitPromise\":");
        reveal_strlit(",\"expression\":");
        reveal_strlit(",\"target\":{\"context\":");
        reveal_strlit("}}");
    }
    request("script.evaluate", p)
}

/// `script.evaluate` of the expression that reads the visible text of the
/// element matching `selector`, or of the whole body; never awaits.
pub fn get_text_request(context: &str, selector: Option<String>) -> (r: Request)
    ensures
        r.method@ == "script.evaluate"@,
        r.params@ == evaluate_params(context@, text_expression(selector), false),
{
    let expr = match selector {
        Some(s) => {
            let mut e = String::from_str("(document.querySelector(");
            push_json(&mut e, s.as_str());
            e.append(")||{}).innerText ?? ''");
            proof {
                reveal_strlit("(document.querySelector(");
                reveal_strlit(")||{}).innerText ?? ''");
            }
            e
        },
        None => String::from_str("document.body.innerText"),
    };
    evaluate_request(context, expr.as_str(), Some(false))
}

/// `script.evaluate` of the expression that finds the first element matching
/// `selector`, its result owned by the session's root realm.
pub fn resolve_node_request(context: &str, selector: &str) -> (r: Request)
    ensures
        r.method@ == "script.evaluate"@,
        r.params@ == resolve_params(context@, query_expression(selector@)),
{
    let mut e = String::from_str("document.querySelector(");
    push_json(&mut e, selector);
    e.append(")");
    let mut p = String::from_str("{\"awaitPromise\":false,\"expression\":");
    push_json(&mut p, e.as_str());
    p.append(",\"resultOwnership\":\"root\",\"target\":{\"context\":");
    push_json(&mut p, context);
    p.append("}}");
    proof {
        reveal_strlit("document.querySelector(");
        reveal_strlit(")");
        reveal_strlit("{\"awaitPromise\":false,\"expression\":");
        reveal_strlit(",\"resultOwnership\":\"root\",\"target\":{\"context\":");
        reveal_strlit("}}");
    }
    request("script.evaluate", p)
}

fn perform(context: &str, actions: &str) -> (r: Request)
    ensures
        r.method@ == "input.performActions"@,
        r.params@ == perform_params(context@, actions@),
{
    let mut p = String::from_str("{\"actions\":");
    p.append(actions);
    p.append(",\"context\":");
    push_json(&mut p, context);
    p.append("}");
    proof {
        reveal_strlit("{\"actions\":");
        reveal_strlit(",\"context\":");
        reveal_strlit("}");
    }
    request("input.performActions", p)
}

/// `input.performActions` that clicks the element `shared_id`.
pub fn click_request(context: &str, shared_id: &str) -> (r: Request)
    ensures
        r.method@ == "input.performActions"@,
        r.params@ == perform_params(context@, click_actions(shared_id@)),
{
    let mut a = String::from_str("[{\"actions\":[{\"origin\":{\"element\":{\"sharedId\":");
    push_json(&mut a, shared_id);
    a.append(
        "},\"type\":\"element\"},\"type\":\"pointerMove\",\"x\":0,\"y\":0},{\"button\":0,\"type\":\"pointerDown\"},{\"button\":0,\"type\":\"pointerUp\"}],\"id\":\"mouse\",\"type\":\"pointer\"}]",
    );
    proof {
        reveal_strlit("[{\"actions\":[{\"origin\":{\"element\":{\"sharedId\":");
        reveal_strlit(
            "},\"type\":\"element\"},\"type\":\"pointerMove\",\"x\":0,\"y\":0},{\"button\":0,\"type\":\"pointerDown\"},{\"button\":0,\"type\":\"pointerUp\"}],\"id\":\"mouse\",\"type\":\"pointer\"}]",
        );
    }
    perform(context, a.as_str())
}

/// `input.performActions` that types `text`, one key-down and key-up per
/// character.
pub fn type_keys_request(context: &str, text: &str) -> (r: Request)
    ensures
        r.method@ == "input.performActions"@,
        r.params@ == perform_params(context@, keyboard_actions(text@)),
{
    let mut keys = String::new();
    let mut first = true;
    for c in iter: text.chars()
        invariant
            iter.seq() == text@,
            first == (iter.index() == 0),
            keys@ == key_actions(text@.take(iter.index() as int)),
    {
        let ghost i = iter.index();
        proof {
            reveal_strlit(",");
            reveal_strlit("{\"type\":\"keyDown\",\"value\":");
            reveal_strlit("},{\"type\":\"keyUp\",\"value\":");
            reveal_strlit("}");
        }
        if !first {
            keys.append(",");
        }
        first = false;
        keys.append("{\"type\":\"keyDown\",\"value\":");
        push_quoted_char(&mut keys, c);
        keys.append("},{\"type\":\"keyUp\",\"value\":");
        push_quoted_char(&mut keys, c);
        keys.append("}");
        proof {
            let prefix = text@.take(i + 1);
            assert(prefix.drop_last() =~= text@.take(i));
            assert(prefix.last() == c);
        }
    }
    assert(text@.take(text@.len() as int) =~= text@);
    let mut a = String::from_str("[{\"actions\":[");
    a.append(keys.as_str());
    a.append("],\"id\":\"keyboard\",\"type\":\"key\"}]");
    proof {
        reveal_strlit("[{\"actions\":[");
        reveal_strlit("],\"id\":\"keyboard\",\"type\":\"key\"}]");
    }
    perform(context, a.as_str())
}

/// `session.new` with no required capabilities.
pub fn session_new_request() -> (r: Request)
    ensures
        r.method@ == "session.new"@,
        r.params@ == "{\"capabilities\":{}}"@,
{
    request("session.new", String::from_str("{\"capabilities\":{}}"))
}

/// `session.subscribe` to console and log entries, so that they are buffered.
pub fn subscribe_request() -> (r: Request)
    ensures
        r.method@ == "session.subscribe"@,
        r.params@ == "{\"events\":[\"log.entryAdded\"]}"@,
{
    request("session.subscribe", String::from_str("{\"events\":[\"log.entryAdded\"]}"))
}

/// `session.end` with no parameters.
pub fn session_end_request() -> (r: Request)
    ensures
        r.method@ == "session.end"@,
        r.params@ == "{}"@,
{
    request("session.end", String::from_str("{}"))
}

/// The text that reading page text returns: the string value of the
/// evaluation's result, or the empty string when the result has none.
pub fn page_text(value: Option<String>) -> (r: String)
    ensures
        r@ == match value {
            Some(v) => v@,
            None => Seq::<char>::empty(),
        },
{
    match value {
        Some(v) => v,
        None => String::new(),
    }
}

/// The message with which a selector that matches no element is refused.
pub open spec fn no_match_message(selector: Seq<char>) -> Seq<char> {
    "no element matched selector "@ + debug_text(selector)
}

/// The node that resolving `selector` found: the `sharedId` that the reply
/// carries, or, when it carries none, the refusal that names the selector.
pub fn matched_node(selector: &str, shared_id: Option<String>) -> (r: Result<String, String>)
    ensures
        match shared_id {
            Some(id) => r == Ok::<String, String>(id),
            None => r matches Err(m) && m@ == no_match_message(selector@),
        },
{
    match shared_id {
        Some(id) => Ok(id),
        None => {
            proof {
                reveal_strlit("no element matched selector ");
            }
            let q = debug_quote(selector);
            Err(String::from_str("no element matched selector ").concat(q.as_str()))
        },
    }
}

/// Why base64 data could not be decoded, as the base64 crate reports it.
#[derive(Clone, Copy, Debug, PartialEq, Eq, Structural)]
pub enum Base64Failure {
    /// A byte outside the alphabet (or misplaced padding) at an offset.
    InvalidByte(usize, u8),
    /// A number of symbols that no input quad can end with.
    InvalidLength(usize),
    /// A last symbol whose discarded bits are not zero.
    InvalidLastSymbol { offset: usize, symbol: u8, symbol_value: u8 },
    /// Padding that is absent or not canonical.
    InvalidPadding,
}

/// What the standard base64 alphabet (with canonical padding) decodes
/// `text` to, or why it cannot.
pub uninterp spec fn base64_standard_decoding(text: Seq<char>) -> Result<Seq<u8>, Base64Failure>;

/// Calls `Engine::decode` of base64's `general_purpose::STANDARD` engine
/// and reads its `DecodeError` variant by variant. The contract claims that
/// the outcome is `base64_standard_decoding` of the text.
#[verifier::external_body]
fn decode_base64_standard(text: &str) -> (r: Result<Vec<u8>, Base64Failure>)
    ensures
        match base64_standard_decoding(text@) {
            Ok(b) => r is Ok && r->Ok_0@ == b,
            Err(f) => r == Err::<Vec<u8>, Base64Failure>(f),
        },
{
    match base64::Engine::decode(&base64::engine::general_purpose::STANDARD, text) {
        Ok(bytes) => Ok(bytes),
        Err(base64::DecodeError::InvalidByte(offset, byte)) => Err(Base64Failure::InvalidByte(offset, byte)),
        Err(base64::DecodeError::InvalidLength(len)) => Err(Base64Failure::InvalidLength(len)),
        Err(base64::DecodeError::InvalidLastSymbol { offset, symbol, symbol_value }) => Err(
            Base64Failure::InvalidLastSymbol { offset, symbol, symbol_value },
        ),
        Err(base64::DecodeError::InvalidPadding) => Err(Base64Failure::InvalidPadding),
    }
}

/// `{:#4x}` of a byte: `0x` and its lowercase hexadecimal digits, padded on
/// the left with spaces to four characters.
pub open spec fn padded_hex(b: u8) -> Seq<char> {
    let h = "0x"@ + hex_text(b as nat);
    if h.len() < 4 {
        Seq::new((4 - h.len()) as nat, |i: int| ' ') + h
    } else {
        h
    }
}

/// `{:#010b}` of a byte: `0b` and its eight binary digits.
pub open spec fn binary8(b: u8) -> Seq<char> {
    "0b"@ + Seq::new(8, |i: int| if (b >> ((7 - i) as u8)) & 1u8 == 1u8 { '1' } else { '0' })
}

/// The character a symbol byte stands for: itself when ASCII, otherwise the
/// replacement character.
pub open spec fn symbol_char(b: u8) -> char {
    if b < 0x80 { (b as u32) as char } else { '\u{FFFD}' }
}

/// The text with which the base64 crate describes a decoding failure.
pub open spec fn base64_failure_text(f: Base64Failure) -> Seq<char> {
    match f {
        Base64Failure::InvalidByte(offset, byte) => "Invalid symbol "@ + decimal(byte as nat)
            + ", offset "@ + decimal(offset as nat) + "."@,
        Base64Failure::InvalidLength(len) => "Invalid input length: "@ + decimal(len as nat),
        Base64Failure::InvalidLastSymbol { offset, symbol, symbol_value } => "Invalid last symbol "@
            + padded_hex(symbol) + " ('"@ + seq![symbol_char(symbol)] + "') at offset "@ + decimal(
            offset as nat,
        ) + ", decoded as "@ + binary8(symbol_value) + "."@,
        Base64Failure::InvalidPadding => "Invalid padding"@,
    }
}

fn push_padded_hex(out: &mut String, b: u8)
    ensures
        final(out)@ == old(out)@ + padded_hex(b),
{
    proof {
        reveal_strlit("0x");
        reveal_strlit(" ");
    }
    let ghost before = out@;
    if b < 16 {
        out.append(" ");
    }
    out.append("0x");
    push_hex(out, b as u64);
    proof {
        if b < 16 {
            assert(hex_text(b as nat).len() == 1);
            assert(out@ =~= before + padded_hex(b));
        } else {
            assert(hex_text((b / 16) as nat).len() == 1);
            assert(hex_text(b as nat).len() == 2);
            assert(out@ =~= before + padded_hex(b));
        }
    }
}

fn push_binary8(out: &mut String, b: u8)
    ensures
        final(out)@ == old(out)@ + binary8(b),
{
    proof {
        reveal_strlit("0b");
    }
    let ghost before = out@;
    out.append("0b");
    let ghost digits = Seq::new(8, |i: int| if (b >> ((7 - i) as u8)) & 1u8 == 1u8 { '1' } else { '0' });
    let mut k: u8 = 0;
    while k < 8
        invariant
            k <= 8,
            digits == Seq::new(8, |i: int| if (b >> ((7 - i) as u8)) & 1u8 == 1u8 { '1' } else { '0' }),
            out@ == before + "0b"@ + digits.subrange(0, k as int),
        decreases 8 - k,
    {
        let bit = (b >> (7 - k)) & 1u8;
        push_char(out, if bit == 1u8 { '1' } else { '0' });
        assert(digits.subrange(0, k + 1) =~= digits.subrange(0, k as int).push(digits[k as int]));
        k = k + 1;
    }
    assert(digits.subrange(0, 8) =~= digits);
}

impl Base64Failure {
    /// The text with which the base64 crate describes this failure.
    pub fn message(&self) -> (r: String)
        ensures
            r@ == base64_failure_text(*self),
    {
        proof {
            reveal_strlit("Invalid symbol ");
            reveal_strlit(", offset ");
            reveal_strlit(".");
            reveal_strlit("Invalid input length: ");
            reveal_strlit("Invalid last symbol ");
            reveal_strlit(" ('");
            reveal_strlit("') at offset ");
            reveal_strlit(", decoded as ");
            reveal_strlit("Invalid padding");
        }
        let mut out = String::new();
        match *self {
            Base64Failure::InvalidByte(offset, byte) => {
                out.append("Invalid symbol ");
                push_decimal(&mut out, byte as u64);
                out.append(", offset ");
                push_decimal(&mut out, offset as u64);
                out.append(".");
            },
            Base64Failure::InvalidLength(len) => {
                out.append("Invalid input length: ");
                push_decimal(&mut out, len as u64);
            },
            Base64Failure::InvalidLastSymbol { offset, symbol, symbol_value } => {
                out.append("Invalid last symbol ");
                push_padded_hex(&mut out, symbol);
                out.append(" ('");
                let c = if symbol < 0x80 { symbol as char } else { '\u{FFFD}' };
                push_char(&mut out, c);
                out.append("') at offset ");
                push_decimal(&mut out, offset as u64);
                out.append(", decoded as ");
                push_binary8(&mut out, symbol_value);
                out.append(".");
            },
            Base64Failure::InvalidPadding => {
                out.append("Invalid padding");
            },
        }
        out
    }
}

/// The message with which a screenshot reply without image data fails.
pub open spec fn no_data_message() -> Seq<char> {
    "screenshot response had no data field"@
}

/// The prefix of the message with which undecodable image data fails.
pub open spec fn bad_base64_prefix() -> Seq<char> {
    "bad base64 screenshot: "@
}

/// What a screenshot tool returns for the outcome of decoding its image
/// data: the bytes, or the decoder's description of the failure after a
/// fixed prefix.
pub fn screenshot_result(decoded: Result<Vec<u8>, Base64Failure>) -> (r: Result<Vec<u8>, String>)
    ensures
        match decoded {
            Ok(b) => r is Ok && r->Ok_0@ == b@,
            Err(f) => r is Err && r->Err_0@ == bad_base64_prefix() + base64_failure_text(f),
        },
{
    proof {
        reveal_strlit("bad base64 screenshot: ");
    }
    match decoded {
        Ok(bytes) => Ok(bytes),
        Err(f) => {
            let detail = f.message();
            Err(String::from_str("bad base64 screenshot: ").concat(detail.as_str()))
        },
    }
}

/// The PNG bytes of a screenshot reply, from its base64 `data` member.
pub fn decode_screenshot(data: Option<String>) -> (r: Result<Vec<u8>, String>)
    ensures
        match data {
            None => r is Err && r->Err_0@ == no_data_message(),
            Some(t) => match base64_standard_decoding(t@) {
                Ok(b) => r is Ok && r->Ok_0@ == b,
                Err(f) => r is Err && r->Err_0@ == bad_base64_prefix() + base64_failure_text(f),
            },
        },
{
    proof {
        reveal_strlit("screenshot response had no data field");
    }
    match data {
        None => Err(String::from_str("screenshot response had no data field")),
        Some(t) => screenshot_result(decode_base64_standard(t.as_str())),
    }
}

/// What reading page text returns for its reply: the string at
/// `result.value`, or the empty string when there is none.
pub fn text_of_reply(reply: &serde_json::Value) -> (r: String)
    ensures
        r@ == match reply_result_member(*reply, "value"@) {
            Some(v) => v,
            None => Seq::<char>::empty(),
        },
{
    let v = result_member(reply, "value");
    page_text(v)
}

/// The node that resolving `selector` found, from the reply: the string at
/// `result.sharedId`, or the refusal that names the selector.
pub fn node_of_reply(selector: &str, reply: &serde_json::Value) -> (r: Result<String, String>)
    ensures
        match reply_result_member(*reply, "sharedId"@) {
            Some(id) => r is Ok && r->Ok_0@ == id,
            None => r is Err && r->Err_0@ == no_match_message(selector@),
        },
{
    let id = result_member(reply, "sharedId");
    matched_node(selector, id)
}

/// The PNG bytes of a screenshot, from the reply's `data` member.
pub fn screenshot_of_reply(reply: &serde_json::Value) -> (r: Result<Vec<u8>, String>)
    ensures
        match reply_str_member(*reply, "data"@) {
            None => r is Err && r->Err_0@ == no_data_message(),
            Some(t) => match base64_standard_decoding(t) {
                Ok(b) => r is Ok && r->Ok_0@ == b,
                Err(f) => r is Err && r->Err_0@ == bad_base64_prefix() + base64_failure_text(f),
            },
        },
{
    let data = str_member(reply, "data");
    decode_screenshot(data)
}

/// What each tool needs, stated tool by tool: navigation and managing
/// contexts need `browser:navigate`; listing contexts, screenshots and
/// draining the console need `browser:read`; evaluating needs
/// `browser:script` alone; reading text needs `browser:read` and
/// `browser:script`; clicking and typing need `browser:input` and
/// `browser:script`.
pub proof fn lemma_capabilities_of_every_tool(g: Seq<BrowserCap>)
    ensures
        authorized(g, Tool::Navigate) <==> g.contains(BrowserCap::Navigate),
        authorized(g, Tool::ContextList) <==> g.contains(BrowserCap::Read),
        authorized(g, Tool::ContextCreate) <==> g.contains(BrowserCap::Navigate),
        authorized(g, Tool::ContextClose) <==> g.contains(BrowserCap::Navigate),
        authorized(g, Tool::Screenshot) <==> g.contains(BrowserCap::Read),
        authorized(g, Tool::Evaluate) <==> g.contains(BrowserCap::Script),
        authorized(g, Tool::GetText) <==> (g.contains(BrowserCap::Read) && g.contains(
            BrowserCap::Script,
        )),
        authorized(g, Tool::Click) <==> (g.contains(BrowserCap::Input) && g.contains(
            BrowserCap::Script,
        )),
        authorized(g, Tool::TypeText) <==> (g.contains(BrowserCap::Input) && g.contains(
            BrowserCap::Script,
        )),
        authorized(g, Tool::ConsoleDrain) <==> g.contains(BrowserCap::Read),
{
    if authorized(g, Tool::Navigate) { assert(g.contains(required_caps(Tool::Navigate)[0])); }
    if authorized(g, Tool::ContextList) { assert(g.contains(required_caps(Tool::ContextList)[0])); }
    if authorized(g, Tool::ContextCreate) { assert(g.contains(required_caps(Tool::ContextCreate)[0])); }
    if authorized(g, Tool::ContextClose) { assert(g.contains(required_caps(Tool::ContextClose)[0])); }
    if authorized(g, Tool::Screenshot) { assert(g.contains(required_caps(Tool::Screenshot)[0])); }
    if authorized(g, Tool::Evaluate) { assert(g.contains(required_caps(Tool::Evaluate)[0])); }
    if authorized(g, Tool::ConsoleDrain) { assert(g.contains(required_caps(Tool::ConsoleDrain)[0])); }
    lemma_input_tools_need_script(g, Tool::Click);
    lemma_input_tools_need_script(g, Tool::TypeText);
    lemma_get_text_needs_read_and_script(g);
}

/// Typing one character is one key-down and key-up pair for it.
pub proof fn lemma_typing_one_character(c: char)
    ensures
        key_actions(seq![c]) == key_pair(c),
        key_actions(Seq::<char>::empty()).len() == 0,
{
}

/// Typing a text in two parts gives the actions of each part, joined by a
/// comma: every character, repeated or not, gets its own pair, in order.
pub proof fn lemma_typing_splits(a: Seq<char>, b: Seq<char>)
    requires
        a.len() > 0,
        b.len() > 0,
    ensures
        key_actions(a + b) == key_actions(a) + ","@ + key_actions(b),
    decreases b.len(),
{
    if b.len() == 1 {
        assert((a + b).drop_last() =~= a);
        assert((a + b).last() == b[0]);
    } else {
        let b0 = b.drop_last();
        lemma_typing_splits(a, b0);
        assert((a + b).drop_last() =~= a + b0);
        assert((a + b).last() == b.last());
    }
}

/// Every character of the text gets exactly one key-down/key-up pair, in
/// order: the actions for `t` followed by `c` are those for `t`, a comma
/// when `t` is not empty, and the pair for `c`, whatever `c` and the last
/// character of `t` are.
pub proof fn lemma_typing_appends_one_pair(t: Seq<char>, c: char)
    ensures
        t.len() == 0 ==> key_actions(t.push(c)) == key_pair(c),
        t.len() > 0 ==> key_actions(t.push(c)) == key_actions(t) + ","@ + key_pair(c),
{
    if t.len() == 0 {
        assert(t.push(c) =~= seq![c]);
    } else {
        assert(t.push(c) =~= t + seq![c]);
        lemma_typing_splits(t, seq![c]);
    }
}

} // verus!
