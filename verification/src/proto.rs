//! BiDi wire framing: the text of an outgoing command, and the classification
//! of an incoming frame.

use crate::json::{decimal, json_string_text, push_decimal, quote};
use crate::text::{debug_quote, debug_text};
use vstd::prelude::*;

verus! {

/// An incoming frame, classified.
#[derive(Debug)]
pub enum Frame {
    /// A successful response to command `id`.
    Response { id: u64, body: serde_json::Value },
    /// An error response to command `id`.
    Error { id: u64, message: String },
    /// An event, not tied to any command.
    Event { method: String, params: serde_json::Value },
}

/// Why an incoming frame could not be classified.
#[derive(Debug)]
pub enum ProtoError {
    /// The text is not JSON; the message is the parser's.
    Malformed(String),
    /// The `type` member names no known frame type.
    UnknownType(String),
    /// A member that the frame type needs is missing or has the wrong type.
    MissingField(&'static str),
}

/// What classification reads of a frame: its top-level members, each as the
/// protocol reads it. A string member is `Some` only when present and a JSON
/// string, `id` only when present and an unsigned integer; `result` and
/// `params` are the members' values, or JSON `null` when absent.
#[derive(Debug)]
pub struct FrameFields {
    pub kind: Option<String>,
    pub id: Option<u64>,
    pub result: serde_json::Value,
    pub error: Option<String>,
    pub message: Option<String>,
    pub method: Option<String>,
    pub params: serde_json::Value,
}

/// The text of an outgoing command: a JSON object with the members `id`,
/// `method` and `params`, in that order, `params` being the given JSON text.
pub open spec fn command_text(id: nat, method: Seq<char>, params: Seq<char>) -> Seq<char> {
    "{\"id\":"@ + decimal(id) + ",\"method\":"@ + json_string_text(method) + ",\"params\":"@
        + params + "}"@
}

/// The text of an optional string.
pub open spec fn opt_text(o: Option<String>) -> Option<Seq<char>> {
    match o {
        Some(t) => Some(t@),
        None => None,
    }
}

/// The members that classification decides on, as plain values, in the
/// order `type`, `id`, `error`, `message`, `method`.
pub open spec fn members_of(f: FrameFields) -> (
    Option<Seq<char>>,
    Option<u64>,
    Option<Seq<char>>,
    Option<Seq<char>>,
    Option<Seq<char>>,
) {
    (opt_text(f.kind), f.id, opt_text(f.error), opt_text(f.message), opt_text(f.method))
}

/// The members `type`, `id`, `error`, `message` and `method` that serde_json
/// reads from the frame text, each as the protocol reads it (a string member
/// only when it is a JSON string, `id` only when it is an unsigned integer);
/// `None` when the text is not JSON.
pub uninterp spec fn frame_members(text: Seq<char>) -> Option<
    (Option<Seq<char>>, Option<u64>, Option<Seq<char>>, Option<Seq<char>>, Option<Seq<char>>),
>;

/// Whether the frame's `type` member is the string `k`.
pub open spec fn kind_is(
    m: (Option<Seq<char>>, Option<u64>, Option<Seq<char>>, Option<Seq<char>>, Option<Seq<char>>),
    k: Seq<char>,
) -> bool {
    m.0 == Some(k)
}

/// Whether the frame's `type` member is one of the three known types.
pub open spec fn known_kind(
    m: (Option<Seq<char>>, Option<u64>, Option<Seq<char>>, Option<Seq<char>>, Option<Seq<char>>),
) -> bool {
    kind_is(m, "success"@) || kind_is(m, "error"@) || kind_is(m, "event"@)
}

/// The member that classification finds missing first, if any: `type`,
/// then `id` for responses and errors, then `method` for events.
pub open spec fn missing_field(
    m: (Option<Seq<char>>, Option<u64>, Option<Seq<char>>, Option<Seq<char>>, Option<Seq<char>>),
) -> Option<Seq<char>> {
    if m.0 is None {
        Some("type"@)
    } else if (kind_is(m, "success"@) || kind_is(m, "error"@)) && m.1 is None {
        Some("id"@)
    } else if kind_is(m, "event"@) && m.4 is None {
        Some("method"@)
    } else {
        None
    }
}

/// The message of an error frame: its error code (`unknown` when absent),
/// a colon and a space, and its message (empty when absent).
pub open spec fn error_frame_message(
    m: (Option<Seq<char>>, Option<u64>, Option<Seq<char>>, Option<Seq<char>>, Option<Seq<char>>),
) -> Seq<char> {
    let code = match m.2 {
        Some(c) => c,
        None => "unknown"@,
    };
    let msg = match m.3 {
        Some(t) => t,
        None => Seq::<char>::empty(),
    };
    code + ": "@ + msg
}

/// Whether `r` is the classification of a frame with members `m`: the
/// frame type decides the variant, and the first missing member is reported.
pub open spec fn classification(
    m: (Option<Seq<char>>, Option<u64>, Option<Seq<char>>, Option<Seq<char>>, Option<Seq<char>>),
    r: Result<Frame, ProtoError>,
) -> bool {
    match r {
        Ok(Frame::Response { id, .. }) => missing_field(m) is None && kind_is(m, "success"@)
            && m.1 == Some(id),
        Ok(Frame::Error { id, message }) => missing_field(m) is None && kind_is(m, "error"@)
            && m.1 == Some(id) && message@ == error_frame_message(m),
        Ok(Frame::Event { method, .. }) => missing_field(m) is None && kind_is(m, "event"@)
            && m.4 == Some(method@),
        Err(ProtoError::MissingField(n)) => missing_field(m) == Some(n@),
        Err(ProtoError::UnknownType(t)) => missing_field(m) is None && !known_kind(m) && m.0
            == Some(t@),
        Err(ProtoError::Malformed(_)) => false,
    }
}

/// The text with which a classification error is reported.
pub open spec fn proto_error_text(e: ProtoError) -> Seq<char> {
    match e {
        ProtoError::Malformed(m) => "malformed BiDi frame: "@ + m@,
        ProtoError::UnknownType(t) => "unknown BiDi frame type "@ + debug_text(t@),
        ProtoError::MissingField(n) => "BiDi frame missing field "@ + debug_text(n@),
    }
}

impl ProtoError {
    /// The text with which this error is reported.
    pub fn message(&self) -> (r: String)
        ensures
            r@ == proto_error_text(*self),
    {
        proof {
            reveal_strlit("malformed BiDi frame: ");
            reveal_strlit("unknown BiDi frame type ");
            reveal_strlit("BiDi frame missing field ");
        }
        match self {
            ProtoError::Malformed(m) => String::from_str("malformed BiDi frame: ").concat(m.as_str()),
            ProtoError::UnknownType(t) => {
                let q = debug_quote(t.as_str());
                String::from_str("unknown BiDi frame type ").concat(q.as_str())
            },
            ProtoError::MissingField(n) => {
                let q = debug_quote(n);
                String::from_str("BiDi frame missing field ").concat(q.as_str())
            },
        }
    }
}

/// The text of the command `method` with identifier `id` and parameters
/// `params` (JSON text).
pub fn command(id: u64, method: &str, params: &str) -> (r: String)
    ensures
        r@ == command_text(id as nat, method@, params@),
{
    let mut out = String::from_str("{\"id\":");
    push_decimal(&mut out, id);
    out.append(",\"method\":");
    let q = quote(method);
    out.append(q.as_str());
    out.append(",\"params\":");
    out.append(params);
    out.append("}");
    proof {
        reveal_strlit("{\"id\":");
        reveal_strlit(",\"method\":");
        reveal_strlit(",\"params\":");
        reveal_strlit("}");
    }
    out
}

fn is_kind(kind: &String, k: &str) -> (r: bool)
    ensures
        r == (kind@ == k@),
{
    *kind == String::from_str(k)
}

/// Classifies a frame, given the members it was read into, by its `type`
/// member. A response keeps the frame's `result`, an event its `params`.
pub fn classify_fields(f: FrameFields) -> (r: Result<Frame, ProtoError>)
    ensures
        classification(members_of(f), r),
        r matches Ok(Frame::Response { body, .. }) ==> body == f.result,
        r matches Ok(Frame::Event { params, .. }) ==> params == f.params,
{
    proof {
        reveal_strlit("type");
        reveal_strlit("id");
        reveal_strlit("method");
        reveal_strlit("success");
        reveal_strlit("error");
        reveal_strlit("event");
        reveal_strlit("unknown");
        reveal_strlit(": ");
        assert("success"@.len() != "event"@.len());
        assert("error"@[1] != "event"@[1]);
    }
    let FrameFields { kind, id, result, error, message, method, params } = f;
    let kind = match kind {
        Some(k) => k,
        None => {
            return Err(ProtoError::MissingField("type"));
        },
    };
    if is_kind(&kind, "success") {
        match id {
            Some(id) => Ok(Frame::Response { id, body: result }),
            None => Err(ProtoError::MissingField("id")),
        }
    } else if is_kind(&kind, "error") {
        match id {
            Some(id) => {
                let code = match error {
                    Some(c) => c,
                    None => String::from_str("unknown"),
                };
                let msg = match message {
                    Some(m) => m,
                    None => String::new(),
                };
                let text = code.concat(": ").concat(msg.as_str());
                Ok(Frame::Error { id, message: text })
            },
            None => Err(ProtoError::MissingField("id")),
        }
    } else if is_kind(&kind, "event") {
        match method {
            Some(m) => Ok(Frame::Event { method: m, params }),
            None => Err(ProtoError::MissingField("method")),
        }
    } else {
        Err(ProtoError::UnknownType(kind))
    }
}

/// The `result` member of the frame text as serde_json parses it, or JSON
/// `null` when the member is absent (or the text is not a JSON object).
pub uninterp spec fn frame_result(text: Seq<char>) -> serde_json::Value;

/// The `params` member of the frame text as serde_json parses it, or JSON
/// `null` when the member is absent (or the text is not a JSON object).
pub uninterp spec fn frame_params(text: Seq<char>) -> serde_json::Value;

/// The message (`Display`) of the error with which serde_json refuses text
/// that is not JSON.
pub uninterp spec fn frame_parse_error(text: Seq<char>) -> Seq<char>;

/// Calls `serde_json::from_str` on the frame text and reads its members with
/// `Value::get`, `Value::as_str` and `Value::as_u64` (`result` and `params`
/// as they are, `null` when absent). The contract claims that reading fails
/// exactly when the text is not JSON, with serde_json's message
/// `frame_parse_error`, and that otherwise the members read are
/// `frame_members`, `frame_result` and `frame_params` of the text.
#[verifier::external_body]
fn read_frame(text: &str) -> (r: Result<FrameFields, String>)
    ensures
        match frame_members(text@) {
            None => r is Err && r->Err_0@ == frame_parse_error(text@),
            Some(m) => r is Ok && members_of(r->Ok_0) == m && r->Ok_0.result == frame_result(text@)
                && r->Ok_0.params == frame_params(text@),
        },
{
    let v: serde_json::Value = serde_json::from_str(text).map_err(|e| e.to_string())?;
    let text_of = |k: &str| v.get(k).and_then(serde_json::Value::as_str).map(str::to_string);
    Ok(FrameFields {
        kind: text_of("type"),
        id: v.get("id").and_then(serde_json::Value::as_u64),
        result: v.get("result").cloned().unwrap_or_default(),
        error: text_of("error"),
        message: text_of("message"),
        method: text_of("method"),
        params: v.get("params").cloned().unwrap_or_default(),
    })
}

/// Classifies the text of an incoming frame: text that is not JSON is
/// malformed, with serde_json's message, and any other text is classified by
/// its members; a response carries the frame's `result`, an event its
/// `params`.
pub fn classify(text: &str) -> (r: Result<Frame, ProtoError>)
    ensures
        match frame_members(text@) {
            None => r is Err && r->Err_0 is Malformed && r->Err_0->Malformed_0@ == frame_parse_error(
                text@,
            ),
            Some(m) => classification(m, r),
        },
        frame_members(text@) is None <==> r matches Err(ProtoError::Malformed(_)),
        r matches Ok(Frame::Response { body, .. }) ==> body == frame_result(text@),
        r matches Ok(Frame::Event { params, .. }) ==> params == frame_params(text@),
{
    match read_frame(text) {
        Err(e) => Err(ProtoError::Malformed(e)),
        Ok(f) => classify_fields(f),
    }
}

} // verus!
