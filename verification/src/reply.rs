//! Reading the members of a command's reply that the tools act on.

use crate::proto::opt_text;
use vstd::prelude::*;

verus! {

/// The top-level member `key` of a reply, when it is a JSON string.
pub uninterp spec fn reply_str_member(reply: serde_json::Value, key: Seq<char>) -> Option<Seq<char>>;

/// The member `key` of the reply's `result` object, when it is a JSON string.
pub uninterp spec fn reply_result_member(reply: serde_json::Value, key: Seq<char>) -> Option<
    Seq<char>,
>;

/// The `context` member of the first entry of the reply's `contexts` array,
/// when it is a JSON string.
pub uninterp spec fn reply_first_context(reply: serde_json::Value) -> Option<Seq<char>>;

/// Reads the top-level member `key` of a reply with serde_json's
/// `Value::get` and `Value::as_str`. The contract claims that the text read
/// is `reply_str_member` of the reply and key.
#[verifier::external_body]
pub(crate) fn str_member(reply: &serde_json::Value, key: &str) -> (r: Option<String>)
    ensures
        opt_text(r) == reply_str_member(*reply, key@),
{
    reply.get(key).and_then(serde_json::Value::as_str).map(str::to_string)
}

/// Reads the member `key` of the reply's `result` object with serde_json's
/// `Value::get` (twice) and `Value::as_str`. The contract claims that the
/// text read is `reply_result_member` of the reply and key.
#[verifier::external_body]
pub(crate) fn result_member(reply: &serde_json::Value, key: &str) -> (r: Option<String>)
    ensures
        opt_text(r) == reply_result_member(*reply, key@),
{
    reply.get("result").and_then(|res| res.get(key)).and_then(serde_json::Value::as_str).map(
        str::to_string,
    )
}

/// Reads `contexts[0].context` of a reply with serde_json's `Value::get`,
/// `Value::as_array` and `Value::as_str`. The contract claims that the text
/// read is `reply_first_context` of the reply.
#[verifier::external_body]
pub(crate) fn first_context(reply: &serde_json::Value) -> (r: Option<String>)
    ensures
        opt_text(r) == reply_first_context(*reply),
{
    reply.get("contexts").and_then(serde_json::Value::as_array).and_then(|a| a.first()).and_then(
        |c0| c0.get("context"),
    ).and_then(serde_json::Value::as_str).map(str::to_string)
}

} // verus!
