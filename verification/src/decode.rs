//! The request decoder: one message's JSON text becomes a tagged request.
//! Parsing and field access go through serde_json, whose results — pure
//! functions of the text — are named below; the strict dispatch on the
//! action tag and the required fields is verified in
//! [`crate::msg::request_from_fields`], and the decoder's own contract ties
//! the outcome to the named fields of the text.

use vstd::prelude::*;
use vstd::string::*;
use crate::msg::{request_from_fields, spec_opt_string_view, Request};

verus! {

#[verifier::external_type_specification]
#[verifier::external_body]
pub struct ExValue(serde_json::Value);

#[verifier::external_type_specification]
#[verifier::external_body]
pub struct ExError(serde_json::Error);

/// Whether the text parses as one JSON document.
pub uninterp spec fn spec_json_ok(s: Seq<char>) -> bool;

/// The string field at a top-level key of the document `s`: `None` when the
/// key is absent or null, `Some(None)` when it holds a value of another
/// kind, and `Some(Some(text))` when it holds a string.
pub uninterp spec fn spec_json_string_field(s: Seq<char>, key: Seq<char>) -> Option<
    Option<Seq<char>>,
>;

/// The unsigned-integer field at a top-level key of the document `s`, in
/// the same three states as [`spec_json_string_field`].
pub uninterp spec fn spec_json_u64_field(s: Seq<char>, key: Seq<char>) -> Option<Option<u64>>;

/// The view of an extracted optional string field.
pub open spec fn spec_field_view(f: Option<Option<String>>) -> Option<Option<Seq<char>>> {
    match f {
        None => None,
        Some(None) => Some(None),
        Some(Some(v)) => Some(Some(v@)),
    }
}

/// The usable value of a string field: present and of the right kind.
pub open spec fn spec_str_field_ok(s: Seq<char>, key: Seq<char>) -> Option<Seq<char>> {
    match spec_json_string_field(s, key) {
        Some(Some(v)) => Some(v),
        _ => None,
    }
}

/// The usable value of an unsigned-integer field: present and of the right
/// kind.
pub open spec fn spec_u64_field_ok(s: Seq<char>, key: Seq<char>) -> Option<u64> {
    match spec_json_u64_field(s, key) {
        Some(Some(v)) => Some(v),
        _ => None,
    }
}

/// Whether some field of the request shape holds a value of the wrong
/// kind, which fails the decode.
pub open spec fn spec_any_field_invalid(s: Seq<char>) -> bool {
    ||| spec_json_string_field(s, "action"@) == Some(None::<Seq<char>>)
    ||| spec_json_string_field(s, "file"@) == Some(None::<Seq<char>>)
    ||| spec_json_u64_field(s, "start_line"@) == Some(None::<u64>)
    ||| spec_json_u64_field(s, "end_line"@) == Some(None::<u64>)
    ||| spec_json_string_field(s, "side"@) == Some(None::<Seq<char>>)
    ||| spec_json_string_field(s, "code"@) == Some(None::<Seq<char>>)
    ||| spec_json_string_field(s, "question"@) == Some(None::<Seq<char>>)
    ||| spec_json_string_field(s, "tmux_target"@) == Some(None::<Seq<char>>)
    ||| spec_json_string_field(s, "debug_html"@) == Some(None::<Seq<char>>)
}

/// Relies on serde_json::from_str with serde_json::Value as the target:
/// whether the text parses as one JSON document — deterministically, a
/// function of the text alone — or why it does not.
#[verifier::external_body]
fn parse_check(text: &str) -> (r: Result<(), serde_json::Error>)
    ensures
        r is Ok <==> spec_json_ok(text@),
{
    match serde_json::from_str::<serde_json::Value>(text) {
        Ok(_) => Ok(()),
        Err(e) => Err(e),
    }
}

/// Relies on serde_json::from_str, Value::get (string index),
/// Value::is_null and Value::as_str, all deterministic in the text: the
/// string field at a top-level key of the document — absent or null,
/// present with another kind, or the string itself — and nothing at all
/// when the text is no JSON document.
#[verifier::external_body]
fn json_string_field(text: &str, key: &str) -> (r: Option<Option<String>>)
    ensures
        spec_json_ok(text@) ==> spec_field_view(r) == spec_json_string_field(text@, key@),
        !spec_json_ok(text@) ==> r is None,
{
    let v: serde_json::Value = match serde_json::from_str(text) {
        Ok(v) => v,
        Err(_) => return None,
    };
    match v.get(key) {
        Some(x) => if x.is_null() {
            None
        } else {
            Some(x.as_str().map(str::to_owned))
        },
        None => None,
    }
}

/// Relies on serde_json::from_str, Value::get (string index),
/// Value::is_null and Value::as_u64, all deterministic in the text: the
/// unsigned integer at a top-level key of the document, in the same three
/// states as [`json_string_field`].
#[verifier::external_body]
fn json_u64_field(text: &str, key: &str) -> (r: Option<Option<u64>>)
    ensures
        spec_json_ok(text@) ==> r == spec_json_u64_field(text@, key@),
        !spec_json_ok(text@) ==> r is None,
{
    let v: serde_json::Value = match serde_json::from_str(text) {
        Ok(v) => v,
        Err(_) => return None,
    };
    match v.get(key) {
        Some(x) => if x.is_null() {
            None
        } else {
            Some(x.as_u64())
        },
        None => None,
    }
}

/// Relies on the Display rendering of serde_json::Error: its message.
#[verifier::external_body]
fn error_message(e: &serde_json::Error) -> String {
    format!("{}", e)
}

/// The error text written back for a message that decodes to no request.
pub fn invalid_json_message(details: &str) -> (msg: String)
    ensures
        msg@ == "Invalid JSON: "@ + details@,
        msg@.len() >= "Invalid JSON: "@.len(),
        msg@.subrange(0, "Invalid JSON: "@.len() as int) == "Invalid JSON: "@,
{
    let mut msg = String::from_str("Invalid JSON: ");
    msg.append(details);
    proof {
        assert(msg@.subrange(0, "Invalid JSON: "@.len() as int) =~= "Invalid JSON: "@);
    }
    msg
}

/// The error text for a field that holds a value of the wrong kind.
fn invalid_field_message(key: &str) -> (msg: String)
    ensures
        msg@ == "Invalid JSON: "@ + ("invalid type for field "@ + key@),
        msg@.len() >= "Invalid JSON: "@.len(),
        msg@.subrange(0, "Invalid JSON: "@.len() as int) == "Invalid JSON: "@,
{
    let mut detail = String::from_str("invalid type for field ");
    detail.append(key);
    invalid_json_message(detail.as_str())
}

/// Decode one message's text into a request. Decoding fails — with an
/// error text that always opens with `Invalid JSON: ` and is reported,
/// never raised — exactly when the text is no JSON document, a field holds
/// a value of the wrong kind, the action tag is absent, unknown or no
/// string, or a field a `send` requires is missing; otherwise the decoded
/// request carries exactly the named fields of the text.
pub fn decode_request(text: &str) -> (r: Result<Request, String>)
    ensures
        r matches Err(e) ==> e@.len() >= "Invalid JSON: "@.len() && e@.subrange(
            0,
            "Invalid JSON: "@.len() as int,
        ) == "Invalid JSON: "@,
        !spec_json_ok(text@) ==> r is Err,
        spec_json_ok(text@) && spec_any_field_invalid(text@) ==> r is Err,
        spec_json_ok(text@) && !spec_any_field_invalid(text@) ==> ({
            let action = spec_str_field_ok(text@, "action"@);
            &&& action is None ==> r is Err
            &&& (action matches Some(a) && a != "send"@ && a != "list-sessions"@) ==> r is Err
            &&& action == Some("list-sessions"@) ==> r == Ok::<Request, String>(
                Request::ListSessions,
            )
            &&& action == Some("send"@) ==> ({
                let file = spec_str_field_ok(text@, "file"@);
                let code = spec_str_field_ok(text@, "code"@);
                let question = spec_str_field_ok(text@, "question"@);
                let tmux_target = spec_str_field_ok(text@, "tmux_target"@);
                &&& (file is None || code is None || question is None
                    || tmux_target is None) ==> r is Err
                &&& (file is Some && code is Some && question is Some
                    && tmux_target is Some) ==> ({
                    &&& r matches Ok(Request::Send(sr))
                    &&& Some(sr.file@) == file
                    &&& Some(sr.code@) == code
                    &&& Some(sr.question@) == question
                    &&& Some(sr.tmux_target@) == tmux_target
                    &&& sr.start_line == spec_u64_field_ok(text@, "start_line"@)
                    &&& sr.end_line == spec_u64_field_ok(text@, "end_line"@)
                    &&& spec_opt_string_view(sr.side) == spec_str_field_ok(text@, "side"@)
                    &&& spec_opt_string_view(sr.debug_html) == spec_str_field_ok(
                        text@,
                        "debug_html"@,
                    )
                })
            })
        }),
{
    match parse_check(text) {
        Ok(()) => {},
        Err(e) => {
            let details = error_message(&e);
            return Err(invalid_json_message(details.as_str()));
        },
    }
    let action = match json_string_field(text, "action") {
        Some(Some(v)) => Some(v),
        Some(None) => {
            return Err(invalid_field_message("action"));
        },
        None => None,
    };
    let file = match json_string_field(text, "file") {
        Some(Some(v)) => Some(v),
        Some(None) => {
            return Err(invalid_field_message("file"));
        },
        None => None,
    };
    let start_line = match json_u64_field(text, "start_line") {
        Some(Some(v)) => Some(v),
        Some(None) => {
            return Err(invalid_field_message("start_line"));
        },
        None => None,
    };
    let end_line = match json_u64_field(text, "end_line") {
        Some(Some(v)) => Some(v),
        Some(None) => {
            return Err(invalid_field_message("end_line"));
        },
        None => None,
    };
    let side = match json_string_field(text, "side") {
        Some(Some(v)) => Some(v),
        Some(None) => {
            return Err(invalid_field_message("side"));
        },
        None => None,
    };
    let code = match json_string_field(text, "code") {
        Some(Some(v)) => Some(v),
        Some(None) => {
            return Err(invalid_field_message("code"));
        },
        None => None,
    };
    let question = match json_string_field(text, "question") {
        Some(Some(v)) => Some(v),
        Some(None) => {
            return Err(invalid_field_message("question"));
        },
        None => None,
    };
    let tmux_target = match json_string_field(text, "tmux_target") {
        Some(Some(v)) => Some(v),
        Some(None) => {
            return Err(invalid_field_message("tmux_target"));
        },
        None => None,
    };
    let debug_html = match json_string_field(text, "debug_html") {
        Some(Some(v)) => Some(v),
        Some(None) => {
            return Err(invalid_field_message("debug_html"));
        },
        None => None,
    };
    match request_from_fields(
        action,
        file,
        start_line,
        end_line,
        side,
        code,
        question,
        tmux_target,
        debug_html,
    ) {
        Ok(req) => Ok(req),
        Err(details) => Err(invalid_json_message(details.as_str())),
    }
}

} // verus!
