//! The protocol's data model: the tagged request union and the two response
//! shapes, together with the strict construction of a request from decoded
//! fields and the mapping of handler outcomes onto responses.

use vstd::prelude::*;
use vstd::string::*;

verus! {

/// Payload of a `send` request.
#[derive(Debug)]
pub struct SendRequest {
    pub file: String,
    pub start_line: Option<u64>,
    pub end_line: Option<u64>,
    /// `old` asks for the deleted-lines marker; anything else, or absence,
    /// means current lines.
    pub side: Option<String>,
    pub code: String,
    pub question: String,
    pub tmux_target: String,
    pub debug_html: Option<String>,
}

/// A decoded request: deliver a message, or enumerate sessions.
#[derive(Debug)]
pub enum Request {
    Send(SendRequest),
    ListSessions,
}

/// Outcome of a `send` request; `error` is present exactly when `ok` is false.
#[derive(Debug)]
pub struct SendResponse {
    pub ok: bool,
    pub error: Option<String>,
}

impl SendResponse {
    /// Exactly one of success and error text.
    pub open spec fn wf(&self) -> bool {
        self.error is Some <==> !self.ok
    }
}

/// Outcome of a `list-sessions` request; exactly one of `sessions` and
/// `error` is present, matching `ok`.
#[derive(Debug)]
pub struct ListSessionsResponse {
    pub ok: bool,
    pub sessions: Option<Vec<String>>,
    pub error: Option<String>,
}

impl ListSessionsResponse {
    /// Exactly one of the session list and the error text.
    pub open spec fn wf(&self) -> bool {
        &&& (self.sessions is Some <==> self.ok)
        &&& (self.error is Some <==> !self.ok)
    }
}

/// The view of an optional owned string.
pub open spec fn spec_opt_string_view(o: Option<String>) -> Option<Seq<char>> {
    match o {
        Some(s) => Some(s@),
        None => None,
    }
}

/// Whether every field that a `send` request requires was present.
pub open spec fn spec_send_fields_present(
    file: Option<String>,
    code: Option<String>,
    question: Option<String>,
    tmux_target: Option<String>,
) -> bool {
    file is Some && code is Some && question is Some && tmux_target is Some
}

/// Build a request from the fields extracted out of one decoded message.
/// Decoding is strict on the action tag and on the fields a `send` requires,
/// and permissive on the optional ones; an unknown or absent tag never
/// yields a request.
pub fn request_from_fields(
    action: Option<String>,
    file: Option<String>,
    start_line: Option<u64>,
    end_line: Option<u64>,
    side: Option<String>,
    code: Option<String>,
    question: Option<String>,
    tmux_target: Option<String>,
    debug_html: Option<String>,
) -> (r: Result<Request, String>)
    ensures
        action is None ==> (r matches Err(e) && e@ == "missing field action"@),
        (action matches Some(a) && a@ != "send"@ && a@ != "list-sessions"@) ==> (r matches Err(e)
            && e@ == "unknown action"@),
        (action matches Some(a) && a@ == "list-sessions"@) ==> r == Ok::<Request, String>(
            Request::ListSessions,
        ),
        (action matches Some(a) && a@ == "send"@ && spec_send_fields_present(
            file,
            code,
            question,
            tmux_target,
        )) ==> ({
            &&& r matches Ok(Request::Send(sr))
            &&& file matches Some(f) && sr.file == f
            &&& code matches Some(c) && sr.code == c
            &&& question matches Some(q) && sr.question == q
            &&& tmux_target matches Some(t) && sr.tmux_target == t
            &&& sr.start_line == start_line
            &&& sr.end_line == end_line
            &&& sr.side == side
            &&& sr.debug_html == debug_html
        }),
        (action matches Some(a) && a@ == "send"@ && file is None) ==> (r matches Err(e) && e@
            == "missing field file"@),
        (action matches Some(a) && a@ == "send"@ && file is Some && code is None) ==> (r matches
            Err(e) && e@ == "missing field code"@),
        (action matches Some(a) && a@ == "send"@ && file is Some && code is Some
            && question is None) ==> (r matches Err(e) && e@ == "missing field question"@),
        (action matches Some(a) && a@ == "send"@ && file is Some && code is Some && question is Some
            && tmux_target is None) ==> (r matches Err(e) && e@ == "missing field tmux_target"@),
{
    let a = match action {
        Some(a) => a,
        None => {
            return Err(String::from_str("missing field action"));
        },
    };
    proof {
        reveal_strlit("send");
        reveal_strlit("list-sessions");
        assert("send"@.len() != "list-sessions"@.len());
    }
    let send_word = String::from_str("send");
    let list_word = String::from_str("list-sessions");
    if a == list_word {
        Ok(Request::ListSessions)
    } else if a == send_word {
        let f = match file {
            Some(f) => f,
            None => {
                return Err(String::from_str("missing field file"));
            },
        };
        let c = match code {
            Some(c) => c,
            None => {
                return Err(String::from_str("missing field code"));
            },
        };
        let q = match question {
            Some(q) => q,
            None => {
                return Err(String::from_str("missing field question"));
            },
        };
        let t = match tmux_target {
            Some(t) => t,
            None => {
                return Err(String::from_str("missing field tmux_target"));
            },
        };
        Ok(
            Request::Send(
                SendRequest {
                    file: f,
                    start_line,
                    end_line,
                    side,
                    code: c,
                    question: q,
                    tmux_target: t,
                    debug_html,
                },
            ),
        )
    } else {
        Err(String::from_str("unknown action"))
    }
}

/// Wrap the outcome of delivering a message as the response sent back: plain
/// success, or the failure text.
pub fn send_response_for(outcome: Result<(), String>) -> (resp: SendResponse)
    ensures
        resp.wf(),
        outcome is Ok ==> resp.ok && resp.error is None,
        outcome matches Err(e) ==> !resp.ok && resp.error == Some(e),
{
    match outcome {
        Ok(()) => SendResponse { ok: true, error: None },
        Err(e) => SendResponse { ok: false, error: Some(e) },
    }
}

/// Wrap the outcome of enumerating sessions as the response sent back: the
/// ordered session names, or the failure text.
pub fn list_sessions_response_for(outcome: Result<Vec<String>, String>) -> (resp:
    ListSessionsResponse)
    ensures
        resp.wf(),
        outcome matches Ok(sessions) ==> resp.ok && resp.sessions == Some(sessions)
            && resp.error is None,
        outcome matches Err(e) ==> !resp.ok && resp.sessions is None && resp.error == Some(e),
{
    match outcome {
        Ok(sessions) => ListSessionsResponse { ok: true, sessions: Some(sessions), error: None },
        Err(e) => ListSessionsResponse { ok: false, sessions: None, error: Some(e) },
    }
}

} // verus!
