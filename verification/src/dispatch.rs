//! The session dispatcher's decisions: where the multiplexer binary is
//! looked for, the exact argument vectors it is invoked with, how its
//! session listing is read, and how a request becomes a delivery plan. The
//! subprocess launch itself is outside work that the surrounding program
//! performs with these values.

use vstd::prelude::*;
use vstd::string::*;
use crate::format::{format_message, spec_format_message, spec_opt_view};
use crate::lines::{spec_split_lines, split_lines};
use crate::msg::SendRequest;
use crate::target::{resolve_target, spec_config_target, spec_resolve_target};

verus! {

/// Relies on std::path::Path::exists: whether anything exists on disk at
/// the path; the answer depends on the machine's state.
#[verifier::external_body]
fn path_exists(path: &str) -> bool {
    std::path::Path::new(path).exists()
}

/// Pick the multiplexer binary from the probe results, in the fixed order
/// of the well-known installation locations: the first that exists wins,
/// and with none the bare command name is the last resort.
pub fn choose_tmux_path(homebrew: bool, local: bool, system: bool) -> (t: &'static str)
    ensures
        homebrew ==> t@ == "/opt/homebrew/bin/tmux"@,
        !homebrew && local ==> t@ == "/usr/local/bin/tmux"@,
        !homebrew && !local && system ==> t@ == "/usr/bin/tmux"@,
        !homebrew && !local && !system ==> t@ == "tmux"@,
{
    if homebrew {
        "/opt/homebrew/bin/tmux"
    } else if local {
        "/usr/local/bin/tmux"
    } else if system {
        "/usr/bin/tmux"
    } else {
        "tmux"
    }
}

/// Locate the multiplexer binary: the hosting environment may supply a
/// minimal search path, so well-known installation locations are probed on
/// disk and the choice among them is made by [`choose_tmux_path`].
pub fn find_tmux() -> (t: String)
    ensures
        t@ == "/opt/homebrew/bin/tmux"@ || t@ == "/usr/local/bin/tmux"@ || t@ == "/usr/bin/tmux"@
            || t@ == "tmux"@,
{
    let homebrew = path_exists("/opt/homebrew/bin/tmux");
    let local = path_exists("/usr/local/bin/tmux");
    let system = path_exists("/usr/bin/tmux");
    String::from_str(choose_tmux_path(homebrew, local, system))
}

/// The argument vector that types the message into the target session as
/// literal keystrokes.
pub fn send_keys_args(target: &str, message: &str) -> (args: Vec<String>)
    ensures
        args.deep_view() =~= seq!["send-keys"@, "-t"@, target@, message@],
{
    let mut args: Vec<String> = Vec::new();
    args.push(String::from_str("send-keys"));
    args.push(String::from_str("-t"));
    args.push(String::from_str(target));
    args.push(String::from_str(message));
    args
}

/// The argument vector that presses Enter in the target session.
pub fn enter_keys_args(target: &str) -> (args: Vec<String>)
    ensures
        args.deep_view() =~= seq!["send-keys"@, "-t"@, target@, "Enter"@],
{
    let mut args: Vec<String> = Vec::new();
    args.push(String::from_str("send-keys"));
    args.push(String::from_str("-t"));
    args.push(String::from_str(target));
    args.push(String::from_str("Enter"));
    args
}

/// The argument vector that lists the session names, one per line.
pub fn list_sessions_args() -> (args: Vec<String>)
    ensures
        args.deep_view() =~= seq!["list-sessions"@, "-F"@, "#{session_name}"@],
{
    let mut args: Vec<String> = Vec::new();
    args.push(String::from_str("list-sessions"));
    args.push(String::from_str("-F"));
    args.push(String::from_str("#{session_name}"));
    args
}

/// The error reported when the multiplexer could not even be launched.
pub fn run_failure_message(cause: &str) -> (msg: String)
    ensures
        msg@ == "Failed to run tmux: "@ + cause@,
{
    let mut msg = String::from_str("Failed to run tmux: ");
    msg.append(cause);
    msg
}

/// Read the outcome of the session-listing invocation: on success the
/// captured standard output split into session names in order, on a
/// non-zero exit an error carrying the captured standard error.
pub fn sessions_from_output(success: bool, stdout: &str, stderr: &str) -> (r: Result<
    Vec<String>,
    String,
>)
    ensures
        success ==> (r matches Ok(v) && v.deep_view() == spec_split_lines(stdout@)),
        !success ==> (r matches Err(e) && e@ == "tmux list-sessions failed: "@ + stderr@),
{
    if success {
        Ok(split_lines(stdout))
    } else {
        let mut msg = String::from_str("tmux list-sessions failed: ");
        msg.append(stderr);
        Err(msg)
    }
}

/// The outcome of one delivery, decided from the two launch results: it
/// succeeds exactly when both invocations of the multiplexer could be
/// launched, and fails with the first launch failure; exit statuses play
/// no part.
pub fn send_outcome(first: Result<(), String>, second: Result<(), String>) -> (r: Result<
    (),
    String,
>)
    ensures
        r is Ok <==> first is Ok && second is Ok,
        first matches Err(e) ==> r == Err::<(), String>(e),
        first is Ok ==> r == second,
{
    match first {
        Err(e) => Err(e),
        Ok(()) => second,
    }
}

/// Everything decided about one `send` request: the chat message to type
/// and the session to type it into.
pub struct SendPlan {
    pub message: String,
    pub target: String,
}

/// Decide a `send` request: format its chat message and resolve its
/// destination session from the configuration text, the request's target,
/// and the fallback.
pub fn plan_send(req: &SendRequest, config_text: Option<&str>) -> (p: SendPlan)
    ensures
        p.message@ == spec_format_message(
            req.file@,
            req.start_line,
            req.end_line,
            match req.side {
                Some(s) => Some(s@),
                None => None,
            },
            req.code@,
            req.question@,
        ),
        p.target@ == spec_resolve_target(
            match config_text {
                Some(s) => spec_config_target(s@),
                None => None,
            },
            req.tmux_target@,
        ),
{
    let side = match &req.side {
        Some(s) => Some(s.as_str()),
        None => None,
    };
    assert(spec_opt_view(side) == (match req.side {
        Some(s) => Some(s@),
        None => None::<Seq<char>>,
    }));
    let message = format_message(
        req.file.as_str(),
        req.start_line,
        req.end_line,
        side,
        req.code.as_str(),
        req.question.as_str(),
    );
    let target = resolve_target(config_text, req.tmux_target.as_str());
    SendPlan { message, target }
}

} // verus!
