//! Target resolution, dispatch planning, session listing and framing.

use pigeon::dispatch::{
    choose_tmux_path, enter_keys_args, find_tmux, list_sessions_args, plan_send,
    run_failure_message, send_keys_args, send_outcome, sessions_from_output,
};
use pigeon::framing::{decode_frame_len, encode_frame, encode_frame_len};
use pigeon::jsontext::{encode_list_sessions_response, encode_send_response};
use pigeon::msg::{list_sessions_response_for, send_response_for, SendRequest};
use pigeon::target::{config_target_from_text, resolve_target};

#[test]
fn test_config_value_overrides_request_target() {
    let t = resolve_target(Some("tmux_target= work \n"), "from-request");
    assert_eq!(t, "work");
}

#[test]
fn test_request_target_used_without_config() {
    assert_eq!(resolve_target(None, "from-request"), "from-request");
    assert_eq!(resolve_target(Some("unrelated line\n"), "from-request"), "from-request");
}

#[test]
fn test_fallback_target_when_nothing_set() {
    assert_eq!(resolve_target(None, ""), "pigeon");
    assert_eq!(resolve_target(Some(""), ""), "pigeon");
}

#[test]
fn test_config_first_match_wins() {
    let text = "# comment\ntmux_target=\ntmux_target=first\ntmux_target=second\n";
    assert_eq!(config_target_from_text(text), Some("first".to_string()));
}

#[test]
fn test_config_empty_value_is_no_override() {
    assert_eq!(config_target_from_text("tmux_target=   \n"), None);
    assert_eq!(config_target_from_text(""), None);
}

#[test]
fn test_find_tmux_returns_candidate() {
    let t = find_tmux();
    assert!(
        t == "/opt/homebrew/bin/tmux"
            || t == "/usr/local/bin/tmux"
            || t == "/usr/bin/tmux"
            || t == "tmux"
    );
}

#[test]
fn test_choose_tmux_path_probe_order() {
    assert_eq!(choose_tmux_path(true, true, true), "/opt/homebrew/bin/tmux");
    assert_eq!(choose_tmux_path(false, true, true), "/usr/local/bin/tmux");
    assert_eq!(choose_tmux_path(false, false, true), "/usr/bin/tmux");
    assert_eq!(choose_tmux_path(false, false, false), "tmux");
}

#[test]
fn test_send_keys_argument_vectors() {
    let args = send_keys_args("sess", "hello world");
    assert_eq!(args, vec!["send-keys", "-t", "sess", "hello world"]);
    let enter = enter_keys_args("sess");
    assert_eq!(enter, vec!["send-keys", "-t", "sess", "Enter"]);
    let list = list_sessions_args();
    assert_eq!(list, vec!["list-sessions", "-F", "#{session_name}"]);
}

#[test]
fn test_send_outcome_needs_both_launches() {
    assert_eq!(send_outcome(Ok(()), Ok(())), Ok(()));
    assert_eq!(
        send_outcome(Err("Failed to run tmux: boom".to_string()), Ok(())),
        Err("Failed to run tmux: boom".to_string())
    );
    assert_eq!(
        send_outcome(Ok(()), Err("Failed to run tmux: boom".to_string())),
        Err("Failed to run tmux: boom".to_string())
    );
}

#[test]
fn test_sessions_from_output_success() {
    let r = sessions_from_output(true, "work\ndev\n", "");
    assert_eq!(r.unwrap(), vec!["work", "dev"]);
}

#[test]
fn test_sessions_from_output_failure() {
    let r = sessions_from_output(false, "", "no server running");
    assert_eq!(r.unwrap_err(), "tmux list-sessions failed: no server running");
}

#[test]
fn test_list_sessions_end_to_end_encoding() {
    let outcome = sessions_from_output(true, "work\ndev\n", "");
    let resp = list_sessions_response_for(outcome);
    let json = encode_list_sessions_response(&resp);
    assert_eq!(json, r#"{"ok":true,"sessions":["work","dev"]}"#);
}

#[test]
fn test_launch_failure_end_to_end_encoding() {
    let msg = run_failure_message("No such file or directory (os error 2)");
    let resp = send_response_for(Err(msg));
    let json = encode_send_response(&resp);
    assert_eq!(
        json,
        r#"{"ok":false,"error":"Failed to run tmux: No such file or directory (os error 2)"}"#
    );
}

#[test]
fn test_plan_send_formats_and_resolves() {
    let req = SendRequest {
        file: "a.rs".to_string(),
        start_line: Some(5),
        end_line: Some(9),
        side: None,
        code: "fn f(){}".to_string(),
        question: "why?".to_string(),
        tmux_target: "sess".to_string(),
        debug_html: None,
    };
    let plan = plan_send(&req, None);
    assert_eq!(plan.message, "a.rs:5-9\n```\nfn f(){}\n```\nwhy?");
    assert_eq!(plan.target, "sess");
    let plan2 = plan_send(&req, Some("tmux_target=cfg\n"));
    assert_eq!(plan2.target, "cfg");
}

#[test]
fn test_frame_length_round_trip() {
    let b = encode_frame_len(7);
    assert_eq!(b, vec![7u8, 0, 0, 0]);
    assert_eq!(decode_frame_len(&b), 7);
    let big = encode_frame_len(0x0102_0304);
    assert_eq!(big, vec![4u8, 3, 2, 1]);
    assert_eq!(decode_frame_len(&big), 0x0102_0304);
}

#[test]
fn test_encode_frame_prefixes_length() {
    let frame = encode_frame("hi");
    assert_eq!(frame, vec![2u8, 0, 0, 0, b'h', b'i']);
}
