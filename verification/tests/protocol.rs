//! Decoding requests and encoding responses.

use pigeon::decode::{decode_request, invalid_json_message};
use pigeon::jsontext::{encode_list_sessions_response, encode_send_response};
use pigeon::msg::{request_from_fields, ListSessionsResponse, Request, SendResponse};

#[test]
fn test_deserialize_send_request() {
    let json = r#"{
        "action": "send",
        "file": "src/main.rs",
        "start_line": 10,
        "end_line": 20,
        "side": "new",
        "code": "fn main() {}",
        "question": "What does this do?",
        "tmux_target": "my-session"
    }"#;
    let req: Request = decode_request(json).unwrap();
    match req {
        Request::Send(sr) => {
            assert_eq!(sr.file, "src/main.rs");
            assert_eq!(sr.tmux_target, "my-session");
            assert_eq!(sr.question, "What does this do?");
        }
        _ => panic!("Expected Send variant"),
    }
}

#[test]
fn test_deserialize_list_sessions_request() {
    let json = r#"{"action": "list-sessions"}"#;
    let req: Request = decode_request(json).unwrap();
    assert!(matches!(req, Request::ListSessions));
}

#[test]
fn test_deserialize_send_with_optional_fields() {
    let json = r#"{
        "action": "send",
        "file": "lib.rs",
        "code": "let x = 1;",
        "question": "",
        "tmux_target": "dev"
    }"#;
    let req: Request = decode_request(json).unwrap();
    match req {
        Request::Send(sr) => {
            assert!(sr.start_line.is_none());
            assert!(sr.end_line.is_none());
            assert!(sr.side.is_none());
            assert!(sr.debug_html.is_none());
        }
        _ => panic!("Expected Send variant"),
    }
}

#[test]
fn test_deserialize_unknown_action_fails() {
    let json = r#"{"action": "unknown"}"#;
    let result: Result<Request, String> = decode_request(json);
    assert!(result.is_err());
}

#[test]
fn test_deserialize_missing_action_fails() {
    let result: Result<Request, String> = decode_request("{}");
    assert!(result.is_err());
}

#[test]
fn test_deserialize_not_json_fails_with_prefix() {
    let result: Result<Request, String> = decode_request("this is not json");
    let err = result.unwrap_err();
    assert!(err.starts_with("Invalid JSON: "));
}

#[test]
fn test_deserialize_wrong_typed_optional_field_fails() {
    let json = r#"{
        "action": "send",
        "file": "a.rs",
        "start_line": "5",
        "code": "c",
        "question": "q",
        "tmux_target": "t"
    }"#;
    let result = decode_request(json);
    assert_eq!(result.unwrap_err(), "Invalid JSON: invalid type for field start_line");
    let json = r#"{
        "action": "send",
        "file": "a.rs",
        "side": 7,
        "code": "c",
        "question": "q",
        "tmux_target": "t"
    }"#;
    assert!(decode_request(json).is_err());
}

#[test]
fn test_deserialize_wrong_typed_required_field_fails() {
    let json = r#"{
        "action": "send",
        "file": 12,
        "code": "c",
        "question": "q",
        "tmux_target": "t"
    }"#;
    assert_eq!(
        decode_request(json).unwrap_err(),
        "Invalid JSON: invalid type for field file"
    );
}

#[test]
fn test_deserialize_null_optional_field_is_absent() {
    let json = r#"{
        "action": "send",
        "file": "a.rs",
        "start_line": null,
        "side": null,
        "code": "c",
        "question": "q",
        "tmux_target": "t"
    }"#;
    let req = decode_request(json).unwrap();
    match req {
        Request::Send(sr) => {
            assert!(sr.start_line.is_none());
            assert!(sr.side.is_none());
        }
        _ => panic!("Expected Send variant"),
    }
}

#[test]
fn test_deserialize_missing_required_field_fails() {
    let json = r#"{"action": "send", "file": "a.rs", "question": "q", "tmux_target": "t"}"#;
    let result: Result<Request, String> = decode_request(json);
    assert_eq!(result.unwrap_err(), "Invalid JSON: missing field code");
}

#[test]
fn test_request_from_fields_strict_on_action() {
    let err = request_from_fields(
        Some("unknown".to_string()),
        Some("a.rs".to_string()),
        None,
        None,
        None,
        Some("c".to_string()),
        Some("q".to_string()),
        Some("t".to_string()),
        None,
    );
    assert_eq!(err.unwrap_err(), "unknown action");
    let err = request_from_fields(None, None, None, None, None, None, None, None, None);
    assert_eq!(err.unwrap_err(), "missing field action");
    let ok = request_from_fields(
        Some("list-sessions".to_string()),
        None,
        None,
        None,
        None,
        None,
        None,
        None,
        None,
    );
    assert!(matches!(ok.unwrap(), Request::ListSessions));
}

#[test]
fn test_invalid_json_message_prefix() {
    assert_eq!(invalid_json_message("details"), "Invalid JSON: details");
}

#[test]
fn test_serialize_send_response_ok() {
    let resp = SendResponse {
        ok: true,
        error: None,
    };
    let json = encode_send_response(&resp);
    assert_eq!(json, r#"{"ok":true}"#);
}

#[test]
fn test_serialize_send_response_error() {
    let resp = SendResponse {
        ok: false,
        error: Some("something went wrong".to_string()),
    };
    let json = encode_send_response(&resp);
    assert!(json.contains(r#""ok":false"#));
    assert!(json.contains(r#""error":"something went wrong""#));
}

#[test]
fn test_serialize_send_response_error_exact() {
    let resp = SendResponse {
        ok: false,
        error: Some("something went wrong".to_string()),
    };
    let json = encode_send_response(&resp);
    assert_eq!(json, r#"{"ok":false,"error":"something went wrong"}"#);
}

#[test]
fn test_serialize_send_response_escapes() {
    let resp = SendResponse {
        ok: false,
        error: Some("a\"b\\c\nd\te\u{1}f".to_string()),
    };
    let json = encode_send_response(&resp);
    assert_eq!(json, "{\"ok\":false,\"error\":\"a\\\"b\\\\c\\nd\\te\\u0001f\"}");
}

#[test]
fn test_serialize_list_sessions_response_ok() {
    let resp = ListSessionsResponse {
        ok: true,
        sessions: Some(vec!["pigeon".to_string(), "dev".to_string()]),
        error: None,
    };
    let json = encode_list_sessions_response(&resp);
    assert!(json.contains(r#""ok":true"#));
    assert!(json.contains(r#""sessions":["pigeon","dev"]"#));
}

#[test]
fn test_serialize_list_sessions_response_error() {
    let resp = ListSessionsResponse {
        ok: false,
        sessions: None,
        error: Some("tmux not found".to_string()),
    };
    let json = encode_list_sessions_response(&resp);
    assert!(json.contains(r#""ok":false"#));
    assert!(json.contains(r#""error":"tmux not found""#));
    assert!(!json.contains("sessions"));
}

#[test]
fn test_serialize_list_sessions_empty() {
    let resp = ListSessionsResponse {
        ok: true,
        sessions: Some(Vec::new()),
        error: None,
    };
    let json = encode_list_sessions_response(&resp);
    assert_eq!(json, r#"{"ok":true,"sessions":[]}"#);
}
