use azvault::auth::{Audience, AuthManager, PersistedSession, TokenPlan};
use azvault::json::{json_text, JsonValue};
use azvault::session::{decode_session, encode_session};

fn session(tenant: &str, refresh: &str) -> PersistedSession {
    PersistedSession { tenant_id: tenant.to_string(), refresh_token: refresh.to_string() }
}

#[test]
fn session_encoding_round_trips() {
    let original = session("11111111-2222-3333-4444-555555555555", "0.AbcD-efGh_ij");
    let blob = encode_session(&original);
    let restored = decode_session(&blob).expect("stored session reads back");
    assert_eq!(restored.tenant_id, original.tenant_id);
    assert_eq!(restored.refresh_token, original.refresh_token);
}

#[test]
fn session_encoding_round_trips_with_awkward_characters() {
    let original = session("organizations", "quote\" slash\\ newline\n tab\t end");
    let blob = encode_session(&original);
    let restored = decode_session(&blob).expect("escaped session reads back");
    assert_eq!(restored.tenant_id, original.tenant_id);
    assert_eq!(restored.refresh_token, original.refresh_token);
}

#[test]
fn session_blob_is_plain_json() {
    let blob = encode_session(&session("tid", "rt"));
    assert_eq!(blob, "{\"tenant_id\":\"tid\",\"refresh_token\":\"rt\"}");
    let parsed: serde_json::Value = serde_json::from_str(&blob).expect("blob parses as JSON");
    assert_eq!(parsed["tenant_id"].as_str(), Some("tid"));
    assert_eq!(parsed["refresh_token"].as_str(), Some("rt"));
}

#[test]
fn garbage_blobs_are_rejected() {
    assert!(decode_session("").is_none());
    assert!(decode_session("not json").is_none());
    assert!(decode_session("{\"tenant_id\":\"tid\"}").is_none());
    assert!(decode_session("{\"tenant_id\":\"tid\",\"refresh_token\":\"rt\"} ").is_none());
}

#[test]
fn restored_session_enables_refresh_without_interactive_sign_in() {
    // Persist a session, then rebuild a fresh manager from storage:
    // the tenant preference is back and the first token request plans
    // a refresh-grant mint, not an interactive flow.
    let blob = encode_session(&session("44444444-aaaa-bbbb-cccc-dddddddddddd", "rt-55"));
    let restored = decode_session(&blob).expect("session reads back");
    let m = AuthManager::new(Some(restored));
    assert_eq!(m.get_tenant(), "44444444-aaaa-bbbb-cccc-dddddddddddd");
    match m.token_plan(Audience::Management, 12_345) {
        TokenPlan::TryRefresh(rt) => assert_eq!(rt, "rt-55"),
        _ => panic!("expected a refresh-based mint"),
    }
}

// ── The JSON writer the exports and the session blob rely on ──

#[test]
fn json_writer_agrees_with_a_standard_parser() {
    let value = JsonValue::Obj(vec![
        ("text".to_string(), JsonValue::Str("a\"b\\c\nd\te\r".to_string())),
        ("num".to_string(), JsonValue::Int(-42)),
        ("flag".to_string(), JsonValue::Bool(true)),
        ("nothing".to_string(), JsonValue::Null),
        (
            "list".to_string(),
            JsonValue::Arr(vec![JsonValue::Int(1), JsonValue::Str("two".to_string())]),
        ),
    ]);
    let text = json_text(&value);
    let parsed: serde_json::Value = serde_json::from_str(&text).expect("writer output parses");
    assert_eq!(parsed["text"].as_str(), Some("a\"b\\c\nd\te\r"));
    assert_eq!(parsed["num"].as_i64(), Some(-42));
    assert_eq!(parsed["flag"].as_bool(), Some(true));
    assert!(parsed["nothing"].is_null());
    assert_eq!(parsed["list"][1].as_str(), Some("two"));
}

#[test]
fn json_writer_renders_scalars_exactly() {
    assert_eq!(json_text(&JsonValue::Null), "null");
    assert_eq!(json_text(&JsonValue::Bool(false)), "false");
    assert_eq!(json_text(&JsonValue::Int(0)), "0");
    assert_eq!(json_text(&JsonValue::Int(-9223372036854775808)), "-9223372036854775808");
    assert_eq!(json_text(&JsonValue::Str("x".to_string())), "\"x\"");
    assert_eq!(json_text(&JsonValue::Arr(vec![])), "[]");
    assert_eq!(json_text(&JsonValue::Obj(vec![])), "{}");
}
