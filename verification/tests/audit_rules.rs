use azvault::audit::{audit_export_value, sanitize_details, MAX_DETAIL_LEN};
use azvault::json::json_text;
use azvault::models::AuditEntry;

#[test]
fn redacts_sensitive_details_token() {
    assert_eq!(sanitize_details("token=abcdef12345"), "[REDACTED]");
}

#[test]
fn redacts_sensitive_details_password() {
    assert_eq!(sanitize_details("password=hunter2"), "[REDACTED]");
}

#[test]
fn redacts_sensitive_details_connection_string() {
    assert_eq!(
        sanitize_details("Server=tcp:db.windows.net;Password=connection_string_value"),
        "[REDACTED]"
    );
}

#[test]
fn redacts_sensitive_details_bearer() {
    assert_eq!(sanitize_details("Authorization: Bearer eyJ..."), "[REDACTED]");
}

#[test]
fn redacts_sensitive_details_credential() {
    assert_eq!(sanitize_details("Found credential in key vault"), "[REDACTED]");
}

#[test]
fn passes_non_sensitive_details() {
    // Note: "secrets" contains "secret" which triggers redaction,
    // so we use a string without any sensitive keywords.
    let safe = "Listed 42 items from vault";
    assert_eq!(sanitize_details(safe), safe);
}

#[test]
fn truncates_long_non_sensitive_details() {
    let input = "x".repeat(1024);
    let output = sanitize_details(&input);
    assert_eq!(output.len(), MAX_DETAIL_LEN);
}

#[test]
fn sanitize_is_case_insensitive() {
    assert_eq!(sanitize_details("TOKEN=ABC"), "[REDACTED]");
    assert_eq!(sanitize_details("My Secret Value"), "[REDACTED]");
}

fn entry(action: &str, details: Option<&str>) -> AuditEntry {
    AuditEntry {
        timestamp: "2024-06-15T10:00:00Z".to_string(),
        vault_name: "my-vault".to_string(),
        action: action.to_string(),
        item_type: "secret".to_string(),
        item_name: "db-conn".to_string(),
        result: "success".to_string(),
        details: details.map(|d| d.to_string()),
    }
}

#[test]
fn export_redacts_secret_actions() {
    let entries = vec![entry("get_secret_value", Some("actual value here"))];
    let export = json_text(&audit_export_value(&entries));
    assert!(export.contains("[REDACTED]"));
    assert!(!export.contains("actual value here"));
}

#[test]
fn export_keeps_plain_actions_and_camel_case_keys() {
    let entries = vec![entry("list_keyvaults", Some("found 2 vaults"))];
    let export = json_text(&audit_export_value(&entries));
    assert!(export.contains("\"vaultName\":\"my-vault\""));
    assert!(export.contains("\"itemType\":\"secret\""));
    assert!(export.contains("found 2 vaults"));
}

#[test]
fn export_is_valid_json() {
    let entries = vec![entry("sign_out", None), entry("get_secret_value", Some("v"))];
    let export = json_text(&audit_export_value(&entries));
    let parsed: serde_json::Value = serde_json::from_str(&export).expect("export parses");
    let arr = parsed.as_array().expect("array");
    assert_eq!(arr.len(), 2);
    assert!(arr[0]["details"].is_null());
    assert_eq!(arr[1]["details"].as_str(), Some("[REDACTED]"));
}

#[test]
fn newest_entries_keeps_tail_in_order() {
    let entries: Vec<AuditEntry> =
        (0..5).map(|i| entry(&format!("action-{}", i), None)).collect();
    let tail = azvault::audit::newest_entries(&entries, 2);
    assert_eq!(tail.len(), 2);
    assert_eq!(tail[0].action, "action-3");
    assert_eq!(tail[1].action, "action-4");
    let all = azvault::audit::newest_entries(&entries, 100);
    assert_eq!(all.len(), 5);
}
