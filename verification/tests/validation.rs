use azvault::validate::{
    extract_vault_name, result_status, truncate_for_audit, validate_item_name,
    validate_secret_value, validate_vault_uri, MAX_AUDIT_FIELD_LEN,
};

// ── Vault URI validation ──

#[test]
fn accepts_valid_azure_public_vault_uri() {
    assert!(validate_vault_uri("https://demo.vault.azure.net").is_ok());
}

#[test]
fn accepts_valid_us_gov_vault_uri() {
    assert!(validate_vault_uri("https://demo.vault.usgovcloudapi.net").is_ok());
}

#[test]
fn accepts_valid_china_vault_uri() {
    assert!(validate_vault_uri("https://demo.vault.azure.cn").is_ok());
}

#[test]
fn rejects_http_vault_uri() {
    assert!(validate_vault_uri("http://demo.vault.azure.net").is_err());
}

#[test]
fn rejects_non_azure_vault_uri() {
    assert!(validate_vault_uri("https://evil.example.com").is_err());
}

#[test]
fn rejects_empty_vault_uri() {
    assert!(validate_vault_uri("").is_err());
}

#[test]
fn rejects_vault_uri_without_host() {
    assert!(validate_vault_uri("https://").is_err());
}

// ── Item name validation ──

#[test]
fn accepts_valid_item_name() {
    assert!(validate_item_name("valid-name-01").is_ok());
}

#[test]
fn accepts_single_char_name() {
    assert!(validate_item_name("a").is_ok());
}

#[test]
fn rejects_empty_item_name() {
    assert!(validate_item_name("").is_err());
}

#[test]
fn rejects_item_name_with_underscores() {
    assert!(validate_item_name("bad_name").is_err());
}

#[test]
fn rejects_item_name_with_spaces() {
    assert!(validate_item_name("bad name").is_err());
}

#[test]
fn rejects_item_name_with_dots() {
    assert!(validate_item_name("bad.name").is_err());
}

#[test]
fn rejects_overly_long_item_name() {
    let long_name = "a".repeat(128);
    assert!(validate_item_name(&long_name).is_err());
}

#[test]
fn accepts_max_length_item_name() {
    let name = "a".repeat(127);
    assert!(validate_item_name(&name).is_ok());
}

// ── Audit truncation ──

#[test]
fn truncates_long_audit_field() {
    let long = "a".repeat(2048);
    let truncated = truncate_for_audit(long);
    assert_eq!(truncated.len(), MAX_AUDIT_FIELD_LEN);
}

#[test]
fn preserves_short_audit_field() {
    let short = "hello".to_string();
    assert_eq!(truncate_for_audit(short.clone()), short);
}

// ── Vault name extraction ──

#[test]
fn extracts_vault_name_from_uri() {
    assert_eq!(extract_vault_name("https://my-vault.vault.azure.net"), "my-vault");
}

#[test]
fn extracts_vault_name_from_govcloud_uri() {
    assert_eq!(extract_vault_name("https://gov-vault.vault.usgovcloudapi.net"), "gov-vault");
}

#[test]
fn extracts_vault_name_handles_trailing_slash() {
    assert_eq!(extract_vault_name("https://my-vault.vault.azure.net/"), "my-vault");
}

// ── Result status helper ──

#[test]
fn result_status_success() {
    let ok: Result<(), String> = Ok(());
    assert_eq!(result_status(&ok), "success");
}

#[test]
fn result_status_error() {
    let err: Result<(), String> = Err("fail".to_string());
    assert_eq!(result_status(&err), "error");
}

// ── Secret value bounds ──

#[test]
fn accepts_reasonable_secret_value() {
    assert!(validate_secret_value("hunter2").is_ok());
}

#[test]
fn rejects_empty_secret_value() {
    assert!(validate_secret_value("").is_err());
}

#[test]
fn rejects_oversized_secret_value() {
    let huge = "v".repeat(25_001);
    assert!(validate_secret_value(&huge).is_err());
}

#[test]
fn accepts_max_length_secret_value() {
    let big = "v".repeat(25_000);
    assert!(validate_secret_value(&big).is_ok());
}

#[test]
fn item_name_error_mentions_length() {
    let err = validate_item_name("").unwrap_err();
    assert!(err.contains("between 1 and 127"));
}

#[test]
fn item_name_error_mentions_charset() {
    let err = validate_item_name("bad_name").unwrap_err();
    assert!(err.contains("letters, numbers, and hyphens"));
}
