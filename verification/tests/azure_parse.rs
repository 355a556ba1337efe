use azvault::azure::{
    epoch_to_rfc3339, extract_name_from_id, extract_resource_group, parse_certificate_item,
    parse_first_secret, parse_key_item, parse_secret_item, parse_secret_value, parse_soft_delete,
    parse_subscription, parse_tenant, secret_url, secrets_list_url, vault_properties_url,
    vault_resources_url, vault_uri_of,
};
use azvault::json::JsonValue;
use azvault::retry::parse_error;

fn obj(fields: Vec<(&str, JsonValue)>) -> JsonValue {
    JsonValue::Obj(fields.into_iter().map(|(k, v)| (k.to_string(), v)).collect())
}

fn s(text: &str) -> JsonValue {
    JsonValue::Str(text.to_string())
}

#[test]
fn extracts_name_from_secret_id() {
    let name =
        extract_name_from_id("https://demo.vault.azure.net/secrets/my-secret/version-1", "secrets");
    assert_eq!(name, "my-secret");
}

#[test]
fn extracts_name_from_key_id() {
    let name = extract_name_from_id("https://demo.vault.azure.net/keys/rsa-key/v2", "keys");
    assert_eq!(name, "rsa-key");
}

#[test]
fn extracts_name_from_certificate_id() {
    let name = extract_name_from_id(
        "https://demo.vault.azure.net/certificates/tls-cert/v1",
        "certificates",
    );
    assert_eq!(name, "tls-cert");
}

#[test]
fn extract_name_falls_back_to_last_segment() {
    let name = extract_name_from_id("https://demo.vault.azure.net/unknown-path", "secrets");
    assert_eq!(name, "unknown-path");
}

#[test]
fn extract_name_handles_empty_string() {
    let name = extract_name_from_id("", "secrets");
    assert_eq!(name, "");
}

#[test]
fn epoch_to_rfc3339_converts_known_timestamp() {
    // 2024-01-01T00:00:00Z = 1704067200
    let result = epoch_to_rfc3339(Some(1704067200));
    assert!(result.is_some());
    assert!(result.unwrap().starts_with("2024-01-01"));
}

#[test]
fn epoch_to_rfc3339_handles_none() {
    assert!(epoch_to_rfc3339(None).is_none());
}

#[test]
fn epoch_to_rfc3339_handles_zero() {
    let result = epoch_to_rfc3339(Some(0));
    assert!(result.is_some());
    assert!(result.unwrap().contains("1970"));
}

#[test]
fn parses_error_with_hint_403() {
    let body = obj(vec![("error", obj(vec![("code", s("Forbidden")), (
        "message",
        s("No access to vault"),
    )]))]);
    let result = parse_error(&body, 403);
    assert!(result.contains("Hint"));
    assert!(result.contains("permission"));
}

#[test]
fn parses_error_with_hint_401() {
    let body = obj(vec![("error", obj(vec![("code", s("Unauthorized")), (
        "message",
        s("Token expired"),
    )]))]);
    let result = parse_error(&body, 401);
    assert!(result.contains("expired"));
}

#[test]
fn parses_error_without_hint_for_500() {
    let body = obj(vec![("error", obj(vec![("code", s("InternalServerError")), (
        "message",
        s("Something went wrong"),
    )]))]);
    let result = parse_error(&body, 500);
    assert!(result.contains("InternalServerError"));
    assert!(!result.contains("Hint"));
}

#[test]
fn parses_error_with_fallback_description() {
    let body = obj(vec![("error_description", s("OAuth token invalid"))]);
    let result = parse_error(&body, 401);
    assert!(result.contains("OAuth token invalid"));
}

#[test]
fn parses_error_exact_rendering() {
    let body = obj(vec![("error", obj(vec![("code", s("NotFound")), (
        "message",
        s("gone"),
    )]))]);
    let result = parse_error(&body, 404);
    assert_eq!(
        result,
        "[404] NotFound: gone | Hint: The resource was not found. It may have been deleted."
    );
}

#[test]
fn parse_secret_item_from_kv_response() {
    let kv_json = obj(vec![
        ("id", s("https://myvault.vault.azure.net/secrets/db-conn/abc123")),
        (
            "attributes",
            obj(vec![
                ("enabled", JsonValue::Bool(true)),
                ("created", JsonValue::Int(1704067200)),
                ("updated", JsonValue::Int(1704153600)),
                ("exp", JsonValue::Int(1735689600)),
            ]),
        ),
        ("contentType", s("text/plain")),
        ("tags", obj(vec![("env", s("prod"))])),
        ("managed", JsonValue::Bool(false)),
    ]);

    let item = parse_secret_item(&kv_json);
    assert_eq!(item.name, "db-conn");
    assert!(item.enabled);
    assert!(item.created.is_some());
    assert_eq!(item.content_type.as_deref(), Some("text/plain"));
    let tags = item.tags.unwrap();
    assert_eq!(tags.iter().find(|p| p.0 == "env").unwrap().1, "prod");
}

#[test]
fn parse_secret_item_handles_minimal_response() {
    let kv_json = obj(vec![
        ("id", s("https://myvault.vault.azure.net/secrets/minimal")),
        ("attributes", obj(vec![])),
    ]);

    let item = parse_secret_item(&kv_json);
    assert_eq!(item.name, "minimal");
    assert!(item.enabled); // defaults to true
    assert!(item.created.is_none());
    assert!(item.content_type.is_none());
    assert!(item.tags.is_none());
}

#[test]
fn parse_key_item_reads_type_and_ops() {
    let body = obj(vec![
        ("kid", s("https://demo.vault.azure.net/keys/rsa-key/v2")),
        ("kty", s("RSA")),
        ("key_ops", JsonValue::Arr(vec![s("sign"), s("verify")])),
        ("attributes", obj(vec![("enabled", JsonValue::Bool(false))])),
    ]);
    let item = parse_key_item(&body);
    assert_eq!(item.name, "rsa-key");
    assert_eq!(item.key_type.as_deref(), Some("RSA"));
    assert_eq!(item.key_ops.unwrap(), vec!["sign".to_string(), "verify".to_string()]);
    assert!(!item.enabled);
}

#[test]
fn parse_certificate_item_reads_subject_and_thumbprint() {
    let body = obj(vec![
        ("id", s("https://demo.vault.azure.net/certificates/tls-cert/v1")),
        ("x5t", s("THUMB")),
        ("policy", obj(vec![("x509_props", obj(vec![("subject", s("CN=demo"))]))])),
    ]);
    let item = parse_certificate_item(&body);
    assert_eq!(item.name, "tls-cert");
    assert_eq!(item.subject.as_deref(), Some("CN=demo"));
    assert_eq!(item.thumbprint.as_deref(), Some("THUMB"));
}

#[test]
fn parse_secret_value_keeps_requested_name() {
    let body = obj(vec![
        ("value", s("super-secret")),
        ("id", s("https://demo.vault.azure.net/secrets/db/1")),
    ]);
    let v = parse_secret_value(&body, "db");
    assert_eq!(v.value, "super-secret");
    assert_eq!(v.name, "db");
}

#[test]
fn parse_first_secret_takes_first_version() {
    let body = obj(vec![("value", JsonValue::Arr(vec![obj(vec![(
        "id",
        s("https://demo.vault.azure.net/secrets/db/1"),
    )])]))]);
    let item = parse_first_secret(&body, "db").unwrap();
    assert_eq!(item.name, "db");
}

#[test]
fn parse_first_secret_reports_missing_metadata() {
    let body = obj(vec![("value", JsonValue::Arr(vec![]))]);
    let err = parse_first_secret(&body, "db").unwrap_err();
    assert_eq!(err, "Secret metadata not found for 'db'");
}

#[test]
fn parse_tenant_falls_back_to_default_domain() {
    let body = obj(vec![
        ("id", s("/tenants/t1")),
        ("tenantId", s("t1")),
        ("defaultDomain", s("contoso.example")),
    ]);
    let t = parse_tenant(&body);
    assert_eq!(t.tenant_id, "t1");
    assert_eq!(t.display_name.as_deref(), Some("contoso.example"));
}

#[test]
fn parse_subscription_falls_back_to_home_tenant() {
    let body = obj(vec![
        ("subscriptionId", s("sub-1")),
        ("displayName", s("Prod")),
        ("state", s("Enabled")),
        ("homeTenantId", s("home-t")),
    ]);
    let sub = parse_subscription(&body);
    assert_eq!(sub.subscription_id, "sub-1");
    assert_eq!(sub.tenant_id, "home-t");
}

#[test]
fn parse_soft_delete_reads_nested_property() {
    let body = obj(vec![("properties", obj(vec![("enableSoftDelete", JsonValue::Bool(true))]))]);
    assert_eq!(parse_soft_delete(&body), Some(true));
    assert_eq!(parse_soft_delete(&obj(vec![])), None);
}

#[test]
fn resource_group_extracted_from_arm_id() {
    let id = "/subscriptions/sub-1/resourceGroups/my-rg/providers/Microsoft.KeyVault/vaults/v1";
    assert_eq!(extract_resource_group(id), "my-rg");
    assert_eq!(extract_resource_group("/subscriptions/sub-1"), "");
}

#[test]
fn request_urls_are_built_verbatim() {
    assert_eq!(
        secrets_list_url("https://v.vault.azure.net"),
        "https://v.vault.azure.net/secrets?api-version=7.5"
    );
    assert_eq!(
        secret_url("https://v.vault.azure.net", "db"),
        "https://v.vault.azure.net/secrets/db?api-version=7.5"
    );
    assert_eq!(vault_uri_of("demo"), "https://demo.vault.azure.net");
    assert_eq!(
        vault_resources_url("sub-1"),
        "https://management.azure.com/subscriptions/sub-1/resources?$filter=resourceType eq \
         'Microsoft.KeyVault/vaults'&api-version=2021-04-01"
    );
    assert_eq!(
        vault_properties_url("/subscriptions/s/vaults/v"),
        "https://management.azure.com/subscriptions/s/vaults/v?api-version=2023-07-01"
    );
}
