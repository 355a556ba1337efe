use azvault::allowlist::{host_is_allowed, is_allowed_azure_url, vault_host_is_allowed};

#[test]
fn allows_azure_public_management_url() {
    assert!(is_allowed_azure_url("https://management.azure.com/subscriptions"));
}

#[test]
fn allows_vault_data_plane_url() {
    assert!(is_allowed_azure_url("https://my-vault.vault.azure.net/secrets/test"));
}

#[test]
fn allows_us_gov_vault_url() {
    assert!(is_allowed_azure_url("https://my-vault.vault.usgovcloudapi.net/keys"));
}

#[test]
fn allows_china_vault_url() {
    assert!(is_allowed_azure_url("https://my-vault.vault.azure.cn/certificates"));
}

#[test]
fn rejects_non_azure_url() {
    assert!(!is_allowed_azure_url("https://evil.example.com/data"));
}

#[test]
fn rejects_http_url() {
    assert!(!is_allowed_azure_url("http://management.azure.com/subscriptions"));
}

#[test]
fn rejects_invalid_url() {
    assert!(!is_allowed_azure_url("not a url"));
}

#[test]
fn rejects_empty_url() {
    assert!(!is_allowed_azure_url(""));
}

#[test]
fn rejects_url_with_azure_in_subdomain_but_wrong_host() {
    // Prevent subdomain spoofing
    assert!(!is_allowed_azure_url("https://vault.azure.net.evil.com/secrets"));
}

// ── Host matching is on whole-host suffixes ──

#[test]
fn host_check_accepts_each_cloud_suffix() {
    assert!(host_is_allowed("management.azure.com"));
    assert!(host_is_allowed("a.vault.azure.net"));
    assert!(host_is_allowed("a.vault.usgovcloudapi.net"));
    assert!(host_is_allowed("a.vault.azure.cn"));
}

#[test]
fn host_check_rejects_lookalike_suffix_as_prefix() {
    assert!(!host_is_allowed("vault.azure.net.attacker.test"));
    assert!(!vault_host_is_allowed("my.vault.azure.net.attacker.test"));
}

#[test]
fn host_check_rejects_bare_suffix_without_subdomain() {
    // The suffix match requires a leading label: ".vault.azure.net".
    assert!(!host_is_allowed("vault.azure.net"));
}

#[test]
fn host_check_rejects_management_subdomain() {
    // The management host must match exactly.
    assert!(!host_is_allowed("evil.management.azure.com"));
}
