//! Data models the command layer returns to its callers. Timestamps
//! travel as RFC 3339 strings; tags as key/value pairs in document
//! order.

use vstd::prelude::*;

verus! {

/// The authentication state reported to the UI.
#[derive(Debug, Clone)]
pub struct AuthState {
    pub signed_in: bool,
    pub user_name: Option<String>,
    pub tenant_id: Option<String>,
}

/// An Azure AD tenant descriptor.
#[derive(Debug, Clone)]
pub struct Tenant {
    pub id: String,
    pub tenant_id: String,
    pub display_name: Option<String>,
}

/// An Azure subscription descriptor.
#[derive(Debug, Clone)]
pub struct Subscription {
    pub subscription_id: String,
    pub display_name: String,
    pub state: String,
    pub tenant_id: String,
}

/// Key Vault resource metadata from the management plane.
#[derive(Debug, Clone)]
pub struct KeyVaultInfo {
    pub id: String,
    pub name: String,
    pub location: String,
    pub resource_group: String,
    pub vault_uri: String,
    pub tags: Option<Vec<(String, String)>>,
    pub soft_delete_enabled: Option<bool>,
}

/// Secret metadata (never the value itself).
#[derive(Debug, Clone)]
pub struct SecretItem {
    pub id: String,
    pub name: String,
    pub enabled: bool,
    pub created: Option<String>,
    pub updated: Option<String>,
    pub expires: Option<String>,
    pub not_before: Option<String>,
    pub content_type: Option<String>,
    pub tags: Option<Vec<(String, String)>>,
    pub managed: Option<bool>,
}

/// A secret value fetched on demand from the data plane.
#[derive(Debug, Clone)]
pub struct SecretValue {
    pub value: String,
    pub id: String,
    pub name: String,
}

/// Cryptographic key metadata.
#[derive(Debug, Clone)]
pub struct KeyItem {
    pub id: String,
    pub name: String,
    pub enabled: bool,
    pub created: Option<String>,
    pub updated: Option<String>,
    pub expires: Option<String>,
    pub not_before: Option<String>,
    pub key_type: Option<String>,
    pub key_ops: Option<Vec<String>>,
    pub tags: Option<Vec<(String, String)>>,
    pub managed: Option<bool>,
}

/// X.509 certificate metadata.
#[derive(Debug, Clone)]
pub struct CertificateItem {
    pub id: String,
    pub name: String,
    pub enabled: bool,
    pub created: Option<String>,
    pub updated: Option<String>,
    pub expires: Option<String>,
    pub not_before: Option<String>,
    pub subject: Option<String>,
    pub thumbprint: Option<String>,
    pub tags: Option<Vec<(String, String)>>,
}

/// The payload for creating or versioning a secret.
#[derive(Debug, Clone)]
pub struct CreateSecretRequest {
    pub name: String,
    pub value: String,
    pub content_type: Option<String>,
    pub tags: Option<Vec<(String, String)>>,
    pub enabled: Option<bool>,
    pub expires: Option<String>,
    pub not_before: Option<String>,
}

/// One audit log entry.
#[derive(Debug, Clone)]
pub struct AuditEntry {
    pub timestamp: String,
    pub vault_name: String,
    pub action: String,
    pub item_type: String,
    pub item_name: String,
    pub result: String,
    pub details: Option<String>,
}

} // verus!
