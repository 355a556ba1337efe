use azvault::auth::{
    classify_poll, parse_cli_token, parse_device_code_response, parse_refresh_response,
    sanitize_tenant, Audience, AuthManager, PersistedSession, PollOutcome, StoreAction,
    TokenPlan, TokenResponse,
};
use azvault::json::JsonValue;

fn obj(fields: Vec<(&str, JsonValue)>) -> JsonValue {
    JsonValue::Obj(fields.into_iter().map(|(k, v)| (k.to_string(), v)).collect())
}

fn s(text: &str) -> JsonValue {
    JsonValue::Str(text.to_string())
}

fn token(access: &str, refresh: Option<&str>, expires_in: u64) -> TokenResponse {
    TokenResponse {
        access_token: access.to_string(),
        refresh_token: refresh.map(|r| r.to_string()),
        expires_in,
        token_type: "Bearer".to_string(),
    }
}

#[test]
fn fresh_manager_defaults_to_organizations() {
    let m = AuthManager::new(None);
    assert_eq!(m.get_tenant(), "organizations");
    assert!(matches!(m.token_plan(Audience::Management, 1000), TokenPlan::TryCli));
}

#[test]
fn cached_token_inside_safety_margin_is_not_served() {
    // expires_at = now + 30 is within the 60-second margin: the
    // request must attempt a mint instead of serving the cache.
    let now: u64 = 10_000;
    let mut m = AuthManager::new(None);
    m.apply_token_response(Audience::Vault, token("tok-a", None, 30), now);
    assert!(matches!(m.token_plan(Audience::Vault, now), TokenPlan::TryCli));
}

#[test]
fn cached_token_clear_of_safety_margin_is_served() {
    // expires_at = now + 120 clears the margin: the cached value
    // comes back without any mint attempt.
    let now: u64 = 10_000;
    let mut m = AuthManager::new(None);
    m.apply_token_response(Audience::Vault, token("tok-b", None, 120), now);
    match m.token_plan(Audience::Vault, now) {
        TokenPlan::UseCached(t) => assert_eq!(t, "tok-b"),
        _ => panic!("expected the cached token"),
    }
}

#[test]
fn expired_cache_with_refresh_token_plans_a_refresh() {
    let now: u64 = 10_000;
    let mut m = AuthManager::new(None);
    m.apply_token_response(Audience::Management, token("tok-c", Some("rt-1"), 30), now);
    // Both audiences fall back to the management entry's refresh token.
    assert!(matches!(m.token_plan(Audience::Management, now), TokenPlan::TryRefresh(ref r) if r.as_str() == "rt-1"));
    assert!(matches!(m.token_plan(Audience::Vault, now), TokenPlan::TryRefresh(ref r) if r.as_str() == "rt-1"));
}

#[test]
fn management_mint_with_refresh_token_rotates_the_session() {
    let now: u64 = 500;
    let mut m = AuthManager::new(None);
    let action = m.apply_token_response(Audience::Management, token("t", Some("rt-new"), 3600), now);
    match action {
        StoreAction::Save(p) => {
            assert_eq!(p.tenant_id, "organizations");
            assert_eq!(p.refresh_token, "rt-new");
        }
        _ => panic!("expected the session to be persisted"),
    }
}

#[test]
fn vault_mint_never_touches_the_session() {
    let now: u64 = 500;
    let mut m = AuthManager::new(None);
    let action = m.apply_token_response(Audience::Vault, token("t", Some("rt-x"), 3600), now);
    assert!(matches!(action, StoreAction::Keep));
    // The vault response's refresh token is not adopted for refresh plans.
    assert!(matches!(m.token_plan(Audience::Management, now + 7200), TokenPlan::TryCli));
}

#[test]
fn rejected_refresh_token_is_not_retried() {
    let now: u64 = 500;
    let mut m = AuthManager::new(Some(PersistedSession {
        tenant_id: "tid".to_string(),
        refresh_token: "rt-revoked".to_string(),
    }));
    assert!(matches!(m.token_plan(Audience::Management, now), TokenPlan::TryRefresh(_)));
    let action = m.note_refresh_failure();
    assert!(matches!(action, StoreAction::Clear));
    assert!(matches!(m.token_plan(Audience::Management, now), TokenPlan::TryCli));
}

#[test]
fn sign_out_clears_cache_and_session() {
    let now: u64 = 500;
    let mut m = AuthManager::new(None);
    m.apply_token_response(Audience::Management, token("t", Some("rt"), 3600), now);
    let action = m.sign_out();
    assert!(matches!(action, StoreAction::Clear));
    assert!(matches!(m.token_plan(Audience::Management, now), TokenPlan::TryCli));
}

#[test]
fn set_tenant_sanitizes_hostile_input() {
    // Only hex digits and hyphens survive; here the 'r' and space and
    // slash of the injection attempt are dropped.
    let hostile = format!("{}{}", "a".repeat(50), ";rm -rf /");
    let cleaned = sanitize_tenant(&hostile);
    assert!(cleaned.chars().all(|c| c.is_ascii_hexdigit() || c == '-'));
    assert_eq!(cleaned, format!("{}{}", "a".repeat(50), "-f"));
    // When nothing survives, the default sentinel comes back.
    assert_eq!(sanitize_tenant(";;;"), "organizations");
    assert_eq!(sanitize_tenant("organizations"), "organizations");
    assert_eq!(sanitize_tenant("0a1B-2c"), "0a1B-2c");
}

#[test]
fn set_tenant_clears_vault_cache_and_carries_refresh_forward() {
    let now: u64 = 500;
    let mut m = AuthManager::new(None);
    m.apply_token_response(Audience::Management, token("mt", Some("rt"), 3600), now);
    m.apply_token_response(Audience::Vault, token("vt", None, 3600), now);
    let action = m.set_tenant("00000000-1111-2222-3333-444444444444");
    assert_eq!(m.get_tenant(), "00000000-1111-2222-3333-444444444444");
    // The vault cache is gone; the refresh token is re-persisted
    // under the new tenant.
    assert!(matches!(m.token_plan(Audience::Vault, now), TokenPlan::TryRefresh(_)));
    match action {
        StoreAction::Save(p) => {
            assert_eq!(p.tenant_id, "00000000-1111-2222-3333-444444444444");
            assert_eq!(p.refresh_token, "rt");
        }
        _ => panic!("expected the session to follow the tenant"),
    }
}

#[test]
fn set_tenant_without_refresh_clears_the_session() {
    let mut m = AuthManager::new(None);
    let action = m.set_tenant("abc123");
    assert!(matches!(action, StoreAction::Clear));
}

#[test]
fn poll_pending_means_retry_not_failure() {
    let body = obj(vec![("error", s("authorization_pending"))]);
    assert!(matches!(classify_poll(&body), PollOutcome::Pending));
}

#[test]
fn poll_slow_down_means_retry_at_longer_interval() {
    let body = obj(vec![("error", s("slow_down"))]);
    assert!(matches!(classify_poll(&body), PollOutcome::SlowDown));
}

#[test]
fn poll_expired_token_is_a_hard_failure() {
    let body = obj(vec![
        ("error", s("expired_token")),
        ("error_description", s("the code expired")),
    ]);
    match classify_poll(&body) {
        PollOutcome::Failed(e) => {
            assert_eq!(e, "Auth error: expired_token - the code expired");
        }
        _ => panic!("expected a hard failure"),
    }
}

#[test]
fn poll_success_carries_the_minted_token() {
    let body = obj(vec![
        ("access_token", s("at-1")),
        ("refresh_token", s("rt-1")),
        ("expires_in", JsonValue::Int(3600)),
        ("token_type", s("Bearer")),
    ]);
    match classify_poll(&body) {
        PollOutcome::Success(t) => {
            assert_eq!(t.access_token, "at-1");
            assert_eq!(t.refresh_token.as_deref(), Some("rt-1"));
            assert_eq!(t.expires_in, 3600);
        }
        _ => panic!("expected a minted token"),
    }
}

#[test]
fn device_code_response_parses_with_defaults() {
    let body = obj(vec![
        ("device_code", s("dc")),
        ("user_code", s("UC-1")),
        ("verification_uri", s("https://microsoft.com/devicelogin")),
        ("message", s("go sign in")),
    ]);
    let d = parse_device_code_response(&body).unwrap();
    assert_eq!(d.device_code, "dc");
    assert_eq!(d.expires_in, 900);
    assert_eq!(d.interval, 5);
}

#[test]
fn device_code_provider_error_is_wrapped() {
    let body = obj(vec![
        ("error", s("invalid_client")),
        ("error_description", s("bad client")),
    ]);
    let e = parse_device_code_response(&body).unwrap_err();
    assert_eq!(e, "Auth error: invalid_client - bad client");
}

#[test]
fn refresh_error_reports_the_description() {
    let body = obj(vec![
        ("error", s("invalid_grant")),
        ("error_description", s("token revoked")),
    ]);
    let e = parse_refresh_response(&body).unwrap_err();
    assert_eq!(e, "Token refresh failed: token revoked");
}

#[test]
fn refresh_success_parses_the_token() {
    let body = obj(vec![("access_token", s("at-2")), ("expires_in", JsonValue::Int(1200))]);
    let t = parse_refresh_response(&body).unwrap();
    assert_eq!(t.access_token, "at-2");
    assert_eq!(t.expires_in, 1200);
    assert!(t.refresh_token.is_none());
    assert_eq!(t.token_type, "Bearer");
}

#[test]
fn cli_token_output_parses_access_token_field() {
    let body = obj(vec![("accessToken", s("cli-tok"))]);
    assert_eq!(parse_cli_token(&body).unwrap(), "cli-tok");
    let err = parse_cli_token(&obj(vec![])).unwrap_err();
    assert_eq!(err, "Azure CLI token response did not contain accessToken");
}

#[test]
fn request_forms_carry_the_expected_fields() {
    let form = azvault::auth::refresh_form("rt-9", Audience::Vault);
    assert_eq!(form[1], ("grant_type".to_string(), "refresh_token".to_string()));
    assert_eq!(form[2].1, "rt-9");
    assert_eq!(form[3].1, "https://vault.azure.net/.default offline_access");
    let url = azvault::auth::token_url("organizations");
    assert_eq!(url, "https://login.microsoftonline.com/organizations/oauth2/v2.0/token");
    let dc = azvault::auth::device_code_url("tid");
    assert_eq!(dc, "https://login.microsoftonline.com/tid/oauth2/v2.0/devicecode");
    let args = azvault::auth::cli_token_args(Audience::Management);
    assert_eq!(
        args,
        vec!["account", "get-access-token", "--resource", "https://management.azure.com/",
            "--output", "json"]
    );
}
