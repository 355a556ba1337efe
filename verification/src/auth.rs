//! The token lifecycle state machine.
//!
//! For each audience the manager decides, in a fixed priority order,
//! how a bearer token is produced: serve the cached one while it is
//! comfortably unexpired, else mint one through the refresh grant,
//! else fall back to the delegated CLI mint, else report that
//! interactive sign-in is needed. The surrounding application performs
//! the network and process I/O these decisions call for and feeds the
//! outcomes back; every transition here is a pure state update that
//! also tells the application what to do with the persisted session.

use vstd::prelude::*;

use crate::json::{get_field, get_str, get_u64, spec_get, spec_get_str, spec_get_u64, JsonValue};
use crate::text::{push_str_chars, string_from_chars};

verus! {

/// The safety margin subtracted from a token's expiry: a cached token
/// is not served within this many seconds of expiring.
pub const TOKEN_EXPIRY_SKEW: u64 = 60;

/// The default tenant preference: any tenant the identity belongs to.
pub open spec fn default_tenant() -> Seq<char> {
    "organizations"@
}

/// The two API audiences tokens are scoped to.
#[derive(Clone, Copy, Debug, PartialEq, Eq, Structural)]
pub enum Audience {
    Management,
    Vault,
}

/// A token-endpoint response: the minted access token, an optional
/// rotated refresh token, the validity window in seconds, and the
/// token type (normally "Bearer").
#[derive(Debug, Clone)]
pub struct TokenResponse {
    pub access_token: String,
    pub refresh_token: Option<String>,
    pub expires_in: u64,
    pub token_type: String,
}

/// Access tokens cached per audience, together with their absolute
/// expiry instants (seconds since the Unix epoch). Only the
/// management entry ever carries a refresh token.
#[derive(Debug, Clone)]
pub struct TokenCache {
    pub management_token: Option<TokenResponse>,
    pub vault_token: Option<TokenResponse>,
    pub management_expires_at: Option<u64>,
    pub vault_expires_at: Option<u64>,
}

impl TokenCache {
    /// An empty cache: no token has been minted for either audience.
    pub fn new() -> (r: Self)
        ensures
            r.management_token is None,
            r.vault_token is None,
            r.management_expires_at is None,
            r.vault_expires_at is None,
    {
        Self {
            management_token: None,
            vault_token: None,
            management_expires_at: None,
            vault_expires_at: None,
        }
    }
}

/// The single durable record: which tenant was active and the refresh
/// token obtained for it.
#[derive(Debug, Clone)]
pub struct PersistedSession {
    pub tenant_id: String,
    pub refresh_token: String,
}

/// An ephemeral device-code session as the identity endpoint grants
/// it: what to show the user and how to poll.
#[derive(Debug, Clone)]
pub struct DeviceCodeResponse {
    pub device_code: String,
    pub user_code: String,
    pub verification_uri: String,
    pub expires_in: u64,
    pub interval: u64,
    pub message: String,
}

/// What the application must do with the persisted session after a
/// transition: leave it alone, overwrite it, or delete it.
#[derive(Debug)]
pub enum StoreAction {
    Keep,
    Save(PersistedSession),
    Clear,
}

/// The path `getToken` takes, in priority order: the cached token as
/// is, a refresh-grant mint with the known refresh token, or the
/// delegated CLI mint.
#[derive(Debug)]
pub enum TokenPlan {
    UseCached(String),
    TryRefresh(String),
    TryCli,
}

/// One device-code poll, classified: keep polling (plain or slowed),
/// give up, or sign-in completed with a minted token.
#[derive(Debug)]
pub enum PollOutcome {
    Pending,
    SlowDown,
    Failed(String),
    Success(TokenResponse),
}

/// `a - b`, floored at zero.
pub open spec fn sat_sub(a: u64, b: u64) -> u64 {
    if a >= b {
        (a - b) as u64
    } else {
        0
    }
}

/// A cache entry serves requests only while it holds a non-empty
/// token and `now` is short of the expiry by more than the skew.
pub open spec fn entry_usable(token: Option<TokenResponse>, expires_at: Option<u64>, now: u64) -> bool {
    match (token, expires_at) {
        (Some(t), Some(e)) => t.access_token@.len() > 0 && now < sat_sub(e, TOKEN_EXPIRY_SKEW),
        _ => false,
    }
}

/// Whether the cache can serve the audience at `now` without I/O.
pub open spec fn cache_usable(cache: TokenCache, audience: Audience, now: u64) -> bool {
    match audience {
        Audience::Management => entry_usable(
            cache.management_token,
            cache.management_expires_at,
            now,
        ),
        Audience::Vault => entry_usable(cache.vault_token, cache.vault_expires_at, now),
    }
}

/// The access token the cache holds for an audience (meaningful when
/// an entry exists).
pub open spec fn cached_access(cache: TokenCache, audience: Audience) -> Seq<char> {
    match audience {
        Audience::Management => match cache.management_token {
            Some(t) => t.access_token@,
            None => Seq::empty(),
        },
        Audience::Vault => match cache.vault_token {
            Some(t) => t.access_token@,
            None => Seq::empty(),
        },
    }
}

/// The refresh token the manager knows, always the one attached to
/// the management entry, whichever audience is requested.
pub open spec fn known_refresh(cache: TokenCache) -> Option<Seq<char>> {
    match cache.management_token {
        Some(t) => match t.refresh_token {
            Some(r) => Some(r@),
            None => None,
        },
        None => None,
    }
}

/// The token lifecycle manager: the tenant preference and the
/// per-audience token cache. The application shares one instance
/// behind a lock; every method here is a pure decision or state
/// update.
#[derive(Debug)]
pub struct AuthManager {
    pub token_cache: TokenCache,
    pub tenant_id: String,
}

fn expiry_deadline(expires_at: u64) -> (r: u64)
    ensures
        r == sat_sub(expires_at, TOKEN_EXPIRY_SKEW),
{
    if expires_at >= TOKEN_EXPIRY_SKEW {
        expires_at - TOKEN_EXPIRY_SKEW
    } else {
        0
    }
}

impl AuthManager {
    /// Builds a manager from what the session store held at startup:
    /// the persisted tenant is restored and the persisted refresh
    /// token is seeded into the management entry as an already-expired
    /// token, so the first request mints through the refresh grant.
    pub fn new(persisted: Option<PersistedSession>) -> (r: Self)
        ensures
            match persisted {
                Some(p) => {
                    &&& r.tenant_id@ == p.tenant_id@
                    &&& known_refresh(r.token_cache) == Some(p.refresh_token@)
                    &&& cached_access(r.token_cache, Audience::Management) == Seq::<char>::empty()
                    &&& r.token_cache.management_expires_at == Some(0u64)
                },
                None => {
                    &&& r.tenant_id@ == default_tenant()
                    &&& r.token_cache.management_token is None
                    &&& r.token_cache.management_expires_at is None
                },
            },
            r.token_cache.vault_token is None,
            r.token_cache.vault_expires_at is None,
            forall|now: u64| !cache_usable(r.token_cache, Audience::Management, now),
            forall|now: u64| !cache_usable(r.token_cache, Audience::Vault, now),
    {
        match persisted {
            Some(p) => {
                let mut cache = TokenCache::new();
                cache.management_token = Some(
                    TokenResponse {
                        access_token: String::new(),
                        refresh_token: Some(p.refresh_token),
                        expires_in: 0,
                        token_type: String::from_str("Bearer"),
                    },
                );
                cache.management_expires_at = Some(0);
                AuthManager { token_cache: cache, tenant_id: p.tenant_id }
            },
            None => AuthManager {
                token_cache: TokenCache::new(),
                tenant_id: String::from_str("organizations"),
            },
        }
    }

    /// The active tenant preference.
    pub fn get_tenant(&self) -> (r: String)
        ensures
            r@ == self.tenant_id@,
    {
        self.tenant_id.clone()
    }

    /// Decides how to produce a token for an audience at `now`, in
    /// the fixed priority order: cached while usable, else the
    /// refresh grant with the known refresh token, else the CLI
    /// fallback.
    pub fn token_plan(&self, audience: Audience, now: u64) -> (r: TokenPlan)
        ensures
            cache_usable(self.token_cache, audience, now) ==> (r matches TokenPlan::UseCached(t)
                && t@ == cached_access(self.token_cache, audience)),
            !cache_usable(self.token_cache, audience, now) ==> match known_refresh(
                self.token_cache,
            ) {
                Some(rt) => r matches TokenPlan::TryRefresh(x) && x@ == rt,
                None => r == TokenPlan::TryCli,
            },
    {
        let usable: Option<&TokenResponse> = match audience {
            Audience::Management => {
                match (&self.token_cache.management_token, &self.token_cache.management_expires_at) {
                    (Some(t), Some(e)) => {
                        if t.access_token.as_str().unicode_len() > 0 && now < expiry_deadline(*e) {
                            Some(t)
                        } else {
                            None
                        }
                    },
                    _ => None,
                }
            },
            Audience::Vault => {
                match (&self.token_cache.vault_token, &self.token_cache.vault_expires_at) {
                    (Some(t), Some(e)) => {
                        if t.access_token.as_str().unicode_len() > 0 && now < expiry_deadline(*e) {
                            Some(t)
                        } else {
                            None
                        }
                    },
                    _ => None,
                }
            },
        };
        match usable {
            Some(t) => TokenPlan::UseCached(t.access_token.clone()),
            None => {
                match &self.token_cache.management_token {
                    Some(t) => match &t.refresh_token {
                        Some(rt) => TokenPlan::TryRefresh(rt.clone()),
                        None => TokenPlan::TryCli,
                    },
                    None => TokenPlan::TryCli,
                }
            },
        }
    }

    /// Installs a freshly minted token for an audience. The
    /// management mint also rotates the persisted session when the
    /// response carried a new refresh token; a vault mint never
    /// touches the management entry or the store.
    pub fn apply_token_response(&mut self, audience: Audience, token: TokenResponse, now: u64) -> (r:
        StoreAction)
        requires
            now + token.expires_in <= u64::MAX,
        ensures
            final(self).tenant_id@ == old(self).tenant_id@,
            match audience {
                Audience::Management => {
                    &&& final(self).token_cache.management_token == Some(token)
                    &&& final(self).token_cache.management_expires_at == Some(
                        (now + token.expires_in) as u64,
                    )
                    &&& final(self).token_cache.vault_token == old(self).token_cache.vault_token
                    &&& final(self).token_cache.vault_expires_at == old(
                        self,
                    ).token_cache.vault_expires_at
                    &&& match token.refresh_token {
                        Some(rt) => r matches StoreAction::Save(p) && p.tenant_id@ == old(
                            self,
                        ).tenant_id@ && p.refresh_token@ == rt@,
                        None => r is Keep,
                    }
                },
                Audience::Vault => {
                    &&& final(self).token_cache.vault_token == Some(token)
                    &&& final(self).token_cache.vault_expires_at == Some(
                        (now + token.expires_in) as u64,
                    )
                    &&& final(self).token_cache.management_token == old(
                        self,
                    ).token_cache.management_token
                    &&& final(self).token_cache.management_expires_at == old(
                        self,
                    ).token_cache.management_expires_at
                    &&& r is Keep
                },
            },
    {
        let expires_at = now + token.expires_in;
        match audience {
            Audience::Management => {
                let action = match &token.refresh_token {
                    Some(rt) => StoreAction::Save(
                        PersistedSession {
                            tenant_id: self.tenant_id.clone(),
                            refresh_token: rt.clone(),
                        },
                    ),
                    None => StoreAction::Keep,
                };
                self.token_cache.management_token = Some(token);
                self.token_cache.management_expires_at = Some(expires_at);
                action
            },
            Audience::Vault => {
                self.token_cache.vault_token = Some(token);
                self.token_cache.vault_expires_at = Some(expires_at);
                StoreAction::Keep
            },
        }
    }

    /// Records that the known refresh token was rejected by the token
    /// endpoint: it must not be retried verbatim, so it is dropped
    /// from the cache and the persisted session is deleted.
    pub fn note_refresh_failure(&mut self) -> (r: StoreAction)
        ensures
            final(self).tenant_id@ == old(self).tenant_id@,
            known_refresh(final(self).token_cache) is None,
            final(self).token_cache.vault_token == old(self).token_cache.vault_token,
            final(self).token_cache.vault_expires_at == old(self).token_cache.vault_expires_at,
            final(self).token_cache.management_expires_at == old(
                self,
            ).token_cache.management_expires_at,
            match old(self).token_cache.management_token {
                Some(t) => final(self).token_cache.management_token matches Some(t2)
                    && t2.access_token@ == t.access_token@ && t2.refresh_token is None,
                None => final(self).token_cache.management_token is None,
            },
            r is Clear,
    {
        match &mut self.token_cache.management_token {
            Some(t) => {
                t.refresh_token = None;
            },
            None => {},
        }
        StoreAction::Clear
    }

    /// Replaces the tenant preference with the sanitized input,
    /// drops the vault cache and the management access token, and
    /// carries the refresh token forward under the new tenant where
    /// one is known; without one the persisted session is deleted.
    pub fn set_tenant(&mut self, tenant_id: &str) -> (r: StoreAction)
        ensures
            final(self).tenant_id@ == sanitize_tenant_spec(tenant_id@),
            final(self).token_cache.vault_token is None,
            final(self).token_cache.vault_expires_at is None,
            final(self).token_cache.management_expires_at is None,
            match known_refresh(old(self).token_cache) {
                Some(rt) => {
                    &&& known_refresh(final(self).token_cache) == Some(rt)
                    &&& cached_access(final(self).token_cache, Audience::Management)
                        == Seq::<char>::empty()
                    &&& r matches StoreAction::Save(p) && p.tenant_id@ == sanitize_tenant_spec(
                        tenant_id@,
                    ) && p.refresh_token@ == rt
                },
                None => {
                    &&& final(self).token_cache.management_token is None
                    &&& r is Clear
                },
            },
    {
        let clean = sanitize_tenant(tenant_id);
        self.tenant_id = clean;
        let refresh: Option<String> = match &self.token_cache.management_token {
            Some(t) => match &t.refresh_token {
                Some(rt) => Some(rt.clone()),
                None => None,
            },
            None => None,
        };
        self.token_cache = TokenCache::new();
        match refresh {
            Some(rt) => {
                self.token_cache.management_token = Some(
                    TokenResponse {
                        access_token: String::new(),
                        refresh_token: Some(rt.clone()),
                        expires_in: 0,
                        token_type: String::from_str("Bearer"),
                    },
                );
                StoreAction::Save(
                    PersistedSession { tenant_id: self.tenant_id.clone(), refresh_token: rt },
                )
            },
            None => StoreAction::Clear,
        }
    }

    /// Clears both cache entries and deletes the persisted session.
    /// A delegated CLI session, if any, is outside this system's
    /// control and stays signed in.
    pub fn sign_out(&mut self) -> (r: StoreAction)
        ensures
            final(self).tenant_id@ == old(self).tenant_id@,
            final(self).token_cache.management_token is None,
            final(self).token_cache.vault_token is None,
            final(self).token_cache.management_expires_at is None,
            final(self).token_cache.vault_expires_at is None,
            r is Clear,
    {
        self.token_cache = TokenCache::new();
        StoreAction::Clear
    }
}

/// A character allowed in a tenant identifier: a hexadecimal digit or
/// a hyphen.
pub open spec fn tenant_char_ok(c: char) -> bool {
    ||| 48 <= c as u32 <= 57
    ||| 97 <= c as u32 <= 102
    ||| 65 <= c as u32 <= 70
    ||| c == '-'
}

/// The characters of `s` that a tenant identifier may carry, in order.
pub open spec fn tenant_kept_chars(s: Seq<char>) -> Seq<char>
    decreases s.len(),
{
    if s.len() == 0 {
        Seq::empty()
    } else if tenant_char_ok(s.last()) {
        tenant_kept_chars(s.drop_last()).push(s.last())
    } else {
        tenant_kept_chars(s.drop_last())
    }
}

/// The sanitized tenant preference: the default sentinel passes as
/// is; anything else keeps only hex digits and hyphens, and collapses
/// to the sentinel when nothing survives.
pub open spec fn sanitize_tenant_spec(s: Seq<char>) -> Seq<char> {
    if s == default_tenant() {
        s
    } else if tenant_kept_chars(s).len() == 0 {
        default_tenant()
    } else {
        tenant_kept_chars(s)
    }
}

fn tenant_char_allowed(c: char) -> (r: bool)
    ensures
        r == tenant_char_ok(c),
{
    let u = c as u32;
    (48 <= u && u <= 57) || (97 <= u && u <= 102) || (65 <= u && u <= 70) || c == '-'
}

/// Sanitizes a requested tenant identifier so the value is safe to
/// embed in authority URLs and CLI arguments.
pub fn sanitize_tenant(s: &str) -> (r: String)
    ensures
        r@ == sanitize_tenant_spec(s@),
{
    if crate::text::str_eq(s, "organizations") {
        return String::from_str("organizations");
    }
    let n = s.unicode_len();
    let mut v: Vec<char> = Vec::new();
    let mut i: usize = 0;
    while i < n
        invariant
            i <= n,
            n == s@.len(),
            v@ == tenant_kept_chars(s@.take(i as int)),
        decreases n - i,
    {
        let c = s.get_char(i);
        proof {
            let t = s@.take(i + 1 as int);
            assert(t.drop_last() =~= s@.take(i as int));
            assert(t.last() == s@[i as int]);
        }
        if tenant_char_allowed(c) {
            v.push(c);
        }
        i += 1;
    }
    proof {
        assert(s@.take(n as int) =~= s@);
    }
    if v.len() == 0 {
        String::from_str("organizations")
    } else {
        string_from_chars(&v)
    }
}

/// The identity authority all token requests go to.
pub fn authority() -> (r: &'static str)
    ensures
        r@ == "https://login.microsoftonline.com"@,
{
    "https://login.microsoftonline.com"
}

/// The well-known public client identifier the device-code and
/// refresh grants are issued under.
pub fn client_id() -> (r: &'static str)
    ensures
        r@ == "04b07795-a71b-4346-935f-02f9a1efa4ce"@,
{
    "04b07795-a71b-4346-935f-02f9a1efa4ce"
}

/// The OAuth scope a token for this audience is requested with.
pub fn audience_scope(audience: Audience) -> (r: &'static str)
    ensures
        audience is Management ==> r@ == "https://management.azure.com/.default"@,
        audience is Vault ==> r@ == "https://vault.azure.net/.default"@,
{
    match audience {
        Audience::Management => "https://management.azure.com/.default",
        Audience::Vault => "https://vault.azure.net/.default",
    }
}

/// The resource URL the CLI fallback requests a token for.
pub fn audience_resource(audience: Audience) -> (r: &'static str)
    ensures
        audience is Management ==> r@ == "https://management.azure.com/"@,
        audience is Vault ==> r@ == "https://vault.azure.net"@,
{
    match audience {
        Audience::Management => "https://management.azure.com/",
        Audience::Vault => "https://vault.azure.net",
    }
}

/// The device-code endpoint for a tenant.
pub fn device_code_url(tenant: &str) -> (r: String)
    ensures
        r@ == "https://login.microsoftonline.com"@ + "/"@ + tenant@ + "/oauth2/v2.0/devicecode"@,
{
    let mut out: Vec<char> = Vec::new();
    push_str_chars(&mut out, "https://login.microsoftonline.com");
    push_str_chars(&mut out, "/");
    push_str_chars(&mut out, tenant);
    push_str_chars(&mut out, "/oauth2/v2.0/devicecode");
    string_from_chars(&out)
}

/// The token endpoint for a tenant.
pub fn token_url(tenant: &str) -> (r: String)
    ensures
        r@ == "https://login.microsoftonline.com"@ + "/"@ + tenant@ + "/oauth2/v2.0/token"@,
{
    let mut out: Vec<char> = Vec::new();
    push_str_chars(&mut out, "https://login.microsoftonline.com");
    push_str_chars(&mut out, "/");
    push_str_chars(&mut out, tenant);
    push_str_chars(&mut out, "/oauth2/v2.0/token");
    string_from_chars(&out)
}

/// The scope string a mint asks for: the audience scope plus offline
/// access, so a refresh token comes back.
pub fn scope_with_offline_access(audience: Audience) -> (r: String)
    ensures
        audience is Management ==> r@ == "https://management.azure.com/.default"@
            + " offline_access"@,
        audience is Vault ==> r@ == "https://vault.azure.net/.default"@ + " offline_access"@,
{
    let mut out: Vec<char> = Vec::new();
    push_str_chars(&mut out, audience_scope(audience));
    push_str_chars(&mut out, " offline_access");
    string_from_chars(&out)
}

/// The form fields that start a device-code flow, scoped to the
/// management audience plus offline access.
pub fn device_code_start_form() -> (r: Vec<(String, String)>)
    ensures
        r@.len() == 2,
        r@[0].0@ == "client_id"@,
        r@[0].1@ == "04b07795-a71b-4346-935f-02f9a1efa4ce"@,
        r@[1].0@ == "scope"@,
        r@[1].1@ == "https://management.azure.com/.default"@ + " offline_access"@,
{
    let mut r: Vec<(String, String)> = Vec::new();
    r.push((String::from_str("client_id"), String::from_str(client_id())));
    r.push((String::from_str("scope"), scope_with_offline_access(Audience::Management)));
    r
}

/// The form fields of one device-code poll.
pub fn device_code_poll_form(device_code: &str) -> (r: Vec<(String, String)>)
    ensures
        r@.len() == 3,
        r@[0].0@ == "client_id"@,
        r@[0].1@ == "04b07795-a71b-4346-935f-02f9a1efa4ce"@,
        r@[1].0@ == "grant_type"@,
        r@[1].1@ == "urn:ietf:params:oauth:grant-type:device_code"@,
        r@[2].0@ == "device_code"@,
        r@[2].1@ == device_code@,
{
    let mut r: Vec<(String, String)> = Vec::new();
    r.push((String::from_str("client_id"), String::from_str(client_id())));
    r.push(
        (
            String::from_str("grant_type"),
            String::from_str("urn:ietf:params:oauth:grant-type:device_code"),
        ),
    );
    r.push((String::from_str("device_code"), String::from_str(device_code)));
    r
}

/// The form fields of a refresh-grant mint scoped to an audience.
pub fn refresh_form(refresh_token: &str, audience: Audience) -> (r: Vec<(String, String)>)
    ensures
        r@.len() == 4,
        r@[0].0@ == "client_id"@,
        r@[0].1@ == "04b07795-a71b-4346-935f-02f9a1efa4ce"@,
        r@[1].0@ == "grant_type"@,
        r@[1].1@ == "refresh_token"@,
        r@[2].0@ == "refresh_token"@,
        r@[2].1@ == refresh_token@,
        r@[3].0@ == "scope"@,
        audience is Management ==> r@[3].1@ == "https://management.azure.com/.default"@
            + " offline_access"@,
        audience is Vault ==> r@[3].1@ == "https://vault.azure.net/.default"@ + " offline_access"@,
{
    let mut r: Vec<(String, String)> = Vec::new();
    r.push((String::from_str("client_id"), String::from_str(client_id())));
    r.push((String::from_str("grant_type"), String::from_str("refresh_token")));
    r.push((String::from_str("refresh_token"), String::from_str(refresh_token)));
    r.push((String::from_str("scope"), scope_with_offline_access(audience)));
    r
}

/// The arguments of the delegated CLI mint for an audience.
pub fn cli_token_args(audience: Audience) -> (r: Vec<String>)
    ensures
        r@.len() == 6,
        r@[0]@ == "account"@,
        r@[1]@ == "get-access-token"@,
        r@[2]@ == "--resource"@,
        audience is Management ==> r@[3]@ == "https://management.azure.com/"@,
        audience is Vault ==> r@[3]@ == "https://vault.azure.net"@,
        r@[4]@ == "--output"@,
        r@[5]@ == "json"@,
{
    let mut r: Vec<String> = Vec::new();
    r.push(String::from_str("account"));
    r.push(String::from_str("get-access-token"));
    r.push(String::from_str("--resource"));
    r.push(String::from_str(audience_resource(audience)));
    r.push(String::from_str("--output"));
    r.push(String::from_str("json"));
    r
}

/// The string or the empty sequence.
pub open spec fn str_or_empty(o: Option<Seq<char>>) -> Seq<char> {
    match o {
        Some(s) => s,
        None => Seq::empty(),
    }
}

/// The error code of an identity-endpoint response: its `error`
/// field's string, `unknown` when the field is not a string.
pub open spec fn auth_error_code(body: JsonValue) -> Seq<char> {
    match spec_get(body, "error"@) {
        Some(JsonValue::Str(s)) => s@,
        _ => "unknown"@,
    }
}

/// The provider's description of an error, `unknown` when absent.
pub open spec fn auth_error_description(body: JsonValue) -> Seq<char> {
    match spec_get_str(body, "error_description"@) {
        Some(d) => d,
        None => "unknown"@,
    }
}

/// The wrapped provider error: `Auth error: code - description`.
pub open spec fn auth_error_text(body: JsonValue) -> Seq<char> {
    "Auth error: "@ + auth_error_code(body) + " - "@ + auth_error_description(body)
}

fn render_auth_error(body: &JsonValue) -> (r: String)
    ensures
        r@ == auth_error_text(*body),
{
    let mut out: Vec<char> = Vec::new();
    push_str_chars(&mut out, "Auth error: ");
    match get_field(body, "error") {
        Some(JsonValue::Str(s)) => push_str_chars(&mut out, s.as_str()),
        _ => push_str_chars(&mut out, "unknown"),
    }
    push_str_chars(&mut out, " - ");
    match get_str(body, "error_description") {
        Some(d) => push_str_chars(&mut out, d.as_str()),
        None => push_str_chars(&mut out, "unknown"),
    }
    proof {
        assert(out@ =~= auth_error_text(*body));
    }
    string_from_chars(&out)
}

/// How the fields of a token-endpoint success map into a
/// `TokenResponse`, with the endpoint's defaults for what is absent.
pub open spec fn token_fields_ok(body: JsonValue, t: TokenResponse) -> bool {
    &&& t.access_token@ == str_or_empty(spec_get_str(body, "access_token"@))
    &&& match spec_get_str(body, "refresh_token"@) {
        Some(s) => t.refresh_token matches Some(x) && x@ == s,
        None => t.refresh_token is None,
    }
    &&& t.expires_in == match spec_get_u64(body, "expires_in"@) {
        Some(n) => n,
        None => 3600u64,
    }
    &&& t.token_type@ == match spec_get_str(body, "token_type"@) {
        Some(s) => s,
        None => "Bearer"@,
    }
}

fn parse_token_fields(body: &JsonValue) -> (t: TokenResponse)
    ensures
        token_fields_ok(*body, t),
{
    let access_token = match get_str(body, "access_token") {
        Some(s) => s.clone(),
        None => String::new(),
    };
    let refresh_token = match get_str(body, "refresh_token") {
        Some(s) => Some(s.clone()),
        None => None,
    };
    let expires_in = match get_u64(body, "expires_in") {
        Some(n) => n,
        None => 3600,
    };
    let token_type = match get_str(body, "token_type") {
        Some(s) => s.clone(),
        None => String::from_str("Bearer"),
    };
    TokenResponse { access_token, refresh_token, expires_in, token_type }
}

/// Parses the identity endpoint's answer to a device-code start:
/// provider errors are surfaced wrapped, otherwise the session fields
/// are read with the provider's documented defaults.
pub fn parse_device_code_response(body: &JsonValue) -> (r: Result<DeviceCodeResponse, String>)
    ensures
        spec_get(*body, "error"@) is Some ==> (r matches Err(e) && e@ == auth_error_text(*body)),
        spec_get(*body, "error"@) is None ==> (r matches Ok(d) && {
            &&& d.device_code@ == str_or_empty(spec_get_str(*body, "device_code"@))
            &&& d.user_code@ == str_or_empty(spec_get_str(*body, "user_code"@))
            &&& d.verification_uri@ == str_or_empty(spec_get_str(*body, "verification_uri"@))
            &&& d.expires_in == match spec_get_u64(*body, "expires_in"@) {
                Some(n) => n,
                None => 900u64,
            }
            &&& d.interval == match spec_get_u64(*body, "interval"@) {
                Some(n) => n,
                None => 5u64,
            }
            &&& d.message@ == str_or_empty(spec_get_str(*body, "message"@))
        }),
{
    match get_field(body, "error") {
        Some(_) => Err(render_auth_error(body)),
        None => {
            let device_code = match get_str(body, "device_code") {
                Some(s) => s.clone(),
                None => String::new(),
            };
            let user_code = match get_str(body, "user_code") {
                Some(s) => s.clone(),
                None => String::new(),
            };
            let verification_uri = match get_str(body, "verification_uri") {
                Some(s) => s.clone(),
                None => String::new(),
            };
            let expires_in = match get_u64(body, "expires_in") {
                Some(n) => n,
                None => 900,
            };
            let interval = match get_u64(body, "interval") {
                Some(n) => n,
                None => 5,
            };
            let message = match get_str(body, "message") {
                Some(s) => s.clone(),
                None => String::new(),
            };
            Ok(
                DeviceCodeResponse {
                    device_code,
                    user_code,
                    verification_uri,
                    expires_in,
                    interval,
                    message,
                },
            )
        },
    }
}

/// Classifies one device-code poll. The two provider codes
/// `authorization_pending` and `slow_down` are poll-again signals,
/// not failures; any other provider error is fatal; without an error
/// the response carries the minted token.
pub fn classify_poll(body: &JsonValue) -> (r: PollOutcome)
    ensures
        match spec_get(*body, "error"@) {
            Some(_) => {
                if auth_error_code(*body) == "authorization_pending"@ {
                    r is Pending
                } else if auth_error_code(*body) == "slow_down"@ {
                    r is SlowDown
                } else {
                    r matches PollOutcome::Failed(e) && e@ == auth_error_text(*body)
                }
            },
            None => r matches PollOutcome::Success(t) && token_fields_ok(*body, t),
        },
{
    match get_field(body, "error") {
        Some(e) => {
            let code: Option<&String> = match e {
                JsonValue::Str(s) => Some(s),
                _ => None,
            };
            match code {
                Some(c) => {
                    if crate::text::str_eq(c.as_str(), "authorization_pending") {
                        PollOutcome::Pending
                    } else if crate::text::str_eq(c.as_str(), "slow_down") {
                        PollOutcome::SlowDown
                    } else {
                        PollOutcome::Failed(render_auth_error(body))
                    }
                },
                None => {
                    proof {
                        reveal_strlit("unknown");
                        reveal_strlit("authorization_pending");
                        reveal_strlit("slow_down");
                    }
                    PollOutcome::Failed(render_auth_error(body))
                },
            }
        },
        None => PollOutcome::Success(parse_token_fields(body)),
    }
}

/// Parses the token endpoint's answer to a refresh grant: an error
/// response reports why the refresh failed, anything else carries the
/// minted token.
pub fn parse_refresh_response(body: &JsonValue) -> (r: Result<TokenResponse, String>)
    ensures
        spec_get(*body, "error"@) is Some ==> (r matches Err(e) && e@ == "Token refresh failed: "@
            + auth_error_description(*body)),
        spec_get(*body, "error"@) is None ==> (r matches Ok(t) && token_fields_ok(*body, t)),
{
    match get_field(body, "error") {
        Some(_) => {
            let mut out: Vec<char> = Vec::new();
            push_str_chars(&mut out, "Token refresh failed: ");
            match get_str(body, "error_description") {
                Some(d) => push_str_chars(&mut out, d.as_str()),
                None => push_str_chars(&mut out, "unknown"),
            }
            proof {
                assert(out@ =~= "Token refresh failed: "@ + auth_error_description(*body));
            }
            Err(string_from_chars(&out))
        },
        None => Ok(parse_token_fields(body)),
    }
}

/// Reads the access token out of the CLI fallback's JSON output.
pub fn parse_cli_token(body: &JsonValue) -> (r: Result<String, String>)
    ensures
        match spec_get_str(*body, "accessToken"@) {
            Some(s) => r matches Ok(t) && t@ == s,
            None => r matches Err(e) && e@
                == "Azure CLI token response did not contain accessToken"@,
        },
{
    match get_str(body, "accessToken") {
        Some(s) => Ok(s.clone()),
        None => Err(String::from_str("Azure CLI token response did not contain accessToken")),
    }
}

/// The one message every exhausted mint collapses to.
pub fn not_authenticated_error() -> (r: String)
    ensures
        r@ == "Not authenticated. Please sign in (or run az login)."@,
{
    String::from_str("Not authenticated. Please sign in (or run az login).")
}

/// The cached expiry instant for an audience, where an entry exists.
pub open spec fn expiry_of(cache: TokenCache, audience: Audience) -> Option<u64> {
    match audience {
        Audience::Management => cache.management_expires_at,
        Audience::Vault => cache.vault_expires_at,
    }
}

/// A token inside the safety margin is never served from the cache:
/// whenever the cached expiry is within the skew of `now` (or there
/// is no entry at all), a request must attempt a mint.
pub proof fn lemma_skew_blocks_cache(cache: TokenCache, audience: Audience, now: u64)
    requires
        match expiry_of(cache, audience) {
            Some(e) => e <= now + TOKEN_EXPIRY_SKEW,
            None => true,
        },
    ensures
        !cache_usable(cache, audience, now),
{
}

/// A non-empty cached token whose expiry clears the safety margin is
/// served as is.
pub proof fn lemma_fresh_cache_is_usable(cache: TokenCache, audience: Audience, now: u64)
    requires
        match audience {
            Audience::Management => cache.management_token matches Some(t) && t.access_token@.len()
                > 0,
            Audience::Vault => cache.vault_token matches Some(t) && t.access_token@.len() > 0,
        },
        (expiry_of(cache, audience) matches Some(e) && now + TOKEN_EXPIRY_SKEW < e),
    ensures
        cache_usable(cache, audience, now),
{
}

} // verus!
