//! The outbound-destination allowlist.
//!
//! Every outbound request is checked against this gate before any
//! network I/O: only HTTPS requests to the management host or to a
//! host under one of the known vault domain suffixes may leave.
//! Matching is on whole-host suffixes, so a lookalike domain that
//! merely embeds an allowed name is rejected.

use vstd::prelude::*;

use crate::text::{seq_ends_with, str_ends_with, str_eq};

verus! {

/// What `url::Url::parse` extracts from a candidate URL: `None` when
/// the text does not parse as an absolute URL, otherwise the scheme
/// and, where one exists, the host.
pub uninterp spec fn url_parts(s: Seq<char>) -> Option<(Seq<char>, Option<Seq<char>>)>;

/// The view of an optional owned string.
pub open spec fn opt_str_view(o: Option<String>) -> Option<Seq<char>> {
    match o {
        Some(s) => Some(s@),
        None => None,
    }
}

/// Relies on `url::Url::parse` together with `Url::scheme` and
/// `Url::host_str`: whether the text parses, and the scheme and host
/// of the parsed URL, depend on the text alone.
#[verifier::external_body]
pub(crate) fn parse_url_parts(s: &str) -> (r: Option<(String, Option<String>)>)
    ensures
        match r {
            Some(parts) => url_parts(s@) == Some((parts.0@, opt_str_view(parts.1))),
            None => url_parts(s@) is None,
        },
{
    match url::Url::parse(s) {
        Ok(u) => Some((u.scheme().to_string(), u.host_str().map(|h| h.to_string()))),
        Err(_) => None,
    }
}

/// A host under one of the vault data-plane domains of the covered clouds.
pub open spec fn vault_host_allowed_spec(h: Seq<char>) -> bool {
    ||| seq_ends_with(h, ".vault.azure.net"@)
    ||| seq_ends_with(h, ".vault.usgovcloudapi.net"@)
    ||| seq_ends_with(h, ".vault.azure.cn"@)
}

/// A host this client may talk to: the management plane exactly, or a
/// vault data-plane host.
pub open spec fn host_allowed_spec(h: Seq<char>) -> bool {
    h == "management.azure.com"@ || vault_host_allowed_spec(h)
}

/// A URL that may leave the client: it parses, uses HTTPS, and its
/// host is allowed.
pub open spec fn allowed_url_spec(u: Seq<char>) -> bool {
    match url_parts(u) {
        Some((scheme, Some(host))) => scheme == "https"@ && host_allowed_spec(host),
        _ => false,
    }
}

/// Decides whether a host is under one of the vault domain suffixes.
pub fn vault_host_is_allowed(host: &str) -> (r: bool)
    ensures
        r == vault_host_allowed_spec(host@),
{
    str_ends_with(host, ".vault.azure.net") || str_ends_with(host, ".vault.usgovcloudapi.net")
        || str_ends_with(host, ".vault.azure.cn")
}

/// Decides whether a host may be contacted at all.
pub fn host_is_allowed(host: &str) -> (r: bool)
    ensures
        r == host_allowed_spec(host@),
{
    str_eq(host, "management.azure.com") || vault_host_is_allowed(host)
}

/// The allowlist gate: validates that a URL targets an allowed
/// endpoint over HTTPS. Called before every outbound request.
pub fn is_allowed_azure_url(url: &str) -> (r: bool)
    ensures
        r == allowed_url_spec(url@),
{
    match parse_url_parts(url) {
        None => false,
        Some((scheme, host)) => {
            if !str_eq(scheme.as_str(), "https") {
                false
            } else {
                match host {
                    None => false,
                    Some(h) => host_is_allowed(h.as_str()),
                }
            }
        },
    }
}

} // verus!
