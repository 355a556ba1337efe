//! Input validation at the command boundary: vault URIs, item names,
//! secret values, and the helpers the audit trail uses to keep its
//! fields bounded.

use vstd::prelude::*;

use crate::allowlist::{parse_url_parts, url_parts, vault_host_allowed_spec, vault_host_is_allowed};
use crate::text::{string_from_chars, take_chars};

verus! {

/// Maximum character length for audit log fields before truncation.
pub const MAX_AUDIT_FIELD_LEN: usize = 512;

/// Maximum character length of a stored secret value.
pub const MAX_SECRET_VALUE_LEN: usize = 25000;

/// A vault URI is accepted when it parses, uses HTTPS, and its host
/// is under one of the vault domain suffixes.
pub open spec fn vault_uri_ok(uri: Seq<char>) -> bool {
    match url_parts(uri) {
        Some((scheme, Some(host))) => scheme == "https"@ && vault_host_allowed_spec(host),
        _ => false,
    }
}

/// Validates that a vault URI uses HTTPS and targets a vault
/// data-plane host, with a reason for each rejection.
pub fn validate_vault_uri(vault_uri: &str) -> (r: Result<(), String>)
    ensures
        r is Ok <==> vault_uri_ok(vault_uri@),
        match r {
            Ok(_) => true,
            Err(e) => e@ == match url_parts(vault_uri@) {
                None => "Invalid vault URI."@,
                Some((scheme, hopt)) => if scheme != "https"@ {
                    "Vault URI must use HTTPS."@
                } else if hopt is None {
                    "Vault URI must include a host."@
                } else {
                    "Vault URI must target an Azure Key Vault endpoint."@
                },
            },
        },
{
    match parse_url_parts(vault_uri) {
        None => Err(String::from_str("Invalid vault URI.")),
        Some((scheme, hopt)) => {
            if !crate::text::str_eq(scheme.as_str(), "https") {
                Err(String::from_str("Vault URI must use HTTPS."))
            } else {
                match hopt {
                    None => Err(String::from_str("Vault URI must include a host.")),
                    Some(h) => {
                        if vault_host_is_allowed(h.as_str()) {
                            Ok(())
                        } else {
                            Err(
                                String::from_str(
                                    "Vault URI must target an Azure Key Vault endpoint.",
                                ),
                            )
                        }
                    },
                }
            }
        },
    }
}

/// An ASCII letter, an ASCII digit, or a hyphen.
pub open spec fn name_char_ok(c: char) -> bool {
    ||| 48 <= c as u32 <= 57
    ||| 65 <= c as u32 <= 90
    ||| 97 <= c as u32 <= 122
    ||| c == '-'
}

/// An acceptable vault item name: 1 to 127 characters, each an ASCII
/// letter, digit or hyphen.
pub open spec fn item_name_ok(name: Seq<char>) -> bool {
    1 <= name.len() <= 127 && forall|i: int| 0 <= i < name.len() ==> name_char_ok(name[i])
}

fn name_char_allowed(c: char) -> (r: bool)
    ensures
        r == name_char_ok(c),
{
    let u = c as u32;
    (48 <= u && u <= 57) || (65 <= u && u <= 90) || (97 <= u && u <= 122) || c == '-'
}

/// Validates an item name (secret, key or certificate).
pub fn validate_item_name(name: &str) -> (r: Result<(), String>)
    ensures
        r is Ok <==> item_name_ok(name@),
        match r {
            Ok(_) => true,
            Err(e) => e@ == if name@.len() == 0 || name@.len() > 127 {
                "Item name must be between 1 and 127 characters."@
            } else {
                "Item name may only contain letters, numbers, and hyphens."@
            },
        },
{
    let n = name.unicode_len();
    if n == 0 || n > 127 {
        return Err(String::from_str("Item name must be between 1 and 127 characters."));
    }
    let mut i: usize = 0;
    while i < n
        invariant
            i <= n,
            1 <= n <= 127,
            n == name@.len(),
            forall|k: int| 0 <= k < i ==> name_char_ok(name@[k]),
        decreases n - i,
    {
        if !name_char_allowed(name.get_char(i)) {
            return Err(String::from_str("Item name may only contain letters, numbers, and hyphens."));
        }
        i += 1;
    }
    Ok(())
}

/// An acceptable secret value: 1 to 25,000 characters.
pub open spec fn secret_value_ok(value: Seq<char>) -> bool {
    1 <= value.len() <= MAX_SECRET_VALUE_LEN
}

/// Validates a secret value's size before it is sent to the vault.
pub fn validate_secret_value(value: &str) -> (r: Result<(), String>)
    ensures
        r is Ok <==> secret_value_ok(value@),
        match r {
            Ok(_) => true,
            Err(e) => e@ == "Secret value must be between 1 and 25,000 characters."@,
        },
{
    let n = value.unicode_len();
    if n == 0 || n > MAX_SECRET_VALUE_LEN {
        Err(String::from_str("Secret value must be between 1 and 25,000 characters."))
    } else {
        Ok(())
    }
}

/// The input with every leading repetition of `https://` removed.
pub open spec fn strip_https(s: Seq<char>) -> Seq<char>
    decreases s.len(),
{
    if crate::text::seq_starts_with(s, "https://"@) && s.len() >= 8 {
        strip_https(s.skip(8))
    } else {
        s
    }
}

/// The prefix of the input before its first dot.
pub open spec fn prefix_to_dot(s: Seq<char>) -> Seq<char>
    decreases s.len(),
{
    if s.len() == 0 {
        s
    } else if s[0] == '.' {
        Seq::empty()
    } else {
        seq![s[0]] + prefix_to_dot(s.drop_first())
    }
}

proof fn lemma_prefix_to_dot_take(s: Seq<char>, k: int)
    requires
        0 <= k <= s.len(),
        forall|i: int| 0 <= i < k ==> s[i] != '.',
        k == s.len() || s[k] == '.',
    ensures
        prefix_to_dot(s) == s.take(k),
    decreases k,
{
    if s.len() == 0 {
        assert(s.take(k) =~= s);
    } else if k == 0 {
        assert(s.take(0) =~= Seq::<char>::empty());
    } else {
        lemma_prefix_to_dot_take(s.drop_first(), k - 1);
        assert(seq![s[0]] + s.drop_first().take(k - 1) =~= s.take(k));
    }
}

/// Extracts the vault name from its URI: the first host label after
/// the scheme prefix.
#[verifier::loop_isolation(false)]
pub fn extract_vault_name(vault_uri: &str) -> (r: String)
    ensures
        r@ == prefix_to_dot(strip_https(vault_uri@)),
{
    let n = vault_uri.unicode_len();
    let mut idx: usize = 0;
    let mut stop: bool = false;
    proof {
        assert(vault_uri@.skip(0) =~= vault_uri@);
    }
    while n >= 8 && idx <= n - 8 && !stop
        invariant
            idx <= n,
            n == vault_uri@.len(),
            strip_https(vault_uri@) == strip_https(vault_uri@.skip(idx as int)),
            stop ==> !crate::text::seq_starts_with(vault_uri@.skip(idx as int), "https://"@),
        decreases n - idx + (if stop { 0int } else { 1int }),
    {
        let tail = vault_uri.substring_char(idx, n);
        if crate::text::str_starts_with(tail, "https://") {
            proof {
                assert(vault_uri@.skip(idx as int).skip(8) =~= vault_uri@.skip(idx + 8 as int));
            }
            idx += 8;
        } else {
            stop = true;
        }
    }
    proof {
        let rest = vault_uri@.skip(idx as int);
        assert(strip_https(rest) == rest);
    }
    let mut v: Vec<char> = Vec::new();
    let mut j: usize = idx;
    while j < n && vault_uri.get_char(j) != '.'
        invariant
            idx <= j <= n,
            v@ == vault_uri@.skip(idx as int).take(j - idx),
            forall|k: int| idx <= k < j ==> vault_uri@[k] != '.',
        decreases n - j,
    {
        v.push(vault_uri.get_char(j));
        proof {
            let rest = vault_uri@.skip(idx as int);
            assert(rest.take(j + 1 - idx) =~= rest.take(j - idx).push(vault_uri@[j as int]));
        }
        j += 1;
    }
    proof {
        let rest = vault_uri@.skip(idx as int);
        lemma_prefix_to_dot_take(rest, j - idx);
    }
    string_from_chars(&v)
}

/// Truncates a string to the audit field length limit.
pub fn truncate_for_audit(value: String) -> (r: String)
    ensures
        value@.len() <= MAX_AUDIT_FIELD_LEN ==> r@ == value@,
        value@.len() > MAX_AUDIT_FIELD_LEN ==> r@ == value@.take(MAX_AUDIT_FIELD_LEN as int),
{
    take_chars(value.as_str(), MAX_AUDIT_FIELD_LEN)
}

/// The audit status word for an operation's outcome.
pub fn result_status<T>(result: &Result<T, String>) -> (r: &'static str)
    ensures
        result is Ok ==> r@ == "success"@,
        result is Err ==> r@ == "error"@,
{
    if result.is_ok() {
        "success"
    } else {
        "error"
    }
}

} // verus!
