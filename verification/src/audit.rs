//! Redaction rules for the local audit trail.
//!
//! Detail text that mentions credential-like material is replaced
//! wholesale with a redaction marker before it is stored, and entries
//! for secret-touching actions have their details redacted again on
//! export. Storage itself is the application's business; the rules
//! live here.

use vstd::prelude::*;

use crate::json::JsonValue;
use crate::models::AuditEntry;
use crate::text::{chars_of, has_substring, take_chars};

verus! {

/// Maximum character length of a detail field before truncation.
pub const MAX_DETAIL_LEN: usize = 512;

/// What `str::to_lowercase` turns a string into; the result depends
/// on the characters alone.
pub uninterp spec fn lower_of(s: Seq<char>) -> Seq<char>;

/// Relies on `str::to_lowercase`: Unicode lowercasing of the text.
#[verifier::external_body]
fn lowercase(s: &str) -> (r: String)
    ensures
        r@ == lower_of(s@),
{
    s.to_lowercase()
}

/// Lowercased text that mentions credential-like material.
pub open spec fn has_sensitive(lower: Seq<char>) -> bool {
    ||| has_substring(lower, "secret"@)
    ||| has_substring(lower, "token"@)
    ||| has_substring(lower, "password"@)
    ||| has_substring(lower, "access_key"@)
    ||| has_substring(lower, "connection_string"@)
    ||| has_substring(lower, "credential"@)
    ||| has_substring(lower, "private_key"@)
    ||| has_substring(lower, "bearer"@)
}

/// Decides whether already-lowercased text mentions any of the
/// sensitive keywords.
pub fn contains_sensitive_keyword(lower: &str) -> (r: bool)
    ensures
        r == has_sensitive(lower@),
{
    let v = chars_of(lower);
    crate::text::chars_contain(&v, "secret") || crate::text::chars_contain(&v, "token")
        || crate::text::chars_contain(&v, "password") || crate::text::chars_contain(
        &v,
        "access_key",
    ) || crate::text::chars_contain(&v, "connection_string") || crate::text::chars_contain(
        &v,
        "credential",
    ) || crate::text::chars_contain(&v, "private_key") || crate::text::chars_contain(&v, "bearer")
}

/// What a detail field is stored as: a redaction marker when the
/// lowercased text mentions credential-like material, else the text
/// truncated to the detail limit.
pub open spec fn sanitize_details_spec(details: Seq<char>) -> Seq<char> {
    if has_sensitive(lower_of(details)) {
        "[REDACTED]"@
    } else if details.len() > MAX_DETAIL_LEN {
        details.take(MAX_DETAIL_LEN as int)
    } else {
        details
    }
}

/// Redacts details that contain sensitive keywords, case
/// insensitively, and truncates what remains.
pub fn sanitize_details(details: &str) -> (r: String)
    ensures
        r@ == sanitize_details_spec(details@),
{
    let lower = lowercase(details);
    if contains_sensitive_keyword(lower.as_str()) {
        String::from_str("[REDACTED]")
    } else {
        take_chars(details, MAX_DETAIL_LEN)
    }
}

/// An action whose entries never leave with their details: anything
/// touching secrets, tokens or values.
pub open spec fn action_sensitive(action: Seq<char>) -> bool {
    ||| has_substring(action, "secret"@)
    ||| has_substring(action, "token"@)
    ||| has_substring(action, "value"@)
}

/// What an entry's details look like in a sanitized export.
pub open spec fn export_details_spec(e: AuditEntry) -> Option<Seq<char>> {
    if action_sensitive(e.action@) {
        Some("[REDACTED]"@)
    } else {
        match e.details {
            Some(d) => Some(sanitize_details_spec(d@)),
            None => None,
        }
    }
}

/// The sanitized-export JSON object of one entry.
pub open spec fn audit_entry_obj_ok(e: AuditEntry, v: JsonValue) -> bool {
    &&& (v matches JsonValue::Obj(fields) && {
        &&& fields@.len() == 7
        &&& fields@[0].0@ == "timestamp"@
        &&& (fields@[0].1 matches JsonValue::Str(s) && s@ == e.timestamp@)
        &&& fields@[1].0@ == "vaultName"@
        &&& (fields@[1].1 matches JsonValue::Str(s) && s@ == e.vault_name@)
        &&& fields@[2].0@ == "action"@
        &&& (fields@[2].1 matches JsonValue::Str(s) && s@ == e.action@)
        &&& fields@[3].0@ == "itemType"@
        &&& (fields@[3].1 matches JsonValue::Str(s) && s@ == e.item_type@)
        &&& fields@[4].0@ == "itemName"@
        &&& (fields@[4].1 matches JsonValue::Str(s) && s@ == e.item_name@)
        &&& fields@[5].0@ == "result"@
        &&& (fields@[5].1 matches JsonValue::Str(s) && s@ == e.result@)
        &&& fields@[6].0@ == "details"@
        &&& (match export_details_spec(e) {
            Some(d) => fields@[6].1 matches JsonValue::Str(s) && s@ == d,
            None => fields@[6].1 is Null,
        })
    })
}

fn sanitized_export_details(e: &AuditEntry) -> (r: JsonValue)
    ensures
        match export_details_spec(*e) {
            Some(d) => r matches JsonValue::Str(s) && s@ == d,
            None => r is Null,
        },
{
    let v = chars_of(e.action.as_str());
    let sensitive = crate::text::chars_contain(&v, "secret") || crate::text::chars_contain(
        &v,
        "token",
    ) || crate::text::chars_contain(&v, "value");
    if sensitive {
        JsonValue::Str(String::from_str("[REDACTED]"))
    } else {
        match &e.details {
            Some(d) => JsonValue::Str(sanitize_details(d.as_str())),
            None => JsonValue::Null,
        }
    }
}

/// Renders one entry as its sanitized-export JSON object.
pub fn audit_entry_json(e: &AuditEntry) -> (r: JsonValue)
    ensures
        audit_entry_obj_ok(*e, r),
{
    let mut fields: Vec<(String, JsonValue)> = Vec::new();
    fields.push((String::from_str("timestamp"), JsonValue::Str(e.timestamp.clone())));
    fields.push((String::from_str("vaultName"), JsonValue::Str(e.vault_name.clone())));
    fields.push((String::from_str("action"), JsonValue::Str(e.action.clone())));
    fields.push((String::from_str("itemType"), JsonValue::Str(e.item_type.clone())));
    fields.push((String::from_str("itemName"), JsonValue::Str(e.item_name.clone())));
    fields.push((String::from_str("result"), JsonValue::Str(e.result.clone())));
    fields.push((String::from_str("details"), sanitized_export_details(e)));
    JsonValue::Obj(fields)
}

/// Renders the whole audit trail as its sanitized-export JSON array,
/// in order.
#[verifier::loop_isolation(false)]
pub fn audit_export_value(entries: &Vec<AuditEntry>) -> (r: JsonValue)
    ensures
        (r matches JsonValue::Arr(items) && items@.len() == entries@.len() && (forall|i: int|
            0 <= i < entries@.len() ==> audit_entry_obj_ok(entries@[i], #[trigger] items@[i]))),
{
    let n = entries.len();
    let mut items: Vec<JsonValue> = Vec::new();
    let mut i: usize = 0;
    while i < n
        invariant
            i <= n,
            n == entries@.len(),
            items@.len() == i,
            forall|k: int| 0 <= k < i ==> audit_entry_obj_ok(entries@[k], #[trigger] items@[k]),
        decreases n - i,
    {
        items.push(audit_entry_json(&entries[i]));
        i += 1;
    }
    JsonValue::Arr(items)
}

fn clone_entry(e: &AuditEntry) -> (r: AuditEntry)
    ensures
        r == *e,
{
    AuditEntry {
        timestamp: e.timestamp.clone(),
        vault_name: e.vault_name.clone(),
        action: e.action.clone(),
        item_type: e.item_type.clone(),
        item_name: e.item_name.clone(),
        result: e.result.clone(),
        details: match &e.details {
            Some(d) => Some(d.clone()),
            None => None,
        },
    }
}

/// Keeps the newest `limit` entries, in order; the whole trail when
/// it is shorter.
#[verifier::loop_isolation(false)]
pub fn newest_entries(entries: &Vec<AuditEntry>, limit: usize) -> (r: Vec<AuditEntry>)
    ensures
        r@.len() == (if limit <= entries@.len() {
            limit as int
        } else {
            entries@.len() as int
        }),
        forall|k: int|
            0 <= k < r@.len() ==> #[trigger] r@[k] == entries@[entries@.len() - r@.len() + k],
{
    let n = entries.len();
    let keep = if limit < n {
        limit
    } else {
        n
    };
    let start = n - keep;
    let mut out: Vec<AuditEntry> = Vec::new();
    let mut i: usize = start;
    while i < n
        invariant
            start <= i <= n,
            n == entries@.len(),
            out@.len() == i - start,
            forall|k: int| 0 <= k < out@.len() ==> #[trigger] out@[k] == entries@[start + k],
        decreases n - i,
    {
        out.push(clone_entry(&entries[i]));
        i += 1;
    }
    out
}

} // verus!
