//! Parsing of management- and data-plane responses into typed
//! records, and the request URLs and payloads the client sends.
//!
//! Everything here works on the library's JSON model; the application
//! only moves bytes.

use vstd::prelude::*;

use crate::json::{get_bool, get_field, get_str, get_u64, spec_get, spec_get_bool, spec_get_str,
    spec_get_u64, JsonValue};
use crate::models::{CertificateItem, CreateSecretRequest, KeyItem, KeyVaultInfo, SecretItem,
    SecretValue, Subscription, Tenant};
use crate::text::{push_str_chars, str_eq, string_from_chars};

verus! {

/// What chrono renders a Unix epoch as: `None` when the instant is
/// out of chrono's range, else its RFC 3339 text.
pub uninterp spec fn rfc3339_of(epoch: u64) -> Option<Seq<char>>;

/// Relies on chrono's `DateTime::from_timestamp` and `to_rfc3339`:
/// whether an epoch is representable, and its rendered text, depend
/// on the epoch alone.
#[verifier::external_body]
fn epoch_to_rfc3339_raw(epoch: u64) -> (r: Option<String>)
    ensures
        match r {
            Some(s) => rfc3339_of(epoch) == Some(s@),
            None => rfc3339_of(epoch) is None,
        },
{
    chrono::DateTime::from_timestamp(epoch as i64, 0).map(|dt| dt.to_rfc3339())
}

/// The RFC 3339 rendering of an optional epoch.
pub open spec fn epoch_to_rfc3339_spec(epoch: Option<u64>) -> Option<Seq<char>> {
    match epoch {
        Some(ts) => rfc3339_of(ts),
        None => None,
    }
}

/// Converts a Unix epoch timestamp to an RFC 3339 string.
pub fn epoch_to_rfc3339(epoch: Option<u64>) -> (r: Option<String>)
    ensures
        match r {
            Some(s) => epoch_to_rfc3339_spec(epoch) == Some(s@),
            None => epoch_to_rfc3339_spec(epoch) is None,
        },
{
    match epoch {
        Some(ts) => epoch_to_rfc3339_raw(ts),
        None => None,
    }
}

/// What chrono reads an RFC 3339 string as: `None` when the text does
/// not parse, else the Unix epoch of the instant.
pub uninterp spec fn rfc3339_epoch(s: Seq<char>) -> Option<int>;

/// Relies on chrono's `DateTime::parse_from_rfc3339` and `timestamp`:
/// whether the text parses, and the instant it names, depend on the
/// text alone.
#[verifier::external_body]
fn parse_rfc3339_epoch(s: &str) -> (r: Option<i64>)
    ensures
        match r {
            Some(t) => rfc3339_epoch(s@) == Some(t as int),
            None => rfc3339_epoch(s@) is None,
        },
{
    match chrono::DateTime::parse_from_rfc3339(s) {
        Ok(dt) => Some(dt.timestamp()),
        Err(_) => None,
    }
}

/// The segment of `s` before the first `sep`, or all of `s`.
pub open spec fn seg_before(s: Seq<char>, sep: char) -> Seq<char>
    decreases s.len(),
{
    if s.len() == 0 {
        s
    } else if s[0] == sep {
        Seq::empty()
    } else {
        seq![s[0]] + seg_before(s.drop_first(), sep)
    }
}

/// The segments of `s` between occurrences of `sep`, in order; always
/// at least one (possibly empty) segment.
pub open spec fn split_char(s: Seq<char>, sep: char) -> Seq<Seq<char>>
    decreases s.len(),
{
    let first = seg_before(s, sep);
    if first.len() >= s.len() {
        seq![first]
    } else {
        seq![first] + split_char(s.skip(first.len() as int + 1), sep)
    }
}

proof fn lemma_seg_before_prefix(cur: Seq<char>, rest: Seq<char>, sep: char)
    requires
        forall|i: int| 0 <= i < cur.len() ==> cur[i] != sep,
    ensures
        seg_before(cur + rest, sep) == cur + seg_before(rest, sep),
    decreases cur.len(),
{
    if cur.len() == 0 {
        assert(cur + rest =~= rest);
        assert(cur + seg_before(rest, sep) =~= seg_before(rest, sep));
    } else {
        let whole = cur + rest;
        assert(whole[0] == cur[0]);
        assert(whole.drop_first() =~= cur.drop_first() + rest);
        lemma_seg_before_prefix(cur.drop_first(), rest, sep);
        assert(seq![cur[0]] + (cur.drop_first() + seg_before(rest, sep)) =~= cur + seg_before(
            rest,
            sep,
        ));
    }
}

proof fn lemma_split_end(cur: Seq<char>, sep: char)
    requires
        forall|i: int| 0 <= i < cur.len() ==> cur[i] != sep,
    ensures
        split_char(cur, sep) == seq![cur],
{
    lemma_seg_before_prefix(cur, Seq::empty(), sep);
    assert(cur + Seq::<char>::empty() =~= cur);
    assert(seg_before(cur, sep) =~= cur);
}

proof fn lemma_split_step(cur: Seq<char>, rest: Seq<char>, sep: char)
    requires
        forall|i: int| 0 <= i < cur.len() ==> cur[i] != sep,
        rest.len() > 0,
        rest[0] == sep,
    ensures
        split_char(cur + rest, sep) == seq![cur] + split_char(rest.drop_first(), sep),
{
    let whole = cur + rest;
    lemma_seg_before_prefix(cur, rest, sep);
    assert(seg_before(rest, sep) =~= Seq::<char>::empty());
    assert(seg_before(whole, sep) =~= cur);
    assert(seg_before(whole, sep).len() < whole.len());
    assert(whole.skip(cur.len() as int + 1) =~= rest.drop_first());
}

/// Splits a string on a slash into its segments.
#[verifier::loop_isolation(false)]
fn split_slash(s: &str) -> (r: Vec<String>)
    ensures
        r@.map_values(|x: String| x@) == split_char(s@, '/'),
{
    let n = s.unicode_len();
    let mut done: Vec<String> = Vec::new();
    let mut cur: Vec<char> = Vec::new();
    let mut i: usize = 0;
    proof {
        assert(cur@ + s@.skip(0) =~= s@);
        assert(done@.map_values(|x: String| x@) =~= Seq::<Seq<char>>::empty());
    }
    while i < n
        invariant
            i <= n,
            n == s@.len(),
            forall|k: int| 0 <= k < cur@.len() ==> cur@[k] != '/',
            split_char(s@, '/') == done@.map_values(|x: String| x@) + split_char(
                cur@ + s@.skip(i as int),
                '/',
            ),
        decreases n - i,
    {
        let c = s.get_char(i);
        proof {
            assert(s@.skip(i as int)[0] == s@[i as int]);
        }
        if c == '/' {
            proof {
                lemma_split_step(cur@, s@.skip(i as int), '/');
                assert(s@.skip(i as int).drop_first() =~= s@.skip(i + 1 as int));
            }
            let seg = string_from_chars(&cur);
            done.push(seg);
            proof {
                assert(done@.map_values(|x: String| x@) =~= done@.drop_last().map_values(
                    |x: String| x@,
                ).push(cur@));
            }
            cur = Vec::new();
            proof {
                assert(cur@ + s@.skip(i + 1 as int) =~= s@.skip(i + 1 as int));
            }
        } else {
            proof {
                assert(cur@.push(c) + s@.skip(i + 1 as int) =~= cur@ + s@.skip(i as int));
            }
            cur.push(c);
        }
        i += 1;
    }
    proof {
        assert(cur@ + s@.skip(n as int) =~= cur@);
        lemma_split_end(cur@, '/');
    }
    let seg = string_from_chars(&cur);
    done.push(seg);
    proof {
        assert(done@.map_values(|x: String| x@) =~= done@.drop_last().map_values(|x: String| x@)
            + seq![cur@]);
    }
    done
}

/// The entity name among `/`-separated segments: the segment after
/// the first one equal to `entity`, the last segment when none
/// matches, empty where nothing is there to take.
pub open spec fn name_from_parts(parts: Seq<Seq<char>>, entity: Seq<char>) -> Seq<char>
    decreases parts.len(),
{
    if parts.len() == 0 {
        Seq::empty()
    } else if parts[0] == entity {
        if parts.len() >= 2 {
            parts[1]
        } else {
            Seq::empty()
        }
    } else if parts.len() == 1 {
        parts[0]
    } else {
        name_from_parts(parts.drop_first(), entity)
    }
}

/// The entity name in a vault item identifier URL.
pub open spec fn name_from_id_spec(id: Seq<char>, entity: Seq<char>) -> Seq<char> {
    name_from_parts(split_char(id, '/'), entity)
}

proof fn lemma_name_from_parts_advance(parts: Seq<Seq<char>>, entity: Seq<char>, k: int)
    requires
        0 <= k < parts.len(),
        forall|j: int| 0 <= j < k ==> parts[j] != entity,
    ensures
        name_from_parts(parts, entity) == name_from_parts(parts.skip(k), entity),
    decreases k,
{
    if k == 0 {
        assert(parts.skip(0) =~= parts);
    } else {
        lemma_name_from_parts_advance(parts, entity, k - 1);
        let rem = parts.skip(k - 1);
        assert(rem[0] == parts[k - 1]);
        assert(rem.len() >= 2);
        assert(rem.drop_first() =~= parts.skip(k));
    }
}

/// Extracts the entity name from a vault item identifier URL: the
/// segment after the entity kind, with the last segment as fallback.
#[verifier::loop_isolation(false)]
pub fn extract_name_from_id(id: &str, entity: &str) -> (r: String)
    ensures
        r@ == name_from_id_spec(id@, entity@),
{
    let parts = split_slash(id);
    let ghost pviews = parts@.map_values(|x: String| x@);
    let n = parts.len();
    proof {
        assert(pviews.len() == n);
        assert(n >= 1);
    }
    let mut j: usize = 0;
    while j < n
        invariant
            j <= n,
            forall|k: int| 0 <= k < j ==> pviews[k] != entity@,
        decreases n - j,
    {
        if str_eq(parts[j].as_str(), entity) {
            proof {
                lemma_name_from_parts_advance(pviews, entity@, j as int);
                assert(pviews.skip(j as int)[0] == pviews[j as int]);
            }
            if j + 1 < n {
                proof {
                    assert(pviews.skip(j as int)[1] == pviews[j + 1 as int]);
                }
                return parts[j + 1].clone();
            } else {
                proof {
                    assert(pviews.skip(j as int).len() == 1);
                }
                return String::new();
            }
        }
        j += 1;
    }
    proof {
        lemma_name_from_parts_advance(pviews, entity@, n - 1 as int);
        assert(pviews.skip(n - 1 as int).len() == 1);
        assert(pviews.skip(n - 1 as int)[0] == pviews[n - 1 as int]);
    }
    parts[n - 1].clone()
}

/// The segment after the first one equal to `key`, empty when none
/// matches or nothing follows.
pub open spec fn segment_after(parts: Seq<Seq<char>>, key: Seq<char>) -> Seq<char>
    decreases parts.len(),
{
    if parts.len() == 0 {
        Seq::empty()
    } else if parts[0] == key {
        if parts.len() >= 2 {
            parts[1]
        } else {
            Seq::empty()
        }
    } else {
        segment_after(parts.drop_first(), key)
    }
}

/// The resource group named in an ARM resource identifier.
pub open spec fn resource_group_spec(id: Seq<char>) -> Seq<char> {
    segment_after(split_char(id, '/'), "resourceGroups"@)
}

proof fn lemma_segment_after_advance(parts: Seq<Seq<char>>, key: Seq<char>, k: int)
    requires
        0 <= k <= parts.len(),
        forall|j: int| 0 <= j < k ==> parts[j] != key,
    ensures
        segment_after(parts, key) == segment_after(parts.skip(k), key),
    decreases k,
{
    if k == 0 {
        assert(parts.skip(0) =~= parts);
    } else {
        lemma_segment_after_advance(parts, key, k - 1);
        let rem = parts.skip(k - 1);
        assert(rem[0] == parts[k - 1]);
        assert(rem.drop_first() =~= parts.skip(k));
    }
}

/// Extracts the resource group from an ARM resource identifier.
#[verifier::loop_isolation(false)]
pub fn extract_resource_group(id: &str) -> (r: String)
    ensures
        r@ == resource_group_spec(id@),
{
    let parts = split_slash(id);
    let ghost pviews = parts@.map_values(|x: String| x@);
    let n = parts.len();
    let mut j: usize = 0;
    while j < n
        invariant
            j <= n,
            n == pviews.len(),
            forall|k: int| 0 <= k < j ==> pviews[k] != "resourceGroups"@,
        decreases n - j,
    {
        if str_eq(parts[j].as_str(), "resourceGroups") {
            proof {
                lemma_segment_after_advance(pviews, "resourceGroups"@, j as int);
                assert(pviews.skip(j as int)[0] == pviews[j as int]);
            }
            if j + 1 < n {
                proof {
                    assert(pviews.skip(j as int)[1] == pviews[j + 1 as int]);
                }
                return parts[j + 1].clone();
            } else {
                proof {
                    assert(pviews.skip(j as int).len() == 1);
                }
                return String::new();
            }
        }
        j += 1;
    }
    proof {
        lemma_segment_after_advance(pviews, "resourceGroups"@, n as int);
        assert(pviews.skip(n as int).len() == 0);
    }
    String::new()
}

/// The `attributes` object of an item, `null` when absent.
pub open spec fn attrs_of(v: JsonValue) -> JsonValue {
    match spec_get(v, "attributes"@) {
        Some(a) => a,
        None => JsonValue::Null,
    }
}

/// An attribute timestamp rendered as RFC 3339, when present.
pub open spec fn attr_time(v: JsonValue, key: Seq<char>) -> Option<Seq<char>> {
    match spec_get_u64(attrs_of(v), key) {
        Some(ts) => rfc3339_of(ts),
        None => None,
    }
}

/// The `enabled` attribute; items default to enabled.
pub open spec fn attr_enabled(v: JsonValue) -> bool {
    match spec_get_bool(attrs_of(v), "enabled"@) {
        Some(b) => b,
        None => true,
    }
}

/// An optional owned string agrees with an optional text value.
pub open spec fn opt_str_eq(o: Option<String>, s: Option<Seq<char>>) -> bool {
    match (o, s) {
        (Some(a), Some(b)) => a@ == b,
        (None, None) => true,
        _ => false,
    }
}

/// The views of a pair of owned strings.
pub open spec fn pair_views(p: (String, String)) -> (Seq<char>, Seq<char>) {
    (p.0@, p.1@)
}

/// The fields of an object as string pairs, in document order; `None`
/// as soon as any value is not a string.
pub open spec fn str_entries(fields: Seq<(String, JsonValue)>) -> Option<
    Seq<(Seq<char>, Seq<char>)>,
>
    decreases fields.len(),
{
    if fields.len() == 0 {
        Some(Seq::empty())
    } else {
        match str_entries(fields.drop_last()) {
            None => None,
            Some(rest) => match fields.last().1 {
                JsonValue::Str(s) => Some(rest.push((fields.last().0@, s@))),
                _ => None,
            },
        }
    }
}

/// The `tags` field as string pairs, when it is an object of strings.
pub open spec fn tags_of(v: JsonValue) -> Option<Seq<(Seq<char>, Seq<char>)>> {
    match spec_get(v, "tags"@) {
        Some(JsonValue::Obj(fields)) => str_entries(fields@),
        _ => None,
    }
}

/// Optional owned tags agree with an optional pair sequence.
pub open spec fn opt_tags_eq(o: Option<Vec<(String, String)>>, t: Option<
    Seq<(Seq<char>, Seq<char>)>,
>) -> bool {
    match (o, t) {
        (Some(v), Some(s)) => v@.map_values(|p: (String, String)| pair_views(p)) == s,
        (None, None) => true,
        _ => false,
    }
}

/// The string elements of an array, in order, anything else skipped.
pub open spec fn str_items(items: Seq<JsonValue>) -> Seq<Seq<char>>
    decreases items.len(),
{
    if items.len() == 0 {
        Seq::empty()
    } else {
        str_items(items.drop_last()) + (match items.last() {
            JsonValue::Str(s) => seq![s@],
            _ => Seq::empty(),
        })
    }
}

/// The `key_ops` field as strings, when it is an array.
pub open spec fn key_ops_of(v: JsonValue) -> Option<Seq<Seq<char>>> {
    match spec_get(v, "key_ops"@) {
        Some(JsonValue::Arr(items)) => Some(str_items(items@)),
        _ => None,
    }
}

fn get_str_or_empty(v: &JsonValue, key: &str) -> (r: String)
    ensures
        r@ == crate::auth::str_or_empty(spec_get_str(*v, key@)),
{
    match get_str(v, key) {
        Some(s) => s.clone(),
        None => String::new(),
    }
}

fn get_opt_string(v: &JsonValue, key: &str) -> (r: Option<String>)
    ensures
        opt_str_eq(r, spec_get_str(*v, key@)),
{
    match get_str(v, key) {
        Some(s) => Some(s.clone()),
        None => None,
    }
}

fn attr_time_exec(v: &JsonValue, key: &str) -> (r: Option<String>)
    ensures
        opt_str_eq(r, attr_time(*v, key@)),
{
    match get_field(v, "attributes") {
        Some(a) => match get_u64(a, key) {
            Some(ts) => epoch_to_rfc3339_raw(ts),
            None => None,
        },
        None => None,
    }
}

fn attr_enabled_exec(v: &JsonValue) -> (r: bool)
    ensures
        r == attr_enabled(*v),
{
    match get_field(v, "attributes") {
        Some(a) => match get_bool(a, "enabled") {
            Some(b) => b,
            None => true,
        },
        None => true,
    }
}

proof fn lemma_str_entries_none(fields: Seq<(String, JsonValue)>, j: int)
    requires
        0 <= j <= fields.len(),
        str_entries(fields.take(j)) is None,
    ensures
        str_entries(fields) is None,
    decreases fields.len() - j,
{
    if j == fields.len() {
        assert(fields.take(j) =~= fields);
    } else {
        assert(fields.take(j + 1).drop_last() =~= fields.take(j));
        lemma_str_entries_none(fields, j + 1);
    }
}

#[verifier::loop_isolation(false)]
fn str_entries_exec(fields: &Vec<(String, JsonValue)>) -> (r: Option<Vec<(String, String)>>)
    ensures
        match r {
            Some(out) => str_entries(fields@) == Some(
                out@.map_values(|p: (String, String)| pair_views(p)),
            ),
            None => str_entries(fields@) is None,
        },
{
    let n = fields.len();
    let mut out: Vec<(String, String)> = Vec::new();
    let mut k: usize = 0;
    proof {
        assert(fields@.take(0) =~= Seq::<(String, JsonValue)>::empty());
        assert(out@.map_values(|p: (String, String)| pair_views(p)) =~= Seq::<
            (Seq<char>, Seq<char>),
        >::empty());
    }
    while k < n
        invariant
            k <= n,
            n == fields@.len(),
            str_entries(fields@.take(k as int)) == Some(
                out@.map_values(|p: (String, String)| pair_views(p)),
            ),
        decreases n - k,
    {
        proof {
            let t = fields@.take(k + 1 as int);
            assert(t.drop_last() =~= fields@.take(k as int));
            assert(t.last() == fields@[k as int]);
        }
        match &fields[k].1 {
            JsonValue::Str(s) => {
                out.push((fields[k].0.clone(), s.clone()));
                proof {
                    assert(out@.map_values(|p: (String, String)| pair_views(p))
                        =~= out@.drop_last().map_values(|p: (String, String)| pair_views(p)).push(
                        pair_views(out@.last()),
                    ));
                }
            },
            _ => {
                proof {
                    lemma_str_entries_none(fields@, k + 1 as int);
                }
                return None;
            },
        }
        k += 1;
    }
    proof {
        assert(fields@.take(n as int) =~= fields@);
    }
    Some(out)
}

fn tags_exec(v: &JsonValue) -> (r: Option<Vec<(String, String)>>)
    ensures
        opt_tags_eq(r, tags_of(*v)),
{
    match get_field(v, "tags") {
        Some(JsonValue::Obj(fields)) => str_entries_exec(fields),
        _ => None,
    }
}

#[verifier::loop_isolation(false)]
fn str_items_exec(items: &Vec<JsonValue>) -> (r: Vec<String>)
    ensures
        r@.map_values(|x: String| x@) == str_items(items@),
{
    let n = items.len();
    let mut out: Vec<String> = Vec::new();
    let mut k: usize = 0;
    proof {
        assert(items@.take(0) =~= Seq::<JsonValue>::empty());
        assert(out@.map_values(|x: String| x@) =~= Seq::<Seq<char>>::empty());
    }
    while k < n
        invariant
            k <= n,
            n == items@.len(),
            out@.map_values(|x: String| x@) == str_items(items@.take(k as int)),
        decreases n - k,
    {
        proof {
            let t = items@.take(k + 1 as int);
            assert(t.drop_last() =~= items@.take(k as int));
            assert(t.last() == items@[k as int]);
        }
        match &items[k] {
            JsonValue::Str(s) => {
                out.push(s.clone());
                proof {
                    assert(out@.map_values(|x: String| x@) =~= out@.drop_last().map_values(
                        |x: String| x@,
                    ).push(out@.last()@));
                    assert(str_items(items@.take(k + 1 as int)) =~= str_items(
                        items@.take(k as int),
                    ).push(s@));
                }
            },
            _ => {
                proof {
                    assert(str_items(items@.take(k + 1 as int)) =~= str_items(
                        items@.take(k as int),
                    ));
                }
            },
        }
        k += 1;
    }
    proof {
        assert(items@.take(n as int) =~= items@);
    }
    out
}

fn key_ops_exec(v: &JsonValue) -> (r: Option<Vec<String>>)
    ensures
        match r {
            Some(ops) => key_ops_of(*v) == Some(ops@.map_values(|x: String| x@)),
            None => key_ops_of(*v) is None,
        },
{
    match get_field(v, "key_ops") {
        Some(JsonValue::Arr(items)) => Some(str_items_exec(items)),
        _ => None,
    }
}

/// The relation between a raw secret object and its typed record.
pub open spec fn secret_item_ok(v: JsonValue, item: SecretItem) -> bool {
    &&& item.id@ == crate::auth::str_or_empty(spec_get_str(v, "id"@))
    &&& item.name@ == name_from_id_spec(
        crate::auth::str_or_empty(spec_get_str(v, "id"@)),
        "secrets"@,
    )
    &&& item.enabled == attr_enabled(v)
    &&& opt_str_eq(item.created, attr_time(v, "created"@))
    &&& opt_str_eq(item.updated, attr_time(v, "updated"@))
    &&& opt_str_eq(item.expires, attr_time(v, "exp"@))
    &&& opt_str_eq(item.not_before, attr_time(v, "nbf"@))
    &&& opt_str_eq(item.content_type, spec_get_str(v, "contentType"@))
    &&& opt_tags_eq(item.tags, tags_of(v))
    &&& item.managed == spec_get_bool(v, "managed"@)
}

/// Parses one raw secret object into its typed record.
pub fn parse_secret_item(v: &JsonValue) -> (item: SecretItem)
    ensures
        secret_item_ok(*v, item),
{
    let id = get_str_or_empty(v, "id");
    let name = extract_name_from_id(id.as_str(), "secrets");
    SecretItem {
        id,
        name,
        enabled: attr_enabled_exec(v),
        created: attr_time_exec(v, "created"),
        updated: attr_time_exec(v, "updated"),
        expires: attr_time_exec(v, "exp"),
        not_before: attr_time_exec(v, "nbf"),
        content_type: get_opt_string(v, "contentType"),
        tags: tags_exec(v),
        managed: get_bool(v, "managed"),
    }
}

/// Parses the `value` array of one listing page into secret records.
#[verifier::loop_isolation(false)]
pub fn parse_secret_items(body: &JsonValue) -> (r: Vec<SecretItem>)
    ensures
        match spec_get(*body, "value"@) {
            Some(JsonValue::Arr(items)) => r@.len() == items@.len() && (forall|i: int|
                0 <= i < items@.len() ==> secret_item_ok(items@[i], #[trigger] r@[i])),
            _ => r@.len() == 0,
        },
{
    let mut out: Vec<SecretItem> = Vec::new();
    match crate::json::get_arr(body, "value") {
        Some(items) => {
            let n = items.len();
            let mut i: usize = 0;
            while i < n
                invariant
                    i <= n,
                    n == items@.len(),
                    out@.len() == i,
                    forall|k: int| 0 <= k < i ==> secret_item_ok(items@[k], #[trigger] out@[k]),
                decreases n - i,
            {
                out.push(parse_secret_item(&items[i]));
                i += 1;
            }
            out
        },
        None => out,
    }
}

/// Parses a fetched secret value, keeping the requested name.
pub fn parse_secret_value(body: &JsonValue, name: &str) -> (r: SecretValue)
    ensures
        r.value@ == crate::auth::str_or_empty(spec_get_str(*body, "value"@)),
        r.id@ == crate::auth::str_or_empty(spec_get_str(*body, "id"@)),
        r.name@ == name@,
{
    SecretValue {
        value: get_str_or_empty(body, "value"),
        id: get_str_or_empty(body, "id"),
        name: String::from_str(name),
    }
}

/// Reads the latest version's metadata out of a versions listing: the
/// first entry, or an error naming the secret when the listing is
/// empty.
pub fn parse_first_secret(body: &JsonValue, name: &str) -> (r: Result<SecretItem, String>)
    ensures
        match spec_get(*body, "value"@) {
            Some(JsonValue::Arr(items)) => if items@.len() > 0 {
                r matches Ok(item) && secret_item_ok(items@[0], item)
            } else {
                r matches Err(e) && e@ == "Secret metadata not found for '"@ + name@ + "'"@
            },
            _ => r matches Err(e) && e@ == "Secret metadata not found for '"@ + name@ + "'"@,
        },
{
    match crate::json::get_arr(body, "value") {
        Some(items) => {
            if items.len() > 0 {
                return Ok(parse_secret_item(&items[0]));
            }
            let mut out: Vec<char> = Vec::new();
            push_str_chars(&mut out, "Secret metadata not found for '");
            push_str_chars(&mut out, name);
            push_str_chars(&mut out, "'");
            proof {
                assert(out@ =~= "Secret metadata not found for '"@ + name@ + "'"@);
            }
            Err(string_from_chars(&out))
        },
        None => {
            let mut out: Vec<char> = Vec::new();
            push_str_chars(&mut out, "Secret metadata not found for '");
            push_str_chars(&mut out, name);
            push_str_chars(&mut out, "'");
            proof {
                assert(out@ =~= "Secret metadata not found for '"@ + name@ + "'"@);
            }
            Err(string_from_chars(&out))
        },
    }
}

/// The relation between a raw key object and its typed record.
pub open spec fn key_item_ok(v: JsonValue, item: KeyItem) -> bool {
    &&& item.id@ == crate::auth::str_or_empty(spec_get_str(v, "kid"@))
    &&& item.name@ == name_from_id_spec(
        crate::auth::str_or_empty(spec_get_str(v, "kid"@)),
        "keys"@,
    )
    &&& item.enabled == attr_enabled(v)
    &&& opt_str_eq(item.created, attr_time(v, "created"@))
    &&& opt_str_eq(item.updated, attr_time(v, "updated"@))
    &&& opt_str_eq(item.expires, attr_time(v, "exp"@))
    &&& opt_str_eq(item.not_before, attr_time(v, "nbf"@))
    &&& opt_str_eq(item.key_type, spec_get_str(v, "kty"@))
    &&& match (item.key_ops, key_ops_of(v)) {
        (Some(ops), Some(s)) => ops@.map_values(|x: String| x@) == s,
        (None, None) => true,
        _ => false,
    }
    &&& opt_tags_eq(item.tags, tags_of(v))
    &&& item.managed == spec_get_bool(v, "managed"@)
}

/// Parses one raw key object into its typed record.
pub fn parse_key_item(v: &JsonValue) -> (item: KeyItem)
    ensures
        key_item_ok(*v, item),
{
    let id = get_str_or_empty(v, "kid");
    let name = extract_name_from_id(id.as_str(), "keys");
    KeyItem {
        id,
        name,
        enabled: attr_enabled_exec(v),
        created: attr_time_exec(v, "created"),
        updated: attr_time_exec(v, "updated"),
        expires: attr_time_exec(v, "exp"),
        not_before: attr_time_exec(v, "nbf"),
        key_type: get_opt_string(v, "kty"),
        key_ops: key_ops_exec(v),
        tags: tags_exec(v),
        managed: get_bool(v, "managed"),
    }
}

/// Parses the `value` array of one listing page into key records.
#[verifier::loop_isolation(false)]
pub fn parse_key_items(body: &JsonValue) -> (r: Vec<KeyItem>)
    ensures
        match spec_get(*body, "value"@) {
            Some(JsonValue::Arr(items)) => r@.len() == items@.len() && (forall|i: int|
                0 <= i < items@.len() ==> key_item_ok(items@[i], #[trigger] r@[i])),
            _ => r@.len() == 0,
        },
{
    let mut out: Vec<KeyItem> = Vec::new();
    match crate::json::get_arr(body, "value") {
        Some(items) => {
            let n = items.len();
            let mut i: usize = 0;
            while i < n
                invariant
                    i <= n,
                    n == items@.len(),
                    out@.len() == i,
                    forall|k: int| 0 <= k < i ==> key_item_ok(items@[k], #[trigger] out@[k]),
                decreases n - i,
            {
                out.push(parse_key_item(&items[i]));
                i += 1;
            }
            out
        },
        None => out,
    }
}

/// The certificate subject, nested under the issuance policy.
pub open spec fn cert_subject_of(v: JsonValue) -> Option<Seq<char>> {
    match spec_get(v, "policy"@) {
        Some(p) => match spec_get(p, "x509_props"@) {
            Some(x) => spec_get_str(x, "subject"@),
            None => None,
        },
        None => None,
    }
}

/// The relation between a raw certificate object and its typed record.
pub open spec fn certificate_item_ok(v: JsonValue, item: CertificateItem) -> bool {
    &&& item.id@ == crate::auth::str_or_empty(spec_get_str(v, "id"@))
    &&& item.name@ == name_from_id_spec(
        crate::auth::str_or_empty(spec_get_str(v, "id"@)),
        "certificates"@,
    )
    &&& item.enabled == attr_enabled(v)
    &&& opt_str_eq(item.created, attr_time(v, "created"@))
    &&& opt_str_eq(item.updated, attr_time(v, "updated"@))
    &&& opt_str_eq(item.expires, attr_time(v, "exp"@))
    &&& opt_str_eq(item.not_before, attr_time(v, "nbf"@))
    &&& opt_str_eq(item.subject, cert_subject_of(v))
    &&& opt_str_eq(item.thumbprint, spec_get_str(v, "x5t"@))
    &&& opt_tags_eq(item.tags, tags_of(v))
}

/// Parses one raw certificate object into its typed record.
pub fn parse_certificate_item(v: &JsonValue) -> (item: CertificateItem)
    ensures
        certificate_item_ok(*v, item),
{
    let id = get_str_or_empty(v, "id");
    let name = extract_name_from_id(id.as_str(), "certificates");
    let subject = match get_field(v, "policy") {
        Some(p) => match get_field(p, "x509_props") {
            Some(x) => get_opt_string(x, "subject"),
            None => None,
        },
        None => None,
    };
    CertificateItem {
        id,
        name,
        enabled: attr_enabled_exec(v),
        created: attr_time_exec(v, "created"),
        updated: attr_time_exec(v, "updated"),
        expires: attr_time_exec(v, "exp"),
        not_before: attr_time_exec(v, "nbf"),
        subject,
        thumbprint: get_opt_string(v, "x5t"),
        tags: tags_exec(v),
    }
}

/// Parses the `value` array of one listing page into certificate
/// records.
#[verifier::loop_isolation(false)]
pub fn parse_certificate_items(body: &JsonValue) -> (r: Vec<CertificateItem>)
    ensures
        match spec_get(*body, "value"@) {
            Some(JsonValue::Arr(items)) => r@.len() == items@.len() && (forall|i: int|
                0 <= i < items@.len() ==> certificate_item_ok(items@[i], #[trigger] r@[i])),
            _ => r@.len() == 0,
        },
{
    let mut out: Vec<CertificateItem> = Vec::new();
    match crate::json::get_arr(body, "value") {
        Some(items) => {
            let n = items.len();
            let mut i: usize = 0;
            while i < n
                invariant
                    i <= n,
                    n == items@.len(),
                    out@.len() == i,
                    forall|k: int|
                        0 <= k < i ==> certificate_item_ok(items@[k], #[trigger] out@[k]),
                decreases n - i,
            {
                out.push(parse_certificate_item(&items[i]));
                i += 1;
            }
            out
        },
        None => out,
    }
}

/// The relation between a raw tenant object and its typed record: the
/// display name falls back to the default domain.
pub open spec fn tenant_ok(v: JsonValue, t: Tenant) -> bool {
    &&& t.id@ == crate::auth::str_or_empty(spec_get_str(v, "id"@))
    &&& t.tenant_id@ == crate::auth::str_or_empty(spec_get_str(v, "tenantId"@))
    &&& opt_str_eq(
        t.display_name,
        match spec_get_str(v, "displayName"@) {
            Some(n) => Some(n),
            None => spec_get_str(v, "defaultDomain"@),
        },
    )
}

/// Parses one raw tenant object into its typed record.
pub fn parse_tenant(v: &JsonValue) -> (t: Tenant)
    ensures
        tenant_ok(*v, t),
{
    let display_name = match get_str(v, "displayName") {
        Some(s) => Some(s.clone()),
        None => get_opt_string(v, "defaultDomain"),
    };
    Tenant {
        id: get_str_or_empty(v, "id"),
        tenant_id: get_str_or_empty(v, "tenantId"),
        display_name,
    }
}

/// Parses a tenants listing into typed records.
#[verifier::loop_isolation(false)]
pub fn parse_tenants(body: &JsonValue) -> (r: Vec<Tenant>)
    ensures
        match spec_get(*body, "value"@) {
            Some(JsonValue::Arr(items)) => r@.len() == items@.len() && (forall|i: int|
                0 <= i < items@.len() ==> tenant_ok(items@[i], #[trigger] r@[i])),
            _ => r@.len() == 0,
        },
{
    let mut out: Vec<Tenant> = Vec::new();
    match crate::json::get_arr(body, "value") {
        Some(items) => {
            let n = items.len();
            let mut i: usize = 0;
            while i < n
                invariant
                    i <= n,
                    n == items@.len(),
                    out@.len() == i,
                    forall|k: int| 0 <= k < i ==> tenant_ok(items@[k], #[trigger] out@[k]),
                decreases n - i,
            {
                out.push(parse_tenant(&items[i]));
                i += 1;
            }
            out
        },
        None => out,
    }
}

/// The relation between a raw subscription object and its typed
/// record: the tenant falls back to the home tenant.
pub open spec fn subscription_ok(v: JsonValue, s: Subscription) -> bool {
    &&& s.subscription_id@ == crate::auth::str_or_empty(spec_get_str(v, "subscriptionId"@))
    &&& s.display_name@ == crate::auth::str_or_empty(spec_get_str(v, "displayName"@))
    &&& s.state@ == crate::auth::str_or_empty(spec_get_str(v, "state"@))
    &&& s.tenant_id@ == crate::auth::str_or_empty(
        match spec_get_str(v, "tenantId"@) {
            Some(t) => Some(t),
            None => spec_get_str(v, "homeTenantId"@),
        },
    )
}

/// Parses one raw subscription object into its typed record.
pub fn parse_subscription(v: &JsonValue) -> (s: Subscription)
    ensures
        subscription_ok(*v, s),
{
    let tenant_id = match get_str(v, "tenantId") {
        Some(t) => t.clone(),
        None => get_str_or_empty(v, "homeTenantId"),
    };
    Subscription {
        subscription_id: get_str_or_empty(v, "subscriptionId"),
        display_name: get_str_or_empty(v, "displayName"),
        state: get_str_or_empty(v, "state"),
        tenant_id,
    }
}

/// Parses a subscriptions listing into typed records.
#[verifier::loop_isolation(false)]
pub fn parse_subscriptions(body: &JsonValue) -> (r: Vec<Subscription>)
    ensures
        match spec_get(*body, "value"@) {
            Some(JsonValue::Arr(items)) => r@.len() == items@.len() && (forall|i: int|
                0 <= i < items@.len() ==> subscription_ok(items@[i], #[trigger] r@[i])),
            _ => r@.len() == 0,
        },
{
    let mut out: Vec<Subscription> = Vec::new();
    match crate::json::get_arr(body, "value") {
        Some(items) => {
            let n = items.len();
            let mut i: usize = 0;
            while i < n
                invariant
                    i <= n,
                    n == items@.len(),
                    out@.len() == i,
                    forall|k: int| 0 <= k < i ==> subscription_ok(items@[k], #[trigger] out@[k]),
                decreases n - i,
            {
                out.push(parse_subscription(&items[i]));
                i += 1;
            }
            out
        },
        None => out,
    }
}

/// The data-plane URI of a vault, from its resource name.
pub fn vault_uri_of(name: &str) -> (r: String)
    ensures
        r@ == "https://"@ + name@ + ".vault.azure.net"@,
{
    let mut out: Vec<char> = Vec::new();
    push_str_chars(&mut out, "https://");
    push_str_chars(&mut out, name);
    push_str_chars(&mut out, ".vault.azure.net");
    string_from_chars(&out)
}

/// The relation between a raw vault resource and its typed record.
pub open spec fn keyvault_ok(v: JsonValue, soft_delete: Option<bool>, info: KeyVaultInfo) -> bool {
    &&& info.id@ == crate::auth::str_or_empty(spec_get_str(v, "id"@))
    &&& info.name@ == crate::auth::str_or_empty(spec_get_str(v, "name"@))
    &&& info.location@ == crate::auth::str_or_empty(spec_get_str(v, "location"@))
    &&& info.resource_group@ == resource_group_spec(
        crate::auth::str_or_empty(spec_get_str(v, "id"@)),
    )
    &&& info.vault_uri@ == "https://"@ + crate::auth::str_or_empty(spec_get_str(v, "name"@))
        + ".vault.azure.net"@
    &&& opt_tags_eq(info.tags, tags_of(v))
    &&& info.soft_delete_enabled == soft_delete
}

/// Parses one vault resource from the management plane, joining in
/// the separately fetched soft-delete state.
pub fn parse_keyvault(v: &JsonValue, soft_delete: Option<bool>) -> (info: KeyVaultInfo)
    ensures
        keyvault_ok(*v, soft_delete, info),
{
    let id = get_str_or_empty(v, "id");
    let name = get_str_or_empty(v, "name");
    let resource_group = extract_resource_group(id.as_str());
    let vault_uri = vault_uri_of(name.as_str());
    KeyVaultInfo {
        id,
        name,
        location: get_str_or_empty(v, "location"),
        resource_group,
        vault_uri,
        tags: tags_exec(v),
        soft_delete_enabled: soft_delete,
    }
}

/// Reads the soft-delete state out of a vault's management-plane
/// properties.
pub fn parse_soft_delete(body: &JsonValue) -> (r: Option<bool>)
    ensures
        r == match spec_get(*body, "properties"@) {
            Some(p) => spec_get_bool(p, "enableSoftDelete"@),
            None => None::<bool>,
        },
{
    match get_field(body, "properties") {
        Some(p) => get_bool(p, "enableSoftDelete"),
        None => None,
    }
}

/// The secrets listing endpoint of a vault.
pub fn secrets_list_url(vault_uri: &str) -> (r: String)
    ensures
        r@ == vault_uri@ + "/secrets?api-version="@ + "7.5"@,
{
    let mut out: Vec<char> = Vec::new();
    push_str_chars(&mut out, vault_uri);
    push_str_chars(&mut out, "/secrets?api-version=");
    push_str_chars(&mut out, "7.5");
    string_from_chars(&out)
}

/// A secret's endpoint: fetch, create or soft-delete.
pub fn secret_url(vault_uri: &str, name: &str) -> (r: String)
    ensures
        r@ == vault_uri@ + "/secrets/"@ + name@ + "?api-version="@ + "7.5"@,
{
    let mut out: Vec<char> = Vec::new();
    push_str_chars(&mut out, vault_uri);
    push_str_chars(&mut out, "/secrets/");
    push_str_chars(&mut out, name);
    push_str_chars(&mut out, "?api-version=");
    push_str_chars(&mut out, "7.5");
    string_from_chars(&out)
}

/// The newest-first versions listing of a secret, capped to one entry.
pub fn secret_versions_url(vault_uri: &str, name: &str) -> (r: String)
    ensures
        r@ == vault_uri@ + "/secrets/"@ + name@ + "/versions?api-version="@ + "7.5"@
            + "&maxresults=1"@,
{
    let mut out: Vec<char> = Vec::new();
    push_str_chars(&mut out, vault_uri);
    push_str_chars(&mut out, "/secrets/");
    push_str_chars(&mut out, name);
    push_str_chars(&mut out, "/versions?api-version=");
    push_str_chars(&mut out, "7.5");
    push_str_chars(&mut out, "&maxresults=1");
    string_from_chars(&out)
}

/// A soft-deleted secret's endpoint: purge.
pub fn deleted_secret_url(vault_uri: &str, name: &str) -> (r: String)
    ensures
        r@ == vault_uri@ + "/deletedsecrets/"@ + name@ + "?api-version="@ + "7.5"@,
{
    let mut out: Vec<char> = Vec::new();
    push_str_chars(&mut out, vault_uri);
    push_str_chars(&mut out, "/deletedsecrets/");
    push_str_chars(&mut out, name);
    push_str_chars(&mut out, "?api-version=");
    push_str_chars(&mut out, "7.5");
    string_from_chars(&out)
}

/// A soft-deleted secret's recovery endpoint.
pub fn recover_secret_url(vault_uri: &str, name: &str) -> (r: String)
    ensures
        r@ == vault_uri@ + "/deletedsecrets/"@ + name@ + "/recover?api-version="@ + "7.5"@,
{
    let mut out: Vec<char> = Vec::new();
    push_str_chars(&mut out, vault_uri);
    push_str_chars(&mut out, "/deletedsecrets/");
    push_str_chars(&mut out, name);
    push_str_chars(&mut out, "/recover?api-version=");
    push_str_chars(&mut out, "7.5");
    string_from_chars(&out)
}

/// The keys listing endpoint of a vault.
pub fn keys_list_url(vault_uri: &str) -> (r: String)
    ensures
        r@ == vault_uri@ + "/keys?api-version="@ + "7.5"@,
{
    let mut out: Vec<char> = Vec::new();
    push_str_chars(&mut out, vault_uri);
    push_str_chars(&mut out, "/keys?api-version=");
    push_str_chars(&mut out, "7.5");
    string_from_chars(&out)
}

/// The certificates listing endpoint of a vault.
pub fn certificates_list_url(vault_uri: &str) -> (r: String)
    ensures
        r@ == vault_uri@ + "/certificates?api-version="@ + "7.5"@,
{
    let mut out: Vec<char> = Vec::new();
    push_str_chars(&mut out, vault_uri);
    push_str_chars(&mut out, "/certificates?api-version=");
    push_str_chars(&mut out, "7.5");
    string_from_chars(&out)
}

/// The management-plane tenants listing.
pub fn tenants_url() -> (r: String)
    ensures
        r@ == "https://management.azure.com"@ + "/tenants?api-version="@ + "2022-12-01"@,
{
    let mut out: Vec<char> = Vec::new();
    push_str_chars(&mut out, "https://management.azure.com");
    push_str_chars(&mut out, "/tenants?api-version=");
    push_str_chars(&mut out, "2022-12-01");
    string_from_chars(&out)
}

/// The management-plane subscriptions listing.
pub fn subscriptions_url() -> (r: String)
    ensures
        r@ == "https://management.azure.com"@ + "/subscriptions?api-version="@ + "2022-12-01"@,
{
    let mut out: Vec<char> = Vec::new();
    push_str_chars(&mut out, "https://management.azure.com");
    push_str_chars(&mut out, "/subscriptions?api-version=");
    push_str_chars(&mut out, "2022-12-01");
    string_from_chars(&out)
}

/// The resource query that lists a subscription's vaults.
pub fn vault_resources_url(subscription_id: &str) -> (r: String)
    ensures
        r@ == "https://management.azure.com"@ + "/subscriptions/"@ + subscription_id@
            + "/resources?$filter=resourceType eq 'Microsoft.KeyVault/vaults'&api-version="@
            + "2021-04-01"@,
{
    let mut out: Vec<char> = Vec::new();
    push_str_chars(&mut out, "https://management.azure.com");
    push_str_chars(&mut out, "/subscriptions/");
    push_str_chars(&mut out, subscription_id);
    push_str_chars(
        &mut out,
        "/resources?$filter=resourceType eq 'Microsoft.KeyVault/vaults'&api-version=",
    );
    push_str_chars(&mut out, "2021-04-01");
    string_from_chars(&out)
}

/// A vault's management-plane properties endpoint, from its ARM
/// resource identifier.
pub fn vault_properties_url(vault_id: &str) -> (r: String)
    ensures
        r@ == "https://management.azure.com"@ + vault_id@ + "?api-version="@ + "2023-07-01"@,
{
    let mut out: Vec<char> = Vec::new();
    push_str_chars(&mut out, "https://management.azure.com");
    push_str_chars(&mut out, vault_id);
    push_str_chars(&mut out, "?api-version=");
    push_str_chars(&mut out, "2023-07-01");
    string_from_chars(&out)
}

/// The `exp` attribute a create request asks for, when its expiry
/// parses as RFC 3339.
pub open spec fn payload_exp(req: CreateSecretRequest) -> Option<int> {
    match req.expires {
        Some(e) => rfc3339_epoch(e@),
        None => None,
    }
}

/// The `nbf` attribute a create request asks for, when its
/// not-before parses as RFC 3339.
pub open spec fn payload_nbf(req: CreateSecretRequest) -> Option<int> {
    match req.not_before {
        Some(x) => rfc3339_epoch(x@),
        None => None,
    }
}

/// The attribute fields of a create payload: `enabled` (defaulting to
/// true), then `exp` and `nbf` where the request's timestamps parse.
pub open spec fn payload_attr_fields_ok(req: CreateSecretRequest, attrs: Seq<
    (String, JsonValue),
>) -> bool {
    &&& attrs.len() == 1 + (if payload_exp(req) is Some {
        1int
    } else {
        0int
    }) + (if payload_nbf(req) is Some {
        1int
    } else {
        0int
    })
    &&& attrs[0].0@ == "enabled"@
    &&& attrs[0].1 == JsonValue::Bool(
        match req.enabled {
            Some(b) => b,
            None => true,
        },
    )
    &&& (match payload_exp(req) {
        Some(t) => attrs[1].0@ == "exp"@ && (attrs[1].1 matches JsonValue::Int(x) && x as int
            == t),
        None => true,
    })
    &&& (match payload_nbf(req) {
        Some(t) => {
            let i = if payload_exp(req) is Some {
                2int
            } else {
                1int
            };
            attrs[i].0@ == "nbf"@ && (attrs[i].1 matches JsonValue::Int(x) && x as int == t)
        },
        None => true,
    })
}

/// The fields of a create payload, in order: the value, the
/// attributes, then the content type and tags where the request
/// carries them.
pub open spec fn payload_fields_ok(req: CreateSecretRequest, fields: Seq<
    (String, JsonValue),
>) -> bool {
    &&& fields.len() == 2 + (if req.content_type is Some {
        1int
    } else {
        0int
    }) + (if req.tags is Some {
        1int
    } else {
        0int
    })
    &&& fields[0].0@ == "value"@
    &&& (fields[0].1 matches JsonValue::Str(s) && s@ == req.value@)
    &&& fields[1].0@ == "attributes"@
    &&& (fields[1].1 matches JsonValue::Obj(attrs) && payload_attr_fields_ok(req, attrs@))
    &&& (match req.content_type {
        Some(c) => fields[2].0@ == "contentType"@ && (fields[2].1 matches JsonValue::Str(s) && s@
            == c@),
        None => true,
    })
    &&& (match req.tags {
        Some(tags) => {
            let ti = if req.content_type is Some {
                3int
            } else {
                2int
            };
            fields[ti].0@ == "tags"@ && (fields[ti].1 matches JsonValue::Obj(tf) && str_entries(
                tf@,
            ) == Some(tags@.map_values(|p: (String, String)| pair_views(p))))
        },
        None => true,
    })
}

/// Builds the JSON payload of a create-or-version request from the
/// caller's request record.
#[verifier::loop_isolation(false)]
pub fn build_secret_payload(req: &CreateSecretRequest) -> (r: JsonValue)
    ensures
        (r matches JsonValue::Obj(fields) && payload_fields_ok(*req, fields@)),
{
    let mut attrs: Vec<(String, JsonValue)> = Vec::new();
    let enabled = match req.enabled {
        Some(b) => b,
        None => true,
    };
    attrs.push((String::from_str("enabled"), JsonValue::Bool(enabled)));
    match &req.expires {
        Some(e) => {
            match parse_rfc3339_epoch(e.as_str()) {
                Some(t) => attrs.push((String::from_str("exp"), JsonValue::Int(t))),
                None => {},
            }
        },
        None => {},
    }
    match &req.not_before {
        Some(x) => {
            match parse_rfc3339_epoch(x.as_str()) {
                Some(t) => attrs.push((String::from_str("nbf"), JsonValue::Int(t))),
                None => {},
            }
        },
        None => {},
    }
    let mut fields: Vec<(String, JsonValue)> = Vec::new();
    fields.push((String::from_str("value"), JsonValue::Str(req.value.clone())));
    fields.push((String::from_str("attributes"), JsonValue::Obj(attrs)));
    match &req.content_type {
        Some(c) => fields.push((String::from_str("contentType"), JsonValue::Str(c.clone()))),
        None => {},
    }
    match &req.tags {
        Some(tags) => {
            let n = tags.len();
            let mut tf: Vec<(String, JsonValue)> = Vec::new();
            let mut i: usize = 0;
            proof {
                assert(tags@.take(0).map_values(|p: (String, String)| pair_views(p)) =~= Seq::<
                    (Seq<char>, Seq<char>),
                >::empty());
                assert(str_entries(tf@) == Some(
                    tags@.take(0).map_values(|p: (String, String)| pair_views(p)),
                ));
            }
            while i < n
                invariant
                    i <= n,
                    n == tags@.len(),
                    str_entries(tf@) == Some(
                        tags@.take(i as int).map_values(|p: (String, String)| pair_views(p)),
                    ),
                decreases n - i,
            {
                let ghost before = tf@;
                tf.push((tags[i].0.clone(), JsonValue::Str(tags[i].1.clone())));
                proof {
                    assert(tf@.drop_last() =~= before);
                    assert(tf@.last() == tf@[tf@.len() - 1]);
                    let t = tags@.take(i + 1 as int);
                    assert(t.drop_last() =~= tags@.take(i as int));
                    assert(t.last() == tags@[i as int]);
                    assert(t.map_values(|p: (String, String)| pair_views(p)) =~= t.drop_last()
                        .map_values(|p: (String, String)| pair_views(p)).push(
                        pair_views(tags@[i as int]),
                    ));
                    assert(str_entries(tf@) == Some(
                        t.map_values(|p: (String, String)| pair_views(p)),
                    ));
                }
                i += 1;
            }
            proof {
                assert(tags@.take(n as int) =~= tags@);
            }
            fields.push((String::from_str("tags"), JsonValue::Obj(tf)));
        },
        None => {},
    }
    JsonValue::Obj(fields)
}

} // verus!
