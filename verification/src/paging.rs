//! Cursor-based pagination bookkeeping.
//!
//! A list endpoint answers with a page: an array of raw items under a
//! known field, and possibly a continuation URL under a "next link"
//! field. The application fetches pages strictly one after another;
//! this module extracts each page's items and continuation, and
//! flattens a run of pages into one sequence that keeps the
//! server-provided order, without deduplicating or reordering.

use vstd::prelude::*;

use crate::json::{get_str, spec_get, spec_get_str, spec_lookup, JsonValue};
use crate::text::str_eq;

verus! {

/// The raw items of one page: its `value` array, or nothing.
pub open spec fn page_items_spec(body: JsonValue) -> Seq<JsonValue> {
    match spec_get(body, "value"@) {
        Some(JsonValue::Arr(items)) => items@,
        _ => Seq::empty(),
    }
}

/// The continuation URL of a page, when the listing goes on.
pub open spec fn page_next_spec(body: JsonValue) -> Option<Seq<char>> {
    spec_get_str(body, "nextLink"@)
}

/// Reads the continuation URL out of a page body.
pub fn page_next(body: &JsonValue) -> (r: Option<String>)
    ensures
        match r {
            Some(s) => page_next_spec(*body) == Some(s@),
            None => page_next_spec(*body) is None,
        },
{
    match get_str(body, "nextLink") {
        Some(s) => Some(s.clone()),
        None => None,
    }
}

/// Takes the raw items out of a page body, in their order there.
#[verifier::loop_isolation(false)]
pub fn page_take_items(page: JsonValue) -> (r: Vec<JsonValue>)
    ensures
        r@ == page_items_spec(page),
{
    match page {
        JsonValue::Obj(fields) => {
            let mut fields = fields;
            let ghost orig = fields@;
            while fields.len() > 0
                invariant
                    spec_lookup(orig, "value"@) == spec_lookup(fields@, "value"@),
                decreases fields@.len(),
            {
                let ghost before = fields@;
                let entry = fields.remove(0);
                proof {
                    assert(before.remove(0) =~= before.drop_first());
                }
                if str_eq(entry.0.as_str(), "value") {
                    match entry.1 {
                        JsonValue::Arr(items) => {
                            return items;
                        },
                        _ => {
                            return Vec::new();
                        },
                    }
                }
            }
            Vec::new()
        },
        _ => Vec::new(),
    }
}

/// The items of a run of pages, flattened in order: the first page's
/// items first, then the rest.
pub open spec fn flatten_pages(pages: Seq<JsonValue>) -> Seq<JsonValue>
    decreases pages.len(),
{
    if pages.len() == 0 {
        Seq::empty()
    } else {
        page_items_spec(pages[0]) + flatten_pages(pages.drop_first())
    }
}

/// Flattens a run of page bodies into one item sequence, keeping the
/// order the pages and their items arrived in.
#[verifier::loop_isolation(false)]
pub fn collect_pages(pages: Vec<JsonValue>) -> (r: Vec<JsonValue>)
    ensures
        r@ == flatten_pages(pages@),
{
    let ghost orig = pages@;
    let mut pages = pages;
    let mut out: Vec<JsonValue> = Vec::new();
    proof {
        assert(flatten_pages(orig) =~= out@ + flatten_pages(pages@));
    }
    while pages.len() > 0
        invariant
            flatten_pages(orig) == out@ + flatten_pages(pages@),
        decreases pages@.len(),
    {
        let ghost before = pages@;
        let page = pages.remove(0);
        let mut items = page_take_items(page);
        out.append(&mut items);
        proof {
            assert(before.remove(0) =~= before.drop_first());
            assert(flatten_pages(orig) =~= out@ + flatten_pages(pages@));
        }
    }
    proof {
        assert(flatten_pages(orig) =~= out@);
    }
    out
}

} // verus!
