//! Metadata export as JSON or CSV.
//!
//! The caller hands over the raw items (already parsed from its
//! clipboard-bound text) and a format word. Input size and row count
//! are bounded; the CSV takes its header from the first item's keys,
//! quotes and doubles quotes inside string cells, writes nulls as
//! empty cells, and serializes anything else as JSON.

use vstd::prelude::*;

use crate::json::{get_field, json_of, json_text, spec_get, JsonValue};
use crate::text::{dec_str, push_str_chars, string_from_chars, u64_to_string};

verus! {

/// Maximum size in bytes of raw JSON input accepted for export.
pub const MAX_EXPORT_INPUT_BYTES: usize = 2000000;

/// Maximum number of rows in a single export request.
pub const MAX_EXPORT_ITEMS: usize = 20000;

/// The size gate on the raw export payload, applied before any
/// parsing.
pub fn check_export_size(len: usize) -> (r: Result<(), String>)
    ensures
        r is Ok <==> len <= MAX_EXPORT_INPUT_BYTES,
        match r {
            Ok(_) => true,
            Err(e) => e@ == "Export payload too large (max "@ + dec_str(
                MAX_EXPORT_INPUT_BYTES as nat,
            ) + " bytes)."@,
        },
{
    if len > MAX_EXPORT_INPUT_BYTES {
        let mut out: Vec<char> = Vec::new();
        push_str_chars(&mut out, "Export payload too large (max ");
        let limit_text = u64_to_string(MAX_EXPORT_INPUT_BYTES as u64);
        push_str_chars(&mut out, limit_text.as_str());
        push_str_chars(&mut out, " bytes).");
        Err(string_from_chars(&out))
    } else {
        Ok(())
    }
}

/// A string as it stands inside a quoted CSV cell: quotes doubled.
pub open spec fn csv_escaped(s: Seq<char>) -> Seq<char>
    decreases s.len(),
{
    if s.len() == 0 {
        Seq::empty()
    } else {
        csv_escaped(s.drop_last()) + (if s.last() == '"' {
            seq!['"', '"']
        } else {
            seq![s.last()]
        })
    }
}

/// One CSV cell: strings quoted with quotes doubled, null empty,
/// anything else its JSON text.
pub open spec fn csv_cell(v: JsonValue) -> Seq<char> {
    match v {
        JsonValue::Str(s) => seq!['"'] + csv_escaped(s@) + seq!['"'],
        JsonValue::Null => Seq::empty(),
        other => json_of(other),
    }
}

/// The cell of an item under a header key: a missing field is null.
pub open spec fn csv_cell_of(item: JsonValue, key: Seq<char>) -> Seq<char> {
    match spec_get(item, key) {
        Some(v) => csv_cell(v),
        None => csv_cell(JsonValue::Null),
    }
}

/// Comma-joined pieces.
pub open spec fn join_comma(cells: Seq<Seq<char>>) -> Seq<char>
    decreases cells.len(),
{
    if cells.len() == 0 {
        Seq::empty()
    } else if cells.len() == 1 {
        cells.last()
    } else {
        join_comma(cells.drop_last()) + seq![','] + cells.last()
    }
}

/// The keys of an object's fields, in document order.
pub open spec fn keys_of(fields: Seq<(String, JsonValue)>) -> Seq<Seq<char>> {
    fields.map_values(|f: (String, JsonValue)| f.0@)
}

/// One item's CSV row under the given headers.
pub open spec fn csv_row(item: JsonValue, headers: Seq<Seq<char>>) -> Seq<char> {
    join_comma(headers.map_values(|k: Seq<char>| csv_cell_of(item, k)))
}

/// The data rows of the export: one line per object item, in order;
/// anything that is not an object is skipped.
pub open spec fn csv_rows(items: Seq<JsonValue>, headers: Seq<Seq<char>>) -> Seq<char>
    decreases items.len(),
{
    if items.len() == 0 {
        Seq::empty()
    } else {
        csv_rows(items.drop_last(), headers) + (match items.last() {
            JsonValue::Obj(_) => csv_row(items.last(), headers) + seq!['\n'],
            _ => Seq::empty(),
        })
    }
}

/// The whole CSV text: the first item's keys as the header line, then
/// the rows; empty when there is no first object to take a header
/// from.
pub open spec fn csv_text(items: Seq<JsonValue>) -> Seq<char> {
    if items.len() == 0 {
        Seq::empty()
    } else {
        match items[0] {
            JsonValue::Obj(fields) => join_comma(keys_of(fields@)) + seq!['\n'] + csv_rows(
                items,
                keys_of(fields@),
            ),
            _ => Seq::empty(),
        }
    }
}

fn push_csv_escaped(out: &mut Vec<char>, s: &str)
    ensures
        final(out)@ == old(out)@ + csv_escaped(s@),
{
    let n = s.unicode_len();
    let mut i: usize = 0;
    while i < n
        invariant
            i <= n,
            n == s@.len(),
            out@ == old(out)@ + csv_escaped(s@.take(i as int)),
        decreases n - i,
    {
        let c = s.get_char(i);
        if c == '"' {
            out.push('"');
            out.push('"');
        } else {
            out.push(c);
        }
        proof {
            let t = s@.take(i + 1 as int);
            assert(t.drop_last() =~= s@.take(i as int));
            assert(t.last() == s@[i as int]);
            assert(out@ =~= old(out)@ + csv_escaped(t));
        }
        i += 1;
    }
    proof {
        assert(s@.take(n as int) =~= s@);
    }
}

fn push_csv_cell(out: &mut Vec<char>, item: &JsonValue, key: &str)
    ensures
        final(out)@ == old(out)@ + csv_cell_of(*item, key@),
{
    match get_field(item, key) {
        None => {},
        Some(v) => {
            match v {
                JsonValue::Null => {},
                JsonValue::Str(s) => {
                    out.push('"');
                    push_csv_escaped(out, s.as_str());
                    out.push('"');
                    proof {
                        assert(out@ =~= old(out)@ + csv_cell_of(*item, key@));
                    }
                },
                other => {
                    let t = json_text(other);
                    push_str_chars(out, t.as_str());
                },
            }
        },
    }
}

/// Exports raw items as JSON or CSV text, bounded in row count; any
/// other format word is rejected.
#[verifier::loop_isolation(false)]
pub fn export_rows(items: Vec<JsonValue>, format: &str) -> (r: Result<String, String>)
    ensures
        items@.len() > MAX_EXPORT_ITEMS ==> (r matches Err(e) && e@
            == "Too many items to export (max "@ + dec_str(MAX_EXPORT_ITEMS as nat) + ")."@),
        items@.len() <= MAX_EXPORT_ITEMS && format@ == "json"@ ==> (r matches Ok(s) && s@
            == json_of(JsonValue::Arr(items))),
        items@.len() <= MAX_EXPORT_ITEMS && format@ == "csv"@ ==> (r matches Ok(s) && s@
            == csv_text(items@)),
        items@.len() <= MAX_EXPORT_ITEMS && format@ != "json"@ && format@ != "csv"@ ==> (r matches
            Err(e) && e@ == "Unsupported export format: '"@ + format@
            + "'. Use 'json' or 'csv'."@),
{
    proof {
        reveal_strlit("json");
        reveal_strlit("csv");
    }
    if items.len() > MAX_EXPORT_ITEMS {
        let mut out: Vec<char> = Vec::new();
        push_str_chars(&mut out, "Too many items to export (max ");
        let limit_text = u64_to_string(MAX_EXPORT_ITEMS as u64);
        push_str_chars(&mut out, limit_text.as_str());
        push_str_chars(&mut out, ").");
        return Err(string_from_chars(&out));
    }
    if crate::text::str_eq(format, "json") {
        proof {
            assert("json"@.len() == 4);
            assert("csv"@.len() == 3);
            assert(format@ != "csv"@);
        }
        let arr = JsonValue::Arr(items);
        let text = json_text(&arr);
        return Ok(text);
    }
    if !crate::text::str_eq(format, "csv") {
        let mut out: Vec<char> = Vec::new();
        push_str_chars(&mut out, "Unsupported export format: '");
        push_str_chars(&mut out, format);
        push_str_chars(&mut out, "'. Use 'json' or 'csv'.");
        return Err(string_from_chars(&out));
    }
    if items.len() == 0 {
        return Ok(String::new());
    }
    let headers: Vec<String> = match &items[0] {
        JsonValue::Obj(fields) => {
            let m = fields.len();
            let mut headers: Vec<String> = Vec::new();
            let mut j: usize = 0;
            while j < m
                invariant
                    j <= m,
                    m == fields@.len(),
                    headers@.map_values(|x: String| x@) == keys_of(fields@).take(j as int),
                decreases m - j,
            {
                headers.push(fields[j].0.clone());
                proof {
                    assert(headers@.map_values(|x: String| x@) =~= headers@.drop_last().map_values(
                        |x: String| x@,
                    ).push(headers@.last()@));
                    assert(keys_of(fields@).take(j + 1 as int) =~= keys_of(fields@).take(
                        j as int,
                    ).push(keys_of(fields@)[j as int]));
                }
                j += 1;
            }
            proof {
                assert(keys_of(fields@).take(m as int) =~= keys_of(fields@));
            }
            headers
        },
        _ => {
            return Ok(String::new());
        },
    };
    let ghost hdrs = keys_of(items@[0]->Obj_0@);
    let mut out: Vec<char> = Vec::new();
    let m = headers.len();
    proof {
        assert(headers@.map_values(|x: String| x@) == hdrs);
        assert(hdrs.len() == m);
    }
    let mut j: usize = 0;
    while j < m
        invariant
            j <= m,
            out@ == join_comma(hdrs.take(j as int)),
        decreases m - j,
    {
        if j > 0 {
            out.push(',');
        }
        push_str_chars(&mut out, headers[j].as_str());
        proof {
            assert(headers@.map_values(|x: String| x@)[j as int] == headers@[j as int]@);
            let t = hdrs.take(j + 1 as int);
            assert(t.drop_last() =~= hdrs.take(j as int));
            assert(t.last() == hdrs[j as int]);
            assert(out@ =~= join_comma(t));
        }
        j += 1;
    }
    out.push('\n');
    proof {
        assert(hdrs.take(m as int) =~= hdrs);
        assert(items@.take(0) =~= Seq::<JsonValue>::empty());
        assert(out@ =~= join_comma(hdrs) + seq!['\n'] + csv_rows(items@.take(0), hdrs));
    }
    let n = items.len();
    let mut i: usize = 0;
    while i < n
        invariant
            i <= n,
            n == items@.len(),
            out@ == join_comma(hdrs) + seq!['\n'] + csv_rows(items@.take(i as int), hdrs),
        decreases n - i,
    {
        let is_obj = match &items[i] {
            JsonValue::Obj(_) => true,
            _ => false,
        };
        if is_obj {
            let ghost row_start = out@;
            let mut j2: usize = 0;
            while j2 < m
                invariant
                    j2 <= m,
                    m == hdrs.len(),
                    i < items@.len(),
                    headers@.map_values(|x: String| x@) == hdrs,
                    m == headers@.len(),
                    out@ == row_start + join_comma(
                        hdrs.take(j2 as int).map_values(
                            |k: Seq<char>| csv_cell_of(items@[i as int], k),
                        ),
                    ),
                decreases m - j2,
            {
                if j2 > 0 {
                    out.push(',');
                }
                push_csv_cell(&mut out, &items[i], headers[j2].as_str());
                proof {
                    assert(headers@.map_values(|x: String| x@)[j2 as int] == headers@[j2 as int]@);
                    let cells = hdrs.take(j2 + 1 as int).map_values(
                        |k: Seq<char>| csv_cell_of(items@[i as int], k),
                    );
                    assert(cells.drop_last() =~= hdrs.take(j2 as int).map_values(
                        |k: Seq<char>| csv_cell_of(items@[i as int], k),
                    ));
                    assert(cells.last() == csv_cell_of(items@[i as int], hdrs[j2 as int]));
                    assert(out@ =~= row_start + join_comma(cells));
                }
                j2 += 1;
            }
            out.push('\n');
            proof {
                assert(hdrs.take(m as int).map_values(
                    |k: Seq<char>| csv_cell_of(items@[i as int], k),
                ) =~= hdrs.map_values(|k: Seq<char>| csv_cell_of(items@[i as int], k)));
                let t = items@.take(i + 1 as int);
                assert(t.drop_last() =~= items@.take(i as int));
                assert(t.last() == items@[i as int]);
                assert(out@ =~= join_comma(hdrs) + seq!['\n'] + csv_rows(t, hdrs));
            }
        } else {
            proof {
                let t = items@.take(i + 1 as int);
                assert(t.drop_last() =~= items@.take(i as int));
                assert(t.last() == items@[i as int]);
                assert(out@ =~= join_comma(hdrs) + seq!['\n'] + csv_rows(t, hdrs));
            }
        }
        i += 1;
    }
    proof {
        assert(items@.take(n as int) =~= items@);
    }
    Ok(string_from_chars(&out))
}

} // verus!
