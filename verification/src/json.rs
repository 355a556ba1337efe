//! A JSON document model.
//!
//! Remote responses, request payloads and exports all travel through
//! this type; the surrounding application converts between it and the
//! wire representation. Numbers are held as signed integers, the only
//! numeric fields this client reads or writes.

use vstd::prelude::*;

use crate::text::{dec_str_signed, i64_to_string, push_str_chars, str_eq, string_from_chars};

verus! {

/// A JSON value: an object is a field list in document order.
#[derive(Debug)]
pub enum JsonValue {
    Null,
    Bool(bool),
    Int(i64),
    Str(String),
    Arr(Vec<JsonValue>),
    Obj(Vec<(String, JsonValue)>),
}

/// The first binding of `key` among the fields, in document order.
pub open spec fn spec_lookup(fields: Seq<(String, JsonValue)>, key: Seq<char>) -> Option<
    JsonValue,
>
    decreases fields.len(),
{
    if fields.len() == 0 {
        None
    } else if fields[0].0@ == key {
        Some(fields[0].1)
    } else {
        spec_lookup(fields.drop_first(), key)
    }
}

/// The field `key` of `v`, when `v` is an object that binds it.
pub open spec fn spec_get(v: JsonValue, key: Seq<char>) -> Option<JsonValue> {
    match v {
        JsonValue::Obj(fields) => spec_lookup(fields@, key),
        _ => None,
    }
}

/// The field `key` of `v` as a string, when bound to one.
pub open spec fn spec_get_str(v: JsonValue, key: Seq<char>) -> Option<Seq<char>> {
    match spec_get(v, key) {
        Some(JsonValue::Str(s)) => Some(s@),
        _ => None,
    }
}

/// The field `key` of `v` as a non-negative integer, when bound to one.
pub open spec fn spec_get_u64(v: JsonValue, key: Seq<char>) -> Option<u64> {
    match spec_get(v, key) {
        Some(JsonValue::Int(n)) => if n >= 0 {
            Some(n as u64)
        } else {
            None
        },
        _ => None,
    }
}

/// The field `key` of `v` as a boolean, when bound to one.
pub open spec fn spec_get_bool(v: JsonValue, key: Seq<char>) -> Option<bool> {
    match spec_get(v, key) {
        Some(JsonValue::Bool(b)) => Some(b),
        _ => None,
    }
}

proof fn lemma_lookup_advance(fields: Seq<(String, JsonValue)>, key: Seq<char>, i: int)
    requires
        0 <= i <= fields.len(),
        forall|k: int| 0 <= k < i ==> fields[k].0@ != key,
    ensures
        spec_lookup(fields, key) == spec_lookup(fields.skip(i), key),
    decreases i,
{
    if i > 0 {
        lemma_lookup_advance(fields, key, i - 1);
        assert(fields.skip(i - 1).drop_first() =~= fields.skip(i));
        assert(fields.skip(i - 1)[0] == fields[i - 1]);
    } else {
        assert(fields.skip(0) =~= fields);
    }
}

/// Looks a field up by key; the first binding wins.
#[verifier::loop_isolation(false)]
pub fn get_field<'a>(v: &'a JsonValue, key: &str) -> (r: Option<&'a JsonValue>)
    ensures
        match r {
            Some(x) => spec_get(*v, key@) == Some(*x),
            None => spec_get(*v, key@) is None,
        },
{
    match v {
        JsonValue::Obj(fields) => {
            let n = fields.len();
            let mut i: usize = 0;
            while i < n
                invariant
                    i <= n,
                    n == fields@.len(),
                    forall|k: int| 0 <= k < i ==> fields@[k].0@ != key@,
                decreases n - i,
            {
                if str_eq(fields[i].0.as_str(), key) {
                    proof {
                        lemma_lookup_advance(fields@, key@, i as int);
                        assert(fields@.skip(i as int)[0] == fields@[i as int]);
                        assert(fields@[i as int].0@ == key@);
                        assert(spec_lookup(fields@.skip(i as int), key@) == Some(
                            fields@[i as int].1,
                        ));
                        assert(spec_get(*v, key@) == Some(fields@[i as int].1));
                    }
                    let r = &fields[i].1;
                    assert(*r == fields@[i as int].1);
                    return Some(r);
                }
                i += 1;
            }
            proof {
                lemma_lookup_advance(fields@, key@, n as int);
                assert(fields@.skip(n as int) =~= Seq::<(String, JsonValue)>::empty());
            }
            None
        },
        _ => None,
    }
}

/// The string field `key`, when present with that type.
pub fn get_str<'a>(v: &'a JsonValue, key: &str) -> (r: Option<&'a String>)
    ensures
        match r {
            Some(s) => spec_get_str(*v, key@) == Some(s@),
            None => spec_get_str(*v, key@) is None,
        },
{
    match get_field(v, key) {
        Some(JsonValue::Str(s)) => Some(s),
        _ => None,
    }
}

/// The non-negative integer field `key`, when present with that type.
pub fn get_u64(v: &JsonValue, key: &str) -> (r: Option<u64>)
    ensures
        r == spec_get_u64(*v, key@),
{
    match get_field(v, key) {
        Some(JsonValue::Int(n)) => {
            let m = *n;
            if m >= 0 {
                Some(m as u64)
            } else {
                None
            }
        },
        _ => None,
    }
}

/// The boolean field `key`, when present with that type.
pub fn get_bool(v: &JsonValue, key: &str) -> (r: Option<bool>)
    ensures
        r == spec_get_bool(*v, key@),
{
    match get_field(v, key) {
        Some(JsonValue::Bool(b)) => Some(*b),
        _ => None,
    }
}

/// The array field `key`, when present with that type.
pub fn get_arr<'a>(v: &'a JsonValue, key: &str) -> (r: Option<&'a Vec<JsonValue>>)
    ensures
        match r {
            Some(items) => spec_get(*v, key@) == Some(JsonValue::Arr(*items)),
            None => !(spec_get(*v, key@) matches Some(JsonValue::Arr(_))),
        },
{
    match get_field(v, key) {
        Some(JsonValue::Arr(items)) => Some(items),
        _ => None,
    }
}

/// How one character is written inside a JSON string literal.
pub open spec fn esc_char(c: char) -> Seq<char> {
    if c == '"' {
        seq!['\\', '"']
    } else if c == '\\' {
        seq!['\\', '\\']
    } else if c == '\n' {
        seq!['\\', 'n']
    } else if c == '\r' {
        seq!['\\', 'r']
    } else if c == '\t' {
        seq!['\\', 't']
    } else {
        seq![c]
    }
}

/// How a whole string is written inside a JSON string literal.
pub open spec fn esc_str(s: Seq<char>) -> Seq<char>
    decreases s.len(),
{
    if s.len() == 0 {
        Seq::empty()
    } else {
        esc_char(s[0]) + esc_str(s.drop_first())
    }
}

pub proof fn lemma_esc_str_last(s: Seq<char>)
    requires
        s.len() > 0,
    ensures
        esc_str(s) == esc_str(s.drop_last()) + esc_char(s.last()),
    decreases s.len(),
{
    if s.len() == 1 {
        assert(s.drop_last() =~= Seq::empty());
        assert(s.drop_first() =~= Seq::empty());
        assert(esc_str(s) =~= esc_str(s.drop_last()) + esc_char(s.last()));
    } else {
        lemma_esc_str_last(s.drop_first());
        assert(s.drop_first().drop_last() =~= s.drop_last().drop_first());
        assert(s.drop_last()[0] == s[0]);
        assert(s.drop_first().last() == s.last());
        assert(esc_str(s) =~= esc_str(s.drop_last()) + esc_char(s.last()));
    }
}

/// Appends the escaped form of `s` to `out`.
pub fn push_escaped(out: &mut Vec<char>, s: &str)
    ensures
        final(out)@ == old(out)@ + esc_str(s@),
{
    let n = s.unicode_len();
    let mut i: usize = 0;
    while i < n
        invariant
            i <= n,
            n == s@.len(),
            out@ == old(out)@ + esc_str(s@.take(i as int)),
        decreases n - i,
    {
        let c = s.get_char(i);
        if c == '"' {
            out.push('\\');
            out.push('"');
        } else if c == '\\' {
            out.push('\\');
            out.push('\\');
        } else if c == '\n' {
            out.push('\\');
            out.push('n');
        } else if c == '\r' {
            out.push('\\');
            out.push('r');
        } else if c == '\t' {
            out.push('\\');
            out.push('t');
        } else {
            out.push(c);
        }
        proof {
            let t = s@.take(i + 1 as int);
            assert(t.drop_last() =~= s@.take(i as int));
            assert(t.last() == s@[i as int]);
            lemma_esc_str_last(t);
            assert(out@ =~= old(out)@ + esc_str(t));
        }
        i += 1;
    }
    proof {
        assert(s@.take(n as int) =~= s@);
    }
}

/// The serialized text of a value.
pub open spec fn json_of(v: JsonValue) -> Seq<char>
    decreases v,
{
    match v {
        JsonValue::Null => "null"@,
        JsonValue::Bool(b) => if b {
            "true"@
        } else {
            "false"@
        },
        JsonValue::Int(n) => dec_str_signed(n as int),
        JsonValue::Str(s) => seq!['"'] + esc_str(s@) + seq!['"'],
        JsonValue::Arr(items) => seq!['['] + json_arr_body(items@) + seq![']'],
        JsonValue::Obj(fields) => seq!['{'] + json_obj_body(fields@) + seq!['}'],
    }
}

/// The comma-separated serialization of array elements.
pub open spec fn json_arr_body(items: Seq<JsonValue>) -> Seq<char>
    decreases items,
{
    if items.len() == 0 {
        Seq::empty()
    } else if items.len() == 1 {
        json_of(items.last())
    } else {
        json_arr_body(items.drop_last()) + seq![','] + json_of(items.last())
    }
}

/// The comma-separated serialization of object fields.
pub open spec fn json_obj_body(fields: Seq<(String, JsonValue)>) -> Seq<char>
    decreases fields,
{
    if fields.len() == 0 {
        Seq::empty()
    } else if fields.len() == 1 {
        json_field(fields.last())
    } else {
        json_obj_body(fields.drop_last()) + seq![','] + json_field(fields.last())
    }
}

/// The serialization of a single `"key":value` field.
pub open spec fn json_field(field: (String, JsonValue)) -> Seq<char>
    decreases field,
{
    seq!['"'] + esc_str(field.0@) + seq!['"', ':'] + json_of(field.1)
}

#[verifier::loop_isolation(false)]
fn push_json(out: &mut Vec<char>, v: &JsonValue)
    ensures
        final(out)@ == old(out)@ + json_of(*v),
    decreases *v,
{
    match v {
        JsonValue::Null => {
            push_str_chars(out, "null");
        },
        JsonValue::Bool(b) => {
            if *b {
                push_str_chars(out, "true");
            } else {
                push_str_chars(out, "false");
            }
        },
        JsonValue::Int(n) => {
            let s = i64_to_string(*n);
            push_str_chars(out, s.as_str());
        },
        JsonValue::Str(s) => {
            out.push('"');
            push_escaped(out, s.as_str());
            out.push('"');
            proof {
                assert(out@ =~= old(out)@ + json_of(*v));
            }
        },
        JsonValue::Arr(items) => {
            out.push('[');
            let n = items.len();
            let mut i: usize = 0;
            while i < n
                invariant
                    i <= n,
                    n == items@.len(),
                    out@ == old(out)@ + seq!['['] + json_arr_body(items@.take(i as int)),
                decreases n - i,
            {
                if i > 0 {
                    out.push(',');
                }
                proof {
                    broadcast use vstd::std_specs::vec::axiom_vec_index_decreases;

                    assert(decreases_to!(*v => *items));
                    assert(decreases_to!(*v => items@[i as int]));
                }
                push_json(out, &items[i]);
                proof {
                    let t = items@.take(i + 1 as int);
                    assert(t.drop_last() =~= items@.take(i as int));
                    assert(t.last() == items@[i as int]);
                    assert(out@ =~= old(out)@ + seq!['['] + json_arr_body(t));
                }
                i += 1;
            }
            out.push(']');
            proof {
                assert(items@.take(n as int) =~= items@);
                assert(out@ =~= old(out)@ + json_of(*v));
            }
        },
        JsonValue::Obj(fields) => {
            out.push('{');
            let n = fields.len();
            let mut i: usize = 0;
            while i < n
                invariant
                    i <= n,
                    n == fields@.len(),
                    out@ == old(out)@ + seq!['{'] + json_obj_body(fields@.take(i as int)),
                decreases n - i,
            {
                if i > 0 {
                    out.push(',');
                }
                out.push('"');
                push_escaped(out, fields[i].0.as_str());
                out.push('"');
                out.push(':');
                proof {
                    broadcast use vstd::std_specs::vec::axiom_vec_index_decreases;

                    assert(decreases_to!(*v => *fields));
                    assert(decreases_to!(*v => fields@[i as int]));
                    assert(decreases_to!(*v => fields@[i as int].1));
                }
                push_json(out, &fields[i].1);
                proof {
                    let t = fields@.take(i + 1 as int);
                    assert(t.drop_last() =~= fields@.take(i as int));
                    assert(t.last() == fields@[i as int]);
                    let fld = fields@[i as int];
                    assert(json_field(fld) =~= seq!['"'] + esc_str(fld.0@) + seq!['"', ':']
                        + json_of(fld.1));
                    assert(out@ =~= old(out)@ + seq!['{'] + json_obj_body(t));
                }
                i += 1;
            }
            out.push('}');
            proof {
                assert(fields@.take(n as int) =~= fields@);
                assert(out@ =~= old(out)@ + json_of(*v));
            }
        },
    }
}

/// Serializes a value to JSON text.
pub fn json_text(v: &JsonValue) -> (r: String)
    ensures
        r@ == json_of(*v),
{
    let mut out: Vec<char> = Vec::new();
    push_json(&mut out, v);
    string_from_chars(&out)
}

} // verus!
