//! JSON encoding of values, rows and result sets.
use vstd::prelude::*;
use crate::digits::{append_dec, dec_text, digit_char, int_text};
use crate::fmt_util::{join, joined, views};
use crate::render::{bool_text, null_text, rendered};
use crate::table::{Column, ResultSet, Row};
use crate::value::TypedValue;

verus! {

/// A JSON value as this encoder produces it.
pub enum JsonValue {
    Null,
    Bool(bool),
    /// A number, held as its JSON text.
    Number(String),
    Str(String),
}

/// The JSON escape of one character inside a string.
pub open spec fn json_escape(c: char) -> Seq<char> {
    if c == '"' {
        seq!['\\', '"']
    } else if c == '\\' {
        seq!['\\', '\\']
    } else if c == '\n' {
        seq!['\\', 'n']
    } else if c == '\r' {
        seq!['\\', 'r']
    } else if c == '\t' {
        seq!['\\', 't']
    } else if c == '\x08' {
        seq!['\\', 'b']
    } else if c == '\x0c' {
        seq!['\\', 'f']
    } else if (c as u32) < 0x20 {
        seq!['\\', 'u', '0', '0', digit_char((c as u32 / 16) as nat), digit_char((c as u32 % 16) as nat)]
    } else {
        seq![c]
    }
}

pub open spec fn json_escaped(s: Seq<char>) -> Seq<char>
    decreases s.len(),
{
    if s.len() == 0 {
        Seq::empty()
    } else {
        json_escaped(s.drop_last()) + json_escape(s.last())
    }
}

/// A JSON string literal holding `s`.
pub open spec fn json_quoted(s: Seq<char>) -> Seq<char> {
    seq!['"'] + json_escaped(s) + seq!['"']
}

/// Relies on `serde_json::to_string` on a `str`: a quoted string with `"`, `\`,
/// and control characters escaped (`\b \f \n \r \t`, others as `\u00xx`). Writing
/// into its own buffer, it has no error for a `str`.
#[verifier::external_body]
fn json_string(s: &str) -> (r: String)
    ensures
        r@ == json_quoted(s@),
{
    serde_json::to_string(s).unwrap_or_default()
}

/// The JSON text of a value: null for an absent payload, numbers and booleans
/// as themselves, anything else as a string holding its full text form.
pub open spec fn value_json(v: TypedValue) -> Seq<char> {
    if v.is_null_spec() {
        null_text()
    } else {
        match v {
            TypedValue::UInt8(Some(x)) => int_text(x as int),
            TypedValue::Int16(Some(x)) => int_text(x as int),
            TypedValue::Int32(Some(x)) => int_text(x as int),
            TypedValue::Int64(Some(x)) => int_text(x as int),
            TypedValue::Float32(Some(f)) => match f.json {
                Some(t) => t@,
                None => null_text(),
            },
            TypedValue::Float64(Some(f)) => match f.json {
                Some(t) => t@,
                None => null_text(),
            },
            TypedValue::Bool(Some(b)) => bool_text(b),
            _ => json_quoted(rendered(v, None)),
        }
    }
}

/// The JSON text of a value built by this encoder.
pub open spec fn json_text(j: JsonValue) -> Seq<char> {
    match j {
        JsonValue::Null => null_text(),
        JsonValue::Bool(b) => bool_text(b),
        JsonValue::Number(t) => t@,
        JsonValue::Str(s) => json_quoted(s@),
    }
}

/// The key of the column at `index`: its name, or `_<index>` when the name is empty.
pub open spec fn column_key(name: Seq<char>, index: nat) -> Seq<char> {
    if name.len() == 0 {
        seq!['_'] + dec_text(index)
    } else {
        name
    }
}

/// `"key":value` for the column at `index`.
pub open spec fn entry_json(c: Column, index: nat) -> Seq<char> {
    json_quoted(column_key(c.name@, index)) + seq![':'] + value_json(c.value)
}

/// The `"key":value` entries of a row, in column order.
pub open spec fn row_entries(cols: Seq<Column>) -> Seq<Seq<char>> {
    Seq::new(cols.len(), |i: int| entry_json(cols[i], i as nat))
}

/// A row as a JSON object, keys in column order.
pub open spec fn row_json(cols: Seq<Column>) -> Seq<char> {
    seq!['{'] + joined(row_entries(cols), seq![',']) + seq!['}']
}

/// The JSON objects of the rows, in row order.
pub open spec fn set_items(rows: Seq<Row>) -> Seq<Seq<char>> {
    Seq::new(rows.len(), |i: int| row_json(rows[i].columns@))
}

/// A result set as a JSON array of row objects, in row order.
pub open spec fn set_json(rows: Seq<Row>) -> Seq<char> {
    seq!['['] + joined(set_items(rows), seq![',']) + seq![']']
}

impl JsonValue {
    /// The compact JSON text.
    pub fn to_json(&self) -> (r: String)
        ensures
            r@ == json_text(*self),
    {
        match self {
            JsonValue::Null => crate::render::fmt_null(),
            JsonValue::Bool(b) => crate::render::fmt_bool(Some(*b)),
            JsonValue::Number(t) => String::from_str(t.as_str()),
            JsonValue::Str(s) => json_string(s.as_str()),
        }
    }
}

/// The JSON value of a typed value; its text is `value_json(v)`.
pub fn encode_value(v: &TypedValue) -> (r: JsonValue)
    ensures
        json_text(r) == value_json(*v),
        v.is_null_spec() ==> r is Null,
        v is Bool && !v.is_null_spec() ==> r is Bool,
        (v is UInt8 || v is Int16 || v is Int32 || v is Int64) && !v.is_null_spec() ==> r is Number,
{
    if v.is_null() {
        return JsonValue::Null;
    }
    match v {
        TypedValue::UInt8(Some(x)) => JsonValue::Number(crate::render::fmt_std(Some(*x as i64))),
        TypedValue::Int16(Some(x)) => JsonValue::Number(crate::render::fmt_std(Some(*x as i64))),
        TypedValue::Int32(Some(x)) => JsonValue::Number(crate::render::fmt_std(Some(*x as i64))),
        TypedValue::Int64(Some(x)) => JsonValue::Number(crate::render::fmt_std(Some(*x))),
        TypedValue::Float32(Some(f)) | TypedValue::Float64(Some(f)) => match &f.json {
            Some(t) => JsonValue::Number(String::from_str(t.as_str())),
            None => JsonValue::Null,
        },
        TypedValue::Bool(Some(b)) => JsonValue::Bool(*b),
        _ => JsonValue::Str(v.render(None)),
    }
}

/// Appends the JSON text of a typed value.
fn append_value_json(out: &mut String, v: &TypedValue)
    ensures
        final(out)@ == old(out)@ + value_json(*v),
{
    let j = encode_value(v);
    let t = j.to_json();
    out.append(t.as_str());
}

/// The key of a column: its name, or `_<index>` for an empty name.
pub fn column_key_text(name: &str, index: usize) -> (r: String)
    ensures
        r@ == column_key(name@, index as nat),
{
    if name.unicode_len() == 0 {
        proof { reveal_strlit("_"); }
        let mut out = String::from_str("_");
        append_dec(&mut out, index as u64);
        out
    } else {
        String::from_str(name)
    }
}

/// The row as a JSON object: each column's key and value, in column order.
pub fn encode_row(row: &Row) -> (r: String)
    ensures
        r@ == row_json(row.columns@),
{
    let ghost cols = row.columns@;
    let ghost want = row_entries(cols);
    let mut entries: Vec<String> = Vec::new();
    let mut i: usize = 0;
    while i < row.columns.len()
        invariant
            i <= cols.len(),
            cols == row.columns@,
            want == row_entries(cols),
            views(entries@) == want.take(i as int),
        decreases cols.len() - i,
    {
        let c = &row.columns[i];
        let key = column_key_text(c.name.as_str(), i);
        let mut e = json_string(key.as_str());
        proof { reveal_strlit(":"); }
        e.append(":");
        append_value_json(&mut e, &c.value);
        assert(e@ =~= entry_json(cols[i as int], i as nat));
        let ghost before = entries@;
        entries.push(e);
        proof {
            assert(views(entries@) =~= views(before).push(e@));
            assert(want.take(i + 1) =~= want.take(i as int).push(want[i as int]));
        }
        i = i + 1;
    }
    assert(want.take(i as int) =~= want);
    assert(views(entries@) == want);
    proof {
        reveal_strlit(",");
        reveal_strlit("{");
        reveal_strlit("}");
    }
    assert(","@ =~= seq![',']);
    let body = join(&entries, ",");
    assert(body@ == joined(want, seq![',']));
    let mut out = String::from_str("{");
    out.append(body.as_str());
    out.append("}");
    assert(out@ =~= row_json(cols));
    out
}

/// The result set as a JSON array of its rows' objects, in row order.
pub fn encode_result_set(set: &ResultSet) -> (r: String)
    ensures
        r@ == set_json(set.rows@),
{
    let ghost rows = set.rows@;
    let ghost want = set_items(rows);
    let mut items: Vec<String> = Vec::new();
    let mut i: usize = 0;
    while i < set.rows.len()
        invariant
            i <= rows.len(),
            rows == set.rows@,
            want == set_items(rows),
            views(items@) == want.take(i as int),
        decreases rows.len() - i,
    {
        let t = encode_row(&set.rows[i]);
        let ghost before = items@;
        items.push(t);
        proof {
            assert(views(items@) =~= views(before).push(t@));
            assert(want.take(i + 1) =~= want.take(i as int).push(want[i as int]));
        }
        i = i + 1;
    }
    assert(want.take(i as int) =~= want);
    assert(views(items@) == want);
    proof {
        reveal_strlit(",");
        reveal_strlit("[");
        reveal_strlit("]");
    }
    assert(","@ =~= seq![',']);
    let body = join(&items, ",");
    assert(body@ == joined(want, seq![',']));
    let mut out = String::from_str("[");
    out.append(body.as_str());
    out.append("]");
    assert(out@ =~= set_json(rows));
    out
}

} // verus!
