//! The output lines of a result stream, as JSON or as text.
use vstd::prelude::*;
use crate::digits::{append_dec, dec_text};
use crate::fmt_util::views;
use crate::json::{encode_result_set, set_json};
use crate::render::rendered;
use crate::table::{Column, ResultSet, ResultStream, Row};

verus! {

/// The two output forms.
#[derive(Clone, Copy, Debug, PartialEq, Eq, Structural)]
pub enum OutputFormat {
    Json,
    Text,
}

impl Default for OutputFormat {
    fn default() -> (r: OutputFormat)
        ensures
            r == OutputFormat::Json,
    {
        OutputFormat::Json
    }
}

/// `result set <index + 1>:`.
pub open spec fn set_header(index: nat) -> Seq<char> {
    "result set "@ + dec_text(index + 1) + ":"@
}

/// The line that opens each row.
pub open spec fn row_marker() -> Seq<char> {
    "> new row"@
}

/// `<index>: <name> = <value>`, the value's text in full.
pub open spec fn column_line(c: Column, index: nat) -> Seq<char> {
    dec_text(index) + ": "@ + c.name@ + " = "@ + rendered(c.value, None)
}

/// The marker line, then one line for each column in order.
pub open spec fn row_lines(cols: Seq<Column>) -> Seq<Seq<char>> {
    seq![row_marker()] + Seq::new(cols.len(), |i: int| column_line(cols[i], i as nat))
}

pub open spec fn rows_lines(rows: Seq<Row>) -> Seq<Seq<char>>
    decreases rows.len(),
{
    if rows.len() == 0 {
        Seq::empty()
    } else {
        rows_lines(rows.drop_last()) + row_lines(rows.last().columns@)
    }
}

/// The text lines of the result set at `index`: its header, then each row's lines.
pub open spec fn set_text_lines(rows: Seq<Row>, index: nat) -> Seq<Seq<char>> {
    seq![set_header(index)] + rows_lines(rows)
}

/// The text lines of every result set, in order.
pub open spec fn stream_text_lines(sets: Seq<ResultSet>) -> Seq<Seq<char>>
    decreases sets.len(),
{
    if sets.len() == 0 {
        Seq::empty()
    } else {
        stream_text_lines(sets.drop_last()) + set_text_lines(
            sets.last().rows@,
            (sets.len() - 1) as nat,
        )
    }
}

/// One JSON array line for each result set, in order.
pub open spec fn stream_json_lines(sets: Seq<ResultSet>) -> Seq<Seq<char>> {
    Seq::new(sets.len(), |i: int| set_json(sets[i].rows@))
}

/// The lines of the result set at `index` in the given form.
pub open spec fn set_lines(rows: Seq<Row>, index: nat, format: OutputFormat) -> Seq<Seq<char>> {
    match format {
        OutputFormat::Json => seq![set_json(rows)],
        OutputFormat::Text => set_text_lines(rows, index),
    }
}

fn push_row_lines(out: &mut Vec<String>, row: &Row)
    ensures
        views(final(out)@) == views(old(out)@) + row_lines(row.columns@),
{
    let ghost start = views(out@);
    let ghost cols = row.columns@;
    proof {
        reveal_strlit("> new row");
        reveal_strlit(": ");
        reveal_strlit(" = ");
    }
    let ghost before = out@;
    out.push(String::from_str("> new row"));
    assert(views(out@) =~= views(before).push(row_marker()));
    let mut i: usize = 0;
    while i < row.columns.len()
        invariant
            i <= cols.len(),
            cols == row.columns@,
            views(out@) == start + seq![row_marker()] + Seq::new(
                i as nat,
                |k: int| column_line(cols[k], k as nat),
            ),
        decreases cols.len() - i,
    {
        let c = &row.columns[i];
        let mut line = String::new();
        append_dec(&mut line, i as u64);
        line.append(": ");
        line.append(c.name.as_str());
        line.append(" = ");
        let v = c.value.render(None);
        line.append(v.as_str());
        assert(line@ =~= column_line(cols[i as int], i as nat));
        let ghost prev = out@;
        out.push(line);
        proof {
            assert(views(out@) =~= views(prev).push(line@));
            assert(Seq::new((i + 1) as nat, |k: int| column_line(cols[k], k as nat)) =~= Seq::new(
                i as nat,
                |k: int| column_line(cols[k], k as nat),
            ).push(column_line(cols[i as int], i as nat)));
        }
        i = i + 1;
    }
    assert(Seq::new(i as nat, |k: int| column_line(cols[k], k as nat)) =~= Seq::new(
        cols.len(),
        |k: int| column_line(cols[k], k as nat),
    ));
    assert(views(out@) =~= start + row_lines(cols));
}

/// Appends the text lines of the result set at `index`.
fn push_set_text(out: &mut Vec<String>, set: &ResultSet, index: usize)
    requires
        index < usize::MAX,
    ensures
        views(final(out)@) == views(old(out)@) + set_text_lines(set.rows@, index as nat),
{
    let ghost start = views(out@);
    let ghost rows = set.rows@;
    proof {
        reveal_strlit("result set ");
        reveal_strlit(":");
    }
    let mut header = String::from_str("result set ");
    append_dec(&mut header, index as u64 + 1);
    header.append(":");
    assert(header@ =~= set_header(index as nat));
    let ghost before = out@;
    out.push(header);
    assert(views(out@) =~= views(before).push(set_header(index as nat)));
    let mut i: usize = 0;
    while i < set.rows.len()
        invariant
            i <= rows.len(),
            rows == set.rows@,
            views(out@) == start + seq![set_header(index as nat)] + rows_lines(rows.take(i as int)),
        decreases rows.len() - i,
    {
        push_row_lines(out, &set.rows[i]);
        proof {
            let t = rows.take(i + 1);
            assert(t.drop_last() =~= rows.take(i as int));
            assert(t.last() == rows[i as int]);
            assert(views(out@) =~= start + seq![set_header(index as nat)] + rows_lines(t));
        }
        i = i + 1;
    }
    assert(rows.take(i as int) =~= rows);
    assert(views(out@) =~= start + set_text_lines(rows, index as nat));
}

/// The lines of one result set: one JSON array, or the text lines.
pub fn render_set(set: &ResultSet, index: usize, format: OutputFormat) -> (r: Vec<String>)
    requires
        index < usize::MAX,
    ensures
        views(r@) == set_lines(set.rows@, index as nat, format),
{
    let mut out: Vec<String> = Vec::new();
    match format {
        OutputFormat::Json => {
            out.push(encode_result_set(set));
            assert(views(out@) =~= seq![set_json(set.rows@)]);
        },
        OutputFormat::Text => {
            push_set_text(&mut out, set, index);
            assert(views(out@) =~= set_text_lines(set.rows@, index as nat));
        },
    }
    out
}

/// The JSON output: exactly one line per result set, each the array of its
/// rows, in statement order.
pub fn render_json(stream: &ResultStream) -> (r: Vec<String>)
    ensures
        r@.len() == stream.sets@.len(),
        views(r@) == stream_json_lines(stream.sets@),
{
    let ghost sets = stream.sets@;
    let mut out: Vec<String> = Vec::new();
    let mut i: usize = 0;
    while i < stream.sets.len()
        invariant
            i <= sets.len(),
            sets == stream.sets@,
            out@.len() == i,
            views(out@) == stream_json_lines(sets).take(i as int),
        decreases sets.len() - i,
    {
        let line = encode_result_set(&stream.sets[i]);
        let ghost prev = out@;
        out.push(line);
        proof {
            assert(views(out@) =~= views(prev).push(line@));
            assert(stream_json_lines(sets).take(i + 1) =~= stream_json_lines(sets).take(
                i as int,
            ).push(set_json(sets[i as int].rows@)));
        }
        i = i + 1;
    }
    assert(stream_json_lines(sets).take(i as int) =~= stream_json_lines(sets));
    out
}

/// The text output: each result set's header and row lines, in statement order.
pub fn render_text(stream: &ResultStream) -> (r: Vec<String>)
    requires
        stream.sets@.len() < usize::MAX,
    ensures
        views(r@) == stream_text_lines(stream.sets@),
{
    let ghost sets = stream.sets@;
    let mut out: Vec<String> = Vec::new();
    let mut i: usize = 0;
    assert(views(out@) =~= stream_text_lines(sets.take(0)));
    while i < stream.sets.len()
        invariant
            i <= sets.len() < usize::MAX,
            sets == stream.sets@,
            views(out@) == stream_text_lines(sets.take(i as int)),
        decreases sets.len() - i,
    {
        push_set_text(&mut out, &stream.sets[i], i);
        proof {
            let t = sets.take(i + 1);
            assert(t.drop_last() =~= sets.take(i as int));
            assert(t.last() == sets[i as int]);
        }
        i = i + 1;
    }
    assert(sets.take(i as int) =~= sets);
    out
}

} // verus!
