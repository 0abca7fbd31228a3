//! Where a connection string or a query text is read from, and what is kept of it.
use vstd::prelude::*;

verus! {

/// The place a text comes from.
pub enum Source {
    /// The argument itself.
    Arg(String),
    /// The whole file at this path.
    File(String),
    /// The first line of the file at this path.
    FileLine(String),
    /// Standard input, up to its end or a break line.
    StdIn,
    /// One line of standard input.
    StdInLine,
}

/// The marker that ends a script read from standard input.
pub open spec fn break_marker() -> Seq<char> {
    "--db-break--"@
}

fn is_dash(value: &str) -> (r: bool)
    ensures
        r == (value@ == "-"@),
{
    proof { reveal_strlit("-"); }
    if value.unicode_len() == 1 {
        let c = value.get_char(0);
        if c == '-' {
            assert(value@ =~= "-"@);
            true
        } else {
            false
        }
    } else {
        false
    }
}

impl Source {
    /// For a single line: `-` is standard input, a path of an existing file is
    /// that file's first line, anything else is the text itself.
    pub fn new_any_line(value: String, is_file: bool) -> (r: Source)
        ensures
            value@ == "-"@ ==> r is StdInLine,
            value@ != "-"@ && is_file ==> r == Source::FileLine(value),
            value@ != "-"@ && !is_file ==> r == Source::Arg(value),
    {
        if is_dash(value.as_str()) {
            Source::StdInLine
        } else if is_file {
            Source::FileLine(value)
        } else {
            Source::Arg(value)
        }
    }

    /// For a text of many lines: `-` is standard input, a path of an existing
    /// file is that whole file, anything else is the text itself.
    pub fn new_any_multiline(value: String, is_file: bool) -> (r: Source)
        ensures
            value@ == "-"@ ==> r is StdIn,
            value@ != "-"@ && is_file ==> r == Source::File(value),
            value@ != "-"@ && !is_file ==> r == Source::Arg(value),
    {
        if is_dash(value.as_str()) {
            Source::StdIn
        } else if is_file {
            Source::File(value)
        } else {
            Source::Arg(value)
        }
    }
}

/// A line without the `\r` of a `\r\n` ending.
pub open spec fn without_cr(line: Seq<char>, ended: bool) -> Seq<char> {
    if ended && line.len() > 0 && line.last() == '\r' {
        line.drop_last()
    } else {
        line
    }
}

/// Whether `k` is where the first line of `s` ends: at the first `\n`, or at the end.
pub open spec fn first_line_end(s: Seq<char>, k: int) -> bool {
    0 <= k <= s.len() && (k == s.len() || s[k] == '\n') && forall|j: int|
        0 <= j < k ==> s[j] != '\n'
}

/// The first line of a text, without its line ending; `None` for an empty text.
pub fn first_line(text: &str) -> (r: Option<String>)
    ensures
        text@.len() == 0 <==> r is None,
        r matches Some(l) ==> exists|k: int|
            first_line_end(text@, k) && l@ == without_cr(text@.take(k), k < text@.len()),
{
    let n = text.unicode_len();
    if n == 0 {
        return None;
    }
    let mut k: usize = 0;
    while k < n && text.get_char(k) != '\n'
        invariant
            n == text@.len(),
            k <= n,
            forall|j: int| 0 <= j < k ==> text@[j] != '\n',
        decreases n - k,
    {
        k = k + 1;
    }
    let ended = k < n;
    let mut end = k;
    if ended && k > 0 && text.get_char(k - 1) == '\r' {
        end = k - 1;
    }
    let line = String::from_str(text.substring_char(0, end));
    assert(first_line_end(text@, k as int));
    assert(line@ =~= without_cr(text@.take(k as int), ended));
    Some(line)
}

/// Whether reading a script from standard input stops at this line: at the
/// end of input (`count` of zero bytes read) or at a line that starts with the break marker.
pub fn is_script_end(line: &str, count: usize) -> (r: bool)
    ensures
        r == (count == 0 || (line@.len() >= 12 && line@.take(12) == break_marker())),
{
    proof { reveal_strlit("--db-break--"); }
    if count == 0 {
        return true;
    }
    let marker = "--db-break--";
    assert(marker@.len() == 12);
    if line.unicode_len() < 12 {
        return false;
    }
    let mut i: usize = 0;
    while i < 12
        invariant
            i <= 12 <= line@.len(),
            count != 0,
            marker@ == break_marker(),
            marker@.len() == 12,
            forall|j: int| 0 <= j < i ==> line@[j] == marker@[j],
        decreases 12 - i,
    {
        if line.get_char(i) != marker.get_char(i) {
            assert(line@.take(12)[i as int] != break_marker()[i as int]);
            return false;
        }
        i = i + 1;
    }
    assert(line@.take(12) =~= break_marker());
    true
}

} // verus!
