//! Text that goes into a script as comment lines.

use vstd::prelude::*;
use vstd::string::*;

verus! {

/// A text without the white space at its beginning and end, as `str::trim`
/// gives it.
pub uninterp spec fn trimmed(text: Seq<char>) -> Seq<char>;

/// `str::trim`, copied into a `String`.
#[verifier::external_body]
pub(crate) fn trim_text(text: &str) -> (kept: String)
    ensures
        kept@ == trimmed(text@),
{
    text.trim().to_string()
}

/// A text without the white space at its end, as `str::trim_end` gives it.
pub uninterp spec fn trimmed_end(text: Seq<char>) -> Seq<char>;

/// `str::trim_end`, copied into a `String`.
#[verifier::external_body]
fn trim_end_text(text: &str) -> (kept: String)
    ensures
        kept@ == trimmed_end(text@),
{
    text.trim_end().to_string()
}

/// The first `n` characters of `text` with every `from` replaced by `to`.
pub open spec fn replaced(text: Seq<char>, from: char, to: Seq<char>, n: int) -> Seq<char>
    decreases n,
{
    if n <= 0 {
        Seq::empty()
    } else if text[n - 1] == from {
        replaced(text, from, to, n - 1) + to
    } else {
        replaced(text, from, to, n - 1).push(text[n - 1])
    }
}

/// `str::replace` with a character as the pattern: every occurrence of
/// `from` becomes `to`, and all else stays as it is.
#[verifier::external_body]
fn replace_char(text: &str, from: char, to: &str) -> (out: String)
    ensures
        out@ == replaced(text@, from, to@, text@.len() as int),
{
    text.replace(from, to)
}

/// A text as it stands behind `# ` in a script: without the white space at
/// its end, and with `# ` behind every newline, so that each further line
/// is a comment as well.
pub open spec fn commented_text(text: Seq<char>) -> Seq<char> {
    replaced(trimmed_end(text), '\n', "\n# "@, trimmed_end(text).len() as int)
}

pub fn commented(text: &str) -> (out: String)
    ensures
        out@ == commented_text(text@),
{
    let kept = trim_end_text(text);
    replace_char(kept.as_str(), '\n', "\n# ")
}

/// The first `n` of `lines`, with a newline between them.
pub open spec fn joined_lines(lines: Seq<String>, n: int) -> Seq<char>
    decreases n,
{
    if n <= 0 {
        Seq::empty()
    } else if n == 1 {
        lines[0]@
    } else {
        joined_lines(lines, n - 1) + "\n"@ + lines[n - 1]@
    }
}

/// Joins `lines` with newlines.
pub fn join_lines(lines: &Vec<String>) -> (text: String)
    ensures
        text@ == joined_lines(lines@, lines@.len() as int),
{
    let mut text = String::new();
    let mut i: usize = 0;
    while i < lines.len()
        invariant
            i <= lines@.len(),
            text@ == joined_lines(lines@, i as int),
        decreases lines@.len() - i,
    {
        if i > 0 {
            text.append("\n");
        }
        let ghost before = text@;
        text.append(lines[i].as_str());
        assert(i == 0 ==> before + lines@[0]@ =~= lines@[0]@);
        i += 1;
    }
    text
}

/// Where the last line of `text[..n]` starts: behind its last newline, or
/// at the front if it has none.
pub open spec fn line_start(text: Seq<char>, n: int) -> int
    decreases n,
{
    if n <= 0 {
        0
    } else if text[n - 1] == '\n' {
        n
    } else {
        line_start(text, n - 1)
    }
}

/// The lines that end within the first `n` characters of `text`, without
/// their newlines.
pub open spec fn lines_within(text: Seq<char>, n: int) -> Seq<Seq<char>>
    decreases n,
{
    if n <= 0 {
        Seq::empty()
    } else if text[n - 1] == '\n' {
        lines_within(text, n - 1).push(text.subrange(line_start(text, n - 1), n - 1))
    } else {
        lines_within(text, n - 1)
    }
}

/// The lines of `text`: the pieces between its newlines. A text without a
/// newline is one line, and a text that ends in a newline has an empty
/// last line.
pub open spec fn lines_of(text: Seq<char>) -> Seq<Seq<char>> {
    lines_within(text, text.len() as int).push(
        text.subrange(line_start(text, text.len() as int), text.len() as int),
    )
}

/// The texts of `lines`, in order.
pub open spec fn line_texts(lines: Seq<String>) -> Seq<Seq<char>> {
    Seq::new(lines.len(), |i: int| lines[i]@)
}

/// Splits `text` at its newlines.
pub fn split_lines(text: &str) -> (lines: Vec<String>)
    ensures
        line_texts(lines@) == lines_of(text@),
{
    let len: usize = text.unicode_len();
    let mut lines: Vec<String> = Vec::new();
    let mut start: usize = 0;
    let mut i: usize = 0;
    assert(line_texts(lines@) =~= lines_within(text@, 0));
    while i < len
        invariant
            len == text@.len(),
            start <= i <= len,
            start == line_start(text@, i as int),
            line_texts(lines@) == lines_within(text@, i as int),
        decreases len - i,
    {
        if text.get_char(i) == '\n' {
            let ghost had = lines@;
            lines.push(String::from_str(text.substring_char(start, i)));
            assert(line_texts(lines@) =~= line_texts(had).push(text@.subrange(start as int, i as int)));
            start = i + 1;
        }
        i += 1;
    }
    let ghost had = lines@;
    lines.push(String::from_str(text.substring_char(start, len)));
    assert(line_texts(lines@) =~= line_texts(had).push(text@.subrange(start as int, len as int)));
    lines
}

/// Number of commas among the first `n` characters of `line`.
pub open spec fn commas(line: Seq<char>, n: int) -> nat
    decreases n,
{
    if n <= 0 {
        0
    } else if line[n - 1] == ',' {
        commas(line, n - 1) + 1
    } else {
        commas(line, n - 1)
    }
}

/// Position of the last comma among the first `n` characters of `line`, or
/// -1 if there is none.
pub open spec fn last_comma(line: Seq<char>, n: int) -> int
    decreases n,
{
    if n <= 0 {
        -1
    } else if line[n - 1] == ',' {
        n - 1
    } else {
        last_comma(line, n - 1)
    }
}

/// The two fields of a line that holds exactly one comma: what stands
/// before it and what stands behind it. Any other line has no fields.
pub open spec fn two_fields(line: Seq<char>) -> Option<(Seq<char>, Seq<char>)> {
    if commas(line, line.len() as int) == 1 {
        let at = last_comma(line, line.len() as int);
        Some((line.subrange(0, at), line.subrange(at + 1, line.len() as int)))
    } else {
        None
    }
}

/// Splits a line that holds exactly one comma into its two fields.
pub fn split_fields(line: &str) -> (fields: Option<(String, String)>)
    ensures
        match fields {
            Some((left, right)) => two_fields(line@) == Some((left@, right@)),
            None => two_fields(line@) is None,
        },
{
    let len: usize = line.unicode_len();
    let mut count: usize = 0;
    let mut at: usize = 0;
    let mut i: usize = 0;
    while i < len
        invariant
            len == line@.len(),
            i <= len,
            count == commas(line@, i as int),
            count <= i,
            count > 0 ==> at == last_comma(line@, i as int) && at < i,
            count == 0 ==> last_comma(line@, i as int) == -1,
        decreases len - i,
    {
        if line.get_char(i) == ',' {
            count += 1;
            at = i;
        }
        i += 1;
    }
    if count == 1 {
        Some((String::from_str(line.substring_char(0, at)), String::from_str(line.substring_char(at + 1, len))))
    } else {
        None
    }
}

} // verus!
