use vstd::prelude::*;
use crate::text::strings;

verus! {

/// What stands before every line but the first.
pub const INDENT: &'static str = "             ";

/// The header of an error.
pub const ERROR_HEADER: &'static str = "       Error";

/// The header of a warning.
pub const WARN_HEADER: &'static str = "     Warning";

/// The lines of the first `n` characters of `text`, found as a reader would: a line feed
/// ends a line and begins the next one.
pub open spec fn lines_of(text: Seq<char>, n: int) -> Seq<Seq<char>>
    decreases n,
{
    if n <= 0 {
        seq![Seq::<char>::empty()]
    } else {
        let earlier = lines_of(text, n - 1);
        if text[n - 1] == '\n' {
            earlier.push(Seq::empty())
        } else {
            earlier.drop_last().push(earlier.last().push(text[n - 1]))
        }
    }
}

/// The lines with the header before the first one and as much white space before the
/// others.
pub open spec fn aligned(header: Seq<char>, lines: Seq<Seq<char>>) -> Seq<Seq<char>> {
    Seq::new(
        lines.len(),
        |i: int|
            if i == 0 {
                header + " "@ + lines[i]
            } else {
                INDENT@ + lines[i]
            },
    )
}

/// Every text has a first line.
pub proof fn lemma_lines_are_not_empty(text: Seq<char>, n: int)
    ensures
        lines_of(text, n).len() > 0,
    decreases n,
{
    if n > 0 {
        lemma_lines_are_not_empty(text, n - 1);
    }
}

/// Returns the lines of `text`.
pub fn split_lines(text: &str) -> (r: Vec<String>)
    ensures
        strings(r@) == lines_of(text@, text@.len() as int),
{
    let n = text.unicode_len();
    let mut lines: Vec<String> = Vec::new();
    let mut start: usize = 0;
    let mut i: usize = 0;
    assert(text@.subrange(0, 0) =~= Seq::<char>::empty());
    assert(strings(lines@).push(text@.subrange(0, 0)) =~= lines_of(text@, 0));
    while i < n
        invariant
            start <= i <= n,
            n == text@.len(),
            lines_of(text@, i as int) == strings(lines@).push(
                text@.subrange(start as int, i as int),
            ),
        decreases n - i,
    {
        let ghost done = strings(lines@);
        let ghost current = text@.subrange(start as int, i as int);
        if text.get_char(i) == '\n' {
            let line = text.substring_char(start, i);
            lines.push(String::from_str(line));
            start = i + 1;
            assert(strings(lines@) =~= done.push(current));
            assert(text@.subrange(start as int, i + 1) =~= Seq::<char>::empty());
        } else {
            assert(done.push(current).drop_last() =~= done);
            assert(text@.subrange(start as int, i + 1) =~= current.push(text@[i as int]));
        }
        i += 1;
    }
    let ghost done = strings(lines@);
    let line = text.substring_char(start, n);
    lines.push(String::from_str(line));
    assert(strings(lines@) =~= done.push(text@.subrange(start as int, n as int)));
    lines
}

/// Returns the lines to print for `lines`: aligned, with only the first line getting the
/// header.
pub fn print_lines(header: &str, lines: &str) -> (r: Vec<String>)
    ensures
        strings(r@) == aligned(header@, lines_of(lines@, lines@.len() as int)),
{
    let parts = split_lines(lines);
    let mut out: Vec<String> = Vec::new();
    let mut i: usize = 0;
    while i < parts.len()
        invariant
            i <= parts.len(),
            out@.len() == i,
            forall|j: int|
                0 <= j < i ==> out@[j]@ == aligned(header@, strings(parts@))[j],
        decreases parts.len() - i,
    {
        let mut line = if i == 0 {
            String::from_str(header).concat(" ")
        } else {
            String::from_str(INDENT)
        };
        line.append(parts[i].as_str());
        out.push(line);
        i += 1;
    }
    assert(strings(out@) =~= aligned(header@, strings(parts@)));
    out
}

/// Returns the lines to print for the error: below the header of an error.
pub fn print_err(err: &str) -> (r: Vec<String>)
    ensures
        strings(r@) == aligned(ERROR_HEADER@, lines_of(err@, err@.len() as int)),
{
    print_lines(ERROR_HEADER, err)
}

/// Returns the lines to print for the warning: below the header of a warning.
pub fn print_warn(warn: &str) -> (r: Vec<String>)
    ensures
        strings(r@) == aligned(WARN_HEADER@, lines_of(warn@, warn@.len() as int)),
{
    print_lines(WARN_HEADER, warn)
}

} // verus!
