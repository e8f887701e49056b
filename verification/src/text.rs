use vstd::prelude::*;
use vstd::utf8::{decode_utf8, valid_utf8};

verus! {

/// The values of a list of strings, in its order.
pub open spec fn strings(list: Seq<String>) -> Seq<Seq<char>> {
    Seq::new(list.len(), |i: int| list[i]@)
}

/// The values of a list of pairs of strings, in its order.
pub open spec fn pairs(list: Seq<(String, String)>) -> Seq<(Seq<char>, Seq<char>)> {
    Seq::new(list.len(), |i: int| (list[i].0@, list[i].1@))
}

/// A copy of `list`.
pub fn clone_strings(list: &Vec<String>) -> (r: Vec<String>)
    ensures
        strings(r@) == strings(list@),
{
    let mut copy: Vec<String> = Vec::new();
    let mut i: usize = 0;
    while i < list.len()
        invariant
            i <= list.len(),
            copy@.len() == i,
            forall|j: int| 0 <= j < i ==> copy@[j]@ == list@[j]@,
        decreases list.len() - i,
    {
        copy.push(list[i].clone());
        i += 1;
    }
    assert(strings(copy@) =~= strings(list@));
    copy
}

/// A copy of `list`.
pub fn clone_pairs(list: &Vec<(String, String)>) -> (r: Vec<(String, String)>)
    ensures
        pairs(r@) == pairs(list@),
{
    let mut copy: Vec<(String, String)> = Vec::new();
    let mut i: usize = 0;
    while i < list.len()
        invariant
            i <= list.len(),
            copy@.len() == i,
            forall|j: int|
                0 <= j < i ==> copy@[j].0@ == list@[j].0@ && copy@[j].1@ == list@[j].1@,
        decreases list.len() - i,
    {
        copy.push((list[i].0.clone(), list[i].1.clone()));
        i += 1;
    }
    assert(pairs(copy@) =~= pairs(list@));
    copy
}

/// Whether the two lists hold the same strings in the same order.
pub fn same_strings(a: &Vec<String>, b: &Vec<String>) -> (r: bool)
    ensures
        r == (strings(a@) == strings(b@)),
{
    if a.len() != b.len() {
        assert(strings(a@).len() != strings(b@).len());
        return false;
    }
    let mut i: usize = 0;
    while i < a.len()
        invariant
            i <= a.len(),
            a.len() == b.len(),
            forall|j: int| 0 <= j < i ==> a@[j]@ == b@[j]@,
        decreases a.len() - i,
    {
        if a[i] != b[i] {
            assert(strings(a@)[i as int] != strings(b@)[i as int]);
            return false;
        }
        i += 1;
    }
    assert(strings(a@) =~= strings(b@));
    true
}

/// Whether `needle` occurs in `text`.
pub open spec fn has_substring(text: Seq<char>, needle: Seq<char>) -> bool {
    exists|i: int|
        0 <= i <= text.len() - needle.len() && #[trigger] text.subrange(i, i + needle.len())
            == needle
}

/// Whether `text` begins with `prefix`.
pub open spec fn has_prefix(text: Seq<char>, prefix: Seq<char>) -> bool {
    prefix.len() <= text.len() && text.take(prefix.len() as int) == prefix
}

/// Calls `String::from_utf8` on a copy of the bytes; its error becomes `None`. The contract
/// says that the text comes exactly when the bytes are valid UTF-8, and is what they encode.
#[verifier::external_body]
fn decode_outside(bytes: &Vec<u8>) -> (r: Option<String>)
    ensures
        r is Some <==> valid_utf8(bytes@),
        r matches Some(text) ==> text@ == decode_utf8(bytes@),
{
    String::from_utf8(bytes.clone()).ok()
}

/// Calls `str::contains` with a string as the pattern, which says whether the pattern
/// matches a sub-slice of the text.
#[verifier::external_body]
fn contains_outside(text: &str, needle: &str) -> (r: bool)
    ensures
        r == has_substring(text@, needle@),
{
    text.contains(needle)
}

/// The text that the bytes encode as UTF-8; `None` where they are not valid UTF-8.
pub fn decode(bytes: &Vec<u8>) -> (r: Option<String>)
    ensures
        r is Some <==> valid_utf8(bytes@),
        r matches Some(text) ==> text@ == decode_utf8(bytes@),
{
    decode_outside(bytes)
}

/// Whether `needle` occurs in `text`.
pub fn contains(text: &str, needle: &str) -> (r: bool)
    ensures
        r == has_substring(text@, needle@),
{
    contains_outside(text, needle)
}

/// Whether `text` begins with `prefix`.
pub fn starts_with(text: &str, prefix: &str) -> (r: bool)
    ensures
        r == has_prefix(text@, prefix@),
{
    let n = prefix.unicode_len();
    if text.unicode_len() < n {
        return false;
    }
    let mut i: usize = 0;
    while i < n
        invariant
            i <= n,
            n == prefix@.len(),
            n <= text@.len(),
            forall|j: int| 0 <= j < i ==> text@[j] == prefix@[j],
        decreases n - i,
    {
        if text.get_char(i) != prefix.get_char(i) {
            assert(text@.take(n as int)[i as int] != prefix@[i as int]);
            return false;
        }
        i += 1;
    }
    assert(text@.take(n as int) =~= prefix@);
    true
}

/// Where the first line of `text` ends: at its first line feed, or at its end.
pub open spec fn is_line_end(text: Seq<char>, end: int) -> bool {
    &&& 0 <= end <= text.len()
    &&& end < text.len() ==> text[end] == '\n'
    &&& forall|j: int| 0 <= j < end ==> text[j] != '\n'
}

/// The first line of `text`, without its line ending: a line feed, or a carriage return and
/// a line feed. An empty text has no line.
pub open spec fn first_line_of(text: Seq<char>) -> Option<Seq<char>> {
    if text.len() == 0 {
        None
    } else {
        let end = choose|end: int| is_line_end(text, end);
        if 0 < end < text.len() && text[end - 1] == '\r' {
            Some(text.take(end - 1))
        } else {
            Some(text.take(end))
        }
    }
}

/// The first line of a text ends at one place only.
pub proof fn lemma_line_end_is_unique(text: Seq<char>, a: int, b: int)
    requires
        is_line_end(text, a),
        is_line_end(text, b),
    ensures
        a == b,
{
    if a < b {
        assert(text[a] != '\n');
    } else if b < a {
        assert(text[b] != '\n');
    }
}

/// The first line of `text`, without its line ending; `None` where `text` is empty.
pub fn first_line(text: &str) -> (r: Option<String>)
    ensures
        r is None <==> first_line_of(text@) is None,
        r matches Some(line) ==> first_line_of(text@) == Some(line@),
{
    let n = text.unicode_len();
    if n == 0 {
        return None;
    }
    let mut end: usize = 0;
    while end < n && text.get_char(end) != '\n'
        invariant
            end <= n,
            n == text@.len(),
            forall|j: int| 0 <= j < end ==> text@[j] != '\n',
        decreases n - end,
    {
        end += 1;
    }
    proof {
        assert(is_line_end(text@, end as int));
        let chosen = choose|e: int| is_line_end(text@, e);
        lemma_line_end_is_unique(text@, chosen, end as int);
    }
    let stop = if 0 < end && end < n && text.get_char(end - 1) == '\r' {
        end - 1
    } else {
        end
    };
    let line = text.substring_char(0, stop);
    assert(text@.subrange(0, stop as int) =~= text@.take(stop as int));
    Some(String::from_str(line))
}

/// The decimal digit of a number below ten.
pub open spec fn digit(d: nat) -> char {
    if d == 0 {
        '0'
    } else if d == 1 {
        '1'
    } else if d == 2 {
        '2'
    } else if d == 3 {
        '3'
    } else if d == 4 {
        '4'
    } else if d == 5 {
        '5'
    } else if d == 6 {
        '6'
    } else if d == 7 {
        '7'
    } else if d == 8 {
        '8'
    } else {
        '9'
    }
}

/// The decimal numeral of `n`, without leading zeros.
pub open spec fn decimal_of(n: nat) -> Seq<char>
    decreases n,
{
    if n < 10 {
        seq![digit(n)]
    } else {
        decimal_of(n / 10).push(digit(n % 10))
    }
}

fn digit_text(d: u64) -> (r: &'static str)
    requires
        d < 10,
    ensures
        r@ == seq![digit(d as nat)],
{
    proof {
        reveal_strlit("0");
        reveal_strlit("1");
        reveal_strlit("2");
        reveal_strlit("3");
        reveal_strlit("4");
        reveal_strlit("5");
        reveal_strlit("6");
        reveal_strlit("7");
        reveal_strlit("8");
        reveal_strlit("9");
    }
    let r = if d == 0 {
        "0"
    } else if d == 1 {
        "1"
    } else if d == 2 {
        "2"
    } else if d == 3 {
        "3"
    } else if d == 4 {
        "4"
    } else if d == 5 {
        "5"
    } else if d == 6 {
        "6"
    } else if d == 7 {
        "7"
    } else if d == 8 {
        "8"
    } else {
        "9"
    };
    assert(r@ =~= seq![digit(d as nat)]);
    r
}

/// The decimal numeral of `n`, without leading zeros.
pub fn decimal(n: u64) -> (r: String)
    ensures
        r@ == decimal_of(n as nat),
    decreases n,
{
    if n < 10 {
        String::from_str(digit_text(n))
    } else {
        let mut text = decimal(n / 10);
        text.append(digit_text(n % 10));
        assert(text@ =~= decimal_of((n / 10) as nat).push(digit((n % 10) as nat)));
        text
    }
}

/// The strings of `list` in one text, with `separator` between each two.
pub open spec fn joined(list: Seq<Seq<char>>, separator: Seq<char>) -> Seq<char>
    decreases list.len(),
{
    if list.len() == 0 {
        Seq::empty()
    } else if list.len() == 1 {
        list[0]
    } else {
        joined(list.drop_last(), separator) + separator + list.last()
    }
}

/// The strings of `list` in one text, with `separator` between each two.
pub fn join(list: &Vec<String>, separator: &str) -> (r: String)
    ensures
        r@ == joined(strings(list@), separator@),
{
    let mut text = String::new();
    let mut i: usize = 0;
    while i < list.len()
        invariant
            i <= list.len(),
            text@ == joined(strings(list@).take(i as int), separator@),
        decreases list.len() - i,
    {
        let ghost before = strings(list@).take(i as int);
        let ghost after = strings(list@).take(i + 1);
        assert(after.drop_last() =~= before);
        assert(after.last() == list@[i as int]@);
        if i > 0 {
            text.append(separator);
        }
        text.append(list[i].as_str());
        proof {
            if i == 0 {
                assert(text@ =~= after[0]);
            } else {
                assert(text@ =~= joined(before, separator@) + separator@ + after.last());
            }
        }
        i += 1;
    }
    assert(strings(list@).take(list@.len() as int) =~= strings(list@));
    text
}

} // verus!
