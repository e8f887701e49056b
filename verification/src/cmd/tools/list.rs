use vstd::prelude::*;

verus! {

/// A run of `n` spaces.
pub open spec fn spaces(n: nat) -> Seq<char> {
    Seq::new(n, |i: int| ' ')
}

/// The number of spaces that fill a text of `used` bytes up to `len`.
pub open spec fn padding(used: nat, len: nat) -> nat {
    if used < len {
        (len - used) as nat
    } else {
        0
    }
}

/// Returns the text of a table cell: `s`, filled with spaces up to `len` bytes. A longer
/// text is not cut.
pub fn cell(s: &str, len: usize) -> (r: String)
    ensures
        r@ == s@ + spaces(padding(s.len() as nat, len as nat)),
{
    let mut text = String::from_str(s);
    let used = s.len();
    let mut filled: usize = used;
    assert(text@ =~= s@ + spaces(0));
    while filled < len
        invariant
            used <= filled,
            used == s.len(),
            filled <= len || filled == used,
            text@ == s@ + spaces((filled - used) as nat),
        decreases len - filled,
    {
        proof {
            reveal_strlit(" ");
        }
        let ghost before = text@;
        text.append(" ");
        assert(text@ =~= s@ + spaces((filled + 1 - used) as nat));
        filled += 1;
    }
    text
}

} // verus!
