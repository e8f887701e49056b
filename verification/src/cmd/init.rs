use vstd::prelude::*;

verus! {

/// Says whether the configuration may be written: one that exists is only overwritten
/// with `force`.
pub fn may_write(force: bool, exists: bool) -> (r: bool)
    ensures
        r == (force || !exists),
{
    force || !exists
}

} // verus!
