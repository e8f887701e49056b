use vstd::prelude::*;

verus! {

/// The file name of the executable called `name`: with `.exe` appended on Windows, unchanged
/// elsewhere.
pub fn executable_name(name: &str, windows: bool) -> (r: String)
    ensures
        r@ == if windows { name@ + ".exe"@ } else { name@ },
{
    let base = String::from_str(name);
    if windows {
        base.concat(".exe")
    } else {
        base
    }
}

} // verus!
