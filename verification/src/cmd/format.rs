use vstd::prelude::*;
use crate::requirement::{requirement_parse, VersionReq};
use crate::text::strings;

verus! {

/// The version of rustfmt that is required in strict mode, as text.
pub const STRICT_VERSION: &'static str = "=1.8.0-stable";

/// The arguments of a run of rustfmt on the workspace; with `check` nothing is rewritten.
pub open spec fn arguments_of(check: bool) -> Seq<Seq<char>> {
    if check {
        seq!["--all"@, "--check"@]
    } else {
        seq!["--all"@]
    }
}

/// Returns the version of rustfmt that is required in strict mode.
pub fn strict_version() -> (r: Option<VersionReq>)
    ensures
        r is None <==> requirement_parse(STRICT_VERSION@) is None,
        r matches Some(ver_req) ==> requirement_parse(STRICT_VERSION@) == Some(ver_req@),
{
    VersionReq::parse(STRICT_VERSION)
}

/// Returns the arguments of a run of rustfmt on the workspace; with `check` nothing is
/// rewritten.
pub fn arguments(check: bool) -> (r: Vec<String>)
    ensures
        strings(r@) == arguments_of(check),
{
    let mut args: Vec<String> = Vec::new();
    args.push(String::from_str("--all"));
    if check {
        args.push(String::from_str("--check"));
    }
    assert(strings(args@) =~= arguments_of(check));
    args
}

} // verus!
