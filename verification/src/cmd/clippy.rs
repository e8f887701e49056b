use vstd::prelude::*;
use crate::cmd::CargoTargets;
use crate::error::{Error, ErrorView};
use crate::requirement::{Comparator, ComparatorView, Op, VersionReq};
use crate::text::strings;
use crate::tools::cargo::{is_toolchain_requirement, Cargo};

verus! {

/// The requirement on Clippy that goes with a requirement `=MAJOR.MINOR` on the Rust
/// toolchain: `=0.MAJOR.MINOR`.
pub open spec fn derived_version(comparators: Seq<ComparatorView>) -> Seq<ComparatorView> {
    seq![
        ComparatorView {
            op: Op::Exact,
            major: 0,
            minor: Some(comparators[0].major),
            patch: Some(comparators[0].minor->0),
            pre: Seq::empty(),
        },
    ]
}

/// The arguments of a run of Clippy on the given targets; in `strict` mode warnings are
/// errors.
pub open spec fn arguments_of(strict: bool, targets: CargoTargets) -> Seq<Seq<char>> {
    let base = seq!["--locked"@, "--workspace"@] + targets.flags() + seq!["--all-features"@];
    if strict {
        base + seq!["--"@, "-D"@, "warnings"@]
    } else {
        base
    }
}

/// Derives the clippy version from the Rust toolchain version. A requirement on the
/// toolchain of another shape than `=MAJOR.MINOR` is an error.
pub fn derive_version(rust_ver_req: &VersionReq) -> (r: Result<VersionReq, Error>)
    ensures
        is_toolchain_requirement(rust_ver_req@) ==> (r matches Ok(ver_req) && ver_req@
            == derived_version(rust_ver_req@)),
        !is_toolchain_requirement(rust_ver_req@) ==> (r matches Err(e) && e@
            == (ErrorView::UnsupportedRequirement {
            tool: Cargo::NAME@,
            requirement: rust_ver_req@,
        })),
{
    if rust_ver_req.len() == 1 {
        let comparator = rust_ver_req.comparator(0);
        match (comparator.op(), comparator.minor(), comparator.patch()) {
            (Op::Exact, Some(minor), None) => {
                if comparator.pre().unicode_len() == 0 {
                    return Ok(
                        VersionReq::single(
                            Comparator::exact_partial(0, Some(comparator.major()), Some(minor)),
                        ),
                    );
                }
            },
            _ => {},
        }
    }
    Err(
        Error::UnsupportedRequirement {
            tool: String::from_str(Cargo::NAME),
            requirement: rust_ver_req.clone(),
        },
    )
}

/// Returns the arguments of a run of Clippy on the given targets; in `strict` mode
/// warnings are treated as errors.
pub fn arguments(strict: bool, targets: CargoTargets) -> (r: Vec<String>)
    ensures
        strings(r@) == arguments_of(strict, targets),
{
    let mut args: Vec<String> = Vec::new();
    args.push(String::from_str("--locked"));
    args.push(String::from_str("--workspace"));
    let flags = targets.as_args();
    let ghost base = strings(args@);
    assert(base =~= seq!["--locked"@, "--workspace"@]);
    let mut i: usize = 0;
    while i < flags.len()
        invariant
            i <= flags.len(),
            strings(args@) == base + crate::cmd::slices(flags@).take(i as int),
        decreases flags.len() - i,
    {
        let ghost before = strings(args@);
        args.push(String::from_str(flags[i]));
        assert(strings(args@) =~= before.push(flags@[i as int]@));
        assert(crate::cmd::slices(flags@).take(i + 1) =~= crate::cmd::slices(flags@).take(
            i as int,
        ).push(flags@[i as int]@));
        i += 1;
    }
    assert(crate::cmd::slices(flags@).take(flags@.len() as int) =~= crate::cmd::slices(flags@));
    let ghost selected = strings(args@);
    assert(selected == base + targets.flags());
    args.push(String::from_str("--all-features"));
    let ghost plain = strings(args@);
    assert(plain =~= selected + seq!["--all-features"@]);
    if strict {
        args.push(String::from_str("--"));
        args.push(String::from_str("-D"));
        args.push(String::from_str("warnings"));
        assert(strings(args@) =~= plain + seq!["--"@, "-D"@, "warnings"@]);
    }
    args
}

} // verus!
