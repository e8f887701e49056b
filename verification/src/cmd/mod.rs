use vstd::prelude::*;

pub mod ci;
pub mod clippy;
pub mod copyright;
pub mod format;
pub mod init;
pub mod tools;

verus! {

/// The values of a list of string slices, in its order.
pub open spec fn slices(list: Seq<&'static str>) -> Seq<Seq<char>> {
    Seq::new(list.len(), |i: int| list[i]@)
}

/// Cargo targets.
#[derive(Copy, Clone, Debug, PartialEq, Eq, Structural)]
pub enum CargoTargets {
    /// All targets, i.e. `--lib --bins --examples --tests --benches`.
    All,
    /// Main targets are `--lib` and `--bins`.
    Main,
    /// Auxiliary targets are `--examples`, `--tests`, and `--benches`.
    Auxiliary,
}

impl CargoTargets {
    /// The Cargo flags that select the targets.
    pub open spec fn flags(self) -> Seq<Seq<char>> {
        match self {
            CargoTargets::All => seq!["--all-targets"@],
            // `--lib --bins` would produce a Cargo error if there are no binary targets, and
            // no flag at all selects the same targets without the error.
            CargoTargets::Main => seq![],
            CargoTargets::Auxiliary => seq!["--examples"@, "--tests"@, "--benches"@],
        }
    }

    /// Returns the Cargo flag arguments corresponding to `self`.
    pub fn as_args(&self) -> (r: Vec<&'static str>)
        ensures
            slices(r@) == self.flags(),
    {
        let mut args: Vec<&'static str> = Vec::new();
        match self {
            CargoTargets::All => {
                args.push("--all-targets");
            },
            CargoTargets::Main => {},
            CargoTargets::Auxiliary => {
                args.push("--examples");
                args.push("--tests");
                args.push("--benches");
            },
        }
        assert(slices(args@) =~= self.flags());
        args
    }
}

} // verus!
