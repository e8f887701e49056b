use vstd::prelude::*;
use crate::requirement::{ComparatorView, VersionReq};
use crate::tools::cargo::{requirement_view, CargoDeps};
use crate::tools::{BinCtx, BinCtxView};

verus! {

/// Clippy from the Rust toolchain. It is run as `cargo clippy`.
pub struct Clippy;

/// Clippy dependencies.
#[derive(Debug, PartialEq, Eq)]
pub struct ClippyDeps {
    /// Cargo dependencies.
    cargo_deps: CargoDeps,
    /// Cargo version requirement.
    cargo_ver_req: Option<VersionReq>,
}

impl ClippyDeps {
    /// The Cargo dependencies.
    pub closed spec fn spec_cargo_deps(&self) -> CargoDeps {
        self.cargo_deps
    }

    /// The Cargo version requirement; `None` for the default version.
    pub closed spec fn spec_cargo_ver_req(&self) -> Option<Seq<ComparatorView>> {
        requirement_view(self.cargo_ver_req)
    }

    /// Creates new Clippy dependency requirements.
    ///
    /// `None` means that the default version will be used.
    pub fn new(cargo_deps: CargoDeps, cargo_ver_req: Option<VersionReq>) -> (r: ClippyDeps)
        ensures
            r.spec_cargo_deps() == cargo_deps,
            r.spec_cargo_ver_req() == requirement_view(cargo_ver_req),
    {
        ClippyDeps { cargo_deps, cargo_ver_req }
    }

    /// Returns the Cargo dependencies.
    pub fn cargo_deps(&self) -> (r: &CargoDeps)
        ensures
            *r == self.spec_cargo_deps(),
    {
        &self.cargo_deps
    }

    /// Returns the Cargo version requirement; `None` for the default version.
    pub fn cargo_ver_req(&self) -> (r: Option<&VersionReq>)
        ensures
            r is None <==> self.spec_cargo_ver_req() is None,
            r matches Some(ver_req) ==> self.spec_cargo_ver_req() == Some(ver_req@),
    {
        self.cargo_ver_req.as_ref()
    }
}

impl Default for ClippyDeps {
    fn default() -> (r: ClippyDeps)
        ensures
            r.spec_cargo_ver_req() is None,
    {
        ClippyDeps { cargo_deps: CargoDeps::default(), cargo_ver_req: None }
    }
}

impl Clippy {
    /// The name of the tool.
    pub const NAME: &'static str = "clippy";

    /// The binary executable name: Clippy is run through Cargo.
    pub const BIN: &'static str = "cargo";

    /// Clippy comes with a toolchain that rustup installs: the toolset keeps no record of
    /// it.
    pub const MANAGED: bool = false;

    /// The subcommand of Cargo that runs Clippy.
    pub const SUBCOMMAND: &'static str = "clippy";

    /// Returns the context of Clippy, given that of the Cargo that runs it: the same binary
    /// with the subcommand as its base argument.
    pub fn binctx(cargo: BinCtx) -> (r: BinCtx)
        ensures
            r@ == (BinCtxView { args: seq![Clippy::SUBCOMMAND@], ..cargo@ }),
    {
        let mut args: Vec<String> = Vec::new();
        args.push(String::from_str(Clippy::SUBCOMMAND));
        assert(crate::text::strings(args@) =~= seq![Clippy::SUBCOMMAND@]);
        cargo.args(args)
    }
}

} // verus!
