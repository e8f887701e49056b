use vstd::prelude::*;
use crate::requirement::{ComparatorView, VersionReq};
use crate::tools::cargo::{requirement_view, CargoDeps};
use crate::tools::{BinCtx, BinCtxView};

verus! {

/// Rustfmt from the Rust toolchain. It is run as `cargo fmt`.
pub struct Rustfmt;

/// Rustfmt dependencies.
#[derive(Debug, PartialEq, Eq)]
pub struct RustfmtDeps {
    /// Cargo dependencies.
    cargo_deps: CargoDeps,
    /// Cargo version requirement.
    cargo_ver_req: Option<VersionReq>,
}

impl RustfmtDeps {
    /// The Cargo dependencies.
    pub closed spec fn spec_cargo_deps(&self) -> CargoDeps {
        self.cargo_deps
    }

    /// The Cargo version requirement; `None` for the default version.
    pub closed spec fn spec_cargo_ver_req(&self) -> Option<Seq<ComparatorView>> {
        requirement_view(self.cargo_ver_req)
    }

    /// Creates new Rustfmt dependency requirements.
    ///
    /// `None` means that the default version will be used.
    pub fn new(cargo_deps: CargoDeps, cargo_ver_req: Option<VersionReq>) -> (r: RustfmtDeps)
        ensures
            r.spec_cargo_deps() == cargo_deps,
            r.spec_cargo_ver_req() == requirement_view(cargo_ver_req),
    {
        RustfmtDeps { cargo_deps, cargo_ver_req }
    }

    /// Returns the Cargo dependencies.
    pub fn cargo_deps(&self) -> (r: &CargoDeps)
        ensures
            *r == self.spec_cargo_deps(),
    {
        &self.cargo_deps
    }

    /// Returns the Cargo version requirement; `None` for the default version.
    pub fn cargo_ver_req(&self) -> (r: Option<&VersionReq>)
        ensures
            r is None <==> self.spec_cargo_ver_req() is None,
            r matches Some(ver_req) ==> self.spec_cargo_ver_req() == Some(ver_req@),
    {
        self.cargo_ver_req.as_ref()
    }

    /// Returns the Cargo version that a set-up of rustfmt installs. A set-up requires a
    /// specific Cargo version dependency.
    pub fn set_up_cargo_ver_req(&self) -> (r: &VersionReq)
        requires
            self.spec_cargo_ver_req() is Some,
        ensures
            self.spec_cargo_ver_req() == Some(r@),
    {
        match &self.cargo_ver_req {
            Some(ver_req) => ver_req,
            None => vstd::pervasive::unreached(),
        }
    }
}

impl Default for RustfmtDeps {
    fn default() -> (r: RustfmtDeps)
        ensures
            r.spec_cargo_ver_req() is None,
    {
        RustfmtDeps { cargo_deps: CargoDeps::default(), cargo_ver_req: None }
    }
}

impl Rustfmt {
    /// The name of the tool.
    pub const NAME: &'static str = "rustfmt";

    /// The binary executable name: rustfmt is run through Cargo.
    pub const BIN: &'static str = "cargo";

    /// Rustfmt comes with a toolchain that rustup installs: the toolset keeps no record of
    /// it.
    pub const MANAGED: bool = false;

    /// The subcommand of Cargo that runs rustfmt.
    pub const SUBCOMMAND: &'static str = "fmt";

    /// Returns the context of rustfmt, given that of the Cargo that runs it: the same
    /// binary with the subcommand as its base argument.
    pub fn binctx(cargo: BinCtx) -> (r: BinCtx)
        ensures
            r@ == (BinCtxView { args: seq![Rustfmt::SUBCOMMAND@], ..cargo@ }),
    {
        let mut args: Vec<String> = Vec::new();
        args.push(String::from_str(Rustfmt::SUBCOMMAND));
        assert(crate::text::strings(args@) =~= seq![Rustfmt::SUBCOMMAND@]);
        cargo.args(args)
    }
}

} // verus!
