use vstd::prelude::*;
use crate::requirement::{Comparator, ComparatorView, Op, VersionReq};

verus! {

/// The requirement `=major[.minor[.patch]]`, as a value.
pub open spec fn exact_requirement(major: u64, minor: Option<u64>, patch: Option<u64>) -> Seq<
    ComparatorView,
> {
    seq![
        ComparatorView {
            op: Op::Exact,
            major,
            minor,
            patch: if minor is Some {
                patch
            } else {
                None
            },
            pre: Seq::empty(),
        },
    ]
}

/// Prep configuration.
#[derive(Debug, PartialEq, Eq)]
pub struct Config {
    /// Project configuration.
    project: Project,
    /// Tools configuration.
    tools: Tools,
}

/// Project configuration.
#[derive(Debug, PartialEq, Eq)]
pub struct Project {
    /// Project name.
    name: String,
    /// Project License SPDX identifier.
    license: String,
}

/// Tools configuration.
#[derive(Debug, PartialEq, Eq)]
pub struct Tools {
    /// Rustup configuration.
    rustup: VersionReq,
    /// Stable Rust toolchain configuration.
    rust: VersionReq,
    /// Ripgrep configuration.
    ripgrep: VersionReq,
}

impl Config {
    /// Creates a new [`Config`] with default values.
    pub fn new() -> (r: Config)
        ensures
            r.spec_project().is_default(),
            r.spec_tools().is_default(),
    {
        Config { project: Project::new(), tools: Tools::new() }
    }

    /// Creates a [`Config`] of the given parts.
    pub fn from_parts(project: Project, tools: Tools) -> (r: Config)
        ensures
            r.spec_project() == project,
            r.spec_tools() == tools,
    {
        Config { project, tools }
    }

    /// The project configuration.
    pub closed spec fn spec_project(&self) -> Project {
        self.project
    }

    /// The tools configuration.
    pub closed spec fn spec_tools(&self) -> Tools {
        self.tools
    }

    /// Returns the project configuration.
    pub fn project(&self) -> (r: &Project)
        ensures
            *r == self.spec_project(),
    {
        &self.project
    }

    /// Returns the tools configuration.
    pub fn tools(&self) -> (r: &Tools)
        ensures
            *r == self.spec_tools(),
    {
        &self.tools
    }
}

impl Project {
    /// The project name.
    pub closed spec fn spec_name(&self) -> Seq<char> {
        self.name@
    }

    /// The project License.
    pub closed spec fn spec_license(&self) -> Seq<char> {
        self.license@
    }

    /// Whether the project is called `Untitled` and licensed as `Apache-2.0 OR MIT`.
    pub open spec fn is_default(&self) -> bool {
        self.spec_name() == "Untitled"@ && self.spec_license() == "Apache-2.0 OR MIT"@
    }

    /// Creates a new [`Project`] with default values.
    pub fn new() -> (r: Project)
        ensures
            r.is_default(),
    {
        Project { name: name_default(), license: license_default() }
    }

    /// Creates a [`Project`] of the given name and license.
    pub fn from_parts(name: String, license: String) -> (r: Project)
        ensures
            r.spec_name() == name@,
            r.spec_license() == license@,
    {
        Project { name, license }
    }

    /// Returns the project name.
    pub fn name(&self) -> (r: &str)
        ensures
            r@ == self.spec_name(),
    {
        self.name.as_str()
    }

    /// Returns the project License.
    pub fn license(&self) -> (r: &str)
        ensures
            r@ == self.spec_license(),
    {
        self.license.as_str()
    }
}

impl Tools {
    /// The configured Rustup version.
    pub closed spec fn spec_rustup(&self) -> Seq<ComparatorView> {
        self.rustup@
    }

    /// The configured stable Rust toolchain version.
    pub closed spec fn spec_rust(&self) -> Seq<ComparatorView> {
        self.rust@
    }

    /// The configured ripgrep version.
    pub closed spec fn spec_ripgrep(&self) -> Seq<ComparatorView> {
        self.ripgrep@
    }

    /// Whether the tools are required as `=1` for rustup, `=1.93` for the Rust toolchain and
    /// `=14.1.1` for ripgrep.
    pub open spec fn is_default(&self) -> bool {
        &&& self.spec_rustup() == exact_requirement(1, None, None)
        &&& self.spec_rust() == exact_requirement(1, Some(93), None)
        &&& self.spec_ripgrep() == exact_requirement(14, Some(1), Some(1))
    }

    /// Creates a new [`Tools`] with default values.
    pub fn new() -> (r: Tools)
        ensures
            r.is_default(),
    {
        Tools { rustup: rustup_default(), rust: rust_default(), ripgrep: ripgrep_default() }
    }

    /// Creates a [`Tools`] of the given requirements.
    pub fn from_parts(rustup: VersionReq, rust: VersionReq, ripgrep: VersionReq) -> (r: Tools)
        ensures
            r.spec_rustup() == rustup@,
            r.spec_rust() == rust@,
            r.spec_ripgrep() == ripgrep@,
    {
        Tools { rustup, rust, ripgrep }
    }

    /// Returns the configured Rustup version.
    pub fn rustup(&self) -> (r: &VersionReq)
        ensures
            r@ == self.spec_rustup(),
    {
        &self.rustup
    }

    /// Returns the configured stable Rust toolchain version.
    pub fn rust(&self) -> (r: &VersionReq)
        ensures
            r@ == self.spec_rust(),
    {
        &self.rust
    }

    /// Returns the configured ripgrep version.
    pub fn ripgrep(&self) -> (r: &VersionReq)
        ensures
            r@ == self.spec_ripgrep(),
    {
        &self.ripgrep
    }
}

/// Returns the default project name.
pub fn name_default() -> (r: String)
    ensures
        r@ == "Untitled"@,
{
    String::from_str("Untitled")
}

/// Returns the default project license.
pub fn license_default() -> (r: String)
    ensures
        r@ == "Apache-2.0 OR MIT"@,
{
    String::from_str("Apache-2.0 OR MIT")
}

/// Returns the default Rustup version.
pub fn rustup_default() -> (r: VersionReq)
    ensures
        r@ == exact_requirement(1, None, None),
{
    VersionReq::single(Comparator::exact_partial(1, None, None))
}

/// Returns the default Rust version.
pub fn rust_default() -> (r: VersionReq)
    ensures
        r@ == exact_requirement(1, Some(93), None),
{
    VersionReq::single(Comparator::exact_partial(1, Some(93), None))
}

/// Returns the default Ripgrep version.
pub fn ripgrep_default() -> (r: VersionReq)
    ensures
        r@ == exact_requirement(14, Some(1), Some(1)),
{
    VersionReq::single(Comparator::exact_partial(14, Some(1), Some(1)))
}

} // verus!
