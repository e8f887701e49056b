use vstd::prelude::*;
use crate::error::{Error, ErrorView};
use crate::invocation::{Invocation, InvocationView};
use crate::path::path_join;
use crate::requirement::{ComparatorView, Op, VersionReq};
use crate::tools::cargo::{requirement_view, CargoDeps};
use crate::tools::{BinCtx, BinCtxView};
use crate::toolset::Toolset;
use crate::version::{version_text, Version, VersionView};

verus! {

/// Ripgrep.
pub struct Ripgrep;

/// Ripgrep dependencies.
#[derive(Debug, PartialEq, Eq)]
pub struct RipgrepDeps {
    /// Cargo dependencies.
    cargo_deps: CargoDeps,
    /// Cargo version requirement.
    cargo_ver_req: Option<VersionReq>,
}

impl RipgrepDeps {
    /// The Cargo dependencies.
    pub closed spec fn spec_cargo_deps(&self) -> CargoDeps {
        self.cargo_deps
    }

    /// The Cargo version requirement; `None` for the default version.
    pub closed spec fn spec_cargo_ver_req(&self) -> Option<Seq<ComparatorView>> {
        requirement_view(self.cargo_ver_req)
    }

    /// Creates new Ripgrep dependency requirements.
    ///
    /// `None` means that the default version will be used.
    pub fn new(cargo_deps: CargoDeps, cargo_ver_req: Option<VersionReq>) -> (r: RipgrepDeps)
        ensures
            r.spec_cargo_deps() == cargo_deps,
            r.spec_cargo_ver_req() == requirement_view(cargo_ver_req),
    {
        RipgrepDeps { cargo_deps, cargo_ver_req }
    }

    /// Returns the Cargo dependencies.
    pub fn cargo_deps(&self) -> (r: &CargoDeps)
        ensures
            *r == self.spec_cargo_deps(),
    {
        &self.cargo_deps
    }

    /// Returns the Cargo version requirement; `None` for the default version.
    pub fn cargo_ver_req(&self) -> (r: Option<&VersionReq>)
        ensures
            r is None <==> self.spec_cargo_ver_req() is None,
            r matches Some(ver_req) ==> self.spec_cargo_ver_req() == Some(ver_req@),
    {
        self.cargo_ver_req.as_ref()
    }
}

impl Default for RipgrepDeps {
    fn default() -> (r: RipgrepDeps)
        ensures
            r.spec_cargo_ver_req() is None,
    {
        RipgrepDeps { cargo_deps: CargoDeps::default(), cargo_ver_req: None }
    }
}

/// Whether the requirement is of the only shape that ripgrep can be installed from: one
/// comparator `=MAJOR.MINOR.PATCH`, without a pre-release tag.
pub open spec fn is_version_requirement(comparators: Seq<ComparatorView>) -> bool {
    &&& comparators.len() == 1
    &&& comparators[0].op == Op::Exact
    &&& comparators[0].minor is Some
    &&& comparators[0].patch is Some
    &&& comparators[0].pre.len() == 0
}

/// The version that a requirement `=MAJOR.MINOR.PATCH` asks for.
pub open spec fn version_of(comparators: Seq<ComparatorView>) -> VersionView {
    VersionView::release(
        comparators[0].major,
        comparators[0].minor->0,
        comparators[0].patch->0,
    )
}

/// The name of the ripgrep executable.
pub open spec fn bin_name(windows: bool) -> Seq<char> {
    if windows {
        Ripgrep::BIN@ + ".exe"@
    } else {
        Ripgrep::BIN@
    }
}

/// The arguments that make Cargo install `version` of ripgrep below the directory `root`.
pub open spec fn install_args(version: VersionView, root: Seq<char>) -> Seq<Seq<char>> {
    seq![
        "install"@,
        Ripgrep::NAME@,
        "--locked"@,
        "--version"@,
        version_text(version),
        "--root"@,
        root,
    ]
}

/// The mathematical value of a [`Layout`].
pub struct LayoutView {
    pub install_dir: Seq<char>,
    pub temp_dir: Seq<char>,
    pub bin_src_dir: Seq<char>,
    pub bin_src: Seq<char>,
    pub bin_dst: Seq<char>,
    pub manifest_a: Seq<char>,
    pub manifest_b: Seq<char>,
}

/// The paths of an installation of `version` below the tools directory.
pub open spec fn layout_of(tools_dir: Seq<char>, version: VersionView, windows: bool) -> LayoutView {
    let install_dir = path_join(path_join(tools_dir, Ripgrep::NAME@), version_text(version));
    let temp_dir = path_join(tools_dir, "temp-"@ + Ripgrep::NAME@);
    let bin_src_dir = path_join(temp_dir, "bin"@);
    LayoutView {
        install_dir,
        temp_dir,
        bin_src_dir,
        bin_src: path_join(bin_src_dir, bin_name(windows)),
        bin_dst: path_join(install_dir, bin_name(windows)),
        manifest_a: path_join(temp_dir, ".crates.toml"@),
        manifest_b: path_join(temp_dir, ".crates2.json"@),
    }
}

/// The paths that an installation of ripgrep goes through.
#[derive(Debug, PartialEq, Eq)]
pub struct Layout {
    /// The directory that the binary is installed into.
    pub install_dir: String,
    /// The staging directory that Cargo installs into.
    pub temp_dir: String,
    /// The directory in the staging directory that holds the binary.
    pub bin_src_dir: String,
    /// The binary in the staging directory.
    pub bin_src: String,
    /// The binary where it is installed.
    pub bin_dst: String,
    /// A file that Cargo leaves in the staging directory.
    pub manifest_a: String,
    /// Another file that Cargo leaves in the staging directory.
    pub manifest_b: String,
}

impl View for Layout {
    type V = LayoutView;

    open spec fn view(&self) -> LayoutView {
        LayoutView {
            install_dir: self.install_dir@,
            temp_dir: self.temp_dir@,
            bin_src_dir: self.bin_src_dir@,
            bin_src: self.bin_src@,
            bin_dst: self.bin_dst@,
            manifest_a: self.manifest_a@,
            manifest_b: self.manifest_b@,
        }
    }
}

impl Layout {
    /// Returns the paths of an installation of `version` in the toolset.
    pub fn new(toolset: &Toolset, version: &Version, windows: bool) -> (r: Layout)
        ensures
            r@ == layout_of(toolset@.tools_dir, version@, windows),
    {
        let install_dir = toolset.install_dir(Ripgrep::NAME, version);
        let temp_dir = toolset.temp_install_dir(Ripgrep::NAME);
        let bin_name = crate::host::executable_name(Ripgrep::BIN, windows);
        let bin_src_dir = crate::path::join(temp_dir.as_str(), "bin");
        let bin_src = crate::path::join(bin_src_dir.as_str(), bin_name.as_str());
        let bin_dst = crate::path::join(install_dir.as_str(), bin_name.as_str());
        let manifest_a = crate::path::join(temp_dir.as_str(), ".crates.toml");
        let manifest_b = crate::path::join(temp_dir.as_str(), ".crates2.json");
        Layout { install_dir, temp_dir, bin_src_dir, bin_src, bin_dst, manifest_a, manifest_b }
    }
}

impl Ripgrep {
    /// The name of the tool, and of the package that Cargo installs it from.
    pub const NAME: &'static str = "ripgrep";

    /// The binary executable name.
    pub const BIN: &'static str = "rg";

    /// The toolset installs ripgrep and keeps it on record.
    pub const MANAGED: bool = true;

    /// Returns the version that the requirement asks for. A requirement of another shape
    /// than `=MAJOR.MINOR.PATCH` is an error: it is not approximated.
    pub fn version_of(ver_req: &VersionReq) -> (r: Result<Version, Error>)
        ensures
            is_version_requirement(ver_req@) ==> (r matches Ok(version) && version@ == version_of(
                ver_req@,
            )),
            !is_version_requirement(ver_req@) ==> (r matches Err(e) && e@
                == (ErrorView::UnsupportedRequirement {
                tool: Ripgrep::NAME@,
                requirement: ver_req@,
            })),
    {
        if ver_req.len() == 1 {
            let comparator = ver_req.comparator(0);
            match (comparator.op(), comparator.minor(), comparator.patch()) {
                (Op::Exact, Some(minor), Some(patch)) => {
                    if comparator.pre().unicode_len() == 0 {
                        return Ok(Version::new(comparator.major(), minor, patch));
                    }
                },
                _ => {},
            }
        }
        Err(
            Error::UnsupportedRequirement {
                tool: String::from_str(Ripgrep::NAME),
                requirement: ver_req.clone(),
            },
        )
    }

    /// Describes the run of Cargo that installs `version` of ripgrep below the directory
    /// `root`.
    pub fn install_command(cargo: &BinCtx, version: &Version, root: &str) -> (r: Invocation)
        ensures
            r@ == cargo@.cmd().with_args(install_args(version@, root@)),
    {
        let mut cmd = cargo.cmd();
        let ghost start = cmd@;
        let text = version.to_text();
        cmd.arg("install");
        cmd.arg(Ripgrep::NAME);
        cmd.arg("--locked");
        cmd.arg("--version");
        cmd.arg(text.as_str());
        cmd.arg("--root");
        cmd.arg(root);
        assert(cmd@.args =~= start.args + install_args(version@, root@));
        cmd
    }
}

/// Where a set-up of ripgrep stands: what it waits to hear of.
#[derive(Clone, Copy, Debug, PartialEq, Eq, Structural)]
pub enum Phase {
    /// Whether the install directory exists, and is empty.
    InstallDir,
    /// That the install directory was created.
    CreateInstallDir,
    /// The context of the Cargo that installs.
    Cargo,
    /// Whether the staging directory exists.
    TempDir,
    /// How the run of `cargo install` ended.
    Install,
    /// Whether the binary is in the staging directory.
    BinSrc,
    /// Whether a binary stands in the install directory.
    BinDst,
    /// That the binary was copied into the install directory.
    Copy,
    /// That the binary was removed from the staging directory.
    RemoveBinSrc,
    /// That the binary's directory was removed from the staging directory.
    RemoveBinSrcDir,
    /// That the first file that Cargo left was removed.
    RemoveManifestA,
    /// That the second file that Cargo left was removed.
    RemoveManifestB,
    /// That the staging directory was removed.
    RemoveTempDir,
    /// What the toolset found when it verified the installed binary.
    Verify,
    /// Nothing: the set-up has ended.
    Done,
}

/// The mathematical value of an [`Event`].
pub enum EventView {
    Dir { exists: bool, empty: bool },
    Done,
    Cargo(BinCtxView),
    Exited(Option<i32>),
    Exists(bool),
    Verified(Option<VersionView>),
}

/// What a set-up is told after it asked for something to be done.
#[derive(Debug, PartialEq, Eq)]
pub enum Event {
    /// Whether something exists at the path of a directory, and whether it is a directory
    /// with nothing in it.
    Dir { exists: bool, empty: bool },
    /// What was asked for is done.
    Done,
    /// The context of Cargo, as the toolset resolved it.
    Cargo(BinCtx),
    /// A process has ended, with this exit code if it had one.
    Exited(Option<i32>),
    /// Whether a file exists.
    Exists(bool),
    /// The version that the toolset found when it verified a binary; `None` where there is
    /// no binary.
    Verified(Option<Version>),
}

impl View for Event {
    type V = EventView;

    open spec fn view(&self) -> EventView {
        match *self {
            Event::Dir { exists, empty } => EventView::Dir { exists, empty },
            Event::Done => EventView::Done,
            Event::Cargo(binctx) => EventView::Cargo(binctx@),
            Event::Exited(code) => EventView::Exited(code),
            Event::Exists(exists) => EventView::Exists(exists),
            Event::Verified(Some(version)) => EventView::Verified(Some(version@)),
            Event::Verified(None) => EventView::Verified(None),
        }
    }
}

/// The mathematical value of an [`Action`].
pub enum ActionView {
    CheckInstallDir,
    CreateInstallDir,
    GetCargo,
    CheckTempDir,
    Install(InvocationView),
    CheckBinSrc,
    CheckBinDst,
    CopyBinary,
    RemoveBinSrc,
    RemoveBinSrcDir,
    RemoveManifestA,
    RemoveManifestB,
    RemoveTempDir,
    Verify(BinCtxView),
    Finish(BinCtxView, VersionView),
    Fail(ErrorView),
}

/// What a set-up asks its caller to do next. The paths are those of its [`Layout`].
#[derive(Debug, PartialEq, Eq)]
pub enum Action {
    /// Look at the install directory; answer with [`Event::Dir`].
    CheckInstallDir,
    /// Create the install directory and those above it; answer with [`Event::Done`].
    CreateInstallDir,
    /// Get Cargo from the toolset; answer with [`Event::Cargo`].
    GetCargo,
    /// Look at the staging directory, which must not exist; answer with [`Event::Dir`].
    CheckTempDir,
    /// Run the process; answer with [`Event::Exited`].
    Install(Invocation),
    /// See whether the binary is in the staging directory; answer with [`Event::Exists`].
    CheckBinSrc,
    /// See whether a binary stands in the install directory; answer with [`Event::Exists`].
    CheckBinDst,
    /// Copy the binary from the staging to the install directory; answer with
    /// [`Event::Done`].
    CopyBinary,
    /// Remove the binary from the staging directory; answer with [`Event::Done`].
    RemoveBinSrc,
    /// Remove the binary's directory, which is empty, from the staging directory; answer
    /// with [`Event::Done`].
    RemoveBinSrcDir,
    /// Remove the first file that Cargo left; answer with [`Event::Done`].
    RemoveManifestA,
    /// Remove the second file that Cargo left; answer with [`Event::Done`].
    RemoveManifestB,
    /// Remove the staging directory, which Cargo made and which is empty by now; answer
    /// with [`Event::Done`].
    RemoveTempDir,
    /// Verify the binary of this context with the toolset against the requirement; answer
    /// with [`Event::Verified`].
    Verify(BinCtx),
    /// The set-up has succeeded, with this context and version.
    Finish(BinCtx, Version),
    /// The set-up has failed.
    Fail(Error),
}

impl View for Action {
    type V = ActionView;

    open spec fn view(&self) -> ActionView {
        match *self {
            Action::CheckInstallDir => ActionView::CheckInstallDir,
            Action::CreateInstallDir => ActionView::CreateInstallDir,
            Action::GetCargo => ActionView::GetCargo,
            Action::CheckTempDir => ActionView::CheckTempDir,
            Action::Install(cmd) => ActionView::Install(cmd@),
            Action::CheckBinSrc => ActionView::CheckBinSrc,
            Action::CheckBinDst => ActionView::CheckBinDst,
            Action::CopyBinary => ActionView::CopyBinary,
            Action::RemoveBinSrc => ActionView::RemoveBinSrc,
            Action::RemoveBinSrcDir => ActionView::RemoveBinSrcDir,
            Action::RemoveManifestA => ActionView::RemoveManifestA,
            Action::RemoveManifestB => ActionView::RemoveManifestB,
            Action::RemoveTempDir => ActionView::RemoveTempDir,
            Action::Verify(binctx) => ActionView::Verify(binctx@),
            Action::Finish(binctx, version) => ActionView::Finish(binctx@, version@),
            Action::Fail(e) => ActionView::Fail(e@),
        }
    }
}

/// The mathematical value of a [`SetUp`].
pub struct SetUpView {
    pub phase: Phase,
    pub version: VersionView,
    pub layout: LayoutView,
    /// The context of the binary once it is installed.
    pub binctx: BinCtxView,
    /// The command line of Cargo, once the toolset has resolved it.
    pub cargo: Option<InvocationView>,
}

impl SetUpView {
    /// The set-up in another phase.
    pub open spec fn at(self, phase: Phase) -> SetUpView {
        SetUpView { phase, ..self }
    }

    /// The set-up ends in failure.
    pub open spec fn fail(self, error: ErrorView) -> (SetUpView, ActionView) {
        (self.at(Phase::Done), ActionView::Fail(error))
    }

    /// The set-up goes on: it asks for `action` and waits in `phase` for the answer.
    pub open spec fn go(self, phase: Phase, action: ActionView) -> (SetUpView, ActionView) {
        (self.at(phase), action)
    }
}

/// What a set-up does when it is told of `event`: the state that it goes to, and what it
/// asks for next. An event that the set-up did not wait for ends it in failure.
pub open spec fn step(state: SetUpView, event: EventView) -> (SetUpView, ActionView) {
    match (state.phase, event) {
        (Phase::InstallDir, EventView::Dir { exists, empty }) => if !exists {
            state.go(Phase::CreateInstallDir, ActionView::CreateInstallDir)
        } else if empty {
            state.go(Phase::Cargo, ActionView::GetCargo)
        } else {
            state.fail(
                ErrorView::InstallDirTaken {
                    tool: Ripgrep::NAME@,
                    path: state.layout.install_dir,
                },
            )
        },
        (Phase::CreateInstallDir, EventView::Done) => state.go(Phase::Cargo, ActionView::GetCargo),
        (Phase::Cargo, EventView::Cargo(cargo)) => (
            SetUpView {
                phase: Phase::TempDir,
                cargo: Some(
                    cargo.cmd().with_args(install_args(state.version, state.layout.temp_dir)),
                ),
                ..state
            },
            ActionView::CheckTempDir,
        ),
        (Phase::TempDir, EventView::Dir { exists, empty }) => if exists {
            state.fail(
                ErrorView::TempDirTaken { tool: Ripgrep::NAME@, path: state.layout.temp_dir },
            )
        } else {
            match state.cargo {
                Some(cmd) => state.go(Phase::Install, ActionView::Install(cmd)),
                None => state.fail(ErrorView::UnexpectedEvent),
            }
        },
        (Phase::Install, EventView::Exited(code)) => if code == Some(0i32) {
            state.go(Phase::BinSrc, ActionView::CheckBinSrc)
        } else {
            match state.cargo {
                Some(cmd) => state.fail(ErrorView::ExitFailure { program: cmd.program, code }),
                None => state.fail(ErrorView::UnexpectedEvent),
            }
        },
        (Phase::BinSrc, EventView::Exists(exists)) => if exists {
            state.go(Phase::BinDst, ActionView::CheckBinDst)
        } else {
            state.fail(
                ErrorView::BinaryMissing { tool: Ripgrep::NAME@, path: state.layout.bin_src },
            )
        },
        (Phase::BinDst, EventView::Exists(exists)) => if exists {
            state.fail(ErrorView::BinaryTaken { tool: Ripgrep::NAME@, path: state.layout.bin_dst })
        } else {
            state.go(Phase::Copy, ActionView::CopyBinary)
        },
        (Phase::Copy, EventView::Done) => state.go(Phase::RemoveBinSrc, ActionView::RemoveBinSrc),
        (Phase::RemoveBinSrc, EventView::Done) => state.go(
            Phase::RemoveBinSrcDir,
            ActionView::RemoveBinSrcDir,
        ),
        (Phase::RemoveBinSrcDir, EventView::Done) => state.go(
            Phase::RemoveManifestA,
            ActionView::RemoveManifestA,
        ),
        (Phase::RemoveManifestA, EventView::Done) => state.go(
            Phase::RemoveManifestB,
            ActionView::RemoveManifestB,
        ),
        (Phase::RemoveManifestB, EventView::Done) => state.go(
            Phase::RemoveTempDir,
            ActionView::RemoveTempDir,
        ),
        (Phase::RemoveTempDir, EventView::Done) => state.go(
            Phase::Verify,
            ActionView::Verify(state.binctx),
        ),
        (Phase::Verify, EventView::Verified(found)) => match found {
            Some(version) => (state.at(Phase::Done), ActionView::Finish(state.binctx, version)),
            None => state.fail(ErrorView::NotFoundAfterInstall { path: state.layout.bin_dst }),
        },
        _ => state.fail(ErrorView::UnexpectedEvent),
    }
}

/// The state in which a set-up of `version` begins.
pub open spec fn initial(
    tools_dir: Seq<char>,
    working_dir: Seq<char>,
    environment: Map<Seq<char>, Seq<char>>,
    version: VersionView,
    windows: bool,
) -> SetUpView {
    let layout = layout_of(tools_dir, version, windows);
    SetUpView {
        phase: Phase::InstallDir,
        version,
        layout,
        binctx: BinCtxView {
            path: layout.bin_dst,
            working_dir,
            environment,
            args: Seq::empty(),
        },
        cargo: None,
    }
}

/// The set-up of one version of ripgrep, as a machine that its caller drives: the caller
/// does what the set-up asks for, and tells it what came of it.
pub struct SetUp {
    phase: Phase,
    version: Version,
    layout: Layout,
    binctx: BinCtx,
    cargo: Option<Invocation>,
}

impl View for SetUp {
    type V = SetUpView;

    closed spec fn view(&self) -> SetUpView {
        SetUpView {
            phase: self.phase,
            version: self.version@,
            layout: self.layout@,
            binctx: self.binctx@,
            cargo: match self.cargo {
                Some(cmd) => Some(cmd@),
                None => None,
            },
        }
    }
}

impl SetUp {
    /// Begins the set-up of the version that the requirement asks for, and says what to do
    /// first. A requirement of another shape than `=MAJOR.MINOR.PATCH` is an error, and so
    /// nothing is installed for it.
    pub fn begin(toolset: &Toolset, ver_req: &VersionReq, windows: bool) -> (r: Result<
        (SetUp, Action),
        Error,
    >)
        ensures
            is_version_requirement(ver_req@) ==> (r matches Ok(pair) && pair.0@ == initial(
                toolset@.tools_dir,
                toolset@.working_dir,
                toolset@.environment,
                version_of(ver_req@),
                windows,
            ) && pair.1@ == ActionView::CheckInstallDir),
            !is_version_requirement(ver_req@) ==> (r matches Err(e) && e@
                == (ErrorView::UnsupportedRequirement {
                tool: Ripgrep::NAME@,
                requirement: ver_req@,
            })),
    {
        let version = Ripgrep::version_of(ver_req)?;
        let layout = Layout::new(toolset, &version, windows);
        let binctx = toolset.binctx(layout.bin_dst.clone());
        let set_up = SetUp { phase: Phase::InstallDir, version, layout, binctx, cargo: None };
        Ok((set_up, Action::CheckInstallDir))
    }

    /// Returns the paths that the set-up's actions speak of.
    pub fn layout(&self) -> (r: &Layout)
        ensures
            r@ == self@.layout,
    {
        &self.layout
    }

    /// Returns the version that is being set up.
    pub fn version(&self) -> (r: &Version)
        ensures
            r@ == self@.version,
    {
        &self.version
    }

    /// Returns what the set-up waits to hear of.
    pub fn phase(&self) -> (r: Phase)
        ensures
            r == self@.phase,
    {
        self.phase
    }

    fn fail(&mut self, error: Error) -> (r: Action)
        ensures
            (final(self)@, r@) == old(self)@.fail(error@),
    {
        self.phase = Phase::Done;
        Action::Fail(error)
    }

    fn go(&mut self, phase: Phase, action: Action) -> (r: Action)
        ensures
            (final(self)@, r@) == old(self)@.go(phase, action@),
    {
        self.phase = phase;
        action
    }

    /// Takes what came of the last action, and says what to do next.
    pub fn next(&mut self, event: Event) -> (r: Action)
        ensures
            (final(self)@, r@) == step(old(self)@, event@),
    {
        match (self.phase, event) {
            (Phase::InstallDir, Event::Dir { exists, empty }) => {
                if !exists {
                    self.go(Phase::CreateInstallDir, Action::CreateInstallDir)
                } else if empty {
                    self.go(Phase::Cargo, Action::GetCargo)
                } else {
                    let path = self.layout.install_dir.clone();
                    self.fail(
                        Error::InstallDirTaken { tool: String::from_str(Ripgrep::NAME), path },
                    )
                }
            },
            (Phase::CreateInstallDir, Event::Done) => self.go(Phase::Cargo, Action::GetCargo),
            (Phase::Cargo, Event::Cargo(cargo)) => {
                let cmd = Ripgrep::install_command(
                    &cargo,
                    &self.version,
                    self.layout.temp_dir.as_str(),
                );
                self.cargo = Some(cmd);
                self.go(Phase::TempDir, Action::CheckTempDir)
            },
            (Phase::TempDir, Event::Dir { exists, empty }) => {
                // The staging directory must not be there: one that exists is neither used
                // nor removed.
                if exists {
                    let path = self.layout.temp_dir.clone();
                    self.fail(Error::TempDirTaken { tool: String::from_str(Ripgrep::NAME), path })
                } else {
                    match &self.cargo {
                        Some(cmd) => {
                            let cmd = cmd.clone();
                            self.go(Phase::Install, Action::Install(cmd))
                        },
                        None => self.fail(Error::UnexpectedEvent),
                    }
                }
            },
            (Phase::Install, Event::Exited(code)) => {
                let succeeded = match code {
                    Some(code) => code == 0,
                    None => false,
                };
                if succeeded {
                    self.go(Phase::BinSrc, Action::CheckBinSrc)
                } else {
                    match &self.cargo {
                        Some(cmd) => {
                            let program = String::from_str(cmd.program());
                            self.fail(Error::ExitFailure { program, code })
                        },
                        None => self.fail(Error::UnexpectedEvent),
                    }
                }
            },
            (Phase::BinSrc, Event::Exists(exists)) => {
                if exists {
                    self.go(Phase::BinDst, Action::CheckBinDst)
                } else {
                    let path = self.layout.bin_src.clone();
                    self.fail(Error::BinaryMissing { tool: String::from_str(Ripgrep::NAME), path })
                }
            },
            (Phase::BinDst, Event::Exists(exists)) => {
                if exists {
                    let path = self.layout.bin_dst.clone();
                    self.fail(Error::BinaryTaken { tool: String::from_str(Ripgrep::NAME), path })
                } else {
                    self.go(Phase::Copy, Action::CopyBinary)
                }
            },
            (Phase::Copy, Event::Done) => self.go(Phase::RemoveBinSrc, Action::RemoveBinSrc),
            (Phase::RemoveBinSrc, Event::Done) => self.go(
                Phase::RemoveBinSrcDir,
                Action::RemoveBinSrcDir,
            ),
            (Phase::RemoveBinSrcDir, Event::Done) => self.go(
                Phase::RemoveManifestA,
                Action::RemoveManifestA,
            ),
            (Phase::RemoveManifestA, Event::Done) => self.go(
                Phase::RemoveManifestB,
                Action::RemoveManifestB,
            ),
            (Phase::RemoveManifestB, Event::Done) => self.go(
                Phase::RemoveTempDir,
                Action::RemoveTempDir,
            ),
            (Phase::RemoveTempDir, Event::Done) => {
                let binctx = self.binctx.clone();
                self.go(Phase::Verify, Action::Verify(binctx))
            },
            (Phase::Verify, Event::Verified(found)) => {
                match found {
                    Some(version) => {
                        let binctx = self.binctx.clone();
                        self.go(Phase::Done, Action::Finish(binctx, version))
                    },
                    None => {
                        let path = self.layout.bin_dst.clone();
                        self.fail(Error::NotFoundAfterInstall { path })
                    },
                }
            },
            _ => self.fail(Error::UnexpectedEvent),
        }
    }
}

/// A set-up succeeds only when the toolset has verified the installed binary: it ends with
/// the version that the verification found, at the path that the binary was copied to.
pub proof fn lemma_finish_follows_verification(state: SetUpView, event: EventView)
    ensures
        step(state, event).1 matches ActionView::Finish(binctx, version) ==> state.phase
            == Phase::Verify && event == EventView::Verified(Some(version)) && binctx
            == state.binctx,
{
}

/// The binary is copied only after it was found in the staging directory and nothing was
/// found where it goes; and Cargo is run only if the staging directory does not exist.
pub proof fn lemma_nothing_is_overwritten(state: SetUpView, event: EventView)
    ensures
        step(state, event).1 is CopyBinary ==> state.phase == Phase::BinDst && event
            == EventView::Exists(false),
        step(state, event).1 is CheckBinDst ==> state.phase == Phase::BinSrc && event
            == EventView::Exists(true),
        step(state, event).1 is Install ==> state.phase == Phase::TempDir && (event
            matches EventView::Dir { exists, empty } && !exists),
{
}

/// A set-up that has ended stays ended, and one that fails or succeeds has ended.
pub proof fn lemma_end_is_final(state: SetUpView, event: EventView)
    ensures
        state.phase == Phase::Done ==> step(state, event) == state.fail(
            ErrorView::UnexpectedEvent,
        ),
        step(state, event).1 is Fail || step(state, event).1 is Finish <==> step(
            state,
            event,
        ).0.phase == Phase::Done,
        step(state, event).0.version == state.version,
        step(state, event).0.layout == state.layout,
        step(state, event).0.binctx == state.binctx,
{
}

} // verus!
