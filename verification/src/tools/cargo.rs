use vstd::prelude::*;
use crate::environment::toolchain_key;
use crate::error::{Error, ErrorView};
use crate::invocation::{Invocation, InvocationView};
use crate::requirement::{ComparatorView, Op, VersionReq};
use crate::text::{clone_strings, decimal, decimal_of, joined, strings};
use crate::tools::{BinCtx, BinCtxView};
use crate::toolset::Toolset;
use crate::version::{Version, VersionView};

verus! {

/// Cargo from the Rust toolchain.
pub struct Cargo;

/// Cargo dependencies.
#[derive(Debug, PartialEq, Eq)]
pub struct CargoDeps {
    /// Rustup version requirement.
    rustup_ver_req: Option<VersionReq>,
    /// Rust toolchain components.
    components: Vec<String>,
}

/// The value of an optional requirement.
pub open spec fn requirement_view(ver_req: Option<VersionReq>) -> Option<Seq<ComparatorView>> {
    match ver_req {
        Some(ver_req) => Some(ver_req@),
        None => None,
    }
}

impl CargoDeps {
    /// The rustup version requirement; `None` for the default version.
    pub closed spec fn spec_rustup_ver_req(&self) -> Option<Seq<ComparatorView>> {
        requirement_view(self.rustup_ver_req)
    }

    /// The Rust toolchain components.
    pub closed spec fn spec_components(&self) -> Seq<Seq<char>> {
        strings(self.components@)
    }

    /// Creates new Cargo dependency requirements.
    ///
    /// `None` means that the default version will be used.
    pub fn new(rustup_ver_req: Option<VersionReq>, components: Vec<String>) -> (r: CargoDeps)
        ensures
            r.spec_rustup_ver_req() == requirement_view(rustup_ver_req),
            r.spec_components() == strings(components@),
    {
        CargoDeps { rustup_ver_req, components }
    }

    /// Returns the rustup version requirement; `None` for the default version.
    pub fn rustup_ver_req(&self) -> (r: Option<&VersionReq>)
        ensures
            r is None <==> self.spec_rustup_ver_req() is None,
            r matches Some(ver_req) ==> self.spec_rustup_ver_req() == Some(ver_req@),
    {
        self.rustup_ver_req.as_ref()
    }

    /// Returns the Rust toolchain components.
    pub fn components(&self) -> (r: &Vec<String>)
        ensures
            strings(r@) == self.spec_components(),
    {
        &self.components
    }
}

impl Default for CargoDeps {
    fn default() -> (r: CargoDeps)
        ensures
            r.spec_rustup_ver_req() is None,
            r.spec_components() == Seq::<Seq<char>>::empty(),
    {
        let r = CargoDeps { rustup_ver_req: None, components: Vec::new() };
        assert(r.spec_components() =~= Seq::<Seq<char>>::empty());
        r
    }
}

/// Whether the requirement is of the only shape that a Rust toolchain can be installed
/// from: one comparator `=MAJOR.MINOR`, without a patch number or a pre-release tag.
pub open spec fn is_toolchain_requirement(comparators: Seq<ComparatorView>) -> bool {
    &&& comparators.len() == 1
    &&& comparators[0].op == Op::Exact
    &&& comparators[0].minor is Some
    &&& comparators[0].patch is None
    &&& comparators[0].pre.len() == 0
}

/// The name of the toolchain that a requirement `=MAJOR.MINOR` asks for: `MAJOR.MINOR`.
pub open spec fn toolchain_of(comparators: Seq<ComparatorView>) -> Seq<char> {
    decimal_of(comparators[0].major as nat) + "."@ + decimal_of(
        comparators[0].minor->0 as nat,
    )
}

/// The arguments that make rustup install the toolchain `toolchain_name` with the given
/// components.
pub open spec fn install_args(toolchain_name: Seq<char>, components: Seq<Seq<char>>) -> Seq<
    Seq<char>,
> {
    let base = seq![
        "toolchain"@,
        "install"@,
        toolchain_name,
        "--no-self-update"@,
        "--profile"@,
        "minimal"@,
    ];
    if components.len() == 0 {
        base
    } else {
        base + seq!["--component"@, joined(components, ","@)]
    }
}

impl Cargo {
    /// The name of the tool.
    pub const NAME: &'static str = "cargo";

    /// The binary executable name.
    pub const BIN: &'static str = "cargo";

    /// Cargo comes with a toolchain that rustup installs: the toolset keeps no record of it.
    pub const MANAGED: bool = false;

    /// Returns the name of the toolchain that the requirement asks for. A requirement of
    /// another shape than `=MAJOR.MINOR` is an error: it is not approximated.
    pub fn toolchain_name(ver_req: &VersionReq) -> (r: Result<String, Error>)
        ensures
            is_toolchain_requirement(ver_req@) ==> (r matches Ok(name) && name@ == toolchain_of(
                ver_req@,
            )),
            !is_toolchain_requirement(ver_req@) ==> (r matches Err(e) && e@
                == (ErrorView::UnsupportedRequirement {
                tool: Cargo::NAME@,
                requirement: ver_req@,
            })),
    {
        if ver_req.len() == 1 {
            let comparator = ver_req.comparator(0);
            match (comparator.op(), comparator.minor(), comparator.patch()) {
                (Op::Exact, Some(minor), None) => {
                    if comparator.pre().unicode_len() == 0 {
                        let mut name = decimal(comparator.major());
                        name.append(".");
                        name.append(decimal(minor).as_str());
                        return Ok(name);
                    }
                },
                _ => {},
            }
        }
        Err(
            Error::UnsupportedRequirement {
                tool: String::from_str(Cargo::NAME),
                requirement: ver_req.clone(),
            },
        )
    }

    /// Describes the run of rustup that installs the toolchain with the given components.
    pub fn install_command(rustup: &BinCtx, toolchain_name: &str, components: &Vec<String>) -> (r:
        Invocation)
        ensures
            r@ == rustup@.cmd().with_args(install_args(toolchain_name@, strings(components@))),
    {
        let mut cmd = rustup.cmd();
        let ghost start = cmd@;
        cmd.arg("toolchain");
        cmd.arg("install");
        cmd.arg(toolchain_name);
        cmd.arg("--no-self-update");
        cmd.arg("--profile");
        cmd.arg("minimal");
        if components.len() > 0 {
            cmd.arg("--component");
            let list = crate::text::join(components, ",");
            cmd.arg(list.as_str());
        }
        assert(cmd@.args =~= start.args + install_args(toolchain_name@, strings(components@)));
        cmd
    }

    /// Returns the context of the Cargo of the toolchain `toolchain_name`: the binary by its
    /// name, with the toolchain selected in the environment. The environment selects the
    /// toolchain so that `cargo fmt` runs the rustfmt of the same toolchain.
    pub fn binctx(toolset: &Toolset, toolchain_name: String) -> (r: BinCtx)
        ensures
            r@ == binctx_of(toolset@.working_dir, toolset@.environment, toolchain_name@),
    {
        let environment = toolset.environment().clone().rust(Some(toolchain_name));
        BinCtx::new(
            String::from_str(Cargo::BIN),
            String::from_str(toolset.working_dir()),
            environment,
        )
    }
}

/// The context of the Cargo of the toolchain `toolchain_name` in a toolset of the given
/// working directory and environment.
pub open spec fn binctx_of(
    working_dir: Seq<char>,
    environment: Map<Seq<char>, Seq<char>>,
    toolchain_name: Seq<char>,
) -> BinCtxView {
    BinCtxView {
        path: Cargo::BIN@,
        working_dir,
        environment: environment.insert(toolchain_key(), toolchain_name),
        args: Seq::empty(),
    }
}

/// Where a set-up of Cargo stands: what it waits to hear of.
#[derive(Clone, Copy, Debug, PartialEq, Eq, Structural)]
pub enum Phase {
    /// The context of the rustup that installs the toolchain.
    Rustup,
    /// How the run of rustup ended.
    Install,
    /// What the toolset found when it verified the installed Cargo.
    Verify,
    /// Nothing: the set-up has ended.
    Done,
}

/// The mathematical value of an [`Event`].
pub enum EventView {
    Rustup(BinCtxView),
    Exited(Option<i32>),
    Verified(Option<VersionView>),
}

/// What a set-up is told after it asked for something to be done.
#[derive(Debug, PartialEq, Eq)]
pub enum Event {
    /// The context of rustup, as the toolset resolved it.
    Rustup(BinCtx),
    /// A process has ended, with this exit code if it had one.
    Exited(Option<i32>),
    /// The version that the toolset found when it verified a binary; `None` where there is
    /// no binary.
    Verified(Option<Version>),
}

impl View for Event {
    type V = EventView;

    open spec fn view(&self) -> EventView {
        match *self {
            Event::Rustup(binctx) => EventView::Rustup(binctx@),
            Event::Exited(code) => EventView::Exited(code),
            Event::Verified(Some(version)) => EventView::Verified(Some(version@)),
            Event::Verified(None) => EventView::Verified(None),
        }
    }
}

/// The mathematical value of an [`Action`].
pub enum ActionView {
    GetRustup,
    Install(InvocationView),
    Verify(BinCtxView),
    Finish(BinCtxView, VersionView),
    Fail(ErrorView),
}

/// What a set-up asks its caller to do next.
#[derive(Debug, PartialEq, Eq)]
pub enum Action {
    /// Get rustup from the toolset, as the dependencies require it; answer with
    /// [`Event::Rustup`].
    GetRustup,
    /// Run the process; answer with [`Event::Exited`].
    Install(Invocation),
    /// Verify the binary of this context with the toolset against the requirement; answer
    /// with [`Event::Verified`].
    Verify(BinCtx),
    /// The set-up has succeeded, with this context and version.
    Finish(BinCtx, Version),
    /// The set-up has failed.
    Fail(Error),
}

impl View for Action {
    type V = ActionView;

    open spec fn view(&self) -> ActionView {
        match *self {
            Action::GetRustup => ActionView::GetRustup,
            Action::Install(cmd) => ActionView::Install(cmd@),
            Action::Verify(binctx) => ActionView::Verify(binctx@),
            Action::Finish(binctx, version) => ActionView::Finish(binctx@, version@),
            Action::Fail(e) => ActionView::Fail(e@),
        }
    }
}

/// The mathematical value of a [`SetUp`].
pub struct SetUpView {
    pub phase: Phase,
    pub toolchain_name: Seq<char>,
    pub components: Seq<Seq<char>>,
    /// The context of Cargo once the toolchain is installed.
    pub binctx: BinCtxView,
    /// The program that installs the toolchain, once the toolset has resolved rustup.
    pub installer: Option<Seq<char>>,
}

impl SetUpView {
    /// The set-up in another phase.
    pub open spec fn at(self, phase: Phase) -> SetUpView {
        SetUpView { phase, ..self }
    }

    /// The set-up ends in failure.
    pub open spec fn fail(self, error: ErrorView) -> (SetUpView, ActionView) {
        (self.at(Phase::Done), ActionView::Fail(error))
    }
}

/// What a set-up does when it is told of `event`: the state that it goes to, and what it
/// asks for next. An event that the set-up did not wait for ends it in failure.
pub open spec fn step(state: SetUpView, event: EventView) -> (SetUpView, ActionView) {
    match (state.phase, event) {
        (Phase::Rustup, EventView::Rustup(rustup)) => (
            SetUpView { phase: Phase::Install, installer: Some(rustup.path), ..state },
            ActionView::Install(
                rustup.cmd().with_args(install_args(state.toolchain_name, state.components)),
            ),
        ),
        (Phase::Install, EventView::Exited(code)) => if code == Some(0i32) {
            (state.at(Phase::Verify), ActionView::Verify(state.binctx))
        } else {
            match state.installer {
                Some(program) => state.fail(ErrorView::ExitFailure { program, code }),
                None => state.fail(ErrorView::UnexpectedEvent),
            }
        },
        (Phase::Verify, EventView::Verified(found)) => match found {
            Some(version) => (state.at(Phase::Done), ActionView::Finish(state.binctx, version)),
            None => state.fail(ErrorView::NotFoundAfterInstall { path: state.binctx.path }),
        },
        _ => state.fail(ErrorView::UnexpectedEvent),
    }
}

/// The set-up of the Cargo of one toolchain, as a machine that its caller drives: the
/// caller does what the set-up asks for, and tells it what came of it.
pub struct SetUp {
    phase: Phase,
    toolchain_name: String,
    components: Vec<String>,
    binctx: BinCtx,
    installer: Option<String>,
}

impl View for SetUp {
    type V = SetUpView;

    closed spec fn view(&self) -> SetUpView {
        SetUpView {
            phase: self.phase,
            toolchain_name: self.toolchain_name@,
            components: strings(self.components@),
            binctx: self.binctx@,
            installer: match self.installer {
                Some(program) => Some(program@),
                None => None,
            },
        }
    }
}

impl SetUp {
    /// Begins the set-up of the toolchain that the requirement asks for, and says what to do
    /// first. A requirement of another shape than `=MAJOR.MINOR` is an error, and so nothing
    /// is installed for it.
    pub fn begin(toolset: &Toolset, deps: &CargoDeps, ver_req: &VersionReq) -> (r: Result<
        (SetUp, Action),
        Error,
    >)
        ensures
            is_toolchain_requirement(ver_req@) ==> (r matches Ok(pair) && pair.0@ == (SetUpView {
                phase: Phase::Rustup,
                toolchain_name: toolchain_of(ver_req@),
                components: deps.spec_components(),
                binctx: binctx_of(
                    toolset@.working_dir,
                    toolset@.environment,
                    toolchain_of(ver_req@),
                ),
                installer: None,
            }) && pair.1@ == ActionView::GetRustup),
            !is_toolchain_requirement(ver_req@) ==> (r matches Err(e) && e@
                == (ErrorView::UnsupportedRequirement {
                tool: Cargo::NAME@,
                requirement: ver_req@,
            })),
    {
        let toolchain_name = Cargo::toolchain_name(ver_req)?;
        let binctx = Cargo::binctx(toolset, toolchain_name.clone());
        let set_up = SetUp {
            phase: Phase::Rustup,
            toolchain_name,
            components: clone_strings(&deps.components),
            binctx,
            installer: None,
        };
        Ok((set_up, Action::GetRustup))
    }

    /// Returns what the set-up waits to hear of.
    pub fn phase(&self) -> (r: Phase)
        ensures
            r == self@.phase,
    {
        self.phase
    }

    /// Returns the name of the toolchain that is being set up.
    pub fn toolchain_name(&self) -> (r: &str)
        ensures
            r@ == self@.toolchain_name,
    {
        self.toolchain_name.as_str()
    }

    fn fail(&mut self, error: Error) -> (r: Action)
        ensures
            (final(self)@, r@) == old(self)@.fail(error@),
    {
        self.phase = Phase::Done;
        Action::Fail(error)
    }

    /// Takes what came of the last action, and says what to do next.
    pub fn next(&mut self, event: Event) -> (r: Action)
        ensures
            (final(self)@, r@) == step(old(self)@, event@),
    {
        match (self.phase, event) {
            (Phase::Rustup, Event::Rustup(rustup)) => {
                let cmd = Cargo::install_command(
                    &rustup,
                    self.toolchain_name.as_str(),
                    &self.components,
                );
                self.installer = Some(String::from_str(rustup.path()));
                self.phase = Phase::Install;
                Action::Install(cmd)
            },
            (Phase::Install, Event::Exited(code)) => {
                let succeeded = match code {
                    Some(code) => code == 0,
                    None => false,
                };
                if succeeded {
                    self.phase = Phase::Verify;
                    Action::Verify(self.binctx.clone())
                } else {
                    match &self.installer {
                        Some(program) => {
                            let program = program.clone();
                            self.fail(Error::ExitFailure { program, code })
                        },
                        None => self.fail(Error::UnexpectedEvent),
                    }
                }
            },
            (Phase::Verify, Event::Verified(found)) => {
                match found {
                    Some(version) => {
                        self.phase = Phase::Done;
                        Action::Finish(self.binctx.clone(), version)
                    },
                    None => {
                        let path = String::from_str(self.binctx.path());
                        self.fail(Error::NotFoundAfterInstall { path })
                    },
                }
            },
            _ => self.fail(Error::UnexpectedEvent),
        }
    }
}

/// A set-up succeeds only when the toolset has verified the Cargo of the toolchain: it ends
/// with the version that the verification found. And the toolchain is installed only by the
/// rustup that the toolset resolved, and verified only after its installation succeeded.
pub proof fn lemma_set_up_is_verified(state: SetUpView, event: EventView)
    ensures
        step(state, event).1 matches ActionView::Finish(binctx, version) ==> state.phase
            == Phase::Verify && event == EventView::Verified(Some(version)) && binctx
            == state.binctx,
        step(state, event).1 is Verify ==> state.phase == Phase::Install && event
            == EventView::Exited(Some(0i32)),
        step(state, event).1 matches ActionView::Install(cmd) ==> state.phase == Phase::Rustup
            && (event matches EventView::Rustup(rustup) && cmd.program == rustup.path),
        step(state, event).1 is Fail || step(state, event).1 is Finish <==> step(
            state,
            event,
        ).0.phase == Phase::Done,
        state.phase == Phase::Done ==> step(state, event) == state.fail(
            ErrorView::UnexpectedEvent,
        ),
{
}

} // verus!
