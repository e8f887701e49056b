use vstd::prelude::*;
use crate::date::Date;
use crate::environment::Environment;
use crate::error::{Error, ErrorView};
use crate::manifest::{
    is_newest_installed, needs_mark, with_installation, with_use, InstallationView, Manifest,
    ManifestView,
};
use crate::path::{path_join, relativized, resolved};
use crate::requirement::{
    admits, lemma_admits_ignores_build, lemma_exact_admits, lemma_newest_admitted_exists,
    newest_admitted, views, ComparatorView, VersionReq,
};
use crate::tools::{result_view, BinCtx, BinCtxView, Tool};
use crate::version::{version_text, Version, VersionView};

verus! {

/// The name of the manifest file in the tools directory.
pub const MANIFEST_NAME: &'static str = "tools.toml";

/// One binary that was probed in this process: its context, the tool that it was probed as,
/// and the version that it reported.
pub struct KnownBin {
    pub ctx: BinCtxView,
    pub name: Seq<char>,
    pub version: VersionView,
}

/// The mathematical value of a [`Warning`].
pub enum WarningView {
    StaleInstall { tool: Seq<char>, version: VersionView, path: Seq<char> },
}

/// Something that the user should hear of, and that does not stop the work.
#[derive(Debug, PartialEq, Eq)]
pub enum Warning {
    /// An installation on record is gone, or is not the version on record any more. The
    /// record of it was removed.
    StaleInstall { tool: String, version: Version, path: String },
}

impl View for Warning {
    type V = WarningView;

    open spec fn view(&self) -> WarningView {
        match *self {
            Warning::StaleInstall { tool, version, path } => WarningView::StaleInstall {
                tool: tool@,
                version: version@,
                path: path@,
            },
        }
    }
}

/// The values of a list of warnings, in its order.
pub open spec fn warning_views(warnings: Seq<Warning>) -> Seq<WarningView> {
    Seq::new(warnings.len(), |i: int| warnings[i]@)
}

/// The mathematical value of a [`Toolset`].
pub struct ToolsetView {
    pub tools_dir: Seq<char>,
    pub working_dir: Seq<char>,
    pub environment: Map<Seq<char>, Seq<char>>,
    pub manifest: ManifestView,
    /// The binaries probed in this process, in the order in which they were first probed.
    pub bins: Seq<KnownBin>,
    /// The contexts that were probed in this process and held no binary, each with the tool
    /// that it was probed as, in the order in which they were probed.
    pub missing: Seq<(BinCtxView, Seq<char>)>,
    /// Whether the manifest has changed since it was last written to disk.
    pub unsaved: bool,
    /// The warnings that were not yet handed out.
    pub warnings: Seq<WarningView>,
}

/// No context occurs twice among the known binaries.
pub open spec fn distinct_contexts(bins: Seq<KnownBin>) -> bool {
    forall|i: int, j: int|
        #![trigger bins[i], bins[j]]
        0 <= i < j < bins.len() ==> bins[i].ctx != bins[j].ctx
}

/// Where the context stands among the known binaries, if it does.
pub open spec fn place_of(bins: Seq<KnownBin>, ctx: BinCtxView) -> Option<int> {
    if exists|i: int| 0 <= i < bins.len() && (#[trigger] bins[i]).ctx == ctx {
        Some(choose|i: int| 0 <= i < bins.len() && (#[trigger] bins[i]).ctx == ctx)
    } else {
        None
    }
}

/// The version that the context reported when it was probed as the tool `name`; `None`
/// where it was not probed as that tool.
pub open spec fn cached(bins: Seq<KnownBin>, ctx: BinCtxView, name: Seq<char>) -> Option<
    VersionView,
> {
    match place_of(bins, ctx) {
        Some(i) => if bins[i].name == name {
            Some(bins[i].version)
        } else {
            None
        },
        None => None,
    }
}

/// The known binaries after the context was probed as the tool `name` and reported
/// `version`: what was known of the context is replaced, a new context comes last.
pub open spec fn remembered(
    bins: Seq<KnownBin>,
    ctx: BinCtxView,
    name: Seq<char>,
    version: VersionView,
) -> Seq<KnownBin> {
    match place_of(bins, ctx) {
        Some(i) => bins.update(i, KnownBin { ctx, name, version }),
        None => bins.push(KnownBin { ctx, name, version }),
    }
}

/// The places of the binaries known as the tool `name` among the first `n`, in order.
pub open spec fn places_of(bins: Seq<KnownBin>, name: Seq<char>, n: int) -> Seq<int>
    decreases n,
{
    if n <= 0 {
        Seq::empty()
    } else {
        let earlier = places_of(bins, name, n - 1);
        if bins[n - 1].name == name {
            earlier.push(n - 1)
        } else {
            earlier
        }
    }
}

/// The versions of the binaries at the given places.
pub open spec fn versions_at(bins: Seq<KnownBin>, places: Seq<int>) -> Seq<VersionView> {
    Seq::new(places.len(), |j: int| bins[places[j]].version)
}

/// The place of the binary that a request for the tool `name` with the given requirement is
/// answered with from what is known: the newest version that satisfies the requirement and,
/// of several contexts with that version, the one that was probed first.
pub open spec fn session_place(
    bins: Seq<KnownBin>,
    name: Seq<char>,
    comparators: Seq<ComparatorView>,
) -> Option<int> {
    let places = places_of(bins, name, bins.len() as int);
    match newest_admitted(comparators, versions_at(bins, places), places.len() as int) {
        Some(k) => Some(places[k]),
        None => None,
    }
}

/// The context that a request for the tool `name` with the given requirement is answered
/// with from what is known.
pub open spec fn session_pick(
    bins: Seq<KnownBin>,
    name: Seq<char>,
    comparators: Seq<ComparatorView>,
) -> Option<BinCtxView> {
    match session_place(bins, name, comparators) {
        Some(i) => Some(bins[i].ctx),
        None => None,
    }
}

/// The context is known as the tool `name`, with a version that satisfies the requirement.
pub open spec fn verified(
    bins: Seq<KnownBin>,
    ctx: BinCtxView,
    name: Seq<char>,
    comparators: Seq<ComparatorView>,
) -> bool {
    cached(bins, ctx, name) matches Some(version) && admits(comparators, version)
}

/// What a probed version comes to under a requirement: nothing where no
/// binary was found, the version where it satisfies the requirement, else a mismatch.
pub open spec fn checked(
    name: Seq<char>,
    path: Seq<char>,
    comparators: Seq<ComparatorView>,
    version: Option<VersionView>,
) -> Result<Option<VersionView>, ErrorView> {
    match version {
        None => Ok(None),
        Some(v) => if admits(comparators, v) {
            Ok(Some(v))
        } else {
            Err(
                ErrorView::VersionMismatch {
                    tool: name,
                    path,
                    requirement: comparators,
                    actual: v,
                },
            )
        },
    }
}

/// Whether a probe confirms the installation of `version` that is on record: a binary was
/// found, and it is that version, whatever its build tag.
pub open spec fn confirms(probed: Option<VersionView>, version: VersionView) -> bool {
    probed matches Some(found) && found.same_precedence(version)
}

/// The value of an optional version.
pub open spec fn option_view(version: Option<Version>) -> Option<VersionView> {
    match version {
        Some(v) => Some(v@),
        None => None,
    }
}

impl ToolsetView {
    /// What is known of the context from a probe as the tool `name` earlier in this
    /// process: the version that it reported, or that it held no binary. `None` where the
    /// context was not probed as that tool.
    pub open spec fn recalled(self, ctx: BinCtxView, name: Seq<char>) -> Option<
        Option<VersionView>,
    > {
        match cached(self.bins, ctx, name) {
            Some(version) => Some(Some(version)),
            None => if self.missing.contains((ctx, name)) {
                Some(None)
            } else {
                None
            },
        }
    }

    /// The toolset after a first probe of the context as the tool `name`: a version that
    /// was found is kept with the context, and so is that no binary was found; a probe that
    /// failed leaves nothing.
    pub open spec fn probed(
        self,
        ctx: BinCtxView,
        name: Seq<char>,
        outcome: Result<Option<VersionView>, ErrorView>,
    ) -> ToolsetView {
        match outcome {
            Ok(Some(version)) => ToolsetView {
                bins: remembered(self.bins, ctx, name, version),
                ..self
            },
            Ok(None) => ToolsetView { missing: self.missing.push((ctx, name)), ..self },
            Err(_) => self,
        }
    }

    /// Whether `after` is the toolset after a first probe of the context as the tool
    /// `name` was held against a requirement and that ended in the error `e`: either
    /// nothing was found out and nothing has changed, or a version was found that does not
    /// satisfy the requirement, and is kept with the context.
    pub open spec fn failed_verification(
        self,
        after: ToolsetView,
        ctx: BinCtxView,
        name: Seq<char>,
        comparators: Seq<ComparatorView>,
        e: ErrorView,
    ) -> bool {
        ||| after == self
        ||| e matches ErrorView::VersionMismatch { actual, .. } && !admits(comparators, actual)
            && after == self.probed(ctx, name, Ok(Some(actual)))
    }

    /// The context of the binary at `path` in the toolset's working directory and
    /// environment.
    pub open spec fn context_at(self, path: Seq<char>) -> BinCtxView {
        BinCtxView {
            path,
            working_dir: self.working_dir,
            environment: self.environment,
            args: Seq::empty(),
        }
    }

    /// The toolset after a probe has confirmed the installation of the tool's `version` that
    /// is on record: the day of its last use is `today` if that is later, and the manifest
    /// is unsaved if that changed it.
    pub open spec fn confirmed(self, name: Seq<char>, version: VersionView, today: Date) -> ToolsetView {
        ToolsetView {
            manifest: with_use(self.manifest, name, version, today),
            unsaved: self.unsaved || with_use(self.manifest, name, version, today) != self.manifest,
            ..self
        }
    }

    /// The toolset after a probe has found the installation of the tool's `version` that is
    /// on record to be stale: the record of it is gone, the manifest is unsaved if it held
    /// one, and a warning names the path that was probed.
    pub open spec fn evicted(self, name: Seq<char>, version: VersionView, path: Seq<char>) -> ToolsetView {
        ToolsetView {
            manifest: self.manifest.remove((name, version)),
            unsaved: self.unsaved || self.manifest.contains_key((name, version)),
            warnings: self.warnings.push(
                WarningView::StaleInstall { tool: name, version, path },
            ),
            ..self
        }
    }

    /// The toolset after a fresh installation of the tool's `version` at `path` was put on
    /// record: the path is written relative to the tools directory where it lies below it,
    /// and the manifest is unsaved.
    pub open spec fn recorded(
        self,
        name: Seq<char>,
        path: Seq<char>,
        version: VersionView,
        today: Date,
    ) -> ToolsetView {
        ToolsetView {
            manifest: with_installation(
                self.manifest,
                name,
                version,
                InstallationView { path: relativized(self.tools_dir, path), used: today },
            ),
            unsaved: true,
            ..self
        }
    }
}

/// The mathematical value of a [`Step`].
pub enum StepView {
    Resolved(BinCtxView),
    ProbeRecorded { version: VersionView, binctx: BinCtxView },
    DefaultContext,
    ProbeDefault(BinCtxView),
    SetUp,
    Failed(ErrorView),
}

/// What the resolution of a request does next.
#[derive(Debug, PartialEq, Eq)]
pub enum Step {
    /// Nothing: the request is answered with this context.
    Resolved(BinCtx),
    /// The tool's `version` is on record, and `binctx` is the context of its binary: probe
    /// the context, and report what was found with [`Report::Probed`].
    ProbeRecorded { version: Version, binctx: BinCtx },
    /// Ask the tool for its default context, and report it with [`Report::Context`].
    DefaultContext,
    /// Probe the tool's default context, and report what was found with
    /// [`Report::Probed`].
    ProbeDefault(BinCtx),
    /// Set the tool up, and report the context and the version that came of it with
    /// [`Report::SetUp`].
    SetUp,
    /// Nothing: the resolution was told of something that it had not asked for.
    Failed(Error),
}

impl View for Step {
    type V = StepView;

    open spec fn view(&self) -> StepView {
        match *self {
            Step::Resolved(binctx) => StepView::Resolved(binctx@),
            Step::ProbeRecorded { version, binctx } => StepView::ProbeRecorded {
                version: version@,
                binctx: binctx@,
            },
            Step::DefaultContext => StepView::DefaultContext,
            Step::ProbeDefault(binctx) => StepView::ProbeDefault(binctx@),
            Step::SetUp => StepView::SetUp,
            Step::Failed(e) => StepView::Failed(e@),
        }
    }
}

/// The mathematical value of a [`Report`].
pub enum ReportView {
    Probed(Option<VersionView>),
    Context(BinCtxView),
    SetUp(BinCtxView, VersionView),
}

/// What came of a step of a resolution.
#[derive(Debug, PartialEq, Eq)]
pub enum Report {
    /// The version that the probe of a context found; `None` where there is no binary.
    Probed(Option<Version>),
    /// The tool's default context.
    Context(BinCtx),
    /// The context that the set-up made, and its version.
    SetUp(BinCtx, Version),
}

impl View for Report {
    type V = ReportView;

    open spec fn view(&self) -> ReportView {
        match *self {
            Report::Probed(Some(version)) => ReportView::Probed(Some(version@)),
            Report::Probed(None) => ReportView::Probed(None),
            Report::Context(binctx) => ReportView::Context(binctx@),
            Report::SetUp(binctx, version) => ReportView::SetUp(binctx@, version@),
        }
    }
}

/// Whether the manifest holds a version of the tool that satisfies the requirement.
pub open spec fn has_candidate(
    manifest: ManifestView,
    name: Seq<char>,
    comparators: Seq<ComparatorView>,
) -> bool {
    exists|version: VersionView|
        #![trigger manifest.contains_key((name, version))]
        manifest.contains_key((name, version)) && admits(comparators, version)
}

/// Whether `step` is how the resolution of a request for the tool `name` with the given
/// requirement begins. What was probed in this process answers the request if it can. Else
/// the newest installation on record that satisfies the requirement is probed, if the tool
/// is managed and has one. Else the tool's default context is asked for.
pub open spec fn begins(
    toolset: ToolsetView,
    name: Seq<char>,
    managed: bool,
    comparators: Seq<ComparatorView>,
    step: StepView,
) -> bool {
    match session_pick(toolset.bins, name, comparators) {
        Some(binctx) => step == StepView::Resolved(binctx),
        None => if managed && has_candidate(toolset.manifest, name, comparators) {
            step matches StepView::ProbeRecorded { version, binctx } && is_newest_installed(
                toolset.manifest,
                name,
                comparators,
                version,
            ) && binctx == toolset.context_at(
                resolved(toolset.tools_dir, toolset.manifest[(name, version)].path),
            )
        } else {
            step == StepView::DefaultContext
        },
    }
}

/// How the resolution of a request goes on after `step`, when `report` came of it: the
/// toolset after it, and the next step.
///
/// A probe that confirms the installation on record answers the request; one that does not
/// takes the installation off the record, and the tool's default context is asked for. The
/// default context is probed, and answers the request if its version satisfies the
/// requirement: nothing is put on record for it. Else the tool is set up, and what comes of
/// it answers the request; it is put on record if the tool is managed.
pub open spec fn proceeds(
    toolset: ToolsetView,
    name: Seq<char>,
    managed: bool,
    comparators: Seq<ComparatorView>,
    today: Date,
    step: StepView,
    report: ReportView,
) -> (ToolsetView, StepView) {
    match (step, report) {
        (StepView::ProbeRecorded { version, binctx }, ReportView::Probed(found)) => if confirms(
            found,
            version,
        ) {
            (toolset.confirmed(name, version, today), StepView::Resolved(binctx))
        } else {
            (toolset.evicted(name, version, binctx.path), StepView::DefaultContext)
        },
        (StepView::DefaultContext, ReportView::Context(binctx)) => (
            toolset,
            StepView::ProbeDefault(binctx),
        ),
        (StepView::ProbeDefault(binctx), ReportView::Probed(found)) => if satisfies(
            found,
            comparators,
        ) {
            (toolset, StepView::Resolved(binctx))
        } else {
            (toolset, StepView::SetUp)
        },
        (StepView::SetUp, ReportView::SetUp(binctx, version)) => (
            if managed {
                toolset.recorded(name, binctx.path, version, today)
            } else {
                toolset
            },
            StepView::Resolved(binctx),
        ),
        _ => (toolset, StepView::Failed(ErrorView::UnexpectedEvent)),
    }
}

/// Whether a probe found a version that satisfies the requirement.
pub open spec fn satisfies(found: Option<VersionView>, comparators: Seq<ComparatorView>) -> bool {
    found matches Some(version) && admits(comparators, version)
}

/// How many steps a resolution may still take after `step`.
pub open spec fn steps_left(step: StepView) -> nat {
    match step {
        StepView::ProbeRecorded { .. } => 4,
        StepView::DefaultContext => 3,
        StepView::ProbeDefault(_) => 2,
        StepView::SetUp => 1,
        StepView::Resolved(_) => 0,
        StepView::Failed(_) => 0,
    }
}

struct Known {
    binctx: BinCtx,
    name: String,
    version: Version,
}

impl View for Known {
    type V = KnownBin;

    closed spec fn view(&self) -> KnownBin {
        KnownBin { ctx: self.binctx@, name: self.name@, version: self.version@ }
    }
}

spec fn bin_views(bins: Seq<Known>) -> Seq<KnownBin> {
    Seq::new(bins.len(), |i: int| bins[i]@)
}

proof fn lemma_place_of(bins: Seq<KnownBin>, i: int)
    requires
        distinct_contexts(bins),
        0 <= i < bins.len(),
    ensures
        place_of(bins, bins[i].ctx) == Some(i),
{
    let j = choose|j: int| 0 <= j < bins.len() && (#[trigger] bins[j]).ctx == bins[i].ctx;
    assert(bins[j].ctx == bins[i].ctx);
    if j < i {
        assert(bins[j].ctx != bins[i].ctx);
    } else if i < j {
        assert(bins[i].ctx != bins[j].ctx);
    }
}

proof fn lemma_places_of(bins: Seq<KnownBin>, name: Seq<char>, n: int)
    requires
        0 <= n <= bins.len(),
    ensures
        forall|j: int|
            0 <= j < places_of(bins, name, n).len() ==> 0 <= (#[trigger] places_of(
                bins,
                name,
                n,
            )[j]) < n && bins[places_of(bins, name, n)[j]].name == name,
        forall|i: int|
            0 <= i < n && (#[trigger] bins[i]).name == name ==> exists|j: int|
                0 <= j < places_of(bins, name, n).len() && #[trigger] places_of(bins, name, n)[j]
                    == i,
    decreases n,
{
    if n > 0 {
        lemma_places_of(bins, name, n - 1);
        let earlier = places_of(bins, name, n - 1);
        let now = places_of(bins, name, n);
        assert forall|i: int| 0 <= i < n && (#[trigger] bins[i]).name == name implies exists|
            j: int,
        |
            0 <= j < now.len() && #[trigger] now[j] == i by {
            if i < n - 1 {
                let j = choose|j: int| 0 <= j < earlier.len() && #[trigger] earlier[j] == i;
                assert(now[j] == i);
            } else {
                assert(now[now.len() - 1] == i);
            }
        }
    }
}

/// The binaries probed in this process, in the order in which they were first probed.
struct Probed {
    bins: Vec<Known>,
}

impl View for Probed {
    type V = Seq<KnownBin>;

    closed spec fn view(&self) -> Seq<KnownBin> {
        bin_views(self.bins@)
    }
}

impl Probed {
    #[verifier::type_invariant]
    closed spec fn valid(self) -> bool {
        distinct_contexts(bin_views(self.bins@))
    }

    fn new() -> (r: Probed)
        ensures
            r@ == Seq::<KnownBin>::empty(),
    {
        let r = Probed { bins: Vec::new() };
        assert(r@ =~= Seq::empty());
        r
    }

    fn contexts_are_distinct(&self)
        ensures
            distinct_contexts(self@),
    {
        proof {
            use_type_invariant(self);
        }
    }

    fn find(&self, binctx: &BinCtx) -> (r: Option<usize>)
        ensures
            r is None <==> place_of(self@, binctx@) is None,
            r matches Some(i) ==> i < self.bins@.len() && place_of(self@, binctx@) == Some(
                i as int,
            ) && self@[i as int] == self.bins@[i as int]@,
    {
        proof {
            use_type_invariant(self);
        }
        let ghost bins = bin_views(self.bins@);
        let mut i: usize = 0;
        while i < self.bins.len()
            invariant
                i <= self.bins.len(),
                bins == bin_views(self.bins@),
                distinct_contexts(bins),
                forall|j: int| 0 <= j < i ==> (#[trigger] bins[j]).ctx != binctx@,
            decreases self.bins.len() - i,
        {
            assert(bins[i as int] == self.bins@[i as int]@);
            if self.bins[i].binctx.same(binctx) {
                proof {
                    lemma_place_of(bins, i as int);
                }
                return Some(i);
            }
            i += 1;
        }
        None
    }

    /// The version that the context reported when it was probed as the tool `name` in this
    /// process; `None` where it was not.
    fn cached_version(&self, name: &str, binctx: &BinCtx) -> (r: Option<Version>)
        ensures
            option_view(r) == cached(self@, binctx@, name@),
    {
        match self.find(binctx) {
            Some(i) => {
                let known = &self.bins[i];
                let name = String::from_str(name);
                if known.name == name {
                    Some(known.version.clone())
                } else {
                    None
                }
            },
            None => None,
        }
    }

    fn remember(&mut self, binctx: &BinCtx, name: &str, version: &Version)
        ensures
            final(self)@ == remembered(old(self)@, binctx@, name@, version@),
            cached(final(self)@, binctx@, name@) == Some(version@),
    {
        proof {
            use_type_invariant(&*self);
        }
        let found = self.find(binctx);
        let known = Known {
            binctx: binctx.clone(),
            name: String::from_str(name),
            version: version.clone(),
        };
        let mut bins: Vec<Known> = Vec::new();
        std::mem::swap(&mut bins, &mut self.bins);
        let ghost before = bin_views(bins@);
        match found {
            Some(i) => {
                bins.set(i, known);
                proof {
                    let after = bin_views(bins@);
                    assert(after =~= before.update(i as int, known@));
                    assert forall|a: int, b: int|
                        #![trigger after[a], after[b]]
                        0 <= a < b < after.len() implies after[a].ctx != after[b].ctx by {
                        assert(after[a].ctx == before[a].ctx);
                        assert(after[b].ctx == before[b].ctx);
                    }
                    lemma_place_of(after, i as int);
                }
            },
            None => {
                bins.push(known);
                proof {
                    let after = bin_views(bins@);
                    assert(after =~= before.push(known@));
                    assert forall|a: int, b: int|
                        #![trigger after[a], after[b]]
                        0 <= a < b < after.len() implies after[a].ctx != after[b].ctx by {
                        assert(after[a] == before[a]);
                        if b < before.len() {
                            assert(after[b] == before[b]);
                        }
                    }
                    lemma_place_of(after, before.len() as int);
                }
            },
        }
        self.bins = bins;
    }

    /// Answers a request for the tool `name` with the given requirement from what was probed
    /// in this process: with the context whose version is the newest that satisfies the
    /// requirement, and the first probed of several such contexts. `None` where no known
    /// binary of the tool satisfies the requirement.
    fn lookup(&self, name: &str, ver_req: &VersionReq) -> (r: Option<BinCtx>)
        ensures
            r is None <==> session_pick(self@, name@, ver_req@) is None,
            r matches Some(binctx) ==> session_pick(self@, name@, ver_req@) == Some(binctx@),
            r matches Some(binctx) ==> verified(self@, binctx@, name@, ver_req@),
            r is None <==> forall|i: int|
                0 <= i < self@.len() && (#[trigger] self@[i]).name == name@ ==> !admits(
                    ver_req@,
                    self@[i].version,
                ),
    {
        proof {
            use_type_invariant(self);
        }
        let ghost bins = bin_views(self.bins@);
        let name = String::from_str(name);
        let mut versions: Vec<Version> = Vec::new();
        let mut places: Vec<usize> = Vec::new();
        let mut i: usize = 0;
        while i < self.bins.len()
            invariant
                i <= self.bins.len(),
                bins == bin_views(self.bins@),
                versions@.len() == places@.len(),
                places@.len() == places_of(bins, name@, i as int).len(),
                forall|j: int|
                    0 <= j < places@.len() ==> (#[trigger] places@[j]) as int == places_of(
                        bins,
                        name@,
                        i as int,
                    )[j],
                forall|j: int|
                    0 <= j < places@.len() ==> (#[trigger] places@[j]) < i && versions@[j]@
                        == bins[places@[j] as int].version,
            decreases self.bins.len() - i,
        {
            let known = &self.bins[i];
            assert(bins[i as int] == known@);
            if known.name == name {
                versions.push(known.version.clone());
                places.push(i);
            }
            i += 1;
        }
        let ghost spec_places = places_of(bins, name@, bins.len() as int);
        let ghost candidates = versions_at(bins, spec_places);
        proof {
            assert(spec_places.len() == places@.len());
            assert forall|j: int| 0 <= j < candidates.len() implies views(versions@)[j]
                == #[trigger] candidates[j] by {
                assert(places@[j] as int == spec_places[j]);
            }
            assert(views(versions@) =~= candidates);
            lemma_places_of(bins, name@, bins.len() as int);
            lemma_newest_admitted_exists(ver_req@, candidates, candidates.len() as int);
        }
        match ver_req.newest_match(&versions) {
            None => {
                assert forall|e: int| 0 <= e < bins.len() && (#[trigger] bins[e]).name
                    == name@ implies !admits(ver_req@, bins[e].version) by {
                    let j = choose|j: int| 0 <= j < spec_places.len() && #[trigger] spec_places[j] == e;
                    assert(candidates[j] == bins[e].version);
                }
                None
            },
            Some(k) => {
                let place = places[k];
                assert(place as int == spec_places[k as int]);
                assert(candidates[k as int] == bins[place as int].version);
                let known = &self.bins[place];
                assert(bins[place as int] == known@);
                proof {
                    lemma_place_of(bins, place as int);
                }
                Some(known.binctx.clone())
            },
        }
    }
}

/// A context that was probed as the tool `name` and held no binary.
struct Missing {
    binctx: BinCtx,
    name: String,
}

impl View for Missing {
    type V = (BinCtxView, Seq<char>);

    closed spec fn view(&self) -> (BinCtxView, Seq<char>) {
        (self.binctx@, self.name@)
    }
}

spec fn missing_views(missing: Seq<Missing>) -> Seq<(BinCtxView, Seq<char>)> {
    Seq::new(missing.len(), |i: int| missing[i]@)
}

/// Collection of tools: the tools directory with its manifest, the working directory and
/// the environment that the tools run in, and the binaries probed in this process.
pub struct Toolset {
    tools_dir: String,
    working_dir: String,
    manifest: Manifest,
    environment: Environment,
    /// Every entry was probed during the lifetime of this process and reported the version
    /// that stands with it.
    probed: Probed,
    /// Every entry was probed during the lifetime of this process and held no binary.
    missing: Vec<Missing>,
    unsaved: bool,
    warnings: Vec<Warning>,
}

impl View for Toolset {
    type V = ToolsetView;

    closed spec fn view(&self) -> ToolsetView {
        ToolsetView {
            tools_dir: self.tools_dir@,
            working_dir: self.working_dir@,
            environment: self.environment@,
            manifest: self.manifest@,
            bins: self.probed@,
            missing: missing_views(self.missing@),
            unsaved: self.unsaved,
            warnings: warning_views(self.warnings@),
        }
    }
}

impl Toolset {
    /// Creates a new toolset over the tools directory. `manifest` is what the manifest file
    /// in it holds; `None` says that there is no such file, which is an empty manifest.
    pub fn new(
        tools_dir: String,
        working_dir: String,
        environment: Environment,
        manifest: Option<Manifest>,
    ) -> (r: Toolset)
        ensures
            r@ == (ToolsetView {
                tools_dir: tools_dir@,
                working_dir: working_dir@,
                environment: environment@,
                manifest: match manifest {
                    Some(m) => m@,
                    None => Map::empty(),
                },
                bins: Seq::empty(),
                missing: Seq::empty(),
                unsaved: false,
                warnings: Seq::empty(),
            }),
    {
        let manifest = match manifest {
            Some(m) => m,
            None => Manifest::new(),
        };
        let r = Toolset {
            tools_dir,
            working_dir,
            manifest,
            environment,
            probed: Probed::new(),
            missing: Vec::new(),
            unsaved: false,
            warnings: Vec::new(),
        };
        assert(r@.bins =~= Seq::empty());
        assert(r@.missing =~= Seq::empty());
        assert(r@.warnings =~= Seq::empty());
        r
    }

    /// In every toolset each context is known once. Calling this brings the fact into a
    /// proof.
    pub fn contexts_are_distinct(&self)
        ensures
            distinct_contexts(self@.bins),
    {
        self.probed.contexts_are_distinct();
    }

    /// Returns a reference to the default environment.
    pub fn environment(&self) -> (r: &Environment)
        ensures
            r@ == self@.environment,
    {
        &self.environment
    }

    /// Returns the default working directory.
    pub fn working_dir(&self) -> (r: &str)
        ensures
            r@ == self@.working_dir,
    {
        self.working_dir.as_str()
    }

    /// Returns the tools directory.
    pub fn tools_dir(&self) -> (r: &str)
        ensures
            r@ == self@.tools_dir,
    {
        self.tools_dir.as_str()
    }

    /// Returns the manifest.
    pub fn manifest(&self) -> (r: &Manifest)
        ensures
            r@ == self@.manifest,
    {
        &self.manifest
    }

    /// Returns the path of the manifest file.
    pub fn manifest_path(&self) -> (r: String)
        ensures
            r@ == path_join(self@.tools_dir, MANIFEST_NAME@),
    {
        crate::path::join(self.tools_dir.as_str(), MANIFEST_NAME)
    }

    /// Whether the manifest has changed since it was last written to disk.
    pub fn unsaved(&self) -> (r: bool)
        ensures
            r == self@.unsaved,
    {
        self.unsaved
    }

    /// Records that the manifest was written to disk as it is.
    pub fn mark_saved(&mut self)
        ensures
            final(self)@ == (ToolsetView { unsaved: false, ..old(self)@ }),
    {
        self.unsaved = false;
    }

    /// Hands out the warnings that came up since the last call, oldest first.
    pub fn take_warnings(&mut self) -> (r: Vec<Warning>)
        ensures
            warning_views(r@) == old(self)@.warnings,
            final(self)@ == (ToolsetView { warnings: Seq::empty(), ..old(self)@ }),
    {
        let mut warnings: Vec<Warning> = Vec::new();
        std::mem::swap(&mut warnings, &mut self.warnings);
        assert(self@.warnings =~= Seq::empty());
        warnings
    }

    /// Returns a new [`BinCtx`] with default working dir and environment variables.
    pub fn binctx(&self, path: String) -> (r: BinCtx)
        ensures
            r@ == self@.context_at(path@),
    {
        BinCtx::new(path, self.working_dir.clone(), self.environment.clone())
    }

    /// Returns the directory where the tool binary should be installed.
    pub fn install_dir(&self, name: &str, version: &Version) -> (r: String)
        ensures
            r@ == path_join(path_join(self@.tools_dir, name@), version_text(version@)),
    {
        let tool_dir = crate::path::join(self.tools_dir.as_str(), name);
        let version = version.to_text();
        crate::path::join(tool_dir.as_str(), version.as_str())
    }

    /// Returns the temporary directory where the tool binary can be installed, before being
    /// moved to its install directory.
    ///
    /// This temporary directory is expected to not exist and should be cleaned up by the
    /// caller.
    pub fn temp_install_dir(&self, name: &str) -> (r: String)
        ensures
            r@ == path_join(self@.tools_dir, "temp-"@ + name@),
    {
        let dir = String::from_str("temp-").concat(name);
        crate::path::join(self.tools_dir.as_str(), dir.as_str())
    }

    /// Says what to do so that the tools directory exists, given what stands at its path:
    /// `true` to create it, `false` where it is there already. Something else at its path
    /// is an error.
    pub fn ensure_tools_dir(&self, exists: bool, is_dir: bool) -> (r: Result<bool, Error>)
        ensures
            !exists ==> r == Ok::<bool, Error>(true),
            exists && is_dir ==> r == Ok::<bool, Error>(false),
            exists && !is_dir ==> (r matches Err(e) && e@ == (ErrorView::NotADirectory {
                path: self@.tools_dir,
            })),
    {
        if !exists {
            Ok(true)
        } else if !is_dir {
            Err(Error::NotADirectory { path: self.tools_dir.clone() })
        } else {
            Ok(false)
        }
    }

    /// The version that the context reported when it was probed as the tool `name` in this
    /// process; `None` where it was not.
    pub fn cached_version(&self, name: &str, binctx: &BinCtx) -> (r: Option<Version>)
        ensures
            option_view(r) == cached(self@.bins, binctx@, name@),
    {
        self.probed.cached_version(name, binctx)
    }

    /// Answers a request for the tool `name` with the given requirement from what was probed
    /// in this process: with the context whose version is the newest that satisfies the
    /// requirement, and the first probed of several such contexts. `None` where no known
    /// binary of the tool satisfies the requirement.
    pub fn session_lookup(&self, name: &str, ver_req: &VersionReq) -> (r: Option<BinCtx>)
        ensures
            r is None <==> session_pick(self@.bins, name@, ver_req@) is None,
            r matches Some(binctx) ==> session_pick(self@.bins, name@, ver_req@) == Some(binctx@),
            r matches Some(binctx) ==> verified(self@.bins, binctx@, name@, ver_req@),
            r is None <==> forall|i: int|
                0 <= i < self@.bins.len() && (#[trigger] self@.bins[i]).name == name@ ==> !admits(
                    ver_req@,
                    self@.bins[i].version,
                ),
    {
        self.probed.lookup(name, ver_req)
    }

    /// Says what the probe of a binary comes to under a requirement: nothing where no binary
    /// was found, the version where it satisfies the requirement, and else an error that
    /// names the tool, the path, the requirement and the version.
    pub fn check_version(
        name: &str,
        binctx: &BinCtx,
        ver_req: &VersionReq,
        version: Option<Version>,
    ) -> (r: Result<Option<Version>, Error>)
        ensures
            result_view(r) == checked(name@, binctx@.path, ver_req@, option_view(version)),
    {
        match version {
            None => Ok(None),
            Some(version) => {
                if ver_req.matches(&version) {
                    Ok(Some(version))
                } else {
                    Err(
                        Error::VersionMismatch {
                            tool: String::from_str(name),
                            path: String::from_str(binctx.path()),
                            requirement: ver_req.clone(),
                            actual: version,
                        },
                    )
                }
            },
        }
    }

    /// Looks up the manifest for the newest version of the tool that satisfies the
    /// requirement, and returns it with the context of its binary: a relative path on record
    /// is taken from the tools directory. `None` where the manifest holds no such version.
    pub fn manifest_candidate(&self, name: &str, ver_req: &VersionReq) -> (r: Option<
        (Version, BinCtx),
    >)
        ensures
            r is None <==> forall|version: VersionView|
                #![trigger self@.manifest.contains_key((name@, version))]
                self@.manifest.contains_key((name@, version)) ==> !admits(ver_req@, version),
            r matches Some((version, binctx)) ==> is_newest_installed(
                self@.manifest,
                name@,
                ver_req@,
                version@,
            ) && binctx@ == self@.context_at(
                resolved(self@.tools_dir, self@.manifest[(name@, version@)].path),
            ),
    {
        match self.manifest.get(name, ver_req) {
            None => None,
            Some((version, path)) => {
                let path = crate::path::resolve(self.tools_dir.as_str(), path.as_str());
                let binctx = self.binctx(path);
                assert(self@.manifest.contains_key((name@, version@)) && admits(
                    ver_req@,
                    version@,
                ));
                Some((version, binctx))
            },
        }
    }

    /// Acts on the probe of an installation that is on record. Where the probe found the
    /// version on record, the day of its last use becomes `today` if that is later, and the
    /// result is `true`. Where it found nothing, or another version, the record of the
    /// installation is removed, a warning is left, and the result is `false`. The manifest
    /// is marked as unsaved exactly where it changed.
    pub fn settle_manifest_probe(
        &mut self,
        name: &str,
        version: &Version,
        binctx: &BinCtx,
        probed: &Option<Version>,
        today: Date,
    ) -> (r: bool)
        ensures
            r == confirms(option_view(*probed), version@),
            r ==> final(self)@ == old(self)@.confirmed(name@, version@, today),
            !r ==> final(self)@ == old(self)@.evicted(name@, version@, binctx@.path),
    {
        let confirmed = match probed {
            Some(found) => {
                let exact = VersionReq::exact(version);
                proof {
                    lemma_exact_admits(version@, found@);
                }
                exact.matches(found)
            },
            None => false,
        };
        if confirmed {
            let ghost before = self@.manifest;
            if self.manifest.mark_used(name, version, today) {
                proof {
                    crate::date::lemma_before_is_strict_total_order(
                        before[(name@, version@)].used,
                        today,
                        today,
                    );
                    assert(with_use(before, name@, version@, today)[(name@, version@)].used
                        == today);
                }
                self.unsaved = true;
            }
            true
        } else {
            let ghost before = self@.warnings;
            self.warnings.push(
                Warning::StaleInstall {
                    tool: String::from_str(name),
                    version: version.clone(),
                    path: String::from_str(binctx.path()),
                },
            );
            assert(self@.warnings =~= before.push(
                WarningView::StaleInstall { tool: name@, version: version@, path: binctx@.path },
            ));
            if self.manifest.remove(name, version) {
                self.unsaved = true;
            }
            false
        }
    }

    /// Puts a fresh installation on record: the tool's `version` at the path of `binctx`,
    /// written relative to the tools directory where it lies below it, and used `today`. The
    /// manifest is marked as unsaved.
    pub fn record_install(&mut self, name: &str, binctx: &BinCtx, version: &Version, today: Date)
        ensures
            final(self)@ == old(self)@.recorded(name@, binctx@.path, version@, today),
    {
        let path = crate::path::relativize(self.tools_dir.as_str(), binctx.path());
        self.manifest.set(String::from_str(name), version.clone(), path, today);
        self.unsaved = true;
    }

    /// Whether the context was probed as the tool `name` in this process and held no binary.
    pub fn known_missing(&self, name: &str, binctx: &BinCtx) -> (r: bool)
        ensures
            r == self@.missing.contains((binctx@, name@)),
    {
        let ghost missing = missing_views(self.missing@);
        let wanted = String::from_str(name);
        let mut i: usize = 0;
        while i < self.missing.len()
            invariant
                i <= self.missing.len(),
                missing == missing_views(self.missing@),
                missing == self@.missing,
                wanted@ == name@,
                forall|j: int| 0 <= j < i ==> #[trigger] missing[j] != (binctx@, name@),
            decreases self.missing.len() - i,
        {
            let entry = &self.missing[i];
            assert(missing[i as int] == entry@);
            if entry.binctx.same(binctx) && entry.name == wanted {
                assert(missing[i as int] == (binctx@, name@));
                return true;
            }
            i += 1;
        }
        false
    }

    /// Returns the [`Version`] of the binary context, probed as the tool `T`.
    ///
    /// A context that was probed as this tool before in this process is not probed again:
    /// what the probe found then is returned, a version or that there is no binary, and
    /// neither the toolset nor the tool changes. Else the tool extracts the version, and
    /// what it finds is kept for the rest of the process, a version as well as that there
    /// is no binary; an error of the tool is passed on and leaves nothing. Returns `None` if
    /// the binary does not exist.
    pub fn version<T: Tool>(&mut self, tool: &mut T, binctx: &BinCtx) -> (r: Result<
        Option<Version>,
        Error,
    >)
        ensures
            old(self)@.recalled(binctx@, T::NAME@) matches Some(found) ==> result_view(r) == Ok::<
                Option<VersionView>,
                ErrorView,
            >(found) && final(self)@ == old(self)@ && *final(tool) == *old(tool),
            old(self)@.recalled(binctx@, T::NAME@) is None ==> final(self)@ == old(self)@.probed(
                binctx@,
                T::NAME@,
                result_view(r),
            ),
            r matches Ok(Some(version)) ==> cached(final(self)@.bins, binctx@, T::NAME@)
                == Some(version@),
            r is Ok ==> final(self)@.recalled(binctx@, T::NAME@) == Some(
                option_view(r->Ok_0),
            ),
    {
        let name = T::NAME;
        match self.cached_version(name, binctx) {
            Some(version) => Ok(Some(version)),
            None => {
                if self.known_missing(name, binctx) {
                    return Ok(None);
                }
                match tool.extract_version(binctx) {
                    Err(e) => Err(e),
                    Ok(None) => {
                        let ghost before = self@.missing;
                        self.missing.push(
                            Missing { binctx: binctx.clone(), name: String::from_str(name) },
                        );
                        assert(self@.missing =~= before.push((binctx@, name@)));
                        assert(self@.missing[before.len() as int] == (binctx@, name@));
                        Ok(None)
                    },
                    Ok(Some(version)) => {
                        self.probed.remember(binctx, name, &version);
                        Ok(Some(version))
                    },
                }
            },
        }
    }

    /// Verifies that the given binary context is a binary of the tool `T` that satisfies
    /// `ver_req`.
    ///
    /// Returns the specific `Version` of the tool, or `None` if the binary doesn't exist.
    /// Errors if the binary exists but is an unexpected version. The version is looked up
    /// with [`Toolset::version`], and nothing of the toolset changes but what that keeps of
    /// a first probe.
    pub fn verify<T: Tool>(&mut self, tool: &mut T, binctx: &BinCtx, ver_req: &VersionReq) -> (r:
        Result<Option<Version>, Error>)
        ensures
            old(self)@.recalled(binctx@, T::NAME@) matches Some(found) ==> result_view(r)
                == checked(T::NAME@, binctx@.path, ver_req@, found) && final(self)@ == old(self)@
                && *final(tool) == *old(tool),
            r matches Ok(Some(version)) ==> admits(ver_req@, version@) && cached(
                final(self)@.bins,
                binctx@,
                T::NAME@,
            ) == Some(version@),
            old(self)@.recalled(binctx@, T::NAME@) is None && r is Ok ==> final(self)@
                == old(self)@.probed(binctx@, T::NAME@, result_view(r)),
            old(self)@.recalled(binctx@, T::NAME@) is None && r is Err
                ==> old(self)@.failed_verification(
                final(self)@,
                binctx@,
                T::NAME@,
                ver_req@,
                r->Err_0@,
            ),
    {
        let version = self.version(tool, binctx)?;
        Toolset::check_version(T::NAME, binctx, ver_req, version)
    }

    /// Begins the resolution of a request for the tool `name` with the given requirement,
    /// and says what to do first.
    pub fn begin(&self, name: &str, managed: bool, ver_req: &VersionReq) -> (r: Step)
        ensures
            begins(self@, name@, managed, ver_req@, r@),
    {
        // First check if a version of this tool that meets the requirement was used already
        // during this session.
        match self.session_lookup(name, ver_req) {
            Some(binctx) => {
                return Step::Resolved(binctx);
            },
            None => {},
        }
        // Check if the manifest has an installation that matches the requirement.
        if managed {
            match self.manifest_candidate(name, ver_req) {
                Some((version, binctx)) => {
                    return Step::ProbeRecorded { version, binctx };
                },
                None => {},
            }
        }
        Step::DefaultContext
    }

    /// Goes on with the resolution of a request after `step`, of which `report` came, and
    /// says what to do next. A report of something that the step did not ask for fails the
    /// resolution.
    pub fn proceed(
        &mut self,
        name: &str,
        managed: bool,
        ver_req: &VersionReq,
        today: Date,
        step: Step,
        report: Report,
    ) -> (r: Step)
        ensures
            (final(self)@, r@) == proceeds(
                old(self)@,
                name@,
                managed,
                ver_req@,
                today,
                step@,
                report@,
            ),
    {
        match (step, report) {
            (Step::ProbeRecorded { version, binctx }, Report::Probed(found)) => {
                // The installation on record is used if it still exists and is the version
                // on record; else it is taken off the record.
                if self.settle_manifest_probe(name, &version, &binctx, &found, today) {
                    Step::Resolved(binctx)
                } else {
                    Step::DefaultContext
                }
            },
            (Step::DefaultContext, Report::Context(binctx)) => Step::ProbeDefault(binctx),
            (Step::ProbeDefault(binctx), Report::Probed(found)) => {
                // The default installation is used if it meets the requirement.
                let satisfied = match &found {
                    Some(version) => ver_req.matches(version),
                    None => false,
                };
                if satisfied {
                    Step::Resolved(binctx)
                } else {
                    Step::SetUp
                }
            },
            (Step::SetUp, Report::SetUp(binctx, version)) => {
                // Update the manifest if this tool is supposed to be managed by the toolset.
                if managed {
                    self.record_install(name, &binctx, &version, today);
                }
                Step::Resolved(binctx)
            },
            _ => Step::Failed(Error::UnexpectedEvent),
        }
    }

    /// Get a specific tool that meets the given version requirement and uses the specified
    /// dependencies, on the day `today`.
    ///
    /// `None` as the version requirement means that the tool's default context is returned
    /// as it is. Else the request is resolved step by step, from [`Toolset::begin`] on with
    /// [`Toolset::proceed`], and the tool does what the steps ask for: its binaries are probed
    /// with [`Toolset::version`], and an error of the tool ends the resolution.
    ///
    /// A request that the binaries probed in this process can answer is answered with
    /// [`session_pick`], and changes neither the toolset nor the tool. Whatever the tool did,
    /// a context that is returned for a requirement is known by then as this tool, with a
    /// version that satisfies the requirement.
    pub fn get_on<T: Tool>(
        &mut self,
        tool: &mut T,
        deps: &T::Deps,
        ver_req: Option<&VersionReq>,
        today: Date,
    ) -> (r: Result<BinCtx, Error>)
        ensures
            ver_req is Some && session_pick(old(self)@.bins, T::NAME@, ver_req->0@)
                is Some ==> (r matches Ok(binctx) && Some(binctx@) == session_pick(
                old(self)@.bins,
                T::NAME@,
                ver_req->0@,
            ) && final(self)@ == old(self)@ && *final(tool) == *old(tool)),
            ver_req is Some && r is Ok ==> verified(
                final(self)@.bins,
                r->Ok_0@,
                T::NAME@,
                ver_req->0@,
            ),
    {
        let req = match ver_req {
            Some(req) => req,
            None => {
                return tool.default_binctx(self, deps);
            },
        };
        let ghost picked = session_pick(old(self)@.bins, T::NAME@, req@);
        self.contexts_are_distinct();
        proof {
            lemma_pick_is_verified(self@.bins, T::NAME@, req@);
        }
        let mut step = self.begin(T::NAME, T::MANAGED, req);
        loop
            invariant
                ver_req == Some(req),
                picked == session_pick(old(self)@.bins, T::NAME@, req@),
                picked is Some ==> step@ == StepView::Resolved(picked->0) && self@ == old(self)@
                    && *tool == *old(tool),
                step@ matches StepView::Resolved(binctx) ==> verified(
                    self@.bins,
                    binctx,
                    T::NAME@,
                    req@,
                ),
                step@ matches StepView::ProbeRecorded { version, .. } ==> admits(req@, version),
            decreases steps_left(step@),
        {
            let report = match &step {
                Step::Resolved(binctx) => {
                    return Ok(binctx.clone());
                },
                Step::Failed(_) => {
                    return Err(Error::UnexpectedEvent);
                },
                Step::ProbeRecorded { version, binctx } => {
                    let found = self.version(tool, binctx)?;
                    proof {
                        if confirms(option_view(found), version@) {
                            lemma_admits_ignores_build(req@, found->0@, version@);
                        }
                    }
                    Report::Probed(found)
                },
                Step::DefaultContext => Report::Context(tool.default_binctx(self, deps)?),
                Step::ProbeDefault(binctx) => Report::Probed(self.version(tool, binctx)?),
                Step::SetUp => {
                    let (binctx, version) = tool.set_up(self, deps, req)?;
                    Report::SetUp(binctx, version)
                },
            };
            step = self.proceed(T::NAME, T::MANAGED, req, today, step, report);
        }
    }

    /// Get a specific tool that meets the given version requirement and uses the specified
    /// dependencies, today. See [`Toolset::get_on`].
    pub fn get<T: Tool>(&mut self, tool: &mut T, deps: &T::Deps, ver_req: Option<&VersionReq>) -> (r:
        Result<BinCtx, Error>)
        ensures
            ver_req is Some && session_pick(old(self)@.bins, T::NAME@, ver_req->0@)
                is Some ==> (r matches Ok(binctx) && Some(binctx@) == session_pick(
                old(self)@.bins,
                T::NAME@,
                ver_req->0@,
            ) && final(self)@ == old(self)@ && *final(tool) == *old(tool)),
            ver_req is Some && r is Ok ==> verified(
                final(self)@.bins,
                r->Ok_0@,
                T::NAME@,
                ver_req->0@,
            ),
    {
        let today = Date::today();
        self.get_on(tool, deps, ver_req, today)
    }
}

/// A resolution ends: each step leaves fewer steps to take, and a resolution that is
/// answered or has failed takes none.
pub proof fn lemma_resolution_ends(
    toolset: ToolsetView,
    name: Seq<char>,
    managed: bool,
    comparators: Seq<ComparatorView>,
    today: Date,
    step: StepView,
    report: ReportView,
)
    ensures
        steps_left(step) > 0 ==> steps_left(
            proceeds(toolset, name, managed, comparators, today, step, report).1,
        ) < steps_left(step),
        steps_left(step) == 0 ==> proceeds(toolset, name, managed, comparators, today, step, report)
            == (toolset, StepView::Failed(ErrorView::UnexpectedEvent)),
{
}

/// An installation on record that a probe does not confirm, because the binary is gone or
/// is another version, does not fail the resolution: the record of it is removed, which
/// leaves the manifest unsaved, a warning is left, and the resolution goes on with the
/// tool's default context. Nothing else on record changes.
pub proof fn lemma_stale_record_is_healed(
    toolset: ToolsetView,
    name: Seq<char>,
    managed: bool,
    comparators: Seq<ComparatorView>,
    today: Date,
    version: VersionView,
    binctx: BinCtxView,
    found: Option<VersionView>,
)
    requires
        toolset.manifest.contains_key((name, version)),
        !confirms(found, version),
    ensures
        ({
            let (after, next) = proceeds(
                toolset,
                name,
                managed,
                comparators,
                today,
                StepView::ProbeRecorded { version, binctx },
                ReportView::Probed(found),
            );
            &&& next == StepView::DefaultContext
            &&& after.manifest == toolset.manifest.remove((name, version))
            &&& after.unsaved
            &&& after.warnings == toolset.warnings.push(
                WarningView::StaleInstall { tool: name, version, path: binctx.path },
            )
            &&& after.bins == toolset.bins
            &&& after.missing == toolset.missing
        }),
{
}

/// An installation on record that a probe confirms answers the request. The manifest is
/// left unsaved by it exactly if the day on record is earlier than today; and once the day
/// on record is today, confirming again on that day changes nothing.
pub proof fn lemma_use_is_written_once(
    toolset: ToolsetView,
    name: Seq<char>,
    version: VersionView,
    today: Date,
)
    ensures
        toolset.confirmed(name, version, today).unsaved == (toolset.unsaved || needs_mark(
            toolset.manifest,
            name,
            version,
            today,
        )),
        !needs_mark(toolset.manifest, name, version, today) ==> toolset.confirmed(
            name,
            version,
            today,
        ) == toolset,
        toolset.confirmed(name, version, today).confirmed(name, version, today) == (ToolsetView {
            unsaved: toolset.confirmed(name, version, today).unsaved,
            ..toolset.confirmed(name, version, today)
        }),
        !needs_mark(toolset.confirmed(name, version, today).manifest, name, version, today),
{
    crate::date::lemma_before_is_strict_total_order(today, today, today);
    if needs_mark(toolset.manifest, name, version, today) {
        let key = (name, version);
        crate::date::lemma_before_is_strict_total_order(
            toolset.manifest[key].used,
            today,
            today,
        );
        assert(with_use(toolset.manifest, name, version, today)[key].used == today);
        assert(toolset.manifest[key].used != today);
    }
}

/// Only what the toolset installed is put on record: a default installation that
/// satisfies the requirement answers the request and leaves the toolset as it is, and
/// nothing is ever put on record, or taken off it, for a tool that is not managed.
pub proof fn lemma_only_managed_installs_are_recorded(
    toolset: ToolsetView,
    name: Seq<char>,
    managed: bool,
    comparators: Seq<ComparatorView>,
    today: Date,
    step: StepView,
    report: ReportView,
)
    ensures
        step is ProbeDefault || step is DefaultContext ==> proceeds(
            toolset,
            name,
            managed,
            comparators,
            today,
            step,
            report,
        ).0 == toolset,
        !managed && !(step is ProbeRecorded) ==> proceeds(
            toolset,
            name,
            managed,
            comparators,
            today,
            step,
            report,
        ).0 == toolset,
        !managed ==> !(begins(toolset, name, managed, comparators, step) && step
            is ProbeRecorded),
        proceeds(toolset, name, managed, comparators, today, step, report).0.bins == toolset.bins,
        proceeds(toolset, name, managed, comparators, today, step, report).0.missing
            == toolset.missing,
{
}

/// The context that answers a request from what is known is known as the tool, with a
/// version that satisfies the requirement.
pub proof fn lemma_pick_is_verified(
    bins: Seq<KnownBin>,
    name: Seq<char>,
    comparators: Seq<ComparatorView>,
)
    requires
        distinct_contexts(bins),
    ensures
        session_pick(bins, name, comparators) matches Some(picked) ==> verified(
            bins,
            picked,
            name,
            comparators,
        ),
{
    let places = places_of(bins, name, bins.len() as int);
    let candidates = versions_at(bins, places);
    lemma_places_of(bins, name, bins.len() as int);
    lemma_newest_admitted_exists(comparators, candidates, candidates.len() as int);
    if session_pick(bins, name, comparators) is Some {
        let k = newest_admitted(comparators, candidates, candidates.len() as int)->0;
        assert(candidates[k] == bins[places[k]].version);
        lemma_place_of(bins, places[k]);
    }
}

/// A context that is known as a tool with a version that satisfies a requirement answers
/// the next request for that tool and requirement, or a context that is known in the same
/// way does: the request does not go past the binaries probed in this process.
pub proof fn lemma_verified_is_picked(
    bins: Seq<KnownBin>,
    ctx: BinCtxView,
    name: Seq<char>,
    comparators: Seq<ComparatorView>,
)
    requires
        distinct_contexts(bins),
        verified(bins, ctx, name, comparators),
    ensures
        session_pick(bins, name, comparators) matches Some(picked) && verified(
            bins,
            picked,
            name,
            comparators,
        ),
{
    let places = places_of(bins, name, bins.len() as int);
    let candidates = versions_at(bins, places);
    lemma_places_of(bins, name, bins.len() as int);
    lemma_newest_admitted_exists(comparators, candidates, candidates.len() as int);
    let i = place_of(bins, ctx)->0;
    assert(bins[i].name == name);
    let j = choose|j: int| 0 <= j < places.len() && #[trigger] places[j] == i;
    assert(candidates[j] == bins[i].version);
    let k = newest_admitted(comparators, candidates, candidates.len() as int)->0;
    assert(candidates[k] == bins[places[k]].version);
    lemma_place_of(bins, places[k]);
}

/// The only context that is known as a tool with a version that satisfies a requirement is
/// the one that answers the next request for that tool and requirement.
pub proof fn lemma_only_verified_is_picked(
    bins: Seq<KnownBin>,
    ctx: BinCtxView,
    name: Seq<char>,
    comparators: Seq<ComparatorView>,
)
    requires
        distinct_contexts(bins),
        verified(bins, ctx, name, comparators),
        forall|other: BinCtxView| #[trigger]
            verified(bins, other, name, comparators) ==> other == ctx,
    ensures
        session_pick(bins, name, comparators) == Some(ctx),
{
    lemma_verified_is_picked(bins, ctx, name, comparators);
}

} // verus!
