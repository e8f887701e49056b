use vstd::prelude::*;
use semver::Op as SemverOp;
use semver::{BuildMetadata, Prerelease};
use crate::version::{is_prerelease, valid_prerelease, Version, VersionView};

verus! {

/// The operator of a comparator: `=`, `>`, `>=`, `<`, `<=`, `~`, `^`, or a wildcard.
#[derive(Clone, Copy, Debug, PartialEq, Eq, Hash, Structural)]
pub enum Op {
    Exact,
    Greater,
    GreaterEq,
    Less,
    LessEq,
    Tilde,
    Caret,
    Wildcard,
}

/// The mathematical value of a [`Comparator`].
pub struct ComparatorView {
    pub op: Op,
    pub major: u64,
    pub minor: Option<u64>,
    pub patch: Option<u64>,
    pub pre: Seq<char>,
}

/// What `semver::VersionReq::matches` decides for the requirement made of `comparators` and a
/// version of the given numbers and pre-release tag. Build tags play no part in it.
pub uninterp spec fn requirement_admits(
    comparators: Seq<ComparatorView>,
    major: u64,
    minor: u64,
    patch: u64,
    pre: Seq<char>,
) -> bool;

/// What `semver::VersionReq::parse` makes of `text`.
pub uninterp spec fn requirement_parse(text: Seq<char>) -> Option<Seq<ComparatorView>>;

impl ComparatorView {
    /// The comparator `=major.minor.patch[-pre]` that only `version`, whatever its build tag,
    /// satisfies.
    pub open spec fn exactly(version: VersionView) -> ComparatorView {
        ComparatorView {
            op: Op::Exact,
            major: version.major,
            minor: Some(version.minor),
            patch: Some(version.patch),
            pre: version.pre,
        }
    }

    /// The numbers that the comparator gives are those of `version`, and so is the tag.
    pub open spec fn agrees_with(self, version: VersionView) -> bool {
        &&& version.major == self.major
        &&& self.minor matches Some(minor) ==> version.minor == minor
        &&& self.patch matches Some(patch) ==> version.patch == patch
        &&& version.pre == self.pre
    }

    /// The comparator names all three numbers of `version` and a pre-release tag: only next
    /// to such a comparator can a pre-release version satisfy a requirement.
    pub open spec fn admits_prerelease_of(self, version: VersionView) -> bool {
        &&& self.major == version.major
        &&& self.minor == Some(version.minor)
        &&& self.patch == Some(version.patch)
        &&& self.pre.len() > 0
    }

    /// What a lone `=` comparator asks of a version.
    pub open spec fn exact_admits(self, version: VersionView) -> bool {
        self.agrees_with(version) && (version.pre.len() == 0 || self.admits_prerelease_of(
            version,
        ))
    }
}

/// A requirement of one comparator, whose operator is `=`.
pub open spec fn is_single_exact(comparators: Seq<ComparatorView>) -> bool {
    comparators.len() == 1 && comparators[0].op == Op::Exact
}

/// Whether `version` satisfies the requirement made of `comparators`.
pub open spec fn admits(comparators: Seq<ComparatorView>, version: VersionView) -> bool {
    if is_single_exact(comparators) {
        comparators[0].exact_admits(version)
    } else {
        requirement_admits(
            comparators,
            version.major,
            version.minor,
            version.patch,
            version.pre,
        )
    }
}

/// Whether the candidate at `k` is the newest of those that satisfy the requirement: it
/// satisfies it, no other version among them is newer, and of several equal ones it is the
/// first.
pub open spec fn is_newest_admitted(
    comparators: Seq<ComparatorView>,
    candidates: Seq<VersionView>,
    k: int,
) -> bool {
    &&& 0 <= k < candidates.len()
    &&& admits(comparators, candidates[k])
    &&& forall|j: int|
        0 <= j < candidates.len() && admits(comparators, #[trigger] candidates[j]) ==> if candidates[j]
            == candidates[k] {
            k <= j
        } else {
            !candidates[k].precedes(candidates[j])
        }
}

/// The newest of the first `n` candidates that satisfy the requirement, found as a reader
/// would: going through them in order and keeping the first one until a newer one comes.
pub open spec fn newest_admitted(
    comparators: Seq<ComparatorView>,
    candidates: Seq<VersionView>,
    n: int,
) -> Option<int>
    decreases n,
{
    if n <= 0 {
        None
    } else {
        let earlier = newest_admitted(comparators, candidates, n - 1);
        if !admits(comparators, candidates[n - 1]) {
            earlier
        } else {
            match earlier {
                None => Some(n - 1),
                Some(k) => if candidates[k].precedes(candidates[n - 1]) {
                    Some(n - 1)
                } else {
                    Some(k)
                },
            }
        }
    }
}

/// The values of a list of versions.
pub open spec fn views(versions: Seq<Version>) -> Seq<VersionView> {
    Seq::new(versions.len(), |i: int| versions[i]@)
}

/// One comparator of a requirement: an operator and a partial version.
#[derive(Debug, PartialEq, Eq, Hash)]
pub struct Comparator {
    op: Op,
    major: u64,
    minor: Option<u64>,
    patch: Option<u64>,
    pre: String,
}

impl View for Comparator {
    type V = ComparatorView;

    closed spec fn view(&self) -> ComparatorView {
        ComparatorView {
            op: self.op,
            major: self.major,
            minor: self.minor,
            patch: self.patch,
            pre: self.pre@,
        }
    }
}

impl Clone for Comparator {
    fn clone(&self) -> (r: Self)
        ensures
            r@ == self@,
    {
        proof {
            use_type_invariant(self);
        }
        Comparator {
            op: self.op,
            major: self.major,
            minor: self.minor,
            patch: self.patch,
            pre: self.pre.clone(),
        }
    }
}

impl Comparator {
    #[verifier::type_invariant]
    spec fn valid(self) -> bool {
        valid_prerelease(self.pre@)
    }

    /// The comparator `=major.minor.patch[-pre]` of `version`.
    pub fn exactly(version: &Version) -> (r: Comparator)
        ensures
            r@ == ComparatorView::exactly(version@),
    {
        version.well_formed();
        Comparator {
            op: Op::Exact,
            major: version.major(),
            minor: Some(version.minor()),
            patch: Some(version.patch()),
            pre: String::from_str(version.pre()),
        }
    }

    /// The comparator `=major[.minor[.patch]]`, without a tag. A patch number without a minor
    /// number is left out.
    pub fn exact_partial(major: u64, minor: Option<u64>, patch: Option<u64>) -> (r: Comparator)
        ensures
            r@ == (ComparatorView {
                op: Op::Exact,
                major,
                minor,
                patch: if minor is Some { patch } else { None },
                pre: Seq::empty(),
            }),
    {
        let patch = if minor.is_some() { patch } else { None };
        Comparator { op: Op::Exact, major, minor, patch, pre: String::new() }
    }

    /// The operator.
    pub fn op(&self) -> (r: Op)
        ensures
            r == self@.op,
    {
        self.op
    }

    /// The major number.
    pub fn major(&self) -> (r: u64)
        ensures
            r == self@.major,
    {
        self.major
    }

    /// The minor number, if the comparator gives one.
    pub fn minor(&self) -> (r: Option<u64>)
        ensures
            r == self@.minor,
    {
        self.minor
    }

    /// The patch number, if the comparator gives one.
    pub fn patch(&self) -> (r: Option<u64>)
        ensures
            r == self@.patch,
    {
        self.patch
    }

    /// The pre-release tag; empty where there is none.
    pub fn pre(&self) -> (r: &str)
        ensures
            r@ == self@.pre,
    {
        self.pre.as_str()
    }
}

/// A version requirement: every one of its comparators has to hold.
#[derive(Debug, PartialEq, Eq, Hash)]
pub struct VersionReq {
    comparators: Vec<Comparator>,
}

impl View for VersionReq {
    type V = Seq<ComparatorView>;

    closed spec fn view(&self) -> Seq<ComparatorView> {
        Seq::new(self.comparators@.len(), |i: int| self.comparators@[i]@)
    }
}

/// Calls `semver::VersionReq::parse` and copies what it returns, comparator by comparator.
/// The contract names the result and says that it comes exactly when the parse succeeds, each
/// tag of valid syntax. An operator that this library does not know makes it `None`.
#[verifier::external_body]
fn parse_outside(text: &str) -> (r: Option<VersionReq>)
    ensures
        r is None <==> requirement_parse(text@) is None,
        r matches Some(req) ==> requirement_parse(text@) == Some(req@),
        r matches Some(req) ==> forall|i: int|
            0 <= i < req@.len() ==> #[trigger] req@[i].pre.len() == 0 || is_prerelease(req@[i].pre),
{
    let mut comparators = Vec::new();
    for c in semver::VersionReq::parse(text).ok()?.comparators {
        let op = match c.op {
            SemverOp::Exact => Op::Exact, SemverOp::Greater => Op::Greater,
            SemverOp::GreaterEq => Op::GreaterEq, SemverOp::Less => Op::Less,
            SemverOp::LessEq => Op::LessEq, SemverOp::Tilde => Op::Tilde,
            SemverOp::Caret => Op::Caret, SemverOp::Wildcard => Op::Wildcard,
            _ => return None,
        };
        comparators.push(Comparator { op, major: c.major, minor: c.minor, patch: c.patch, pre: c.pre.as_str().to_string() });
    }
    Some(VersionReq { comparators })
}

/// Builds the `semver::VersionReq` and the `semver::Version` of the same fields and calls
/// `semver::VersionReq::matches`. The contract names the result, over the version's numbers
/// and pre-release tag alone, since the build tag is never looked at; and for a requirement
/// of one `=` comparator it says what the result is: the numbers that the comparator gives
/// and its tag are the version's, and a pre-release version needs a comparator with all three
/// numbers and a tag. The tags of every comparator and version are of valid syntax, so that
/// they convert; the operators convert by their place in the list of operators.
#[verifier::external_body]
fn matches_outside(req: &VersionReq, version: &Version) -> (r: bool)
    ensures
        !is_single_exact(req@) ==> r == requirement_admits(
            req@,
            version@.major,
            version@.minor,
            version@.patch,
            version@.pre,
        ),
        is_single_exact(req@) ==> r == req@[0].exact_admits(version@),
{
    let ops = [SemverOp::Exact, SemverOp::Greater, SemverOp::GreaterEq, SemverOp::Less,
        SemverOp::LessEq, SemverOp::Tilde, SemverOp::Caret, SemverOp::Wildcard];
    let comparators = req.comparators.iter().map(|c| semver::Comparator {
        op: ops[c.op as usize], major: c.major, minor: c.minor, patch: c.patch,
        pre: Prerelease::new(&c.pre).unwrap()
    }).collect();
    let version = semver::Version {
        major: version.major, minor: version.minor, patch: version.patch,
        pre: Prerelease::new(&version.pre).unwrap(),
        build: BuildMetadata::new(&version.build).unwrap()
    };
    semver::VersionReq { comparators }.matches(&version)
}

impl VersionReq {
    /// Reads a requirement from its text, such as `=1.2.3` or `>=1.0, <2`; `None` where the
    /// text is no requirement.
    pub fn parse(text: &str) -> (r: Option<VersionReq>)
        ensures
            r is None <==> requirement_parse(text@) is None,
            r matches Some(req) ==> requirement_parse(text@) == Some(req@),
    {
        parse_outside(text)
    }

    /// The requirement made of one comparator.
    pub fn single(comparator: Comparator) -> (r: VersionReq)
        ensures
            r@ == seq![comparator@],
    {
        let mut comparators = Vec::new();
        comparators.push(comparator);
        let r = VersionReq { comparators };
        assert(r@ =~= seq![comparator@]);
        r
    }

    /// The requirement `=major.minor.patch[-pre]` that only `version`, whatever its build
    /// tag, satisfies.
    pub fn exact(version: &Version) -> (r: VersionReq)
        ensures
            r@ == seq![ComparatorView::exactly(version@)],
    {
        VersionReq::single(Comparator::exactly(version))
    }

    /// The number of comparators.
    pub fn len(&self) -> (r: usize)
        ensures
            r == self@.len(),
    {
        self.comparators.len()
    }

    /// The comparator at `index`.
    pub fn comparator(&self, index: usize) -> (r: &Comparator)
        requires
            index < self@.len(),
        ensures
            r@ == self@[index as int],
    {
        &self.comparators[index]
    }

    /// Whether `version` satisfies the requirement.
    pub fn matches(&self, version: &Version) -> (r: bool)
        ensures
            r == admits(self@, version@),
    {
        matches_outside(self, version)
    }
}

impl VersionReq {
    /// The place of the newest candidate that satisfies the requirement; `None` where none
    /// does. The candidates may come in any order.
    pub fn newest_match(&self, candidates: &Vec<Version>) -> (r: Option<usize>)
        ensures
            r is None <==> forall|j: int|
                0 <= j < candidates@.len() ==> !admits(self@, #[trigger] views(candidates@)[j]),
            r matches Some(k) ==> is_newest_admitted(self@, views(candidates@), k as int),
            r is None <==> newest_admitted(
                self@,
                views(candidates@),
                candidates@.len() as int,
            ) is None,
            r matches Some(k) ==> newest_admitted(
                self@,
                views(candidates@),
                candidates@.len() as int,
            ) == Some(k as int),
    {
        let ghost all = views(candidates@);
        let mut best: Option<usize> = None;
        let mut i: usize = 0;
        while i < candidates.len()
            invariant
                i <= candidates.len(),
                all == views(candidates@),
                forall|j: int| 0 <= j < i ==> (#[trigger] all[j]).well_formed(),
                best is None <==> newest_admitted(self@, all, i as int) is None,
                best matches Some(k) ==> newest_admitted(self@, all, i as int) == Some(k as int),
                best is None ==> forall|j: int| 0 <= j < i ==> !admits(self@, #[trigger] all[j]),
                best matches Some(k) ==> {
                    &&& k < i
                    &&& admits(self@, all[k as int])
                    &&& forall|j: int|
                        0 <= j < i && admits(self@, #[trigger] all[j]) ==> if all[j] == all[k as int] {
                            k <= j
                        } else {
                            !all[k as int].precedes(all[j])
                        }
                },
            decreases candidates.len() - i,
        {
            let candidate = &candidates[i];
            candidate.well_formed();
            assert(all[i as int] == candidate@);
            if self.matches(candidate) {
                match best {
                    None => {
                        best = Some(i);
                    },
                    Some(k) => {
                        assert(all[k as int] == candidates[k as int]@);
                        if candidates[k].precedes(candidate) {
                            best = Some(i);
                        }
                    },
                }
            }
            i += 1;
        }
        best
    }

    /// The newest of the `candidates` that satisfy the requirement; `None` where none does.
    pub fn highest_match(&self, candidates: &Vec<Version>) -> (r: Option<Version>)
        ensures
            r is None <==> forall|j: int|
                0 <= j < candidates@.len() ==> !admits(self@, #[trigger] views(candidates@)[j]),
            r matches Some(v) ==> exists|k: int|
                is_newest_admitted(self@, views(candidates@), k) && views(candidates@)[k] == v@,
    {
        match self.newest_match(candidates) {
            None => None,
            Some(k) => {
                let v = candidates[k].clone();
                assert(views(candidates@)[k as int] == v@);
                Some(v)
            },
        }
    }
}

impl Clone for VersionReq {
    fn clone(&self) -> (r: Self)
        ensures
            r@ == self@,
    {
        let mut comparators: Vec<Comparator> = Vec::new();
        let mut i: usize = 0;
        while i < self.comparators.len()
            invariant
                i <= self.comparators.len(),
                comparators@.len() == i,
                forall|j: int| 0 <= j < i ==> comparators@[j]@ == self.comparators@[j]@,
            decreases self.comparators.len() - i,
        {
            comparators.push(self.comparators[i].clone());
            i += 1;
        }
        let r = VersionReq { comparators };
        assert(r@ =~= self@);
        r
    }
}

/// Whether a version satisfies a requirement does not depend on its build tag.
pub proof fn lemma_admits_ignores_build(
    comparators: Seq<ComparatorView>,
    a: VersionView,
    b: VersionView,
)
    requires
        a.same_precedence(b),
    ensures
        admits(comparators, a) == admits(comparators, b),
{
}

/// Where one of the first `n` candidates satisfies the requirement, a newest one is found
/// among them, and it satisfies the requirement.
pub proof fn lemma_newest_admitted_exists(
    comparators: Seq<ComparatorView>,
    candidates: Seq<VersionView>,
    n: int,
)
    requires
        0 <= n <= candidates.len(),
    ensures
        newest_admitted(comparators, candidates, n) is None <==> forall|j: int|
            0 <= j < n ==> !admits(comparators, #[trigger] candidates[j]),
        newest_admitted(comparators, candidates, n) matches Some(k) ==> 0 <= k < n && admits(
            comparators,
            candidates[k],
        ),
    decreases n,
{
    if n > 0 {
        lemma_newest_admitted_exists(comparators, candidates, n - 1);
    }
}

/// A version satisfies the exact requirement of `wanted` exactly when it is `wanted`, but for
/// the build tag.
pub proof fn lemma_exact_admits(wanted: VersionView, version: VersionView)
    ensures
        admits(seq![ComparatorView::exactly(wanted)], version) <==> version.same_precedence(
            wanted,
        ),
{
    let c = ComparatorView::exactly(wanted);
    assert(seq![c][0] == c);
    if version.same_precedence(wanted) {
        assert(version.pre =~= wanted.pre);
    }
}

} // verus!
