use vstd::prelude::*;

verus! {

/// The mathematical value of a [`Version`]: three numbers, a pre-release tag and a build tag.
/// An empty tag stands for an absent one.
pub struct VersionView {
    pub major: u64,
    pub minor: u64,
    pub patch: u64,
    pub pre: Seq<char>,
    pub build: Seq<char>,
}

/// Whether `semver::Prerelease::new` accepts `tag`.
pub uninterp spec fn is_prerelease(tag: Seq<char>) -> bool;

/// Whether `semver::BuildMetadata::new` accepts `tag`.
pub uninterp spec fn is_build(tag: Seq<char>) -> bool;

/// Whether the pre-release tag `a` orders strictly before `b` under `semver::Prerelease`'s `Ord`.
pub uninterp spec fn prerelease_lt(a: Seq<char>, b: Seq<char>) -> bool;

/// Whether the build tag `a` orders strictly before `b` under `semver::BuildMetadata`'s `Ord`.
pub uninterp spec fn build_lt(a: Seq<char>, b: Seq<char>) -> bool;

/// What `semver::Version::parse` makes of `text`.
pub uninterp spec fn version_parse(text: Seq<char>) -> Option<VersionView>;

/// The text that `semver::Version`'s `Display` writes for a version.
pub uninterp spec fn version_text(version: VersionView) -> Seq<char>;

/// A pre-release tag that a version may carry: none, or one of the accepted syntax.
pub open spec fn valid_prerelease(tag: Seq<char>) -> bool {
    tag.len() == 0 || is_prerelease(tag)
}

/// A build tag that a version may carry: none, or one of the accepted syntax.
pub open spec fn valid_build(tag: Seq<char>) -> bool {
    tag.len() == 0 || is_build(tag)
}

impl VersionView {
    /// Both tags are valid.
    pub open spec fn well_formed(self) -> bool {
        valid_prerelease(self.pre) && valid_build(self.build)
    }

    /// The release `major.minor.patch`, without tags.
    pub open spec fn release(major: u64, minor: u64, patch: u64) -> VersionView {
        VersionView { major, minor, patch, pre: Seq::empty(), build: Seq::empty() }
    }

    /// Equal in everything but the build tag.
    pub open spec fn same_precedence(self, other: VersionView) -> bool {
        &&& self.major == other.major
        &&& self.minor == other.minor
        &&& self.patch == other.patch
        &&& self.pre == other.pre
    }

    /// The order of versions, given how the tags compare: numbers first, from the left; then
    /// the pre-release tags; then the build tags.
    pub open spec fn precedes_by(self, other: VersionView, pre_lt: bool, build_lt: bool) -> bool {
        if self.major != other.major {
            self.major < other.major
        } else if self.minor != other.minor {
            self.minor < other.minor
        } else if self.patch != other.patch {
            self.patch < other.patch
        } else if self.pre != other.pre {
            pre_lt
        } else {
            build_lt
        }
    }

    /// The order of versions: whether `self` comes strictly before `other`.
    pub open spec fn precedes(self, other: VersionView) -> bool {
        self.precedes_by(
            other,
            prerelease_lt(self.pre, other.pre),
            build_lt(self.build, other.build),
        )
    }
}

/// Where two versions differ in their numbers, the numbers decide which one precedes the
/// other, whatever their tags: the major numbers first, then the minor numbers, then the
/// patch numbers.
pub proof fn lemma_numbers_decide_precedence(a: VersionView, b: VersionView)
    requires
        a.major != b.major || a.minor != b.minor || a.patch != b.patch,
    ensures
        a.precedes(b) <==> a.major < b.major || (a.major == b.major && (a.minor < b.minor || (
        a.minor == b.minor && a.patch < b.patch))),
        a.precedes(b) <==> !b.precedes(a),
{
}

/// A semantic version.
#[derive(Debug, PartialEq, Eq, Hash)]
pub struct Version {
    pub(crate) major: u64,
    pub(crate) minor: u64,
    pub(crate) patch: u64,
    pub(crate) pre: String,
    pub(crate) build: String,
}

impl View for Version {
    type V = VersionView;

    closed spec fn view(&self) -> VersionView {
        VersionView {
            major: self.major,
            minor: self.minor,
            patch: self.patch,
            pre: self.pre@,
            build: self.build@,
        }
    }
}

impl Clone for Version {
    fn clone(&self) -> (r: Self)
        ensures
            r@ == self@,
    {
        proof {
            use_type_invariant(self);
        }
        Version {
            major: self.major,
            minor: self.minor,
            patch: self.patch,
            pre: self.pre.clone(),
            build: self.build.clone(),
        }
    }
}

/// Calls `semver::Version::parse` and copies the fields of what it returns: the three numbers
/// and the text of each tag. The contract names the result and says that it comes exactly when
/// the parse succeeds, with tags of valid syntax.
#[verifier::external_body]
fn parse_outside(text: &str) -> (r: Option<Version>)
    ensures
        r is None <==> version_parse(text@) is None,
        r matches Some(v) ==> version_parse(text@) == Some(v@),
        r matches Some(v) ==> v@.pre.len() == 0 || is_prerelease(v@.pre),
        r matches Some(v) ==> v@.build.len() == 0 || is_build(v@.build),
{
    match semver::Version::parse(text) {
        Ok(v) => Some(Version {
            major: v.major,
            minor: v.minor,
            patch: v.patch,
            pre: v.pre.as_str().to_string(),
            build: v.build.as_str().to_string(),
        }),
        Err(_) => None,
    }
}

/// Builds the `semver::Version` of the same fields and compares the two with `<`, which goes
/// by the derived `Ord`: field by field, in the order of declaration, the tags by their own
/// `Ord`. The contract says so, and what a total order gives of one comparison: where `a`
/// precedes `b`, `b` does not precede `a`, and `a` precedes whatever `b` precedes. The tags
/// of every version are of valid syntax, so that they convert.
#[verifier::external_body]
fn precedes_outside(a: &Version, b: &Version) -> (r: bool)
    ensures
        r == a@.precedes_by(b@, prerelease_lt(a@.pre, b@.pre), build_lt(a@.build, b@.build)),
        r ==> !b@.precedes(a@),
        r ==> forall|x: VersionView| x.well_formed() && #[trigger] b@.precedes(x) ==> a@.precedes(x),
{
    let pre = (semver::Prerelease::new(&a.pre).unwrap(), semver::Prerelease::new(&b.pre).unwrap());
    let build = (semver::BuildMetadata::new(&a.build).unwrap(), semver::BuildMetadata::new(&b.build).unwrap());
    let lhs = semver::Version { major: a.major, minor: a.minor, patch: a.patch, pre: pre.0, build: build.0 };
    let rhs = semver::Version { major: b.major, minor: b.minor, patch: b.patch, pre: pre.1, build: build.1 };
    lhs < rhs
}

/// Builds the `semver::Version` of the same fields and formats it with its `Display`. The
/// tags of every version are of valid syntax, so that they convert.
#[verifier::external_body]
fn text_outside(version: &Version) -> (r: String)
    ensures
        r@ == version_text(version@),
{
    let pre = semver::Prerelease::new(&version.pre).unwrap();
    let build = semver::BuildMetadata::new(&version.build).unwrap();
    semver::Version { major: version.major, minor: version.minor, patch: version.patch, pre, build }.to_string()
}

impl Version {
    #[verifier::type_invariant]
    spec fn valid(self) -> bool {
        self@.well_formed()
    }

    /// The release `major.minor.patch`.
    pub fn new(major: u64, minor: u64, patch: u64) -> (r: Version)
        ensures
            r@ == VersionView::release(major, minor, patch),
    {
        Version { major, minor, patch, pre: String::new(), build: String::new() }
    }

    /// Reads a version from its text; `None` where the text is no version.
    pub fn parse(text: &str) -> (r: Option<Version>)
        ensures
            r is None <==> version_parse(text@) is None,
            r matches Some(v) ==> version_parse(text@) == Some(v@),
    {
        parse_outside(text)
    }

    /// The major number.
    pub fn major(&self) -> (r: u64)
        ensures
            r == self@.major,
    {
        self.major
    }

    /// The minor number.
    pub fn minor(&self) -> (r: u64)
        ensures
            r == self@.minor,
    {
        self.minor
    }

    /// The patch number.
    pub fn patch(&self) -> (r: u64)
        ensures
            r == self@.patch,
    {
        self.patch
    }

    /// The pre-release tag; empty where there is none.
    pub fn pre(&self) -> (r: &str)
        ensures
            r@ == self@.pre,
    {
        self.pre.as_str()
    }

    /// The build tag; empty where there is none.
    pub fn build(&self) -> (r: &str)
        ensures
            r@ == self@.build,
    {
        self.build.as_str()
    }

    /// Every version is well formed: calling this brings the fact into a proof.
    pub fn well_formed(&self)
        ensures
            self@.well_formed(),
    {
        proof {
            use_type_invariant(self);
        }
    }

    /// Whether `self` and `other` are the same version, tags included.
    pub fn same(&self, other: &Version) -> (r: bool)
        ensures
            r == (self@ == other@),
    {
        let r = self.major == other.major && self.minor == other.minor && self.patch == other.patch
            && self.pre == other.pre && self.build == other.build;
        proof {
            if r {
                assert(self@.pre =~= other@.pre);
                assert(self@.build =~= other@.build);
            }
        }
        r
    }

    /// Whether `self` comes strictly before `other` in the order of versions.
    pub fn precedes(&self, other: &Version) -> (r: bool)
        ensures
            r == self@.precedes(other@),
            r ==> !other@.precedes(self@),
            r ==> forall|x: VersionView|
                x.well_formed() && #[trigger] other@.precedes(x) ==> self@.precedes(x),
    {
        precedes_outside(self, other)
    }

    /// The version as text, such as `1.2.3-rc.1+build`.
    pub fn to_text(&self) -> (r: String)
        ensures
            r@ == version_text(self@),
    {
        text_outside(self)
    }
}

} // verus!
