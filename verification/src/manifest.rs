use vstd::prelude::*;
use crate::date::Date;
use crate::requirement::{admits, views, VersionReq};
use crate::version::{Version, VersionView};

verus! {

/// What identifies an installation: the tool's name and the version.
pub type ManifestKey = (Seq<char>, VersionView);

/// The mathematical value of an [`Installation`].
pub struct InstallationView {
    pub path: Seq<char>,
    pub used: Date,
}

/// The mathematical value of a [`Manifest`]: the installation of each tool and version.
pub type ManifestView = Map<ManifestKey, InstallationView>;

/// No two installations stand at the same path: a path belongs to one tool and version.
pub open spec fn paths_distinct(manifest: ManifestView) -> bool {
    forall|a: ManifestKey, b: ManifestKey|
        #![trigger manifest.contains_key(a), manifest.contains_key(b)]
        manifest.contains_key(a) && manifest.contains_key(b) && a != b ==> manifest[a].path
            != manifest[b].path
}

/// The manifest after `tool`'s `version` was set to `installation`: whatever else stood at
/// the same path, of this tool or of another, is gone, and nothing else has changed.
pub open spec fn with_installation(
    manifest: ManifestView,
    tool: Seq<char>,
    version: VersionView,
    installation: InstallationView,
) -> ManifestView {
    Map::new(
        |k: ManifestKey|
            k == (tool, version) || (manifest.contains_key(k) && manifest[k].path
                != installation.path),
        |k: ManifestKey|
            if k == (tool, version) {
                installation
            } else {
                manifest[k]
            },
    )
}

/// The manifest after `tool`'s `version` was used on `today`: a later date replaces the
/// one on record, and nothing else changes.
pub open spec fn with_use(
    manifest: ManifestView,
    tool: Seq<char>,
    version: VersionView,
    today: Date,
) -> ManifestView {
    if needs_mark(manifest, tool, version, today) {
        manifest.insert(
            (tool, version),
            InstallationView { path: manifest[(tool, version)].path, used: today },
        )
    } else {
        manifest
    }
}

/// Whether the date on record for `tool`'s `version` is earlier than `today`.
pub open spec fn needs_mark(
    manifest: ManifestView,
    tool: Seq<char>,
    version: VersionView,
    today: Date,
) -> bool {
    manifest.contains_key((tool, version)) && manifest[(tool, version)].used.before(today)
}

/// Whether `version` is the newest version of `tool` on record that satisfies the
/// requirement: no other one that satisfies it is newer.
pub open spec fn is_newest_installed(
    manifest: ManifestView,
    tool: Seq<char>,
    comparators: Seq<crate::requirement::ComparatorView>,
    version: VersionView,
) -> bool {
    &&& manifest.contains_key((tool, version))
    &&& admits(comparators, version)
    &&& forall|other: VersionView|
        #![trigger manifest.contains_key((tool, other))]
        manifest.contains_key((tool, other)) && admits(comparators, other) && other != version
            ==> !version.precedes(other)
}

/// The mathematical value of a [`Record`].
pub struct RecordView {
    pub tool: Seq<char>,
    pub version: VersionView,
    pub path: Seq<char>,
    pub used: Date,
}

/// The manifest that comes of setting the first `n` of the records, in their order, on an
/// empty manifest.
pub open spec fn replay(records: Seq<RecordView>, n: int) -> ManifestView
    decreases n,
{
    if n <= 0 {
        Map::empty()
    } else {
        with_installation(
            replay(records, n - 1),
            records[n - 1].tool,
            records[n - 1].version,
            InstallationView { path: records[n - 1].path, used: records[n - 1].used },
        )
    }
}

/// One installation as a manifest file holds it.
#[derive(Debug, PartialEq, Eq)]
pub struct Record {
    /// The name of the tool.
    pub tool: String,
    /// The version that is installed.
    pub version: Version,
    /// The path of the binary: relative to the tools directory, or absolute.
    pub path: String,
    /// The day on which the installation was last used.
    pub used: Date,
}

impl View for Record {
    type V = RecordView;

    open spec fn view(&self) -> RecordView {
        RecordView { tool: self.tool@, version: self.version@, path: self.path@, used: self.used }
    }
}

/// The values of a list of records, in its order.
pub open spec fn record_views(records: Seq<Record>) -> Seq<RecordView> {
    Seq::new(records.len(), |i: int| records[i]@)
}

/// Information about a tool installation.
#[derive(Debug, PartialEq, Eq)]
pub struct Installation {
    path: String,
    used: Date,
}

impl View for Installation {
    type V = InstallationView;

    closed spec fn view(&self) -> InstallationView {
        InstallationView { path: self.path@, used: self.used }
    }
}

impl Installation {
    /// The path of the binary: relative to the tools directory, or absolute.
    pub fn path(&self) -> (r: &str)
        ensures
            r@ == self@.path,
    {
        self.path.as_str()
    }

    /// The day on which the installation was last used.
    pub fn used(&self) -> (r: Date)
        ensures
            r == self@.used,
    {
        self.used
    }
}

#[derive(Debug, PartialEq, Eq)]
struct Entry {
    tool: String,
    version: Version,
    installation: Installation,
}

struct EntryView {
    tool: Seq<char>,
    version: VersionView,
    installation: InstallationView,
}

impl EntryView {
    spec fn key(self) -> ManifestKey {
        (self.tool, self.version)
    }
}

impl View for Entry {
    type V = EntryView;

    closed spec fn view(&self) -> EntryView {
        EntryView { tool: self.tool@, version: self.version@, installation: self.installation@ }
    }
}

spec fn entry_views(entries: Seq<Entry>) -> Seq<EntryView> {
    Seq::new(entries.len(), |i: int| entries[i]@)
}

spec fn distinct_keys(es: Seq<EntryView>) -> bool {
    forall|i: int, j: int|
        #![trigger es[i], es[j]]
        0 <= i < j < es.len() ==> es[i].key() != es[j].key()
}

spec fn distinct_paths(es: Seq<EntryView>) -> bool {
    forall|i: int, j: int|
        #![trigger es[i], es[j]]
        0 <= i < j < es.len() ==> es[i].installation.path != es[j].installation.path
}

spec fn consistent(es: Seq<EntryView>) -> bool {
    distinct_keys(es) && distinct_paths(es)
}

spec fn to_map(es: Seq<EntryView>) -> ManifestView {
    Map::new(
        |k: ManifestKey| exists|i: int| 0 <= i < es.len() && (#[trigger] es[i]).key() == k,
        |k: ManifestKey|
            es[choose|i: int| 0 <= i < es.len() && (#[trigger] es[i]).key() == k].installation,
    )
}

proof fn lemma_to_map(es: Seq<EntryView>)
    requires
        distinct_keys(es),
    ensures
        forall|i: int|
            0 <= i < es.len() ==> to_map(es).contains_key((#[trigger] es[i]).key()) && to_map(
                es,
            )[es[i].key()] == es[i].installation,
        forall|k: ManifestKey| #[trigger]
            to_map(es).contains_key(k) ==> exists|i: int|
                0 <= i < es.len() && (#[trigger] es[i]).key() == k,
{
    assert forall|i: int| 0 <= i < es.len() implies to_map(es).contains_key(
        (#[trigger] es[i]).key(),
    ) && to_map(es)[es[i].key()] == es[i].installation by {
        let k = es[i].key();
        let j = choose|j: int| 0 <= j < es.len() && (#[trigger] es[j]).key() == k;
        assert(es[j].key() == es[i].key());
        assert(j == i);
    }
}

proof fn lemma_paths(es: Seq<EntryView>)
    requires
        consistent(es),
    ensures
        paths_distinct(to_map(es)),
{
    lemma_to_map(es);
    let m = to_map(es);
    assert forall|a: ManifestKey, b: ManifestKey|
        #![trigger m.contains_key(a), m.contains_key(b)]
        m.contains_key(a) && m.contains_key(b) && a != b implies m[a].path != m[b].path by {
        let i = choose|i: int| 0 <= i < es.len() && (#[trigger] es[i]).key() == a;
        let j = choose|j: int| 0 <= j < es.len() && (#[trigger] es[j]).key() == b;
        assert(i != j);
        if i < j {
            assert(es[i].installation.path != es[j].installation.path);
        } else {
            assert(es[j].installation.path != es[i].installation.path);
        }
    }
}

proof fn lemma_remove(es: Seq<EntryView>, i: int)
    requires
        consistent(es),
        0 <= i < es.len(),
    ensures
        consistent(es.remove(i)),
        to_map(es.remove(i)) == to_map(es).remove(es[i].key()),
{
    let rest = es.remove(i);
    assert forall|a: int, b: int|
        #![trigger rest[a], rest[b]]
        0 <= a < b < rest.len() implies rest[a].key() != rest[b].key() && rest[a].installation.path
        != rest[b].installation.path by {
        let a0 = if a < i { a } else { a + 1 };
        let b0 = if b < i { b } else { b + 1 };
        assert(rest[a] == es[a0] && rest[b] == es[b0]);
    }
    lemma_to_map(es);
    lemma_to_map(rest);
    let left = to_map(rest);
    let right = to_map(es).remove(es[i].key());
    assert forall|k: ManifestKey| left.contains_key(k) implies right.contains_key(k) && left[k]
        == right[k] by {
        let a = choose|a: int| 0 <= a < rest.len() && (#[trigger] rest[a]).key() == k;
        let a0 = if a < i { a } else { a + 1 };
        assert(rest[a] == es[a0]);
        if a0 < i {
            assert(es[a0].key() != es[i].key());
        } else {
            assert(es[i].key() != es[a0].key());
        }
    }
    assert forall|k: ManifestKey| right.contains_key(k) implies left.contains_key(k) by {
        let a0 = choose|a0: int| 0 <= a0 < es.len() && (#[trigger] es[a0]).key() == k;
        assert(a0 != i);
        let a = if a0 < i { a0 } else { a0 - 1 };
        assert(rest[a] == es[a0]);
    }
    assert(left =~= right);
}

proof fn lemma_push(es: Seq<EntryView>, e: EntryView)
    requires
        consistent(es),
        !to_map(es).contains_key(e.key()),
        forall|i: int|
            0 <= i < es.len() ==> (#[trigger] es[i]).installation.path != e.installation.path,
    ensures
        consistent(es.push(e)),
        to_map(es.push(e)) == to_map(es).insert(e.key(), e.installation),
{
    let more = es.push(e);
    lemma_to_map(es);
    assert forall|a: int, b: int|
        #![trigger more[a], more[b]]
        0 <= a < b < more.len() implies more[a].key() != more[b].key() && more[a].installation.path
        != more[b].installation.path by {
        assert(more[a] == es[a]);
        if b < es.len() {
            assert(more[b] == es[b]);
        } else {
            assert(more[b] == e);
            assert(to_map(es).contains_key(es[a].key()));
        }
    }
    lemma_to_map(more);
    let left = to_map(more);
    let right = to_map(es).insert(e.key(), e.installation);
    assert forall|k: ManifestKey| left.contains_key(k) implies right.contains_key(k) && left[k]
        == right[k] by {
        let a = choose|a: int| 0 <= a < more.len() && (#[trigger] more[a]).key() == k;
        if a < es.len() {
            assert(more[a] == es[a]);
        }
    }
    assert forall|k: ManifestKey| right.contains_key(k) implies left.contains_key(k) by {
        if k == e.key() {
            assert(more[es.len() as int] == e);
        } else {
            let a = choose|a: int| 0 <= a < es.len() && (#[trigger] es[a]).key() == k;
            assert(more[a] == es[a]);
        }
    }
    assert(left =~= right);
}

proof fn lemma_update(es: Seq<EntryView>, i: int, e: EntryView)
    requires
        consistent(es),
        0 <= i < es.len(),
        e.key() == es[i].key(),
        e.installation.path == es[i].installation.path,
    ensures
        consistent(es.update(i, e)),
        to_map(es.update(i, e)) == to_map(es).insert(e.key(), e.installation),
{
    let next = es.update(i, e);
    lemma_to_map(es);
    assert forall|a: int, b: int|
        #![trigger next[a], next[b]]
        0 <= a < b < next.len() implies next[a].key() != next[b].key() && next[a].installation.path
        != next[b].installation.path by {
        assert(next[a].key() == es[a].key() && next[b].key() == es[b].key());
        assert(next[a].installation.path == es[a].installation.path);
        assert(next[b].installation.path == es[b].installation.path);
    }
    lemma_to_map(next);
    let left = to_map(next);
    let right = to_map(es).insert(e.key(), e.installation);
    assert forall|k: ManifestKey| left.contains_key(k) implies right.contains_key(k) && left[k]
        == right[k] by {
        let a = choose|a: int| 0 <= a < next.len() && (#[trigger] next[a]).key() == k;
        assert(next[a].key() == es[a].key());
        if a != i {
            assert(next[a] == es[a]);
        }
    }
    assert forall|k: ManifestKey| right.contains_key(k) implies left.contains_key(k) by {
        if k == e.key() {
            assert(next[i] == e);
        } else {
            let a = choose|a: int| 0 <= a < es.len() && (#[trigger] es[a]).key() == k;
            assert(next[a] == es[a]);
        }
    }
    assert(left =~= right);
}

spec fn as_record(e: EntryView) -> RecordView {
    RecordView {
        tool: e.tool,
        version: e.version,
        path: e.installation.path,
        used: e.installation.used,
    }
}

spec fn as_records(es: Seq<EntryView>) -> Seq<RecordView> {
    Seq::new(es.len(), |i: int| as_record(es[i]))
}

proof fn lemma_prefix(es: Seq<EntryView>, n: int)
    requires
        consistent(es),
        0 <= n <= es.len(),
    ensures
        consistent(es.take(n)),
        n > 0 ==> !to_map(es.take(n - 1)).contains_key(es[n - 1].key()),
        n > 0 ==> forall|k: ManifestKey| #[trigger]
            to_map(es.take(n - 1)).contains_key(k) ==> to_map(es.take(n - 1))[k].path
                != es[n - 1].installation.path,
        n > 0 ==> to_map(es.take(n)) == to_map(es.take(n - 1)).insert(
            es[n - 1].key(),
            es[n - 1].installation,
        ),
    decreases n,
{
    let part = es.take(n);
    assert forall|a: int, b: int|
        #![trigger part[a], part[b]]
        0 <= a < b < part.len() implies part[a].key() != part[b].key() && part[a].installation.path
        != part[b].installation.path by {
        assert(part[a] == es[a] && part[b] == es[b]);
    }
    if n > 0 {
        lemma_prefix(es, n - 1);
        let earlier = es.take(n - 1);
        let e = es[n - 1];
        assert(part =~= earlier.push(e));
        lemma_to_map(earlier);
        assert forall|k: ManifestKey| #[trigger] to_map(earlier).contains_key(k) implies k
            != e.key() && to_map(earlier)[k].path != e.installation.path by {
            let j = choose|j: int| 0 <= j < earlier.len() && (#[trigger] earlier[j]).key() == k;
            assert(earlier[j] == es[j]);
            assert(es[j].key() != es[n - 1].key());
            assert(es[j].installation.path != es[n - 1].installation.path);
        }
        assert forall|i: int| 0 <= i < earlier.len() implies (
        #[trigger] earlier[i]).installation.path != e.installation.path by {
            assert(earlier[i] == es[i]);
            assert(es[i].installation.path != es[n - 1].installation.path);
        }
        lemma_push(earlier, e);
    }
}

proof fn lemma_replay(es: Seq<EntryView>, n: int)
    requires
        consistent(es),
        0 <= n <= es.len(),
    ensures
        replay(as_records(es), n) == to_map(es.take(n)),
    decreases n,
{
    lemma_prefix(es, n);
    if n <= 0 {
        assert(to_map(es.take(n)) =~= Map::<ManifestKey, InstallationView>::empty());
    } else {
        lemma_replay(es, n - 1);
        let e = es[n - 1];
        let before = to_map(es.take(n - 1));
        assert(as_records(es)[n - 1] == as_record(e));
        assert(with_installation(before, e.tool, e.version, e.installation) =~= before.insert(
            e.key(),
            e.installation,
        ));
    }
}

proof fn lemma_len(es: Seq<EntryView>, n: int)
    requires
        consistent(es),
        0 <= n <= es.len(),
    ensures
        to_map(es.take(n)).dom().finite(),
        to_map(es.take(n)).len() == n,
    decreases n,
{
    lemma_prefix(es, n);
    if n <= 0 {
        assert(to_map(es.take(n)) =~= Map::<ManifestKey, InstallationView>::empty());
    } else {
        lemma_len(es, n - 1);
        assert(to_map(es.take(n)).dom() =~= to_map(es.take(n - 1)).dom().insert(es[n - 1].key()));
    }
}

/// The installed tools manifest: for each tool and version, where it is installed and when
/// it was last used.
#[derive(Debug, PartialEq, Eq)]
pub struct Manifest {
    entries: Vec<Entry>,
}

impl View for Manifest {
    type V = ManifestView;

    closed spec fn view(&self) -> ManifestView {
        to_map(entry_views(self.entries@))
    }
}

impl Manifest {
    #[verifier::type_invariant]
    closed spec fn valid(self) -> bool {
        consistent(entry_views(self.entries@))
    }

    /// Creates a new tool manifest, with nothing on record.
    pub fn new() -> (r: Manifest)
        ensures
            r@ == Map::<ManifestKey, InstallationView>::empty(),
    {
        let r = Manifest { entries: Vec::new() };
        assert(r@ =~= Map::<ManifestKey, InstallationView>::empty());
        r
    }

    /// In every manifest the installations stand at different paths. Calling this brings
    /// the fact into a proof.
    pub fn paths_are_distinct(&self)
        ensures
            paths_distinct(self@),
    {
        proof {
            use_type_invariant(self);
            lemma_paths(entry_views(self.entries@));
        }
    }

    fn find(&self, name: &String, version: &Version) -> (r: Option<usize>)
        ensures
            r matches Some(i) ==> i < self.entries@.len() && self.entries@[i as int]@.key() == (
                name@,
                version@,
            ),
            r is None ==> !self@.contains_key((name@, version@)),
            r is Some ==> self@.contains_key((name@, version@)),
    {
        proof {
            use_type_invariant(self);
            lemma_to_map(entry_views(self.entries@));
        }
        let ghost es = entry_views(self.entries@);
        let mut i: usize = 0;
        while i < self.entries.len()
            invariant
                i <= self.entries.len(),
                es == entry_views(self.entries@),
                forall|j: int| 0 <= j < i ==> (#[trigger] es[j]).key() != (name@, version@),
            decreases self.entries.len() - i,
        {
            let entry = &self.entries[i];
            assert(es[i as int] == entry@);
            if entry.tool == *name && entry.version.same(version) {
                return Some(i);
            }
            i += 1;
        }
        None
    }

    /// Returns the version and the installation path of the newest version of the tool on
    /// record that satisfies the requirement; `None` where no version on record does.
    pub fn get(&self, name: &str, ver_req: &VersionReq) -> (r: Option<(Version, String)>)
        ensures
            r is None <==> forall|version: VersionView|
                #![trigger self@.contains_key((name@, version))]
                self@.contains_key((name@, version)) ==> !admits(ver_req@, version),
            r matches Some((version, path)) ==> is_newest_installed(
                self@,
                name@,
                ver_req@,
                version@,
            ) && path@ == self@[(name@, version@)].path,
    {
        proof {
            use_type_invariant(self);
            lemma_to_map(entry_views(self.entries@));
        }
        let ghost es = entry_views(self.entries@);
        let name = String::from_str(name);
        let mut versions: Vec<Version> = Vec::new();
        let mut places: Vec<usize> = Vec::new();
        let mut i: usize = 0;
        while i < self.entries.len()
            invariant
                i <= self.entries.len(),
                es == entry_views(self.entries@),
                versions@.len() == places@.len(),
                forall|j: int|
                    0 <= j < places@.len() ==> (#[trigger] places@[j]) < i && es[places@[j] as int].tool
                        == name@ && versions@[j]@ == es[places@[j] as int].version,
                forall|e: int|
                    0 <= e < i && (#[trigger] es[e]).tool == name@ ==> exists|j: int|
                        0 <= j < places@.len() && (#[trigger] places@[j]) == e,
            decreases self.entries.len() - i,
        {
            let entry = &self.entries[i];
            assert(es[i as int] == entry@);
            if entry.tool == name {
                let ghost before = places@;
                versions.push(entry.version.clone());
                places.push(i);
                assert forall|e: int| 0 <= e < i + 1 && (#[trigger] es[e]).tool
                    == name@ implies exists|j: int|
                    0 <= j < places@.len() && (#[trigger] places@[j]) == e by {
                    if e < i {
                        let j = choose|j: int| 0 <= j < before.len() && (#[trigger] before[j]) == e;
                        assert(places@[j] == e);
                    } else {
                        assert(places@[places@.len() - 1] == e);
                    }
                }
            }
            i += 1;
        }
        let ghost candidates = views(versions@);
        assert forall|j: int| 0 <= j < candidates.len() implies #[trigger] candidates[j]
            == es[places@[j] as int].version by {}
        match ver_req.newest_match(&versions) {
            None => {
                assert forall|version: VersionView|
                    #![trigger self@.contains_key((name@, version))]
                    self@.contains_key((name@, version)) implies !admits(ver_req@, version) by {
                    let e = choose|e: int|
                        0 <= e < es.len() && (#[trigger] es[e]).key() == (name@, version);
                    let j = choose|j: int| 0 <= j < places@.len() && (#[trigger] places@[j]) == e;
                    assert(candidates[j] == version);
                }
                None
            },
            Some(k) => {
                let place = places[k];
                let entry = &self.entries[place];
                assert(es[place as int] == entry@);
                assert(candidates[k as int] == entry@.version);
                let version = entry.version.clone();
                let path = entry.installation.path.clone();
                assert(self@.contains_key(es[place as int].key()));
                assert forall|other: VersionView|
                    #![trigger self@.contains_key((name@, other))]
                    self@.contains_key((name@, other)) && admits(ver_req@, other) && other
                        != version@ implies !version@.precedes(other) by {
                    let e = choose|e: int|
                        0 <= e < es.len() && (#[trigger] es[e]).key() == (name@, other);
                    let j = choose|j: int| 0 <= j < places@.len() && (#[trigger] places@[j]) == e;
                    assert(candidates[j] == other);
                }
                Some((version, path))
            },
        }
    }

    /// Sets the given tool's `version` to `path`, used on `today`. Whatever else is on record
    /// at that path, of this tool or of another, is taken off it: a path belongs to one tool
    /// and version.
    pub fn set(&mut self, name: String, version: Version, path: String, today: Date)
        ensures
            final(self)@ == with_installation(
                old(self)@,
                name@,
                version@,
                InstallationView { path: path@, used: today },
            ),
    {
        proof {
            use_type_invariant(&*self);
        }
        let ghost origin = self@;
        let mut entries: Vec<Entry> = Vec::new();
        std::mem::swap(&mut entries, &mut self.entries);
        proof {
            lemma_to_map(entry_views(entries@));
        }
        let mut i: usize = 0;
        while i < entries.len()
            invariant
                i <= entries.len(),
                consistent(entry_views(entries@)),
                forall|k: ManifestKey| #[trigger]
                    to_map(entry_views(entries@)).contains_key(k) ==> origin.contains_key(k)
                        && origin[k] == to_map(entry_views(entries@))[k],
                forall|k: ManifestKey|
                    #![trigger origin.contains_key(k)]
                    origin.contains_key(k) && origin[k].path != path@ && k != (name@, version@)
                        ==> to_map(entry_views(entries@)).contains_key(k),
                forall|j: int|
                    0 <= j < i ==> (#[trigger] entry_views(entries@)[j]).installation.path
                        != path@ && entry_views(entries@)[j].key() != (name@, version@),
            decreases entries.len() - i,
        {
            let ghost es = entry_views(entries@);
            let entry = &entries[i];
            assert(es[i as int] == entry@);
            let evict = entry.installation.path == path || (entry.tool == name
                && entry.version.same(&version));
            if evict {
                proof {
                    lemma_to_map(es);
                    lemma_remove(es, i as int);
                    let gone = es[i as int].key();
                    assert(to_map(es).contains_key(gone));
                    assert(origin[gone] == es[i as int].installation);
                    assert(origin[gone].path == path@ || gone == (name@, version@));
                }
                entries.remove(i);
                assert(entry_views(entries@) =~= es.remove(i as int));
                assert forall|j: int| 0 <= j < i implies #[trigger] entry_views(entries@)[j]
                    == es[j] by {}
                assert forall|k: ManifestKey|
                    #![trigger origin.contains_key(k)]
                    origin.contains_key(k) && origin[k].path != path@ && k != (
                        name@,
                        version@,
                    ) implies to_map(entry_views(entries@)).contains_key(k) by {
                    assert(to_map(es).contains_key(k));
                    assert(k != es[i as int].key());
                }
            } else {
                i += 1;
            }
        }
        let ghost es = entry_views(entries@);
        let ghost installation = InstallationView { path: path@, used: today };
        let ghost added = EntryView { tool: name@, version: version@, installation };
        proof {
            lemma_to_map(es);
            assert(!to_map(es).contains_key(added.key())) by {
                if to_map(es).contains_key(added.key()) {
                    let j = choose|j: int| 0 <= j < es.len() && (#[trigger] es[j]).key() == added.key();
                    assert(es[j].key() == (name@, version@));
                }
            }
            lemma_push(es, added);
        }
        entries.push(Entry { tool: name, version, installation: Installation { path, used: today } });
        proof {
            assert(entry_views(entries@) =~= es.push(added));
            let result = to_map(entry_views(entries@));
            let wanted = with_installation(origin, name@, version@, installation);
            assert forall|k: ManifestKey| result.contains_key(k) implies wanted.contains_key(k)
                && result[k] == wanted[k] by {
                if k != added.key() {
                    assert(to_map(es).contains_key(k));
                    let j = choose|j: int| 0 <= j < es.len() && (#[trigger] es[j]).key() == k;
                    assert(es[j].installation == to_map(es)[k]);
                }
            }
            assert forall|k: ManifestKey| wanted.contains_key(k) implies result.contains_key(k) by {
                if k != added.key() {
                    assert(origin.contains_key(k));
                    assert(origin[k].path != path@);
                }
            }
            assert(result =~= wanted);
        }
        self.entries = entries;
    }

    /// Removes the given tool's `version` from the manifest.
    ///
    /// Returns `true` if anything was changed.
    pub fn remove(&mut self, name: &str, version: &Version) -> (r: bool)
        ensures
            r == old(self)@.contains_key((name@, version@)),
            final(self)@ == old(self)@.remove((name@, version@)),
    {
        proof {
            use_type_invariant(&*self);
        }
        let key = String::from_str(name);
        match self.find(&key, version) {
            Some(i) => {
                let mut entries: Vec<Entry> = Vec::new();
                std::mem::swap(&mut entries, &mut self.entries);
                let ghost es = entry_views(entries@);
                proof {
                    lemma_remove(es, i as int);
                }
                entries.remove(i);
                assert(entry_views(entries@) =~= es.remove(i as int));
                self.entries = entries;
                true
            },
            None => {
                assert(self@ =~= self@.remove((name@, version@)));
                false
            },
        }
    }

    /// Sets the last used date of the specified tool version, where `today` is later than
    /// the date on record.
    ///
    /// Returns `true` if anything was changed.
    pub fn mark_used(&mut self, name: &str, version: &Version, today: Date) -> (r: bool)
        ensures
            r == needs_mark(old(self)@, name@, version@, today),
            final(self)@ == with_use(old(self)@, name@, version@, today),
    {
        proof {
            use_type_invariant(&*self);
            lemma_to_map(entry_views(self.entries@));
        }
        let key = String::from_str(name);
        match self.find(&key, version) {
            Some(i) => {
                if self.entries[i].installation.used.is_before(&today) {
                    let mut entries: Vec<Entry> = Vec::new();
                    std::mem::swap(&mut entries, &mut self.entries);
                    let ghost es = entry_views(entries@);
                    let entry = &entries[i];
                    assert(es[i as int] == entry@);
                    let marked = Entry {
                        tool: entry.tool.clone(),
                        version: entry.version.clone(),
                        installation: Installation {
                            path: entry.installation.path.clone(),
                            used: today,
                        },
                    };
                    proof {
                        lemma_update(es, i as int, marked@);
                    }
                    entries.set(i, marked);
                    assert(entry_views(entries@) =~= es.update(i as int, marked@));
                    self.entries = entries;
                    true
                } else {
                    assert(entry_views(self.entries@)[i as int] == self.entries@[i as int]@);
                    false
                }
            },
            None => false,
        }
    }

    /// Returns the installations on record, in the order in which they were recorded.
    /// Setting them on an empty manifest, in this order, gives this manifest again.
    pub fn records(&self) -> (r: Vec<Record>)
        ensures
            r@.len() == self@.len(),
            replay(record_views(r@), r@.len() as int) == self@,
    {
        proof {
            use_type_invariant(self);
        }
        let ghost es = entry_views(self.entries@);
        let mut records: Vec<Record> = Vec::new();
        let mut i: usize = 0;
        while i < self.entries.len()
            invariant
                i <= self.entries.len(),
                es == entry_views(self.entries@),
                records@.len() == i,
                forall|j: int| 0 <= j < i ==> (#[trigger] records@[j])@ == as_record(es[j]),
            decreases self.entries.len() - i,
        {
            let entry = &self.entries[i];
            assert(es[i as int] == entry@);
            records.push(
                Record {
                    tool: entry.tool.clone(),
                    version: entry.version.clone(),
                    path: entry.installation.path.clone(),
                    used: entry.installation.used,
                },
            );
            i += 1;
        }
        proof {
            assert(record_views(records@) =~= as_records(es));
            lemma_replay(es, es.len() as int);
            lemma_len(es, es.len() as int);
            assert(es.take(es.len() as int) =~= es);
        }
        records
    }

    /// Returns the manifest that a manifest file of these records stands for: the records
    /// are set in their order, so that of two records at one path the later one stays.
    pub fn from_records(records: Vec<Record>) -> (r: Manifest)
        ensures
            r@ == replay(record_views(records@), records@.len() as int),
    {
        let mut manifest = Manifest::new();
        let mut i: usize = 0;
        while i < records.len()
            invariant
                i <= records.len(),
                manifest@ == replay(record_views(records@), i as int),
            decreases records.len() - i,
        {
            let record = &records[i];
            assert(record_views(records@)[i as int] == record@);
            manifest.set(
                record.tool.clone(),
                record.version.clone(),
                record.path.clone(),
                record.used,
            );
            i += 1;
        }
        manifest
    }

    /// Returns the installation on record of the tool's `version`, if there is one.
    pub fn installation(&self, name: &str, version: &Version) -> (r: Option<&Installation>)
        ensures
            r is Some <==> self@.contains_key((name@, version@)),
            r matches Some(installation) ==> installation@ == self@[(name@, version@)],
    {
        proof {
            use_type_invariant(self);
            lemma_to_map(entry_views(self.entries@));
        }
        let key = String::from_str(name);
        match self.find(&key, version) {
            Some(i) => {
                assert(entry_views(self.entries@)[i as int] == self.entries@[i as int]@);
                Some(&self.entries[i].installation)
            },
            None => None,
        }
    }

    /// The number of installations on record.
    pub fn len(&self) -> (r: usize)
        ensures
            self@.dom().finite(),
            r == self@.len(),
    {
        proof {
            use_type_invariant(self);
            let es = entry_views(self.entries@);
            lemma_len(es, es.len() as int);
            assert(es.take(es.len() as int) =~= es);
        }
        self.entries.len()
    }
}

/// Setting a version of a tool to a path takes whatever else stood at that path off the
/// record, of this tool or of another, puts the new installation on it, and leaves every
/// other entry as it was. A manifest in which no two installations stand at the same path
/// stays so.
pub proof fn lemma_set_evicts_path(
    manifest: ManifestView,
    tool: Seq<char>,
    version: VersionView,
    installation: InstallationView,
    other: ManifestKey,
)
    requires
        other != (tool, version),
    ensures
        with_installation(manifest, tool, version, installation)[(tool, version)] == installation,
        with_installation(manifest, tool, version, installation).contains_key((tool, version)),
        manifest.contains_key(other) && manifest[other].path == installation.path
            ==> !with_installation(manifest, tool, version, installation).contains_key(other),
        manifest.contains_key(other) && manifest[other].path != installation.path
            ==> with_installation(manifest, tool, version, installation).contains_key(other)
            && with_installation(manifest, tool, version, installation)[other] == manifest[other],
        !manifest.contains_key(other) ==> !with_installation(
            manifest,
            tool,
            version,
            installation,
        ).contains_key(other),
        paths_distinct(manifest) ==> paths_distinct(
            with_installation(manifest, tool, version, installation),
        ),
{
}

/// Marking a version as used on a day that is not later than the day on record changes
/// nothing; on a later day it changes the day on record and nothing else.
pub proof fn lemma_mark_used_changes_only_the_day(
    manifest: ManifestView,
    tool: Seq<char>,
    version: VersionView,
    today: Date,
)
    requires
        manifest.contains_key((tool, version)),
    ensures
        !manifest[(tool, version)].used.before(today) ==> with_use(manifest, tool, version, today)
            == manifest,
        manifest[(tool, version)].used.before(today) ==> with_use(manifest, tool, version, today)
            == manifest.insert(
            (tool, version),
            InstallationView { path: manifest[(tool, version)].path, used: today },
        ),
        with_use(with_use(manifest, tool, version, today), tool, version, today) == with_use(
            manifest,
            tool,
            version,
            today,
        ),
{
    crate::date::lemma_before_is_strict_total_order(today, today, today);
}

} // verus!
