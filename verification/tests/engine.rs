use prep::date::Date;
use prep::environment::Environment;
use prep::error::Error;
use prep::manifest::{Manifest, Record};
use prep::requirement::VersionReq;
use prep::tools::{BinCtx, Tool};
use prep::toolset::{Report, Step, Toolset, Warning};
use prep::version::Version;

/// A tool whose binaries live in a simulated file system.
struct Sim {
    /// The binaries that exist: path and version text.
    on_disk: Vec<(String, String)>,
    /// The version that a set-up installs, and where; `None` for a set-up that fails.
    installs: Option<(String, String)>,
    extract_calls: usize,
    set_up_calls: usize,
}

impl Sim {
    fn new() -> Self {
        Sim {
            on_disk: Vec::new(),
            installs: Some(("tools/mytool/1.2.3/bin".to_string(), "1.2.3".to_string())),
            extract_calls: 0,
            set_up_calls: 0,
        }
    }

    fn with(mut self, path: &str, version: &str) -> Self {
        self.on_disk.push((path.to_string(), version.to_string()));
        self
    }

    fn installing(mut self, path: &str, version: &str) -> Self {
        self.installs = Some((path.to_string(), version.to_string()));
        self
    }

    fn probe(&mut self, binctx: &BinCtx) -> Result<Option<Version>, Error> {
        self.extract_calls += 1;
        if binctx.path() == "broken" {
            return Err(Error::RunFailed { program: "broken".to_string() });
        }
        let found = self.on_disk.iter().find(|(path, _)| path == binctx.path());
        Ok(found.map(|(_, version)| Version::parse(version).unwrap()))
    }

    fn install(&mut self) -> Result<String, Error> {
        self.set_up_calls += 1;
        match self.installs.clone() {
            Some((path, version)) => {
                self.on_disk.retain(|(p, _)| *p != path);
                self.on_disk.push((path.clone(), version));
                Ok(path)
            }
            None => Err(Error::Other { message: "cannot install".to_string() }),
        }
    }
}

/// A managed tool.
struct MyTool(Sim);

impl Tool for MyTool {
    type Deps = ();

    const NAME: &'static str = "mytool";
    const BIN: &'static str = "mytool";
    const MANAGED: bool = true;

    fn set_up(
        &mut self,
        toolset: &mut Toolset,
        _deps: &(),
        ver_req: &VersionReq,
    ) -> Result<(BinCtx, Version), Error> {
        let path = self.0.install()?;
        let binctx = toolset.binctx(path);
        let found = toolset.verify(self, &binctx, ver_req)?;
        prep::tools::installed(binctx, found)
    }

    fn extract_version(&mut self, binctx: &BinCtx) -> Result<Option<Version>, Error> {
        self.0.probe(binctx)
    }
}

/// A tool that the user installs.
struct Ambient(Sim);

impl Tool for Ambient {
    type Deps = ();

    const NAME: &'static str = "ambient";
    const BIN: &'static str = "ambient-bin";
    const MANAGED: bool = false;

    fn set_up(
        &mut self,
        toolset: &mut Toolset,
        _deps: &(),
        ver_req: &VersionReq,
    ) -> Result<(BinCtx, Version), Error> {
        let path = self.0.install()?;
        let binctx = toolset.binctx(path);
        let found = toolset.verify(self, &binctx, ver_req)?;
        prep::tools::installed(binctx, found)
    }

    fn extract_version(&mut self, binctx: &BinCtx) -> Result<Option<Version>, Error> {
        self.0.probe(binctx)
    }
}

/// A tool that is another tool's binary behind a subcommand, and that needs that tool.
struct Wrapped {
    inner: Ambient,
    sim: Sim,
}

impl Tool for Wrapped {
    type Deps = Option<VersionReq>;

    const NAME: &'static str = "wrapped";
    const BIN: &'static str = "ambient-bin";
    const MANAGED: bool = false;

    fn default_binctx(
        &mut self,
        toolset: &mut Toolset,
        deps: &Option<VersionReq>,
    ) -> Result<BinCtx, Error> {
        let inner = toolset.get_on(&mut self.inner, &(), deps.as_ref(), Date::new(2024, 1, 1))?;
        Ok(inner.args(vec!["sub".to_string()]))
    }

    fn set_up(
        &mut self,
        _toolset: &mut Toolset,
        _deps: &Option<VersionReq>,
        _ver_req: &VersionReq,
    ) -> Result<(BinCtx, Version), Error> {
        Err(Error::Other { message: "nothing to set up".to_string() })
    }

    fn extract_version(&mut self, binctx: &BinCtx) -> Result<Option<Version>, Error> {
        self.sim.extract_calls += 1;
        if binctx.base_args() == &vec!["sub".to_string()] {
            Ok(Some(Version::new(0, 5, 0)))
        } else {
            Ok(None)
        }
    }
}

fn toolset(manifest: Option<Manifest>) -> Toolset {
    Toolset::new("tools".to_string(), "work".to_string(), Environment::new(), manifest)
}

fn req(text: &str) -> VersionReq {
    VersionReq::parse(text).unwrap()
}

fn version(text: &str) -> Version {
    Version::parse(text).unwrap()
}

fn day(day: u8) -> Date {
    Date::new(2024, 1, day)
}

fn record(tool: &str, v: &str, path: &str, used: Date) -> Record {
    Record { tool: tool.to_string(), version: version(v), path: path.to_string(), used }
}

fn stale(tool: &str, v: &str, path: &str) -> Warning {
    Warning::StaleInstall {
        tool: tool.to_string(),
        version: version(v),
        path: path.to_string(),
    }
}

/// A copy of the manifest, made the way a manifest file is written and read back.
fn reload(manifest: &Manifest) -> Manifest {
    Manifest::from_records(manifest.records())
}

#[test]
fn new_toolset_without_a_manifest_file_has_an_empty_manifest() {
    let tools = toolset(None);
    assert_eq!(tools.manifest(), &Manifest::new());
    assert!(!tools.unsaved());
    assert_eq!(tools.tools_dir(), "tools");
    assert_eq!(tools.working_dir(), "work");
    assert_eq!(tools.environment(), &Environment::new());
    assert_eq!(tools.manifest_path(), "tools/tools.toml");
}

#[test]
fn toolset_paths_lie_below_the_tools_directory() {
    let tools = toolset(None);
    assert_eq!(tools.install_dir("ripgrep", &version("14.1.1")), "tools/ripgrep/14.1.1");
    assert_eq!(tools.temp_install_dir("ripgrep"), "tools/temp-ripgrep");
    let binctx = tools.binctx("some/bin".to_string());
    assert_eq!(binctx.path(), "some/bin");
    assert_eq!(binctx.working_dir(), "work");
    assert_eq!(binctx.environment(), &Environment::new());
    assert!(binctx.base_args().is_empty());
}

#[test]
fn ensure_tools_dir_creates_only_what_is_missing() {
    let tools = toolset(None);
    assert_eq!(tools.ensure_tools_dir(false, false), Ok(true));
    assert_eq!(tools.ensure_tools_dir(true, true), Ok(false));
    assert_eq!(
        tools.ensure_tools_dir(true, false),
        Err(Error::NotADirectory { path: "tools".to_string() })
    );
}

#[test]
fn get_without_a_requirement_returns_the_default_context_unprobed() {
    let mut tools = toolset(None);
    let mut tool = MyTool(Sim::new());
    let binctx = tools.get_on(&mut tool, &(), None, day(1)).unwrap();
    assert_eq!(binctx, tools.binctx("mytool".to_string()));
    assert_eq!(tool.0.extract_calls, 0);
    assert_eq!(tool.0.set_up_calls, 0);
    assert!(!tools.unsaved());
}

#[test]
fn fresh_install_is_put_on_record() {
    let mut tools = toolset(None);
    let mut tool = MyTool(Sim::new());
    let binctx = tools.get_on(&mut tool, &(), Some(&req("=1.2.3")), day(1)).unwrap();
    assert_eq!(binctx, tools.binctx("tools/mytool/1.2.3/bin".to_string()));
    assert_eq!(tool.0.set_up_calls, 1);
    assert_eq!(
        tools.manifest().records(),
        vec![record("mytool", "1.2.3", "mytool/1.2.3/bin", day(1))]
    );
    assert!(tools.unsaved());
    assert!(tools.take_warnings().is_empty());
}

#[test]
fn recorded_install_is_reused() {
    let mut first = toolset(None);
    let mut tool = MyTool(Sim::new());
    first.get_on(&mut tool, &(), Some(&req("=1.2.3")), day(1)).unwrap();

    let mut second = toolset(Some(reload(first.manifest())));
    let mut tool = MyTool(Sim::new().with("tools/mytool/1.2.3/bin", "1.2.3"));
    let binctx = second.get_on(&mut tool, &(), Some(&req("=1.2.3")), day(2)).unwrap();
    assert_eq!(binctx.path(), "tools/mytool/1.2.3/bin");
    assert_eq!(tool.0.set_up_calls, 0);
    assert_eq!(
        second.manifest().records(),
        vec![record("mytool", "1.2.3", "mytool/1.2.3/bin", day(2))]
    );
    assert!(second.unsaved());
    assert!(second.take_warnings().is_empty());
}

#[test]
fn recorded_install_used_on_the_same_day_is_not_written_again() {
    let manifest =
        Manifest::from_records(vec![record("mytool", "1.2.3", "mytool/1.2.3/bin", day(2))]);
    let mut tools = toolset(Some(manifest));
    let mut tool = MyTool(Sim::new().with("tools/mytool/1.2.3/bin", "1.2.3"));
    tools.get_on(&mut tool, &(), Some(&req("=1.2.3")), day(2)).unwrap();
    assert!(!tools.unsaved());
    let mut tools = toolset(Some(reload(tools.manifest())));
    tools.get_on(&mut tool, &(), Some(&req("=1.2.3")), day(1)).unwrap();
    assert!(!tools.unsaved());
    assert_eq!(
        tools.manifest().records(),
        vec![record("mytool", "1.2.3", "mytool/1.2.3/bin", day(2))]
    );
}

#[test]
fn deleted_binary_is_set_up_again() {
    let mut first = toolset(None);
    let mut tool = MyTool(Sim::new());
    first.get_on(&mut tool, &(), Some(&req("=1.2.3")), day(1)).unwrap();

    let mut second = toolset(Some(reload(first.manifest())));
    let mut tool = MyTool(Sim::new().installing("tools/mytool/again/bin", "1.2.3"));
    let binctx = second.get_on(&mut tool, &(), Some(&req("=1.2.3")), day(2)).unwrap();
    assert_eq!(binctx.path(), "tools/mytool/again/bin");
    assert_eq!(tool.0.set_up_calls, 1);
    assert_eq!(
        second.take_warnings(),
        vec![stale("mytool", "1.2.3", "tools/mytool/1.2.3/bin")]
    );
    assert!(second.take_warnings().is_empty());
    assert_eq!(
        second.manifest().records(),
        vec![record("mytool", "1.2.3", "mytool/again/bin", day(2))]
    );
    assert!(second.unsaved());
}

#[test]
fn deleted_binary_is_not_probed_again_after_a_set_up_at_its_path() {
    let mut first = toolset(None);
    let mut tool = MyTool(Sim::new());
    first.get_on(&mut tool, &(), Some(&req("=1.2.3")), day(1)).unwrap();

    // The context of the record is probed and holds no binary. That is kept for the rest
    // of the process, so a set-up that installs there cannot verify what it installed.
    let mut second = toolset(Some(reload(first.manifest())));
    let mut tool = MyTool(Sim::new());
    let result = second.get_on(&mut tool, &(), Some(&req("=1.2.3")), day(2));
    assert_eq!(
        result,
        Err(Error::NotFoundAfterInstall { path: "tools/mytool/1.2.3/bin".to_string() })
    );
    assert_eq!(tool.0.set_up_calls, 1);
    assert_eq!(tool.0.extract_calls, 2);
    assert_eq!(
        second.take_warnings(),
        vec![stale("mytool", "1.2.3", "tools/mytool/1.2.3/bin")]
    );
    assert_eq!(second.manifest().len(), 0);
    assert!(second.unsaved());
}

#[test]
fn stale_entry_is_removed_even_if_the_set_up_fails() {
    let manifest =
        Manifest::from_records(vec![record("mytool", "1.2.3", "/abs/mytool", day(1))]);
    let mut tools = toolset(Some(manifest));
    let mut sim = Sim::new();
    sim.installs = None;
    let mut tool = MyTool(sim);
    let result = tools.get_on(&mut tool, &(), Some(&req("=1.2.3")), day(2));
    assert_eq!(result, Err(Error::Other { message: "cannot install".to_string() }));
    assert_eq!(tools.manifest().len(), 0);
    assert!(tools.unsaved());
    assert_eq!(tools.take_warnings(), vec![stale("mytool", "1.2.3", "/abs/mytool")]);
}

#[test]
fn recorded_install_of_another_version_is_stale() {
    let manifest =
        Manifest::from_records(vec![record("mytool", "1.2.3", "mytool/1.2.3/bin", day(1))]);
    let mut tools = toolset(Some(manifest));
    let mut tool = MyTool(
        Sim::new().with("tools/mytool/1.2.3/bin", "1.2.4").installing("tools/fresh", "1.2.3"),
    );
    let binctx = tools.get_on(&mut tool, &(), Some(&req("=1.2.3")), day(2)).unwrap();
    assert_eq!(binctx.path(), "tools/fresh");
    assert_eq!(tools.manifest().records(), vec![record("mytool", "1.2.3", "fresh", day(2))]);
    assert_eq!(
        tools.take_warnings(),
        vec![stale("mytool", "1.2.3", "tools/mytool/1.2.3/bin")]
    );
}

#[test]
fn recorded_install_with_another_build_tag_is_confirmed() {
    let manifest =
        Manifest::from_records(vec![record("mytool", "1.2.3", "/opt/mytool", day(1))]);
    let mut tools = toolset(Some(manifest));
    let mut tool = MyTool(Sim::new().with("/opt/mytool", "1.2.3+nightly"));
    let binctx = tools.get_on(&mut tool, &(), Some(&req("^1.2")), day(2)).unwrap();
    assert_eq!(binctx.path(), "/opt/mytool");
    assert_eq!(tool.0.set_up_calls, 0);
    assert_eq!(tools.manifest().records(), vec![record("mytool", "1.2.3", "/opt/mytool", day(2))]);
}

#[test]
fn manifest_is_asked_for_the_newest_recorded_version() {
    let manifest = Manifest::from_records(vec![
        record("mytool", "1.2.0", "a", day(1)),
        record("mytool", "1.3.0", "b", day(1)),
        record("mytool", "1.2.5", "c", day(1)),
    ]);
    let mut tools = toolset(Some(manifest));
    let mut tool = MyTool(Sim::new().with("tools/a", "1.2.0").with("tools/b", "1.3.0"));
    let binctx = tools.get_on(&mut tool, &(), Some(&req("^1.2")), day(1)).unwrap();
    assert_eq!(binctx.path(), "tools/b");
    assert_eq!(tool.0.extract_calls, 1);
}

#[test]
fn error_of_a_probe_is_passed_on() {
    let manifest = Manifest::from_records(vec![record("mytool", "1.2.3", "/broken/..", day(1))]);
    let mut tools = toolset(Some(manifest));
    let mut tool = MyTool(Sim::new());
    let mut broken = tools.binctx("broken".to_string());
    assert_eq!(
        tools.version(&mut tool, &broken),
        Err(Error::RunFailed { program: "broken".to_string() })
    );
    broken = broken.args(vec!["x".to_string()]);
    assert_eq!(
        tools.verify(&mut tool, &broken, &req("*")),
        Err(Error::RunFailed { program: "broken".to_string() })
    );
    assert_eq!(tools.manifest().len(), 1);
}

#[test]
fn default_installation_that_satisfies_is_returned_and_not_recorded() {
    let mut tools = toolset(None);
    let mut tool = MyTool(Sim::new().with("mytool", "1.2.9"));
    let binctx = tools.get_on(&mut tool, &(), Some(&req("~1.2")), day(1)).unwrap();
    assert_eq!(binctx.path(), "mytool");
    assert_eq!(tool.0.set_up_calls, 0);
    assert_eq!(tools.manifest().len(), 0);
    assert!(!tools.unsaved());
}

#[test]
fn default_installation_that_does_not_satisfy_is_passed_over() {
    let mut tools = toolset(None);
    let mut tool = MyTool(Sim::new().with("mytool", "1.1.0"));
    let binctx = tools.get_on(&mut tool, &(), Some(&req("=1.2.3")), day(1)).unwrap();
    assert_eq!(binctx.path(), "tools/mytool/1.2.3/bin");
    assert_eq!(tool.0.set_up_calls, 1);
}

#[test]
fn unmanaged_tool_is_neither_looked_up_nor_recorded() {
    let manifest =
        Manifest::from_records(vec![record("ambient", "2.0.0", "/opt/ambient", day(1))]);
    let mut tools = toolset(Some(manifest));
    let mut tool =
        Ambient(Sim::new().with("/opt/ambient", "2.0.0").installing("/usr/bin/ambient", "2.0.1"));
    let binctx = tools.get_on(&mut tool, &(), Some(&req("^2")), day(2)).unwrap();
    assert_eq!(binctx.path(), "/usr/bin/ambient");
    assert_eq!(tool.0.set_up_calls, 1);
    assert_eq!(
        tools.manifest().records(),
        vec![record("ambient", "2.0.0", "/opt/ambient", day(1))]
    );
    assert!(!tools.unsaved());
}

#[test]
fn error_of_a_set_up_is_passed_on_unchanged() {
    let mut tools = toolset(None);
    let mut sim = Sim::new();
    sim.installs = None;
    let mut tool = Ambient(sim);
    assert_eq!(
        tools.get_on(&mut tool, &(), Some(&req("^2")), day(1)),
        Err(Error::Other { message: "cannot install".to_string() })
    );
}

#[test]
fn set_up_of_a_wrong_version_is_a_mismatch() {
    let mut tools = toolset(None);
    let mut tool = MyTool(Sim::new().installing("tools/x", "1.2.4"));
    assert_eq!(
        tools.get_on(&mut tool, &(), Some(&req("=1.2.3")), day(1)),
        Err(Error::VersionMismatch {
            tool: "mytool".to_string(),
            path: "tools/x".to_string(),
            requirement: req("=1.2.3"),
            actual: version("1.2.4"),
        })
    );
    assert_eq!(tools.manifest().len(), 0);
}

#[test]
fn second_get_is_answered_from_the_session() {
    let mut tools = toolset(None);
    let mut tool = MyTool(Sim::new());
    let first = tools.get_on(&mut tool, &(), Some(&req("=1.2.3")), day(1)).unwrap();
    let probes = tool.0.extract_calls;
    tools.mark_saved();
    let second = tools.get_on(&mut tool, &(), Some(&req("=1.2.3")), day(2)).unwrap();
    assert_eq!(first, second);
    assert_eq!(tool.0.extract_calls, probes);
    assert_eq!(tool.0.set_up_calls, 1);
    assert!(!tools.unsaved());
    assert_eq!(
        tools.manifest().records(),
        vec![record("mytool", "1.2.3", "mytool/1.2.3/bin", day(1))]
    );
    let third = tools.get(&mut tool, &(), Some(&req("^1"))).unwrap();
    assert_eq!(first, third);
    assert_eq!(tool.0.extract_calls, probes);
}

#[test]
fn repeated_get_is_answered_with_the_newest_verified_context() {
    let manifest = Manifest::from_records(vec![record("mytool", "1.2.3", "/p", day(1))]);
    let mut tools = toolset(Some(manifest));
    let mut tool = MyTool(Sim::new().with("/p", "1.2.4").installing("/q", "1.2.3"));
    let first = tools.get_on(&mut tool, &(), Some(&req("^1.2")), day(2)).unwrap();
    assert_eq!(first.path(), "/q");
    assert_eq!(tools.take_warnings(), vec![stale("mytool", "1.2.3", "/p")]);
    let second = tools.get_on(&mut tool, &(), Some(&req("^1.2")), day(2)).unwrap();
    assert_eq!(second.path(), "/p");
    let third = tools.get_on(&mut tool, &(), Some(&req("^1.2")), day(2)).unwrap();
    assert_eq!(third, second);
    assert_eq!(tool.0.set_up_calls, 1);
    assert_eq!(tool.0.extract_calls, 3);
}

#[test]
fn session_answers_with_the_newest_known_version() {
    let mut tools = toolset(None);
    let mut tool =
        MyTool(Sim::new().with("a", "1.2.0").with("b", "1.3.0").with("c", "1.2.5").with("d", "1.3.0"));
    for path in ["a", "b", "c", "d"] {
        let binctx = tools.binctx(path.to_string());
        assert!(tools.version(&mut tool, &binctx).unwrap().is_some());
    }
    assert_eq!(tools.session_lookup("mytool", &req("^1.2")), Some(tools.binctx("b".to_string())));
    assert_eq!(tools.session_lookup("mytool", &req("~1.2")), Some(tools.binctx("c".to_string())));
    assert_eq!(tools.session_lookup("mytool", &req("^2")), None);
    assert_eq!(tools.session_lookup("other", &req("^1.2")), None);
    let probes = tool.0.extract_calls;
    let binctx = tools.get_on(&mut tool, &(), Some(&req("^1.2")), day(1)).unwrap();
    assert_eq!(binctx.path(), "b");
    assert_eq!(tool.0.extract_calls, probes);
}

#[test]
fn version_is_probed_once_for_each_context_and_tool() {
    let mut tools = toolset(None);
    let mut tool = MyTool(Sim::new().with("a", "1.2.0"));
    let a = tools.binctx("a".to_string());
    assert_eq!(tools.cached_version("mytool", &a), None);
    assert_eq!(tools.version(&mut tool, &a), Ok(Some(version("1.2.0"))));
    assert_eq!(tools.version(&mut tool, &a), Ok(Some(version("1.2.0"))));
    assert_eq!(tool.0.extract_calls, 1);
    assert_eq!(tools.cached_version("mytool", &a), Some(version("1.2.0")));
    assert_eq!(tools.cached_version("ambient", &a), None);

    let with_args = tools.binctx("a".to_string()).args(vec!["x".to_string()]);
    assert_eq!(tools.cached_version("mytool", &with_args), None);

    let mut other = Ambient(Sim::new().with("a", "7.0.0"));
    assert_eq!(tools.version(&mut other, &a), Ok(Some(version("7.0.0"))));
    assert_eq!(tools.cached_version("ambient", &a), Some(version("7.0.0")));
    assert_eq!(tools.cached_version("mytool", &a), None);
}

#[test]
fn missing_binary_is_probed_once_for_each_context_and_tool() {
    let mut tools = toolset(None);
    let mut tool = MyTool(Sim::new());
    let a = tools.binctx("a".to_string());
    assert!(!tools.known_missing("mytool", &a));
    assert_eq!(tools.version(&mut tool, &a), Ok(None));
    assert!(tools.known_missing("mytool", &a));
    assert_eq!(tools.version(&mut tool, &a), Ok(None));
    assert_eq!(tools.verify(&mut tool, &a, &req("*")), Ok(None));
    assert_eq!(tool.0.extract_calls, 1);

    // What the context holds later in the process is not looked at.
    tool.0.on_disk.push(("a".to_string(), "1.0.0".to_string()));
    assert_eq!(tools.verify(&mut tool, &a, &req("*")), Ok(None));
    assert_eq!(tools.cached_version("mytool", &a), None);
    assert_eq!(tool.0.extract_calls, 1);

    // Another context, and the same context as another tool, are probed.
    let with_args = tools.binctx("a".to_string()).args(vec!["x".to_string()]);
    assert!(!tools.known_missing("mytool", &with_args));
    assert!(!tools.known_missing("ambient", &a));
    let mut other = Ambient(Sim::new().with("a", "7.0.0"));
    assert_eq!(tools.version(&mut other, &a), Ok(Some(version("7.0.0"))));
    assert!(tools.known_missing("mytool", &a));
}

#[test]
fn failed_probe_is_not_kept() {
    let mut tools = toolset(None);
    let mut tool = MyTool(Sim::new());
    let broken = tools.binctx("broken".to_string());
    assert!(tools.version(&mut tool, &broken).is_err());
    assert!(tools.version(&mut tool, &broken).is_err());
    assert_eq!(tool.0.extract_calls, 2);
    assert!(!tools.known_missing("mytool", &broken));
    assert_eq!(tools.cached_version("mytool", &broken), None);
}

#[test]
fn verify_keeps_the_version_of_a_mismatch_and_nothing_else() {
    let manifest = Manifest::from_records(vec![record("mytool", "1.2.3", "p", day(1))]);
    let mut tools = toolset(Some(manifest));
    let mut tool = MyTool(Sim::new().with("a", "1.2.0"));
    let a = tools.binctx("a".to_string());
    assert!(tools.verify(&mut tool, &a, &req(">=2")).is_err());
    assert_eq!(tools.cached_version("mytool", &a), Some(version("1.2.0")));
    assert_eq!(tools.manifest().records(), vec![record("mytool", "1.2.3", "p", day(1))]);
    assert!(!tools.unsaved());
    assert!(tools.take_warnings().is_empty());
    assert!(tools.verify(&mut tool, &a, &req(">=2")).is_err());
    assert_eq!(tool.0.extract_calls, 1);
}

#[test]
fn verify_reports_a_mismatch_with_path_requirement_and_version() {
    let mut tools = toolset(None);
    let mut tool = MyTool(Sim::new().with("a", "1.2.0"));
    let a = tools.binctx("a".to_string());
    let expected = Err(Error::VersionMismatch {
        tool: "mytool".to_string(),
        path: "a".to_string(),
        requirement: req(">=2"),
        actual: version("1.2.0"),
    });
    assert_eq!(tools.verify(&mut tool, &a, &req(">=2")), expected);
    assert_eq!(Toolset::check_version("mytool", &a, &req(">=2"), Some(version("1.2.0"))), expected);
    assert_eq!(Toolset::check_version("mytool", &a, &req(">=2"), None), Ok(None));
    assert_eq!(
        Toolset::check_version("mytool", &a, &req(">=1"), Some(version("1.2.0"))),
        Ok(Some(version("1.2.0")))
    );
}

#[test]
fn manifest_candidate_resolves_relative_paths_only() {
    let manifest = Manifest::from_records(vec![
        record("mytool", "1.2.3", "mytool/1.2.3/bin", day(1)),
        record("other", "1.0.0", "/abs/other", day(1)),
    ]);
    let tools = toolset(Some(manifest));
    assert_eq!(
        tools.manifest_candidate("mytool", &req("*")),
        Some((version("1.2.3"), tools.binctx("tools/mytool/1.2.3/bin".to_string())))
    );
    assert_eq!(
        tools.manifest_candidate("other", &req("*")),
        Some((version("1.0.0"), tools.binctx("/abs/other".to_string())))
    );
    assert_eq!(tools.manifest_candidate("mytool", &req("^2")), None);
}

#[test]
fn settle_manifest_probe_marks_or_evicts() {
    let manifest = Manifest::from_records(vec![record("mytool", "1.2.3", "p", day(1))]);
    let mut tools = toolset(Some(manifest));
    let binctx = tools.binctx("tools/p".to_string());
    let on_record = version("1.2.3");
    assert!(tools.settle_manifest_probe("mytool", &on_record, &binctx, &Some(version("1.2.3")), day(1)));
    assert!(!tools.unsaved());
    assert!(tools.settle_manifest_probe("mytool", &on_record, &binctx, &Some(version("1.2.3")), day(3)));
    assert!(tools.unsaved());
    assert_eq!(tools.manifest().records(), vec![record("mytool", "1.2.3", "p", day(3))]);
    tools.mark_saved();
    assert!(!tools.settle_manifest_probe("mytool", &on_record, &binctx, &None, day(4)));
    assert!(tools.unsaved());
    assert_eq!(tools.manifest().len(), 0);
    assert_eq!(tools.take_warnings(), vec![stale("mytool", "1.2.3", "tools/p")]);
}

#[test]
fn record_install_stores_paths_below_the_tools_directory_relatively() {
    let mut tools = toolset(None);
    let inside = tools.binctx("tools/mytool/1.2.3/bin".to_string());
    let outside = tools.binctx("/usr/bin/mytool".to_string());
    tools.record_install("mytool", &inside, &version("1.2.3"), day(1));
    tools.record_install("mytool", &outside, &version("1.2.4"), day(2));
    assert_eq!(
        tools.manifest().records(),
        vec![
            record("mytool", "1.2.3", "mytool/1.2.3/bin", day(1)),
            record("mytool", "1.2.4", "/usr/bin/mytool", day(2)),
        ]
    );
    assert!(tools.unsaved());
}

#[test]
fn tool_that_wraps_another_resolves_it_through_the_toolset() {
    let mut tools = toolset(None);
    let mut tool = Wrapped { inner: Ambient(Sim::new().with("ambient-bin", "3.1.0")), sim: Sim::new() };
    let binctx = tools.get_on(&mut tool, &Some(req("^3")), Some(&req("=0.5.0")), day(1)).unwrap();
    assert_eq!(binctx.path(), "ambient-bin");
    assert_eq!(binctx.base_args(), &vec!["sub".to_string()]);
    assert_eq!(tools.cached_version("ambient", &tools.binctx("ambient-bin".to_string())), Some(version("3.1.0")));
    assert_eq!(tools.cached_version("wrapped", &binctx), Some(Version::new(0, 5, 0)));
    let again = tools.get_on(&mut tool, &Some(req("^3")), Some(&req("=0.5.0")), day(1)).unwrap();
    assert_eq!(again, binctx);
    assert_eq!(tool.sim.extract_calls, 1);
    assert_eq!(tool.inner.0.extract_calls, 1);
}

#[test]
fn resolution_begins_with_what_is_known_then_the_manifest_then_the_default() {
    let manifest = Manifest::from_records(vec![
        record("mytool", "1.2.0", "a", day(1)),
        record("mytool", "1.3.0", "b", day(1)),
    ]);
    let mut tools = toolset(Some(manifest));
    assert_eq!(
        tools.begin("mytool", true, &req("^1.2")),
        Step::ProbeRecorded { version: version("1.3.0"), binctx: tools.binctx("tools/b".to_string()) }
    );
    assert_eq!(tools.begin("mytool", false, &req("^1.2")), Step::DefaultContext);
    assert_eq!(tools.begin("mytool", true, &req("^2")), Step::DefaultContext);
    assert_eq!(tools.begin("other", true, &req("^1.2")), Step::DefaultContext);

    let mut tool = MyTool(Sim::new().with("x", "1.2.7"));
    let x = tools.binctx("x".to_string());
    tools.version(&mut tool, &x).unwrap();
    assert_eq!(tools.begin("mytool", true, &req("^1.2")), Step::Resolved(x.clone()));
    assert_eq!(tools.begin("mytool", false, &req("^1.2")), Step::Resolved(x));
}

#[test]
fn resolution_proceeds_from_a_stale_record_to_the_default_context() {
    let manifest = Manifest::from_records(vec![record("mytool", "1.2.3", "p", day(1))]);
    let mut tools = toolset(Some(manifest));
    let p = tools.binctx("tools/p".to_string());
    let wanted = req("^1.2");
    let step = tools.begin("mytool", true, &wanted);
    assert_eq!(step, Step::ProbeRecorded { version: version("1.2.3"), binctx: p.clone() });
    let step = tools.proceed("mytool", true, &wanted, day(2), step, Report::Probed(None));
    assert_eq!(step, Step::DefaultContext);
    assert_eq!(tools.manifest().len(), 0);
    assert!(tools.unsaved());
    assert_eq!(tools.take_warnings(), vec![stale("mytool", "1.2.3", "tools/p")]);

    let d = tools.binctx("mytool".to_string());
    let step = tools.proceed("mytool", true, &wanted, day(2), step, Report::Context(d.clone()));
    assert_eq!(step, Step::ProbeDefault(d.clone()));
    tools.mark_saved();
    let step =
        tools.proceed("mytool", true, &wanted, day(2), step, Report::Probed(Some(version("1.1.0"))));
    assert_eq!(step, Step::SetUp);
    assert!(!tools.unsaved());
    let q = tools.binctx("tools/q".to_string());
    let step = tools.proceed(
        "mytool",
        true,
        &wanted,
        day(2),
        step,
        Report::SetUp(q.clone(), version("1.2.9")),
    );
    assert_eq!(step, Step::Resolved(q));
    assert_eq!(tools.manifest().records(), vec![record("mytool", "1.2.9", "q", day(2))]);
    assert!(tools.unsaved());
}

#[test]
fn resolution_is_answered_by_a_confirmed_record_or_a_default_that_satisfies() {
    let manifest = Manifest::from_records(vec![record("mytool", "1.2.3", "/p", day(1))]);
    let mut tools = toolset(Some(manifest));
    let p = tools.binctx("/p".to_string());
    let wanted = req("^1.2");
    let step = tools.begin("mytool", true, &wanted);
    let step =
        tools.proceed("mytool", true, &wanted, day(2), step, Report::Probed(Some(version("1.2.3"))));
    assert_eq!(step, Step::Resolved(p));
    assert_eq!(tools.manifest().records(), vec![record("mytool", "1.2.3", "/p", day(2))]);

    let mut tools = toolset(None);
    let d = tools.binctx("mytool".to_string());
    let step = tools.proceed(
        "mytool",
        true,
        &wanted,
        day(2),
        Step::ProbeDefault(d.clone()),
        Report::Probed(Some(version("1.2.0"))),
    );
    assert_eq!(step, Step::Resolved(d.clone()));
    assert_eq!(tools.manifest().len(), 0);
    assert!(!tools.unsaved());
    let step = tools.proceed(
        "mytool",
        true,
        &wanted,
        day(2),
        Step::ProbeDefault(d),
        Report::Probed(None),
    );
    assert_eq!(step, Step::SetUp);
}

#[test]
fn resolution_of_an_unmanaged_tool_records_nothing() {
    let mut tools = toolset(None);
    let q = tools.binctx("/q".to_string());
    let step = tools.proceed(
        "ambient",
        false,
        &req("*"),
        day(2),
        Step::SetUp,
        Report::SetUp(q.clone(), version("1.0.0")),
    );
    assert_eq!(step, Step::Resolved(q));
    assert_eq!(tools.manifest().len(), 0);
    assert!(!tools.unsaved());
}

#[test]
fn resolution_fails_on_a_report_that_was_not_asked_for() {
    let mut tools = toolset(None);
    let q = tools.binctx("/q".to_string());
    let unexpected = Step::Failed(Error::UnexpectedEvent);
    assert_eq!(
        tools.proceed("t", true, &req("*"), day(1), Step::SetUp, Report::Probed(None)),
        unexpected
    );
    assert_eq!(
        tools.proceed("t", true, &req("*"), day(1), Step::DefaultContext, Report::Probed(None)),
        unexpected
    );
    assert_eq!(
        tools.proceed(
            "t",
            true,
            &req("*"),
            day(1),
            Step::Resolved(q.clone()),
            Report::Context(q.clone())
        ),
        unexpected
    );
    assert_eq!(
        tools.proceed("t", true, &req("*"), day(1), unexpected, Report::Context(q)),
        Step::Failed(Error::UnexpectedEvent)
    );
    assert_eq!(tools.manifest().len(), 0);
}
