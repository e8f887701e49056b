use prep::environment::Environment;
use prep::error::Error;
use prep::invocation::Invocation;
use prep::requirement::VersionReq;
use prep::tools::cargo::{Cargo, CargoDeps};
use prep::tools::clippy::{Clippy, ClippyDeps};
use prep::tools::ripgrep::{Action, Event, Layout, Phase, Ripgrep, RipgrepDeps, SetUp};
use prep::tools::rustfmt::{Rustfmt, RustfmtDeps};
use prep::tools::rustup::{set_up, verify, Rustup};
use prep::tools::{
    check_status, installed, version_from_output, version_from_text, version_query, BinCtx,
    ProbeOutput,
};
use prep::toolset::Toolset;
use prep::version::Version;

fn req(text: &str) -> VersionReq {
    VersionReq::parse(text).unwrap()
}

fn tools() -> Toolset {
    Toolset::new("tools".to_string(), "work".to_string(), Environment::new(), None)
}

fn exited(code: Option<i32>, stdout: &str, stderr: &str) -> ProbeOutput {
    ProbeOutput::Exited {
        code,
        stdout: stdout.as_bytes().to_vec(),
        stderr: stderr.as_bytes().to_vec(),
    }
}

fn strings(list: &[&str]) -> Vec<String> {
    list.iter().map(|s| s.to_string()).collect()
}

fn unsupported(tool: &str, text: &str) -> Error {
    Error::UnsupportedRequirement { tool: tool.to_string(), requirement: req(text) }
}

#[test]
fn binctx_new_has_no_base_arguments() {
    let binctx = BinCtx::new("bin".to_string(), "dir".to_string(), Environment::new());
    assert_eq!(binctx.path(), "bin");
    assert_eq!(binctx.working_dir(), "dir");
    assert_eq!(binctx.environment(), &Environment::new());
    assert!(binctx.base_args().is_empty());
}

#[test]
fn binctx_args_replaces_the_base_arguments() {
    let plain = BinCtx::new("cargo".to_string(), "dir".to_string(), Environment::new());
    let fmt = plain.clone().args(strings(&["fmt"]));
    assert_eq!(fmt.base_args(), &strings(&["fmt"]));
    assert_eq!(fmt.path(), "cargo");
    assert_ne!(fmt, plain);
    let clippy = fmt.clone().args(strings(&["clippy", "--fix"]));
    assert_eq!(clippy.base_args(), &strings(&["clippy", "--fix"]));
    assert_eq!(fmt.base_args(), &strings(&["fmt"]));
}

#[test]
fn binctx_same_compares_every_field() {
    let base = BinCtx::new("cargo".to_string(), "dir".to_string(), Environment::new());
    assert!(base.same(&base.clone()));
    assert!(!base.same(&BinCtx::new("rg".to_string(), "dir".to_string(), Environment::new())));
    assert!(!base.same(&BinCtx::new("cargo".to_string(), "x".to_string(), Environment::new())));
    let pinned = Environment::new().rust(Some("1.93".to_string()));
    assert!(!base.same(&BinCtx::new("cargo".to_string(), "dir".to_string(), pinned)));
    assert!(!base.same(&base.clone().args(strings(&["fmt"]))));
    assert!(base.clone().args(strings(&["fmt"])).same(&base.clone().args(strings(&["fmt"]))));
}

#[test]
fn binctx_cmd_sets_directory_environment_and_base_arguments() {
    let environment = Environment::new().rust(Some("1.93".to_string()));
    let binctx =
        BinCtx::new("cargo".to_string(), "dir".to_string(), environment).args(strings(&["fmt"]));
    let mut cmd = binctx.cmd();
    assert_eq!(cmd.program(), "cargo");
    assert_eq!(cmd.working_dir(), Some("dir"));
    assert_eq!(
        cmd.envs(),
        &vec![
            ("RUSTUP_AUTO_INSTALL".to_string(), "0".to_string()),
            ("RUSTUP_TOOLCHAIN".to_string(), "1.93".to_string()),
        ]
    );
    assert_eq!(cmd.arguments(), &strings(&["fmt"]));
    cmd.arg("--all");
    cmd.args(&strings(&["--check", "-v"]));
    assert_eq!(cmd.arguments(), &strings(&["fmt", "--all", "--check", "-v"]));
    assert_eq!(binctx.base_args(), &strings(&["fmt"]));
}

#[test]
fn version_query_adds_the_version_flag() {
    let binctx = tools().binctx("cargo".to_string()).args(strings(&["fmt"]));
    let cmd = version_query(&binctx);
    assert_eq!(cmd.program(), "cargo");
    assert_eq!(cmd.working_dir(), Some("work"));
    assert_eq!(cmd.arguments(), &strings(&["fmt", "--version"]));
}

#[test]
fn invocation_collects_what_it_is_given() {
    let mut cmd = Invocation::new("rg");
    assert_eq!(cmd.program(), "rg");
    assert_eq!(cmd.working_dir(), None);
    assert!(cmd.envs().is_empty());
    assert!(cmd.arguments().is_empty());
    cmd.current_dir("a");
    cmd.current_dir("b");
    cmd.env("K", "1");
    cmd.env("K", "2");
    cmd.arg("x");
    assert_eq!(cmd.working_dir(), Some("b"));
    assert_eq!(
        cmd.envs(),
        &vec![("K".to_string(), "1".to_string()), ("K".to_string(), "2".to_string())]
    );
    assert_eq!(cmd.clone(), cmd);
}

#[test]
fn version_from_output_finds_the_version_in_the_first_line() {
    let output = exited(Some(0), "cargo 1.93.0 (123abc 2026-01-01)\nmore\n", "");
    assert_eq!(version_from_output("cargo", &output), Ok(Some(Version::new(1, 93, 0))));
    let output = exited(Some(0), "rustfmt 1.8.0-stable (abc 2026-01-01)\r\n", "");
    assert_eq!(
        version_from_output("cargo", &output),
        Ok(Some(Version::parse("1.8.0-stable").unwrap()))
    );
    assert_eq!(
        version_from_text("rg", "ripgrep   14.1.1+pcre2"),
        Ok(Some(Version::parse("14.1.1+pcre2").unwrap()))
    );
}

#[test]
fn version_from_output_tells_a_missing_program_from_a_failing_one() {
    assert_eq!(version_from_output("rg", &ProbeOutput::NotFound), Ok(None));
    assert_eq!(
        version_from_output("rg", &ProbeOutput::Failed),
        Err(Error::RunFailed { program: "rg".to_string() })
    );
    assert_eq!(
        version_from_output("rg", &exited(Some(2), "rg 1.0.0", "")),
        Err(Error::ExitFailure { program: "rg".to_string(), code: Some(2) })
    );
    assert_eq!(
        version_from_output("rg", &exited(None, "rg 1.0.0", "")),
        Err(Error::ExitFailure { program: "rg".to_string(), code: None })
    );
}

#[test]
fn version_from_output_takes_a_component_that_is_not_installed_as_missing() {
    let stderr = "error: 'cargo-clippy' is not installed for the toolchain '1.93'";
    assert_eq!(version_from_output("cargo", &exited(Some(1), "", stderr)), Ok(None));
    assert_eq!(
        version_from_output("cargo", &exited(Some(1), "", "error: something else")),
        Err(Error::ExitFailure { program: "cargo".to_string(), code: Some(1) })
    );
    assert_eq!(
        version_from_output("cargo", &exited(Some(1), "", "it is not installed")),
        Err(Error::ExitFailure { program: "cargo".to_string(), code: Some(1) })
    );
    assert_eq!(
        version_from_output("cargo", &exited(Some(2), "", stderr)),
        Err(Error::ExitFailure { program: "cargo".to_string(), code: Some(2) })
    );
}

#[test]
fn version_from_output_refuses_output_that_is_not_text() {
    let bad = ProbeOutput::Exited { code: Some(0), stdout: vec![0xff, 0xfe], stderr: Vec::new() };
    assert_eq!(
        version_from_output("rg", &bad),
        Err(Error::InvalidUtf8 { program: "rg".to_string() })
    );
    let bad = ProbeOutput::Exited { code: Some(1), stdout: Vec::new(), stderr: vec![0xc3] };
    assert_eq!(
        version_from_output("rg", &bad),
        Err(Error::InvalidUtf8 { program: "rg".to_string() })
    );
}

#[test]
fn version_from_text_refuses_output_without_a_version() {
    let empty = Err(Error::EmptyOutput { program: "rg".to_string() });
    let none = Err(Error::NoVersion { program: "rg".to_string() });
    assert_eq!(version_from_text("rg", ""), empty);
    assert_eq!(version_from_text("rg", "\nrg 1.0.0"), none);
    assert_eq!(version_from_text("rg", "1.0.0"), none);
    assert_eq!(version_from_text("rg", "rg 1.0"), none);
    assert_eq!(version_from_text("rg", "rg version 1.0.0"), none);
    assert_eq!(version_from_text("rg", " rg 1.0.0"), none);
    assert_eq!(
        version_from_text("rg", "rg 1.0.00"),
        Err(Error::InvalidVersion { program: "rg".to_string(), text: "1.0.00".to_string() })
    );
    assert_eq!(
        version_from_text("rg", "rg 1.2.3_x rest"),
        Err(Error::InvalidVersion { program: "rg".to_string(), text: "1.2.3_x".to_string() })
    );
}

#[test]
fn check_status_accepts_only_the_exit_code_zero() {
    assert_eq!(check_status("rustup", Some(0)), Ok(()));
    assert_eq!(
        check_status("rustup", Some(1)),
        Err(Error::ExitFailure { program: "rustup".to_string(), code: Some(1) })
    );
    assert_eq!(
        check_status("rustup", None),
        Err(Error::ExitFailure { program: "rustup".to_string(), code: None })
    );
}

#[test]
fn installed_needs_a_verified_binary() {
    let binctx = tools().binctx("tools/x".to_string());
    assert_eq!(
        installed(binctx.clone(), Some(Version::new(1, 0, 0))),
        Ok((binctx.clone(), Version::new(1, 0, 0)))
    );
    assert_eq!(
        installed(binctx, None),
        Err(Error::NotFoundAfterInstall { path: "tools/x".to_string() })
    );
}

#[test]
fn cargo_constants_name_an_unmanaged_tool() {
    assert_eq!(Cargo::NAME, "cargo");
    assert_eq!(Cargo::BIN, "cargo");
    assert!(!Cargo::MANAGED);
    assert_eq!(Rustup::NAME, "rustup");
    assert_eq!(Rustup::BIN, "rustup");
    assert!(!Rustup::MANAGED);
    assert_eq!(Rustfmt::NAME, "rustfmt");
    assert_eq!(Rustfmt::BIN, "cargo");
    assert!(!Rustfmt::MANAGED);
    assert_eq!(Clippy::NAME, "clippy");
    assert_eq!(Clippy::BIN, "cargo");
    assert!(!Clippy::MANAGED);
    assert_eq!(Ripgrep::NAME, "ripgrep");
    assert_eq!(Ripgrep::BIN, "rg");
    assert!(Ripgrep::MANAGED);
}

#[test]
fn cargo_toolchain_name_is_major_dot_minor() {
    assert_eq!(Cargo::toolchain_name(&req("=1.93")), Ok("1.93".to_string()));
    assert_eq!(Cargo::toolchain_name(&req("=0.0")), Ok("0.0".to_string()));
    assert_eq!(
        Cargo::toolchain_name(&req("=18446744073709551615.100")),
        Ok("18446744073709551615.100".to_string())
    );
}

#[test]
fn cargo_toolchain_name_refuses_other_shapes() {
    for text in ["=1.93.0", "=1", "^1.93", "1.93", ">=1.93", "=1.93, =1.93", "*", "=1.93.0-beta",
        "=1.80, <2"]
    {
        assert_eq!(Cargo::toolchain_name(&req(text)), Err(unsupported("cargo", text)), "{}", text);
    }
}

#[test]
fn cargo_install_command_names_toolchain_and_components() {
    let rustup = tools().binctx("rustup".to_string());
    let cmd = Cargo::install_command(&rustup, "1.93", &Vec::new());
    assert_eq!(cmd.program(), "rustup");
    assert_eq!(cmd.working_dir(), Some("work"));
    assert_eq!(
        cmd.arguments(),
        &strings(&["toolchain", "install", "1.93", "--no-self-update", "--profile", "minimal"])
    );
    let deps = CargoDeps::new(Some(req("=1")), strings(&["clippy", "rustfmt"]));
    assert_eq!(deps.rustup_ver_req(), Some(&req("=1")));
    assert_eq!(deps.components(), &strings(&["clippy", "rustfmt"]));
    let cmd = Cargo::install_command(&rustup, "1.93", deps.components());
    assert_eq!(
        cmd.arguments(),
        &strings(&[
            "toolchain",
            "install",
            "1.93",
            "--no-self-update",
            "--profile",
            "minimal",
            "--component",
            "clippy,rustfmt",
        ])
    );
}

fn cargo_begun() -> prep::tools::cargo::SetUp {
    let deps = CargoDeps::new(None, strings(&["clippy"]));
    let (set_up, first) = prep::tools::cargo::SetUp::begin(&tools(), &deps, &req("=1.93")).unwrap();
    assert_eq!(first, prep::tools::cargo::Action::GetRustup);
    assert_eq!(set_up.phase(), prep::tools::cargo::Phase::Rustup);
    assert_eq!(set_up.toolchain_name(), "1.93");
    set_up
}

#[test]
fn cargo_set_up_refuses_other_requirements_before_anything_is_done() {
    let deps = CargoDeps::default();
    assert_eq!(
        prep::tools::cargo::SetUp::begin(&tools(), &deps, &req("=1.93.0")).err(),
        Some(unsupported("cargo", "=1.93.0"))
    );
    assert_eq!(
        prep::tools::cargo::SetUp::begin(&tools(), &deps, &req(">=1.90, <2")).err(),
        Some(unsupported("cargo", ">=1.90, <2"))
    );
}

#[test]
fn cargo_set_up_installs_then_verifies() {
    let mut set_up = cargo_begun();
    let rustup = tools().binctx("/bin/rustup".to_string());
    let cargo = Cargo::binctx(&tools(), "1.93".to_string());
    assert_eq!(
        set_up.next(prep::tools::cargo::Event::Rustup(rustup.clone())),
        prep::tools::cargo::Action::Install(Cargo::install_command(
            &rustup,
            "1.93",
            &strings(&["clippy"])
        ))
    );
    assert_eq!(
        set_up.next(prep::tools::cargo::Event::Exited(Some(0))),
        prep::tools::cargo::Action::Verify(cargo.clone())
    );
    assert_eq!(
        set_up.next(prep::tools::cargo::Event::Verified(Some(Version::new(1, 93, 1)))),
        prep::tools::cargo::Action::Finish(cargo, Version::new(1, 93, 1))
    );
    assert_eq!(set_up.phase(), prep::tools::cargo::Phase::Done);
    assert_eq!(
        set_up.next(prep::tools::cargo::Event::Exited(Some(0))),
        prep::tools::cargo::Action::Fail(Error::UnexpectedEvent)
    );
}

#[test]
fn cargo_set_up_stops_when_it_cannot_go_on() {
    let rustup = tools().binctx("/bin/rustup".to_string());
    let mut set_up = cargo_begun();
    set_up.next(prep::tools::cargo::Event::Rustup(rustup.clone()));
    assert_eq!(
        set_up.next(prep::tools::cargo::Event::Exited(Some(1))),
        prep::tools::cargo::Action::Fail(Error::ExitFailure {
            program: "/bin/rustup".to_string(),
            code: Some(1),
        })
    );
    let mut set_up = cargo_begun();
    set_up.next(prep::tools::cargo::Event::Rustup(rustup));
    set_up.next(prep::tools::cargo::Event::Exited(Some(0)));
    assert_eq!(
        set_up.next(prep::tools::cargo::Event::Verified(None)),
        prep::tools::cargo::Action::Fail(Error::NotFoundAfterInstall {
            path: "cargo".to_string(),
        })
    );
    let mut set_up = cargo_begun();
    assert_eq!(
        set_up.next(prep::tools::cargo::Event::Verified(Some(Version::new(1, 93, 0)))),
        prep::tools::cargo::Action::Fail(Error::UnexpectedEvent)
    );
}

#[test]
fn cargo_binctx_selects_the_toolchain_in_the_environment() {
    let binctx = Cargo::binctx(&tools(), "1.93".to_string());
    assert_eq!(binctx.path(), "cargo");
    assert_eq!(binctx.working_dir(), "work");
    assert_eq!(binctx.environment(), &Environment::new().rust(Some("1.93".to_string())));
    assert!(binctx.base_args().is_empty());
}

#[test]
fn default_dependencies_ask_for_nothing() {
    assert_eq!(CargoDeps::default(), CargoDeps::new(None, Vec::new()));
    assert_eq!(RustfmtDeps::default().cargo_ver_req(), None);
    assert_eq!(ClippyDeps::default().cargo_ver_req(), None);
    assert_eq!(RipgrepDeps::default().cargo_ver_req(), None);
    assert_eq!(RipgrepDeps::default().cargo_deps(), &CargoDeps::default());
}

#[test]
fn rustfmt_and_clippy_run_through_cargo() {
    let cargo = Cargo::binctx(&tools(), "1.93".to_string());
    let rustfmt = Rustfmt::binctx(cargo.clone());
    assert_eq!(rustfmt, cargo.clone().args(strings(&["fmt"])));
    let clippy = Clippy::binctx(cargo.clone());
    assert_eq!(clippy, cargo.args(strings(&["clippy"])));
    let deps = RustfmtDeps::new(CargoDeps::new(None, strings(&["rustfmt"])), Some(req("=1.93")));
    assert_eq!(deps.cargo_ver_req(), Some(&req("=1.93")));
    assert_eq!(deps.set_up_cargo_ver_req(), &req("=1.93"));
    assert_eq!(deps.cargo_deps().components(), &strings(&["rustfmt"]));
    let deps = ClippyDeps::new(CargoDeps::new(None, strings(&["clippy"])), Some(req("=1.93")));
    assert_eq!(deps.cargo_ver_req(), Some(&req("=1.93")));
    assert_eq!(deps.cargo_deps().components(), &strings(&["clippy"]));
}

#[test]
fn rustup_verify_accepts_the_first_major_version_only() {
    assert_eq!(verify(&exited(Some(0), "rustup 1.28.2 (2025-04-28)\n", "")), Ok(true));
    assert_eq!(verify(&ProbeOutput::NotFound), Ok(false));
    assert_eq!(
        verify(&ProbeOutput::Failed),
        Err(Error::RunFailed { program: "rustup".to_string() })
    );
    assert_eq!(
        verify(&exited(Some(1), "rustup 1.28.2", "")),
        Err(Error::ExitFailure { program: "rustup".to_string(), code: Some(1) })
    );
    assert_eq!(
        verify(&exited(Some(0), "rustup 2.0.0\n", "")),
        Err(Error::UnexpectedRustup { output: "rustup 2.0.0\n".to_string() })
    );
    assert_eq!(
        verify(&exited(Some(0), "rustup", "")),
        Err(Error::UnexpectedRustup { output: "rustup".to_string() })
    );
    let bad = ProbeOutput::Exited { code: Some(0), stdout: vec![0x80], stderr: Vec::new() };
    assert_eq!(verify(&bad), Err(Error::InvalidUtf8 { program: "rustup".to_string() }));
    assert_eq!(set_up(true), Ok(()));
    assert_eq!(set_up(false), Err(Error::RustupNotFound));
    assert_eq!(prep::tools::rustup::version_query().program(), "rustup");
    assert_eq!(prep::tools::rustup::version_query().arguments(), &strings(&["-V"]));
}

#[test]
fn ripgrep_version_of_needs_a_full_exact_version() {
    assert_eq!(Ripgrep::version_of(&req("=14.1.1")), Ok(Version::new(14, 1, 1)));
    for text in ["=14.1", "=14", "^14.1.1", "14.1.1", "=14.1.1-rc", "=14.1.1, =14.1.1", "*"] {
        assert_eq!(Ripgrep::version_of(&req(text)), Err(unsupported("ripgrep", text)), "{}", text);
    }
}

#[test]
fn ripgrep_layout_lies_below_the_tools_directory() {
    let layout = Layout::new(&tools(), &Version::new(14, 1, 1), false);
    assert_eq!(
        layout,
        Layout {
            install_dir: "tools/ripgrep/14.1.1".to_string(),
            temp_dir: "tools/temp-ripgrep".to_string(),
            bin_src_dir: "tools/temp-ripgrep/bin".to_string(),
            bin_src: "tools/temp-ripgrep/bin/rg".to_string(),
            bin_dst: "tools/ripgrep/14.1.1/rg".to_string(),
            manifest_a: "tools/temp-ripgrep/.crates.toml".to_string(),
            manifest_b: "tools/temp-ripgrep/.crates2.json".to_string(),
        }
    );
    let layout = Layout::new(&tools(), &Version::new(14, 1, 1), true);
    assert_eq!(layout.bin_src, "tools/temp-ripgrep/bin/rg.exe");
    assert_eq!(layout.bin_dst, "tools/ripgrep/14.1.1/rg.exe");
}

#[test]
fn ripgrep_install_command_installs_into_the_given_root() {
    let cargo = Cargo::binctx(&tools(), "1.93".to_string());
    let cmd = Ripgrep::install_command(&cargo, &Version::new(14, 1, 1), "tools/temp-ripgrep");
    assert_eq!(cmd.program(), "cargo");
    assert_eq!(
        cmd.arguments(),
        &strings(&[
            "install",
            "ripgrep",
            "--locked",
            "--version",
            "14.1.1",
            "--root",
            "tools/temp-ripgrep",
        ])
    );
    assert_eq!(cmd.envs()[1], ("RUSTUP_TOOLCHAIN".to_string(), "1.93".to_string()));
}

fn begun() -> SetUp {
    let (set_up, first) = SetUp::begin(&tools(), &req("=14.1.1"), false).unwrap();
    assert_eq!(first, Action::CheckInstallDir);
    assert_eq!(set_up.phase(), Phase::InstallDir);
    assert_eq!(set_up.version(), &Version::new(14, 1, 1));
    assert_eq!(set_up.layout(), &Layout::new(&tools(), &Version::new(14, 1, 1), false));
    set_up
}

/// A set-up that has just been told that Cargo has installed ripgrep.
fn staged() -> SetUp {
    let mut set_up = begun();
    set_up.next(Event::Dir { exists: false, empty: false });
    set_up.next(Event::Done);
    set_up.next(Event::Cargo(tools().binctx("cargo".to_string())));
    set_up.next(Event::Dir { exists: false, empty: false });
    assert_eq!(set_up.next(Event::Exited(Some(0))), Action::CheckBinSrc);
    set_up
}

#[test]
fn ripgrep_set_up_refuses_other_requirements_before_anything_is_done() {
    assert_eq!(
        SetUp::begin(&tools(), &req("^14"), false).err(),
        Some(unsupported("ripgrep", "^14"))
    );
    assert_eq!(
        SetUp::begin(&tools(), &req(">=14.1.1, <15"), false).err(),
        Some(unsupported("ripgrep", ">=14.1.1, <15"))
    );
}

#[test]
fn ripgrep_set_up_goes_through_every_step() {
    let mut set_up = begun();
    let cargo = tools().binctx("cargo".to_string());
    let dst = tools().binctx("tools/ripgrep/14.1.1/rg".to_string());
    assert_eq!(set_up.next(Event::Dir { exists: false, empty: false }), Action::CreateInstallDir);
    assert_eq!(set_up.next(Event::Done), Action::GetCargo);
    assert_eq!(set_up.next(Event::Cargo(cargo.clone())), Action::CheckTempDir);
    assert_eq!(
        set_up.next(Event::Dir { exists: false, empty: false }),
        Action::Install(Ripgrep::install_command(
            &cargo,
            &Version::new(14, 1, 1),
            "tools/temp-ripgrep"
        ))
    );
    assert_eq!(set_up.next(Event::Exited(Some(0))), Action::CheckBinSrc);
    assert_eq!(set_up.next(Event::Exists(true)), Action::CheckBinDst);
    assert_eq!(set_up.next(Event::Exists(false)), Action::CopyBinary);
    assert_eq!(set_up.next(Event::Done), Action::RemoveBinSrc);
    assert_eq!(set_up.next(Event::Done), Action::RemoveBinSrcDir);
    assert_eq!(set_up.next(Event::Done), Action::RemoveManifestA);
    assert_eq!(set_up.next(Event::Done), Action::RemoveManifestB);
    assert_eq!(set_up.next(Event::Done), Action::RemoveTempDir);
    assert_eq!(set_up.next(Event::Done), Action::Verify(dst.clone()));
    assert_eq!(set_up.phase(), Phase::Verify);
    assert_eq!(
        set_up.next(Event::Verified(Some(Version::new(14, 1, 1)))),
        Action::Finish(dst, Version::new(14, 1, 1))
    );
    assert_eq!(set_up.phase(), Phase::Done);
    assert_eq!(set_up.next(Event::Done), Action::Fail(Error::UnexpectedEvent));
}

#[test]
fn ripgrep_set_up_uses_an_empty_install_directory_as_it_is() {
    let mut set_up = begun();
    assert_eq!(set_up.next(Event::Dir { exists: true, empty: true }), Action::GetCargo);
    assert_eq!(set_up.phase(), Phase::Cargo);
}

#[test]
fn ripgrep_set_up_stops_at_directories_in_use() {
    let mut set_up = begun();
    assert_eq!(
        set_up.next(Event::Dir { exists: true, empty: false }),
        Action::Fail(Error::InstallDirTaken {
            tool: "ripgrep".to_string(),
            path: "tools/ripgrep/14.1.1".to_string(),
        })
    );
    assert_eq!(set_up.phase(), Phase::Done);

    let mut set_up = begun();
    set_up.next(Event::Dir { exists: true, empty: true });
    set_up.next(Event::Cargo(tools().binctx("cargo".to_string())));
    assert_eq!(
        set_up.next(Event::Dir { exists: true, empty: false }),
        Action::Fail(Error::TempDirTaken {
            tool: "ripgrep".to_string(),
            path: "tools/temp-ripgrep".to_string(),
        })
    );
}

#[test]
fn ripgrep_set_up_stops_at_a_staging_directory_that_exists_even_if_empty() {
    let mut set_up = begun();
    set_up.next(Event::Dir { exists: false, empty: false });
    set_up.next(Event::Done);
    set_up.next(Event::Cargo(tools().binctx("cargo".to_string())));
    assert_eq!(
        set_up.next(Event::Dir { exists: true, empty: true }),
        Action::Fail(Error::TempDirTaken {
            tool: "ripgrep".to_string(),
            path: "tools/temp-ripgrep".to_string(),
        })
    );
    assert_eq!(set_up.phase(), Phase::Done);
    assert_eq!(set_up.next(Event::Exited(Some(0))), Action::Fail(Error::UnexpectedEvent));
}

#[test]
fn ripgrep_set_up_stops_when_the_install_fails() {
    let mut set_up = begun();
    set_up.next(Event::Dir { exists: true, empty: true });
    set_up.next(Event::Cargo(tools().binctx("/bin/cargo".to_string())));
    set_up.next(Event::Dir { exists: false, empty: false });
    assert_eq!(
        set_up.next(Event::Exited(Some(101))),
        Action::Fail(Error::ExitFailure { program: "/bin/cargo".to_string(), code: Some(101) })
    );
    assert_eq!(set_up.phase(), Phase::Done);
}

#[test]
fn ripgrep_set_up_overwrites_no_binary() {
    let mut set_up = staged();
    assert_eq!(
        set_up.next(Event::Exists(false)),
        Action::Fail(Error::BinaryMissing {
            tool: "ripgrep".to_string(),
            path: "tools/temp-ripgrep/bin/rg".to_string(),
        })
    );
    let mut set_up = staged();
    set_up.next(Event::Exists(true));
    assert_eq!(
        set_up.next(Event::Exists(true)),
        Action::Fail(Error::BinaryTaken {
            tool: "ripgrep".to_string(),
            path: "tools/ripgrep/14.1.1/rg".to_string(),
        })
    );
}

#[test]
fn ripgrep_set_up_fails_if_the_installed_binary_is_gone() {
    let mut set_up = staged();
    set_up.next(Event::Exists(true));
    set_up.next(Event::Exists(false));
    for _ in 0..6 {
        set_up.next(Event::Done);
    }
    assert_eq!(set_up.phase(), Phase::Verify);
    assert_eq!(
        set_up.next(Event::Verified(None)),
        Action::Fail(Error::NotFoundAfterInstall { path: "tools/ripgrep/14.1.1/rg".to_string() })
    );
}

#[test]
fn ripgrep_set_up_fails_on_an_answer_that_it_did_not_wait_for() {
    let mut set_up = begun();
    assert_eq!(set_up.next(Event::Done), Action::Fail(Error::UnexpectedEvent));
    assert_eq!(set_up.phase(), Phase::Done);
    let mut set_up = staged();
    assert_eq!(
        set_up.next(Event::Verified(Some(Version::new(14, 1, 1)))),
        Action::Fail(Error::UnexpectedEvent)
    );
}
