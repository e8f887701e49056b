use vstd::prelude::*;
use crate::environment::{ordered, Environment};
use crate::invocation::{Invocation, InvocationView};
use crate::error::{Error, ErrorView};
use crate::requirement::{admits, ComparatorView, VersionReq};
use crate::text::{clone_strings, first_line_of, has_substring, same_strings, strings};
use crate::toolset::{cached, Toolset};
use crate::version::{version_parse, Version, VersionView};
use vstd::utf8::{decode_utf8, valid_utf8};

pub mod cargo;
pub mod clippy;
pub mod ripgrep;
pub mod rustfmt;
pub mod rustup;

verus! {

/// The mathematical value of a [`BinCtx`].
pub struct BinCtxView {
    pub path: Seq<char>,
    pub working_dir: Seq<char>,
    pub environment: Map<Seq<char>, Seq<char>>,
    pub args: Seq<Seq<char>>,
}

impl BinCtxView {
    /// The process that runs the binary: in the context's working directory, with every
    /// variable of its environment set, and with its base arguments first.
    pub open spec fn cmd(self) -> InvocationView {
        InvocationView {
            program: self.path,
            working_dir: Some(self.working_dir),
            envs: ordered(self.environment),
            args: self.args,
        }
    }
}

/// Binary executable context: how to invoke one binary, without invoking it.
#[derive(Debug, PartialEq, Eq, Hash)]
pub struct BinCtx {
    path: String,
    working_dir: String,
    environment: Environment,
    args: Vec<String>,
}

impl View for BinCtx {
    type V = BinCtxView;

    closed spec fn view(&self) -> BinCtxView {
        BinCtxView {
            path: self.path@,
            working_dir: self.working_dir@,
            environment: self.environment@,
            args: strings(self.args@),
        }
    }
}

impl Clone for BinCtx {
    fn clone(&self) -> (r: Self)
        ensures
            r@ == self@,
    {
        BinCtx {
            path: self.path.clone(),
            working_dir: self.working_dir.clone(),
            environment: self.environment.clone(),
            args: clone_strings(&self.args),
        }
    }
}

impl BinCtx {
    /// Creates a new binary executable context, with no base arguments.
    pub fn new(path: String, working_dir: String, environment: Environment) -> (r: BinCtx)
        ensures
            r@ == (BinCtxView {
                path: path@,
                working_dir: working_dir@,
                environment: environment@,
                args: Seq::empty(),
            }),
    {
        let r = BinCtx { path, working_dir, environment, args: Vec::new() };
        assert(r@.args =~= Seq::empty());
        r
    }

    /// Returns the binary context with the given base arguments in place of those it had.
    pub fn args(self, args: Vec<String>) -> (r: BinCtx)
        ensures
            r@ == (BinCtxView { args: strings(args@), ..self@ }),
    {
        BinCtx {
            path: self.path,
            working_dir: self.working_dir,
            environment: self.environment,
            args,
        }
    }

    /// Creates the description of the process that runs this binary: in the context's
    /// working directory, with every variable of its environment set, and with its base
    /// arguments first.
    pub fn cmd(&self) -> (r: Invocation)
        ensures
            r@ == self@.cmd(),
    {
        let mut cmd = Invocation::new(self.path.as_str());
        cmd.current_dir(self.working_dir.as_str());
        self.environment.apply(&mut cmd);
        cmd.args(&self.args);
        assert(cmd@.envs =~= ordered(self@.environment));
        assert(cmd@.args =~= self@.args);
        cmd
    }

    /// Returns the underlying binary path.
    pub fn path(&self) -> (r: &str)
        ensures
            r@ == self@.path,
    {
        self.path.as_str()
    }

    /// Returns the directory in which the binary runs.
    pub fn working_dir(&self) -> (r: &str)
        ensures
            r@ == self@.working_dir,
    {
        self.working_dir.as_str()
    }

    /// Returns the environment in which the binary runs.
    pub fn environment(&self) -> (r: &Environment)
        ensures
            r@ == self@.environment,
    {
        &self.environment
    }

    /// Returns the base arguments.
    pub fn base_args(&self) -> (r: &Vec<String>)
        ensures
            strings(r@) == self@.args,
    {
        &self.args
    }

    /// Whether both contexts are equal in every field.
    pub fn same(&self, other: &BinCtx) -> (r: bool)
        ensures
            r == (self@ == other@),
    {
        self.path == other.path && self.working_dir == other.working_dir
            && self.environment.same(&other.environment) && same_strings(&self.args, &other.args)
    }
}

/// The pattern of the first line that a tool prints when asked for its version: the name of
/// the program, white space, and the version, which begins with three numbers.
pub const VERSION_PATTERN: &'static str = r"^\S+\s+(\d+\.\d+\.\d+[^\s]*)";

/// The flag that asks a tool for its version.
pub const VERSION_FLAG: &'static str = "--version";

/// What the first capture group of the regular expression `pattern` holds in the leftmost
/// match in `text`, as the `regex` crate finds it; `None` where the pattern is not valid,
/// where it matches nowhere, and where the group takes no part in the match.
pub uninterp spec fn regex_first_group(pattern: Seq<char>, text: Seq<char>) -> Option<Seq<char>>;

/// Compiles `pattern` with `regex::Regex::new`, searches `text` with `Regex::captures` and
/// takes the text of group 1 with `Captures::get`. The contract names the result.
#[verifier::external_body]
fn first_group_outside(pattern: &str, text: &str) -> (r: Option<String>)
    ensures
        r is None <==> regex_first_group(pattern@, text@) is None,
        r matches Some(group) ==> regex_first_group(pattern@, text@) == Some(group@),
{
    let found = regex::Regex::new(pattern).ok()?.captures(text)?.get(1)?;
    Some(found.as_str().to_string())
}

/// How the run of a tool that was asked for its version ended.
#[derive(Debug, PartialEq, Eq)]
pub enum ProbeOutput {
    /// There is no such program.
    NotFound,
    /// The program could not be started for another reason.
    Failed,
    /// The program ran. `code` is its exit code, if it had one; zero is success.
    Exited { code: Option<i32>, stdout: Vec<u8>, stderr: Vec<u8> },
}

/// Whether the text that a program wrote to its standard error stream says that the
/// program is not installed, as rustup's proxies say of a missing component.
pub open spec fn says_not_installed(text: Seq<char>) -> bool {
    has_substring(text, "error"@) && has_substring(text, "is not installed"@)
}

/// The version that the output of a tool holds: the first capture group of
/// [`VERSION_PATTERN`] in the first line, read as a version.
pub open spec fn version_in(program: Seq<char>, text: Seq<char>) -> Result<
    Option<VersionView>,
    ErrorView,
> {
    match first_line_of(text) {
        None => Err(ErrorView::EmptyOutput { program }),
        Some(line) => match regex_first_group(VERSION_PATTERN@, line) {
            None => Err(ErrorView::NoVersion { program }),
            Some(token) => match version_parse(token) {
                None => Err(ErrorView::InvalidVersion { program, text: token }),
                Some(version) => Ok(Some(version)),
            },
        },
    }
}

/// What the run of `program` with the version flag says of its version: nothing where the
/// program does not exist or says that it is not installed, an error where it could not be
/// run, failed or printed no version, and else the version.
pub open spec fn probe_result(program: Seq<char>, output: ProbeOutput) -> Result<
    Option<VersionView>,
    ErrorView,
> {
    match output {
        ProbeOutput::NotFound => Ok(None),
        ProbeOutput::Failed => Err(ErrorView::RunFailed { program }),
        ProbeOutput::Exited { code, stdout, stderr } => {
            if code == Some(1i32) && !valid_utf8(stderr@) {
                Err(ErrorView::InvalidUtf8 { program })
            } else if code == Some(1i32) && says_not_installed(decode_utf8(stderr@)) {
                Ok(None)
            } else if code != Some(0i32) {
                Err(ErrorView::ExitFailure { program, code })
            } else if !valid_utf8(stdout@) {
                Err(ErrorView::InvalidUtf8 { program })
            } else {
                version_in(program, decode_utf8(stdout@))
            }
        },
    }
}

/// The value of the result of a probe: the version that was found, if one was, or the
/// error.
pub open spec fn result_view(r: Result<Option<Version>, Error>) -> Result<
    Option<VersionView>,
    ErrorView,
> {
    match r {
        Ok(Some(version)) => Ok(Some(version@)),
        Ok(None) => Ok(None),
        Err(e) => Err(e@),
    }
}

/// Describes the process that asks the binary of the context for its version.
pub fn version_query(binctx: &BinCtx) -> (r: Invocation)
    ensures
        r@ == binctx@.cmd().with_args(seq![VERSION_FLAG@]),
{
    let mut cmd = binctx.cmd();
    cmd.arg(VERSION_FLAG);
    cmd
}

/// Finds the version in the text that a tool printed when asked for it.
pub fn version_from_text(program: &str, text: &str) -> (r: Result<Option<Version>, Error>)
    ensures
        result_view(r) == version_in(program@, text@),
{
    let line = match crate::text::first_line(text) {
        Some(line) => line,
        None => {
            return Err(Error::EmptyOutput { program: String::from_str(program) });
        },
    };
    let token = match first_group_outside(VERSION_PATTERN, line.as_str()) {
        Some(token) => token,
        None => {
            return Err(Error::NoVersion { program: String::from_str(program) });
        },
    };
    match Version::parse(token.as_str()) {
        Some(version) => Ok(Some(version)),
        None => Err(Error::InvalidVersion { program: String::from_str(program), text: token }),
    }
}

/// Says what the run of `program` with the version flag tells of its version.
///
/// Returns `None` if the program doesn't exist, and also if it ended with exit code 1 and
/// said that it is not installed.
pub fn version_from_output(program: &str, output: &ProbeOutput) -> (r: Result<
    Option<Version>,
    Error,
>)
    ensures
        result_view(r) == probe_result(program@, *output),
{
    match output {
        ProbeOutput::NotFound => Ok(None),
        ProbeOutput::Failed => Err(Error::RunFailed { program: String::from_str(program) }),
        ProbeOutput::Exited { code, stdout, stderr } => {
            let succeeded = match code {
                Some(code) => *code == 0,
                None => false,
            };
            let ended_with_one = match code {
                Some(code) => *code == 1,
                None => false,
            };
            if ended_with_one {
                let error = match crate::text::decode(stderr) {
                    Some(error) => error,
                    None => {
                        return Err(Error::InvalidUtf8 { program: String::from_str(program) });
                    },
                };
                if crate::text::contains(error.as_str(), "error") && crate::text::contains(
                    error.as_str(),
                    "is not installed",
                ) {
                    return Ok(None);
                }
            }
            if !succeeded {
                return Err(Error::ExitFailure { program: String::from_str(program), code: *code });
            }
            match crate::text::decode(stdout) {
                Some(text) => version_from_text(program, text.as_str()),
                None => Err(Error::InvalidUtf8 { program: String::from_str(program) }),
            }
        },
    }
}

/// Says whether a program that ended with the exit code `code` succeeded: only the code
/// zero is a success, and a program that had no exit code failed.
pub fn check_status(program: &str, code: Option<i32>) -> (r: Result<(), Error>)
    ensures
        code == Some(0i32) ==> r is Ok,
        code != Some(0i32) ==> (r matches Err(e) && e@ == (ErrorView::ExitFailure {
            program: program@,
            code,
        })),
{
    match code {
        Some(0) => Ok(()),
        _ => Err(Error::ExitFailure { program: String::from_str(program), code }),
    }
}

/// Ends a set-up with what the verification of the fresh binary found: the context and its
/// version, or an error where the binary that was just installed is not there.
pub fn installed(binctx: BinCtx, found: Option<Version>) -> (r: Result<(BinCtx, Version), Error>)
    ensures
        found matches Some(version) ==> (r matches Ok(pair) && pair.0@ == binctx@ && pair.1@
            == version@),
        found is None ==> (r matches Err(e) && e@ == (ErrorView::NotFoundAfterInstall {
            path: binctx@.path,
        })),
{
    match found {
        Some(version) => Ok((binctx, version)),
        None => Err(Error::NotFoundAfterInstall { path: String::from_str(binctx.path()) }),
    }
}

/// The base arguments of a context come before whatever arguments the caller adds to
/// the process that runs its binary.
pub proof fn lemma_base_arguments_come_first(binctx: BinCtxView, more: Seq<Seq<char>>)
    ensures
        binctx.cmd().with_args(more).args == binctx.args + more,
        binctx.cmd().with_args(more).program == binctx.path,
        binctx.cmd().with_args(more).working_dir == Some(binctx.working_dir),
        binctx.cmd().with_args(more).envs == ordered(binctx.environment),
{
}

/// A requirement of several comparators is of none of the shapes that a tool can be
/// installed from: it is refused, and no comparator is picked from it.
pub proof fn lemma_several_comparators_are_refused(comparators: Seq<ComparatorView>)
    requires
        comparators.len() != 1,
    ensures
        !cargo::is_toolchain_requirement(comparators),
        !ripgrep::is_version_requirement(comparators),
{
}

/// A command-line tool that the toolset can resolve.
///
/// An implementation says what the tool is called and how its binary is probed and set up.
/// The toolset calls it while it resolves a request, and hands itself over, so that the set-up
/// of one tool can ask the toolset for another.
pub trait Tool: Sized {
    /// The type describing the dependencies of this tool.
    type Deps;

    /// The name of the tool, used for display, in the manifest, and to tell the probed
    /// binaries of one tool from those of another.
    const NAME: &'static str;

    /// The executable name, which is the path of the default context.
    const BIN: &'static str;

    /// Whether the tool installation is managed by the toolset.
    const MANAGED: bool;

    /// Returns the default binary context for this tool: unless the tool says otherwise,
    /// its executable name in the toolset's working directory and environment.
    fn default_binctx(&mut self, toolset: &mut Toolset, deps: &Self::Deps) -> (r: Result<
        BinCtx,
        Error,
    >)
        default_ensures
            r matches Ok(binctx) && binctx@ == old(toolset)@.context_at(Self::BIN@),
            final(toolset)@ == old(toolset)@,
            *final(self) == *old(self),
    {
        Ok(toolset.binctx(String::from_str(Self::BIN)))
    }

    /// Sets up a version of the tool that meets the given `ver_req`.
    ///
    /// Returns the binary context and its specific version.
    ///
    /// Implementations must call [`Toolset::verify`] on the context that they return, to
    /// ensure that the set-up succeeded: the context is then known to the toolset as this
    /// tool, with the returned version, which satisfies the requirement.
    fn set_up(&mut self, toolset: &mut Toolset, deps: &Self::Deps, ver_req: &VersionReq) -> (r:
        Result<(BinCtx, Version), Error>)
        ensures
            r matches Ok((binctx, version)) ==> admits(ver_req@, version@) && cached(
                final(toolset)@.bins,
                binctx@,
                Self::NAME@,
            ) == Some(version@),
    ;

    /// Returns the [`Version`] that the binary of the given context reports.
    ///
    /// Returns `None` if the binary doesn't exist.
    fn extract_version(&mut self, binctx: &BinCtx) -> (r: Result<Option<Version>, Error>);
}

} // verus!
