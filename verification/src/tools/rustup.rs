use vstd::prelude::*;
use vstd::utf8::{decode_utf8, valid_utf8};
use crate::error::{Error, ErrorView};
use crate::invocation::{Invocation, InvocationView};
use crate::text::has_prefix;
use crate::tools::ProbeOutput;

verus! {

/// The toolchain manager. The toolset does not install it: the user does.
pub struct Rustup;

impl Rustup {
    /// The name of the tool.
    pub const NAME: &'static str = "rustup";

    /// The binary executable name.
    pub const BIN: &'static str = "rustup";

    /// Rustup is installed by the user: the toolset keeps no record of it.
    pub const MANAGED: bool = false;
}

/// What the user is told where rustup is missing.
pub const MISSING_HELP: &'static str =
    "Prep requires rustup v1 to function.\n\nThere is no automatic setup implemented for it, sorry.\nPlease go to https://rustup.rs/ and install it manually.\n\nIf you already have rustup installed then this error here is probably a bug.\nPlease report it at https://github.com/Nevermore/prep\n";

/// How the output of every rustup of the first major version begins.
pub const V1_PREFIX: &'static str = "rustup 1.";

/// What the run of `rustup -V` says: `true` for a rustup of the first major version, `false`
/// where there is no rustup, and an error where rustup could not be run, failed, or is of
/// another version.
pub open spec fn verified(output: ProbeOutput) -> Result<bool, ErrorView> {
    match output {
        ProbeOutput::NotFound => Ok(false),
        ProbeOutput::Failed => Err(ErrorView::RunFailed { program: Rustup::BIN@ }),
        ProbeOutput::Exited { code, stdout, stderr } => {
            if code != Some(0i32) {
                Err(ErrorView::ExitFailure { program: Rustup::BIN@, code })
            } else if !valid_utf8(stdout@) {
                Err(ErrorView::InvalidUtf8 { program: Rustup::BIN@ })
            } else if !has_prefix(decode_utf8(stdout@), V1_PREFIX@) {
                Err(ErrorView::UnexpectedRustup { output: decode_utf8(stdout@) })
            } else {
                Ok(true)
            }
        },
    }
}

/// The value of the result of [`verify`].
pub open spec fn verify_view(r: Result<bool, Error>) -> Result<bool, ErrorView> {
    match r {
        Ok(found) => Ok(found),
        Err(e) => Err(e@),
    }
}

/// Describes the run of rustup that asks for its version.
pub fn version_query() -> (r: Invocation)
    ensures
        r@ == (InvocationView {
            program: Rustup::BIN@,
            working_dir: None,
            envs: Seq::empty(),
            args: seq!["-V"@],
        }),
{
    let mut cmd = Invocation::new(Rustup::BIN);
    cmd.arg("-V");
    assert(cmd@.args =~= seq!["-V"@]);
    cmd
}

/// Ensures that rustup is installed and ready to use, given whether it was found: a missing
/// rustup is an error, since nothing here can install it.
pub fn set_up(found: bool) -> (r: Result<(), Error>)
    ensures
        found ==> r is Ok,
        !found ==> (r matches Err(e) && e@ == ErrorView::RustupNotFound),
{
    if found {
        Ok(())
    } else {
        Err(Error::RustupNotFound)
    }
}

/// Returns `true` if the run of `rustup -V` shows that rustup v1 was found, `false` if no
/// rustup was found.
///
/// Other versions will return an error.
pub fn verify(output: &ProbeOutput) -> (r: Result<bool, Error>)
    ensures
        verify_view(r) == verified(*output),
{
    match output {
        ProbeOutput::NotFound => Ok(false),
        ProbeOutput::Failed => Err(Error::RunFailed { program: String::from_str(Rustup::BIN) }),
        ProbeOutput::Exited { code, stdout, stderr } => {
            let succeeded = match code {
                Some(code) => *code == 0,
                None => false,
            };
            if !succeeded {
                return Err(
                    Error::ExitFailure { program: String::from_str(Rustup::BIN), code: *code },
                );
            }
            match crate::text::decode(stdout) {
                None => Err(Error::InvalidUtf8 { program: String::from_str(Rustup::BIN) }),
                Some(version) => {
                    if crate::text::starts_with(version.as_str(), V1_PREFIX) {
                        Ok(true)
                    } else {
                        Err(Error::UnexpectedRustup { output: version })
                    }
                },
            }
        },
    }
}

} // verus!
