use vstd::prelude::*;
use crate::requirement::{ComparatorView, VersionReq};
use crate::version::{Version, VersionView};

verus! {

/// The mathematical value of an [`Error`].
pub enum ErrorView {
    UnsupportedRequirement { tool: Seq<char>, requirement: Seq<ComparatorView> },
    VersionMismatch {
        tool: Seq<char>,
        path: Seq<char>,
        requirement: Seq<ComparatorView>,
        actual: VersionView,
    },
    NotFoundAfterInstall { path: Seq<char> },
    RunFailed { program: Seq<char> },
    ExitFailure { program: Seq<char>, code: Option<i32> },
    InvalidUtf8 { program: Seq<char> },
    EmptyOutput { program: Seq<char> },
    NoVersion { program: Seq<char> },
    InvalidVersion { program: Seq<char>, text: Seq<char> },
    RustupNotFound,
    UnexpectedRustup { output: Seq<char> },
    InstallDirTaken { tool: Seq<char>, path: Seq<char> },
    TempDirTaken { tool: Seq<char>, path: Seq<char> },
    BinaryMissing { tool: Seq<char>, path: Seq<char> },
    BinaryTaken { tool: Seq<char>, path: Seq<char> },
    NotADirectory { path: Seq<char> },
    UnexpectedEvent,
    Other { message: Seq<char> },
}

/// Why a tool could not be resolved, probed or set up.
#[derive(Debug, PartialEq, Eq)]
pub enum Error {
    /// A version requirement has a shape that the tool cannot install from.
    UnsupportedRequirement { tool: String, requirement: VersionReq },
    /// A binary exists but its version does not satisfy the requirement.
    VersionMismatch { tool: String, path: String, requirement: VersionReq, actual: Version },
    /// A set-up claimed success, but the binary that it made is not there.
    NotFoundAfterInstall { path: String },
    /// The program could not be started.
    RunFailed { program: String },
    /// The program ran and reported failure; `code` is its exit code, if it had one.
    ExitFailure { program: String, code: Option<i32> },
    /// The program's output is not UTF-8.
    InvalidUtf8 { program: String },
    /// The program printed nothing.
    EmptyOutput { program: String },
    /// The first line of the program's output holds no version.
    NoVersion { program: String },
    /// What stands for the version in the program's output is not a version.
    InvalidVersion { program: String, text: String },
    /// There is no rustup on this machine.
    RustupNotFound,
    /// The rustup on this machine is not of the first major version.
    UnexpectedRustup { output: String },
    /// The directory to install into exists and is not empty.
    InstallDirTaken { tool: String, path: String },
    /// The staging directory exists already: it is neither used nor removed.
    TempDirTaken { tool: String, path: String },
    /// The installer left no binary where one was expected.
    BinaryMissing { tool: String, path: String },
    /// A binary already stands where the new one should go.
    BinaryTaken { tool: String, path: String },
    /// Something that is no directory stands where a directory is needed.
    NotADirectory { path: String },
    /// A set-up was told of something that it had not asked for.
    UnexpectedEvent,
    /// A failure outside the library, such as one of the file system.
    Other { message: String },
}

impl View for Error {
    type V = ErrorView;

    open spec fn view(&self) -> ErrorView {
        match *self {
            Error::UnsupportedRequirement { tool, requirement } => {
                ErrorView::UnsupportedRequirement { tool: tool@, requirement: requirement@ }
            },
            Error::VersionMismatch { tool, path, requirement, actual } => {
                ErrorView::VersionMismatch {
                    tool: tool@,
                    path: path@,
                    requirement: requirement@,
                    actual: actual@,
                }
            },
            Error::NotFoundAfterInstall { path } => ErrorView::NotFoundAfterInstall { path: path@ },
            Error::RunFailed { program } => ErrorView::RunFailed { program: program@ },
            Error::ExitFailure { program, code } => ErrorView::ExitFailure {
                program: program@,
                code,
            },
            Error::InvalidUtf8 { program } => ErrorView::InvalidUtf8 { program: program@ },
            Error::EmptyOutput { program } => ErrorView::EmptyOutput { program: program@ },
            Error::NoVersion { program } => ErrorView::NoVersion { program: program@ },
            Error::InvalidVersion { program, text } => ErrorView::InvalidVersion {
                program: program@,
                text: text@,
            },
            Error::RustupNotFound => ErrorView::RustupNotFound,
            Error::UnexpectedRustup { output } => ErrorView::UnexpectedRustup { output: output@ },
            Error::InstallDirTaken { tool, path } => ErrorView::InstallDirTaken {
                tool: tool@,
                path: path@,
            },
            Error::TempDirTaken { tool, path } => ErrorView::TempDirTaken {
                tool: tool@,
                path: path@,
            },
            Error::BinaryMissing { tool, path } => ErrorView::BinaryMissing {
                tool: tool@,
                path: path@,
            },
            Error::BinaryTaken { tool, path } => ErrorView::BinaryTaken {
                tool: tool@,
                path: path@,
            },
            Error::NotADirectory { path } => ErrorView::NotADirectory { path: path@ },
            Error::UnexpectedEvent => ErrorView::UnexpectedEvent,
            Error::Other { message } => ErrorView::Other { message: message@ },
        }
    }
}

} // verus!
