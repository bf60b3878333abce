//! What can go wrong in a build, and how it is told to the user.

use crate::text::{decimal, decimal_of};
use vstd::prelude::*;
use vstd::string::*;

verus! {

/// The four classes of failure.
#[derive(Clone, Copy, Debug, PartialEq, Eq, Structural)]
pub enum ErrorKind {
    /// The configuration or the command line does not allow the build:
    /// fatal before any process is started.
    Config,
    /// The source tree could not be read.
    Io,
    /// The compiler or the linker exited with a failure.
    Compile,
    /// The build itself cannot go on.
    Build,
}

/// A failure of a build.
#[derive(Debug)]
pub enum Error {
    /// There is no lock file, so there is no prior build state.
    NoLock,
    /// `--bin` was given as the last argument, without a name after it.
    MissingBinName,
    /// The host's operating system is none on which a project can be built.
    UnsupportedPlatform,
    /// The source directory could not be listed.
    SourceDir { dir: String, reason: String },
    /// A source file could not be read.
    SourceFile { path: String, reason: String },
    /// The compiler failed on a file; `code` is its exit code, if it had one.
    Compile { file: String, code: Option<i32> },
    /// The linker failed; `code` is its exit code, if it had one.
    Link { code: Option<i32> },
    /// The source directory holds nothing to compile.
    NoCompilableFiles,
    /// An object file could not be moved to the object directory.
    MoveObject { reason: String },
    /// The build was handed an event that its state does not wait for.
    Unexpected,
    /// The executable that was to be run is not there.
    MissingExecutable { name: String },
}

/// What an `Error` holds, as text.
pub enum ErrorView {
    NoLock,
    MissingBinName,
    UnsupportedPlatform,
    SourceDir { dir: Seq<char>, reason: Seq<char> },
    SourceFile { path: Seq<char>, reason: Seq<char> },
    Compile { file: Seq<char>, code: Option<i32> },
    Link { code: Option<i32> },
    NoCompilableFiles,
    MoveObject { reason: Seq<char> },
    Unexpected,
    MissingExecutable { name: Seq<char> },
}

impl ErrorView {
    /// The class of the failure.
    pub open spec fn kind(self) -> ErrorKind {
        match self {
            ErrorView::NoLock => ErrorKind::Config,
            ErrorView::MissingBinName => ErrorKind::Config,
            ErrorView::UnsupportedPlatform => ErrorKind::Config,
            ErrorView::SourceDir { .. } => ErrorKind::Io,
            ErrorView::SourceFile { .. } => ErrorKind::Io,
            ErrorView::Compile { .. } => ErrorKind::Compile,
            ErrorView::Link { .. } => ErrorKind::Compile,
            ErrorView::NoCompilableFiles => ErrorKind::Build,
            ErrorView::MoveObject { .. } => ErrorKind::Build,
            ErrorView::Unexpected => ErrorKind::Build,
            ErrorView::MissingExecutable { .. } => ErrorKind::Build,
        }
    }
}

/// How an exit is named in a message: the exit code in decimal, or `none`
/// where the process ended without one.
pub open spec fn exit_text(code: Option<i32>) -> Seq<char> {
    match code {
        Some(c) => decimal(c as int),
        None => "none"@,
    }
}

impl ErrorView {
    /// The one message that tells the user of the failure.
    pub open spec fn message(self) -> Seq<char> {
        match self {
            ErrorView::NoLock => "Cannot find Ocean.lock in project root."@,
            ErrorView::MissingBinName =>
                "Did not provide binary name or all as paramater to --bin"@,
            ErrorView::UnsupportedPlatform => "Unsupported operating system"@,
            ErrorView::SourceDir { dir, reason } => "Could not read source directory (\""@ + dir
                + "\"): "@ + reason,
            ErrorView::SourceFile { path, reason } => "Could not read file (\""@ + path
                + "\"): "@ + reason,
            ErrorView::Compile { file, code } => "Could not compile \""@ + file
                + "\". Compiler command returned with error code: "@ + exit_text(code),
            ErrorView::Link { code } => "Compiler command returned with error code: "@
                + exit_text(code),
            ErrorView::NoCompilableFiles => "No compilable files found."@,
            ErrorView::MoveObject { reason } => "Cannot move object file: "@ + reason
                + ". Did the project compile properly?"@,
            ErrorView::Unexpected => "The build was told of what it did not wait for."@,
            ErrorView::MissingExecutable { name } => "Cannot find the \""@ + name
                + "\" executable. Did it compile properly?"@,
        }
    }
}

fn exit_text_of(code: Option<i32>) -> (r: String)
    ensures
        r@ == exit_text(code),
{
    match code {
        Some(c) => decimal_of(c),
        None => "none".to_owned(),
    }
}

impl View for Error {
    type V = ErrorView;

    open spec fn view(&self) -> ErrorView {
        match self {
            Error::NoLock => ErrorView::NoLock,
            Error::MissingBinName => ErrorView::MissingBinName,
            Error::UnsupportedPlatform => ErrorView::UnsupportedPlatform,
            Error::SourceDir { dir, reason } => ErrorView::SourceDir { dir: dir@, reason: reason@ },
            Error::SourceFile { path, reason } => ErrorView::SourceFile {
                path: path@,
                reason: reason@,
            },
            Error::Compile { file, code } => ErrorView::Compile { file: file@, code: *code },
            Error::Link { code } => ErrorView::Link { code: *code },
            Error::NoCompilableFiles => ErrorView::NoCompilableFiles,
            Error::MoveObject { reason } => ErrorView::MoveObject { reason: reason@ },
            Error::Unexpected => ErrorView::Unexpected,
            Error::MissingExecutable { name } => ErrorView::MissingExecutable { name: name@ },
        }
    }
}

impl Error {
    /// The class of the failure.
    pub fn kind(&self) -> (r: ErrorKind)
        ensures
            r == self@.kind(),
    {
        match self {
            Error::NoLock => ErrorKind::Config,
            Error::MissingBinName => ErrorKind::Config,
            Error::UnsupportedPlatform => ErrorKind::Config,
            Error::SourceDir { .. } => ErrorKind::Io,
            Error::SourceFile { .. } => ErrorKind::Io,
            Error::Compile { .. } => ErrorKind::Compile,
            Error::Link { .. } => ErrorKind::Compile,
            Error::NoCompilableFiles => ErrorKind::Build,
            Error::MoveObject { .. } => ErrorKind::Build,
            Error::Unexpected => ErrorKind::Build,
            Error::MissingExecutable { .. } => ErrorKind::Build,
        }
    }
}

impl Error {
    /// The one message that tells the user of the failure.
    pub fn message(&self) -> (r: String)
        ensures
            r@ == self@.message(),
    {
        match self {
            Error::NoLock => "Cannot find Ocean.lock in project root.".to_owned(),
            Error::MissingBinName =>
                "Did not provide binary name or all as paramater to --bin".to_owned(),
            Error::UnsupportedPlatform => "Unsupported operating system".to_owned(),
            Error::SourceDir { dir, reason } => {
                let mut out = "Could not read source directory (\"".to_owned();
                out.append(dir.as_str());
                out.append("\"): ");
                out.append(reason.as_str());
                out
            },
            Error::SourceFile { path, reason } => {
                let mut out = "Could not read file (\"".to_owned();
                out.append(path.as_str());
                out.append("\"): ");
                out.append(reason.as_str());
                out
            },
            Error::Compile { file, code } => {
                let mut out = "Could not compile \"".to_owned();
                out.append(file.as_str());
                out.append("\". Compiler command returned with error code: ");
                out.append(exit_text_of(*code).as_str());
                out
            },
            Error::Link { code } => {
                let mut out = "Compiler command returned with error code: ".to_owned();
                out.append(exit_text_of(*code).as_str());
                out
            },
            Error::NoCompilableFiles => "No compilable files found.".to_owned(),
            Error::MoveObject { reason } => {
                let mut out = "Cannot move object file: ".to_owned();
                out.append(reason.as_str());
                out.append(". Did the project compile properly?");
                out
            },
            Error::Unexpected => "The build was told of what it did not wait for.".to_owned(),
            Error::MissingExecutable { name } => {
                let mut out = "Cannot find the \"".to_owned();
                out.append(name.as_str());
                out.append("\" executable. Did it compile properly?");
                out
            },
        }
    }
}

impl Clone for Error {
    fn clone(&self) -> (r: Self)
        ensures
            r@ == self@,
    {
        match self {
            Error::NoLock => Error::NoLock,
            Error::MissingBinName => Error::MissingBinName,
            Error::UnsupportedPlatform => Error::UnsupportedPlatform,
            Error::SourceDir { dir, reason } => Error::SourceDir {
                dir: dir.clone(),
                reason: reason.clone(),
            },
            Error::SourceFile { path, reason } => Error::SourceFile {
                path: path.clone(),
                reason: reason.clone(),
            },
            Error::Compile { file, code } => Error::Compile { file: file.clone(), code: *code },
            Error::Link { code } => Error::Link { code: *code },
            Error::NoCompilableFiles => Error::NoCompilableFiles,
            Error::MoveObject { reason } => Error::MoveObject { reason: reason.clone() },
            Error::Unexpected => Error::Unexpected,
            Error::MissingExecutable { name } => Error::MissingExecutable { name: name.clone() },
        }
    }
}

} // verus!
