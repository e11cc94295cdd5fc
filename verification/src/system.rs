//! The operating system as the library sees it: the calls that are made on
//! it and what it answers.
//!
//! The library makes no call itself.  Where it needs the system it is handed
//! a function from a call to its answer, or it says which call is to be made
//! and is handed the answer.

use vstd::prelude::*;

verus! {

/// The way the running system prints.
#[derive(Clone, Copy, PartialEq, Eq, Debug, Structural)]
pub enum Backend {
    /// A stateful spooler that is driven through a printer handle.
    Spooler,
    /// A print command that is handed a file.
    ShellUtility,
    /// A system this library cannot print on.
    Unsupported,
}

/// The name of the operating system whose printing goes through a spooler.
pub const SPOOLER_OS: &'static str = "windows";

/// The name of the operating system whose printing goes through a print
/// command.
pub const SHELL_UTILITY_OS: &'static str = "macos";

/// The way the operating system of the given name prints.
pub open spec fn backend_for(os: Seq<char>) -> Backend {
    if os == SPOOLER_OS@ {
        Backend::Spooler
    } else if os == SHELL_UTILITY_OS@ {
        Backend::ShellUtility
    } else {
        Backend::Unsupported
    }
}

impl Backend {
    /// Selects the backend for the operating system of the given name.
    pub fn for_os(os: &str) -> (backend: Backend)
        ensures
            backend == backend_for(os@),
    {
        let name = String::from_str(os);
        if name == String::from_str(SPOOLER_OS) {
            Backend::Spooler
        } else if name == String::from_str(SHELL_UTILITY_OS) {
            Backend::ShellUtility
        } else {
            Backend::Unsupported
        }
    }
}

/// A call on the operating system.
#[derive(Debug, PartialEq, Eq)]
pub enum OsCall {
    /// Open a handle to the named printer.
    OpenPrinter { printer: String },
    /// Start a document with the given label and data type on the handle.
    StartDocument { label: String, data_type: String },
    /// Start a page of the document.
    StartPage,
    /// Write all of `data` to the page in one transfer.
    WritePayload { data: Vec<u8> },
    /// End the page.
    EndPage,
    /// End the document.
    EndDocument,
    /// Close the printer handle.
    ClosePrinter,
    /// Read the text of the last error the system recorded for the caller.
    ReadLastError,
    /// Create a new file in the directory for temporary files, for this
    /// job alone: a file that did not exist before and whose name no other
    /// job is given.  The name begins with `prefix` and ends with `suffix`.
    CreateTempFile { prefix: String, suffix: String },
    /// Write all of `data` to the temporary file.
    WriteTempFile { data: Vec<u8> },
    /// Run a program with arguments and wait for it to end.
    RunCommand { program: String, args: Vec<String> },
    /// Remove the temporary file at `path`.
    RemoveTempFile { path: String },
}

/// What the operating system answered to a call.
#[derive(Debug, PartialEq, Eq)]
pub enum OsReply {
    /// The call succeeded and there is nothing more to say.
    Done,
    /// The call failed; `detail` is what the system said about it.
    Failed { detail: String },
    /// The spooler's answer to `StartDocument`: the job's identifier, 0 if
    /// no document was started.
    Job { id: u32 },
    /// The spooler accepted the write and took this many bytes.
    Written { bytes: u32 },
    /// The answer to `ReadLastError`.
    LastError { text: String },
    /// The temporary file was created at `path`.
    TempFile { path: String },
    /// The program ran and ended, with or without success; `stdout` and
    /// `stderr` are what it wrote to its two streams.
    Exited { success: bool, stdout: String, stderr: String },
}

/// The mathematical content of a call.
pub enum CallModel {
    OpenPrinter { printer: Seq<char> },
    StartDocument { label: Seq<char>, data_type: Seq<char> },
    StartPage,
    WritePayload { data: Seq<u8> },
    EndPage,
    EndDocument,
    ClosePrinter,
    ReadLastError,
    CreateTempFile { prefix: Seq<char>, suffix: Seq<char> },
    WriteTempFile { data: Seq<u8> },
    RunCommand { program: Seq<char>, args: Seq<Seq<char>> },
    RemoveTempFile { path: Seq<char> },
}

impl View for OsCall {
    type V = CallModel;

    open spec fn view(&self) -> CallModel {
        match *self {
            OsCall::OpenPrinter { printer } => CallModel::OpenPrinter { printer: printer@ },
            OsCall::StartDocument { label, data_type } => CallModel::StartDocument {
                label: label@,
                data_type: data_type@,
            },
            OsCall::StartPage => CallModel::StartPage,
            OsCall::WritePayload { data } => CallModel::WritePayload { data: data@ },
            OsCall::EndPage => CallModel::EndPage,
            OsCall::EndDocument => CallModel::EndDocument,
            OsCall::ClosePrinter => CallModel::ClosePrinter,
            OsCall::ReadLastError => CallModel::ReadLastError,
            OsCall::CreateTempFile { prefix, suffix } => CallModel::CreateTempFile {
                prefix: prefix@,
                suffix: suffix@,
            },
            OsCall::WriteTempFile { data } => CallModel::WriteTempFile { data: data@ },
            OsCall::RunCommand { program, args } => CallModel::RunCommand {
                program: program@,
                args: args.deep_view(),
            },
            OsCall::RemoveTempFile { path } => CallModel::RemoveTempFile { path: path@ },
        }
    }
}

} // verus!
