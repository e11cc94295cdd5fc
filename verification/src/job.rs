//! A print job as a state machine.
//!
//! A job is created for one submission and lives until that submission has
//! an outcome.  In every state but the last it has one call pending that the
//! caller is to make on the operating system; the answer to that call takes
//! the job to its next state.  The spooler job opens the printer, starts a
//! document of raw data, starts a page, writes the payload, and then ends
//! page and document and closes the printer again.  Where one of these
//! calls fails, the job asks at once what went wrong, before any other call
//! can blur it, and then releases what it holds.  The shell-utility job has
//! a temporary file of its own created, writes the payload to it, has the
//! print command send that file raw, and removes the file.

use crate::system::{Backend, CallModel, OsCall, OsReply};
use crate::text::{joined, prefixed};
use vstd::prelude::*;
use vstd::slice::slice_to_vec;

verus! {

/// What a job prints.
#[derive(Clone, Copy, PartialEq, Eq, Debug, Structural)]
pub enum JobKind {
    /// A receipt that the caller has formatted for the printer.
    Receipt,
    /// The self-test receipt.
    SelfTest,
}

/// Why a job failed.
#[derive(Clone, Copy, PartialEq, Eq, Debug, Structural)]
pub enum FailureKind {
    /// The running system has no way to print.
    PlatformUnsupported,
    /// The printer could not be opened.
    Open,
    /// The spooler did not start a document.
    JobStart,
    /// The spooler did not start a page: the write failed before a byte
    /// was handed over.
    PageStart,
    /// The spooler reported that the write failed.
    Write,
    /// The spooler reported a write of another length than the payload's.
    PartialWrite,
    /// The temporary file could not be created.
    TempFileCreate,
    /// The payload could not be written to the temporary file.
    TempFileWrite,
    /// The print command could not be run.
    ShellInvocation,
    /// The print command ran and ended in failure.
    PrintWarning,
}

/// Where a job stands.  Every phase but `Finished` is named after the call
/// that is pending in it.
#[derive(Clone, Copy, PartialEq, Eq, Debug, Structural)]
pub enum Phase {
    OpenPrinter,
    StartDocument,
    StartPage,
    WritePayload,
    EndPage,
    EndDocument,
    ClosePrinter,
    ReadLastError,
    CreateTempFile,
    WriteTempFile,
    RunCommand,
    RemoveTempFile,
    Finished,
}

/// The mathematical content of a job.
pub struct JobModel {
    pub backend: Backend,
    pub kind: JobKind,
    pub printer: Seq<char>,
    pub payload: Seq<u8>,
    pub phase: Phase,
    /// The first failure the job met, if it met one.
    pub failure: Option<FailureKind>,
    /// What the system said about that failure.
    pub detail: Seq<char>,
    /// Where the temporary file is, once it has been created.
    pub temp_path: Seq<char>,
}

/// The data type a document is started with.  It tells the spooler to pass
/// the bytes on as they are.
pub const RAW_DATA_TYPE: &'static str = "RAW";

/// The label of a document that holds a receipt.
pub const RECEIPT_LABEL: &'static str = "POS ESC/POS Receipt";

/// The label of a document that holds the self-test receipt.
pub const SELF_TEST_LABEL: &'static str = "POS Test Receipt";

/// How the name of the temporary file of a receipt begins.
pub const RECEIPT_FILE_PREFIX: &'static str = "escpos_receipt-";

/// How the name of the temporary file of a receipt ends.
pub const RECEIPT_FILE_SUFFIX: &'static str = ".bin";

/// How the name of the temporary file of the self-test receipt begins.
pub const SELF_TEST_FILE_PREFIX: &'static str = "pos_test_receipt-";

/// How the name of the temporary file of the self-test receipt ends.
pub const SELF_TEST_FILE_SUFFIX: &'static str = ".txt";

/// The print command.
pub const PRINT_PROGRAM: &'static str = "lpr";

/// The document label for a kind of job.
pub open spec fn label_of(kind: JobKind) -> Seq<char> {
    match kind {
        JobKind::Receipt => RECEIPT_LABEL@,
        JobKind::SelfTest => SELF_TEST_LABEL@,
    }
}

/// How the name of the temporary file for a kind of job begins.
pub open spec fn file_prefix_of(kind: JobKind) -> Seq<char> {
    match kind {
        JobKind::Receipt => RECEIPT_FILE_PREFIX@,
        JobKind::SelfTest => SELF_TEST_FILE_PREFIX@,
    }
}

/// How the name of the temporary file for a kind of job ends.
pub open spec fn file_suffix_of(kind: JobKind) -> Seq<char> {
    match kind {
        JobKind::Receipt => RECEIPT_FILE_SUFFIX@,
        JobKind::SelfTest => SELF_TEST_FILE_SUFFIX@,
    }
}

/// The arguments of the print command: the target printer, the option that
/// asks for a raw transfer, and the file to send.
pub open spec fn print_args(printer: Seq<char>, path: Seq<char>) -> Seq<Seq<char>> {
    seq!["-P"@, printer, "-o"@, "raw"@, path]
}

/// The job as it is created.  On a system without a way to print it is
/// finished at once, failed, with no call ever pending.
pub open spec fn start(
    backend: Backend,
    kind: JobKind,
    printer: Seq<char>,
    payload: Seq<u8>,
) -> JobModel {
    JobModel {
        backend,
        kind,
        printer,
        payload,
        phase: match backend {
            Backend::Spooler => Phase::OpenPrinter,
            Backend::ShellUtility => Phase::CreateTempFile,
            Backend::Unsupported => Phase::Finished,
        },
        failure: match backend {
            Backend::Unsupported => Some(FailureKind::PlatformUnsupported),
            _ => None,
        },
        detail: Seq::empty(),
        temp_path: Seq::empty(),
    }
}

/// Whether the job has an outcome.
pub open spec fn finished(job: JobModel) -> bool {
    job.phase == Phase::Finished
}

/// The call that is pending in a job, if it is not finished.
pub open spec fn pending(job: JobModel) -> Option<CallModel> {
    match job.phase {
        Phase::OpenPrinter => Some(CallModel::OpenPrinter { printer: job.printer }),
        Phase::StartDocument => Some(
            CallModel::StartDocument { label: label_of(job.kind), data_type: RAW_DATA_TYPE@ },
        ),
        Phase::StartPage => Some(CallModel::StartPage),
        Phase::WritePayload => Some(CallModel::WritePayload { data: job.payload }),
        Phase::EndPage => Some(CallModel::EndPage),
        Phase::EndDocument => Some(CallModel::EndDocument),
        Phase::ClosePrinter => Some(CallModel::ClosePrinter),
        Phase::ReadLastError => Some(CallModel::ReadLastError),
        Phase::CreateTempFile => Some(
            CallModel::CreateTempFile {
                prefix: file_prefix_of(job.kind),
                suffix: file_suffix_of(job.kind),
            },
        ),
        Phase::WriteTempFile => Some(CallModel::WriteTempFile { data: job.payload }),
        Phase::RunCommand => Some(
            CallModel::RunCommand {
                program: PRINT_PROGRAM@,
                args: print_args(job.printer, job.temp_path),
            },
        ),
        Phase::RemoveTempFile => Some(CallModel::RemoveTempFile { path: job.temp_path }),
        Phase::Finished => None,
    }
}

/// The job goes on to `phase`.
pub open spec fn moved(job: JobModel, phase: Phase) -> JobModel {
    JobModel { phase, ..job }
}

/// The job has failed and goes on to `phase`, where it releases what it
/// holds or asks what went wrong.
pub open spec fn failed(
    job: JobModel,
    kind: FailureKind,
    detail: Seq<char>,
    phase: Phase,
) -> JobModel {
    JobModel { phase, failure: Some(kind), detail, ..job }
}

/// What the system said in a reply that reports a failure; nothing, if the
/// reply is of a kind that says nothing.
pub open spec fn detail_of(reply: OsReply) -> Seq<char> {
    match reply {
        OsReply::Failed { detail } => detail@,
        OsReply::LastError { text } => text@,
        _ => Seq::empty(),
    }
}

/// What is known of a failure once the last error has been asked for: the
/// last error, if the answer holds one that says anything, and otherwise
/// what was known before.
pub open spec fn diagnosed(known: Seq<char>, reply: OsReply) -> Seq<char> {
    match reply {
        OsReply::LastError { text } => if text@.len() > 0 {
            text@
        } else {
            known
        },
        _ => known,
    }
}

/// The phase in which a spooler job goes on once it has asked what went
/// wrong: the release of the last thing it acquired before the failure, or
/// its end if it holds nothing.
pub open spec fn release_phase(failure: Option<FailureKind>) -> Phase {
    match failure {
        Some(FailureKind::Write) | Some(FailureKind::PartialWrite) => Phase::EndPage,
        Some(FailureKind::PageStart) => Phase::EndDocument,
        Some(FailureKind::JobStart) => Phase::ClosePrinter,
        _ => Phase::Finished,
    }
}

/// The job after the answer to its pending call.
///
/// A call that acquires something has succeeded only on the one answer that
/// says so; any other answer counts as its failure.  What a releasing call
/// answers is not looked at.  A write has succeeded only if the number of
/// bytes reported is the length of the payload.  A spooler call that failed
/// is followed at once by the question what went wrong, and the releases
/// come after it.  The print command has succeeded only if it ended with
/// success: what it wrote to its error stream is kept as the detail of a
/// failure and is of no account otherwise.
pub open spec fn step(job: JobModel, reply: OsReply) -> JobModel {
    match job.phase {
        Phase::OpenPrinter => match reply {
            OsReply::Done => moved(job, Phase::StartDocument),
            _ => failed(job, FailureKind::Open, detail_of(reply), Phase::ReadLastError),
        },
        Phase::StartDocument => match reply {
            OsReply::Job { id } if id != 0 => moved(job, Phase::StartPage),
            _ => failed(job, FailureKind::JobStart, detail_of(reply), Phase::ReadLastError),
        },
        Phase::StartPage => match reply {
            OsReply::Done => moved(job, Phase::WritePayload),
            _ => failed(job, FailureKind::PageStart, detail_of(reply), Phase::ReadLastError),
        },
        Phase::WritePayload => match reply {
            OsReply::Written { bytes } => if bytes as int == job.payload.len() {
                moved(job, Phase::EndPage)
            } else {
                failed(job, FailureKind::PartialWrite, Seq::empty(), Phase::ReadLastError)
            },
            _ => failed(job, FailureKind::Write, detail_of(reply), Phase::ReadLastError),
        },
        Phase::EndPage => moved(job, Phase::EndDocument),
        Phase::EndDocument => moved(job, Phase::ClosePrinter),
        Phase::ClosePrinter => moved(job, Phase::Finished),
        Phase::ReadLastError => JobModel {
            phase: release_phase(job.failure),
            detail: diagnosed(job.detail, reply),
            ..job
        },
        Phase::CreateTempFile => match reply {
            OsReply::TempFile { path } => JobModel {
                phase: Phase::WriteTempFile,
                temp_path: path@,
                ..job
            },
            _ => failed(job, FailureKind::TempFileCreate, detail_of(reply), Phase::Finished),
        },
        Phase::WriteTempFile => match reply {
            OsReply::Done => moved(job, Phase::RunCommand),
            _ => failed(
                job,
                FailureKind::TempFileWrite,
                detail_of(reply),
                Phase::RemoveTempFile,
            ),
        },
        Phase::RunCommand => match reply {
            OsReply::Exited { success, stderr, .. } => if success {
                moved(job, Phase::RemoveTempFile)
            } else {
                failed(job, FailureKind::PrintWarning, stderr@, Phase::RemoveTempFile)
            },
            _ => failed(
                job,
                FailureKind::ShellInvocation,
                detail_of(reply),
                Phase::RemoveTempFile,
            ),
        },
        Phase::RemoveTempFile => moved(job, Phase::Finished),
        Phase::Finished => job,
    }
}

/// The job after a sequence of answers, each given to the call that was
/// pending when it came.
pub open spec fn run(job: JobModel, replies: Seq<OsReply>) -> JobModel
    decreases replies.len(),
{
    if replies.len() == 0 {
        job
    } else {
        step(run(job, replies.drop_last()), replies.last())
    }
}

/// An upper bound on the number of answers a job in this phase still needs.
pub open spec fn steps_left(phase: Phase) -> nat {
    match phase {
        Phase::OpenPrinter => 8,
        Phase::StartDocument => 7,
        Phase::StartPage => 6,
        Phase::WritePayload => 5,
        Phase::ReadLastError => 4,
        Phase::EndPage => 3,
        Phase::EndDocument => 2,
        Phase::ClosePrinter => 1,
        Phase::CreateTempFile => 4,
        Phase::WriteTempFile => 3,
        Phase::RunCommand => 2,
        Phase::RemoveTempFile => 1,
        Phase::Finished => 0,
    }
}

/// The message of a job that printed.
pub open spec fn success_message(kind: JobKind, printer: Seq<char>) -> Seq<char> {
    match kind {
        JobKind::Receipt => "Receipt printed to "@ + printer,
        JobKind::SelfTest => "Test receipt sent to "@ + printer,
    }
}

/// The message of a job that failed: the phase that failed, the printer
/// where the phase speaks of one, and what the system said.
pub open spec fn failure_message(
    failure: FailureKind,
    kind: JobKind,
    printer: Seq<char>,
    detail: Seq<char>,
) -> Seq<char> {
    match failure {
        FailureKind::PlatformUnsupported => match kind {
            JobKind::Receipt => "ESC/POS printing not supported on this platform"@,
            JobKind::SelfTest => "Test printing not supported on this platform"@,
        },
        FailureKind::Open => "Failed to open printer "@ + printer + ": "@ + detail,
        FailureKind::JobStart => "Failed to start print job on "@ + printer + ": "@ + detail,
        FailureKind::PageStart => "Failed to open printer page on "@ + printer + ": "@ + detail,
        FailureKind::Write | FailureKind::PartialWrite => "Failed to write data to "@ + printer
            + ": "@ + detail,
        FailureKind::TempFileCreate => "Failed to create temp file: "@ + detail,
        FailureKind::TempFileWrite => match kind {
            JobKind::Receipt => "Failed to write data: "@ + detail,
            JobKind::SelfTest => "Failed to write to temp file: "@ + detail,
        },
        FailureKind::ShellInvocation => "Failed to execute lpr command: "@ + detail,
        FailureKind::PrintWarning => "Print warning: "@ + detail,
    }
}

/// The outcome of a finished job as the caller is told it.
pub open spec fn outcome(job: JobModel) -> Result<Seq<char>, Seq<char>> {
    match job.failure {
        None => Ok(success_message(job.kind, job.printer)),
        Some(failure) => Err(failure_message(failure, job.kind, job.printer, job.detail)),
    }
}

/// The outcome of a job as a pair of views.
pub open spec fn message_view(result: Result<String, String>) -> Result<Seq<char>, Seq<char>> {
    match result {
        Ok(text) => Ok(text@),
        Err(text) => Err(text@),
    }
}

/// A print job.
pub struct PrintJob {
    backend: Backend,
    kind: JobKind,
    printer: String,
    payload: Vec<u8>,
    phase: Phase,
    failure: Option<FailureKind>,
    detail: String,
    temp_path: String,
}

impl View for PrintJob {
    type V = JobModel;

    closed spec fn view(&self) -> JobModel {
        JobModel {
            backend: self.backend,
            kind: self.kind,
            printer: self.printer@,
            payload: self.payload@,
            phase: self.phase,
            failure: self.failure,
            detail: self.detail@,
            temp_path: self.temp_path@,
        }
    }
}

/// What a reply says about a failure, taken out of the reply.
fn into_detail(reply: OsReply) -> (detail: String)
    ensures
        detail@ == detail_of(reply),
{
    match reply {
        OsReply::Failed { detail } => detail,
        OsReply::LastError { text } => text,
        _ => String::new(),
    }
}

impl PrintJob {
    /// Creates the job that prints `payload` on the printer `printer_name`.
    pub fn begin(
        backend: Backend,
        kind: JobKind,
        printer_name: &str,
        payload: Vec<u8>,
    ) -> (job: PrintJob)
        ensures
            job@ == start(backend, kind, printer_name@, payload@),
    {
        PrintJob {
            backend,
            kind,
            printer: String::from_str(printer_name),
            payload,
            phase: match backend {
                Backend::Spooler => Phase::OpenPrinter,
                Backend::ShellUtility => Phase::CreateTempFile,
                Backend::Unsupported => Phase::Finished,
            },
            failure: match backend {
                Backend::Unsupported => Some(FailureKind::PlatformUnsupported),
                _ => None,
            },
            detail: String::new(),
            temp_path: String::new(),
        }
    }

    /// Where the job stands.
    pub fn phase(&self) -> (phase: Phase)
        ensures
            phase == self@.phase,
    {
        self.phase
    }

    /// Whether the job has an outcome.
    pub fn is_finished(&self) -> (done: bool)
        ensures
            done == finished(self@),
    {
        match self.phase {
            Phase::Finished => true,
            _ => false,
        }
    }

    /// The first failure the job met, if it met one.
    pub fn failure(&self) -> (failure: Option<FailureKind>)
        ensures
            failure == self@.failure,
    {
        self.failure
    }

    /// The call the caller is to make next; none once the job is finished.
    pub fn pending(&self) -> (call: Option<OsCall>)
        ensures
            match call {
                Some(call) => pending(self@) == Some(call@),
                None => pending(self@) is None,
            },
    {
        match self.phase {
            Phase::OpenPrinter => Some(OsCall::OpenPrinter { printer: self.printer.clone() }),
            Phase::StartDocument => {
                let label = match self.kind {
                    JobKind::Receipt => RECEIPT_LABEL,
                    JobKind::SelfTest => SELF_TEST_LABEL,
                };
                Some(
                    OsCall::StartDocument {
                        label: String::from_str(label),
                        data_type: String::from_str(RAW_DATA_TYPE),
                    },
                )
            },
            Phase::StartPage => Some(OsCall::StartPage),
            Phase::WritePayload => Some(
                OsCall::WritePayload { data: slice_to_vec(self.payload.as_slice()) },
            ),
            Phase::EndPage => Some(OsCall::EndPage),
            Phase::EndDocument => Some(OsCall::EndDocument),
            Phase::ClosePrinter => Some(OsCall::ClosePrinter),
            Phase::ReadLastError => Some(OsCall::ReadLastError),
            Phase::CreateTempFile => Some(
                match self.kind {
                    JobKind::Receipt => OsCall::CreateTempFile {
                        prefix: String::from_str(RECEIPT_FILE_PREFIX),
                        suffix: String::from_str(RECEIPT_FILE_SUFFIX),
                    },
                    JobKind::SelfTest => OsCall::CreateTempFile {
                        prefix: String::from_str(SELF_TEST_FILE_PREFIX),
                        suffix: String::from_str(SELF_TEST_FILE_SUFFIX),
                    },
                },
            ),
            Phase::WriteTempFile => Some(
                OsCall::WriteTempFile { data: slice_to_vec(self.payload.as_slice()) },
            ),
            Phase::RunCommand => {
                let mut args: Vec<String> = Vec::new();
                args.push(String::from_str("-P"));
                args.push(self.printer.clone());
                args.push(String::from_str("-o"));
                args.push(String::from_str("raw"));
                args.push(self.temp_path.clone());
                assert(args.deep_view() =~= print_args(self@.printer, self@.temp_path));
                Some(OsCall::RunCommand { program: String::from_str(PRINT_PROGRAM), args })
            },
            Phase::RemoveTempFile => Some(OsCall::RemoveTempFile { path: self.temp_path.clone() }),
            Phase::Finished => None,
        }
    }

    /// Takes the answer to the pending call and moves the job on.  A
    /// finished job stays as it is.
    pub fn step(&mut self, reply: OsReply)
        ensures
            final(self)@ == step(old(self)@, reply),
    {
        match self.phase {
            Phase::OpenPrinter => match reply {
                OsReply::Done => {
                    self.phase = Phase::StartDocument;
                },
                _ => {
                    let detail = into_detail(reply);
                    self.fail(FailureKind::Open, detail, Phase::ReadLastError);
                },
            },
            Phase::StartDocument => match reply {
                OsReply::Job { id } if id != 0 => {
                    self.phase = Phase::StartPage;
                },
                _ => {
                    let detail = into_detail(reply);
                    self.fail(FailureKind::JobStart, detail, Phase::ReadLastError);
                },
            },
            Phase::StartPage => match reply {
                OsReply::Done => {
                    self.phase = Phase::WritePayload;
                },
                _ => {
                    let detail = into_detail(reply);
                    self.fail(FailureKind::PageStart, detail, Phase::ReadLastError);
                },
            },
            Phase::WritePayload => match reply {
                OsReply::Written { bytes } => {
                    if bytes as usize == self.payload.len() {
                        self.phase = Phase::EndPage;
                    } else {
                        self.fail(FailureKind::PartialWrite, String::new(), Phase::ReadLastError);
                    }
                },
                _ => {
                    let detail = into_detail(reply);
                    self.fail(FailureKind::Write, detail, Phase::ReadLastError);
                },
            },
            Phase::EndPage => {
                self.phase = Phase::EndDocument;
            },
            Phase::EndDocument => {
                self.phase = Phase::ClosePrinter;
            },
            Phase::ClosePrinter => {
                self.phase = Phase::Finished;
            },
            Phase::ReadLastError => {
                match reply {
                    OsReply::LastError { text } => {
                        if !text.as_str().is_empty() {
                            self.detail = text;
                        }
                    },
                    _ => {},
                }
                self.phase = match self.failure {
                    Some(FailureKind::Write) | Some(FailureKind::PartialWrite) => Phase::EndPage,
                    Some(FailureKind::PageStart) => Phase::EndDocument,
                    Some(FailureKind::JobStart) => Phase::ClosePrinter,
                    _ => Phase::Finished,
                };
            },
            Phase::CreateTempFile => match reply {
                OsReply::TempFile { path } => {
                    self.temp_path = path;
                    self.phase = Phase::WriteTempFile;
                },
                _ => {
                    let detail = into_detail(reply);
                    self.fail(FailureKind::TempFileCreate, detail, Phase::Finished);
                },
            },
            Phase::WriteTempFile => match reply {
                OsReply::Done => {
                    self.phase = Phase::RunCommand;
                },
                _ => {
                    let detail = into_detail(reply);
                    self.fail(FailureKind::TempFileWrite, detail, Phase::RemoveTempFile);
                },
            },
            Phase::RunCommand => match reply {
                OsReply::Exited { success, stderr, .. } => {
                    if success {
                        self.phase = Phase::RemoveTempFile;
                    } else {
                        self.fail(FailureKind::PrintWarning, stderr, Phase::RemoveTempFile);
                    }
                },
                _ => {
                    let detail = into_detail(reply);
                    self.fail(FailureKind::ShellInvocation, detail, Phase::RemoveTempFile);
                },
            },
            Phase::RemoveTempFile => {
                self.phase = Phase::Finished;
            },
            Phase::Finished => {},
        }
    }

    /// Records a failure and the phase in which the job goes on.
    fn fail(&mut self, kind: FailureKind, detail: String, phase: Phase)
        ensures
            final(self)@ == failed(old(self)@, kind, detail@, phase),
    {
        self.failure = Some(kind);
        self.detail = detail;
        self.phase = phase;
    }

    /// What the caller is told of the job: nothing while it is running, then
    /// the message of its success or of its failure.
    pub fn outcome(&self) -> (result: Option<Result<String, String>>)
        ensures
            match result {
                Some(message) => finished(self@) && message_view(message) == outcome(self@),
                None => !finished(self@),
            },
    {
        match self.phase {
            Phase::Finished => Some(self.message()),
            _ => None,
        }
    }

    /// The message for the job as it stands.
    pub(crate) fn message(&self) -> (message: Result<String, String>)
        ensures
            message_view(message) == outcome(self@),
    {
        let printer = self.printer.as_str();
        let detail = self.detail.as_str();
        match self.failure {
            None => Ok(
                match self.kind {
                    JobKind::Receipt => prefixed("Receipt printed to ", printer),
                    JobKind::SelfTest => prefixed("Test receipt sent to ", printer),
                },
            ),
            Some(failure) => Err(
                match failure {
                    FailureKind::PlatformUnsupported => match self.kind {
                        JobKind::Receipt => String::from_str(
                            "ESC/POS printing not supported on this platform",
                        ),
                        JobKind::SelfTest => String::from_str(
                            "Test printing not supported on this platform",
                        ),
                    },
                    FailureKind::Open => joined("Failed to open printer ", printer, ": ", detail),
                    FailureKind::JobStart => joined(
                        "Failed to start print job on ",
                        printer,
                        ": ",
                        detail,
                    ),
                    FailureKind::PageStart => joined(
                        "Failed to open printer page on ",
                        printer,
                        ": ",
                        detail,
                    ),
                    FailureKind::Write | FailureKind::PartialWrite => joined(
                        "Failed to write data to ",
                        printer,
                        ": ",
                        detail,
                    ),
                    FailureKind::TempFileCreate => prefixed("Failed to create temp file: ", detail),
                    FailureKind::TempFileWrite => match self.kind {
                        JobKind::Receipt => prefixed("Failed to write data: ", detail),
                        JobKind::SelfTest => prefixed("Failed to write to temp file: ", detail),
                    },
                    FailureKind::ShellInvocation => prefixed(
                        "Failed to execute lpr command: ",
                        detail,
                    ),
                    FailureKind::PrintWarning => prefixed("Print warning: ", detail),
                },
            ),
        }
    }
}

} // verus!
