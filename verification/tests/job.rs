use pos_printing::job::{FailureKind, JobKind, Phase, PrintJob};
use pos_printing::system::{Backend, OsCall, OsReply};

fn failed(detail: &str) -> OsReply {
    OsReply::Failed { detail: detail.to_string() }
}

fn last_error(text: &str) -> OsReply {
    OsReply::LastError { text: text.to_string() }
}

fn exited(success: bool, stderr: &str) -> OsReply {
    OsReply::Exited { success, stdout: String::new(), stderr: stderr.to_string() }
}

fn spooler_job() -> PrintJob {
    PrintJob::begin(Backend::Spooler, JobKind::Receipt, "Front Desk", vec![0x1B, 0x40, 0x0A])
}

fn shell_job(kind: JobKind) -> PrintJob {
    PrintJob::begin(Backend::ShellUtility, kind, "Epson_TM", vec![1, 2, 3, 4])
}

#[test]
fn backend_is_selected_by_the_name_of_the_system() {
    assert_eq!(Backend::for_os("windows"), Backend::Spooler);
    assert_eq!(Backend::for_os("macos"), Backend::ShellUtility);
    assert_eq!(Backend::for_os("linux"), Backend::Unsupported);
    assert_eq!(Backend::for_os("Windows"), Backend::Unsupported);
    assert_eq!(Backend::for_os(""), Backend::Unsupported);
}

#[test]
fn spooler_job_walks_through_its_calls() {
    let mut job = spooler_job();
    assert_eq!(job.phase(), Phase::OpenPrinter);
    assert_eq!(job.pending(), Some(OsCall::OpenPrinter { printer: "Front Desk".to_string() }));
    assert_eq!(job.outcome(), None);
    job.step(OsReply::Done);
    assert_eq!(
        job.pending(),
        Some(OsCall::StartDocument {
            label: "POS ESC/POS Receipt".to_string(),
            data_type: "RAW".to_string(),
        })
    );
    job.step(OsReply::Job { id: 12 });
    assert_eq!(job.pending(), Some(OsCall::StartPage));
    job.step(OsReply::Done);
    assert_eq!(job.pending(), Some(OsCall::WritePayload { data: vec![0x1B, 0x40, 0x0A] }));
    job.step(OsReply::Written { bytes: 3 });
    assert_eq!(job.pending(), Some(OsCall::EndPage));
    job.step(OsReply::Done);
    assert_eq!(job.pending(), Some(OsCall::EndDocument));
    job.step(OsReply::Done);
    assert_eq!(job.pending(), Some(OsCall::ClosePrinter));
    assert!(!job.is_finished());
    job.step(OsReply::Done);
    assert!(job.is_finished());
    assert_eq!(job.pending(), None);
    assert_eq!(job.failure(), None);
    assert_eq!(job.outcome(), Some(Ok("Receipt printed to Front Desk".to_string())));
}

#[test]
fn self_test_document_has_its_own_label() {
    let mut job = PrintJob::begin(Backend::Spooler, JobKind::SelfTest, "P", vec![]);
    job.step(OsReply::Done);
    assert_eq!(
        job.pending(),
        Some(OsCall::StartDocument {
            label: "POS Test Receipt".to_string(),
            data_type: "RAW".to_string(),
        })
    );
}

#[test]
fn printer_that_does_not_open_is_an_open_error() {
    let mut job = spooler_job();
    job.step(failed(""));
    assert_eq!(job.failure(), Some(FailureKind::Open));
    assert_eq!(job.pending(), Some(OsCall::ReadLastError));
    job.step(last_error("The printer name is invalid. (0x80070709)"));
    assert!(job.is_finished());
    assert_eq!(
        job.outcome(),
        Some(Err(
            "Failed to open printer Front Desk: The printer name is invalid. (0x80070709)"
                .to_string()
        ))
    );
}

#[test]
fn document_that_does_not_start_closes_the_printer() {
    let mut job = spooler_job();
    job.step(OsReply::Done);
    job.step(OsReply::Job { id: 0 });
    assert_eq!(job.failure(), Some(FailureKind::JobStart));
    assert_eq!(job.pending(), Some(OsCall::ReadLastError));
    job.step(last_error("Access is denied. (0x80070005)"));
    assert_eq!(job.pending(), Some(OsCall::ClosePrinter));
    assert_eq!(job.outcome(), None);
    job.step(OsReply::Done);
    assert!(job.is_finished());
    assert_eq!(
        job.outcome(),
        Some(Err(
            "Failed to start print job on Front Desk: Access is denied. (0x80070005)".to_string()
        ))
    );
}

#[test]
fn page_that_does_not_start_ends_the_document() {
    let mut job = spooler_job();
    job.step(OsReply::Done);
    job.step(OsReply::Job { id: 1 });
    job.step(failed(""));
    assert_eq!(job.failure(), Some(FailureKind::PageStart));
    assert_eq!(job.pending(), Some(OsCall::ReadLastError));
    job.step(last_error("out of paper"));
    assert_eq!(job.pending(), Some(OsCall::EndDocument));
    job.step(OsReply::Done);
    assert_eq!(job.pending(), Some(OsCall::ClosePrinter));
    job.step(OsReply::Done);
    assert!(job.is_finished());
    assert_eq!(
        job.outcome(),
        Some(Err("Failed to open printer page on Front Desk: out of paper".to_string()))
    );
}

#[test]
fn write_that_fails_ends_page_and_document() {
    let mut job = spooler_job();
    job.step(OsReply::Done);
    job.step(OsReply::Job { id: 1 });
    job.step(OsReply::Done);
    job.step(failed("first word"));
    assert_eq!(job.failure(), Some(FailureKind::Write));
    assert_eq!(job.pending(), Some(OsCall::ReadLastError));
    job.step(last_error("device not ready"));
    assert_eq!(job.pending(), Some(OsCall::EndPage));
    job.step(OsReply::Done);
    assert_eq!(job.pending(), Some(OsCall::EndDocument));
    job.step(OsReply::Done);
    assert_eq!(job.pending(), Some(OsCall::ClosePrinter));
    job.step(OsReply::Done);
    assert!(job.is_finished());
    assert_eq!(
        job.outcome(),
        Some(Err("Failed to write data to Front Desk: device not ready".to_string()))
    );
}

#[test]
fn short_and_long_writes_are_partial_writes() {
    for bytes in [0u32, 2, 4, u32::MAX] {
        let mut job = spooler_job();
        job.step(OsReply::Done);
        job.step(OsReply::Job { id: 1 });
        job.step(OsReply::Done);
        job.step(OsReply::Written { bytes });
        assert_eq!(job.failure(), Some(FailureKind::PartialWrite));
        assert_eq!(job.pending(), Some(OsCall::ReadLastError));
        job.step(last_error("short"));
        assert_eq!(job.pending(), Some(OsCall::EndPage));
    }
}

#[test]
fn diagnostic_is_read_before_anything_is_released() {
    let failures: [(usize, OsReply, &str); 4] = [
        (0, failed(""), "Failed to open printer Front Desk: cause"),
        (1, OsReply::Job { id: 0 }, "Failed to start print job on Front Desk: cause"),
        (2, failed(""), "Failed to open printer page on Front Desk: cause"),
        (3, failed(""), "Failed to write data to Front Desk: cause"),
    ];
    for (good_answers, failing, message) in failures {
        let mut job = spooler_job();
        let good = [
            OsReply::Done,
            OsReply::Job { id: 4 },
            OsReply::Done,
            OsReply::Written { bytes: 3 },
        ];
        for answer in good.into_iter().take(good_answers) {
            job.step(answer);
        }
        job.step(failing);
        assert_eq!(job.pending(), Some(OsCall::ReadLastError));
        job.step(last_error("cause"));
        while !job.is_finished() {
            assert_ne!(job.pending(), Some(OsCall::ReadLastError));
            job.step(failed("what a release said"));
        }
        assert_eq!(job.outcome(), Some(Err(message.to_string())));
    }
}

#[test]
fn word_of_the_failing_answer_is_kept_when_no_last_error_is_told() {
    let mut job = spooler_job();
    job.step(failed("The printer name is invalid."));
    job.step(last_error(""));
    assert_eq!(
        job.outcome(),
        Some(Err("Failed to open printer Front Desk: The printer name is invalid.".to_string()))
    );
    let mut job = spooler_job();
    job.step(OsReply::Done);
    job.step(OsReply::Job { id: 2 });
    job.step(failed("no paper"));
    job.step(OsReply::Done);
    job.step(OsReply::Done);
    job.step(OsReply::Done);
    assert_eq!(
        job.outcome(),
        Some(Err("Failed to open printer page on Front Desk: no paper".to_string()))
    );
}

#[test]
fn last_error_that_is_told_is_what_the_message_says() {
    let mut job = spooler_job();
    job.step(failed("from the answer"));
    job.step(last_error("from the last error"));
    assert_eq!(
        job.outcome(),
        Some(Err("Failed to open printer Front Desk: from the last error".to_string()))
    );
}

#[test]
fn failure_of_a_release_is_not_a_failure_of_the_job() {
    let mut job = spooler_job();
    job.step(OsReply::Done);
    job.step(OsReply::Job { id: 1 });
    job.step(OsReply::Done);
    job.step(OsReply::Written { bytes: 3 });
    job.step(failed("end page"));
    job.step(failed("end doc"));
    job.step(failed("close"));
    assert_eq!(job.outcome(), Some(Ok("Receipt printed to Front Desk".to_string())));
}

#[test]
fn diagnostic_of_another_kind_is_empty() {
    let mut job = spooler_job();
    job.step(OsReply::Job { id: 9 });
    assert_eq!(job.failure(), Some(FailureKind::Open));
    job.step(OsReply::Done);
    assert_eq!(job.outcome(), Some(Err("Failed to open printer Front Desk: ".to_string())));
}

#[test]
fn finished_job_stays_as_it_is() {
    let mut job = spooler_job();
    job.step(failed(""));
    job.step(last_error("first"));
    job.step(last_error("second"));
    job.step(OsReply::Done);
    assert_eq!(job.outcome(), Some(Err("Failed to open printer Front Desk: first".to_string())));
}

#[test]
fn shell_job_walks_through_its_calls() {
    let mut job = shell_job(JobKind::Receipt);
    assert_eq!(
        job.pending(),
        Some(OsCall::CreateTempFile {
            prefix: "escpos_receipt-".to_string(),
            suffix: ".bin".to_string(),
        })
    );
    job.step(OsReply::TempFile { path: "/tmp/escpos_receipt-41.bin".to_string() });
    assert_eq!(job.pending(), Some(OsCall::WriteTempFile { data: vec![1, 2, 3, 4] }));
    job.step(OsReply::Done);
    assert_eq!(
        job.pending(),
        Some(OsCall::RunCommand {
            program: "lpr".to_string(),
            args: vec![
                "-P".to_string(),
                "Epson_TM".to_string(),
                "-o".to_string(),
                "raw".to_string(),
                "/tmp/escpos_receipt-41.bin".to_string(),
            ],
        })
    );
    job.step(exited(true, ""));
    assert_eq!(
        job.pending(),
        Some(OsCall::RemoveTempFile { path: "/tmp/escpos_receipt-41.bin".to_string() })
    );
    job.step(OsReply::Done);
    assert!(job.is_finished());
    assert_eq!(job.outcome(), Some(Ok("Receipt printed to Epson_TM".to_string())));
}

#[test]
fn self_test_file_has_its_own_name() {
    let job = shell_job(JobKind::SelfTest);
    assert_eq!(
        job.pending(),
        Some(OsCall::CreateTempFile {
            prefix: "pos_test_receipt-".to_string(),
            suffix: ".txt".to_string(),
        })
    );
}

#[test]
fn temp_file_that_is_not_created_ends_the_job() {
    let mut job = shell_job(JobKind::Receipt);
    job.step(failed("Permission denied (os error 13)"));
    assert!(job.is_finished());
    assert_eq!(job.failure(), Some(FailureKind::TempFileCreate));
    assert_eq!(
        job.outcome(),
        Some(Err("Failed to create temp file: Permission denied (os error 13)".to_string()))
    );
}

#[test]
fn temp_file_that_is_not_written_is_removed() {
    let mut job = shell_job(JobKind::Receipt);
    job.step(OsReply::TempFile { path: "/tmp/x".to_string() });
    job.step(failed("No space left on device (os error 28)"));
    assert_eq!(job.failure(), Some(FailureKind::TempFileWrite));
    assert_eq!(job.pending(), Some(OsCall::RemoveTempFile { path: "/tmp/x".to_string() }));
    job.step(OsReply::Done);
    assert_eq!(
        job.outcome(),
        Some(Err("Failed to write data: No space left on device (os error 28)".to_string()))
    );
    let mut job = shell_job(JobKind::SelfTest);
    job.step(OsReply::TempFile { path: "/tmp/x".to_string() });
    job.step(failed("disk full"));
    job.step(OsReply::Done);
    assert_eq!(job.outcome(), Some(Err("Failed to write to temp file: disk full".to_string())));
}

#[test]
fn print_command_that_cannot_be_run_removes_the_file() {
    let mut job = shell_job(JobKind::Receipt);
    job.step(OsReply::TempFile { path: "/tmp/x".to_string() });
    job.step(OsReply::Done);
    job.step(failed("No such file or directory (os error 2)"));
    assert_eq!(job.failure(), Some(FailureKind::ShellInvocation));
    assert_eq!(job.pending(), Some(OsCall::RemoveTempFile { path: "/tmp/x".to_string() }));
    job.step(failed("gone already"));
    assert_eq!(
        job.outcome(),
        Some(Err(
            "Failed to execute lpr command: No such file or directory (os error 2)".to_string()
        ))
    );
}

#[test]
fn jobs_work_on_the_files_they_were_given() {
    let mut first = shell_job(JobKind::Receipt);
    let mut second = shell_job(JobKind::Receipt);
    first.step(OsReply::TempFile { path: "/tmp/escpos_receipt-1.bin".to_string() });
    second.step(OsReply::TempFile { path: "/tmp/escpos_receipt-2.bin".to_string() });
    first.step(OsReply::Done);
    second.step(OsReply::Done);
    let sent = |job: &PrintJob| match job.pending() {
        Some(OsCall::RunCommand { args, .. }) => args[4].clone(),
        other => panic!("{:?}", other),
    };
    assert_eq!(sent(&first), "/tmp/escpos_receipt-1.bin");
    assert_eq!(sent(&second), "/tmp/escpos_receipt-2.bin");
    first.step(exited(true, ""));
    second.step(exited(false, "no"));
    assert_eq!(
        first.pending(),
        Some(OsCall::RemoveTempFile { path: "/tmp/escpos_receipt-1.bin".to_string() })
    );
    assert_eq!(
        second.pending(),
        Some(OsCall::RemoveTempFile { path: "/tmp/escpos_receipt-2.bin".to_string() })
    );
}

#[test]
fn exit_status_decides_and_warnings_on_success_are_ignored() {
    let run = |success: bool, stderr: &str| {
        let mut job = shell_job(JobKind::SelfTest);
        job.step(OsReply::TempFile { path: "/tmp/x".to_string() });
        job.step(OsReply::Done);
        job.step(exited(success, stderr));
        job.step(OsReply::Done);
        (job.failure(), job.outcome())
    };
    assert_eq!(run(true, ""), (None, Some(Ok("Test receipt sent to Epson_TM".to_string()))));
    assert_eq!(
        run(true, "lpr: warning"),
        (None, Some(Ok("Test receipt sent to Epson_TM".to_string())))
    );
    assert_eq!(
        run(false, ""),
        (Some(FailureKind::PrintWarning), Some(Err("Print warning: ".to_string())))
    );
    assert_eq!(
        run(false, "lpr: The printer or class does not exist.\n"),
        (
            Some(FailureKind::PrintWarning),
            Some(Err("Print warning: lpr: The printer or class does not exist.\n".to_string()))
        )
    );
}

#[test]
fn unsupported_job_is_finished_when_it_is_created() {
    let job = PrintJob::begin(Backend::Unsupported, JobKind::Receipt, "Any", vec![1]);
    assert!(job.is_finished());
    assert_eq!(job.pending(), None);
    assert_eq!(job.failure(), Some(FailureKind::PlatformUnsupported));
    assert_eq!(
        job.outcome(),
        Some(Err("ESC/POS printing not supported on this platform".to_string()))
    );
    let job = PrintJob::begin(Backend::Unsupported, JobKind::SelfTest, "Any", vec![]);
    assert_eq!(
        job.outcome(),
        Some(Err("Test printing not supported on this platform".to_string()))
    );
}

#[test]
fn empty_payload_is_written_in_full_by_a_write_of_nothing() {
    let mut job = PrintJob::begin(Backend::Spooler, JobKind::Receipt, "P", vec![]);
    job.step(OsReply::Done);
    job.step(OsReply::Job { id: 1 });
    job.step(OsReply::Done);
    job.step(OsReply::Written { bytes: 0 });
    assert_eq!(job.failure(), None);
}
