//! What holds of every print job, whatever the operating system answers.

use crate::job::{
    detail_of, diagnosed, finished, pending, print_args, release_phase, run, start, step,
    steps_left, FailureKind, JobKind, JobModel, Phase, PRINT_PROGRAM,
};
use crate::system::{Backend, CallModel, OsReply};
use vstd::prelude::*;

verus! {

/// What a job holds of the operating system.
pub struct Held {
    /// An open printer handle.
    pub printer: bool,
    /// A document that was started and not ended.
    pub document: bool,
    /// A page that was started and not ended.
    pub page: bool,
    /// A temporary file that was created and not removed.
    pub temp_file: bool,
}

/// Holding nothing.
pub open spec fn nothing_held() -> Held {
    Held { printer: false, document: false, page: false, temp_file: false }
}

/// What is held after one exchange.  A call that acquires adds what it is
/// for if the answer says that it succeeded; a call that releases takes it
/// away whatever the answer.
pub open spec fn held_after(held: Held, call: CallModel, reply: OsReply) -> Held {
    match call {
        CallModel::OpenPrinter { .. } => Held { printer: held.printer || reply is Done, ..held },
        CallModel::StartDocument { .. } => Held {
            document: held.document || (reply matches OsReply::Job { id } && id != 0),
            ..held
        },
        CallModel::StartPage => Held { page: held.page || reply is Done, ..held },
        CallModel::EndPage => Held { page: false, ..held },
        CallModel::EndDocument => Held { document: false, ..held },
        CallModel::ClosePrinter => Held { printer: false, ..held },
        CallModel::CreateTempFile { .. } => Held {
            temp_file: held.temp_file || reply is TempFile,
            ..held
        },
        CallModel::RemoveTempFile { .. } => Held { temp_file: false, ..held },
        _ => held,
    }
}

/// What a job that began as `first`, holding nothing, holds after the
/// exchanges in which `replies` were the answers.
pub open spec fn held(first: JobModel, replies: Seq<OsReply>) -> Held
    decreases replies.len(),
{
    if replies.len() == 0 {
        nothing_held()
    } else {
        let before = replies.drop_last();
        match pending(run(first, before)) {
            Some(call) => held_after(held(first, before), call, replies.last()),
            None => held(first, before),
        }
    }
}

/// What a job holds while it is in a phase in which it acquires or
/// releases.
pub open spec fn held_in(phase: Phase) -> Held {
    match phase {
        Phase::StartDocument | Phase::ClosePrinter => Held { printer: true, ..nothing_held() },
        Phase::StartPage | Phase::EndDocument => Held {
            printer: true,
            document: true,
            ..nothing_held()
        },
        Phase::WritePayload | Phase::EndPage => Held {
            printer: true,
            document: true,
            page: true,
            ..nothing_held()
        },
        Phase::WriteTempFile | Phase::RunCommand | Phase::RemoveTempFile => Held {
            temp_file: true,
            ..nothing_held()
        },
        Phase::OpenPrinter | Phase::ReadLastError | Phase::CreateTempFile | Phase::Finished =>
            nothing_held(),
    }
}

/// What a job holds as it stands: what its phase says, and while it asks
/// what went wrong, what it is about to release.
pub open spec fn held_by(job: JobModel) -> Held {
    if job.phase is ReadLastError {
        held_in(release_phase(job.failure))
    } else {
        held_in(job.phase)
    }
}

/// The phases in which a job only releases what it holds and reads what
/// went wrong.
pub open spec fn winding_down(phase: Phase) -> bool {
    phase is EndPage || phase is EndDocument || phase is ClosePrinter || phase is ReadLastError
        || phase is RemoveTempFile || phase is Finished
}

/// The phase of a spooler job that has met no failure, by the number of
/// answers it has had.
pub open spec fn spooler_phase(answers: nat) -> Phase {
    if answers == 0 {
        Phase::OpenPrinter
    } else if answers == 1 {
        Phase::StartDocument
    } else if answers == 2 {
        Phase::StartPage
    } else if answers == 3 {
        Phase::WritePayload
    } else if answers == 4 {
        Phase::EndPage
    } else if answers == 5 {
        Phase::EndDocument
    } else if answers == 6 {
        Phase::ClosePrinter
    } else {
        Phase::Finished
    }
}

/// Answers given one after another take a job where the first part of them
/// and then the rest take it.
pub proof fn lemma_run_append(job: JobModel, first: Seq<OsReply>, rest: Seq<OsReply>)
    ensures
        run(job, first + rest) == run(run(job, first), rest),
    decreases rest.len(),
{
    if rest.len() == 0 {
        assert(first + rest =~= first);
    } else {
        lemma_run_append(job, first, rest.drop_last());
        assert((first + rest).drop_last() =~= first + rest.drop_last());
        assert((first + rest).last() == rest.last());
    }
}

/// A job prints what it was created to print, where it was created to print
/// it, from its first call to its last.
pub proof fn lemma_run_keeps_task(job: JobModel, replies: Seq<OsReply>)
    ensures
        run(job, replies).backend == job.backend,
        run(job, replies).kind == job.kind,
        run(job, replies).printer == job.printer,
        run(job, replies).payload == job.payload,
    decreases replies.len(),
{
    if replies.len() > 0 {
        lemma_run_keeps_task(job, replies.drop_last());
    }
}

/// A finished job stays as it is.
pub proof fn lemma_finished_stays(job: JobModel, replies: Seq<OsReply>)
    requires
        finished(job),
    ensures
        run(job, replies) == job,
    decreases replies.len(),
{
    if replies.len() > 0 {
        lemma_finished_stays(job, replies.drop_last());
    }
}

/// Every answer brings a job nearer to its end: a job is finished after as
/// many answers as its phase allows, eight at most.
pub proof fn lemma_job_finishes(job: JobModel, replies: Seq<OsReply>)
    ensures
        steps_left(run(job, replies).phase) + replies.len() <= steps_left(job.phase)
            || finished(run(job, replies)),
        replies.len() >= 8 ==> finished(run(job, replies)),
    decreases replies.len(),
{
    if replies.len() > 0 {
        lemma_job_finishes(job, replies.drop_last());
    }
}

/// On a system without a way to print, a job is finished as soon as it is
/// created, has failed for that reason, and never has a call pending.
pub proof fn lemma_unsupported_makes_no_call(
    kind: JobKind,
    printer: Seq<char>,
    payload: Seq<u8>,
    replies: Seq<OsReply>,
)
    ensures
        ({
            let first = start(Backend::Unsupported, kind, printer, payload);
            &&& run(first, replies) == first
            &&& finished(first)
            &&& pending(first) is None
            &&& first.failure == Some(FailureKind::PlatformUnsupported)
        }),
{
    lemma_finished_stays(start(Backend::Unsupported, kind, printer, payload), replies);
}

/// Once a job only winds down, its failure, or its lack of one, is settled.
pub proof fn lemma_winding_down_keeps_failure(job: JobModel, replies: Seq<OsReply>)
    requires
        winding_down(job.phase),
    ensures
        winding_down(run(job, replies).phase),
        run(job, replies).failure == job.failure,
    decreases replies.len(),
{
    if replies.len() > 0 {
        lemma_winding_down_keeps_failure(job, replies.drop_last());
    }
}

/// A write that the spooler reports with another length than the payload's
/// is a partial write, and the job fails as such whatever is answered after
/// it.
pub proof fn lemma_short_write_is_reported(job: JobModel, bytes: u32, rest: Seq<OsReply>)
    requires
        job.phase == Phase::WritePayload,
        bytes != job.payload.len(),
    ensures
        run(step(job, OsReply::Written { bytes }), rest).failure == Some(
            FailureKind::PartialWrite,
        ),
{
    lemma_winding_down_keeps_failure(step(job, OsReply::Written { bytes }), rest);
}

/// A spooler job without a failure has had, call by call, the answers that
/// say so: the printer opened, a document with an identifier other than 0,
/// a page started, and as many bytes written as the payload has.
pub proof fn lemma_spooler_progress(
    kind: JobKind,
    printer: Seq<char>,
    payload: Seq<u8>,
    replies: Seq<OsReply>,
)
    requires
        run(start(Backend::Spooler, kind, printer, payload), replies).failure is None,
    ensures
        run(start(Backend::Spooler, kind, printer, payload), replies).phase == spooler_phase(
            replies.len(),
        ),
        replies.len() >= 1 ==> replies[0] is Done,
        replies.len() >= 2 ==> (replies[1] matches OsReply::Job { id } && id != 0),
        replies.len() >= 3 ==> replies[2] is Done,
        replies.len() >= 4 ==> (replies[3] matches OsReply::Written { bytes } && bytes
            == payload.len()),
    decreases replies.len(),
{
    if replies.len() > 0 {
        let before = replies.drop_last();
        lemma_spooler_progress(kind, printer, payload, before);
        lemma_run_keeps_task(start(Backend::Spooler, kind, printer, payload), before);
        assert(forall|i: int| 0 <= i < before.len() ==> before[i] == replies[i]);
    }
}

/// A spooler job that ends in success was told that all of the payload was
/// written: success never hides a shortfall.
pub proof fn lemma_success_means_all_written(
    kind: JobKind,
    printer: Seq<char>,
    payload: Seq<u8>,
    replies: Seq<OsReply>,
)
    requires
        finished(run(start(Backend::Spooler, kind, printer, payload), replies)),
        run(start(Backend::Spooler, kind, printer, payload), replies).failure is None,
    ensures
        replies.len() >= 7,
        replies[3] matches OsReply::Written { bytes } && bytes == payload.len(),
{
    lemma_spooler_progress(kind, printer, payload, replies);
}

/// At every point of a job, what it holds is what its phase says.
pub proof fn lemma_held_by_phase(
    backend: Backend,
    kind: JobKind,
    printer: Seq<char>,
    payload: Seq<u8>,
    replies: Seq<OsReply>,
)
    ensures
        held(start(backend, kind, printer, payload), replies) == held_by(
            run(start(backend, kind, printer, payload), replies),
        ),
    decreases replies.len(),
{
    if replies.len() > 0 {
        lemma_held_by_phase(backend, kind, printer, payload, replies.drop_last());
    }
}

/// A finished job holds nothing: whatever was acquired on the way, the
/// printer handle, the document, the page, the temporary file, was released
/// on the way, whichever call failed.
pub proof fn lemma_finished_job_holds_nothing(
    backend: Backend,
    kind: JobKind,
    printer: Seq<char>,
    payload: Seq<u8>,
    replies: Seq<OsReply>,
)
    requires
        finished(run(start(backend, kind, printer, payload), replies)),
    ensures
        held(start(backend, kind, printer, payload), replies) == nothing_held(),
{
    lemma_held_by_phase(backend, kind, printer, payload, replies);
}

/// The phases in which a job only releases what it holds.
pub open spec fn releasing(phase: Phase) -> bool {
    phase is EndPage || phase is EndDocument || phase is ClosePrinter || phase is RemoveTempFile
        || phase is Finished
}

/// The phases in which a spooler job acquires or writes.
pub open spec fn spooler_working(phase: Phase) -> bool {
    phase is OpenPrinter || phase is StartDocument || phase is StartPage || phase is WritePayload
}

/// Once a job only releases, what it says of its failure is settled.
pub proof fn lemma_releasing_keeps_detail(job: JobModel, replies: Seq<OsReply>)
    requires
        releasing(job.phase),
    ensures
        releasing(run(job, replies).phase),
        run(job, replies).failure == job.failure,
        run(job, replies).detail == job.detail,
    decreases replies.len(),
{
    if replies.len() > 0 {
        lemma_releasing_keeps_detail(job, replies.drop_last());
    }
}

/// The message of a spooler job that failed carries what the system said
/// of the call that failed.  The job asks for the last error as the very
/// next call, before it releases anything, and what it is told then, or,
/// if it is told nothing, what the failing answer itself said, stays in
/// the message whatever the releases answer.
pub proof fn lemma_diagnostic_is_of_the_failing_call(
    job: JobModel,
    failing: OsReply,
    answer: OsReply,
    rest: Seq<OsReply>,
)
    requires
        spooler_working(job.phase),
        step(job, failing).phase is ReadLastError,
    ensures
        pending(step(job, failing)) == Some(CallModel::ReadLastError),
        step(job, failing).failure is Some,
        step(job, failing).detail == if failing is Written {
            Seq::<char>::empty()
        } else {
            detail_of(failing)
        },
        run(step(step(job, failing), answer), rest).failure == step(job, failing).failure,
        run(step(step(job, failing), answer), rest).detail == diagnosed(
            step(job, failing).detail,
            answer,
        ),
{
    lemma_releasing_keeps_detail(step(step(job, failing), answer), rest);
}

/// A shell-utility job without a failure has had, call by call, the answers
/// that say so: a temporary file created, the payload written to it, and
/// the print command ended with success.
pub proof fn lemma_shell_progress(
    kind: JobKind,
    printer: Seq<char>,
    payload: Seq<u8>,
    replies: Seq<OsReply>,
)
    requires
        run(start(Backend::ShellUtility, kind, printer, payload), replies).failure is None,
    ensures
        run(start(Backend::ShellUtility, kind, printer, payload), replies).phase == (
        if replies.len() == 0 {
            Phase::CreateTempFile
        } else if replies.len() == 1 {
            Phase::WriteTempFile
        } else if replies.len() == 2 {
            Phase::RunCommand
        } else if replies.len() == 3 {
            Phase::RemoveTempFile
        } else {
            Phase::Finished
        }),
        replies.len() >= 1 ==> replies[0] is TempFile,
        replies.len() >= 2 ==> replies[1] is Done,
        replies.len() >= 3 ==> (replies[2] matches OsReply::Exited { success, .. } && success),
    decreases replies.len(),
{
    if replies.len() > 0 {
        let before = replies.drop_last();
        lemma_shell_progress(kind, printer, payload, before);
        assert(forall|i: int| 0 <= i < before.len() ==> before[i] == replies[i]);
    }
}

/// The exit status of the print command decides.  A job whose print
/// command ended in failure fails, whether or not the command said why;
/// one whose command ended with success does not fail for what the command
/// wrote to its error stream.
pub proof fn lemma_exit_status_decides(
    job: JobModel,
    success: bool,
    stdout: String,
    stderr: String,
    rest: Seq<OsReply>,
)
    requires
        job.phase is RunCommand,
        job.failure is None,
    ensures
        run(step(job, OsReply::Exited { success, stdout, stderr }), rest).failure is None
            <==> success,
        !success ==> run(step(job, OsReply::Exited { success, stdout, stderr }), rest).failure
            == Some(FailureKind::PrintWarning) && run(
            step(job, OsReply::Exited { success, stdout, stderr }),
            rest,
        ).detail == stderr@,
{
    lemma_releasing_keeps_detail(step(job, OsReply::Exited { success, stdout, stderr }), rest);
}

/// A shell-utility job that ends in success was told that the print
/// command ended with success.
pub proof fn lemma_success_means_exit_success(
    kind: JobKind,
    printer: Seq<char>,
    payload: Seq<u8>,
    replies: Seq<OsReply>,
)
    requires
        finished(run(start(Backend::ShellUtility, kind, printer, payload), replies)),
        run(start(Backend::ShellUtility, kind, printer, payload), replies).failure is None,
    ensures
        replies.len() >= 4,
        replies[2] matches OsReply::Exited { success, .. } && success,
{
    lemma_shell_progress(kind, printer, payload, replies);
}

/// A shell-utility job works on the temporary file that was created for it
/// and on no other: the file it has the print command send, and the file it
/// has removed, is the one at the path that the answer to its own request
/// for a file gave.
pub proof fn lemma_job_uses_its_own_file(
    kind: JobKind,
    printer: Seq<char>,
    payload: Seq<u8>,
    replies: Seq<OsReply>,
)
    ensures
        ({
            let job = run(start(Backend::ShellUtility, kind, printer, payload), replies);
            job.phase is WriteTempFile || job.phase is RunCommand || job.phase is RemoveTempFile
                ==> {
                &&& replies.len() >= 1
                &&& replies[0] matches OsReply::TempFile { path }
                &&& job.temp_path == path@
                &&& job.phase is RunCommand ==> pending(job) == Some(
                    CallModel::RunCommand {
                        program: PRINT_PROGRAM@,
                        args: print_args(printer, path@),
                    },
                )
                &&& job.phase is RemoveTempFile ==> pending(job) == Some(
                    CallModel::RemoveTempFile { path: path@ },
                )
            }
        }),
    decreases replies.len(),
{
    if replies.len() > 0 {
        let before = replies.drop_last();
        lemma_job_uses_its_own_file(kind, printer, payload, before);
        lemma_run_keeps_task(start(Backend::ShellUtility, kind, printer, payload), before);
        if before.len() > 0 {
            assert(before[0] == replies[0]);
        }
    }
}

/// The things a job can hold of the operating system.
pub enum Resource {
    Printer,
    Document,
    Page,
    TempFile,
}

/// Whether `resource` is among what is held.
pub open spec fn holds(held: Held, resource: Resource) -> bool {
    match resource {
        Resource::Printer => held.printer,
        Resource::Document => held.document,
        Resource::Page => held.page,
        Resource::TempFile => held.temp_file,
    }
}

/// Whether the call, answered by the reply, acquired `resource`.
pub open spec fn acquires(call: Option<CallModel>, reply: OsReply, resource: Resource) -> bool {
    match resource {
        Resource::Printer => call matches Some(CallModel::OpenPrinter { .. }) && reply is Done,
        Resource::Document => call matches Some(CallModel::StartDocument { .. }) && (
        reply matches OsReply::Job { id } && id != 0),
        Resource::Page => call == Some(CallModel::StartPage) && reply is Done,
        Resource::TempFile => call matches Some(CallModel::CreateTempFile { .. })
            && reply is TempFile,
    }
}

/// Whether the call releases `resource`.
pub open spec fn releases(call: Option<CallModel>, resource: Resource) -> bool {
    match resource {
        Resource::Printer => call == Some(CallModel::ClosePrinter),
        Resource::Document => call == Some(CallModel::EndDocument),
        Resource::Page => call == Some(CallModel::EndPage),
        Resource::TempFile => call matches Some(CallModel::RemoveTempFile { .. }),
    }
}

/// What is held after the first `count` answers comes from what was held
/// before the last of them by the exchange that it ended.
proof fn lemma_held_unfolds(first: JobModel, replies: Seq<OsReply>, count: int)
    requires
        0 < count <= replies.len(),
    ensures
        held(first, replies.take(count)) == match pending(run(first, replies.take(count - 1))) {
            Some(call) => held_after(
                held(first, replies.take(count - 1)),
                call,
                replies[count - 1],
            ),
            None => held(first, replies.take(count - 1)),
        },
{
    assert(replies.take(count).drop_last() =~= replies.take(count - 1));
}

/// What is held after some answers and no longer held after all of them
/// was released by a call in between.
proof fn lemma_released_between(
    first: JobModel,
    replies: Seq<OsReply>,
    from: int,
    resource: Resource,
)
    requires
        0 <= from <= replies.len(),
        holds(held(first, replies.take(from)), resource),
        !holds(held(first, replies), resource),
    ensures
        exists|j: int|
            from <= j < replies.len() && releases(
                #[trigger] pending(run(first, replies.take(j))),
                resource,
            ),
    decreases replies.len() - from,
{
    if from == replies.len() {
        assert(replies.take(from) =~= replies);
    } else {
        lemma_held_unfolds(first, replies, from + 1);
        if holds(held(first, replies.take(from + 1)), resource) {
            lemma_released_between(first, replies, from + 1, resource);
        } else {
            assert(releases(pending(run(first, replies.take(from))), resource));
        }
    }
}

/// Whatever a job acquires, it releases by a later call before it is
/// finished, whichever call fails in between: the printer handle is closed,
/// the document and the page are ended, the temporary file is removed.
pub proof fn lemma_acquired_is_released(
    backend: Backend,
    kind: JobKind,
    printer: Seq<char>,
    payload: Seq<u8>,
    replies: Seq<OsReply>,
    at: int,
    resource: Resource,
)
    requires
        finished(run(start(backend, kind, printer, payload), replies)),
        0 <= at < replies.len(),
        acquires(
            pending(run(start(backend, kind, printer, payload), replies.take(at))),
            replies[at],
            resource,
        ),
    ensures
        exists|j: int|
            at < j < replies.len() && releases(
                #[trigger] pending(
                    run(start(backend, kind, printer, payload), replies.take(j)),
                ),
                resource,
            ),
{
    let first = start(backend, kind, printer, payload);
    lemma_held_unfolds(first, replies, at + 1);
    lemma_finished_job_holds_nothing(backend, kind, printer, payload, replies);
    lemma_released_between(first, replies, at + 1, resource);
}

} // verus!
