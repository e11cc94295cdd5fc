//! Submitting a print job: the job is run to its end against the operating
//! system, which the caller hands in as a function from a call to its
//! answer.

use crate::job::{
    failure_message, finished, message_view, outcome, pending, run, start, step, steps_left,
    FailureKind, JobKind, JobModel, PrintJob,
};
use crate::job_laws::lemma_finished_stays;
use crate::receipt::{crlf, generate_test_receipt, test_receipt_text, with_crlf_line_endings};
use crate::system::{Backend, OsCall, OsReply};
use vstd::prelude::*;
use vstd::slice::slice_to_vec;

verus! {

/// `calls` and `replies` are an exchange that `os` can have had with a job
/// that began as `first`: each call was the one pending when it was made,
/// and each reply is one that `os` gives to that call.
pub open spec fn conversation<F: Fn(OsCall) -> OsReply>(
    os: F,
    first: JobModel,
    calls: Seq<OsCall>,
    replies: Seq<OsReply>,
) -> bool {
    &&& calls.len() == replies.len()
    &&& forall|i: int|
        #![trigger calls[i]]
        0 <= i < calls.len() ==> {
            &&& pending(run(first, replies.take(i))) == Some(calls[i]@)
            &&& os.ensures((calls[i],), replies[i])
        }
}

/// `done` is what a job that began as `first` has come to by an exchange
/// with `os` that left no call pending.
pub open spec fn completed_by<F: Fn(OsCall) -> OsReply>(
    os: F,
    first: JobModel,
    done: JobModel,
) -> bool {
    exists|calls: Seq<OsCall>, replies: Seq<OsReply>|
        #![trigger conversation(os, first, calls, replies)]
        {
            &&& conversation(os, first, calls, replies)
            &&& done == run(first, replies)
            &&& finished(done)
        }
}

/// `result` is the message of a job that began as `first` and was run to
/// its end against `os`.
pub open spec fn answered_by<F: Fn(OsCall) -> OsReply>(
    os: F,
    first: JobModel,
    result: Result<String, String>,
) -> bool {
    exists|done: JobModel|
        #![trigger completed_by(os, first, done)]
        completed_by(os, first, done) && message_view(result) == outcome(done)
}

/// The payload of the self-test on a backend: the self-test receipt, with
/// the line endings a spooler expects where the job goes to a spooler.
pub open spec fn self_test_payload(backend: Backend) -> Seq<u8> {
    match backend {
        Backend::Spooler => crlf(vstd::utf8::encode_utf8(test_receipt_text())),
        _ => vstd::utf8::encode_utf8(test_receipt_text()),
    }
}

/// One more exchange extends a conversation.
proof fn lemma_conversation_extends<F: Fn(OsCall) -> OsReply>(
    os: F,
    first: JobModel,
    calls: Seq<OsCall>,
    replies: Seq<OsReply>,
    call: OsCall,
    reply: OsReply,
)
    requires
        conversation(os, first, calls, replies),
        pending(run(first, replies)) == Some(call@),
        os.ensures((call,), reply),
    ensures
        conversation(os, first, calls.push(call), replies.push(reply)),
        run(first, replies.push(reply)) == step(run(first, replies), reply),
{
    let more = replies.push(reply);
    assert(more.drop_last() =~= replies);
    assert forall|i: int| 0 <= i < calls.push(call).len() implies {
        &&& pending(run(first, more.take(i))) == Some(#[trigger] calls.push(call)[i]@)
        &&& os.ensures((calls.push(call)[i],), more[i])
    } by {
        if i < calls.len() {
            assert(more.take(i) =~= replies.take(i));
            assert(calls.push(call)[i] == calls[i]);
        } else {
            assert(more.take(i) =~= replies);
        }
    }
}

/// On a system without a way to print, a submission makes no call and
/// fails for that reason, whatever the system would answer.
pub proof fn lemma_unsupported_is_refused<F: Fn(OsCall) -> OsReply>(
    os: F,
    kind: JobKind,
    printer: Seq<char>,
    payload: Seq<u8>,
    calls: Seq<OsCall>,
    replies: Seq<OsReply>,
    result: Result<String, String>,
)
    ensures
        conversation(os, start(Backend::Unsupported, kind, printer, payload), calls, replies)
            ==> calls.len() == 0,
        answered_by(os, start(Backend::Unsupported, kind, printer, payload), result)
            ==> message_view(result) == Err::<Seq<char>, Seq<char>>(
            failure_message(FailureKind::PlatformUnsupported, kind, printer, Seq::empty()),
        ),
{
    let first = start(Backend::Unsupported, kind, printer, payload);
    if conversation(os, first, calls, replies) && calls.len() > 0 {
        assert(replies.take(0) =~= Seq::<OsReply>::empty());
        assert(pending(run(first, replies.take(0))) == Some(calls[0]@));
    }
    if answered_by(os, first, result) {
        let done = choose|done: JobModel|
            #![trigger completed_by(os, first, done)]
            completed_by(os, first, done) && message_view(result) == outcome(done);
        let (made, given) = choose|made: Seq<OsCall>, given: Seq<OsReply>|
            #![trigger conversation(os, first, made, given)]
            conversation(os, first, made, given) && done == run(first, given) && finished(done);
        lemma_finished_stays(first, given);
    }
}

/// `os` has one answer to every call: it never answers two calls of the
/// same content differently.
pub open spec fn single_valued<F: Fn(OsCall) -> OsReply>(os: F) -> bool {
    forall|one: OsCall, other: OsCall, first: OsReply, second: OsReply|
        #![trigger os.ensures((one,), first), os.ensures((other,), second)]
        one@ == other@ && os.ensures((one,), first) && os.ensures((other,), second) ==> first
            == second
}

/// Two conversations of a system that has one answer to every call agree
/// as far as both go.
proof fn lemma_conversations_agree<F: Fn(OsCall) -> OsReply>(
    os: F,
    first: JobModel,
    calls: Seq<OsCall>,
    replies: Seq<OsReply>,
    other_calls: Seq<OsCall>,
    other_replies: Seq<OsReply>,
    upto: int,
)
    requires
        single_valued(os),
        conversation(os, first, calls, replies),
        conversation(os, first, other_calls, other_replies),
        0 <= upto <= replies.len(),
        upto <= other_replies.len(),
    ensures
        replies.take(upto) == other_replies.take(upto),
    decreases upto,
{
    if upto == 0 {
        assert(replies.take(0) =~= other_replies.take(0));
    } else {
        let last = upto - 1;
        lemma_conversations_agree(os, first, calls, replies, other_calls, other_replies, last);
        assert(calls[last]@ == other_calls[last]@);
        assert(os.ensures((calls[last],), replies[last]));
        assert(os.ensures((other_calls[last],), other_replies[last]));
        assert(replies.take(upto) =~= replies.take(last).push(replies[last]));
        assert(other_replies.take(upto) =~= other_replies.take(last).push(other_replies[last]));
    }
}

/// Against a system that has one answer to every call, a submission has
/// one outcome.
pub proof fn lemma_outcome_is_determined<F: Fn(OsCall) -> OsReply>(
    os: F,
    first: JobModel,
    done: JobModel,
    other: JobModel,
)
    requires
        single_valued(os),
        completed_by(os, first, done),
        completed_by(os, first, other),
    ensures
        done == other,
{
    let (calls, replies) = choose|calls: Seq<OsCall>, replies: Seq<OsReply>|
        #![trigger conversation(os, first, calls, replies)]
        conversation(os, first, calls, replies) && done == run(first, replies) && finished(done);
    let (other_calls, other_replies) = choose|calls: Seq<OsCall>, replies: Seq<OsReply>|
        #![trigger conversation(os, first, calls, replies)]
        conversation(os, first, calls, replies) && other == run(first, replies) && finished(
            other,
        );
    let shorter = if replies.len() <= other_replies.len() {
        replies.len() as int
    } else {
        other_replies.len() as int
    };
    lemma_conversations_agree(os, first, calls, replies, other_calls, other_replies, shorter);
    assert(replies.take(replies.len() as int) =~= replies);
    assert(other_replies.take(other_replies.len() as int) =~= other_replies);
    if replies.len() < other_replies.len() {
        assert(pending(run(first, other_replies.take(shorter))) == Some(
            other_calls[shorter]@,
        ));
    } else if other_replies.len() < replies.len() {
        assert(pending(run(first, replies.take(shorter))) == Some(calls[shorter]@));
    }
}

/// Runs a job to its end: makes each pending call on `os` and hands the
/// answer to the job, until no call is pending.
pub fn submit<F: Fn(OsCall) -> OsReply>(job: PrintJob, os: F) -> (done: PrintJob)
    requires
        forall|call: OsCall| os.requires((call,)),
    ensures
        completed_by(os, job@, done@),
{
    let ghost first = job@;
    let ghost mut calls: Seq<OsCall> = Seq::empty();
    let ghost mut replies: Seq<OsReply> = Seq::empty();
    let mut job = job;
    while !job.is_finished()
        invariant
            forall|call: OsCall| os.requires((call,)),
            conversation(os, first, calls, replies),
            job@ == run(first, replies),
        decreases steps_left(job@.phase),
    {
        match job.pending() {
            Some(call) => {
                let ghost made = call;
                let reply = os(call);
                let ghost given = reply;
                job.step(reply);
                proof {
                    lemma_conversation_extends(os, first, calls, replies, made, given);
                    calls = calls.push(made);
                    replies = replies.push(given);
                }
            },
            None => {},
        }
    }
    job
}

/// Prints a receipt that the caller has formatted for the printer, and
/// returns the message of its success or of its failure.
pub fn print_escpos_receipt<F: Fn(OsCall) -> OsReply>(
    backend: Backend,
    printer_name: &str,
    escpos_data: &[u8],
    os: F,
) -> (result: Result<String, String>)
    requires
        forall|call: OsCall| os.requires((call,)),
    ensures
        answered_by(os, start(backend, JobKind::Receipt, printer_name@, escpos_data@), result),
{
    let job = PrintJob::begin(backend, JobKind::Receipt, printer_name, slice_to_vec(escpos_data));
    let done = submit(job, os);
    done.message()
}

/// Prints the self-test receipt, and returns the message of its success or
/// of its failure.
pub fn test_print_receipt<F: Fn(OsCall) -> OsReply>(
    backend: Backend,
    printer_name: &str,
    os: F,
) -> (result: Result<String, String>)
    requires
        forall|call: OsCall| os.requires((call,)),
    ensures
        answered_by(
            os,
            start(backend, JobKind::SelfTest, printer_name@, self_test_payload(backend)),
            result,
        ),
{
    let receipt = generate_test_receipt();
    let payload = match backend {
        Backend::Spooler => with_crlf_line_endings(receipt.as_str().as_bytes()),
        _ => slice_to_vec(receipt.as_str().as_bytes()),
    };
    let job = PrintJob::begin(backend, JobKind::SelfTest, printer_name, payload);
    let done = submit(job, os);
    done.message()
}

/// Prints a receipt through the spooler.
pub fn print_raw_windows<F: Fn(OsCall) -> OsReply>(
    printer_name: &str,
    data: &[u8],
    os: F,
) -> (result: Result<String, String>)
    requires
        forall|call: OsCall| os.requires((call,)),
    ensures
        answered_by(os, start(Backend::Spooler, JobKind::Receipt, printer_name@, data@), result),
{
    print_escpos_receipt(Backend::Spooler, printer_name, data, os)
}

/// Prints the self-test receipt through the spooler.
pub fn test_print_windows<F: Fn(OsCall) -> OsReply>(
    printer_name: &str,
    os: F,
) -> (result: Result<String, String>)
    requires
        forall|call: OsCall| os.requires((call,)),
    ensures
        answered_by(
            os,
            start(
                Backend::Spooler,
                JobKind::SelfTest,
                printer_name@,
                self_test_payload(Backend::Spooler),
            ),
            result,
        ),
{
    test_print_receipt(Backend::Spooler, printer_name, os)
}

/// Prints a receipt through the print command.
pub fn print_raw_macos<F: Fn(OsCall) -> OsReply>(
    printer_name: &str,
    data: &[u8],
    os: F,
) -> (result: Result<String, String>)
    requires
        forall|call: OsCall| os.requires((call,)),
    ensures
        answered_by(
            os,
            start(Backend::ShellUtility, JobKind::Receipt, printer_name@, data@),
            result,
        ),
{
    print_escpos_receipt(Backend::ShellUtility, printer_name, data, os)
}

/// Prints the self-test receipt through the print command.
pub fn test_print_macos<F: Fn(OsCall) -> OsReply>(
    printer_name: &str,
    os: F,
) -> (result: Result<String, String>)
    requires
        forall|call: OsCall| os.requires((call,)),
    ensures
        answered_by(
            os,
            start(
                Backend::ShellUtility,
                JobKind::SelfTest,
                printer_name@,
                self_test_payload(Backend::ShellUtility),
            ),
            result,
        ),
{
    test_print_receipt(Backend::ShellUtility, printer_name, os)
}

} // verus!
