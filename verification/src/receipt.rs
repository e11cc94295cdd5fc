//! The self-test receipt: a fixed banner that shows a printer is reachable
//! before live receipts are sent to it.

use vstd::prelude::*;
use vstd::string::StringSliceAdditionalSpecFns;

verus! {

/// The separator line of the banner.
pub const RECEIPT_RULE: &'static str = "================================";

/// The product label line of the banner.
pub const RECEIPT_TITLE: &'static str = "      OCT PHARMACY POS          ";

/// The line that tells the operator the test went through.
pub const RECEIPT_STATUS: &'static str = "       TEST PRINT OK            ";

/// One line of text with its line feed.
pub open spec fn line(text: Seq<char>) -> Seq<char> {
    text + seq!['\n']
}

/// The text of the self-test receipt: header, product label, separator,
/// the status line between two blank lines, a closing separator and two blank
/// lines of feed.
pub open spec fn test_receipt_text() -> Seq<char> {
    line(RECEIPT_RULE@) + line(RECEIPT_TITLE@) + line(RECEIPT_RULE@) + line(Seq::empty())
        + line(RECEIPT_STATUS@) + line(Seq::empty()) + line(RECEIPT_RULE@) + line(
        Seq::empty(),
    ) + line(Seq::empty())
}

/// Whether the last byte is a line feed that has no carriage return
/// before it.
pub open spec fn ends_in_bare_line_feed(bytes: Seq<u8>) -> bool {
    bytes.len() > 0 && bytes.last() == 0x0Au8 && !(bytes.len() >= 2 && bytes[bytes.len() - 2]
        == 0x0Du8)
}

/// A byte sequence with its line endings normalised: every line feed that
/// has no carriage return before it is given one.  All other bytes are
/// kept as they are, so that a line that already ends in carriage return
/// and line feed is not changed.
pub open spec fn crlf(bytes: Seq<u8>) -> Seq<u8>
    decreases bytes.len(),
{
    if bytes.len() == 0 {
        Seq::empty()
    } else if ends_in_bare_line_feed(bytes) {
        crlf(bytes.drop_last()) + seq![0x0Du8, 0x0Au8]
    } else {
        crlf(bytes.drop_last()).push(bytes.last())
    }
}

/// The number of line feeds without a carriage return before them.
pub open spec fn bare_line_feeds(bytes: Seq<u8>) -> nat
    decreases bytes.len(),
{
    if bytes.len() == 0 {
        0
    } else if ends_in_bare_line_feed(bytes) {
        bare_line_feeds(bytes.drop_last()) + 1
    } else {
        bare_line_feeds(bytes.drop_last())
    }
}

/// Normalising adds exactly one byte for every line feed that had no
/// carriage return before it, and keeps the last byte.
pub proof fn lemma_crlf_len(bytes: Seq<u8>)
    ensures
        crlf(bytes).len() == bytes.len() + bare_line_feeds(bytes),
        bytes.len() > 0 ==> crlf(bytes).len() > 0 && crlf(bytes).last() == bytes.last(),
    decreases bytes.len(),
{
    if bytes.len() > 0 {
        lemma_crlf_len(bytes.drop_last());
    }
}

/// Text without a line feed is not changed by the normalisation.
pub proof fn lemma_crlf_without_line_feed(bytes: Seq<u8>)
    requires
        forall|i: int| 0 <= i < bytes.len() ==> bytes[i] != 0x0Au8,
    ensures
        crlf(bytes) == bytes,
    decreases bytes.len(),
{
    if bytes.len() > 0 {
        lemma_crlf_without_line_feed(bytes.drop_last());
        assert(bytes.drop_last().push(bytes.last()) =~= bytes);
    }
}

/// In normalised text every line feed has a carriage return before it.
pub proof fn lemma_crlf_has_no_bare_line_feed(bytes: Seq<u8>)
    ensures
        forall|i: int|
            0 <= i < crlf(bytes).len() && #[trigger] crlf(bytes)[i] == 0x0Au8 ==> i > 0 && crlf(
                bytes,
            )[i - 1] == 0x0Du8,
    decreases bytes.len(),
{
    if bytes.len() > 0 {
        let before = bytes.drop_last();
        lemma_crlf_has_no_bare_line_feed(before);
        lemma_crlf_len(before);
        let done = crlf(before);
        assert forall|i: int|
            0 <= i < crlf(bytes).len() && #[trigger] crlf(bytes)[i] == 0x0Au8 implies i > 0
            && crlf(bytes)[i - 1] == 0x0Du8 by {
            if i < done.len() {
                assert(crlf(bytes)[i] == done[i]);
                assert(crlf(bytes)[i - 1] == done[i - 1]);
            } else if !ends_in_bare_line_feed(bytes) {
                assert(before.last() == bytes[bytes.len() - 2]);
            }
        }
    }
}

/// Normalised text is not changed by normalising it again.
pub proof fn lemma_crlf_is_idempotent(bytes: Seq<u8>)
    ensures
        crlf(crlf(bytes)) == crlf(bytes),
    decreases bytes.len(),
{
    if bytes.len() > 0 {
        let before = bytes.drop_last();
        let done = crlf(before);
        lemma_crlf_is_idempotent(before);
        lemma_crlf_len(before);
        if ends_in_bare_line_feed(bytes) {
            let with_return = done.push(0x0Du8);
            let whole = with_return.push(0x0Au8);
            assert(crlf(bytes) =~= whole);
            assert(whole.drop_last() =~= with_return);
            assert(with_return.drop_last() =~= done);
            assert(!ends_in_bare_line_feed(whole));
            assert(!ends_in_bare_line_feed(with_return));
            assert(crlf(with_return) == crlf(done).push(0x0Du8));
            assert(crlf(whole) == crlf(with_return).push(0x0Au8));
        } else {
            let whole = done.push(bytes.last());
            assert(whole.drop_last() =~= done);
            if bytes.last() == 0x0Au8 {
                assert(before.last() == bytes[bytes.len() - 2]);
                assert(whole[whole.len() - 2] == done.last());
            }
            assert(!ends_in_bare_line_feed(whole));
        }
    }
}

/// Two receipts that are the self-test receipt are the same, character by
/// character and byte by byte.
pub proof fn lemma_receipt_is_fixed(first: &str, second: &str)
    requires
        first@ == test_receipt_text(),
        second@ == test_receipt_text(),
    ensures
        first@ == second@,
        first.spec_bytes() == second.spec_bytes(),
{
}

/// Builds the self-test receipt.  The text is fixed: every call returns the
/// same characters.
pub fn generate_test_receipt() -> (receipt: String)
    ensures
        receipt@ == test_receipt_text(),
{
    proof {
        reveal_strlit("\n");
    }
    let mut receipt = String::new();
    receipt.append(RECEIPT_RULE);
    receipt.append("\n");
    receipt.append(RECEIPT_TITLE);
    receipt.append("\n");
    receipt.append(RECEIPT_RULE);
    receipt.append("\n");
    receipt.append("\n");
    receipt.append(RECEIPT_STATUS);
    receipt.append("\n");
    receipt.append("\n");
    receipt.append(RECEIPT_RULE);
    receipt.append("\n");
    receipt.append("\n");
    receipt.append("\n");
    assert(receipt@ =~= test_receipt_text());
    receipt
}

/// Normalises the line endings of a text to carriage return and line
/// feed, the line ending a spooler expects in text it is given raw.
pub fn with_crlf_line_endings(text: &[u8]) -> (out: Vec<u8>)
    ensures
        out@ == crlf(text@),
{
    let mut out: Vec<u8> = Vec::new();
    let mut i: usize = 0;
    while i < text.len()
        invariant
            i <= text.len(),
            out@ == crlf(text@.take(i as int)),
        decreases text.len() - i,
    {
        let byte = text[i];
        proof {
            let next = text@.take(i + 1);
            assert(next.drop_last() =~= text@.take(i as int));
            assert(next.last() == byte);
            if i > 0 {
                assert(next[next.len() - 2] == text@[i - 1]);
            }
        }
        if byte == 0x0Au8 && !(i > 0 && text[i - 1] == 0x0Du8) {
            out.push(0x0Du8);
            out.push(0x0Au8);
            assert(out@ =~= crlf(text@.take(i as int)) + seq![0x0Du8, 0x0Au8]);
        } else {
            out.push(byte);
        }
        i += 1;
    }
    assert(text@.take(text.len() as int) =~= text@);
    out
}

} // verus!
