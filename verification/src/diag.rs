//! The diagnostic channel: after any non-zero engine status, a bounded,
//! NUL-terminated message is fetched from the engine into a caller-supplied
//! buffer. This module decodes such buffers and turns a fetch outcome into
//! an error value whose engine-reported message is never empty.

use vstd::prelude::*;
use vstd::utf8::{decode_utf8, valid_utf8};

use crate::errors::Error;

verus! {

/// Index of the first NUL byte in `s`, or `s.len()` if none occurs.
pub open spec fn first_nul(s: Seq<u8>) -> int
    decreases s.len(),
{
    if s.len() == 0 {
        0
    } else if s[0] == 0u8 {
        0
    } else {
        1 + first_nul(s.drop_first())
    }
}

pub proof fn lemma_first_nul(s: Seq<u8>)
    ensures
        0 <= first_nul(s) <= s.len(),
        forall|j: int| 0 <= j < first_nul(s) ==> s[j] != 0u8,
        first_nul(s) < s.len() ==> s[first_nul(s)] == 0u8,
    decreases s.len(),
{
    if s.len() == 0 {
    } else if s[0] == 0u8 {
    } else {
        lemma_first_nul(s.drop_first());
        assert forall|j: int| 0 <= j < first_nul(s) implies s[j] != 0u8 by {
            if j > 0 {
                assert(s.drop_first()[j - 1] == s[j]);
            }
        }
        if first_nul(s) < s.len() {
            assert(s.drop_first()[first_nul(s) - 1] == s[first_nul(s)]);
        }
    }
}

/// `first_nul` is the unique index with no NUL before it and a NUL (or the
/// end of the buffer) at it.
pub proof fn lemma_first_nul_is(s: Seq<u8>, i: int)
    requires
        0 <= i <= s.len(),
        forall|j: int| 0 <= j < i ==> s[j] != 0u8,
        i < s.len() ==> s[i] == 0u8,
    ensures
        first_nul(s) == i,
    decreases s.len(),
{
    if s.len() == 0 {
    } else if s[0] == 0u8 {
        assert(i == 0);
    } else {
        assert(forall|j: int| 0 <= j < i - 1 ==> s.drop_first()[j] == s[j + 1]);
        if i - 1 < s.drop_first().len() {
            assert(s.drop_first()[i - 1] == s[i]);
        }
        lemma_first_nul_is(s.drop_first(), i - 1);
    }
}

/// The bytes of `buf` before its first NUL: the message text the engine wrote.
pub fn trim_at_nul(buf: &Vec<u8>) -> (r: Vec<u8>)
    ensures
        r@ == buf@.take(first_nul(buf@)),
{
    let mut i: usize = 0;
    let mut out: Vec<u8> = Vec::new();
    while i < buf.len()
        invariant
            i <= buf.len(),
            out@ == buf@.take(i as int),
            forall|j: int| 0 <= j < i ==> buf@[j] != 0u8,
        decreases buf.len() - i,
    {
        if buf[i] == 0u8 {
            proof {
                lemma_first_nul_is(buf@, i as int);
            }
            return out;
        }
        out.push(buf[i]);
        i = i + 1;
        proof {
            assert(out@ =~= buf@.take(i as int));
        }
    }
    proof {
        lemma_first_nul_is(buf@, buf@.len() as int);
        assert(out@ =~= buf@.take(first_nul(buf@)));
    }
    out
}

/// Relies on String::from_utf8: it succeeds exactly on valid UTF-8 input and
/// decodes those bytes to the string's characters.
#[verifier::external_body]
pub(crate) fn string_from_utf8(v: Vec<u8>) -> (r: Option<String>)
    ensures
        r is Some <==> valid_utf8(v@),
        r matches Some(s) ==> s@ == decode_utf8(v@),
{
    String::from_utf8(v).ok()
}

/// The raw outcome of one diagnostic fetch: the status the fetch call itself
/// returned, and the buffer the engine wrote into.
pub struct ErrFetch {
    pub status: i32,
    pub buf: Vec<u8>,
}

/// What error value a diagnostic fetch outcome must map to: a failed or empty
/// fetch is the distinct retrieval-failure condition, undecodable bytes are
/// reported as such, and otherwise the engine's (non-empty) message is carried.
pub open spec fn error_matches_fetch(e: Error, fetch_status: i32, raw: Seq<u8>) -> bool {
    let t = raw.take(first_nul(raw));
    if fetch_status != 0 {
        e is FetchingErrorFromTSNet
    } else if t.len() == 0 {
        e is FetchingErrorFromTSNet
    } else if !valid_utf8(t) {
        e is TSNetSentBadUTF8
    } else {
        e matches Error::TSNet(m) && m@ == decode_utf8(t)
    }
}

/// Builds the error for a non-zero boundary status from the diagnostic fetch
/// that followed it. An engine-reported error always carries a non-empty
/// message; when no non-empty text could be fetched, the distinct
/// retrieval-failure condition is reported instead of an empty message.
pub fn error_from_fetch(fetch: &ErrFetch) -> (e: Error)
    ensures
        error_matches_fetch(e, fetch.status, fetch.buf@),
        e matches Error::TSNet(m) ==> m@.len() > 0,
{
    if fetch.status != 0 {
        return Error::FetchingErrorFromTSNet;
    }
    let trimmed = trim_at_nul(&fetch.buf);
    if trimmed.len() == 0 {
        return Error::FetchingErrorFromTSNet;
    }
    match string_from_utf8(trimmed) {
        Some(m) => {
            proof {
                lemma_decode_utf8_nonempty(fetch.buf@.take(first_nul(fetch.buf@)));
            }
            Error::TSNet(m)
        },
        None => Error::TSNetSentBadUTF8,
    }
}

/// Non-empty valid UTF-8 decodes to at least one character.
proof fn lemma_decode_utf8_nonempty(bytes: Seq<u8>)
    requires
        bytes.len() > 0,
        valid_utf8(bytes),
    ensures
        decode_utf8(bytes).len() > 0,
{
}

/// A valid UTF-8 encoding never decodes to more characters than it has bytes:
/// every scalar takes at least one byte.
pub proof fn lemma_decode_utf8_len_le(bytes: Seq<u8>)
    requires
        valid_utf8(bytes),
    ensures
        decode_utf8(bytes).len() <= bytes.len(),
    decreases bytes.len(),
{
    if bytes.len() != 0 {
        assert(vstd::utf8::length_of_first_scalar(bytes) >= 1);
        lemma_decode_utf8_len_le(vstd::utf8::pop_first_scalar(bytes));
    }
}

/// A text buffer the engine filled decodes when it holds a NUL terminator
/// and the bytes before it are valid UTF-8.
pub open spec fn decode_ok(raw: Seq<u8>) -> bool {
    first_nul(raw) < raw.len() && valid_utf8(raw.take(first_nul(raw)))
}

/// The text an engine-filled buffer holds: its bytes before the first NUL.
pub open spec fn decoded_text(raw: Seq<u8>) -> Seq<char> {
    decode_utf8(raw.take(first_nul(raw)))
}

/// The error an undecodable engine text buffer maps to: a buffer without a
/// terminator would be truncated text and is rejected as such, otherwise the
/// bytes were not valid UTF-8.
pub open spec fn text_err_matches(e: Error, raw: Seq<u8>) -> bool {
    if first_nul(raw) == raw.len() {
        e is Truncated
    } else {
        e is TSNetSentBadUTF8
    }
}

/// Decodes one engine-filled text buffer after a boundary call: a non-zero
/// status is the engine's failure, paired with the fetched diagnostic; on
/// success the buffer must hold a NUL-terminated, valid-UTF-8 text, which is
/// returned whole — an unterminated buffer is an error, never silently
/// truncated. An empty text is valid.
pub fn decode_text(status: i32, buf: &Vec<u8>, fetch: &ErrFetch) -> (r: Result<String, Error>)
    ensures
        status != 0 ==> (r matches Err(e) && error_matches_fetch(e, fetch.status, fetch.buf@)),
        status == 0 ==> ((r is Ok) <==> decode_ok(buf@)),
        status == 0 && decode_ok(buf@) ==> (r matches Ok(s) && s@ == decoded_text(buf@)
            && s@.len() < buf@.len()),
        status == 0 && !decode_ok(buf@) ==> (r matches Err(e) && text_err_matches(e, buf@)),
        r matches Err(e) ==> (e matches Error::TSNet(m) ==> m@.len() > 0),
{
    if status != 0 {
        return Err(error_from_fetch(fetch));
    }
    proof {
        lemma_first_nul(buf@);
    }
    let trimmed = trim_at_nul(buf);
    if trimmed.len() == buf.len() {
        return Err(Error::Truncated);
    }
    match string_from_utf8(trimmed) {
        Some(s) => {
            proof {
                lemma_decode_utf8_len_le(buf@.take(first_nul(buf@)));
            }
            Ok(s)
        },
        None => Err(Error::TSNetSentBadUTF8),
    }
}

/// Absorbs one boundary status: status 0 is success; any non-zero status is
/// failure and is paired with the diagnostic fetched right after it.
pub fn absorb_status(status: i32, fetch: &ErrFetch) -> (r: Result<(), Error>)
    ensures
        r is Ok <==> status == 0,
        r matches Err(e) ==> error_matches_fetch(e, fetch.status, fetch.buf@),
        r matches Err(e) ==> (e matches Error::TSNet(m) ==> m@.len() > 0),
{
    if status == 0 {
        Ok(())
    } else {
        Err(error_from_fetch(fetch))
    }
}

} // verus!
