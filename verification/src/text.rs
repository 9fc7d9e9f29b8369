//! Reading text out of native buffers.
//!
//! The native library hands text over as a buffer of bytes in which a zero
//! byte marks the end. The text is the bytes before the first zero byte, and
//! it has to be UTF-8. A buffer without a zero byte, or whose text is not
//! UTF-8, is a breach of the native library's contract: it is reported as a
//! fault, never repaired.

use vstd::prelude::*;
use vstd::utf8::{decode_utf8, valid_utf8};

verus! {

/// A breach of the native library's contract. An operation that meets one
/// ends without a value.
#[derive(Clone, Copy, Debug, PartialEq, Eq, Structural)]
pub enum Fault {
    /// A text buffer had no terminating zero byte, or its text was not UTF-8.
    MalformedText,
    /// A reply was of another kind than the call it answers allows.
    UnexpectedReply,
}

/// `end` is the position of the first zero byte of `buffer`.
pub open spec fn ends_at(buffer: Seq<u8>, end: int) -> bool {
    &&& 0 <= end < buffer.len()
    &&& buffer[end] == 0
    &&& forall|i: int| 0 <= i < end ==> buffer[i] != 0
}

/// The buffer holds a zero byte.
pub open spec fn terminated(buffer: Seq<u8>) -> bool {
    exists|end: int| ends_at(buffer, end)
}

/// The bytes before the first zero byte of a terminated buffer.
pub open spec fn text_bytes(buffer: Seq<u8>) -> Seq<u8>
    recommends
        terminated(buffer),
{
    buffer.take(choose|end: int| ends_at(buffer, end))
}

/// The text that a native buffer holds, or the fault that it shows.
pub open spec fn text_of(buffer: Seq<u8>) -> Result<Seq<char>, Fault> {
    if terminated(buffer) && valid_utf8(text_bytes(buffer)) {
        Ok(decode_utf8(text_bytes(buffer)))
    } else {
        Err(Fault::MalformedText)
    }
}

/// A buffer has one first zero byte at most.
pub proof fn end_is_unique(buffer: Seq<u8>, first: int, second: int)
    requires
        ends_at(buffer, first),
        ends_at(buffer, second),
    ensures
        first == second,
{
    if first < second {
        assert(buffer[first] != 0);
    } else if second < first {
        assert(buffer[second] != 0);
    }
}

/// The text of a buffer is what stands before the zero byte at `end`,
/// wherever else the buffer goes on.
pub proof fn text_bytes_at(buffer: Seq<u8>, end: int)
    requires
        ends_at(buffer, end),
    ensures
        terminated(buffer),
        text_bytes(buffer) == buffer.take(end),
{
    let chosen = choose|e: int| ends_at(buffer, e);
    end_is_unique(buffer, chosen, end);
}

/// `core::str::from_utf8`: views the bytes as a string slice, without copying,
/// if and only if they are well-formed UTF-8; the slice then holds the
/// characters that the bytes encode.
#[verifier::external_body]
fn utf8_view<'a>(bytes: &'a [u8]) -> (text: Option<&'a str>)
    ensures
        text is Some <==> valid_utf8(bytes@),
        text matches Some(s) ==> s@ == decode_utf8(bytes@),
{
    core::str::from_utf8(bytes).ok()
}

/// Reads the text of a native buffer as a string slice that borrows from the
/// buffer: the bytes before the first zero byte, checked to be UTF-8.
pub fn read_text<'a>(buffer: &'a [u8]) -> (text: Result<&'a str, Fault>)
    ensures
        match text {
            Ok(s) => text_of(buffer@) == Ok::<Seq<char>, Fault>(s@),
            Err(fault) => text_of(buffer@) == Err::<Seq<char>, Fault>(fault),
        },
{
    let mut end: usize = 0;
    while end < buffer.len() && buffer[end] != 0
        invariant
            end <= buffer@.len(),
            forall|i: int| 0 <= i < end ==> buffer@[i] != 0,
        decreases buffer@.len() - end,
    {
        end += 1;
    }
    if end == buffer.len() {
        assert(!terminated(buffer@)) by {
            if terminated(buffer@) {
                let e = choose|e: int| ends_at(buffer@, e);
                assert(buffer@[e] != 0);
            }
        }
        return Err(Fault::MalformedText);
    }
    proof {
        text_bytes_at(buffer@, end as int);
    }
    let bytes = vstd::slice::slice_subrange(buffer, 0, end);
    match utf8_view(bytes) {
        Some(s) => Ok(s),
        None => Err(Fault::MalformedText),
    }
}

} // verus!
