//! Raw data read from a debugged program.

use vstd::prelude::*;
use crate::exchange::{query, Progress};
use crate::sys::{Call, Reply, SBDataRef};
use crate::text::Fault;

verus! {

/// A block of bytes held by the native library.
#[derive(Debug, PartialEq, Eq)]
pub struct SBData {
    /// The underlying raw `SBDataRef`.
    pub raw: SBDataRef,
}

impl SBData {
    /// An operation of one call that ends with the owner of the token in its
    /// reply.
    pub open spec fn received(call: Call, replies: Seq<Reply>) -> Progress<SBData> {
        query(call, replies, |reply: Reply| reply.data()).map(|raw: SBDataRef| SBData { raw })
    }

    /// Asks `call` and takes ownership of the token that comes back,
    /// unchecked.
    pub fn receive(call: Call, replies: &[Reply]) -> (progress: Progress<SBData>)
        ensures
            progress == Self::received(call, replies@),
    {
        if replies.len() == 0 {
            Progress::Ask(call)
        } else {
            match replies[0].data() {
                Some(raw) => Progress::Done(Ok(SBData { raw })),
                None => Progress::Done(Err(Fault::UnexpectedReply)),
            }
        }
    }

    /// Gives the data buffer up. The result is the one call that releases it on the
    /// native side; its reply is not read.
    pub fn dispose(self) -> (call: Call)
        ensures
            call == Call::DisposeSBData(self.raw),
    {
        Call::DisposeSBData(self.raw)
    }
}

impl From<SBDataRef> for SBData {
    /// Takes ownership of a raw token, unchecked.
    fn from(raw: SBDataRef) -> (wrapper: SBData) {
        SBData { raw }
    }
}

impl vstd::std_specs::convert::FromSpecImpl<SBDataRef> for SBData {
    open spec fn obeys_from_spec() -> bool {
        true
    }

    open spec fn from_spec(raw: SBDataRef) -> SBData {
        SBData { raw }
    }
}

} // verus!
