//! References to files.

use vstd::prelude::*;
use crate::exchange::{query, Progress};
use crate::sys::{Call, Reply, SBFileSpecRef};
use crate::text::Fault;

verus! {

/// A file reference, such as a process's executable.
#[derive(Debug, PartialEq, Eq)]
pub struct SBFileSpec {
    /// The underlying raw `SBFileSpecRef`.
    pub raw: SBFileSpecRef,
}

impl SBFileSpec {
    /// An operation of one call that ends with the owner of the token in its
    /// reply.
    pub open spec fn received(call: Call, replies: Seq<Reply>) -> Progress<SBFileSpec> {
        query(call, replies, |reply: Reply| reply.file_spec()).map(
            |raw: SBFileSpecRef| SBFileSpec { raw },
        )
    }

    /// Asks `call` and takes ownership of the token that comes back,
    /// unchecked.
    pub fn receive(call: Call, replies: &[Reply]) -> (progress: Progress<SBFileSpec>)
        ensures
            progress == Self::received(call, replies@),
    {
        if replies.len() == 0 {
            Progress::Ask(call)
        } else {
            match replies[0].file_spec() {
                Some(raw) => Progress::Done(Ok(SBFileSpec { raw })),
                None => Progress::Done(Err(Fault::UnexpectedReply)),
            }
        }
    }

    /// Gives the file reference up. The result is the one call that releases it on the
    /// native side; its reply is not read.
    pub fn dispose(self) -> (call: Call)
        ensures
            call == Call::DisposeSBFileSpec(self.raw),
    {
        Call::DisposeSBFileSpec(self.raw)
    }
}

impl From<SBFileSpecRef> for SBFileSpec {
    /// Takes ownership of a raw token, unchecked.
    fn from(raw: SBFileSpecRef) -> (wrapper: SBFileSpec) {
        SBFileSpec { raw }
    }
}

impl vstd::std_specs::convert::FromSpecImpl<SBFileSpecRef> for SBFileSpec {
    open spec fn obeys_from_spec() -> bool {
        true
    }

    open spec fn from_spec(raw: SBFileSpecRef) -> SBFileSpec {
        SBFileSpec { raw }
    }
}

} // verus!
