//! Broadcasters: the native objects that events come from.

use vstd::prelude::*;
use crate::exchange::{query, Progress};
use crate::sys::{Call, Reply, SBBroadcasterRef};
use crate::text::Fault;

verus! {

/// The source of events.
#[derive(Debug, PartialEq, Eq)]
pub struct SBBroadcaster {
    /// The underlying raw `SBBroadcasterRef`.
    pub raw: SBBroadcasterRef,
}

impl SBBroadcaster {
    /// An operation of one call that ends with the owner of the token in its
    /// reply.
    pub open spec fn received(call: Call, replies: Seq<Reply>) -> Progress<SBBroadcaster> {
        query(call, replies, |reply: Reply| reply.broadcaster()).map(
            |raw: SBBroadcasterRef| SBBroadcaster { raw },
        )
    }

    /// Asks `call` and takes ownership of the token that comes back,
    /// unchecked.
    pub fn receive(call: Call, replies: &[Reply]) -> (progress: Progress<SBBroadcaster>)
        ensures
            progress == Self::received(call, replies@),
    {
        if replies.len() == 0 {
            Progress::Ask(call)
        } else {
            match replies[0].broadcaster() {
                Some(raw) => Progress::Done(Ok(SBBroadcaster { raw })),
                None => Progress::Done(Err(Fault::UnexpectedReply)),
            }
        }
    }

    /// Gives the broadcaster up. The result is the one call that releases it on the
    /// native side; its reply is not read.
    pub fn dispose(self) -> (call: Call)
        ensures
            call == Call::DisposeSBBroadcaster(self.raw),
    {
        Call::DisposeSBBroadcaster(self.raw)
    }
}

impl From<SBBroadcasterRef> for SBBroadcaster {
    /// Takes ownership of a raw token, unchecked.
    fn from(raw: SBBroadcasterRef) -> (wrapper: SBBroadcaster) {
        SBBroadcaster { raw }
    }
}

impl vstd::std_specs::convert::FromSpecImpl<SBBroadcasterRef> for SBBroadcaster {
    open spec fn obeys_from_spec() -> bool {
        true
    }

    open spec fn from_spec(raw: SBBroadcasterRef) -> SBBroadcaster {
        SBBroadcaster { raw }
    }
}

} // verus!
