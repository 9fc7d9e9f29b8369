//! Addresses in a debugged program.

use vstd::prelude::*;
use crate::exchange::{query, Progress};
use crate::sys::{Call, Reply, SBAddressRef};
use crate::text::Fault;

verus! {

/// A section and offset based address.
#[derive(Debug, PartialEq, Eq)]
pub struct SBAddress {
    /// The underlying raw `SBAddressRef`.
    pub raw: SBAddressRef,
}

impl SBAddress {
    /// An operation of one call that ends with the owner of the token in its
    /// reply.
    pub open spec fn received(call: Call, replies: Seq<Reply>) -> Progress<SBAddress> {
        query(call, replies, |reply: Reply| reply.address()).map(
            |raw: SBAddressRef| SBAddress { raw },
        )
    }

    /// Asks `call` and takes ownership of the token that comes back,
    /// unchecked.
    pub fn receive(call: Call, replies: &[Reply]) -> (progress: Progress<SBAddress>)
        ensures
            progress == Self::received(call, replies@),
    {
        if replies.len() == 0 {
            Progress::Ask(call)
        } else {
            match replies[0].address() {
                Some(raw) => Progress::Done(Ok(SBAddress { raw })),
                None => Progress::Done(Err(Fault::UnexpectedReply)),
            }
        }
    }

    /// Gives the address up. The result is the one call that releases it on the
    /// native side; its reply is not read.
    pub fn dispose(self) -> (call: Call)
        ensures
            call == Call::DisposeSBAddress(self.raw),
    {
        Call::DisposeSBAddress(self.raw)
    }
}

impl From<SBAddressRef> for SBAddress {
    /// Takes ownership of a raw token, unchecked.
    fn from(raw: SBAddressRef) -> (wrapper: SBAddress) {
        SBAddress { raw }
    }
}

impl vstd::std_specs::convert::FromSpecImpl<SBAddressRef> for SBAddress {
    open spec fn obeys_from_spec() -> bool {
        true
    }

    open spec fn from_spec(raw: SBAddressRef) -> SBAddress {
        SBAddress { raw }
    }
}

} // verus!
