//! Debugging targets, as far as instructions need them.

use vstd::prelude::*;
use crate::sys::{Call, SBTargetRef};

verus! {

/// The target of a debugging session. Queries that resolve symbol names take
/// one as their context; they pass its token on and do not keep it.
#[derive(Debug, PartialEq, Eq)]
pub struct SBTarget {
    /// The underlying raw `SBTargetRef`.
    pub raw: SBTargetRef,
}

impl SBTarget {
    /// Gives the target up. The result is the one call that releases it on
    /// the native side; its reply is not read.
    pub fn dispose(self) -> (call: Call)
        ensures
            call == Call::DisposeSBTarget(self.raw),
    {
        Call::DisposeSBTarget(self.raw)
    }
}

impl From<SBTargetRef> for SBTarget {
    /// Takes ownership of a raw token, unchecked.
    fn from(raw: SBTargetRef) -> (wrapper: SBTarget) {
        SBTarget { raw }
    }
}

impl vstd::std_specs::convert::FromSpecImpl<SBTargetRef> for SBTarget {
    open spec fn obeys_from_spec() -> bool {
        true
    }

    open spec fn from_spec(raw: SBTargetRef) -> SBTarget {
        SBTarget { raw }
    }
}

} // verus!
