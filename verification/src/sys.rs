//! The native boundary as plain values: the tokens that stand for native
//! objects, the calls that can be made across the boundary, and the replies
//! that come back.
//!
//! A token is an address-sized number that only the native library can
//! interpret. Each kind of native object has a token type of its own, so that
//! one kind cannot be passed where another is expected.

use vstd::prelude::*;

verus! {

/// A process identifier as the native library reports it.
#[allow(non_camel_case_types)]
pub type lldb_pid_t = u64;

/// The token of a native event.
#[derive(Clone, Copy, Debug, PartialEq, Eq, Structural)]
pub struct SBEventRef {
    /// The address the native library knows the object by.
    pub addr: usize,
}

/// The token of a native instruction.
#[derive(Clone, Copy, Debug, PartialEq, Eq, Structural)]
pub struct SBInstructionRef {
    /// The address the native library knows the object by.
    pub addr: usize,
}

/// The token of a native process description.
#[derive(Clone, Copy, Debug, PartialEq, Eq, Structural)]
pub struct SBProcessInfoRef {
    /// The address the native library knows the object by.
    pub addr: usize,
}

/// The token of a native broadcaster.
#[derive(Clone, Copy, Debug, PartialEq, Eq, Structural)]
pub struct SBBroadcasterRef {
    /// The address the native library knows the object by.
    pub addr: usize,
}

/// The token of a native address.
#[derive(Clone, Copy, Debug, PartialEq, Eq, Structural)]
pub struct SBAddressRef {
    /// The address the native library knows the object by.
    pub addr: usize,
}

/// The token of a native data buffer.
#[derive(Clone, Copy, Debug, PartialEq, Eq, Structural)]
pub struct SBDataRef {
    /// The address the native library knows the object by.
    pub addr: usize,
}

/// The token of a native file reference.
#[derive(Clone, Copy, Debug, PartialEq, Eq, Structural)]
pub struct SBFileSpecRef {
    /// The address the native library knows the object by.
    pub addr: usize,
}

/// The token of a native debugging target.
#[derive(Clone, Copy, Debug, PartialEq, Eq, Structural)]
pub struct SBTargetRef {
    /// The address the native library knows the object by.
    pub addr: usize,
}

/// The token of a native text stream.
#[derive(Clone, Copy, Debug, PartialEq, Eq, Structural)]
pub struct SBStreamRef {
    /// The address the native library knows the object by.
    pub addr: usize,
}

/// One call into the native library, named after the native function, with
/// the tokens it is made on.
#[derive(Clone, Copy, Debug, PartialEq, Eq)]
pub enum Call {
    /// Allocates an empty event; answered with `Reply::Event`.
    CreateSBEvent,
    /// Allocates an independent duplicate; answered with `Reply::Event`.
    CloneSBEvent(SBEventRef),
    /// Releases the event; nothing is answered.
    DisposeSBEvent(SBEventRef),
    /// Answered with `Reply::Flag`.
    SBEventIsValid(SBEventRef),
    /// Answered with `Reply::Text`.
    SBEventGetDataFlavor(SBEventRef),
    /// Answered with `Reply::Word`.
    SBEventGetType(SBEventRef),
    /// Answered with `Reply::Broadcaster`.
    SBEventGetBroadcaster(SBEventRef),
    /// Answered with `Reply::Text`.
    SBEventGetBroadcasterClass(SBEventRef),
    /// Answered with `Reply::Flag`.
    SBEventBroadcasterMatchesRef(SBEventRef, SBBroadcasterRef),
    /// Renders a description into the stream; answered with `Reply::Flag`.
    SBEventGetDescription(SBEventRef, SBStreamRef),
    /// Allocates an independent duplicate; answered with `Reply::Instruction`.
    CloneSBInstruction(SBInstructionRef),
    /// Releases the instruction; nothing is answered.
    DisposeSBInstruction(SBInstructionRef),
    /// Answered with `Reply::Flag`.
    SBInstructionIsValid(SBInstructionRef),
    /// Answered with `Reply::Address`.
    SBInstructionGetAddress(SBInstructionRef),
    /// Answered with `Reply::Text`.
    SBInstructionGetMnemonic(SBInstructionRef, SBTargetRef),
    /// Answered with `Reply::Text`.
    SBInstructionGetOperands(SBInstructionRef, SBTargetRef),
    /// Answered with `Reply::Text`.
    SBInstructionGetComment(SBInstructionRef, SBTargetRef),
    /// Answered with `Reply::Data`.
    SBInstructionGetData(SBInstructionRef, SBTargetRef),
    /// Answered with `Reply::Size`.
    SBInstructionGetByteSize(SBInstructionRef),
    /// Answered with `Reply::Flag`.
    SBInstructionDoesBranch(SBInstructionRef),
    /// Answered with `Reply::Flag`.
    SBInstructionHasDelaySlot(SBInstructionRef),
    /// Renders a description into the stream; answered with `Reply::Flag`.
    SBInstructionGetDescription(SBInstructionRef, SBStreamRef),
    /// Allocates an independent duplicate; answered with `Reply::ProcessInfo`.
    CloneSBProcessInfo(SBProcessInfoRef),
    /// Releases the process description; nothing is answered.
    DisposeSBProcessInfo(SBProcessInfoRef),
    /// Answered with `Reply::Text`.
    SBProcessInfoGetName(SBProcessInfoRef),
    /// Answered with `Reply::FileSpec`.
    SBProcessInfoGetExecutableFile(SBProcessInfoRef),
    /// Answered with `Reply::Pid`.
    SBProcessInfoGetProcessID(SBProcessInfoRef),
    /// Answered with `Reply::Flag`.
    SBProcessInfoUserIDIsValid(SBProcessInfoRef),
    /// Answered with `Reply::Word`.
    SBProcessInfoGetUserID(SBProcessInfoRef),
    /// Answered with `Reply::Flag`.
    SBProcessInfoGroupIDIsValid(SBProcessInfoRef),
    /// Answered with `Reply::Word`.
    SBProcessInfoGetGroupID(SBProcessInfoRef),
    /// Answered with `Reply::Flag`.
    SBProcessInfoEffectiveUserIDIsValid(SBProcessInfoRef),
    /// Answered with `Reply::Word`.
    SBProcessInfoGetEffectiveUserID(SBProcessInfoRef),
    /// Answered with `Reply::Flag`.
    SBProcessInfoEffectiveGroupIDIsValid(SBProcessInfoRef),
    /// Answered with `Reply::Word`.
    SBProcessInfoGetEffectiveGroupID(SBProcessInfoRef),
    /// Answered with `Reply::Pid`.
    SBProcessInfoGetParentProcessID(SBProcessInfoRef),
    /// Releases the broadcaster; nothing is answered.
    DisposeSBBroadcaster(SBBroadcasterRef),
    /// Releases the address; nothing is answered.
    DisposeSBAddress(SBAddressRef),
    /// Releases the data buffer; nothing is answered.
    DisposeSBData(SBDataRef),
    /// Releases the file reference; nothing is answered.
    DisposeSBFileSpec(SBFileSpecRef),
    /// Releases the target; nothing is answered.
    DisposeSBTarget(SBTargetRef),
    /// Allocates an empty text stream; answered with `Reply::Stream`.
    CreateSBStream,
    /// Answered with `Reply::Text`.
    SBStreamGetData(SBStreamRef),
    /// Releases the stream; nothing is answered.
    DisposeSBStream(SBStreamRef),
}

impl Call {
    /// The event that the call is made on, if it is made on one.
    pub open spec fn event(self) -> Option<SBEventRef> {
        match self {
            Call::CloneSBEvent(raw) => Some(raw),
            Call::DisposeSBEvent(raw) => Some(raw),
            Call::SBEventIsValid(raw) => Some(raw),
            Call::SBEventGetDataFlavor(raw) => Some(raw),
            Call::SBEventGetType(raw) => Some(raw),
            Call::SBEventGetBroadcaster(raw) => Some(raw),
            Call::SBEventGetBroadcasterClass(raw) => Some(raw),
            Call::SBEventBroadcasterMatchesRef(raw, _) => Some(raw),
            Call::SBEventGetDescription(raw, _) => Some(raw),
            _ => None,
        }
    }

    /// The instruction that the call is made on, if it is made on one.
    pub open spec fn instruction(self) -> Option<SBInstructionRef> {
        match self {
            Call::CloneSBInstruction(raw) => Some(raw),
            Call::DisposeSBInstruction(raw) => Some(raw),
            Call::SBInstructionIsValid(raw) => Some(raw),
            Call::SBInstructionGetAddress(raw) => Some(raw),
            Call::SBInstructionGetMnemonic(raw, _) => Some(raw),
            Call::SBInstructionGetOperands(raw, _) => Some(raw),
            Call::SBInstructionGetComment(raw, _) => Some(raw),
            Call::SBInstructionGetData(raw, _) => Some(raw),
            Call::SBInstructionGetByteSize(raw) => Some(raw),
            Call::SBInstructionDoesBranch(raw) => Some(raw),
            Call::SBInstructionHasDelaySlot(raw) => Some(raw),
            Call::SBInstructionGetDescription(raw, _) => Some(raw),
            _ => None,
        }
    }

    /// The process description that the call is made on, if it is made on
    /// one.
    pub open spec fn process_info(self) -> Option<SBProcessInfoRef> {
        match self {
            Call::CloneSBProcessInfo(raw) => Some(raw),
            Call::DisposeSBProcessInfo(raw) => Some(raw),
            Call::SBProcessInfoGetName(raw) => Some(raw),
            Call::SBProcessInfoGetExecutableFile(raw) => Some(raw),
            Call::SBProcessInfoGetProcessID(raw) => Some(raw),
            Call::SBProcessInfoUserIDIsValid(raw) => Some(raw),
            Call::SBProcessInfoGetUserID(raw) => Some(raw),
            Call::SBProcessInfoGroupIDIsValid(raw) => Some(raw),
            Call::SBProcessInfoGetGroupID(raw) => Some(raw),
            Call::SBProcessInfoEffectiveUserIDIsValid(raw) => Some(raw),
            Call::SBProcessInfoGetEffectiveUserID(raw) => Some(raw),
            Call::SBProcessInfoEffectiveGroupIDIsValid(raw) => Some(raw),
            Call::SBProcessInfoGetEffectiveGroupID(raw) => Some(raw),
            Call::SBProcessInfoGetParentProcessID(raw) => Some(raw),
            _ => None,
        }
    }
}

/// What the native library hands back for one call.
#[derive(Clone, Copy, Debug, PartialEq, Eq)]
pub enum Reply<'a> {
    /// The answer to a yes-or-no query.
    Flag(bool),
    /// A 32-bit number.
    Word(u32),
    /// A size in bytes.
    Size(usize),
    /// A process identifier.
    Pid(lldb_pid_t),
    /// A native text buffer, which stays with the native library. The text
    /// ends at the buffer's first zero byte.
    Text(&'a [u8]),
    /// An event token.
    Event(SBEventRef),
    /// An instruction token.
    Instruction(SBInstructionRef),
    /// A process description token.
    ProcessInfo(SBProcessInfoRef),
    /// A broadcaster token.
    Broadcaster(SBBroadcasterRef),
    /// An address token.
    Address(SBAddressRef),
    /// A data buffer token.
    Data(SBDataRef),
    /// A file reference token.
    FileSpec(SBFileSpecRef),
    /// A text stream token.
    Stream(SBStreamRef),
}

impl<'a> Reply<'a> {
    /// The flag in the reply, if it is one.
    #[verifier::allow_in_spec]
    pub fn flag(self) -> Option<bool>
        returns
            (match self {
                Reply::Flag(flag) => Some(flag),
                _ => None,
            }),
    {
        match self {
            Reply::Flag(flag) => Some(flag),
            _ => None,
        }
    }

    /// The 32-bit number in the reply, if it is one.
    #[verifier::allow_in_spec]
    pub fn word(self) -> Option<u32>
        returns
            (match self {
                Reply::Word(word) => Some(word),
                _ => None,
            }),
    {
        match self {
            Reply::Word(word) => Some(word),
            _ => None,
        }
    }

    /// The size in the reply, if it is one.
    #[verifier::allow_in_spec]
    pub fn size(self) -> Option<usize>
        returns
            (match self {
                Reply::Size(size) => Some(size),
                _ => None,
            }),
    {
        match self {
            Reply::Size(size) => Some(size),
            _ => None,
        }
    }

    /// The process identifier in the reply, if it is one.
    #[verifier::allow_in_spec]
    pub fn pid(self) -> Option<lldb_pid_t>
        returns
            (match self {
                Reply::Pid(pid) => Some(pid),
                _ => None,
            }),
    {
        match self {
            Reply::Pid(pid) => Some(pid),
            _ => None,
        }
    }

    /// The text buffer in the reply, if it is one.
    #[verifier::allow_in_spec]
    pub fn text(self) -> Option<&'a [u8]>
        returns
            (match self {
                Reply::Text(buffer) => Some(buffer),
                _ => None,
            }),
    {
        match self {
            Reply::Text(buffer) => Some(buffer),
            _ => None,
        }
    }

    /// The event token in the reply, if it is one.
    #[verifier::allow_in_spec]
    pub fn event(self) -> Option<SBEventRef>
        returns
            (match self {
                Reply::Event(raw) => Some(raw),
                _ => None,
            }),
    {
        match self {
            Reply::Event(raw) => Some(raw),
            _ => None,
        }
    }

    /// The instruction token in the reply, if it is one.
    #[verifier::allow_in_spec]
    pub fn instruction(self) -> Option<SBInstructionRef>
        returns
            (match self {
                Reply::Instruction(raw) => Some(raw),
                _ => None,
            }),
    {
        match self {
            Reply::Instruction(raw) => Some(raw),
            _ => None,
        }
    }

    /// The process description token in the reply, if it is one.
    #[verifier::allow_in_spec]
    pub fn process_info(self) -> Option<SBProcessInfoRef>
        returns
            (match self {
                Reply::ProcessInfo(raw) => Some(raw),
                _ => None,
            }),
    {
        match self {
            Reply::ProcessInfo(raw) => Some(raw),
            _ => None,
        }
    }

    /// The broadcaster token in the reply, if it is one.
    #[verifier::allow_in_spec]
    pub fn broadcaster(self) -> Option<SBBroadcasterRef>
        returns
            (match self {
                Reply::Broadcaster(raw) => Some(raw),
                _ => None,
            }),
    {
        match self {
            Reply::Broadcaster(raw) => Some(raw),
            _ => None,
        }
    }

    /// The address token in the reply, if it is one.
    #[verifier::allow_in_spec]
    pub fn address(self) -> Option<SBAddressRef>
        returns
            (match self {
                Reply::Address(raw) => Some(raw),
                _ => None,
            }),
    {
        match self {
            Reply::Address(raw) => Some(raw),
            _ => None,
        }
    }

    /// The data buffer token in the reply, if it is one.
    #[verifier::allow_in_spec]
    pub fn data(self) -> Option<SBDataRef>
        returns
            (match self {
                Reply::Data(raw) => Some(raw),
                _ => None,
            }),
    {
        match self {
            Reply::Data(raw) => Some(raw),
            _ => None,
        }
    }

    /// The file reference token in the reply, if it is one.
    #[verifier::allow_in_spec]
    pub fn file_spec(self) -> Option<SBFileSpecRef>
        returns
            (match self {
                Reply::FileSpec(raw) => Some(raw),
                _ => None,
            }),
    {
        match self {
            Reply::FileSpec(raw) => Some(raw),
            _ => None,
        }
    }

    /// The stream token in the reply, if it is one.
    #[verifier::allow_in_spec]
    pub fn stream(self) -> Option<SBStreamRef>
        returns
            (match self {
                Reply::Stream(raw) => Some(raw),
                _ => None,
            }),
    {
        match self {
            Reply::Stream(raw) => Some(raw),
            _ => None,
        }
    }
}

} // verus!
