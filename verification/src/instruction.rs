//! Instructions: single decoded machine instructions.

use vstd::prelude::*;
use vstd::string::StringExecFns;
use crate::address::SBAddress;
use crate::data::SBData;
use crate::exchange::{
    ask_description, ask_flag, ask_size, ask_text, description_query, query, text_query,
    wrap_query, Progress, Subject,
};
use crate::lifetime::Owner;
use crate::sys::{Call, Reply, SBInstructionRef, SBTargetRef};
use crate::target::SBTarget;
use crate::text::Fault;

verus! {

/// A machine instruction.
///
/// An `SBInstruction` owns its token: it is not copied, a duplicate is
/// minted by the native library, and `dispose` takes the instruction by
/// value.
#[derive(Debug, PartialEq, Eq)]
pub struct SBInstruction {
    /// The underlying raw `SBInstructionRef`.
    pub raw: SBInstructionRef,
}

/// The operations that borrow an instruction.
pub enum InstructionAccess {
    /// `SBInstruction::is_valid`.
    IsValid,
    /// `SBInstruction::address`.
    Address,
    /// `SBInstruction::mnemonic`, with the target it is resolved against.
    Mnemonic(SBTargetRef),
    /// `SBInstruction::operands`, with the target it is resolved against.
    Operands(SBTargetRef),
    /// `SBInstruction::comment`, with the target it is resolved against.
    Comment(SBTargetRef),
    /// `SBInstruction::data`, with the target it is read through.
    Data(SBTargetRef),
    /// `SBInstruction::byte_size`.
    ByteSize,
    /// `SBInstruction::is_branch`.
    IsBranch,
    /// `SBInstruction::has_delay_slot`.
    HasDelaySlot,
    /// `SBInstruction::clone`.
    Clone,
    /// `SBInstruction::description`.
    Description,
}

impl SBInstruction {
    /// An operation of one call that ends with the owner of the token in its
    /// reply.
    pub open spec fn received(call: Call, replies: Seq<Reply>) -> Progress<SBInstruction> {
        query(call, replies, |reply: Reply| reply.instruction()).map(
            |raw: SBInstructionRef| SBInstruction { raw },
        )
    }

    /// Asks `call` and takes ownership of the token that comes back,
    /// unchecked.
    pub fn receive(call: Call, replies: &[Reply]) -> (progress: Progress<SBInstruction>)
        ensures
            progress == Self::received(call, replies@),
    {
        if replies.len() == 0 {
            Progress::Ask(call)
        } else {
            match replies[0].instruction() {
                Some(raw) => Progress::Done(Ok(SBInstruction { raw })),
                None => Progress::Done(Err(Fault::UnexpectedReply)),
            }
        }
    }

    /// Construct a new `Some(SBInstruction)` or `None`: asks the native
    /// library whether `raw` is valid, and wraps it if and only if it is.
    pub fn maybe_wrap(raw: SBInstructionRef, replies: &[Reply]) -> (progress: Progress<
        Option<SBInstruction>,
    >)
        ensures
            progress == wrap_query(
                Call::SBInstructionIsValid(raw),
                replies@,
                (SBInstruction { raw }),
            ),
    {
        if replies.len() == 0 {
            Progress::Ask(Call::SBInstructionIsValid(raw))
        } else {
            match replies[0] {
                Reply::Flag(true) => Progress::Done(Ok(Some(SBInstruction { raw }))),
                Reply::Flag(false) => Progress::Done(Ok(None)),
                _ => Progress::Done(Err(Fault::UnexpectedReply)),
            }
        }
    }

    /// Check whether or not this is a valid `SBInstruction` value. The native
    /// library is asked anew each time.
    pub fn is_valid(&self, replies: &[Reply]) -> (progress: Progress<bool>)
        ensures
            progress == query(
                Call::SBInstructionIsValid(self.raw),
                replies@,
                |reply: Reply| reply.flag(),
            ),
            progress.bare() == self.step(InstructionAccess::IsValid, replies@),
    {
        ask_flag(Call::SBInstructionIsValid(self.raw), replies)
    }

    /// Get the address of the instruction, as a wrapper of its own.
    pub fn address(&self, replies: &[Reply]) -> (progress: Progress<SBAddress>)
        ensures
            progress == SBAddress::received(Call::SBInstructionGetAddress(self.raw), replies@),
            progress.bare() == self.step(InstructionAccess::Address, replies@),
    {
        SBAddress::receive(Call::SBInstructionGetAddress(self.raw), replies)
    }

    /// The instruction's mnemonic, resolved against `target`. The target's
    /// token is passed on as it is, and none is remembered from one query to
    /// the next: two targets may give two texts.
    pub fn mnemonic<'a>(&self, target: &SBTarget, replies: &[Reply<'a>]) -> (progress: Progress<
        &'a str,
    >)
        ensures
            progress@ == text_query(
                Call::SBInstructionGetMnemonic(self.raw, target.raw),
                replies@,
            ),
            progress@.bare() == self.step(InstructionAccess::Mnemonic(target.raw), replies@),
    {
        ask_text(Call::SBInstructionGetMnemonic(self.raw, target.raw), replies)
    }

    /// The instruction's operands, resolved against `target`.
    pub fn operands<'a>(&self, target: &SBTarget, replies: &[Reply<'a>]) -> (progress: Progress<
        &'a str,
    >)
        ensures
            progress@ == text_query(
                Call::SBInstructionGetOperands(self.raw, target.raw),
                replies@,
            ),
            progress@.bare() == self.step(InstructionAccess::Operands(target.raw), replies@),
    {
        ask_text(Call::SBInstructionGetOperands(self.raw, target.raw), replies)
    }

    /// The comment on the instruction, resolved against `target`.
    pub fn comment<'a>(&self, target: &SBTarget, replies: &[Reply<'a>]) -> (progress: Progress<
        &'a str,
    >)
        ensures
            progress@ == text_query(
                Call::SBInstructionGetComment(self.raw, target.raw),
                replies@,
            ),
            progress@.bare() == self.step(InstructionAccess::Comment(target.raw), replies@),
    {
        ask_text(Call::SBInstructionGetComment(self.raw, target.raw), replies)
    }

    /// The instruction's raw bytes as read through `target`, as a wrapper of
    /// their own.
    pub fn data(&self, target: &SBTarget, replies: &[Reply]) -> (progress: Progress<SBData>)
        ensures
            progress == SBData::received(
                Call::SBInstructionGetData(self.raw, target.raw),
                replies@,
            ),
            progress.bare() == self.step(InstructionAccess::Data(target.raw), replies@),
    {
        SBData::receive(Call::SBInstructionGetData(self.raw, target.raw), replies)
    }

    /// The length of the instruction in bytes.
    pub fn byte_size(&self, replies: &[Reply]) -> (progress: Progress<usize>)
        ensures
            progress == query(
                Call::SBInstructionGetByteSize(self.raw),
                replies@,
                |reply: Reply| reply.size(),
            ),
            progress.bare() == self.step(InstructionAccess::ByteSize, replies@),
    {
        ask_size(Call::SBInstructionGetByteSize(self.raw), replies)
    }

    /// Whether the instruction branches.
    pub fn is_branch(&self, replies: &[Reply]) -> (progress: Progress<bool>)
        ensures
            progress == query(
                Call::SBInstructionDoesBranch(self.raw),
                replies@,
                |reply: Reply| reply.flag(),
            ),
            progress.bare() == self.step(InstructionAccess::IsBranch, replies@),
    {
        ask_flag(Call::SBInstructionDoesBranch(self.raw), replies)
    }

    /// Whether the instruction is followed by a delay slot.
    pub fn has_delay_slot(&self, replies: &[Reply]) -> (progress: Progress<bool>)
        ensures
            progress == query(
                Call::SBInstructionHasDelaySlot(self.raw),
                replies@,
                |reply: Reply| reply.flag(),
            ),
            progress.bare() == self.step(InstructionAccess::HasDelaySlot, replies@),
    {
        ask_flag(Call::SBInstructionHasDelaySlot(self.raw), replies)
    }

    /// Has the native library mint an independent duplicate of the
    /// instruction, and owns the duplicate. The token of `self` is never the
    /// one wrapped.
    pub fn clone(&self, replies: &[Reply]) -> (progress: Progress<SBInstruction>)
        ensures
            progress == Self::received(Call::CloneSBInstruction(self.raw), replies@),
            progress.bare() == self.step(InstructionAccess::Clone, replies@),
    {
        Self::receive(Call::CloneSBInstruction(self.raw), replies)
    }

    /// The native library's description of the instruction, as owned text.
    pub fn description(&self, replies: &[Reply]) -> (progress: Progress<String>)
        ensures
            progress@ == description_query(Subject::Instruction(self.raw), replies@),
            progress@.bare() == self.step(InstructionAccess::Description, replies@),
    {
        ask_description(Subject::Instruction(self.raw), replies)
    }

    /// The form in which an instruction is shown for debugging, around its
    /// description.
    pub fn debug_text(description: &str) -> (text: String)
        ensures
            text@ == "SBInstruction { "@ + description@ + " }"@,
    {
        let mut text = String::from_str("SBInstruction { ");
        text.append(description);
        text.append(" }");
        text
    }

    /// Gives the instruction up. The result is the one call that releases it
    /// on the native side; its reply is not read. The instruction is taken by
    /// value, so nothing can be asked of it afterwards and it cannot be given
    /// up twice.
    pub fn dispose(self) -> (call: Call)
        ensures
            call == Call::DisposeSBInstruction(self.raw),
            call == self.release(),
    {
        Call::DisposeSBInstruction(self.raw)
    }
}

impl Owner for SBInstruction {
    type Access = InstructionAccess;

    open spec fn step(self, access: InstructionAccess, replies: Seq<Reply>) -> Progress<()> {
        match access {
            InstructionAccess::IsValid => query(
                Call::SBInstructionIsValid(self.raw),
                replies,
                |reply: Reply| reply.flag(),
            ).bare(),
            InstructionAccess::Address => SBAddress::received(
                Call::SBInstructionGetAddress(self.raw),
                replies,
            ).bare(),
            InstructionAccess::Mnemonic(target) => text_query(
                Call::SBInstructionGetMnemonic(self.raw, target),
                replies,
            ).bare(),
            InstructionAccess::Operands(target) => text_query(
                Call::SBInstructionGetOperands(self.raw, target),
                replies,
            ).bare(),
            InstructionAccess::Comment(target) => text_query(
                Call::SBInstructionGetComment(self.raw, target),
                replies,
            ).bare(),
            InstructionAccess::Data(target) => SBData::received(
                Call::SBInstructionGetData(self.raw, target),
                replies,
            ).bare(),
            InstructionAccess::ByteSize => query(
                Call::SBInstructionGetByteSize(self.raw),
                replies,
                |reply: Reply| reply.size(),
            ).bare(),
            InstructionAccess::IsBranch => query(
                Call::SBInstructionDoesBranch(self.raw),
                replies,
                |reply: Reply| reply.flag(),
            ).bare(),
            InstructionAccess::HasDelaySlot => query(
                Call::SBInstructionHasDelaySlot(self.raw),
                replies,
                |reply: Reply| reply.flag(),
            ).bare(),
            InstructionAccess::Clone => Self::received(
                Call::CloneSBInstruction(self.raw),
                replies,
            ).bare(),
            InstructionAccess::Description => description_query(
                Subject::Instruction(self.raw),
                replies,
            ).bare(),
        }
    }

    open spec fn release(self) -> Call {
        Call::DisposeSBInstruction(self.raw)
    }

    open spec fn named_by(self, call: Call) -> bool {
        call.instruction() == Some(self.raw)
    }

    proof fn borrowing_releases_nothing(self, access: InstructionAccess, replies: Seq<Reply>) {
    }

    proof fn calls_name_no_other(
        self,
        other: SBInstruction,
        access: InstructionAccess,
        replies: Seq<Reply>,
    ) {
    }
}

impl From<SBInstructionRef> for SBInstruction {
    /// Takes ownership of a raw token, unchecked.
    fn from(raw: SBInstructionRef) -> (wrapper: SBInstruction) {
        SBInstruction { raw }
    }
}

impl vstd::std_specs::convert::FromSpecImpl<SBInstructionRef> for SBInstruction {
    open spec fn obeys_from_spec() -> bool {
        true
    }

    open spec fn from_spec(raw: SBInstructionRef) -> SBInstruction {
        SBInstruction { raw }
    }
}

} // verus!
