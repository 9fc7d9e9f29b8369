//! Process descriptions: who a process of the operating system is.

use vstd::prelude::*;
use crate::exchange::{
    ask_optional, ask_pid, ask_text, optional_query, query, text_query, Progress,
};
use crate::filespec::SBFileSpec;
use crate::lifetime::Owner;
use crate::sys::{lldb_pid_t, Call, Reply, SBProcessInfoRef};
use crate::text::Fault;

verus! {

/// A snapshot of a process's identity.
///
/// An `SBProcessInfo` owns its token: it is not copied, a duplicate is
/// minted by the native library, and `dispose` takes it by value.
#[derive(Debug, PartialEq, Eq)]
pub struct SBProcessInfo {
    /// The underlying raw `SBProcessInfoRef`.
    pub raw: SBProcessInfoRef,
}

/// The operations that borrow a process description.
pub enum ProcessInfoAccess {
    /// `SBProcessInfo::name`.
    Name,
    /// `SBProcessInfo::executable_file`.
    ExecutableFile,
    /// `SBProcessInfo::process_id`.
    ProcessId,
    /// `SBProcessInfo::user_id`.
    UserId,
    /// `SBProcessInfo::group_id`.
    GroupId,
    /// `SBProcessInfo::effective_user_id`.
    EffectiveUserId,
    /// `SBProcessInfo::effective_group_id`.
    EffectiveGroupId,
    /// `SBProcessInfo::parent_process_id`.
    ParentProcessId,
    /// `SBProcessInfo::clone`.
    Clone,
}

impl SBProcessInfo {
    /// An operation of one call that ends with the owner of the token in its
    /// reply.
    pub open spec fn received(call: Call, replies: Seq<Reply>) -> Progress<SBProcessInfo> {
        query(call, replies, |reply: Reply| reply.process_info()).map(
            |raw: SBProcessInfoRef| SBProcessInfo { raw },
        )
    }

    /// Asks `call` and takes ownership of the token that comes back,
    /// unchecked.
    pub fn receive(call: Call, replies: &[Reply]) -> (progress: Progress<SBProcessInfo>)
        ensures
            progress == Self::received(call, replies@),
    {
        if replies.len() == 0 {
            Progress::Ask(call)
        } else {
            match replies[0].process_info() {
                Some(raw) => Progress::Done(Ok(SBProcessInfo { raw })),
                None => Progress::Done(Err(Fault::UnexpectedReply)),
            }
        }
    }

    /// The name of the process.
    pub fn name<'a>(&self, replies: &[Reply<'a>]) -> (progress: Progress<&'a str>)
        ensures
            progress@ == text_query(Call::SBProcessInfoGetName(self.raw), replies@),
            progress@.bare() == self.step(ProcessInfoAccess::Name, replies@),
    {
        ask_text(Call::SBProcessInfoGetName(self.raw), replies)
    }

    /// The file that the process runs, as a wrapper of its own.
    pub fn executable_file(&self, replies: &[Reply]) -> (progress: Progress<SBFileSpec>)
        ensures
            progress == SBFileSpec::received(
                Call::SBProcessInfoGetExecutableFile(self.raw),
                replies@,
            ),
            progress.bare() == self.step(ProcessInfoAccess::ExecutableFile, replies@),
    {
        SBFileSpec::receive(Call::SBProcessInfoGetExecutableFile(self.raw), replies)
    }

    /// The identifier of the process.
    pub fn process_id(&self, replies: &[Reply]) -> (progress: Progress<lldb_pid_t>)
        ensures
            progress == query(
                Call::SBProcessInfoGetProcessID(self.raw),
                replies@,
                |reply: Reply| reply.pid(),
            ),
            progress.bare() == self.step(ProcessInfoAccess::ProcessId, replies@),
    {
        ask_pid(Call::SBProcessInfoGetProcessID(self.raw), replies)
    }

    /// The user the process runs as, where the platform tells.
    pub fn user_id(&self, replies: &[Reply]) -> (progress: Progress<Option<u32>>)
        ensures
            progress == optional_query(
                Call::SBProcessInfoUserIDIsValid(self.raw),
                Call::SBProcessInfoGetUserID(self.raw),
                replies@,
            ),
            progress.bare() == self.step(ProcessInfoAccess::UserId, replies@),
    {
        ask_optional(
            Call::SBProcessInfoUserIDIsValid(self.raw),
            Call::SBProcessInfoGetUserID(self.raw),
            replies,
        )
    }

    /// The group the process runs as, where the platform tells.
    pub fn group_id(&self, replies: &[Reply]) -> (progress: Progress<Option<u32>>)
        ensures
            progress == optional_query(
                Call::SBProcessInfoGroupIDIsValid(self.raw),
                Call::SBProcessInfoGetGroupID(self.raw),
                replies@,
            ),
            progress.bare() == self.step(ProcessInfoAccess::GroupId, replies@),
    {
        ask_optional(
            Call::SBProcessInfoGroupIDIsValid(self.raw),
            Call::SBProcessInfoGetGroupID(self.raw),
            replies,
        )
    }

    /// The effective user of the process, where the platform tells.
    pub fn effective_user_id(&self, replies: &[Reply]) -> (progress: Progress<Option<u32>>)
        ensures
            progress == optional_query(
                Call::SBProcessInfoEffectiveUserIDIsValid(self.raw),
                Call::SBProcessInfoGetEffectiveUserID(self.raw),
                replies@,
            ),
            progress.bare() == self.step(ProcessInfoAccess::EffectiveUserId, replies@),
    {
        ask_optional(
            Call::SBProcessInfoEffectiveUserIDIsValid(self.raw),
            Call::SBProcessInfoGetEffectiveUserID(self.raw),
            replies,
        )
    }

    /// The effective group of the process, where the platform tells.
    pub fn effective_group_id(&self, replies: &[Reply]) -> (progress: Progress<Option<u32>>)
        ensures
            progress == optional_query(
                Call::SBProcessInfoEffectiveGroupIDIsValid(self.raw),
                Call::SBProcessInfoGetEffectiveGroupID(self.raw),
                replies@,
            ),
            progress.bare() == self.step(ProcessInfoAccess::EffectiveGroupId, replies@),
    {
        ask_optional(
            Call::SBProcessInfoEffectiveGroupIDIsValid(self.raw),
            Call::SBProcessInfoGetEffectiveGroupID(self.raw),
            replies,
        )
    }

    /// The identifier of the process's parent.
    pub fn parent_process_id(&self, replies: &[Reply]) -> (progress: Progress<lldb_pid_t>)
        ensures
            progress == query(
                Call::SBProcessInfoGetParentProcessID(self.raw),
                replies@,
                |reply: Reply| reply.pid(),
            ),
            progress.bare() == self.step(ProcessInfoAccess::ParentProcessId, replies@),
    {
        ask_pid(Call::SBProcessInfoGetParentProcessID(self.raw), replies)
    }

    /// Has the native library mint an independent duplicate of the process
    /// description, and owns the duplicate. The token of `self` is never the
    /// one wrapped.
    pub fn clone(&self, replies: &[Reply]) -> (progress: Progress<SBProcessInfo>)
        ensures
            progress == Self::received(Call::CloneSBProcessInfo(self.raw), replies@),
            progress.bare() == self.step(ProcessInfoAccess::Clone, replies@),
    {
        Self::receive(Call::CloneSBProcessInfo(self.raw), replies)
    }

    /// Gives the process description up. The result is the one call that
    /// releases it on the native side; its reply is not read. It is taken by
    /// value, so nothing can be asked of it afterwards and it cannot be given
    /// up twice.
    pub fn dispose(self) -> (call: Call)
        ensures
            call == Call::DisposeSBProcessInfo(self.raw),
            call == self.release(),
    {
        Call::DisposeSBProcessInfo(self.raw)
    }
}

impl Owner for SBProcessInfo {
    type Access = ProcessInfoAccess;

    open spec fn step(self, access: ProcessInfoAccess, replies: Seq<Reply>) -> Progress<()> {
        match access {
            ProcessInfoAccess::Name => text_query(
                Call::SBProcessInfoGetName(self.raw),
                replies,
            ).bare(),
            ProcessInfoAccess::ExecutableFile => SBFileSpec::received(
                Call::SBProcessInfoGetExecutableFile(self.raw),
                replies,
            ).bare(),
            ProcessInfoAccess::ProcessId => query(
                Call::SBProcessInfoGetProcessID(self.raw),
                replies,
                |reply: Reply| reply.pid(),
            ).bare(),
            ProcessInfoAccess::UserId => optional_query(
                Call::SBProcessInfoUserIDIsValid(self.raw),
                Call::SBProcessInfoGetUserID(self.raw),
                replies,
            ).bare(),
            ProcessInfoAccess::GroupId => optional_query(
                Call::SBProcessInfoGroupIDIsValid(self.raw),
                Call::SBProcessInfoGetGroupID(self.raw),
                replies,
            ).bare(),
            ProcessInfoAccess::EffectiveUserId => optional_query(
                Call::SBProcessInfoEffectiveUserIDIsValid(self.raw),
                Call::SBProcessInfoGetEffectiveUserID(self.raw),
                replies,
            ).bare(),
            ProcessInfoAccess::EffectiveGroupId => optional_query(
                Call::SBProcessInfoEffectiveGroupIDIsValid(self.raw),
                Call::SBProcessInfoGetEffectiveGroupID(self.raw),
                replies,
            ).bare(),
            ProcessInfoAccess::ParentProcessId => query(
                Call::SBProcessInfoGetParentProcessID(self.raw),
                replies,
                |reply: Reply| reply.pid(),
            ).bare(),
            ProcessInfoAccess::Clone => Self::received(
                Call::CloneSBProcessInfo(self.raw),
                replies,
            ).bare(),
        }
    }

    open spec fn release(self) -> Call {
        Call::DisposeSBProcessInfo(self.raw)
    }

    open spec fn named_by(self, call: Call) -> bool {
        call.process_info() == Some(self.raw)
    }

    proof fn borrowing_releases_nothing(self, access: ProcessInfoAccess, replies: Seq<Reply>) {
    }

    proof fn calls_name_no_other(
        self,
        other: SBProcessInfo,
        access: ProcessInfoAccess,
        replies: Seq<Reply>,
    ) {
    }
}

impl From<SBProcessInfoRef> for SBProcessInfo {
    /// Takes ownership of a raw token, unchecked.
    fn from(raw: SBProcessInfoRef) -> (wrapper: SBProcessInfo) {
        SBProcessInfo { raw }
    }
}

impl vstd::std_specs::convert::FromSpecImpl<SBProcessInfoRef> for SBProcessInfo {
    open spec fn obeys_from_spec() -> bool {
        true
    }

    open spec fn from_spec(raw: SBProcessInfoRef) -> SBProcessInfo {
        SBProcessInfo { raw }
    }
}

} // verus!
