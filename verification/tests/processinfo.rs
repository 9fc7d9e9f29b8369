use lldb::sys::{SBFileSpecRef, SBProcessInfoRef};
use lldb::{Call, Fault, Progress, Reply, SBFileSpec, SBProcessInfo};

const RAW: SBProcessInfoRef = SBProcessInfoRef { addr: 0x9000 };

fn info() -> SBProcessInfo {
    SBProcessInfo::from(RAW)
}

#[test]
fn group_absent_and_user_present() {
    let info = info();
    assert_eq!(info.group_id(&[]), Progress::Ask(Call::SBProcessInfoGroupIDIsValid(RAW)));
    assert_eq!(info.group_id(&[Reply::Flag(false)]), Progress::Done(Ok(None)));
    assert_eq!(info.user_id(&[]), Progress::Ask(Call::SBProcessInfoUserIDIsValid(RAW)));
    assert_eq!(
        info.user_id(&[Reply::Flag(true)]),
        Progress::Ask(Call::SBProcessInfoGetUserID(RAW))
    );
    assert_eq!(
        info.user_id(&[Reply::Flag(true), Reply::Word(1000)]),
        Progress::Done(Ok(Some(1000)))
    );
}

#[test]
fn absent_field_never_asks_its_getter() {
    let info = info();
    assert_eq!(
        info.user_id(&[Reply::Flag(false), Reply::Word(1000)]),
        Progress::Done(Ok(None))
    );
    assert_eq!(
        info.effective_user_id(&[Reply::Flag(false), Reply::Word(1000)]),
        Progress::Done(Ok(None))
    );
}

#[test]
fn effective_ids_follow_their_own_validity() {
    let info = info();
    assert_eq!(
        info.effective_user_id(&[]),
        Progress::Ask(Call::SBProcessInfoEffectiveUserIDIsValid(RAW))
    );
    assert_eq!(
        info.effective_user_id(&[Reply::Flag(true)]),
        Progress::Ask(Call::SBProcessInfoGetEffectiveUserID(RAW))
    );
    assert_eq!(
        info.effective_user_id(&[Reply::Flag(true), Reply::Word(0)]),
        Progress::Done(Ok(Some(0)))
    );
    assert_eq!(
        info.effective_group_id(&[]),
        Progress::Ask(Call::SBProcessInfoEffectiveGroupIDIsValid(RAW))
    );
    assert_eq!(
        info.effective_group_id(&[Reply::Flag(true)]),
        Progress::Ask(Call::SBProcessInfoGetEffectiveGroupID(RAW))
    );
    assert_eq!(
        info.effective_group_id(&[Reply::Flag(true), Reply::Word(u32::MAX)]),
        Progress::Done(Ok(Some(u32::MAX)))
    );
    assert_eq!(info.effective_group_id(&[Reply::Flag(false)]), Progress::Done(Ok(None)));
}

#[test]
fn group_present_is_read_from_its_getter() {
    let info = info();
    assert_eq!(
        info.group_id(&[Reply::Flag(true)]),
        Progress::Ask(Call::SBProcessInfoGetGroupID(RAW))
    );
    assert_eq!(info.group_id(&[Reply::Flag(true), Reply::Word(20)]), Progress::Done(Ok(Some(20))));
}

#[test]
fn optional_field_faults_on_other_replies() {
    let info = info();
    assert_eq!(info.user_id(&[Reply::Word(1000)]), Progress::Done(Err(Fault::UnexpectedReply)));
    assert_eq!(
        info.user_id(&[Reply::Flag(true), Reply::Flag(true)]),
        Progress::Done(Err(Fault::UnexpectedReply))
    );
    assert_eq!(
        info.group_id(&[Reply::Flag(true), Reply::Pid(20)]),
        Progress::Done(Err(Fault::UnexpectedReply))
    );
}

#[test]
fn process_name_is_read() {
    let info = info();
    assert_eq!(info.name(&[]), Progress::Ask(Call::SBProcessInfoGetName(RAW)));
    assert_eq!(info.name(&[Reply::Text(b"debugserver\0")]), Progress::Done(Ok("debugserver")));
    assert_eq!(
        info.name(&[Reply::Text(&[0xe2, 0x82, 0x00])]),
        Progress::Done(Err(Fault::MalformedText))
    );
}

#[test]
fn process_executable_is_wrapped() {
    let info = info();
    let file = SBFileSpecRef { addr: 0x9100 };
    assert_eq!(
        info.executable_file(&[]),
        Progress::Ask(Call::SBProcessInfoGetExecutableFile(RAW))
    );
    assert_eq!(
        info.executable_file(&[Reply::FileSpec(file)]),
        Progress::Done(Ok(SBFileSpec { raw: file }))
    );
}

#[test]
fn process_ids_are_passed_on_as_they_are() {
    let info = info();
    assert_eq!(info.process_id(&[]), Progress::Ask(Call::SBProcessInfoGetProcessID(RAW)));
    assert_eq!(info.process_id(&[Reply::Pid(4242)]), Progress::Done(Ok(4242)));
    assert_eq!(
        info.parent_process_id(&[]),
        Progress::Ask(Call::SBProcessInfoGetParentProcessID(RAW))
    );
    assert_eq!(info.parent_process_id(&[Reply::Pid(1)]), Progress::Done(Ok(1)));
    assert_eq!(info.process_id(&[Reply::Pid(u64::MAX)]), Progress::Done(Ok(u64::MAX)));
    assert_eq!(info.process_id(&[Reply::Word(1)]), Progress::Done(Err(Fault::UnexpectedReply)));
}

#[test]
fn process_info_clone_wraps_the_minted_token() {
    let info = info();
    let minted = SBProcessInfoRef { addr: 0x9800 };
    assert_eq!(info.clone(&[]), Progress::Ask(Call::CloneSBProcessInfo(RAW)));
    assert_eq!(
        info.clone(&[Reply::ProcessInfo(minted)]),
        Progress::Done(Ok(SBProcessInfo { raw: minted }))
    );
}

#[test]
fn process_info_dispose_names_its_token() {
    assert_eq!(info().dispose(), Call::DisposeSBProcessInfo(RAW));
}
