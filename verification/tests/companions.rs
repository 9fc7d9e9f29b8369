use lldb::sys::{SBAddressRef, SBBroadcasterRef, SBDataRef, SBFileSpecRef, SBTargetRef};
use lldb::{Call, Fault, Progress, Reply, SBAddress, SBBroadcaster, SBData, SBFileSpec, SBTarget};

#[test]
fn companions_release_their_own_token() {
    let raw = SBBroadcasterRef { addr: 0x10 };
    assert_eq!(SBBroadcaster::from(raw).dispose(), Call::DisposeSBBroadcaster(raw));
    let raw = SBAddressRef { addr: 0x20 };
    assert_eq!(SBAddress::from(raw).dispose(), Call::DisposeSBAddress(raw));
    let raw = SBDataRef { addr: 0x30 };
    assert_eq!(SBData::from(raw).dispose(), Call::DisposeSBData(raw));
    let raw = SBFileSpecRef { addr: 0x40 };
    assert_eq!(SBFileSpec::from(raw).dispose(), Call::DisposeSBFileSpec(raw));
    let raw = SBTargetRef { addr: 0x50 };
    assert_eq!(SBTarget::from(raw).dispose(), Call::DisposeSBTarget(raw));
}

#[test]
fn companions_are_received_from_their_own_kind_of_reply() {
    let call = Call::CreateSBStream;
    let address = SBAddressRef { addr: 0x20 };
    assert_eq!(SBAddress::receive(call, &[]), Progress::Ask(call));
    assert_eq!(
        SBAddress::receive(call, &[Reply::Address(address)]),
        Progress::Done(Ok(SBAddress { raw: address }))
    );
    assert_eq!(
        SBBroadcaster::receive(call, &[Reply::Address(address)]),
        Progress::Done(Err(Fault::UnexpectedReply))
    );
    assert_eq!(
        SBData::receive(call, &[Reply::Address(address)]),
        Progress::Done(Err(Fault::UnexpectedReply))
    );
    assert_eq!(
        SBFileSpec::receive(call, &[Reply::Address(address)]),
        Progress::Done(Err(Fault::UnexpectedReply))
    );
}
