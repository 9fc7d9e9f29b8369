use lldb::sys::{SBBroadcasterRef, SBEventRef, SBStreamRef};
use lldb::{Call, Fault, Progress, Reply, SBBroadcaster, SBEvent};

const RAW: SBEventRef = SBEventRef { addr: 0x1000 };

fn event() -> SBEvent {
    SBEvent::from(RAW)
}

#[test]
fn valid_event_is_wrapped_and_read() {
    assert_eq!(SBEvent::maybe_wrap(RAW, &[]), Progress::Ask(Call::SBEventIsValid(RAW)));
    let event = match SBEvent::maybe_wrap(RAW, &[Reply::Flag(true)]) {
        Progress::Done(Ok(Some(event))) => event,
        other => panic!("no wrapper: {:?}", other),
    };
    assert_eq!(event.raw, RAW);
    assert_eq!(event.data_flavor(&[]), Progress::Ask(Call::SBEventGetDataFlavor(RAW)));
    assert_eq!(
        event.data_flavor(&[Reply::Text(b"StateChanged\0")]),
        Progress::Done(Ok("StateChanged"))
    );
    assert_eq!(event.event_type(&[]), Progress::Ask(Call::SBEventGetType(RAW)));
    assert_eq!(event.event_type(&[Reply::Word(1)]), Progress::Done(Ok(1)));
}

#[test]
fn invalid_event_is_not_wrapped() {
    assert_eq!(SBEvent::maybe_wrap(RAW, &[Reply::Flag(false)]), Progress::Done(Ok(None)));
}

#[test]
fn null_event_is_asked_about_like_any_other() {
    let null = SBEventRef { addr: 0 };
    assert_eq!(SBEvent::maybe_wrap(null, &[]), Progress::Ask(Call::SBEventIsValid(null)));
    assert_eq!(SBEvent::maybe_wrap(null, &[Reply::Flag(false)]), Progress::Done(Ok(None)));
}

#[test]
fn wrapping_faults_on_a_reply_that_is_no_flag() {
    assert_eq!(
        SBEvent::maybe_wrap(RAW, &[Reply::Word(1)]),
        Progress::Done(Err(Fault::UnexpectedReply))
    );
    assert_eq!(
        SBEvent::maybe_wrap(RAW, &[Reply::Event(RAW)]),
        Progress::Done(Err(Fault::UnexpectedReply))
    );
}

#[test]
fn new_event_owns_the_created_token() {
    assert_eq!(SBEvent::new(&[]), Progress::Ask(Call::CreateSBEvent));
    let made = SBEventRef { addr: 0x2000 };
    assert_eq!(SBEvent::new(&[Reply::Event(made)]), Progress::Done(Ok(SBEvent { raw: made })));
    assert_eq!(SBEvent::new(&[Reply::Flag(true)]), Progress::Done(Err(Fault::UnexpectedReply)));
}

#[test]
fn from_wraps_unchecked() {
    assert_eq!(SBEvent::from(RAW), SBEvent { raw: RAW });
    assert_eq!(SBEvent::from(SBEventRef { addr: 0 }).raw.addr, 0);
}

#[test]
fn event_validity_is_asked_each_time() {
    let event = event();
    assert_eq!(event.is_valid(&[]), Progress::Ask(Call::SBEventIsValid(RAW)));
    assert_eq!(event.is_valid(&[Reply::Flag(true)]), Progress::Done(Ok(true)));
    assert_eq!(event.is_valid(&[]), Progress::Ask(Call::SBEventIsValid(RAW)));
    assert_eq!(event.is_valid(&[Reply::Flag(false)]), Progress::Done(Ok(false)));
    assert_eq!(event.is_valid(&[Reply::Size(1)]), Progress::Done(Err(Fault::UnexpectedReply)));
}

#[test]
fn event_text_faults_when_malformed() {
    let event = event();
    assert_eq!(
        event.data_flavor(&[Reply::Text(&[0xff, 0x00])]),
        Progress::Done(Err(Fault::MalformedText))
    );
    assert_eq!(
        event.data_flavor(&[Reply::Text(b"no end")]),
        Progress::Done(Err(Fault::MalformedText))
    );
    assert_eq!(
        event.broadcaster_class(&[Reply::Text(&[0xc3, 0x28, 0x00])]),
        Progress::Done(Err(Fault::MalformedText))
    );
    assert_eq!(
        event.data_flavor(&[Reply::Word(7)]),
        Progress::Done(Err(Fault::UnexpectedReply))
    );
}

#[test]
fn event_broadcaster_is_wrapped() {
    let event = event();
    let from = SBBroadcasterRef { addr: 0x3000 };
    assert_eq!(event.broadcaster(&[]), Progress::Ask(Call::SBEventGetBroadcaster(RAW)));
    assert_eq!(
        event.broadcaster(&[Reply::Broadcaster(from)]),
        Progress::Done(Ok(SBBroadcaster { raw: from }))
    );
    assert_eq!(
        event.broadcaster(&[Reply::Event(RAW)]),
        Progress::Done(Err(Fault::UnexpectedReply))
    );
}

#[test]
fn event_broadcaster_class_is_read() {
    let event = event();
    assert_eq!(event.broadcaster_class(&[]), Progress::Ask(Call::SBEventGetBroadcasterClass(RAW)));
    assert_eq!(
        event.broadcaster_class(&[Reply::Text(b"lldb.process\0")]),
        Progress::Done(Ok("lldb.process"))
    );
}

#[test]
fn event_broadcaster_match_passes_both_tokens() {
    let event = event();
    let one = SBBroadcaster::from(SBBroadcasterRef { addr: 0x3000 });
    let two = SBBroadcaster::from(SBBroadcasterRef { addr: 0x3008 });
    assert_eq!(
        event.broadcaster_matches_ref(&one, &[]),
        Progress::Ask(Call::SBEventBroadcasterMatchesRef(RAW, one.raw))
    );
    assert_eq!(
        event.broadcaster_matches_ref(&two, &[]),
        Progress::Ask(Call::SBEventBroadcasterMatchesRef(RAW, two.raw))
    );
    assert_eq!(event.broadcaster_matches_ref(&one, &[Reply::Flag(true)]), Progress::Done(Ok(true)));
    assert_eq!(event.broadcaster_matches_ref(&two, &[Reply::Flag(false)]), Progress::Done(Ok(false)));
}

#[test]
fn event_clone_wraps_the_minted_token() {
    let event = event();
    let minted = SBEventRef { addr: 0x4000 };
    assert_eq!(event.clone(&[]), Progress::Ask(Call::CloneSBEvent(RAW)));
    assert_eq!(event.clone(&[Reply::Event(minted)]), Progress::Done(Ok(SBEvent { raw: minted })));
    assert_eq!(event.raw, RAW);
}

#[test]
fn event_description_goes_through_a_stream() {
    let event = event();
    let stream = SBStreamRef { addr: 0x5000 };
    assert_eq!(event.description(&[]), Progress::Ask(Call::CreateSBStream));
    let mut replies = vec![Reply::Stream(stream)];
    assert_eq!(event.description(&replies), Progress::Ask(Call::SBEventGetDescription(RAW, stream)));
    replies.push(Reply::Flag(true));
    assert_eq!(event.description(&replies), Progress::Ask(Call::SBStreamGetData(stream)));
    replies.push(Reply::Text(b"0x1000 Event: broadcaster = 0x3000, type = 0x00000001\0"));
    assert_eq!(
        event.description(&replies),
        Progress::Finish(
            Call::DisposeSBStream(stream),
            Ok(String::from("0x1000 Event: broadcaster = 0x3000, type = 0x00000001"))
        )
    );
}

#[test]
fn event_description_releases_the_stream_on_a_fault() {
    let event = event();
    let stream = SBStreamRef { addr: 0x5000 };
    let release = Call::DisposeSBStream(stream);
    assert_eq!(
        event.description(&[Reply::Flag(true)]),
        Progress::Done(Err(Fault::UnexpectedReply))
    );
    assert_eq!(
        event.description(&[Reply::Stream(stream), Reply::Word(0)]),
        Progress::Finish(release, Err(Fault::UnexpectedReply))
    );
    assert_eq!(
        event.description(&[Reply::Stream(stream), Reply::Flag(false), Reply::Word(0)]),
        Progress::Finish(release, Err(Fault::UnexpectedReply))
    );
    assert_eq!(
        event.description(&[Reply::Stream(stream), Reply::Flag(true), Reply::Text(&[0x80, 0x00])]),
        Progress::Finish(release, Err(Fault::MalformedText))
    );
}

#[test]
fn event_description_does_not_depend_on_the_render_flag() {
    let event = event();
    let stream = SBStreamRef { addr: 0x5000 };
    assert_eq!(
        event.description(&[Reply::Stream(stream), Reply::Flag(false), Reply::Text(b"\0")]),
        Progress::Finish(Call::DisposeSBStream(stream), Ok(String::new()))
    );
}

#[test]
fn event_debug_text_frames_the_description() {
    assert_eq!(SBEvent::debug_text("type = 1"), "SBEvent { type = 1 }");
    assert_eq!(SBEvent::debug_text(""), "SBEvent {  }");
}

#[test]
fn event_dispose_names_its_token() {
    assert_eq!(event().dispose(), Call::DisposeSBEvent(RAW));
}

#[test]
fn replies_that_were_not_asked_for_are_not_read() {
    let event = event();
    assert_eq!(
        event.event_type(&[Reply::Word(4), Reply::Word(5), Reply::Flag(true)]),
        Progress::Done(Ok(4))
    );
}
