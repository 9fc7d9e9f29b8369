//! Events: single notifications sent out by a broadcaster.

use vstd::prelude::*;
use vstd::string::StringExecFns;
use crate::broadcaster::SBBroadcaster;
use crate::exchange::{
    ask_description, ask_flag, ask_text, ask_word, description_query, query, text_query,
    wrap_query, Progress, Subject,
};
use crate::lifetime::Owner;
use crate::sys::{Call, Reply, SBBroadcasterRef, SBEventRef};
use crate::text::Fault;

verus! {

/// An event.
///
/// An `SBEvent` owns its token: it is not copied, a duplicate is minted by
/// the native library, and `dispose` takes the event by value.
#[derive(Debug, PartialEq, Eq)]
pub struct SBEvent {
    /// The underlying raw `SBEventRef`.
    pub raw: SBEventRef,
}

/// The operations that borrow an event.
pub enum EventAccess {
    /// `SBEvent::is_valid`.
    IsValid,
    /// `SBEvent::data_flavor`.
    DataFlavor,
    /// `SBEvent::event_type`.
    EventType,
    /// `SBEvent::broadcaster`.
    Broadcaster,
    /// `SBEvent::broadcaster_class`.
    BroadcasterClass,
    /// `SBEvent::broadcaster_matches_ref`, with the broadcaster it is asked about.
    BroadcasterMatchesRef(SBBroadcasterRef),
    /// `SBEvent::clone`.
    Clone,
    /// `SBEvent::description`.
    Description,
}

impl SBEvent {
    /// An operation of one call that ends with the owner of the token in its
    /// reply.
    pub open spec fn received(call: Call, replies: Seq<Reply>) -> Progress<SBEvent> {
        query(call, replies, |reply: Reply| reply.event()).map(|raw: SBEventRef| SBEvent { raw })
    }

    /// Asks `call` and takes ownership of the token that comes back,
    /// unchecked.
    pub fn receive(call: Call, replies: &[Reply]) -> (progress: Progress<SBEvent>)
        ensures
            progress == Self::received(call, replies@),
    {
        if replies.len() == 0 {
            Progress::Ask(call)
        } else {
            match replies[0].event() {
                Some(raw) => Progress::Done(Ok(SBEvent { raw })),
                None => Progress::Done(Err(Fault::UnexpectedReply)),
            }
        }
    }

    /// Construct a new `Some(SBEvent)` or `None`: asks the native library
    /// whether `raw` is valid, and wraps it if and only if it is.
    pub fn maybe_wrap(raw: SBEventRef, replies: &[Reply]) -> (progress: Progress<Option<SBEvent>>)
        ensures
            progress == wrap_query(Call::SBEventIsValid(raw), replies@, (SBEvent { raw })),
    {
        if replies.len() == 0 {
            Progress::Ask(Call::SBEventIsValid(raw))
        } else {
            match replies[0] {
                Reply::Flag(true) => Progress::Done(Ok(Some(SBEvent { raw }))),
                Reply::Flag(false) => Progress::Done(Ok(None)),
                _ => Progress::Done(Err(Fault::UnexpectedReply)),
            }
        }
    }

    /// Has the native library allocate an empty event, and owns it.
    pub fn new(replies: &[Reply]) -> (progress: Progress<SBEvent>)
        ensures
            progress == Self::received(Call::CreateSBEvent, replies@),
    {
        Self::receive(Call::CreateSBEvent, replies)
    }

    /// Check whether or not this is a valid `SBEvent` value. The native
    /// library is asked anew each time: an event that was valid when it was
    /// wrapped need not be so now.
    pub fn is_valid(&self, replies: &[Reply]) -> (progress: Progress<bool>)
        ensures
            progress == query(
                Call::SBEventIsValid(self.raw),
                replies@,
                |reply: Reply| reply.flag(),
            ),
            progress.bare() == self.step(EventAccess::IsValid, replies@),
    {
        ask_flag(Call::SBEventIsValid(self.raw), replies)
    }

    /// The tag that says what kind of data the event carries.
    pub fn data_flavor<'a>(&self, replies: &[Reply<'a>]) -> (progress: Progress<&'a str>)
        ensures
            progress@ == text_query(Call::SBEventGetDataFlavor(self.raw), replies@),
            progress.bare() == self.step(EventAccess::DataFlavor, replies@),
    {
        ask_text(Call::SBEventGetDataFlavor(self.raw), replies)
    }

    /// The numeric code of the event's type.
    pub fn event_type(&self, replies: &[Reply]) -> (progress: Progress<u32>)
        ensures
            progress == query(
                Call::SBEventGetType(self.raw),
                replies@,
                |reply: Reply| reply.word(),
            ),
            progress.bare() == self.step(EventAccess::EventType, replies@),
    {
        ask_word(Call::SBEventGetType(self.raw), replies)
    }

    /// The broadcaster that sent the event, as a wrapper of its own.
    pub fn broadcaster(&self, replies: &[Reply]) -> (progress: Progress<SBBroadcaster>)
        ensures
            progress == SBBroadcaster::received(Call::SBEventGetBroadcaster(self.raw), replies@),
            progress.bare() == self.step(EventAccess::Broadcaster, replies@),
    {
        SBBroadcaster::receive(Call::SBEventGetBroadcaster(self.raw), replies)
    }

    /// The class name of the broadcaster that sent the event.
    pub fn broadcaster_class<'a>(&self, replies: &[Reply<'a>]) -> (progress: Progress<&'a str>)
        ensures
            progress@ == text_query(Call::SBEventGetBroadcasterClass(self.raw), replies@),
            progress.bare() == self.step(EventAccess::BroadcasterClass, replies@),
    {
        ask_text(Call::SBEventGetBroadcasterClass(self.raw), replies)
    }

    /// Whether the event came from `broadcaster`. The native library decides,
    /// by the identity of the two objects: both tokens are passed on as they
    /// are.
    pub fn broadcaster_matches_ref(
        &self,
        broadcaster: &SBBroadcaster,
        replies: &[Reply],
    ) -> (progress: Progress<bool>)
        ensures
            progress == query(
                Call::SBEventBroadcasterMatchesRef(self.raw, broadcaster.raw),
                replies@,
                |reply: Reply| reply.flag(),
            ),
            progress.bare() == self.step(
                EventAccess::BroadcasterMatchesRef(broadcaster.raw),
                replies@,
            ),
    {
        ask_flag(Call::SBEventBroadcasterMatchesRef(self.raw, broadcaster.raw), replies)
    }

    /// Has the native library mint an independent duplicate of the event, and
    /// owns the duplicate. The token of `self` is never the one wrapped.
    pub fn clone(&self, replies: &[Reply]) -> (progress: Progress<SBEvent>)
        ensures
            progress == Self::received(Call::CloneSBEvent(self.raw), replies@),
            progress.bare() == self.step(EventAccess::Clone, replies@),
    {
        Self::receive(Call::CloneSBEvent(self.raw), replies)
    }

    /// The native library's description of the event, as owned text.
    pub fn description(&self, replies: &[Reply]) -> (progress: Progress<String>)
        ensures
            progress@ == description_query(Subject::Event(self.raw), replies@),
            progress.bare() == self.step(EventAccess::Description, replies@),
    {
        ask_description(Subject::Event(self.raw), replies)
    }

    /// The form in which an event is shown for debugging, around its
    /// description.
    pub fn debug_text(description: &str) -> (text: String)
        ensures
            text@ == "SBEvent { "@ + description@ + " }"@,
    {
        let mut text = String::from_str("SBEvent { ");
        text.append(description);
        text.append(" }");
        text
    }

    /// Gives the event up. The result is the one call that releases it on the
    /// native side; its reply is not read. The event is taken by value, so
    /// nothing can be asked of it afterwards and it cannot be given up twice.
    pub fn dispose(self) -> (call: Call)
        ensures
            call == Call::DisposeSBEvent(self.raw),
            call == self.release(),
    {
        Call::DisposeSBEvent(self.raw)
    }
}

impl Owner for SBEvent {
    type Access = EventAccess;

    open spec fn step(self, access: EventAccess, replies: Seq<Reply>) -> Progress<()> {
        match access {
            EventAccess::IsValid => query(
                Call::SBEventIsValid(self.raw),
                replies,
                |reply: Reply| reply.flag(),
            ).bare(),
            EventAccess::DataFlavor => text_query(
                Call::SBEventGetDataFlavor(self.raw),
                replies,
            ).bare(),
            EventAccess::EventType => query(
                Call::SBEventGetType(self.raw),
                replies,
                |reply: Reply| reply.word(),
            ).bare(),
            EventAccess::Broadcaster => SBBroadcaster::received(
                Call::SBEventGetBroadcaster(self.raw),
                replies,
            ).bare(),
            EventAccess::BroadcasterClass => text_query(
                Call::SBEventGetBroadcasterClass(self.raw),
                replies,
            ).bare(),
            EventAccess::BroadcasterMatchesRef(broadcaster) => query(
                Call::SBEventBroadcasterMatchesRef(self.raw, broadcaster),
                replies,
                |reply: Reply| reply.flag(),
            ).bare(),
            EventAccess::Clone => Self::received(Call::CloneSBEvent(self.raw), replies).bare(),
            EventAccess::Description => description_query(
                Subject::Event(self.raw),
                replies,
            ).bare(),
        }
    }

    open spec fn release(self) -> Call {
        Call::DisposeSBEvent(self.raw)
    }

    open spec fn named_by(self, call: Call) -> bool {
        call.event() == Some(self.raw)
    }

    proof fn borrowing_releases_nothing(self, access: EventAccess, replies: Seq<Reply>) {
    }

    proof fn calls_name_no_other(
        self,
        other: SBEvent,
        access: EventAccess,
        replies: Seq<Reply>,
    ) {
    }
}

impl From<SBEventRef> for SBEvent {
    /// Takes ownership of a raw token, unchecked.
    fn from(raw: SBEventRef) -> (wrapper: SBEvent) {
        SBEvent { raw }
    }
}

impl vstd::std_specs::convert::FromSpecImpl<SBEventRef> for SBEvent {
    open spec fn obeys_from_spec() -> bool {
        true
    }

    open spec fn from_spec(raw: SBEventRef) -> SBEvent {
        SBEvent { raw }
    }
}

} // verus!
