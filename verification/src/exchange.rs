//! Operations as exchanges with the native library.
//!
//! An operation never makes a native call itself. It is a function of the
//! replies received so far: with too few of them it names the call to make
//! next; with enough of them it ends, with a value or with a fault. Whoever
//! drives an operation starts it with no replies, makes each call it asks
//! for, appends the reply, and asks again until it ends. Replies beyond
//! those an operation has asked for are not read.

use vstd::prelude::*;
use crate::sys::{lldb_pid_t, Call, Reply, SBEventRef, SBInstructionRef, SBStreamRef};
use crate::text::{read_text, text_of, Fault};

verus! {

/// Where an operation stands, given the replies received so far.
#[derive(Debug, PartialEq, Eq)]
pub enum Progress<T> {
    /// Make this call, append its reply, and ask again.
    Ask(Call),
    /// Make this one last call, whose reply is not read. The operation has
    /// then ended as given.
    Finish(Call, Result<T, Fault>),
    /// The operation has ended.
    Done(Result<T, Fault>),
}

impl<T> Progress<T> {
    /// The call that has to be made now, if any.
    pub open spec fn call(self) -> Option<Call> {
        match self {
            Progress::Ask(call) => Some(call),
            Progress::Finish(call, _) => Some(call),
            Progress::Done(_) => None,
        }
    }

    /// How the operation has ended, if it has.
    pub open spec fn outcome(self) -> Option<Result<T, Fault>> {
        match self {
            Progress::Ask(_) => None,
            Progress::Finish(_, outcome) => Some(outcome),
            Progress::Done(outcome) => Some(outcome),
        }
    }

    /// The same progress, with `f` applied to the value it ends with.
    pub open spec fn map<U>(self, f: spec_fn(T) -> U) -> Progress<U> {
        match self {
            Progress::Ask(call) => Progress::Ask(call),
            Progress::Finish(call, Ok(value)) => Progress::Finish(call, Ok(f(value))),
            Progress::Finish(call, Err(fault)) => Progress::Finish(call, Err(fault)),
            Progress::Done(Ok(value)) => Progress::Done(Ok(f(value))),
            Progress::Done(Err(fault)) => Progress::Done(Err(fault)),
        }
    }

    /// The same progress without the value it ends with: what is called, and
    /// whether the operation is over.
    pub open spec fn bare(self) -> Progress<()> {
        self.map(|value: T| ())
    }

    /// Ends with the value read from a reply, or with a fault if the reply
    /// was not of the kind that holds one.
    pub fn found(reading: Option<T>) -> (progress: Self)
        ensures
            progress == Self::found_spec(reading),
    {
        match reading {
            Some(value) => Progress::Done(Ok(value)),
            None => Progress::Done(Err(Fault::UnexpectedReply)),
        }
    }

    /// What `found` returns.
    pub open spec fn found_spec(reading: Option<T>) -> Self {
        match reading {
            Some(value) => Progress::Done(Ok(value)),
            None => Progress::Done(Err(Fault::UnexpectedReply)),
        }
    }
}

impl<T: View> View for Progress<T> {
    type V = Progress<T::V>;

    open spec fn view(&self) -> Progress<T::V> {
        match *self {
            Progress::Ask(call) => Progress::Ask(call),
            Progress::Finish(call, Ok(value)) => Progress::Finish(call, Ok(value@)),
            Progress::Finish(call, Err(fault)) => Progress::Finish(call, Err(fault)),
            Progress::Done(Ok(value)) => Progress::Done(Ok(value@)),
            Progress::Done(Err(fault)) => Progress::Done(Err(fault)),
        }
    }
}

/// An operation of one call whose reply holds the value: it asks `call`, and
/// ends with what `read` finds in the first reply.
pub open spec fn query<T>(
    call: Call,
    replies: Seq<Reply>,
    read: spec_fn(Reply) -> Option<T>,
) -> Progress<T> {
    if replies.len() == 0 {
        Progress::Ask(call)
    } else {
        Progress::found_spec(read(replies[0]))
    }
}

/// An operation of one call whose reply is a text buffer: it asks `call`,
/// and ends with the text of the buffer in the first reply.
pub open spec fn text_query(call: Call, replies: Seq<Reply>) -> Progress<Seq<char>> {
    if replies.len() == 0 {
        Progress::Ask(call)
    } else {
        match replies[0] {
            Reply::Text(buffer) => Progress::Done(text_of(buffer@)),
            _ => Progress::Done(Err(Fault::UnexpectedReply)),
        }
    }
}

/// An operation on a field that the platform may not supply. It asks
/// `is_valid` first. If the answer is no, the field is absent and `get` is
/// never asked; if it is yes, it asks `get` and the field is the number that
/// comes back.
pub open spec fn optional_query(
    is_valid: Call,
    get: Call,
    replies: Seq<Reply>,
) -> Progress<Option<u32>> {
    if replies.len() == 0 {
        Progress::Ask(is_valid)
    } else {
        match replies[0] {
            Reply::Flag(false) => Progress::Done(Ok(None)),
            Reply::Flag(true) => query(get, replies.skip(1), |reply: Reply| reply.word()).map(
                |word: u32| Some(word),
            ),
            _ => Progress::Done(Err(Fault::UnexpectedReply)),
        }
    }
}

/// Construction behind a validity query. It asks `is_valid`, and hands
/// `wrapper` out if and only if the answer is yes; on a no there is no
/// wrapper at all.
pub open spec fn wrap_query<W>(is_valid: Call, replies: Seq<Reply>, wrapper: W) -> Progress<
    Option<W>,
> {
    if replies.len() == 0 {
        Progress::Ask(is_valid)
    } else {
        match replies[0] {
            Reply::Flag(true) => Progress::Done(Ok(Some(wrapper))),
            Reply::Flag(false) => Progress::Done(Ok(None)),
            _ => Progress::Done(Err(Fault::UnexpectedReply)),
        }
    }
}

/// A native object that can render a description of itself.
#[derive(Clone, Copy, Debug, PartialEq, Eq)]
pub enum Subject {
    /// An event.
    Event(SBEventRef),
    /// An instruction.
    Instruction(SBInstructionRef),
}

impl Subject {
    /// The call that renders the subject's description into `stream`.
    #[verifier::allow_in_spec]
    pub fn render(self, stream: SBStreamRef) -> Call
        returns
            (match self {
                Subject::Event(raw) => Call::SBEventGetDescription(raw, stream),
                Subject::Instruction(raw) => Call::SBInstructionGetDescription(raw, stream),
            }),
    {
        match self {
            Subject::Event(raw) => Call::SBEventGetDescription(raw, stream),
            Subject::Instruction(raw) => Call::SBInstructionGetDescription(raw, stream),
        }
    }
}

/// The operation that describes a subject. It asks for a fresh text stream,
/// has the subject render into it, asks for the stream's buffer, and ends
/// with the text of that buffer. Once the stream exists, the operation ends
/// by releasing it, whatever came back in between, and asks nothing after.
pub open spec fn description_query(subject: Subject, replies: Seq<Reply>) -> Progress<Seq<char>> {
    if replies.len() == 0 {
        Progress::Ask(Call::CreateSBStream)
    } else {
        match replies[0] {
            Reply::Stream(stream) => {
                if replies.len() == 1 {
                    Progress::Ask(subject.render(stream))
                } else if replies[1].flag() is None {
                    Progress::Finish(Call::DisposeSBStream(stream), Err(Fault::UnexpectedReply))
                } else if replies.len() == 2 {
                    Progress::Ask(Call::SBStreamGetData(stream))
                } else {
                    match replies[2] {
                        Reply::Text(buffer) => Progress::Finish(
                            Call::DisposeSBStream(stream),
                            text_of(buffer@),
                        ),
                        _ => Progress::Finish(
                            Call::DisposeSBStream(stream),
                            Err(Fault::UnexpectedReply),
                        ),
                    }
                }
            },
            _ => Progress::Done(Err(Fault::UnexpectedReply)),
        }
    }
}

/// A token is wrapped if and only if the native library calls it valid when
/// asked: on a no the operation ends with nothing, on a yes with the
/// wrapper. Either way it has asked for the validity query alone, so no
/// release follows where nothing was wrapped.
pub proof fn wrapped_iff_valid<W>(is_valid: Call, replies: Seq<Reply>, wrapper: W, valid: bool)
    requires
        replies.len() > 0,
        replies[0] == Reply::Flag(valid),
    ensures
        wrap_query(is_valid, replies, wrapper).outcome() == Some(
            Ok::<Option<W>, Fault>(None),
        ) <==> !valid,
        wrap_query(is_valid, replies, wrapper).outcome() == Some(
            Ok::<Option<W>, Fault>(Some(wrapper)),
        ) <==> valid,
        wrap_query(is_valid, replies, wrapper).call() is None,
        wrap_query(is_valid, Seq::empty(), wrapper) == Progress::<Option<W>>::Ask(is_valid),
{
}

/// A field that the platform may not supply is absent if the validity query
/// says no, and then its getter is never asked. If the query says yes, the
/// getter is asked, and the field is present and equal to what the getter
/// returned.
pub proof fn optional_follows_validity(
    is_valid: Call,
    get: Call,
    replies: Seq<Reply>,
    valid: bool,
    word: u32,
)
    requires
        replies.len() > 0,
        replies[0] == Reply::Flag(valid),
    ensures
        !valid ==> optional_query(is_valid, get, replies) == Progress::Done(
            Ok::<Option<u32>, Fault>(None),
        ),
        valid && replies.len() == 1 ==> optional_query(is_valid, get, replies)
            == Progress::<Option<u32>>::Ask(get),
        valid && replies.len() > 1 && replies[1] == Reply::Word(word) ==> optional_query(
            is_valid,
            get,
            replies,
        ) == Progress::Done(Ok::<Option<u32>, Fault>(Some(word))),
{
}

/// What an operation ends with is decided by the replies alone: two
/// wrappers that are given the same replies, such as a wrapper and its
/// duplicate while the native library answers alike for both, see the same
/// value, whatever their tokens.
pub proof fn same_replies_same_outcome<T>(
    one: Call,
    other: Call,
    replies: Seq<Reply>,
    read: spec_fn(Reply) -> Option<T>,
)
    ensures
        query(one, replies, read).outcome() == query(other, replies, read).outcome(),
        text_query(one, replies).outcome() == text_query(other, replies).outcome(),
{
}

/// What is read of an optional field is decided by the replies alone.
pub proof fn same_replies_same_field(
    one_is_valid: Call,
    one_get: Call,
    other_is_valid: Call,
    other_get: Call,
    replies: Seq<Reply>,
)
    ensures
        optional_query(one_is_valid, one_get, replies).outcome() == optional_query(
            other_is_valid,
            other_get,
            replies,
        ).outcome(),
{
}

/// What a description reads is decided by the replies alone.
pub proof fn same_replies_same_description(one: Subject, other: Subject, replies: Seq<Reply>)
    ensures
        description_query(one, replies).outcome() == description_query(other, replies).outcome(),
{
}

/// The stream that a description borrows is released on every way out. Once
/// the stream exists, the description does not end without the call that
/// releases it; that call is its last; and before that it asks for no
/// release.
pub proof fn description_releases_its_stream(
    subject: Subject,
    replies: Seq<Reply>,
    stream: SBStreamRef,
)
    requires
        replies.len() > 0,
        replies[0] == Reply::Stream(stream),
    ensures
        !(description_query(subject, replies) is Done),
        description_query(subject, replies) matches Progress::Finish(call, _) ==> call
            == Call::DisposeSBStream(stream),
        description_query(subject, replies) matches Progress::Ask(call) ==> !(call
            matches Call::DisposeSBStream(_)),
        replies.len() >= 3 ==> description_query(subject, replies) is Finish,
{
}

/// Asks `call` and reads a flag.
pub fn ask_flag(call: Call, replies: &[Reply]) -> (progress: Progress<bool>)
    ensures
        progress == query(call, replies@, |reply: Reply| reply.flag()),
{
    if replies.len() == 0 {
        Progress::Ask(call)
    } else {
        Progress::found(replies[0].flag())
    }
}

/// Asks `call` and reads a 32-bit number.
pub fn ask_word(call: Call, replies: &[Reply]) -> (progress: Progress<u32>)
    ensures
        progress == query(call, replies@, |reply: Reply| reply.word()),
{
    if replies.len() == 0 {
        Progress::Ask(call)
    } else {
        Progress::found(replies[0].word())
    }
}

/// Asks `call` and reads a size.
pub fn ask_size(call: Call, replies: &[Reply]) -> (progress: Progress<usize>)
    ensures
        progress == query(call, replies@, |reply: Reply| reply.size()),
{
    if replies.len() == 0 {
        Progress::Ask(call)
    } else {
        Progress::found(replies[0].size())
    }
}

/// Asks `call` and reads a process identifier.
pub fn ask_pid(call: Call, replies: &[Reply]) -> (progress: Progress<lldb_pid_t>)
    ensures
        progress == query(call, replies@, |reply: Reply| reply.pid()),
{
    if replies.len() == 0 {
        Progress::Ask(call)
    } else {
        Progress::found(replies[0].pid())
    }
}

/// Asks `call` and reads the text of the buffer that comes back. The text
/// borrows from that buffer.
pub fn ask_text<'a>(call: Call, replies: &[Reply<'a>]) -> (progress: Progress<&'a str>)
    ensures
        progress@ == text_query(call, replies@),
{
    if replies.len() == 0 {
        Progress::Ask(call)
    } else {
        match replies[0] {
            Reply::Text(buffer) => Progress::Done(read_text(buffer)),
            _ => Progress::Done(Err(Fault::UnexpectedReply)),
        }
    }
}

/// Asks whether a field is there and, only if it is, asks for it.
pub fn ask_optional(is_valid: Call, get: Call, replies: &[Reply]) -> (progress: Progress<
    Option<u32>,
>)
    ensures
        progress == optional_query(is_valid, get, replies@),
{
    if replies.len() == 0 {
        Progress::Ask(is_valid)
    } else {
        match replies[0] {
            Reply::Flag(false) => Progress::Done(Ok(None)),
            Reply::Flag(true) => {
                if replies.len() == 1 {
                    Progress::Ask(get)
                } else {
                    match replies[1] {
                        Reply::Word(word) => Progress::Done(Ok(Some(word))),
                        _ => Progress::Done(Err(Fault::UnexpectedReply)),
                    }
                }
            },
            _ => Progress::Done(Err(Fault::UnexpectedReply)),
        }
    }
}

/// Describes a subject. The text is copied out of the stream's buffer
/// before the stream is released.
pub fn ask_description(subject: Subject, replies: &[Reply]) -> (progress: Progress<String>)
    ensures
        progress@ == description_query(subject, replies@),
{
    if replies.len() == 0 {
        return Progress::Ask(Call::CreateSBStream);
    }
    let stream = match replies[0] {
        Reply::Stream(stream) => stream,
        _ => { return Progress::Done(Err(Fault::UnexpectedReply)); },
    };
    let release = Call::DisposeSBStream(stream);
    if replies.len() == 1 {
        Progress::Ask(subject.render(stream))
    } else if replies[1].flag().is_none() {
        Progress::Finish(release, Err(Fault::UnexpectedReply))
    } else if replies.len() == 2 {
        Progress::Ask(Call::SBStreamGetData(stream))
    } else {
        match replies[2] {
            Reply::Text(buffer) => match read_text(buffer) {
                Ok(text) => Progress::Finish(release, Ok(text.to_owned())),
                Err(fault) => Progress::Finish(release, Err(fault)),
            },
            _ => Progress::Finish(release, Err(Fault::UnexpectedReply)),
        }
    }
}

} // verus!
