//! The calls made over the life of a wrapper.
//!
//! A wrapper lives through any number of uses, each of them an operation
//! that borrows it, and ends when it is given up. Over such a life the call
//! that releases the wrapper's token is made once, and it is the last call.
//! The calls made for one wrapper are made on its own token, so two wrappers
//! with different tokens, such as a wrapper and its duplicate, live and end
//! without touching each other.

use vstd::prelude::*;
use crate::exchange::{description_query, optional_query, query, text_query, Progress, Subject};
use crate::sys::{Call, Reply, SBStreamRef};

verus! {

/// A wrapper that owns a native token, with the operations that borrow it
/// and the call that releases it.
pub trait Owner: Sized {
    /// The operations that borrow the wrapper.
    type Access;

    /// Where an operation on the wrapper stands, given the replies received
    /// so far, without the value it ends with.
    spec fn step(self, access: Self::Access, replies: Seq<Reply>) -> Progress<()>;

    /// The call that releases the wrapper's token.
    spec fn release(self) -> Call;

    /// The call is made on the wrapper's token.
    spec fn named_by(self, call: Call) -> bool;

    /// No operation that borrows a wrapper asks for its release.
    proof fn borrowing_releases_nothing(self, access: Self::Access, replies: Seq<Reply>)
        ensures
            self.step(access, replies).call() != Some(self.release()),
    ;

    /// The release of a wrapper is a call on its token, and whatever is
    /// called for a wrapper is called on no token of another.
    proof fn calls_name_no_other(self, other: Self, access: Self::Access, replies: Seq<Reply>)
        requires
            self != other,
        ensures
            self.named_by(self.release()),
            !other.named_by(self.release()),
            self.step(access, replies).call() matches Some(call) ==> !other.named_by(call),
    ;
}

/// The calls that driving an operation makes, in order, when the native
/// library answers them with `replies` and the first `fed` of the replies
/// have been handed to the operation already.
pub open spec fn calls_made(
    operation: spec_fn(Seq<Reply>) -> Progress<()>,
    replies: Seq<Reply>,
    fed: nat,
) -> Seq<Call>
    decreases replies.len() - fed,
{
    match operation(replies.take(fed as int)) {
        Progress::Ask(call) => if fed < replies.len() {
            seq![call] + calls_made(operation, replies, fed + 1)
        } else {
            seq![call]
        },
        Progress::Finish(call, _) => seq![call],
        Progress::Done(_) => Seq::empty(),
    }
}

/// The calls that one use of a wrapper makes.
pub open spec fn calls_of<W: Owner>(wrapper: W, access: W::Access, replies: Seq<Reply>) -> Seq<
    Call,
> {
    calls_made(|given: Seq<Reply>| wrapper.step(access, given), replies, 0)
}

/// The calls of each use in turn, then the release.
pub open spec fn then_released(uses: Seq<Seq<Call>>, release: Call) -> Seq<Call>
    decreases uses.len(),
{
    if uses.len() == 0 {
        seq![release]
    } else {
        uses[0] + then_released(uses.drop_first(), release)
    }
}

/// The calls made over the life of a wrapper that is used as `uses` says,
/// one operation and the native library's replies to it after the other, and
/// then given up.
pub open spec fn life<W: Owner>(wrapper: W, uses: Seq<(W::Access, Seq<Reply>)>) -> Seq<Call> {
    then_released(
        Seq::new(uses.len(), |i: int| calls_of(wrapper, uses[i].0, uses[i].1)),
        wrapper.release(),
    )
}

/// An operation of one call makes that call once and no other, whatever the
/// native library replies.
pub proof fn query_makes_one_call<T>(
    call: Call,
    replies: Seq<Reply>,
    read: spec_fn(Reply) -> Option<T>,
)
    ensures
        calls_made(|given: Seq<Reply>| query(call, given, read).bare(), replies, 0) == seq![call],
        calls_made(|given: Seq<Reply>| text_query(call, given).bare(), replies, 0) == seq![call],
{
    let plain = |given: Seq<Reply>| query(call, given, read).bare();
    let text = |given: Seq<Reply>| text_query(call, given).bare();
    assert(replies.take(0).len() == 0);
    if replies.len() > 0 {
        assert(replies.take(1)[0] == replies[0]);
        assert(calls_made(plain, replies, 1) == Seq::<Call>::empty());
        assert(calls_made(text, replies, 1) == Seq::<Call>::empty());
    }
    assert(calls_made(plain, replies, 0) =~= seq![call]);
    assert(calls_made(text, replies, 0) =~= seq![call]);
}

/// An optional field costs the validity query alone where the answer is no,
/// and the validity query followed by the getter where it is yes.
pub proof fn optional_makes_one_or_two_calls(
    is_valid: Call,
    get: Call,
    replies: Seq<Reply>,
    valid: bool,
)
    requires
        replies.len() > 0,
        replies[0] == Reply::Flag(valid),
    ensures
        calls_made(|given: Seq<Reply>| optional_query(is_valid, get, given).bare(), replies, 0)
            == if valid {
            seq![is_valid, get]
        } else {
            seq![is_valid]
        },
{
    let field = |given: Seq<Reply>| optional_query(is_valid, get, given).bare();
    assert(replies.take(0).len() == 0);
    assert(replies.take(1)[0] == replies[0]);
    assert(replies.take(1).len() == 1);
    if valid {
        if replies.len() > 1 {
            assert(replies.take(2)[0] == replies[0]);
            assert(replies.take(2).skip(1)[0] == replies[1]);
            assert(calls_made(field, replies, 2) == Seq::<Call>::empty());
        }
        assert(calls_made(field, replies, 1) =~= seq![get]);
        assert(calls_made(field, replies, 0) =~= seq![is_valid, get]);
    } else {
        assert(calls_made(field, replies, 1) == Seq::<Call>::empty());
        assert(calls_made(field, replies, 0) =~= seq![is_valid]);
    }
}

/// A description whose stream was created, rendered into and read makes
/// four calls: it creates the stream, has the subject render into it, reads
/// it, and releases it.
pub proof fn description_makes_four_calls(
    subject: Subject,
    replies: Seq<Reply>,
    stream: SBStreamRef,
)
    requires
        replies.len() >= 3,
        replies[0] == Reply::Stream(stream),
        replies[1].flag() is Some,
    ensures
        calls_made(|given: Seq<Reply>| description_query(subject, given).bare(), replies, 0)
            == seq![
            Call::CreateSBStream,
            subject.render(stream),
            Call::SBStreamGetData(stream),
            Call::DisposeSBStream(stream),
        ],
{
    let describe = |given: Seq<Reply>| description_query(subject, given).bare();
    assert(replies.take(0).len() == 0);
    assert(replies.take(1)[0] == replies[0]);
    assert(replies.take(2)[0] == replies[0]);
    assert(replies.take(2)[1] == replies[1]);
    assert(replies.take(3)[0] == replies[0]);
    assert(replies.take(3)[1] == replies[1]);
    assert(replies.take(3)[2] == replies[2]);
    assert(calls_made(describe, replies, 3) =~= seq![Call::DisposeSBStream(stream)]);
    assert(calls_made(describe, replies, 2) =~= seq![
        Call::SBStreamGetData(stream),
        Call::DisposeSBStream(stream),
    ]);
    assert(calls_made(describe, replies, 1) =~= seq![
        subject.render(stream),
        Call::SBStreamGetData(stream),
        Call::DisposeSBStream(stream),
    ]);
    assert(calls_made(describe, replies, 0) =~= seq![
        Call::CreateSBStream,
        subject.render(stream),
        Call::SBStreamGetData(stream),
        Call::DisposeSBStream(stream),
    ]);
}

/// An operation that never asks for a call never has it made, whatever the
/// replies.
pub proof fn never_asked_never_made(
    operation: spec_fn(Seq<Reply>) -> Progress<()>,
    replies: Seq<Reply>,
    fed: nat,
    call: Call,
)
    requires
        forall|given: Seq<Reply>| (#[trigger] operation(given)).call() != Some(call),
    ensures
        !calls_made(operation, replies, fed).contains(call),
    decreases replies.len() - fed,
{
    let now = operation(replies.take(fed as int));
    assert(now.call() != Some(call));
    if now is Ask && fed < replies.len() {
        never_asked_never_made(operation, replies, fed + 1, call);
    }
}

/// Where no use makes the releasing call, that call is made exactly once,
/// and nothing is called after it.
pub proof fn released_once_at_the_end(uses: Seq<Seq<Call>>, release: Call)
    requires
        forall|i: int| 0 <= i < uses.len() ==> !(#[trigger] uses[i]).contains(release),
    ensures
        then_released(uses, release).len() > 0,
        then_released(uses, release).last() == release,
        !then_released(uses, release).drop_last().contains(release),
    decreases uses.len(),
{
    if uses.len() > 0 {
        let rest = uses.drop_first();
        assert forall|i: int| 0 <= i < rest.len() implies !(#[trigger] rest[i]).contains(
            release,
        ) by {
            assert(rest[i] == uses[i + 1]);
        }
        released_once_at_the_end(rest, release);
        let tail = then_released(rest, release);
        assert(then_released(uses, release).drop_last() =~= uses[0] + tail.drop_last());
    }
}

/// Over the life of a wrapper, however it is used and whatever the native
/// library replies, the call that releases its token is made exactly once,
/// and it is the last call: no use comes after the release.
pub proof fn released_exactly_once<W: Owner>(wrapper: W, uses: Seq<(W::Access, Seq<Reply>)>)
    ensures
        life(wrapper, uses).len() > 0,
        life(wrapper, uses).last() == wrapper.release(),
        !life(wrapper, uses).drop_last().contains(wrapper.release()),
{
    let release = wrapper.release();
    let runs = Seq::new(uses.len(), |i: int| calls_of(wrapper, uses[i].0, uses[i].1));
    assert forall|i: int| 0 <= i < runs.len() implies !(#[trigger] runs[i]).contains(release) by {
        let access = uses[i].0;
        let operation = |given: Seq<Reply>| wrapper.step(access, given);
        assert forall|given: Seq<Reply>| (#[trigger] operation(given)).call() != Some(
            release,
        ) by {
            wrapper.borrowing_releases_nothing(access, given);
        }
        never_asked_never_made(operation, uses[i].1, 0, release);
    }
    released_once_at_the_end(runs, release);
}

/// An operation whose calls are all on no token of `other` has no call made
/// on a token of `other`, whatever the replies.
pub proof fn never_named_never_touched<W: Owner>(
    operation: spec_fn(Seq<Reply>) -> Progress<()>,
    replies: Seq<Reply>,
    fed: nat,
    other: W,
)
    requires
        forall|given: Seq<Reply>|
            (#[trigger] operation(given)).call() matches Some(call) ==> !other.named_by(call),
    ensures
        forall|i: int|
            0 <= i < calls_made(operation, replies, fed).len() ==> !other.named_by(
                #[trigger] calls_made(operation, replies, fed)[i],
            ),
    decreases replies.len() - fed,
{
    let now = operation(replies.take(fed as int));
    let calls = calls_made(operation, replies, fed);
    assert(now.call() matches Some(call) ==> !other.named_by(call));
    if now is Ask && fed < replies.len() {
        never_named_never_touched(operation, replies, fed + 1, other);
        let rest = calls_made(operation, replies, fed + 1);
        assert forall|i: int| 0 <= i < calls.len() implies !other.named_by(#[trigger] calls[i]) by {
            if i > 0 {
                assert(calls[i] == rest[i - 1]);
            }
        }
    }
}

/// Two wrappers with different tokens are independent: no call made for the
/// one, in any use of it or for its release, is a call on the token of the
/// other. So giving the one up leaves everything that is later asked about
/// the other as it was.
pub proof fn lives_are_independent<W: Owner>(
    wrapper: W,
    other: W,
    access: W::Access,
    replies: Seq<Reply>,
)
    requires
        wrapper != other,
    ensures
        !other.named_by(wrapper.release()),
        forall|i: int|
            0 <= i < calls_of(wrapper, access, replies).len() ==> !other.named_by(
                #[trigger] calls_of(wrapper, access, replies)[i],
            ),
{
    wrapper.calls_name_no_other(other, access, replies);
    let operation = |given: Seq<Reply>| wrapper.step(access, given);
    assert forall|given: Seq<Reply>|
        ((#[trigger] operation(given)).call() matches Some(call) ==> !other.named_by(call)) by {
        wrapper.calls_name_no_other(other, access, given);
    }
    never_named_never_touched(operation, replies, 0, other);
}

} // verus!
