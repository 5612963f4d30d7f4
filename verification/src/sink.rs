//! A sink of the ambient protocol behind a sink of the explicit protocol.
//!
//! The two protocols signal a full sink at different moments. The ambient one
//! refuses an item when it is offered and hands it back; the explicit one is
//! asked whether it is ready before an item is sent. The adapter therefore
//! accepts every item into a queue of its own and offers the queue to the
//! wrapped sink, oldest item first, when it is flushed.

use vstd::prelude::*;
use crate::context::enter;
use crate::context::enter_one;
use crate::poll::poll_as_02;
use crate::poll::poll_into_02;

verus! {

/// Whether `replies` can be the wrapped sink's answers to the offers of one
/// flush of the queue `buf`, and `states` the wrapped sink before the first
/// offer and after each one: the flush offers one item per answer, goes on
/// only after an acceptance, and stops before the end of the queue only on a
/// refusal or a failure.
pub open spec fn is_flush_run<S, T, E>(
    buf: Seq<T>,
    replies: Seq<Result<futures::AsyncSink<T>, E>>,
    states: Seq<S>,
) -> bool {
    &&& replies.len() <= buf.len()
    &&& states.len() == replies.len() + 1
    &&& forall|i: int|
        0 <= i < replies.len() - 1 ==> replies[i] == Ok::<_, E>(futures::AsyncSink::<T>::Ready)
    &&& replies.len() < buf.len() ==> replies.len() > 0 && replies.last() != Ok::<_, E>(
        futures::AsyncSink::<T>::Ready,
    )
}

/// Whether a run with answers `replies` made an offer number `i`, counted
/// from zero.
pub open spec fn is_offer<T, E>(replies: Seq<Result<futures::AsyncSink<T>, E>>, i: int) -> bool {
    0 <= i < replies.len()
}

/// How many items the wrapped sink took in a run: one for each acceptance.
pub open spec fn accepted_count<T, E>(replies: Seq<Result<futures::AsyncSink<T>, E>>) -> nat {
    if replies.len() > 0 && replies.last() != Ok::<_, E>(futures::AsyncSink::<T>::Ready) {
        (replies.len() - 1) as nat
    } else {
        replies.len()
    }
}

/// The error that ended a run, if one did.
pub open spec fn run_failure<T, E>(replies: Seq<Result<futures::AsyncSink<T>, E>>) -> Option<E> {
    if replies.len() > 0 && replies.last() is Err {
        Some(replies.last()->Err_0)
    } else {
        None
    }
}

/// The queue after a run on `buf`: the items that were not offered, behind
/// the item that the wrapped sink handed back if it refused one. An item on
/// which the wrapped sink failed went to it by value and did not come back.
pub open spec fn queue_after<T, E>(
    buf: Seq<T>,
    replies: Seq<Result<futures::AsyncSink<T>, E>>,
) -> Seq<T> {
    let rest = buf.skip(replies.len() as int);
    if replies.len() == 0 {
        rest
    } else {
        match replies.last() {
            Ok(futures::AsyncSink::NotReady(back)) => seq![back] + rest,
            _ => rest,
        }
    }
}

/// What a flush reports once the offers are over without a failure, with
/// `left` items still queued and `completion` the outcome of the wrapped
/// sink's own completion step: ready only if nothing is left and the wrapped
/// sink is ready, the wrapped sink's error if it failed, pending otherwise.
pub open spec fn flush_outcome<E>(left: nat, completion: Result<futures::Async<()>, E>) -> Result<
    futures_core::Async<()>,
    E,
> {
    if left > 0 && completion is Ok {
        Ok(futures_core::Async::Pending)
    } else {
        poll_as_02(completion)
    }
}

/// Settles a flush whose offers are over without a failure.
pub fn settle_flush<E>(left: usize, completion: Result<futures::Async<()>, E>) -> (out: Result<
    futures_core::Async<()>,
    E,
>)
    ensures
        out == flush_outcome(left as nat, completion),
{
    match completion {
        Ok(_) if left > 0 => Ok(futures_core::Async::Pending),
        other => poll_into_02(other),
    }
}

/// Wraps a sink of the ambient protocol as a sink of the explicit one.
///
/// Holds the wrapped sink and the items that were sent but not yet taken by
/// it, oldest first. The queue has no bound of its own.
#[derive(Debug)]
pub struct Sink01As02<S, T> {
    v01: S,
    buf: Vec<T>,
}

impl<S, T> Sink01As02<S, T> {
    /// The wrapped sink.
    pub closed spec fn inner(&self) -> S {
        self.v01
    }

    /// The queued items, oldest first.
    pub closed spec fn queued(&self) -> Seq<T> {
        self.buf@
    }

    /// Wraps `v01`, with an empty queue.
    pub fn new(v01: S) -> (out: Self)
        ensures
            out.inner() == v01,
            out.queued() == Seq::<T>::empty(),
    {
        Sink01As02 { v01, buf: Vec::new() }
    }

    /// The queued items, oldest first.
    pub fn queue(&self) -> (out: &Vec<T>)
        ensures
            out@ == self.queued(),
    {
        &self.buf
    }

    /// The wrapped sink, to use it in another role that it may have. The
    /// queue stays as it is.
    pub fn get_mut(&mut self) -> (out: &mut S)
        ensures
            *out == old(self).inner(),
            final(self).inner() == *final(out),
            final(self).queued() == old(self).queued(),
    {
        &mut self.v01
    }

    /// Always ready: an item that arrives is queued, never refused.
    pub fn poll_ready<E>(&mut self, _cx: &mut futures_core::task::Context) -> (out: Result<
        futures_core::Async<()>,
        E,
    >)
        ensures
            out == Ok::<_, E>(futures_core::Async::Ready(())),
            *final(self) == *old(self),
    {
        Ok(futures_core::Async::Ready(()))
    }

    /// Queues `item` behind the items already queued. The wrapped sink is not
    /// touched.
    pub fn start_send<E>(&mut self, item: T) -> (out: Result<(), E>)
        ensures
            out == Ok::<(), E>(()),
            final(self).queued() == old(self).queued().push(item),
            final(self).inner() == old(self).inner(),
    {
        self.buf.push(item);
        Ok(())
    }

    /// Offers the queued items to the wrapped sink, oldest first and each
    /// under the bridge, until the queue is empty, one is refused or one
    /// fails. A refused item goes back to the head of the queue.
    fn offer_queued<E, A>(&mut self, cx: &mut futures_core::task::Context, accept: &A) -> (out: (
        Option<E>,
        Ghost<Seq<Result<futures::AsyncSink<T>, E>>>,
        Ghost<Seq<S>>,
    ))
        where A: Fn(&mut S, T) -> Result<futures::AsyncSink<T>, E>
        requires
            forall|s: &mut S, i: int|
                0 <= i < old(self).queued().len() ==> #[trigger] (*accept).requires(
                    (s, old(self).queued()[i]),
                ),
        ensures
            is_flush_run(old(self).queued(), out.1@, out.2@),
            out.2@[0] == old(self).inner(),
            out.2@.last() == final(self).inner(),
            forall|i: int| #[trigger]
                is_offer(out.1@, i) ==> exists|s: &mut S|
                    *s == out.2@[i] && *final(s) == out.2@[i + 1] && (*accept).ensures(
                        (s, old(self).queued()[i]),
                        out.1@[i],
                    ),
            final(self).queued() == queue_after(old(self).queued(), out.1@),
            out.0 == run_failure(out.1@),
    {
        let ghost start = self.queued();
        let ghost mut replies: Seq<Result<futures::AsyncSink<T>, E>> = Seq::empty();
        let ghost mut states: Seq<S> = seq![self.v01];
        while self.buf.len() > 0
            invariant
                forall|s: &mut S, i: int|
                    0 <= i < start.len() ==> #[trigger] (*accept).requires((s, start[i])),
                start == old(self).queued(),
                replies.len() <= start.len(),
                states.len() == replies.len() + 1,
                states[0] == old(self).inner(),
                states.last() == self.v01,
                forall|i: int|
                    0 <= i < replies.len() ==> replies[i] == Ok::<_, E>(
                        futures::AsyncSink::<T>::Ready,
                    ),
                self.buf@ == start.skip(replies.len() as int),
                forall|i: int| #[trigger]
                    is_offer(replies, i) ==> exists|s: &mut S|
                        *s == states[i] && *final(s) == states[i + 1] && (*accept).ensures(
                            (s, start[i]),
                            replies[i],
                        ),
            decreases self.buf@.len(),
        {
            let ghost offered = replies;
            let ghost passed = states;
            let item = self.buf.remove(0);
            let reply = enter(cx, &mut self.v01, item, accept);
            proof {
                replies = offered.push(reply);
                states = passed.push(self.v01);
                assert(item == start[offered.len() as int]);
                assert forall|i: int| #[trigger] is_offer(replies, i) implies exists|s: &mut S|
                    *s == states[i] && *final(s) == states[i + 1] && (*accept).ensures(
                        (s, start[i]),
                        replies[i],
                    ) by {
                    if i < offered.len() {
                        assert(is_offer(offered, i));
                        assert(replies[i] == offered[i]);
                        assert(states[i] == passed[i] && states[i + 1] == passed[i + 1]);
                    }
                }
                assert forall|i: int| 0 <= i < replies.len() - 1 implies replies[i] == Ok::<_, E>(
                    futures::AsyncSink::<T>::Ready,
                ) by {
                    assert(replies[i] == offered[i]);
                }
            }
            match reply {
                Ok(futures::AsyncSink::NotReady(back)) => {
                    self.buf.insert(0, back);
                    proof {
                        assert(self.buf@ == seq![back] + start.skip(replies.len() as int));
                    }
                    return (None, Ghost(replies), Ghost(states));
                },
                Err(e) => {
                    return (Some(e), Ghost(replies), Ghost(states));
                },
                Ok(futures::AsyncSink::Ready) => {},
            }
        }
        (None, Ghost(replies), Ghost(states))
    }

    /// Flushes. The queued items are offered to the wrapped sink with
    /// `accept`, oldest first and each under the bridge, until the queue is
    /// empty, one is refused (it goes back to the head of the queue) or one
    /// fails (the flush ends with that error; what was not offered stays
    /// queued). Unless an offer failed, the wrapped sink's completion step
    /// `complete` then runs under the bridge, and the flush is ready only if
    /// the queue is empty and that step is ready.
    ///
    /// The contract names the answers of the wrapped sink `replies` and the
    /// wrapped sink before the first offer and after each one `states`.
    pub fn poll_flush<E, A, C>(
        &mut self,
        cx: &mut futures_core::task::Context,
        accept: A,
        complete: C,
    ) -> (out: Result<futures_core::Async<()>, E>)
        where
            A: Fn(&mut S, T) -> Result<futures::AsyncSink<T>, E>,
            C: Fn(&mut S) -> Result<futures::Async<()>, E>,
        requires
            forall|s: &mut S, i: int|
                0 <= i < old(self).queued().len() ==> #[trigger] accept.requires(
                    (s, old(self).queued()[i]),
                ),
            forall|s: &mut S| complete.requires((s,)),
        ensures
            exists|replies: Seq<Result<futures::AsyncSink<T>, E>>, states: Seq<S>|
                {
                    &&& #[trigger] is_flush_run(old(self).queued(), replies, states)
                    &&& states[0] == old(self).inner()
                    &&& forall|i: int| #[trigger]
                        is_offer(replies, i) ==> exists|s: &mut S|
                            *s == states[i] && *final(s) == states[i + 1] && accept.ensures(
                                (s, old(self).queued()[i]),
                                replies[i],
                            )
                    &&& final(self).queued() == queue_after(old(self).queued(), replies)
                    &&& match run_failure(replies) {
                        Some(e) => out == Err::<futures_core::Async<()>, E>(e)
                            && final(self).inner() == states.last(),
                        None => exists|s: &mut S, completion: Result<futures::Async<()>, E>|
                            *s == states.last() && *final(s) == final(self).inner()
                                && #[trigger] complete.ensures((s,), completion) && out
                                == flush_outcome(final(self).queued().len(), completion),
                    }
                },
            out == Ok::<_, E>(futures_core::Async::Ready(())) ==> final(self).queued().len() == 0,
    {
        let (failure, _, _) = self.offer_queued(cx, &accept);
        match failure {
            Some(e) => Err(e),
            None => {
                let completion = enter_one(cx, &mut self.v01, &complete);
                settle_flush(self.buf.len(), completion)
            },
        }
    }

    /// Closes. The ambient protocol has no closing step of its own, so this
    /// is a flush, with the contract of a flush.
    pub fn poll_close<E, A, C>(
        &mut self,
        cx: &mut futures_core::task::Context,
        accept: A,
        complete: C,
    ) -> (out: Result<futures_core::Async<()>, E>)
        where
            A: Fn(&mut S, T) -> Result<futures::AsyncSink<T>, E>,
            C: Fn(&mut S) -> Result<futures::Async<()>, E>,
        requires
            forall|s: &mut S, i: int|
                0 <= i < old(self).queued().len() ==> #[trigger] accept.requires(
                    (s, old(self).queued()[i]),
                ),
            forall|s: &mut S| complete.requires((s,)),
        ensures
            exists|replies: Seq<Result<futures::AsyncSink<T>, E>>, states: Seq<S>|
                {
                    &&& #[trigger] is_flush_run(old(self).queued(), replies, states)
                    &&& states[0] == old(self).inner()
                    &&& forall|i: int| #[trigger]
                        is_offer(replies, i) ==> exists|s: &mut S|
                            *s == states[i] && *final(s) == states[i + 1] && accept.ensures(
                                (s, old(self).queued()[i]),
                                replies[i],
                            )
                    &&& final(self).queued() == queue_after(old(self).queued(), replies)
                    &&& match run_failure(replies) {
                        Some(e) => out == Err::<futures_core::Async<()>, E>(e)
                            && final(self).inner() == states.last(),
                        None => exists|s: &mut S, completion: Result<futures::Async<()>, E>|
                            *s == states.last() && *final(s) == final(self).inner()
                                && #[trigger] complete.ensures((s,), completion) && out
                                == flush_outcome(final(self).queued().len(), completion),
                    }
                },
            out == Ok::<_, E>(futures_core::Async::Ready(())) ==> final(self).queued().len() == 0,
    {
        self.poll_flush(cx, accept, complete)
    }
}

/// Gives every value the conversion into a [`Sink01As02`] for items of any
/// one type.
pub trait SinkInto02: Sized {
    /// Wraps this sink, with an empty queue.
    fn sink_into_02_compat<T>(self) -> (out: Sink01As02<Self, T>)
        ensures
            out.inner() == self,
            out.queued() == Seq::<T>::empty(),
    ;
}

impl<S> SinkInto02 for S {
    fn sink_into_02_compat<T>(self) -> (out: Sink01As02<Self, T>) {
        Sink01As02::new(self)
    }
}

} // verus!
