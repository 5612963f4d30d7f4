//! What the queue of the sink adapter guarantees over one flush and over
//! many: items reach the wrapped sink in the order in which they were sent,
//! none twice and none skipped, and a flush is ready only when all of them
//! have been taken.

use vstd::prelude::*;
use crate::sink::accepted_count;
use crate::sink::flush_outcome;
use crate::sink::is_flush_run;
use crate::sink::queue_after;
use crate::sink::run_failure;

verus! {

/// Whether a run on `buf` kept to the ambient protocol's meaning of a
/// refusal: the item handed back is the item that was offered.
pub open spec fn refusal_returns_item<T, E>(
    buf: Seq<T>,
    replies: Seq<Result<futures::AsyncSink<T>, E>>,
) -> bool {
    replies.len() > 0 && replies.len() <= buf.len() ==> match replies.last() {
        Ok(futures::AsyncSink::NotReady(back)) => back == buf[replies.len() - 1],
        _ => true,
    }
}

/// Whether a run on `buf` went by without a failure and kept to the protocol
/// where it refused.
pub open spec fn is_faithful_run<S, T, E>(
    buf: Seq<T>,
    replies: Seq<Result<futures::AsyncSink<T>, E>>,
    states: Seq<S>,
) -> bool {
    &&& is_flush_run(buf, replies, states)
    &&& refusal_returns_item(buf, replies)
    &&& run_failure(replies) is None
}

/// The queue after each of `runs` in turn, starting from `buf`.
pub open spec fn queue_after_all<T, E>(
    buf: Seq<T>,
    runs: Seq<Seq<Result<futures::AsyncSink<T>, E>>>,
) -> Seq<T>
    decreases runs.len(),
{
    if runs.len() == 0 {
        buf
    } else {
        queue_after(queue_after_all(buf, runs.drop_last()), runs.last())
    }
}

/// The items that the wrapped sink took in one run on `buf`, in the order in
/// which it took them: offer number `i` hands it item `i` of the queue, and
/// it accepts the first `accepted_count` of them.
pub open spec fn delivered<T, E>(
    buf: Seq<T>,
    replies: Seq<Result<futures::AsyncSink<T>, E>>,
) -> Seq<T> {
    buf.take(accepted_count(replies) as int)
}

/// The items that the wrapped sink took over all of `runs`, in the order in
/// which it took them.
pub open spec fn delivered_all<T, E>(
    buf: Seq<T>,
    runs: Seq<Seq<Result<futures::AsyncSink<T>, E>>>,
) -> Seq<T>
    decreases runs.len(),
{
    if runs.len() == 0 {
        Seq::empty()
    } else {
        delivered_all(buf, runs.drop_last()) + delivered(
            queue_after_all(buf, runs.drop_last()),
            runs.last(),
        )
    }
}

/// How many items the wrapped sink took over all of `runs`.
pub open spec fn accepted_total<T, E>(runs: Seq<Seq<Result<futures::AsyncSink<T>, E>>>) -> nat
    decreases runs.len(),
{
    if runs.len() == 0 {
        0
    } else {
        accepted_total(runs.drop_last()) + accepted_count(runs.last())
    }
}

/// Whether `runs` are the runs of successive flushes that began with the
/// queue `buf`, each on the queue that the one before left, none of them
/// failing and every refusal handing back the item that was offered.
pub open spec fn are_successive_runs<S, T, E>(
    buf: Seq<T>,
    runs: Seq<Seq<Result<futures::AsyncSink<T>, E>>>,
    states: Seq<Seq<S>>,
) -> bool {
    &&& states.len() == runs.len()
    &&& forall|j: int|
        0 <= j < runs.len() ==> is_faithful_run(
            queue_after_all(buf, runs.take(j)),
            #[trigger] runs[j],
            states[j],
        )
}

/// A flush is ready exactly if nothing is left in the queue and the wrapped
/// sink's completion step is ready.
pub proof fn lemma_ready_means_all_delivered<E>(left: nat, completion: Result<futures::Async<()>, E>)
    ensures
        flush_outcome(left, completion) == Ok::<_, E>(futures_core::Async::Ready(())) <==> left == 0
            && completion == Ok::<_, E>(futures::Async::Ready(())),
        flush_outcome(left, completion) is Err <==> completion is Err,
{
}

/// One flush without a failure, in which a refused item comes back as it
/// was offered, takes a front part of the queue and leaves the rest as it
/// was: the accepted items followed by the queue afterwards are the queue
/// before.
pub proof fn lemma_run_takes_a_prefix<S, T, E>(
    buf: Seq<T>,
    replies: Seq<Result<futures::AsyncSink<T>, E>>,
    states: Seq<S>,
)
    requires
        is_faithful_run(buf, replies, states),
    ensures
        accepted_count(replies) <= buf.len(),
        queue_after(buf, replies) == buf.skip(accepted_count(replies) as int),
        delivered(buf, replies) + queue_after(buf, replies) == buf,
{
    let k = accepted_count(replies) as int;
    if replies.len() > 0 {
        match replies.last() {
            Ok(futures::AsyncSink::NotReady(back)) => {
                assert(seq![back] + buf.skip(replies.len() as int) =~= buf.skip(k));
            },
            _ => {},
        }
    }
    assert(buf.take(k) + buf.skip(k) =~= buf);
}

/// Any number of successive flushes, none failing and every refusal handing
/// back the item that was offered, have taken a front part of the first
/// queue, in its order, and left the rest: nothing was delivered twice and
/// nothing was skipped.
pub proof fn lemma_flushes_deliver_in_order<S, T, E>(
    buf: Seq<T>,
    runs: Seq<Seq<Result<futures::AsyncSink<T>, E>>>,
    states: Seq<Seq<S>>,
)
    requires
        are_successive_runs(buf, runs, states),
    ensures
        accepted_total(runs) <= buf.len(),
        delivered_all(buf, runs) == buf.take(accepted_total(runs) as int),
        queue_after_all(buf, runs) == buf.skip(accepted_total(runs) as int),
        delivered_all(buf, runs) + queue_after_all(buf, runs) == buf,
    decreases runs.len(),
{
    if runs.len() > 0 {
        let earlier = runs.drop_last();
        let last = runs.len() - 1;
        assert forall|j: int| 0 <= j < earlier.len() implies is_faithful_run(
            queue_after_all(buf, earlier.take(j)),
            #[trigger] earlier[j],
            states.drop_last()[j],
        ) by {
            assert(earlier.take(j) =~= runs.take(j));
            assert(earlier[j] == runs[j]);
        }
        lemma_flushes_deliver_in_order(buf, earlier, states.drop_last());
        let queue = queue_after_all(buf, earlier);
        assert(runs.take(last) =~= earlier);
        assert(runs[last] == runs.last());
        lemma_run_takes_a_prefix(queue, runs.last(), states.last());
        let a = accepted_total(earlier) as int;
        let b = accepted_count(runs.last()) as int;
        assert(buf.skip(a).skip(b) =~= buf.skip(a + b));
        assert(buf.take(a) + buf.skip(a).take(b) =~= buf.take(a + b));
    }
    let total = accepted_total(runs) as int;
    assert(buf.take(total) + buf.skip(total) =~= buf);
    assert(delivered_all(buf, runs) =~= buf.take(total));
}

/// A flush that ends on a failure loses the item on which the wrapped sink
/// failed, which went to it by value, and nothing else: the items behind it
/// stay queued in their order, so that the next flush begins with the item
/// that followed it.
pub proof fn lemma_failure_keeps_the_rest<S, T, E>(
    buf: Seq<T>,
    replies: Seq<Result<futures::AsyncSink<T>, E>>,
    states: Seq<S>,
)
    requires
        is_flush_run(buf, replies, states),
        run_failure(replies) is Some,
    ensures
        0 < replies.len() <= buf.len(),
        accepted_count(replies) == replies.len() - 1,
        queue_after(buf, replies) == buf.skip(replies.len() as int),
        forall|j: int|
            0 <= j < buf.len() - replies.len() ==> #[trigger] queue_after(buf, replies)[j] == buf[
                replies.len() + j],
{
}

} // verus!
