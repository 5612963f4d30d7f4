//! What a wrapper reports over the polls of one task.
//!
//! A wrapper keeps nothing between two polls: each poll of it is one poll of
//! what it wraps, with the outcome renamed. So the outcomes that a scheduler
//! sees are the outcomes that the wrapped object gave, poll for poll.

use vstd::prelude::*;
use crate::poll::poll_as_02;

verus! {

/// The outcomes that a scheduler sees from a wrapper whose wrapped object
/// answered its successive polls with `polls`.
pub open spec fn bridged<T, E>(polls: Seq<Result<futures::Async<T>, E>>) -> Seq<
    Result<futures_core::Async<T>, E>,
> {
    Seq::new(polls.len(), |i: int| poll_as_02(polls[i]))
}

/// Whether an outcome of the ambient protocol ends the polling: a value or
/// an error.
pub open spec fn is_terminal_01<T, E>(r: Result<futures::Async<T>, E>) -> bool {
    r != Ok::<_, E>(futures::Async::<T>::NotReady)
}

/// Whether an outcome of the explicit protocol ends the polling: a value or
/// an error.
pub open spec fn is_terminal_02<T, E>(r: Result<futures_core::Async<T>, E>) -> bool {
    r != Ok::<_, E>(futures_core::Async::<T>::Pending)
}

/// The items that a stream of the ambient protocol yielded over `polls`, in
/// the order in which it yielded them.
pub open spec fn yielded_01<T, E>(polls: Seq<Result<futures::Async<Option<T>>, E>>) -> Seq<T>
    decreases polls.len(),
{
    if polls.len() == 0 {
        Seq::empty()
    } else {
        let earlier = yielded_01(polls.drop_last());
        match polls.last() {
            Ok(futures::Async::Ready(Some(item))) => earlier.push(item),
            _ => earlier,
        }
    }
}

/// The items that a stream of the explicit protocol yielded over `polls`, in
/// the order in which it yielded them.
pub open spec fn yielded_02<T, E>(polls: Seq<Result<futures_core::Async<Option<T>>, E>>) -> Seq<T>
    decreases polls.len(),
{
    if polls.len() == 0 {
        Seq::empty()
    } else {
        let earlier = yielded_02(polls.drop_last());
        match polls.last() {
            Ok(futures_core::Async::Ready(Some(item))) => earlier.push(item),
            _ => earlier,
        }
    }
}

/// A wrapper reports as many outcomes as the wrapped object gave, and an
/// outcome ends the polling of the wrapper exactly where it ends the polling
/// of the wrapped object.
pub proof fn lemma_bridged_ends_where_wrapped_ends<T, E>(polls: Seq<Result<futures::Async<T>, E>>)
    ensures
        bridged(polls).len() == polls.len(),
        forall|i: int|
            0 <= i < polls.len() ==> (is_terminal_02(#[trigger] bridged(polls)[i]) <==> is_terminal_01(
                polls[i],
            )),
{
}

/// If the wrapped future is not ready for `n` polls and then resolves to
/// `value`, its wrapper is pending for the same `n` polls and then ready
/// with `value`. Up to and with that poll it has given one terminal outcome,
/// the last.
pub proof fn lemma_future_resolves_once<T, E>(
    polls: Seq<Result<futures::Async<T>, E>>,
    n: int,
    value: T,
)
    requires
        0 <= n < polls.len(),
        forall|i: int| 0 <= i < n ==> polls[i] == Ok::<_, E>(futures::Async::<T>::NotReady),
        polls[n] == Ok::<_, E>(futures::Async::Ready(value)),
    ensures
        forall|i: int|
            0 <= i < n ==> #[trigger] bridged(polls)[i] == Ok::<_, E>(
                futures_core::Async::<T>::Pending,
            ),
        bridged(polls)[n] == Ok::<_, E>(futures_core::Async::Ready(value)),
        forall|i: int| 0 <= i <= n ==> (is_terminal_02(#[trigger] bridged(polls)[i]) <==> i == n),
{
}

/// The wrapper of a stream yields the items that the stream yields, in the
/// same order, none twice and none left out, and reports the end of the
/// stream at the polls at which the stream reports it.
pub proof fn lemma_stream_yields_the_same<T, E>(polls: Seq<Result<futures::Async<Option<T>>, E>>)
    ensures
        yielded_02(bridged(polls)) == yielded_01(polls),
        forall|i: int|
            0 <= i < polls.len() ==> (#[trigger] bridged(polls)[i] == Ok::<_, E>(
                futures_core::Async::Ready(None::<T>),
            ) <==> polls[i] == Ok::<_, E>(futures::Async::Ready(None::<T>))),
    decreases polls.len(),
{
    if polls.len() > 0 {
        lemma_stream_yields_the_same(polls.drop_last());
        assert(bridged(polls).drop_last() =~= bridged(polls.drop_last()));
    }
}

} // verus!
