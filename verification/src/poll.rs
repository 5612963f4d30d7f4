//! The three outcomes of one poll attempt, in both protocols.
//!
//! The ambient protocol reports `Ok(Ready(v))`, `Ok(NotReady)` or `Err(e)`;
//! the explicit protocol reports `Ok(Ready(v))`, `Ok(Pending)` or `Err(e)`.
//! The two shapes carry the same information, so going from one to the other
//! is a renaming that can be undone.

use vstd::prelude::*;

verus! {

/// `futures::Async`: ready with a value, or not ready yet.
#[verifier::external_type_specification]
#[verifier::reject_recursive_types(T)]
pub struct ExAsync01<T>(futures::Async<T>);

/// `futures::AsyncSink`: the item was taken, or the sink was full and hands
/// the item back.
#[verifier::external_type_specification]
#[verifier::reject_recursive_types(T)]
pub struct ExAsyncSink01<T>(futures::AsyncSink<T>);

/// `futures_core::Async`: ready with a value, or pending.
#[verifier::external_type_specification]
#[verifier::reject_recursive_types(T)]
pub struct ExAsync02<T>(futures_core::Async<T>);

/// The explicit-protocol outcome that stands for an ambient-protocol one:
/// ready stays ready with the same value, not-ready becomes pending, and an
/// error stays the same error.
pub open spec fn poll_as_02<T, E>(r: Result<futures::Async<T>, E>) -> Result<
    futures_core::Async<T>,
    E,
> {
    match r {
        Ok(futures::Async::Ready(v)) => Ok(futures_core::Async::Ready(v)),
        Ok(futures::Async::NotReady) => Ok(futures_core::Async::Pending),
        Err(e) => Err(e),
    }
}

/// The ambient-protocol outcome that an explicit-protocol one stands for.
pub open spec fn poll_as_01<T, E>(r: Result<futures_core::Async<T>, E>) -> Result<
    futures::Async<T>,
    E,
> {
    match r {
        Ok(futures_core::Async::Ready(v)) => Ok(futures::Async::Ready(v)),
        Ok(futures_core::Async::Pending) => Ok(futures::Async::NotReady),
        Err(e) => Err(e),
    }
}

/// Renames one outcome of the ambient protocol into the explicit protocol.
pub fn poll_into_02<T, E>(r: Result<futures::Async<T>, E>) -> (out: Result<
    futures_core::Async<T>,
    E,
>)
    ensures
        out == poll_as_02(r),
        poll_as_01(out) == r,
{
    match r {
        Ok(futures::Async::Ready(v)) => Ok(futures_core::Async::Ready(v)),
        Ok(futures::Async::NotReady) => Ok(futures_core::Async::Pending),
        Err(e) => Err(e),
    }
}

/// The two renamings undo each other, so no outcome is merged with another
/// and none is left out.
pub proof fn lemma_renaming_is_one_to_one<T, E>(
    a: Result<futures::Async<T>, E>,
    b: Result<futures_core::Async<T>, E>,
)
    ensures
        poll_as_01(poll_as_02(a)) == a,
        poll_as_02(poll_as_01(b)) == b,
{
}

} // verus!
