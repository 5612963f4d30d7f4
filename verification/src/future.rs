//! A future of the ambient protocol, polled by a scheduler of the explicit
//! protocol.

use vstd::prelude::*;
use crate::context::bridge_poll;
use crate::poll::poll_as_01;

verus! {

/// Wraps a future of the ambient protocol as a future of the explicit one.
///
/// The wrapper owns the future and nothing else. Dropping the wrapper drops
/// the future, which is how either protocol cancels.
#[derive(Debug)]
#[must_use]
pub struct Future01As02<F> {
    v01: F,
}

impl<F> Future01As02<F> {
    /// The wrapped future.
    pub closed spec fn inner(&self) -> F {
        self.v01
    }

    /// Wraps `v01`.
    pub fn new(v01: F) -> (out: Self)
        ensures
            out.inner() == v01,
    {
        Future01As02 { v01 }
    }

    /// Polls the wrapped future once under the bridge. `poll_01` is the poll
    /// of the ambient protocol; it is called once, on the wrapped future, and
    /// the result, renamed back, is the outcome that it gave.
    pub fn poll<T, E, P>(&mut self, cx: &mut futures_core::task::Context, poll_01: P) -> (out: Result<
        futures_core::Async<T>,
        E,
    >)
        where P: Fn(&mut F) -> Result<futures::Async<T>, E>
        requires
            forall|v01: &mut F| *v01 == old(self).inner() ==> poll_01.requires((v01,)),
        ensures
            exists|v01: &mut F|
                *v01 == old(self).inner()
                    && *final(v01) == final(self).inner()
                    && poll_01.ensures((v01,), poll_as_01(out)),
    {
        bridge_poll(cx, &mut self.v01, &poll_01)
    }
}

/// Gives every value the conversion into a [`Future01As02`]. The wrapper can
/// be polled with any closure that polls the wrapped value in the ambient
/// protocol.
pub trait FutureInto02: Sized {
    /// Wraps this future.
    fn into_02_compat(self) -> (out: Future01As02<Self>)
        ensures
            out.inner() == self,
    ;
}

impl<F> FutureInto02 for F {
    fn into_02_compat(self) -> (out: Future01As02<Self>) {
        Future01As02::new(self)
    }
}

} // verus!
