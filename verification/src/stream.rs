//! A stream of the ambient protocol, polled by a scheduler of the explicit
//! protocol.

use vstd::prelude::*;
use crate::context::bridge_poll;
use crate::poll::poll_as_01;

verus! {

/// Wraps a stream of the ambient protocol as a stream of the explicit one.
///
/// The wrapper owns the stream and nothing else: no item is held back and
/// none is kept. Dropping the wrapper drops the stream.
#[derive(Debug)]
#[must_use]
pub struct Stream01As02<S> {
    v01: S,
}

impl<S> Stream01As02<S> {
    /// The wrapped stream.
    pub closed spec fn inner(&self) -> S {
        self.v01
    }

    /// Wraps `v01`.
    pub fn new(v01: S) -> (out: Self)
        ensures
            out.inner() == v01,
    {
        Stream01As02 { v01 }
    }

    /// The wrapped stream, to use it in another role that it may have.
    pub fn get_mut(&mut self) -> (out: &mut S)
        ensures
            *out == old(self).inner(),
            final(self).inner() == *final(out),
    {
        &mut self.v01
    }

    /// Asks the wrapped stream for its next item, once and under the bridge.
    /// `poll_01` is the poll of the ambient protocol, whose ready value is
    /// the next item or `None` at the end of the stream; the result, renamed
    /// back, is the outcome that it gave.
    pub fn poll_next<T, E, P>(&mut self, cx: &mut futures_core::task::Context, poll_01: P) -> (out:
        Result<futures_core::Async<Option<T>>, E>)
        where P: Fn(&mut S) -> Result<futures::Async<Option<T>>, E>
        requires
            forall|v01: &mut S| *v01 == old(self).inner() ==> poll_01.requires((v01,)),
        ensures
            exists|v01: &mut S|
                *v01 == old(self).inner()
                    && *final(v01) == final(self).inner()
                    && poll_01.ensures((v01,), poll_as_01(out)),
    {
        bridge_poll(cx, &mut self.v01, &poll_01)
    }
}

/// Gives every value the conversion into a [`Stream01As02`]. The wrapper can
/// be polled with any closure that polls the wrapped value in the ambient
/// protocol.
pub trait StreamInto02: Sized {
    /// Wraps this stream.
    fn into_02_compat(self) -> (out: Stream01As02<Self>)
        ensures
            out.inner() == self,
    ;
}

impl<S> StreamInto02 for S {
    fn into_02_compat(self) -> (out: Stream01As02<Self>) {
        Stream01As02::new(self)
    }
}

} // verus!
