//! A byte resource of the ambient protocol, read and written by a scheduler
//! of the explicit protocol.

use vstd::prelude::*;
use crate::context::bridge_poll;
use crate::context::enter;
use crate::poll::poll_as_01;
use crate::poll::poll_into_02;

verus! {

/// Wraps a readable and writable resource of the ambient protocol as one of
/// the explicit protocol.
#[derive(Debug)]
pub struct TokioAsAsyncIo02<I> {
    v01: I,
}

impl<I> TokioAsAsyncIo02<I> {
    /// The wrapped resource.
    pub closed spec fn inner(&self) -> I {
        self.v01
    }

    /// Wraps `v01`.
    pub fn new(v01: I) -> (out: Self)
        ensures
            out.inner() == v01,
    {
        TokioAsAsyncIo02 { v01 }
    }

    /// Reads into `buf`, once and under the bridge. `read_01` is the read of
    /// the ambient protocol, whose ready value is the number of bytes read;
    /// the result, renamed back, is the outcome that it gave on the wrapped
    /// resource and on `buf`.
    pub fn poll_read<E, R>(
        &mut self,
        cx: &mut futures_core::task::Context,
        buf: &mut [u8],
        read_01: R,
    ) -> (out: Result<futures_core::Async<usize>, E>)
        where R: Fn(&mut I, &mut [u8]) -> Result<futures::Async<usize>, E>
        requires
            forall|v01: &mut I, bytes: &mut [u8]|
                *v01 == old(self).inner() && bytes@ == old(buf)@ ==> read_01.requires((v01, bytes)),
        ensures
            exists|v01: &mut I, bytes: &mut [u8]|
                *v01 == old(self).inner()
                    && *final(v01) == final(self).inner()
                    && bytes@ == old(buf)@
                    && final(bytes)@ == final(buf)@
                    && read_01.ensures((v01, bytes), poll_as_01(out)),
    {
        poll_into_02(enter(cx, &mut self.v01, buf, &read_01))
    }

    /// Writes from `buf`, once and under the bridge. `write_01` is the write
    /// of the ambient protocol, whose ready value is the number of bytes
    /// written; the result, renamed back, is the outcome that it gave on the
    /// wrapped resource and on `buf`.
    pub fn poll_write<E, W>(
        &mut self,
        cx: &mut futures_core::task::Context,
        buf: &[u8],
        write_01: W,
    ) -> (out: Result<futures_core::Async<usize>, E>)
        where W: Fn(&mut I, &[u8]) -> Result<futures::Async<usize>, E>
        requires
            forall|v01: &mut I| *v01 == old(self).inner() ==> write_01.requires((v01, buf)),
        ensures
            exists|v01: &mut I|
                *v01 == old(self).inner()
                    && *final(v01) == final(self).inner()
                    && write_01.ensures((v01, buf), poll_as_01(out)),
    {
        poll_into_02(enter(cx, &mut self.v01, buf, &write_01))
    }

    /// Flushes the wrapped resource, once and under the bridge, with the
    /// flush `flush_01` of the ambient protocol.
    pub fn poll_flush<E, P>(&mut self, cx: &mut futures_core::task::Context, flush_01: P) -> (out:
        Result<futures_core::Async<()>, E>)
        where P: Fn(&mut I) -> Result<futures::Async<()>, E>
        requires
            forall|v01: &mut I| *v01 == old(self).inner() ==> flush_01.requires((v01,)),
        ensures
            exists|v01: &mut I|
                *v01 == old(self).inner()
                    && *final(v01) == final(self).inner()
                    && flush_01.ensures((v01,), poll_as_01(out)),
    {
        bridge_poll(cx, &mut self.v01, &flush_01)
    }

    /// Closes the wrapped resource, once and under the bridge, with the
    /// shutdown `shutdown_01` of the ambient protocol.
    pub fn poll_close<E, P>(&mut self, cx: &mut futures_core::task::Context, shutdown_01: P) -> (out:
        Result<futures_core::Async<()>, E>)
        where P: Fn(&mut I) -> Result<futures::Async<()>, E>
        requires
            forall|v01: &mut I| *v01 == old(self).inner() ==> shutdown_01.requires((v01,)),
        ensures
            exists|v01: &mut I|
                *v01 == old(self).inner()
                    && *final(v01) == final(self).inner()
                    && shutdown_01.ensures((v01,), poll_as_01(out)),
    {
        bridge_poll(cx, &mut self.v01, &shutdown_01)
    }
}

/// Gives every value the conversion into a [`TokioAsAsyncIo02`].
pub trait TokioIntoAsyncIo02: Sized {
    /// Wraps this resource.
    fn into_v02_compat(self) -> (out: TokioAsAsyncIo02<Self>)
        ensures
            out.inner() == self,
    ;
}

impl<I> TokioIntoAsyncIo02 for I {
    fn into_v02_compat(self) -> (out: TokioAsAsyncIo02<Self>) {
        TokioAsAsyncIo02::new(self)
    }
}

} // verus!
