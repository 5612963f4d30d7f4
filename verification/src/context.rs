//! The notification bridge.
//!
//! A pollable of the ambient protocol finds the handle that wakes its task in
//! a thread-local slot. A scheduler of the explicit protocol passes a waker
//! with each poll instead. The bridge fills the slot, for the length of one
//! call, with a handle that forwards to that waker.

use vstd::prelude::*;
use crate::poll::poll_as_01;
use crate::poll::poll_into_02;

verus! {

/// `futures_core::task::Context`: what a scheduler of the explicit protocol
/// hands to each poll. Carried through; only its waker is read.
#[verifier::external_type_specification]
#[verifier::external_body]
pub struct ExContext<'a>(futures_core::task::Context<'a>);

/// `futures_core::task::Waker`: wakes one task of the explicit protocol.
#[verifier::external_type_specification]
#[verifier::external_body]
pub struct ExWaker(futures_core::task::Waker);

/// The payload of a bridged handle: one clone of the waker that was current
/// when the bridge was entered. Every copy of the handle shares it through a
/// reference count, so it lives until the last copy is dropped, on whatever
/// thread that happens, and is freed then.
struct NotifyWaker(futures_core::task::Waker);

impl futures::executor::Notify for NotifyWaker {
    /// Forwards one notification to `futures_core::task::Waker::wake`: one
    /// call for each call of this. Nothing is claimed of what the waker does.
    #[verifier::external_body]
    fn notify(&self, _id: usize) {
        self.0.wake();
    }
}

/// Runs `f(target, arg)` once while the ambient notification slot of this
/// thread holds a handle that forwards to the waker of `cx`, and puts back
/// what the slot held before, if anything.
///
/// The body takes one clone of the waker (`futures_core::task::Context::waker`,
/// `Waker::clone`), shares it (`Arc::new`), and calls
/// `futures::executor::spawn` and `futures::executor::Spawn::poll_fn_notify`.
/// These enter a task of their own around the closure that they are given,
/// whether or not another task is running, call the closure once and return
/// what it returned; the slot is reset when the call is left, by unwinding
/// too. Code under the bridge that asks for the current task gets a handle
/// made by `futures::executor::NotifyHandle::from` on a copy of the shared
/// pointer. `spawn` numbers its task from a counter of the process and
/// asserts that less than half of the `usize` range has been used up.
///
/// The contract claims that `f` is called on exactly these arguments, that
/// nothing else touches `target`, and that the result of `f` comes back
/// unchanged. It claims nothing of the slot or of the waker.
#[verifier::external_body]
pub(crate) fn enter<X, A, F, R>(
    cx: &mut futures_core::task::Context,
    target: &mut X,
    arg: A,
    f: &F,
) -> (out: R)
    where F: Fn(&mut X, A) -> R
    requires
        (*f).requires((old(target), arg)),
    ensures
        (*f).ensures((old(target), arg), out),
{
    let handle = std::sync::Arc::new(NotifyWaker(cx.waker().clone()));
    futures::executor::spawn(target).poll_fn_notify(&handle, 0, |t| f(&mut **t, arg))
}

/// Runs `f(target)` once under the bridge.
pub(crate) fn enter_one<X, F, R>(cx: &mut futures_core::task::Context, target: &mut X, f: &F) -> (out: R)
    where F: Fn(&mut X) -> R
    requires
        forall|x: &mut X| *x == *old(target) ==> (*f).requires((x,)),
    ensures
        exists|x: &mut X|
            *x == *old(target) && *final(x) == *final(target)
                && (*f).ensures((x,), out),
{
    let call = |x: &mut X, g: &F| -> (r: R)
        requires
            forall|y: &mut X| *y == *old(x) ==> (*g).requires((y,)),
        ensures
            exists|y: &mut X|
                *y == *old(x) && *final(y) == *final(x)
                    && (*g).ensures((y,), r),
        { g(x) };
    enter(cx, target, f, &call)
}

/// Runs `f` once with the waker of `cx` installed as the ambient notification
/// handle, restores what was installed before, and returns what `f`
/// returned.
pub fn with_context<F, R>(cx: &mut futures_core::task::Context, f: F) -> (out: R)
    where F: FnOnce() -> R
    requires
        f.requires(()),
    ensures
        f.ensures((), out),
{
    let mut nothing = ();
    let call = |_target: &mut (), g: F| -> (r: R)
        requires
            g.requires(()),
        ensures
            g.ensures((), r),
        { g() };
    enter(cx, &mut nothing, f, &call)
}

/// Runs one ambient-protocol poll `f` under the bridge and renames its
/// outcome into the explicit protocol: the result, renamed back, is the
/// outcome that `f` returned.
pub fn with_context_poll<F, R, E>(cx: &mut futures_core::task::Context, f: F) -> (out: Result<
    futures_core::Async<R>,
    E,
>)
    where F: FnOnce() -> Result<futures::Async<R>, E>
    requires
        f.requires(()),
    ensures
        f.ensures((), poll_as_01(out)),
{
    poll_into_02(with_context(cx, f))
}

/// Runs one ambient-protocol poll `poll_01` on `target` under the bridge and
/// renames its outcome into the explicit protocol.
pub(crate) fn bridge_poll<X, T, E, P>(
    cx: &mut futures_core::task::Context,
    target: &mut X,
    poll_01: &P,
) -> (out: Result<futures_core::Async<T>, E>)
    where P: Fn(&mut X) -> Result<futures::Async<T>, E>
    requires
        forall|x: &mut X| *x == *old(target) ==> (*poll_01).requires((x,)),
    ensures
        exists|x: &mut X|
            *x == *old(target) && *final(x) == *final(target)
                && (*poll_01).ensures((x,), poll_as_01(out)),
{
    poll_into_02(enter_one(cx, target, poll_01))
}

} // verus!
