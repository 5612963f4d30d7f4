use std::sync::atomic::{AtomicUsize, Ordering};
use std::sync::Arc;

use futures_compat::context::{with_context, with_context_poll};
use futures_compat::poll::poll_into_02;
use futures_core::task::{Context, LocalMap, Wake, Waker};

struct CountingWake {
    wakes: AtomicUsize,
}

impl Wake for CountingWake {
    fn wake(arc_self: &Arc<Self>) {
        arc_self.wakes.fetch_add(1, Ordering::SeqCst);
    }
}

fn counting() -> (Arc<CountingWake>, Waker) {
    let wake = Arc::new(CountingWake { wakes: AtomicUsize::new(0) });
    let waker = Waker::from(wake.clone());
    (wake, waker)
}

fn wakes(wake: &Arc<CountingWake>) -> usize {
    wake.wakes.load(Ordering::SeqCst)
}

#[test]
fn renames_ready_with_its_value() {
    let r: Result<futures::Async<u32>, String> = Ok(futures::Async::Ready(3));
    assert_eq!(poll_into_02(r), Ok(futures_core::Async::Ready(3)));
}

#[test]
fn renames_not_ready_to_pending() {
    let r: Result<futures::Async<u32>, String> = Ok(futures::Async::NotReady);
    assert_eq!(poll_into_02(r), Ok(futures_core::Async::Pending));
}

#[test]
fn renames_an_error_to_the_same_error() {
    let r: Result<futures::Async<u32>, String> = Err(String::from("broken pipe"));
    assert_eq!(poll_into_02(r), Err(String::from("broken pipe")));
}

#[test]
fn with_context_returns_what_the_closure_returned() {
    let (_wake, waker) = counting();
    let mut map = LocalMap::new();
    let mut cx = Context::without_spawn(&mut map, &waker);
    let mut calls = 0;
    let out = with_context(&mut cx, || {
        calls += 1;
        41 + 1
    });
    assert_eq!(out, 42);
    assert_eq!(calls, 1);
}

#[test]
fn with_context_installs_a_task_where_none_was_running() {
    let (_wake, waker) = counting();
    let mut map = LocalMap::new();
    let mut cx = Context::without_spawn(&mut map, &waker);
    assert!(!futures::task::is_in_task());
    let inside = with_context(&mut cx, || futures::task::is_in_task());
    assert!(inside);
    assert!(!futures::task::is_in_task());
}

#[test]
fn with_context_restores_the_handle_that_was_installed_before() {
    let (outer_wake, outer_waker) = counting();
    let (inner_wake, inner_waker) = counting();
    let mut outer_map = LocalMap::new();
    let mut outer_cx = Context::without_spawn(&mut outer_map, &outer_waker);
    let (in_task, out_task) = with_context(&mut outer_cx, || {
        let mut inner_map = LocalMap::new();
        let mut inner_cx = Context::without_spawn(&mut inner_map, &inner_waker);
        let in_task = with_context(&mut inner_cx, || futures::task::current());
        let out_task = futures::task::current();
        (in_task, out_task)
    });
    in_task.notify();
    assert_eq!((wakes(&outer_wake), wakes(&inner_wake)), (0, 1));
    out_task.notify();
    assert_eq!((wakes(&outer_wake), wakes(&inner_wake)), (1, 1));
}

#[test]
fn notify_during_the_poll_wakes_once() {
    let (wake, waker) = counting();
    let mut map = LocalMap::new();
    let mut cx = Context::without_spawn(&mut map, &waker);
    with_context(&mut cx, || futures::task::current().notify());
    assert_eq!(wakes(&wake), 1);
}

#[test]
fn notify_after_the_poll_returned_wakes_once_per_call() {
    let (wake, waker) = counting();
    let mut map = LocalMap::new();
    let mut cx = Context::without_spawn(&mut map, &waker);
    let task = with_context(&mut cx, || futures::task::current());
    assert_eq!(wakes(&wake), 0);
    task.notify();
    assert_eq!(wakes(&wake), 1);
    task.notify();
    assert_eq!(wakes(&wake), 2);
}

#[test]
fn cloned_handles_do_not_wake_and_free_the_waker_when_dropped() {
    let (wake, waker) = counting();
    let baseline = Arc::strong_count(&wake);
    let mut map = LocalMap::new();
    let mut cx = Context::without_spawn(&mut map, &waker);
    let task = with_context(&mut cx, || futures::task::current());
    assert_eq!(Arc::strong_count(&wake), baseline + 1);
    let mut clones = Vec::new();
    for _ in 0..16 {
        clones.push(task.clone());
    }
    assert_eq!(Arc::strong_count(&wake), baseline + 1);
    drop(task);
    assert_eq!(Arc::strong_count(&wake), baseline + 1);
    let last = clones.pop().unwrap();
    drop(clones);
    assert_eq!(Arc::strong_count(&wake), baseline + 1);
    last.notify();
    assert_eq!(wakes(&wake), 1);
    drop(last);
    assert_eq!(Arc::strong_count(&wake), baseline);
    assert_eq!(wakes(&wake), 1);
}

#[test]
fn a_poll_that_asks_for_no_handle_leaves_no_waker_behind() {
    let (wake, waker) = counting();
    let baseline = Arc::strong_count(&wake);
    let mut map = LocalMap::new();
    let mut cx = Context::without_spawn(&mut map, &waker);
    with_context(&mut cx, || ());
    assert_eq!(Arc::strong_count(&wake), baseline);
    assert_eq!(wakes(&wake), 0);
}

#[test]
fn with_context_poll_renames_ready() {
    let (_wake, waker) = counting();
    let mut map = LocalMap::new();
    let mut cx = Context::without_spawn(&mut map, &waker);
    let out: Result<futures_core::Async<u32>, ()> =
        with_context_poll(&mut cx, || Ok(futures::Async::Ready(9)));
    assert_eq!(out, Ok(futures_core::Async::Ready(9)));
}

#[test]
fn with_context_poll_renames_not_ready_to_pending() {
    let (_wake, waker) = counting();
    let mut map = LocalMap::new();
    let mut cx = Context::without_spawn(&mut map, &waker);
    let out: Result<futures_core::Async<u32>, ()> =
        with_context_poll(&mut cx, || Ok(futures::Async::NotReady));
    assert_eq!(out, Ok(futures_core::Async::Pending));
}

#[test]
fn with_context_poll_passes_an_error_through() {
    let (_wake, waker) = counting();
    let mut map = LocalMap::new();
    let mut cx = Context::without_spawn(&mut map, &waker);
    let out: Result<futures_core::Async<u32>, &str> = with_context_poll(&mut cx, || Err("lost"));
    assert_eq!(out, Err("lost"));
}

#[test]
fn with_context_poll_runs_the_poll_under_the_bridge() {
    let (wake, waker) = counting();
    let mut map = LocalMap::new();
    let mut cx = Context::without_spawn(&mut map, &waker);
    let (tx, mut rx) = futures::sync::oneshot::channel::<u32>();
    let first = with_context_poll(&mut cx, || futures::Future::poll(&mut rx));
    assert_eq!(first, Ok(futures_core::Async::Pending));
    assert_eq!(wakes(&wake), 0);
    tx.send(5).unwrap();
    assert_eq!(wakes(&wake), 1);
    let second = with_context_poll(&mut cx, || futures::Future::poll(&mut rx));
    assert_eq!(second, Ok(futures_core::Async::Ready(5)));
}
