//! Drives pollables of an ambient-notification protocol (`futures` 0.1) from
//! a scheduler of an explicit-waker protocol (`futures-core` 0.2).
//!
//! * [`context`] is the bridge: it installs the waker of one poll as the
//!   ambient notification handle for the length of one call.
//! * [`poll`] renames the outcome of a poll from one protocol to the other.
//! * [`future`], [`stream`], [`io`] and [`executor`] wrap one object each and
//!   translate call by call. [`sink`] also queues, because the two protocols
//!   refuse an item at different moments.
//! * [`history`] and [`sink_order`] state what follows over many calls.
//!
//! An adapter reaches the object that it wraps through a closure, which its
//! caller fills in with the method of the ambient protocol: `|f| f.poll()`
//! for a future, `|s, item| s.start_send(item)` for a sink. Each contract
//! says what the adapter returns, and what becomes of the wrapped object and
//! of the queue, for whatever that closure does.

pub mod context;
pub mod executor;
pub mod future;
pub mod history;
pub mod io;
pub mod poll;
pub mod sink;
pub mod sink_order;
pub mod stream;
