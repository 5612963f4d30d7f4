//! An executor of the ambient protocol behind the task-spawning surface of
//! the explicit protocol.

use vstd::prelude::*;

verus! {

/// `futures_core::executor::SpawnError`: why an executor of the explicit
/// protocol did not take a task. It has one value, "shut down".
#[verifier::external_type_specification]
#[verifier::external_body]
pub struct ExSpawnError(futures_core::executor::SpawnError);

/// `futures_core::executor::SpawnError::shutdown` makes the error. It takes
/// nothing and cannot fail; nothing is claimed of the value.
pub assume_specification[ futures_core::executor::SpawnError::shutdown ]() -> (e:
    futures_core::executor::SpawnError)
;

/// Wraps an executor of the ambient protocol as an executor of the explicit
/// one.
#[derive(Clone, Debug)]
pub struct Executor01As02<E> {
    v01: E,
}

impl<E> Executor01As02<E> {
    /// The wrapped executor.
    pub closed spec fn inner(&self) -> E {
        self.v01
    }

    /// Wraps `v01`.
    pub fn new(v01: E) -> (out: Self)
        ensures
            out.inner() == v01,
    {
        Executor01As02 { v01 }
    }

    /// Hands `task` to the wrapped executor, once. `execute_01` is the
    /// submission of the ambient protocol, which also puts the task into the
    /// shape that protocol asks for. The task is spawned exactly if the
    /// wrapped executor took it; a refusal, whatever its reason, is reported
    /// as the executor being shut down, and is not tried again.
    pub fn spawn<X, R, Sub>(&mut self, task: X, execute_01: Sub) -> (out: Result<
        (),
        futures_core::executor::SpawnError,
    >)
        where Sub: Fn(&E, X) -> Result<(), R>
        requires
            execute_01.requires((&old(self).inner(), task)),
        ensures
            final(self).inner() == old(self).inner(),
            exists|taken: Result<(), R>|
                execute_01.ensures((&old(self).inner(), task), taken) && (out is Ok <==> taken is Ok),
    {
        match execute_01(&self.v01, task) {
            Ok(()) => Ok(()),
            Err(_) => Err(futures_core::executor::SpawnError::shutdown()),
        }
    }
}

/// Gives every value the conversion into an [`Executor01As02`].
pub trait ExecutorInto02: Sized {
    /// Wraps this executor.
    fn into_02_compat(self) -> (out: Executor01As02<Self>)
        ensures
            out.inner() == self,
    ;
}

impl<E> ExecutorInto02 for E {
    fn into_02_compat(self) -> (out: Executor01As02<Self>) {
        Executor01As02::new(self)
    }
}

} // verus!
