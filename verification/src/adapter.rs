use vstd::prelude::*;

use crate::engine::FnHandle;
use crate::engine::PromiseTriple;
use crate::engine::ValueHandle;
use crate::error::BridgeError;
use crate::queue::deliver;
use crate::queue::spec_deliver;
use crate::queue::Delivery;
use crate::queue::JobQueue;
use crate::queue::ResolutionStrategy;

verus! {

/// Wrapper marking a host computation for conversion into an engine
/// promise. Transient: it holds exactly one computation at construction
/// and is consumed by [`PromiseJs::into_js`].
pub struct PromiseJs<T>(pub T);

impl<T> From<T> for PromiseJs<T> {
    fn from(computation: T) -> (r: Self) {
        PromiseJs(computation)
    }
}

impl<T> vstd::std_specs::convert::FromSpecImpl<T> for PromiseJs<T> {
    open spec fn obeys_from_spec() -> bool {
        true
    }

    open spec fn from_spec(computation: T) -> Self {
        PromiseJs(computation)
    }
}

/// The spawned completion task's state: the host computation to await,
/// together with the durable handles that keep the promise's resolve and
/// reject functions alive until exactly one of them is invoked. The task
/// holds no engine lock while the computation runs; it re-acquires the
/// lock only around [`ResolutionTask::complete`].
pub struct ResolutionTask<T> {
    /// The host computation whose outcome will resolve or reject the
    /// promise.
    pub computation: T,
    /// Durable handle to the promise's resolve function.
    pub resolve_fn: FnHandle,
    /// Durable handle to the promise's reject function.
    pub reject_fn: FnHandle,
}

/// What the completion step did: which durable handle it released without
/// invoking, and how the matching function receives the value.
#[derive(Debug, Clone, Copy, PartialEq, Eq, Structural)]
pub struct Completion {
    /// The handle of the function that will never be called, released
    /// uninvoked.
    pub released: FnHandle,
    /// The delivery of the matching function, per the configured
    /// strategy.
    pub delivery: Delivery,
}

impl<T> PromiseJs<T> {
    /// Convert the host computation into an engine promise.
    ///
    /// `triple` is the promise triple the engine created for this
    /// conversion, and `runtime_live` reports whether the shared engine
    /// runtime handle could still be obtained; if it could not, the
    /// conversion fails with `Unavailable`. Otherwise the promise object
    /// is returned immediately — in the same call, without waiting on the
    /// computation — together with the completion task to hand to the
    /// host executor. The task keeps the resolve and reject handles and
    /// feeds the computation's outcome to one of them later.
    pub fn into_js(self, triple: PromiseTriple, runtime_live: bool) -> (r: Result<
        (ValueHandle, ResolutionTask<T>),
        BridgeError,
    >)
        ensures
            !runtime_live ==> (r matches Err(e) && e == BridgeError::Unavailable),
            runtime_live ==> (r matches Ok(p) && p.0 == triple.promise && p.1.resolve_fn
                == triple.resolve_fn && p.1.reject_fn == triple.reject_fn && p.1.computation
                == self.0),
    {
        if !runtime_live {
            return Err(BridgeError::Unavailable);
        }
        Ok(
            (
                triple.promise,
                ResolutionTask {
                    computation: self.0,
                    resolve_fn: triple.resolve_fn,
                    reject_fn: triple.reject_fn,
                },
            ),
        )
    }
}

impl<T> ResolutionTask<T> {
    /// The final step of the spawned task, run after the host computation
    /// finished and the engine lock was re-acquired.
    ///
    /// `converted` is the engine's conversion of the computation's
    /// outcome: `Ok` carries the success value; `Err` carries the error
    /// value that the failure — a computation error or a failed
    /// success-conversion — was itself converted to, so no outcome is
    /// ever silently dropped. The unused one of the two durable handles
    /// is released without being invoked, and the matching function is
    /// delivered with the value through the configured strategy.
    pub fn complete(
        self,
        converted: Result<ValueHandle, ValueHandle>,
        strategy: ResolutionStrategy,
        queue: &mut JobQueue,
    ) -> (c: Completion)
        ensures
            converted matches Ok(value) ==> c.released == self.reject_fn && (final(queue)@,
            c.delivery) == spec_deliver(strategy, self.resolve_fn, value, old(queue)@),
            converted matches Err(error) ==> c.released == self.resolve_fn && (final(queue)@,
            c.delivery) == spec_deliver(strategy, self.reject_fn, error, old(queue)@),
    {
        match converted {
            Ok(value) => {
                let delivery = deliver(strategy, self.resolve_fn, value, queue);
                Completion { released: self.reject_fn, delivery }
            },
            Err(error) => {
                let delivery = deliver(strategy, self.reject_fn, error, queue);
                Completion { released: self.resolve_fn, delivery }
            },
        }
    }
}

} // verus!
