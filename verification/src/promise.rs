use vstd::prelude::*;

use crate::engine::PromiseShape;
use crate::error::BridgeError;
use crate::state::spec_resolve;
use crate::state::State;
use crate::state::WakeHandle;

verus! {

/// What one poll from the host executor reports: the stored outcome, taken
/// out of the cell, or the request to try again after a wake signal.
pub enum PollOutcome<T> {
    /// The awaited outcome; handed out exactly once.
    Ready(Result<T, BridgeError>),
    /// No outcome yet; a wake handle has been registered and will be
    /// signaled when the outcome arrives.
    Pending,
}

/// An engine-native promise, adapted into a value the host executor can
/// poll.
///
/// Construction ([`Promise::from_js`]) subscribes a success and an error
/// callback to the engine value's `then` entry point; the engine's driver
/// later reports a callback invocation through [`Promise::on_success`] or
/// [`Promise::on_error`], which resolve the completion cell and hand back
/// the wake handle to signal. The executor polls through
/// [`Promise::poll`]. Progress is entirely delegated to whatever drains
/// the engine's pending jobs: no outcome is ever synthesized from a
/// timeout.
pub struct Promise<T> {
    /// The completion cell shared with the two subscribed callbacks.
    pub state: State<T>,
}

/// Whether construction succeeds: the value must be subscribable and the
/// `then` invocation must have gone through.
pub open spec fn spec_from_js_ok(shape: PromiseShape, subscription: Result<(), BridgeError>) -> bool {
    shape.is_thenable() && subscription is Ok
}

/// The transition one poll makes on the completion cell: a stored outcome
/// is taken and returned, ending the wait; otherwise `wake` replaces any
/// previously registered handle and the poll reports `Pending`.
pub open spec fn spec_poll<T>(s: State<T>, wake: WakeHandle) -> (State<T>, PollOutcome<T>) {
    if s.result is Some {
        (State { result: None, waker: s.waker }, PollOutcome::Ready(s.result->Some_0))
    } else {
        (State { result: None, waker: Some(wake) }, PollOutcome::Pending)
    }
}

impl<T> Promise<T> {
    /// Adapt an engine value into a pollable promise.
    ///
    /// `shape` is what the engine's conversion layer reports about the
    /// value; a value that is not an object with a callable `then` is
    /// rejected with a `TypeConversion` error. `subscription` is the
    /// outcome of invoking `then`, with the value as receiver and the
    /// success and error callbacks as arguments; a
    /// failure there is surfaced immediately as the construction error,
    /// and no polling occurs. On success the promise starts with an empty
    /// completion cell.
    pub fn from_js(shape: PromiseShape, subscription: Result<(), BridgeError>) -> (r: Result<
        Promise<T>,
        BridgeError,
    >)
        ensures
            r is Ok <==> spec_from_js_ok(shape, subscription),
            r is Ok ==> r->Ok_0.state.result is None && r->Ok_0.state.waker is None,
            !shape.is_thenable() ==> (r matches Err(e) && e matches BridgeError::TypeConversion(m)
                && m@ == "expected an object with a callable then property"@),
            shape.is_thenable() && subscription is Err ==> (r matches Err(e) && e
                == subscription->Err_0),
    {
        if !shape.is_object || !shape.has_callable_then {
            return Err(
                BridgeError::TypeConversion(
                    "expected an object with a callable then property".to_string(),
                ),
            );
        }
        match subscription {
            Err(e) => Err(e),
            Ok(()) => Ok(Promise { state: State::default() }),
        }
    }

    /// One poll from the host executor, carrying the executor's current
    /// wake handle. If an outcome is stored, take it and return it, ending
    /// the wait; otherwise register `wake` — replacing, not accumulating,
    /// any earlier handle — and report `Pending`.
    pub fn poll(&mut self, wake: WakeHandle) -> (r: PollOutcome<T>)
        ensures
            (final(self).state, r) == spec_poll(old(self).state, wake),
    {
        match self.state.result.take() {
            Some(outcome) => PollOutcome::Ready(outcome),
            None => {
                self.state.waker = Some(wake);
                PollOutcome::Pending
            },
        }
    }

    /// The subscribed success callback fired: the engine invoked it with
    /// the promise's value, and converting that value to `T` produced
    /// `converted`. A conversion failure itself becomes the stored
    /// outcome; it is never thrown elsewhere. Returns the wake handle to
    /// signal, if one was registered and no outcome was stored before.
    pub fn on_success(&mut self, converted: Result<T, BridgeError>) -> (woken: Option<WakeHandle>)
        ensures
            (final(self).state, woken) == spec_resolve(old(self).state, converted),
    {
        self.state.resolve(converted)
    }

    /// The subscribed error callback fired: the promise rejected with a
    /// script error whose displayable form is `message`. The error is
    /// stored as the outcome directly, bypassing conversion to `T`.
    /// Returns the wake handle to signal, if one was registered and no
    /// outcome was stored before.
    pub fn on_error(&mut self, message: String) -> (woken: Option<WakeHandle>)
        ensures
            (final(self).state, woken) == spec_resolve(
                old(self).state,
                Err(BridgeError::ScriptError(message)),
            ),
    {
        self.state.resolve(Err(BridgeError::ScriptError(message)))
    }
}

/// Wake-on-resolve: if a poll found no outcome and registered `wake`, then
/// the next resolution — whichever callback delivers it — signals exactly
/// that handle, within the same call that stores the outcome.
pub proof fn lemma_wake_on_resolve<T>(s: State<T>, wake: WakeHandle, outcome: Result<T, BridgeError>)
    requires
        spec_poll(s, wake).1 is Pending,
    ensures
        spec_resolve(spec_poll(s, wake).0, outcome).1 == Some(wake),
{
}

/// Poll-then-ready: once a resolution has stored an outcome, the next poll
/// observes it and returns it; a further poll after that does not return
/// it again, whatever wake handles the two polls carry.
pub proof fn lemma_poll_then_ready<T>(
    s: State<T>,
    outcome: Result<T, BridgeError>,
    w1: WakeHandle,
    w2: WakeHandle,
)
    requires
        s.result is None,
    ensures
        ({
            let (s1, _) = spec_resolve(s, outcome);
            let (s2, r1) = spec_poll(s1, w1);
            let (_, r2) = spec_poll(s2, w2);
            r1 == PollOutcome::Ready(outcome) && r2 is Pending
        }),
{
}

} // verus!
