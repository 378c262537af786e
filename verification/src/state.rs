use vstd::prelude::*;

use crate::error::BridgeError;

verus! {

/// An opaque token handed out by the host executor: invoking it asks the
/// executor to reschedule one specific suspended poll. The bridge never
/// looks inside a handle; it only stores, replaces and hands back handles,
/// so a handle is modeled by its identity.
#[derive(Debug, Clone, Copy, PartialEq, Eq, Structural)]
pub struct WakeHandle {
    pub id: u64,
}

/// The completion cell shared between a polled awaitable and the two
/// engine-side callbacks that eventually supply its outcome.
///
/// `result` is absent until completion and is set exactly once per
/// instance: [`State::resolve`] refuses to overwrite a stored outcome.
/// `waker` holds the most recently registered wake handle; it is replaced,
/// not accumulated, on every poll that finds no result, and is cleared the
/// moment the result is set.
pub struct State<T> {
    /// The outcome, once one of the two completion callbacks has fired.
    pub result: Option<Result<T, BridgeError>>,
    /// The wake handle from the most recent poll that found no result.
    pub waker: Option<WakeHandle>,
}

/// The transition `resolve` makes: the new cell contents, and the wake
/// handle that must now be signaled, if any. A cell that already holds an
/// outcome is left untouched and signals nothing.
pub open spec fn spec_resolve<T>(s: State<T>, outcome: Result<T, BridgeError>) -> (State<
    T,
>, Option<WakeHandle>) {
    if s.result is Some {
        (s, None)
    } else {
        (State { result: Some(outcome), waker: None }, s.waker)
    }
}

impl<T> State<T> {
    /// Store `outcome` if no outcome is stored yet, clear the registered
    /// wake handle and hand it back so the caller signals it exactly once.
    /// If an outcome is already stored, change nothing and signal nothing.
    pub fn resolve(&mut self, outcome: Result<T, BridgeError>) -> (woken: Option<WakeHandle>)
        ensures
            (*final(self), woken) == spec_resolve(*old(self), outcome),
    {
        if self.result.is_some() {
            return None;
        }
        self.result = Some(outcome);
        self.waker.take()
    }
}

impl<T> Default for State<T> {
    /// A fresh cell: no outcome yet, no registered wake handle.
    fn default() -> (s: Self)
        ensures
            s.result is None,
            s.waker is None,
    {
        State { result: None, waker: None }
    }
}

/// Single resolution: once a first call has stored an outcome, a second
/// call changes nothing — the stored outcome is still the first one — and
/// signals no wake handle, however the cell's handle slot has been touched
/// in between.
pub proof fn lemma_single_resolution<T>(
    s: State<T>,
    first: Result<T, BridgeError>,
    second: Result<T, BridgeError>,
)
    requires
        s.result is None,
    ensures
        ({
            let (s1, _) = spec_resolve(s, first);
            let (s2, w2) = spec_resolve(s1, second);
            s2 == s1 && s2.result == Some(first) && w2 is None
        }),
{
}

/// The general form of single resolution: `resolve` on a cell that already
/// holds an outcome is a no-op and signals no handle, whatever handle may
/// have been registered since the first resolution.
pub proof fn lemma_resolve_is_idempotent_once_set<T>(s: State<T>, outcome: Result<T, BridgeError>)
    requires
        s.result is Some,
    ensures
        spec_resolve(s, outcome) == (s, None::<WakeHandle>),
{
}

} // verus!
