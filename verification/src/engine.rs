use vstd::prelude::*;

verus! {

/// A durable handle to an engine function — here, a promise's resolve or
/// reject function — kept valid across calls into the engine until it is
/// either invoked or released. The bridge never looks inside the function;
/// a handle is modeled by its identity.
#[derive(Debug, Clone, Copy, PartialEq, Eq, Structural)]
pub struct FnHandle {
    pub id: u64,
}

/// A handle to an engine value: a promise object, a resolution value, or
/// an error value. Opaque to the bridge and modeled by its identity.
#[derive(Debug, Clone, Copy, PartialEq, Eq, Structural)]
pub struct ValueHandle {
    pub id: u64,
}

/// An engine-created promise triple: the promise object together with its
/// resolve and reject functions. The two functions must survive beyond the
/// call that created them, so the bridge keeps them as durable handles
/// until exactly one of them is invoked.
#[derive(Debug, Clone, Copy, PartialEq, Eq, Structural)]
pub struct PromiseTriple {
    pub promise: ValueHandle,
    pub resolve_fn: FnHandle,
    pub reject_fn: FnHandle,
}

/// The plain facts the bridge reads, through the engine's conversion
/// layer, about a value that is expected to behave as a promise.
#[derive(Debug, Clone, Copy, PartialEq, Eq, Structural)]
pub struct PromiseShape {
    /// The value is an object.
    pub is_object: bool,
    /// The object's `then` property is a callable function.
    pub has_callable_then: bool,
}

impl PromiseShape {
    /// The value can be subscribed to: it is an object whose `then`
    /// property is callable.
    pub open spec fn is_thenable(self) -> bool {
        self.is_object && self.has_callable_then
    }
}

} // verus!
