use vstd::prelude::*;

verus! {

/// The failures the bridge can produce or carry.
///
/// A `TypeConversion` payload is the converter's diagnostic text; a
/// `ScriptError` payload is the displayable form of a script-side error
/// value, which is otherwise opaque to the host. The two are therefore
/// indistinguishable in type but distinguishable by payload.
#[derive(Debug, Clone, PartialEq, Eq)]
pub enum BridgeError {
    /// A value did not match the expected shape, in either direction of
    /// the bridge.
    TypeConversion(String),
    /// An error value produced by script code, carried in its displayable
    /// form.
    ScriptError(String),
    /// Invoking an engine function — `then`, resolve, or reject — itself
    /// failed; the payload is the engine's diagnostic text.
    CallFailure(String),
    /// The engine runtime handle could no longer be obtained.
    Unavailable,
}

} // verus!
