//! A bridge between two concurrency models: the cooperative promise /
//! microtask system of an embedded scripting engine, and a host-side task
//! model driven by an external executor with poll-based suspension and wake
//! notification.

pub mod adapter;
pub mod engine;
pub mod error;
pub mod promise;
pub mod queue;
pub mod state;

pub use crate::adapter::Completion;
pub use crate::adapter::PromiseJs;
pub use crate::adapter::ResolutionTask;
pub use crate::engine::FnHandle;
pub use crate::engine::PromiseShape;
pub use crate::engine::PromiseTriple;
pub use crate::engine::ValueHandle;
pub use crate::error::BridgeError;
pub use crate::promise::PollOutcome;
pub use crate::promise::Promise;
pub use crate::queue::Delivery;
pub use crate::queue::JobQueue;
pub use crate::queue::ResolutionJob;
pub use crate::queue::ResolutionStrategy;
pub use crate::state::State;
pub use crate::state::WakeHandle;
