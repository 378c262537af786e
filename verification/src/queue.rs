use vstd::prelude::*;

use crate::engine::FnHandle;
use crate::engine::ValueHandle;

verus! {

/// One queued resolution: when the engine's job-draining loop reaches this
/// job, it calls `function` with `argument`.
#[derive(Debug, Clone, Copy, PartialEq, Eq, Structural)]
pub struct ResolutionJob {
    pub function: FnHandle,
    pub argument: ValueHandle,
}

/// The engine's internal job (microtask) queue, drained in first-in
/// first-out order by a driver external to the bridge. Deferred
/// resolutions are pushed here so that they surface to script code in
/// enqueue order, matching native promise-resolution ordering.
pub struct JobQueue {
    pub jobs: Vec<ResolutionJob>,
}

impl View for JobQueue {
    type V = Seq<ResolutionJob>;

    open spec fn view(&self) -> Seq<ResolutionJob> {
        self.jobs@
    }
}

/// How a completed resolution reaches the resolve or reject function.
/// Selected at build time; both strategies call the function with the
/// value exactly once.
#[derive(Debug, Clone, Copy, PartialEq, Eq, Structural)]
pub enum ResolutionStrategy {
    /// Call the function directly, synchronously, within the re-entered
    /// engine context.
    Immediate,
    /// Package the function and value as a job on the engine's internal
    /// job queue, to be invoked later by the engine's own job-draining
    /// loop.
    Deferred,
}

/// What [`deliver`] decided: either the caller must invoke the function
/// now, inside the engine, or the pair was queued as an engine job.
#[derive(Debug, Clone, Copy, PartialEq, Eq, Structural)]
pub enum Delivery {
    /// Invoke this function with this value now. A failure of that
    /// engine-level call is reported diagnostically, never propagated:
    /// there is no caller left to receive it.
    CallNow(FnHandle, ValueHandle),
    /// The job was appended to the engine's job queue.
    Enqueued,
}

/// The transition [`deliver`] makes on the job queue, and what it asks of
/// the caller: under `Immediate` the queue is untouched and the call is
/// handed back; under `Deferred` the pair is appended to the queue.
pub open spec fn spec_deliver(
    strategy: ResolutionStrategy,
    function: FnHandle,
    argument: ValueHandle,
    q: Seq<ResolutionJob>,
) -> (Seq<ResolutionJob>, Delivery) {
    match strategy {
        ResolutionStrategy::Immediate => (q, Delivery::CallNow(function, argument)),
        ResolutionStrategy::Deferred => (
            q.push(ResolutionJob { function, argument }),
            Delivery::Enqueued,
        ),
    }
}

/// Deliver one resolution through the configured strategy: the single
/// logical operation behind both resolution code paths.
pub fn deliver(
    strategy: ResolutionStrategy,
    function: FnHandle,
    argument: ValueHandle,
    queue: &mut JobQueue,
) -> (d: Delivery)
    ensures
        (final(queue)@, d) == spec_deliver(strategy, function, argument, old(queue)@),
{
    match strategy {
        ResolutionStrategy::Immediate => Delivery::CallNow(function, argument),
        ResolutionStrategy::Deferred => {
            queue.jobs.push(ResolutionJob { function, argument });
            Delivery::Enqueued
        },
    }
}

impl JobQueue {
    /// An empty queue: nothing pending.
    pub fn new() -> (q: JobQueue)
        ensures
            q@.len() == 0,
    {
        JobQueue { jobs: Vec::new() }
    }

    /// One step of the engine's job-draining loop: take the oldest queued
    /// job, whose function the driver then calls with its argument. Jobs
    /// leave the queue in the order they were enqueued.
    pub fn run_next(&mut self) -> (job: Option<ResolutionJob>)
        ensures
            old(self)@.len() == 0 ==> job is None && final(self)@ == old(self)@,
            old(self)@.len() > 0 ==> job == Some(old(self)@[0]) && final(self)@ == old(
                self,
            )@.drop_first(),
    {
        if self.jobs.len() == 0 {
            None
        } else {
            let first = self.jobs.remove(0);
            proof {
                assert(self.jobs@ =~= old(self)@.drop_first());
            }
            Some(first)
        }
    }
}

/// Deferred ordering: if resolution `a` is queued before resolution `b` —
/// whatever order their host computations completed in — then the queue
/// holds `a` strictly ahead of `b`, behind whatever was already pending,
/// so the first-in first-out drain makes them visible to script code in
/// enqueue order.
pub proof fn lemma_deferred_ordering(
    q: Seq<ResolutionJob>,
    a: ResolutionJob,
    b: ResolutionJob,
)
    ensures
        ({
            let q1 = spec_deliver(ResolutionStrategy::Deferred, a.function, a.argument, q).0;
            let q2 = spec_deliver(ResolutionStrategy::Deferred, b.function, b.argument, q1).0;
            q2.len() == q.len() + 2 && q2[q.len() as int] == a && q2[q.len() as int + 1] == b
        }),
{
}

} // verus!
