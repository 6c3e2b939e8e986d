//! The transcription worker's lifecycle.
//!
//! The worker is a two-state machine: it runs, consuming one job at a time,
//! until the queue is closed and drained, and then stops for good. An engine
//! failure on a job never stops it — the failure is delivered to that job's
//! channel (see [`crate::dispatcher::outcome_of`]) and the loop goes on.

use vstd::prelude::*;

verus! {

/// The worker's lifecycle state.
#[derive(Clone, Copy, Debug, PartialEq, Eq, Structural)]
pub enum WorkerState {
    /// Consuming jobs, one at a time.
    Running,
    /// The queue was closed and drained; terminal.
    Stopped,
}

/// One scheduling decision of the worker loop: with a job fetched the worker
/// keeps running — also right after an engine failure; when the queue
/// yields nothing more (closed and drained) it stops, and `Stopped` is
/// terminal: there is no way back to `Running`.
pub fn worker_next_state(state: WorkerState, fetched_job: bool) -> (s: WorkerState)
    ensures
        state is Stopped ==> s is Stopped,
        state is Running ==> (s is Running <==> fetched_job),
{
    match state {
        WorkerState::Stopped => WorkerState::Stopped,
        WorkerState::Running => if fetched_job {
            WorkerState::Running
        } else {
            WorkerState::Stopped
        },
    }
}

} // verus!
