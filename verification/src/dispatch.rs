//! The dispatcher's decision step. The surrounding loop polls the queue
//! store, hands each outcome to [`dispatch_step`], and performs the returned
//! action: an idle wait, an immediate re-poll after dropping a malformed
//! payload, or spawning one concurrent execution for a decoded job. The
//! loop never terminates and no outcome is fatal.

use vstd::prelude::*;

use crate::codec::{decode, spec_decode, QueuedCompletionJob};

verus! {

/// One outcome of a non-blocking pop from the queue store.
pub enum PollEvent {
    /// The queue store could not be reached.
    Unreachable,
    /// The queue is empty.
    Empty,
    /// The head payload, removed from the queue.
    Payload(String),
}

/// What the dispatcher does next.
pub enum DispatchAction {
    /// Publish nothing; wait the given idle interval, then poll again.
    Idle(u64),
    /// Spawn one independent execution of this job, then poll again at once.
    Execute(QueuedCompletionJob),
    /// Drop the malformed payload for good, log it, and poll again at once,
    /// with no idle wait.
    Discard,
}

/// Decides one polling cycle.
///
/// An unreachable queue store is never fatal: the dispatcher idles and
/// retries forever. An empty queue causes exactly one idle wait of
/// `idle_wait_ms` and no publication. A payload is decoded with the job
/// codec: a well-formed payload becomes one spawned execution, and a
/// malformed one is dropped permanently, the next poll following at once.
pub fn dispatch_step(event: PollEvent, idle_wait_ms: u64) -> (a: DispatchAction)
    ensures
        match event {
            PollEvent::Unreachable => a == DispatchAction::Idle(idle_wait_ms),
            PollEvent::Empty => a == DispatchAction::Idle(idle_wait_ms),
            PollEvent::Payload(p) => match spec_decode(p@) {
                Some(jv) => a matches DispatchAction::Execute(job) && job@ == jv,
                None => a == DispatchAction::Discard,
            },
        },
{
    match event {
        PollEvent::Unreachable => DispatchAction::Idle(idle_wait_ms),
        PollEvent::Empty => DispatchAction::Idle(idle_wait_ms),
        PollEvent::Payload(p) => match decode(p.as_str()) {
            Ok(job) => DispatchAction::Execute(job),
            Err(_) => DispatchAction::Discard,
        },
    }
}

} // verus!
