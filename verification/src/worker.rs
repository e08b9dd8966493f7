//! The worker's drain discipline.
//!
//! The worker is the queue's only consumer.  Its loop has two states,
//! `Draining` and `Terminated`: while draining it waits on the queue with a
//! bounded timeout, handles each frame it receives, and re-checks the
//! running flag whenever a wait times out; once the producer side is closed
//! and the queue is empty it terminates unconditionally, which is how a
//! graceful stop drains every buffered frame before the worker exits.
//! `worker_step` is that decision table; a host that runs the worker on a
//! real thread performs the wait itself and feeds the outcome back in.

use vstd::prelude::*;

use crate::config::EncoderConfig;
use crate::config::FrameData;
use crate::queue::FrameQueue;
use crate::queue::queue_capacity;
use crate::queue::queue_contents;

verus! {

/// The worker loop's state: it is draining the queue, or it has exited.
/// `Terminated` is final.
#[derive(Clone, Copy, Debug, PartialEq, Eq, Structural)]
pub enum WorkerState {
    Draining,
    Terminated,
}

/// What one wait on the queue came back with.
pub enum WorkerEvent {
    /// A frame arrived.
    Frame(FrameData),
    /// The wait timed out with no frame available.
    TimedOut,
    /// The producer side is closed and the queue is drained.
    Closed,
}

/// What the worker does next after an event.
pub enum WorkerAction {
    /// Hand the frame to the processing step and count it.
    Process(FrameData),
    /// Wait on the queue again.
    Wait,
    /// End the loop; the worker's handle becomes joinable.
    Exit,
}

/// The worker's transition function, as a single mathematical definition.
pub open spec fn spec_worker_step(state: WorkerState, running: bool, event: WorkerEvent) -> (
    WorkerState,
    WorkerAction,
) {
    match state {
        WorkerState::Terminated => (WorkerState::Terminated, WorkerAction::Exit),
        WorkerState::Draining => match event {
            WorkerEvent::Frame(f) => (WorkerState::Draining, WorkerAction::Process(f)),
            WorkerEvent::TimedOut => if running {
                (WorkerState::Draining, WorkerAction::Wait)
            } else {
                (WorkerState::Terminated, WorkerAction::Exit)
            },
            WorkerEvent::Closed => (WorkerState::Terminated, WorkerAction::Exit),
        },
    }
}

/// Decide the worker's next state and action from the current state, the
/// running flag as re-read after the wait, and the wait's outcome.
///
/// A frame is always processed, even when the running flag has already been
/// cleared: a stop drains, it does not discard.  A timeout alone never ends
/// the loop while the flag is set, and the closed-and-drained signal ends it
/// unconditionally.
pub fn worker_step(state: WorkerState, running: bool, event: WorkerEvent) -> (r: (
    WorkerState,
    WorkerAction,
))
    ensures
        r == spec_worker_step(state, running, event),
{
    match state {
        WorkerState::Terminated => (WorkerState::Terminated, WorkerAction::Exit),
        WorkerState::Draining => match event {
            WorkerEvent::Frame(f) => (WorkerState::Draining, WorkerAction::Process(f)),
            WorkerEvent::TimedOut => if running {
                (WorkerState::Draining, WorkerAction::Wait)
            } else {
                (WorkerState::Terminated, WorkerAction::Exit)
            },
            WorkerEvent::Closed => (WorkerState::Terminated, WorkerAction::Exit),
        },
    }
}

/// The processing step invoked once per frame.
///
/// The real codec is an external collaborator behind a single synchronous
/// call; this step stands in for it at the pipeline's boundary.  It accepts
/// every frame — including one with an empty payload — so a frame's fate
/// never depends on its contents, and a failure of the step would be
/// non-fatal in any case: the worker counts the frame either way and the
/// loop continues.
pub fn process_frame(_frame: &FrameData, _config: &EncoderConfig) -> (ok: bool)
    ensures
        ok,
{
    true
}

/// Drain the queue to empty, handing each frame to the processing step in
/// arrival order, and return how many frames were handled.
pub fn drain(queue: &mut FrameQueue, config: &EncoderConfig) -> (n: usize)
    requires
        queue_contents(*old(queue)).len() <= usize::MAX,
    ensures
        n == queue_contents(*old(queue)).len(),
        queue_contents(*final(queue)).len() == 0,
        queue_capacity(*final(queue)) == queue_capacity(*old(queue)),
{
    let mut n: usize = 0;
    loop
        invariant
            queue_contents(*old(queue)).len() <= usize::MAX,
            queue_capacity(*queue) == queue_capacity(*old(queue)),
            n + queue_contents(*queue).len() == queue_contents(*old(queue)).len(),
        decreases queue_contents(*queue).len(),
    {
        match queue.pop() {
            Some(frame) => {
                let _ok = process_frame(&frame, config);
                n = n + 1;
            },
            None => {
                return n;
            },
        }
    }
}

} // verus!
