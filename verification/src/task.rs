//! The order of work of the task that owns the storage engine.
//!
//! The task mounts the engine, lets every registered service check its
//! stored fingerprint, one after the other, and then serves: it waits until
//! some service's doorbell rings, takes requests from that service's queue
//! until the queue is empty, and waits again. A failed mount ends it.

use vstd::prelude::*;
use crate::engine::EngineResult;

verus! {

/// Where the storage task stands.
#[derive(Debug, Clone, Copy, PartialEq, Eq)]
pub enum TaskState {
    /// The task has not started.
    Booting,
    /// The engine is being mounted.
    Mounting,
    /// The service with this index is checking its stored fingerprint.
    Initializing(usize),
    /// The task waits for a doorbell.
    Waiting,
    /// The task has asked the queue of the service with this index for its
    /// next request.
    Draining(usize),
    /// A request of the service with this index is being served.
    Serving(usize),
    /// The task has stopped for good.
    Halted,
}

/// What happened outside since the last action.
#[derive(Debug, Clone, Copy, PartialEq, Eq)]
pub enum TaskEvent {
    /// The task was started.
    Started,
    /// The mount ended with this result.
    Mounted(EngineResult),
    /// The service that was asked to check its fingerprint is ready.
    Initialized,
    /// The doorbell of the service with this index rang.
    Woken(usize),
    /// The queue handed out a request.
    Received,
    /// The queue was empty.
    Empty,
    /// The request was served and answered.
    Served,
}

/// The outside work to perform next.
#[derive(Debug, Clone, Copy, PartialEq, Eq)]
pub enum TaskAction {
    /// Mount the engine, which formats a partition that holds no store,
    /// and report `Mounted`.
    Mount,
    /// Let the service with this index check its stored fingerprint and
    /// report `Initialized`.
    Initialize(usize),
    /// Wait for the first doorbell to ring and report `Woken`.
    Wait,
    /// Take the next request from the queue of the service with this index
    /// without waiting, and report `Received` or `Empty`.
    Receive(usize),
    /// Serve the request just taken, answer it, and report `Served`.
    Serve(usize),
    /// Stop: storage is in an unknown state.
    Halt,
}

/// The task's move once service number `index` is the next to be
/// initialised: it is asked to check its fingerprint, or, when every
/// service has done so, the task starts to wait.
pub open spec fn initialise_from(services: usize, index: int) -> (TaskState, TaskAction) {
    if index < services {
        (TaskState::Initializing(index as usize), TaskAction::Initialize(index as usize))
    } else {
        (TaskState::Waiting, TaskAction::Wait)
    }
}

/// The task's move on `event`, with `services` registered services.
///
/// A doorbell that belongs to no service is ignored. An event that does not
/// answer the task's last action stops the task.
pub open spec fn task_step(services: usize, state: TaskState, event: TaskEvent) -> (
    TaskState,
    TaskAction,
) {
    match (state, event) {
        (TaskState::Booting, TaskEvent::Started) => (TaskState::Mounting, TaskAction::Mount),
        (TaskState::Mounting, TaskEvent::Mounted(result)) => if result is Ok {
            initialise_from(services, 0)
        } else {
            (TaskState::Halted, TaskAction::Halt)
        },
        (TaskState::Initializing(index), TaskEvent::Initialized) => initialise_from(
            services,
            index + 1,
        ),
        (TaskState::Waiting, TaskEvent::Woken(index)) => if index < services {
            (TaskState::Draining(index), TaskAction::Receive(index))
        } else {
            (TaskState::Waiting, TaskAction::Wait)
        },
        (TaskState::Draining(index), TaskEvent::Received) => (
            TaskState::Serving(index),
            TaskAction::Serve(index),
        ),
        (TaskState::Draining(_), TaskEvent::Empty) => (TaskState::Waiting, TaskAction::Wait),
        (TaskState::Serving(index), TaskEvent::Served) => (
            TaskState::Draining(index),
            TaskAction::Receive(index),
        ),
        _ => (TaskState::Halted, TaskAction::Halt),
    }
}

/// The task's move once the service with the given index is the next to
/// be initialised.
fn initialise_next(services: usize, index: usize) -> (next: (TaskState, TaskAction))
    ensures
        next == initialise_from(services, index as int),
{
    if index < services {
        (TaskState::Initializing(index), TaskAction::Initialize(index))
    } else {
        (TaskState::Waiting, TaskAction::Wait)
    }
}

/// One move of the storage task: given what happened outside, says what to
/// do next.
pub fn storage_task(services: usize, state: TaskState, event: TaskEvent) -> (next: (
    TaskState,
    TaskAction,
))
    ensures
        next == task_step(services, state, event),
{
    match (state, event) {
        (TaskState::Booting, TaskEvent::Started) => (TaskState::Mounting, TaskAction::Mount),
        (TaskState::Mounting, TaskEvent::Mounted(result)) => {
            if result.is_ok() {
                initialise_next(services, 0)
            } else {
                (TaskState::Halted, TaskAction::Halt)
            }
        },
        (TaskState::Initializing(index), TaskEvent::Initialized) => {
            if index < services {
                initialise_next(services, index + 1)
            } else {
                (TaskState::Waiting, TaskAction::Wait)
            }
        },
        (TaskState::Waiting, TaskEvent::Woken(index)) => {
            if index < services {
                (TaskState::Draining(index), TaskAction::Receive(index))
            } else {
                (TaskState::Waiting, TaskAction::Wait)
            }
        },
        (TaskState::Draining(index), TaskEvent::Received) => (
            TaskState::Serving(index),
            TaskAction::Serve(index),
        ),
        (TaskState::Draining(_), TaskEvent::Empty) => (TaskState::Waiting, TaskAction::Wait),
        (TaskState::Serving(index), TaskEvent::Served) => (
            TaskState::Draining(index),
            TaskAction::Receive(index),
        ),
        _ => (TaskState::Halted, TaskAction::Halt),
    }
}

/// The task's state and last action after the mount succeeded and `count`
/// services reported that they are ready.
pub open spec fn after_ready(services: usize, count: nat) -> (TaskState, TaskAction)
    decreases count,
{
    if count == 0 {
        task_step(services, TaskState::Mounting, TaskEvent::Mounted(Ok(crate::engine::SuccessCode::Complete)))
    } else {
        task_step(services, after_ready(services, (count - 1) as nat).0, TaskEvent::Initialized)
    }
}

/// After a successful mount the services are asked to check
/// their fingerprints in the order of their indices, each after the one
/// before it is ready, and the task waits for requests only when all of
/// them are.
pub proof fn lemma_startup_order(services: usize, count: nat)
    requires
        count <= services,
    ensures
        after_ready(services, count) == initialise_from(services, count as int),
        count < services ==> after_ready(services, count).1 == TaskAction::Initialize(
            count as usize,
        ),
        count == services ==> after_ready(services, count) == (TaskState::Waiting, TaskAction::Wait),
    decreases count,
{
    if count > 0 {
        lemma_startup_order(services, (count - 1) as nat);
    }
}

/// Once a doorbell has woken the task, it asks the same queue
/// again after every request served, and goes back to waiting only when the
/// queue reports that it is empty.
pub proof fn lemma_drains_before_waiting(services: usize, index: usize, event: TaskEvent)
    requires
        index < services,
    ensures
        task_step(services, TaskState::Waiting, TaskEvent::Woken(index)) == (
            TaskState::Draining(index),
            TaskAction::Receive(index),
        ),
        task_step(services, TaskState::Serving(index), TaskEvent::Served) == (
            TaskState::Draining(index),
            TaskAction::Receive(index),
        ),
        task_step(services, TaskState::Draining(index), event).1 == TaskAction::Wait <==> event
            == TaskEvent::Empty,
{
}

} // verus!
