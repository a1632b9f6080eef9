//! Driving one engine operation to its end.
//!
//! The engine's step function cannot wait for flash. Whenever it needs a
//! page read, programmed or erased it leaves the request with the flash
//! adapter and returns a "not ready" code. The continuation kept here turns
//! each such request into primitive flash requests, has the engine
//! re-invoked once they are done, and repeats this until the engine reports a
//! result that is not a request for I/O. A write that the engine left behind
//! with its final result is performed before the result is handed on.

use vstd::prelude::*;
use crate::engine::{EngineResult, ErrorCode, SuccessCode};
use crate::hw::{DeviceModel, FlashDevice, FlashRequest, PendingOperation, Region};

verus! {

/// Where the drive of an engine operation stands.
#[derive(Debug, Clone, Copy, PartialEq, Eq)]
pub enum Continuation {
    /// Request number `step` of `op` is with the flash device; the engine
    /// waits to be re-invoked.
    Performing { op: PendingOperation, step: usize },
    /// The engine's step function has been invoked and has not answered.
    Stepping,
    /// The engine has reported `result`; request number `step` of `op`,
    /// which it left behind, is with the flash device.
    Draining { result: EngineResult, op: PendingOperation, step: usize },
    /// Nothing is in progress.
    Finished,
}

/// What happened outside since the last action.
#[derive(Debug, Clone, Copy, PartialEq, Eq)]
pub enum DriverEvent {
    /// The engine accepted an operation and asked for its first I/O.
    Queued,
    /// The flash request was performed; `true` when it succeeded.
    FlashDone(bool),
    /// The engine's step function returned.
    Returned(EngineResult),
}

/// The outside work to perform next.
#[derive(Debug, Clone, Copy, PartialEq, Eq)]
pub enum DriverAction {
    /// Perform this request on the flash device and report `FlashDone`.
    Flash(FlashRequest),
    /// Invoke the engine's step function and report `Returned`; before
    /// that, when `load_read_buffer` is set, give the engine the page buffer
    /// as the page it asked for.
    Continue { load_read_buffer: bool },
    /// The operation ended with this result.
    Done(EngineResult),
    /// Storage is in an unknown state: stop.
    Halt,
}

/// The error that stands for a failure of `op`.
pub open spec fn failure_of(op: PendingOperation) -> ErrorCode {
    match op {
        PendingOperation::Read(_) => ErrorCode::ReadFail,
        PendingOperation::Write(_, _) => ErrorCode::WriteFail,
        PendingOperation::Delete(_) => ErrorCode::EraseFail,
    }
}

/// Serving the engine's request while the operation runs: its first flash
/// request goes out; with no request the engine is re-invoked at once; a
/// request that reaches outside the partition fails the operation.
pub open spec fn perform(region: Region, pending: Option<PendingOperation>) -> (
    Continuation,
    DriverAction,
) {
    match pending {
        None => (Continuation::Stepping, DriverAction::Continue { load_read_buffer: false }),
        Some(op) => if region.steps(op) > 0 {
            (
                Continuation::Performing { op, step: 0 },
                DriverAction::Flash(region.request(op, 0)),
            )
        } else {
            (Continuation::Finished, DriverAction::Done(Err(failure_of(op))))
        },
    }
}

/// Serving what the engine left behind with its final `result`: with no
/// request the result is handed on; a request that reaches outside the
/// partition cannot be performed, so storage is in an unknown state.
pub open spec fn drain(
    region: Region,
    pending: Option<PendingOperation>,
    result: EngineResult,
) -> (Continuation, DriverAction) {
    match pending {
        None => (Continuation::Finished, DriverAction::Done(result)),
        Some(op) => if region.steps(op) > 0 {
            (
                Continuation::Draining { result, op, step: 0 },
                DriverAction::Flash(region.request(op, 0)),
            )
        } else {
            (Continuation::Finished, DriverAction::Halt)
        },
    }
}

/// The move on the news that a flash request was performed.
pub open spec fn after_flash(region: Region, state: Continuation, ok: bool) -> (
    Continuation,
    DriverAction,
) {
    match state {
        Continuation::Performing { op, step } => if !ok {
            (Continuation::Finished, DriverAction::Done(Err(failure_of(op))))
        } else if step + 1 < region.steps(op) {
            (
                Continuation::Performing { op, step: (step + 1) as usize },
                DriverAction::Flash(region.request(op, step + 1)),
            )
        } else {
            (
                Continuation::Stepping,
                DriverAction::Continue { load_read_buffer: op is Read },
            )
        },
        Continuation::Draining { result, op, step } => if !ok {
            (Continuation::Finished, DriverAction::Halt)
        } else if step + 1 < region.steps(op) {
            (
                Continuation::Draining { result, op, step: (step + 1) as usize },
                DriverAction::Flash(region.request(op, step + 1)),
            )
        } else {
            (Continuation::Finished, DriverAction::Done(result))
        },
        _ => (Continuation::Finished, DriverAction::Halt),
    }
}

/// Whether `result` asks for flash I/O instead of reporting an outcome.
pub open spec fn wants_io(result: EngineResult) -> bool {
    result matches Err(code) && code.not_ready()
}

/// The move on the engine's answer.
pub open spec fn after_engine(
    region: Region,
    pending: Option<PendingOperation>,
    state: Continuation,
    result: EngineResult,
) -> (Continuation, DriverAction) {
    match state {
        Continuation::Stepping => if wants_io(result) {
            perform(region, pending)
        } else {
            drain(region, pending, result)
        },
        _ => (Continuation::Finished, DriverAction::Halt),
    }
}

/// The move of the continuation on `event`.
pub open spec fn advance(
    region: Region,
    pending: Option<PendingOperation>,
    state: Continuation,
    event: DriverEvent,
) -> (Continuation, DriverAction) {
    match event {
        DriverEvent::Queued => perform(region, pending),
        DriverEvent::FlashDone(ok) => after_flash(region, state, ok),
        DriverEvent::Returned(result) => after_engine(region, pending, state, result),
    }
}

/// Whether the move on `event` empties the adapter's slot for the engine's
/// request.
pub open spec fn consumes_pending(state: Continuation, event: DriverEvent) -> bool {
    match event {
        DriverEvent::Queued => true,
        DriverEvent::FlashDone(_) => false,
        DriverEvent::Returned(_) => state is Stepping,
    }
}

/// The error that stands for a failure of `op`.
pub fn failure_code(op: PendingOperation) -> (code: ErrorCode)
    ensures
        code == failure_of(op),
{
    match op {
        PendingOperation::Read(_) => ErrorCode::ReadFail,
        PendingOperation::Write(_, _) => ErrorCode::WriteFail,
        PendingOperation::Delete(_) => ErrorCode::EraseFail,
    }
}

/// Takes the request that the engine left with the adapter and starts on it
/// while the operation runs.
pub fn perform_pending_flash_op(device: &mut FlashDevice) -> (next: (Continuation, DriverAction))
    ensures
        next == perform(old(device)@.region, old(device)@.pending),
        final(device)@ == (DeviceModel { pending: None, ..old(device)@ }),
        next.1 matches DriverAction::Flash(r) ==> old(device)@.region.contains(r),
{
    match device.take_pending() {
        None => (Continuation::Stepping, DriverAction::Continue { load_read_buffer: false }),
        Some(op) => match device.request(op, 0) {
            Some(request) => (Continuation::Performing { op, step: 0 }, DriverAction::Flash(request)),
            None => (Continuation::Finished, DriverAction::Done(Err(failure_code(op)))),
        },
    }
}

/// Takes the request that the engine left with the adapter together with
/// its final `result` and starts on it.
pub fn drain_pending_flash_op(device: &mut FlashDevice, result: EngineResult) -> (next: (
    Continuation,
    DriverAction,
))
    ensures
        next == drain(old(device)@.region, old(device)@.pending, result),
        final(device)@ == (DeviceModel { pending: None, ..old(device)@ }),
        next.1 matches DriverAction::Flash(r) ==> old(device)@.region.contains(r),
{
    match device.take_pending() {
        None => (Continuation::Finished, DriverAction::Done(result)),
        Some(op) => match device.request(op, 0) {
            Some(request) => (
                Continuation::Draining { result, op, step: 0 },
                DriverAction::Flash(request),
            ),
            None => (Continuation::Finished, DriverAction::Halt),
        },
    }
}

/// One move of the drive: given what happened outside, says what to do
/// next. Every flash request it hands out lies in the adapter's partition.
pub fn continue_to_completion(
    device: &mut FlashDevice,
    state: Continuation,
    event: DriverEvent,
) -> (next: (Continuation, DriverAction))
    ensures
        next == advance(old(device)@.region, old(device)@.pending, state, event),
        final(device)@ == (DeviceModel {
            pending: if consumes_pending(state, event) {
                None
            } else {
                old(device)@.pending
            },
            ..old(device)@
        }),
        next.1 matches DriverAction::Flash(r) ==> old(device)@.region.contains(r),
{
    match event {
        DriverEvent::Queued => perform_pending_flash_op(device),
        DriverEvent::FlashDone(ok) => match state {
            Continuation::Performing { op, step } => {
                if !ok {
                    (Continuation::Finished, DriverAction::Done(Err(failure_code(op))))
                } else {
                    let count = device.steps(op);
                    if count >= 2 && step < count - 1 {
                        match device.request(op, step + 1) {
                            Some(request) => (
                                Continuation::Performing { op, step: step + 1 },
                                DriverAction::Flash(request),
                            ),
                            None => (Continuation::Finished, DriverAction::Halt),
                        }
                    } else {
                        let load_read_buffer = match op {
                            PendingOperation::Read(_) => true,
                            _ => false,
                        };
                        (Continuation::Stepping, DriverAction::Continue { load_read_buffer })
                    }
                }
            },
            Continuation::Draining { result, op, step } => {
                if !ok {
                    (Continuation::Finished, DriverAction::Halt)
                } else {
                    let count = device.steps(op);
                    if count >= 2 && step < count - 1 {
                        match device.request(op, step + 1) {
                            Some(request) => (
                                Continuation::Draining { result, op, step: step + 1 },
                                DriverAction::Flash(request),
                            ),
                            None => (Continuation::Finished, DriverAction::Halt),
                        }
                    } else {
                        (Continuation::Finished, DriverAction::Done(result))
                    }
                }
            },
            _ => (Continuation::Finished, DriverAction::Halt),
        },
        DriverEvent::Returned(result) => match state {
            Continuation::Stepping => {
                let again = match result {
                    Err(code) => code.is_not_ready(),
                    Ok(_) => false,
                };
                if again {
                    perform_pending_flash_op(device)
                } else {
                    drain_pending_flash_op(device, result)
                }
            },
            _ => (Continuation::Finished, DriverAction::Halt),
        },
    }
}

/// The first move after the engine was asked to mount the partition: a
/// mount that did not end at once is driven to its end.
pub fn initialise(device: &mut FlashDevice, started: EngineResult) -> (next: (
    Continuation,
    DriverAction,
))
    ensures
        next == if started is Err {
            perform(old(device)@.region, old(device)@.pending)
        } else {
            (Continuation::Finished, DriverAction::Done(started))
        },
        final(device)@ == (DeviceModel {
            pending: if started is Err {
                None
            } else {
                old(device)@.pending
            },
            ..old(device)@
        }),
        next.1 matches DriverAction::Flash(r) ==> old(device)@.region.contains(r),
{
    match started {
        Err(_) => continue_to_completion(device, Continuation::Finished, DriverEvent::Queued),
        Ok(_) => (Continuation::Finished, DriverAction::Done(started)),
    }
}

/// The first move after the engine was asked to look up, append or
/// invalidate a key, or to reclaim space: an operation that the engine
/// queued is driven to its end; any other answer means that the engine and
/// its flash adapter disagree, and nothing can be done.
pub fn start_operation(device: &mut FlashDevice, started: EngineResult) -> (next: (
    Continuation,
    DriverAction,
))
    ensures
        next == if started == Ok::<SuccessCode, ErrorCode>(SuccessCode::Queued) {
            perform(old(device)@.region, old(device)@.pending)
        } else {
            (Continuation::Finished, DriverAction::Halt)
        },
        final(device)@ == (DeviceModel {
            pending: if started == Ok::<SuccessCode, ErrorCode>(SuccessCode::Queued) {
                None
            } else {
                old(device)@.pending
            },
            ..old(device)@
        }),
        next.1 matches DriverAction::Flash(r) ==> old(device)@.region.contains(r),
{
    match started {
        Ok(SuccessCode::Queued) => continue_to_completion(
            device,
            Continuation::Finished,
            DriverEvent::Queued,
        ),
        _ => (Continuation::Finished, DriverAction::Halt),
    }
}

/// The state and the action after the flash device performed `count` more
/// requests, all with success.
pub open spec fn after_successes(
    region: Region,
    state: Continuation,
    action: DriverAction,
    count: nat,
) -> (Continuation, DriverAction)
    decreases count,
{
    if count == 0 {
        (state, action)
    } else {
        let (state, action) = after_successes(region, state, action, (count - 1) as nat);
        after_flash(region, state, true)
    }
}

/// While the flash device succeeds, an operation that the engine asked for
/// takes one request after the other, exactly as many as it has steps, and
/// then the engine is re-invoked; it is given the page buffer when it had
/// asked for a page.
pub proof fn lemma_request_performed(region: Region, op: PendingOperation, count: nat)
    requires
        0 < region.steps(op),
        count <= region.steps(op),
    ensures
        perform(region, Some(op)).0 == (Continuation::Performing { op, step: 0 }),
        ({
            let first = perform(region, Some(op));
            let reached = after_successes(region, first.0, first.1, count);
            if count < region.steps(op) {
                reached == (
                    Continuation::Performing { op, step: count as usize },
                    DriverAction::Flash(region.request(op, count as int)),
                )
            } else {
                reached == (
                    Continuation::Stepping,
                    DriverAction::Continue { load_read_buffer: op is Read },
                )
            }
        }),
    decreases count,
{
    if count > 0 {
        lemma_request_performed(region, op, (count - 1) as nat);
    }
}

/// The write that the engine left behind with its final result is performed
/// in full before the result is handed on, and the result is handed on
/// unchanged.
pub proof fn lemma_trailing_request_drained(
    region: Region,
    op: PendingOperation,
    result: EngineResult,
    count: nat,
)
    requires
        0 < region.steps(op),
        count <= region.steps(op),
        !wants_io(result),
    ensures
        ({
            let first = after_engine(region, Some(op), Continuation::Stepping, result);
            let reached = after_successes(region, first.0, first.1, count);
            if count < region.steps(op) {
                reached == (
                    Continuation::Draining { result, op, step: count as usize },
                    DriverAction::Flash(region.request(op, count as int)),
                )
            } else {
                reached == (Continuation::Finished, DriverAction::Done(result))
            }
        }),
    decreases count,
{
    if count > 0 {
        lemma_trailing_request_drained(region, op, result, (count - 1) as nat);
    }
}

} // verus!
