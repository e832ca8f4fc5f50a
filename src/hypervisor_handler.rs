use vstd::prelude::*;

use crate::error::HyperlightError;

verus! {

/// Arguments to initialise the vCPU.
#[derive(Debug, Clone, Copy, PartialEq, Eq, Structural)]
pub struct InitArgs {
    pub peb_addr: u64,
    pub seed: u64,
    pub page_size: u32,
}

impl InitArgs {
    /// Create a new `InitArgs` instance.
    pub fn new(peb_addr: u64, seed: u64, page_size: u32) -> (r: InitArgs)
        ensures
            r.peb_addr == peb_addr,
            r.seed == seed,
            r.page_size == page_size,
    {
        InitArgs { peb_addr, seed, page_size }
    }
}

/// Arguments to run a guest function.
#[derive(Debug, Clone)]
pub struct DispatchArgs {
    pub function_name: String,
    pub dispatch_func_addr: u64,
}

impl DispatchArgs {
    /// Create a new `DispatchArgs` instance.
    pub fn new(function_name: String, dispatch_func_addr: u64) -> (r: DispatchArgs)
        ensures
            r.function_name@ == function_name@,
            r.dispatch_func_addr == dispatch_func_addr,
    {
        DispatchArgs { function_name, dispatch_func_addr }
    }
}

/// The actions a hypervisor handler carries out.
#[derive(Debug, Clone)]
pub enum HypervisorHandlerAction {
    /// Initialise the vCPU.
    Initialise(InitArgs),
    /// Run the vCPU from a guest function until it halts.
    DispatchCallFromHost(DispatchArgs),
    /// Stop the handler.
    TerminateHandlerThread,
}

/// The handler's reply once it has carried out an action.
#[derive(Debug, Clone)]
pub enum HandlerMsg {
    FinishedHypervisorHandlerAction,
    Error(HyperlightError),
}

/// What the handler does for one action.
#[derive(Debug, Clone, Copy, PartialEq, Eq, Structural)]
pub enum WorkerStep {
    /// Clear the termination flags, then initialise the vCPU.
    Initialise { peb_addr: u64, seed: u64, page_size: u32 },
    /// Clear the termination flags, then run the vCPU from `func_addr`.
    Dispatch { func_addr: u64 },
    /// Leave the loop, reply that the handler finished, and drop the driver.
    Stop,
}

/// The handler's step for `action`.
pub fn worker_step(action: &HypervisorHandlerAction) -> (r: WorkerStep)
    ensures
        match action {
            HypervisorHandlerAction::Initialise(a) => r == WorkerStep::Initialise {
                peb_addr: a.peb_addr,
                seed: a.seed,
                page_size: a.page_size,
            },
            HypervisorHandlerAction::DispatchCallFromHost(a) => r == WorkerStep::Dispatch {
                func_addr: a.dispatch_func_addr,
            },
            HypervisorHandlerAction::TerminateHandlerThread => r == WorkerStep::Stop,
        },
{
    match action {
        HypervisorHandlerAction::Initialise(a) => WorkerStep::Initialise {
            peb_addr: a.peb_addr,
            seed: a.seed,
            page_size: a.page_size,
        },
        HypervisorHandlerAction::DispatchCallFromHost(a) => WorkerStep::Dispatch { func_addr: a.dispatch_func_addr },
        HypervisorHandlerAction::TerminateHandlerThread => WorkerStep::Stop,
    }
}

/// The reply for the outcome of an initialisation or a dispatch.
pub fn reply_for(result: Result<(), HyperlightError>) -> (r: HandlerMsg)
    ensures
        match result {
            Ok(()) => r is FinishedHypervisorHandlerAction,
            Err(e) => r == HandlerMsg::Error(e),
        },
{
    match result {
        Ok(()) => HandlerMsg::FinishedHypervisorHandlerAction,
        Err(e) => HandlerMsg::Error(e),
    }
}

/// What the controller makes of a reply: `None` means none came before the
/// deadline, which fails with `HypervisorHandlerMessageReceiveTimedout`.
pub fn receive_outcome(reply: Option<HandlerMsg>) -> (r: Result<(), HyperlightError>)
    ensures
        match reply {
            None => r == Err::<(), HyperlightError>(HyperlightError::HypervisorHandlerMessageReceiveTimedout),
            Some(HandlerMsg::FinishedHypervisorHandlerAction) => r is Ok,
            Some(HandlerMsg::Error(e)) => r == Err::<(), HyperlightError>(e),
        },
{
    match reply {
        Some(HandlerMsg::Error(e)) => Err(e),
        Some(HandlerMsg::FinishedHypervisorHandlerAction) => Ok(()),
        None => Err(HyperlightError::HypervisorHandlerMessageReceiveTimedout),
    }
}

/// Where the controller stands while cancelling a call that ran past its
/// deadline.
#[derive(Debug)]
pub enum CancelState {
    /// The deadline passed; the controller is probing the driver lock.
    Start,
    /// Termination was requested and the vCPU is being signalled.
    Signalling,
    /// Signalling stopped; the controller is probing the lock again.
    Probing,
    /// The controller waits for the handler's reply to the cancelled call.
    AwaitingReply,
    /// The snapshot is being restored; the outcome is kept for the end.
    Restoring(HyperlightError),
    /// The vCPU is being initialised again; the outcome is kept for the end.
    Reinitialising(HyperlightError),
    /// The cancellation is over: `Ok` holds the outcome to report for the
    /// call, `Err` a failure of the cancellation itself.
    Done(Result<HyperlightError, HyperlightError>),
}

/// What the controller observed since its last step.
#[derive(Debug)]
pub enum CancelEvent {
    /// The driver lock could (`true`) or could not be taken.
    LockProbed(bool),
    /// Whether the handler acknowledged the cancellation, and the
    /// milliseconds spent signalling so far.
    SignalRound { acknowledged: bool, elapsed_ms: u64 },
    /// The handler's reply to the cancelled call.
    Reply(Result<(), HyperlightError>),
    /// The snapshot restore finished with this result.
    Restored(Result<(), HyperlightError>),
    /// The re-initialisation finished with this result.
    Reinitialised(Result<(), HyperlightError>),
}

/// What the controller does next.
#[derive(Debug, Clone, PartialEq, Eq)]
pub enum CancelAction {
    /// Try to take the driver lock without waiting.
    ProbeLock,
    /// Set the termination flag and interrupt the vCPU.
    RequestTermination,
    /// Interrupt the vCPU again and wait a short interval.
    SignalAgain,
    /// Wait for the handler's reply to the cancelled call.
    ReceiveReply,
    /// Restore memory from the snapshot taken before the call.
    RestoreSnapshot,
    /// Send `Initialise` to the handler and wait for its reply.
    Reinitialise,
    /// Nothing is left to do.
    Stop,
}

/// The outcome reported for a cancelled call, from the handler's reply: a
/// reply that the call finished means it completed before the cancellation
/// took hold (`HypervisorHandlerExecutionCancelAttemptOnFinishedExecution`);
/// an error reply means the run was cut short (`ExecutionCanceledByHost`).
pub open spec fn cancel_outcome(reply: Result<(), HyperlightError>) -> HyperlightError {
    match reply {
        Ok(()) => HyperlightError::HypervisorHandlerExecutionCancelAttemptOnFinishedExecution,
        Err(_) => HyperlightError::ExecutionCanceledByHost,
    }
}

/// The step that `cancel_step` takes.
pub open spec fn cancel_transition(state: CancelState, event: CancelEvent, max_wait_ms: u64) -> (CancelState, CancelAction) {
    match (state, event) {
        (CancelState::Start, CancelEvent::LockProbed(true)) => (
            CancelState::Done(Ok(HyperlightError::HypervisorHandlerExecutionCancelAttemptOnFinishedExecution)),
            CancelAction::Stop,
        ),
        (CancelState::Start, CancelEvent::LockProbed(false)) => (
            CancelState::Signalling,
            CancelAction::RequestTermination,
        ),
        (CancelState::Signalling, CancelEvent::SignalRound { acknowledged, elapsed_ms }) =>
            if acknowledged {
                (CancelState::Probing, CancelAction::ProbeLock)
            } else if elapsed_ms >= max_wait_ms {
                (CancelState::Done(Err(HyperlightError::CancellationNotAcknowledged)), CancelAction::Stop)
            } else {
                (CancelState::Signalling, CancelAction::SignalAgain)
            },
        (CancelState::Probing, CancelEvent::LockProbed(true)) => (
            CancelState::AwaitingReply,
            CancelAction::ReceiveReply,
        ),
        (CancelState::Probing, CancelEvent::LockProbed(false)) => (
            CancelState::Done(Err(HyperlightError::GuestExecutionHungOnHostFunctionCall)),
            CancelAction::Stop,
        ),
        (CancelState::AwaitingReply, CancelEvent::Reply(reply)) => (
            CancelState::Restoring(cancel_outcome(reply)),
            CancelAction::RestoreSnapshot,
        ),
        (CancelState::Restoring(outcome), CancelEvent::Restored(res)) => match res {
            Ok(()) => (CancelState::Reinitialising(outcome), CancelAction::Reinitialise),
            Err(e) => (CancelState::Done(Err(e)), CancelAction::Stop),
        },
        (CancelState::Reinitialising(outcome), CancelEvent::Reinitialised(res)) => match res {
            Ok(()) => (CancelState::Done(Ok(outcome)), CancelAction::Stop),
            Err(e) => (CancelState::Done(Err(e)), CancelAction::Stop),
        },
        (CancelState::Done(res), _) => (CancelState::Done(res), CancelAction::Stop),
        (s, _) => {
            let a = match s {
                CancelState::Start => CancelAction::ProbeLock,
                CancelState::Signalling => CancelAction::SignalAgain,
                CancelState::Probing => CancelAction::ProbeLock,
                CancelState::AwaitingReply => CancelAction::ReceiveReply,
                CancelState::Restoring(_) => CancelAction::RestoreSnapshot,
                CancelState::Reinitialising(_) => CancelAction::Reinitialise,
                CancelState::Done(_) => CancelAction::Stop,
            };
            (s, a)
        },
    }
}

/// One step of cancelling a call that ran past its deadline.
///
/// If the driver lock is free at the start, the call had in fact finished:
/// the outcome is `HypervisorHandlerExecutionCancelAttemptOnFinishedExecution`
/// and nothing else is done. Otherwise termination is requested and the
/// vCPU is signalled until the handler acknowledges, failing with
/// `CancellationNotAcknowledged` after `max_wait_ms`. If the lock is still
/// held after that, the guest is stuck in a host function call
/// (`GuestExecutionHungOnHostFunctionCall`). Otherwise the handler's reply is
/// received, memory is restored from the snapshot, the vCPU is initialised
/// again, and the outcome from the reply (`cancel_outcome`) is reported. A failed restore or
/// re-initialisation ends the cancellation with that failure.
pub fn cancel_step(state: CancelState, event: CancelEvent, max_wait_ms: u64) -> (r: (CancelState, CancelAction))
    ensures
        r == cancel_transition(state, event, max_wait_ms),
{
    match (state, event) {
        (CancelState::Start, CancelEvent::LockProbed(free)) => {
            if free {
                (
                    CancelState::Done(Ok(HyperlightError::HypervisorHandlerExecutionCancelAttemptOnFinishedExecution)),
                    CancelAction::Stop,
                )
            } else {
                (CancelState::Signalling, CancelAction::RequestTermination)
            }
        },
        (CancelState::Signalling, CancelEvent::SignalRound { acknowledged, elapsed_ms }) => {
            if acknowledged {
                (CancelState::Probing, CancelAction::ProbeLock)
            } else if elapsed_ms >= max_wait_ms {
                (CancelState::Done(Err(HyperlightError::CancellationNotAcknowledged)), CancelAction::Stop)
            } else {
                (CancelState::Signalling, CancelAction::SignalAgain)
            }
        },
        (CancelState::Probing, CancelEvent::LockProbed(free)) => {
            if free {
                (CancelState::AwaitingReply, CancelAction::ReceiveReply)
            } else {
                (CancelState::Done(Err(HyperlightError::GuestExecutionHungOnHostFunctionCall)), CancelAction::Stop)
            }
        },
        (CancelState::AwaitingReply, CancelEvent::Reply(reply)) => {
            let outcome = match reply {
                Ok(()) => HyperlightError::HypervisorHandlerExecutionCancelAttemptOnFinishedExecution,
                Err(_) => HyperlightError::ExecutionCanceledByHost,
            };
            (CancelState::Restoring(outcome), CancelAction::RestoreSnapshot)
        },
        (CancelState::Restoring(outcome), CancelEvent::Restored(res)) => match res {
            Ok(()) => (CancelState::Reinitialising(outcome), CancelAction::Reinitialise),
            Err(e) => (CancelState::Done(Err(e)), CancelAction::Stop),
        },
        (CancelState::Reinitialising(outcome), CancelEvent::Reinitialised(res)) => match res {
            Ok(()) => (CancelState::Done(Ok(outcome)), CancelAction::Stop),
            Err(e) => (CancelState::Done(Err(e)), CancelAction::Stop),
        },
        (CancelState::Done(res), _) => (CancelState::Done(res), CancelAction::Stop),
        (s, _) => {
            let a = match &s {
                CancelState::Start => CancelAction::ProbeLock,
                CancelState::Signalling => CancelAction::SignalAgain,
                CancelState::Probing => CancelAction::ProbeLock,
                CancelState::AwaitingReply => CancelAction::ReceiveReply,
                CancelState::Restoring(_) => CancelAction::RestoreSnapshot,
                CancelState::Reinitialising(_) => CancelAction::Reinitialise,
                CancelState::Done(_) => CancelAction::Stop,
            };
            (s, a)
        },
    }
}

/// The outcome a cancellation may report for a call, or keep for the end.
pub open spec fn reportable(e: HyperlightError) -> bool {
    ||| e == HyperlightError::ExecutionCanceledByHost
    ||| e == HyperlightError::HypervisorHandlerExecutionCancelAttemptOnFinishedExecution
}

/// Every outcome a cancellation holds is one it may report.
pub open spec fn outcome_reportable(s: CancelState) -> bool {
    match s {
        CancelState::Restoring(o) => reportable(o),
        CancelState::Reinitialising(o) => reportable(o),
        CancelState::Done(Ok(o)) => reportable(o),
        _ => true,
    }
}

/// A cancellation that completes reports the call either as cancelled by
/// the host or as having finished before the cancellation took hold; every
/// step keeps this so.
pub proof fn lemma_cancel_outcomes(state: CancelState, event: CancelEvent, max_wait_ms: u64)
    requires
        outcome_reportable(state),
    ensures
        outcome_reportable(cancel_transition(state, event, max_wait_ms).0),
{
}

/// A call that is still running when its deadline passes is cancelled: once
/// the handler acknowledges the signal, frees the driver and replies that
/// the run was cancelled, memory is restored, the vCPU is initialised again,
/// and the call is reported as `ExecutionCanceledByHost`.
pub proof fn lemma_cancel_running_call(max_wait_ms: u64, elapsed_ms: u64)
    ensures
        ({
            let (s1, a1) = cancel_transition(CancelState::Start, CancelEvent::LockProbed(false), max_wait_ms);
            let (s2, a2) = cancel_transition(
                s1,
                CancelEvent::SignalRound { acknowledged: true, elapsed_ms },
                max_wait_ms,
            );
            let (s3, a3) = cancel_transition(s2, CancelEvent::LockProbed(true), max_wait_ms);
            let (s4, a4) = cancel_transition(
                s3,
                CancelEvent::Reply(Err(HyperlightError::ExecutionCanceledByHost)),
                max_wait_ms,
            );
            let (s5, a5) = cancel_transition(s4, CancelEvent::Restored(Ok(())), max_wait_ms);
            let (s6, a6) = cancel_transition(s5, CancelEvent::Reinitialised(Ok(())), max_wait_ms);
            &&& a1 == CancelAction::RequestTermination
            &&& a4 == CancelAction::RestoreSnapshot
            &&& a5 == CancelAction::Reinitialise
            &&& s6 == CancelState::Done(Ok(HyperlightError::ExecutionCanceledByHost))
        }),
{
}

/// A call whose driver lock is already free when the deadline passes had
/// finished: the cancellation reports
/// `HypervisorHandlerExecutionCancelAttemptOnFinishedExecution` and touches
/// nothing.
pub proof fn lemma_cancel_finished_call(max_wait_ms: u64)
    ensures
        cancel_transition(CancelState::Start, CancelEvent::LockProbed(true), max_wait_ms) == (
            CancelState::Done(Ok(HyperlightError::HypervisorHandlerExecutionCancelAttemptOnFinishedExecution)),
            CancelAction::Stop,
        ),
{
}

} // verus!
