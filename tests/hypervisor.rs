use hyperlight_host::error::HyperlightError;
use hyperlight_host::exit::{
    classify_memory_access, entry_arguments, handle_exit, long_mode_registers, ExitAction,
    HyperlightExit, MEMORY_ACCESS_EXECUTE,
};
use hyperlight_host::hypervisor_handler::{
    cancel_step, receive_outcome, reply_for, worker_step, CancelAction, CancelEvent, CancelState,
    DispatchArgs, HandlerMsg, HypervisorHandlerAction, InitArgs, WorkerStep,
};
use hyperlight_host::kvm::{KvmRunMessage, KvmRunMessageType};

#[test]
fn exit_dispatch() {
    assert!(matches!(handle_exit(HyperlightExit::Halt, 0x1000, 0x2000), ExitAction::Finish));
    assert!(matches!(
        handle_exit(
            HyperlightExit::IoOut { port: 0x3f8, payload: 7, rip: 0x100, instruction_length: 2 },
            0x1000,
            0x2000
        ),
        ExitAction::HandleOutb { port: 0x3f8, payload: 7, next_rip: 0x102 }
    ));
    assert!(matches!(
        handle_exit(HyperlightExit::ExecutionAccessViolation(0x1800), 0x1000, 0x2000),
        ExitAction::Fail(HyperlightError::StackOverflow)
    ));
    assert!(matches!(
        handle_exit(HyperlightExit::ExecutionAccessViolation(0x2000), 0x1000, 0x2000),
        ExitAction::Fail(HyperlightError::ExecutionNX(0x2000))
    ));
    assert!(matches!(
        handle_exit(HyperlightExit::GuardPageViolation(0x1800), 0x1000, 0x2000),
        ExitAction::Fail(HyperlightError::StackOverflow)
    ));
    assert!(matches!(
        handle_exit(HyperlightExit::Mmio(0x9), 0x1000, 0x2000),
        ExitAction::MemAccessThenFail(HyperlightError::MemoryAccessViolation(0x9))
    ));
    assert!(matches!(
        handle_exit(HyperlightExit::Cancelled, 0x1000, 0x2000),
        ExitAction::Fail(HyperlightError::ExecutionCanceledByHost)
    ));
}

#[test]
fn memory_access_classification() {
    assert!(matches!(
        classify_memory_access(0x1800, MEMORY_ACCESS_EXECUTE, 0x1000, 0x2000),
        HyperlightExit::ExecutionAccessViolation(0x1800)
    ));
    assert!(matches!(
        classify_memory_access(0x1800, 1, 0x1000, 0x2000),
        HyperlightExit::GuardPageViolation(0x1800)
    ));
    assert!(matches!(classify_memory_access(0x3000, 1, 0x1000, 0x2000), HyperlightExit::Mmio(0x3000)));
}

#[test]
fn long_mode_register_values() {
    let r = long_mode_registers(0x230000, 0x250000);
    assert_eq!(r.cr0, 0x80050033);
    assert_eq!(r.cr4, 0x620);
    assert_eq!(r.efer, 0x500);
    assert_eq!(r.cr3, 0x200000);
    assert_eq!(r.cs, 0xA09B0008_FFFFFFFF);
    assert_eq!(r.rflags, 0x2);
    assert_eq!(r.rip, 0x230000);
    assert_eq!(r.rsp, 0x250000);
    let a = entry_arguments(0x208000, 42, 4096, 3);
    assert_eq!((a.rcx, a.rdx, a.r8, a.r9), (0x208000, 42, 4096, 3));
}

#[test]
fn handler_worker_steps() {
    let init = HypervisorHandlerAction::Initialise(InitArgs::new(0x208000, 9, 4096));
    assert_eq!(worker_step(&init), WorkerStep::Initialise { peb_addr: 0x208000, seed: 9, page_size: 4096 });
    let dispatch = HypervisorHandlerAction::DispatchCallFromHost(DispatchArgs::new("Echo".to_string(), 0x231000));
    assert_eq!(worker_step(&dispatch), WorkerStep::Dispatch { func_addr: 0x231000 });
    assert_eq!(worker_step(&HypervisorHandlerAction::TerminateHandlerThread), WorkerStep::Stop);
    assert!(matches!(reply_for(Ok(())), HandlerMsg::FinishedHypervisorHandlerAction));
    assert!(matches!(
        reply_for(Err(HyperlightError::StackOverflow)),
        HandlerMsg::Error(HyperlightError::StackOverflow)
    ));
    assert_eq!(receive_outcome(Some(HandlerMsg::FinishedHypervisorHandlerAction)), Ok(()));
    assert_eq!(
        receive_outcome(None),
        Err(HyperlightError::HypervisorHandlerMessageReceiveTimedout)
    );
    assert_eq!(
        receive_outcome(Some(HandlerMsg::Error(HyperlightError::ExecutionCanceledByHost))),
        Err(HyperlightError::ExecutionCanceledByHost)
    );
}

#[test]
fn cancelling_a_running_call() {
    let max_wait = 100;
    let (s, a) = cancel_step(CancelState::Start, CancelEvent::LockProbed(false), max_wait);
    assert_eq!(a, CancelAction::RequestTermination);
    let (s, a) = cancel_step(s, CancelEvent::SignalRound { acknowledged: false, elapsed_ms: 1 }, max_wait);
    assert_eq!(a, CancelAction::SignalAgain);
    let (s, a) = cancel_step(s, CancelEvent::SignalRound { acknowledged: true, elapsed_ms: 2 }, max_wait);
    assert_eq!(a, CancelAction::ProbeLock);
    let (s, a) = cancel_step(s, CancelEvent::LockProbed(true), max_wait);
    assert_eq!(a, CancelAction::ReceiveReply);
    let (s, a) = cancel_step(s, CancelEvent::Reply(Err(HyperlightError::ExecutionCanceledByHost)), max_wait);
    assert_eq!(a, CancelAction::RestoreSnapshot);
    let (s, a) = cancel_step(s, CancelEvent::Restored(Ok(())), max_wait);
    assert_eq!(a, CancelAction::Reinitialise);
    let (s, a) = cancel_step(s, CancelEvent::Reinitialised(Ok(())), max_wait);
    assert_eq!(a, CancelAction::Stop);
    assert!(matches!(s, CancelState::Done(Ok(HyperlightError::ExecutionCanceledByHost))));
}

#[test]
fn cancelling_a_finished_call() {
    let (s, a) = cancel_step(CancelState::Start, CancelEvent::LockProbed(true), 100);
    assert_eq!(a, CancelAction::Stop);
    assert!(matches!(
        s,
        CancelState::Done(Ok(HyperlightError::HypervisorHandlerExecutionCancelAttemptOnFinishedExecution))
    ));
}

#[test]
fn cancellation_failures() {
    let (s, _) = cancel_step(CancelState::Signalling, CancelEvent::SignalRound { acknowledged: false, elapsed_ms: 100 }, 100);
    assert!(matches!(s, CancelState::Done(Err(HyperlightError::CancellationNotAcknowledged))));
    let (s, _) = cancel_step(CancelState::Probing, CancelEvent::LockProbed(false), 100);
    assert!(matches!(s, CancelState::Done(Err(HyperlightError::GuestExecutionHungOnHostFunctionCall))));
    let (s, _) = cancel_step(CancelState::AwaitingReply, CancelEvent::Reply(Ok(())), 100);
    assert!(matches!(
        s,
        CancelState::Restoring(HyperlightError::HypervisorHandlerExecutionCancelAttemptOnFinishedExecution)
    ));
    let (s, _) = cancel_step(
        CancelState::AwaitingReply,
        CancelEvent::Reply(Err(HyperlightError::HypervisorHandlerMessageReceiveTimedout)),
        100,
    );
    assert!(matches!(s, CancelState::Restoring(HyperlightError::ExecutionCanceledByHost)));
}

#[test]
fn kvm_run_message_fields() {
    let m = KvmRunMessage { message_type: KvmRunMessageType::IOOut, rax: 52, rip: 0x1007, port_number: 0x3f8 };
    assert_eq!(m.message_type, KvmRunMessageType::IOOut);
    assert_ne!(m.message_type, KvmRunMessageType::Halt);
}
