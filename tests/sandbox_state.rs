use hyperlight_host::error::HyperlightError;
use hyperlight_host::sandbox_state::{sandbox_step, SandboxRequest, SandboxState, SandboxStep};

#[test]
fn multi_use_sandbox_restores_after_failed_call() {
    let s = sandbox_step(SandboxState::Uninitialised, SandboxRequest::Evolve { single_use: false }).unwrap();
    assert_eq!(s.next, SandboxState::MultiUse);
    let begin = sandbox_step(s.next, SandboxRequest::BeginCall).unwrap();
    assert!(begin.take_snapshot);
    let ok = sandbox_step(begin.next, SandboxRequest::EndCall { failed: false }).unwrap();
    assert_eq!(ok, SandboxStep { next: SandboxState::MultiUse, take_snapshot: false, restore_snapshot: false });
    let failed = sandbox_step(ok.next, SandboxRequest::EndCall { failed: true }).unwrap();
    assert!(failed.restore_snapshot);
    assert_eq!(failed.next, SandboxState::MultiUse);
}

#[test]
fn call_context_restores_on_drop_only() {
    let ctx = sandbox_step(SandboxState::MultiUse, SandboxRequest::NewCallContext).unwrap();
    assert_eq!(ctx.next, SandboxState::CallContext);
    assert!(ctx.take_snapshot);
    let end = sandbox_step(ctx.next, SandboxRequest::EndCall { failed: true }).unwrap();
    assert!(!end.restore_snapshot);
    let dropped = sandbox_step(end.next, SandboxRequest::DropCallContext).unwrap();
    assert_eq!(dropped.next, SandboxState::MultiUse);
    assert!(dropped.restore_snapshot);
}

#[test]
fn single_use_sandbox_is_consumed() {
    let s = sandbox_step(SandboxState::Uninitialised, SandboxRequest::Evolve { single_use: true }).unwrap();
    assert_eq!(s.next, SandboxState::SingleUse);
    let end = sandbox_step(s.next, SandboxRequest::EndCall { failed: false }).unwrap();
    assert_eq!(end.next, SandboxState::Consumed);
    assert_eq!(
        sandbox_step(SandboxState::Consumed, SandboxRequest::BeginCall),
        Err(HyperlightError::InvalidSandboxTransition)
    );
    assert_eq!(
        sandbox_step(SandboxState::SingleUse, SandboxRequest::NewCallContext),
        Err(HyperlightError::InvalidSandboxTransition)
    );
}
