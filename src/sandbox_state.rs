use vstd::prelude::*;

use crate::error::HyperlightError;

verus! {

/// The states a sandbox moves through.
#[derive(Debug, Clone, Copy, PartialEq, Eq, Structural)]
pub enum SandboxState {
    /// A guest binary and a configuration, not yet running.
    Uninitialised,
    /// Initialised; serves any number of calls, restoring memory after a
    /// failed one.
    MultiUse,
    /// Initialised; serves exactly one call.
    SingleUse,
    /// A batch of calls on a multi-use sandbox, with no restore between them.
    CallContext,
    /// A single-use sandbox after its call.
    Consumed,
}

/// A request made of a sandbox.
#[derive(Debug, Clone, Copy, PartialEq, Eq, Structural)]
pub enum SandboxRequest {
    /// Load, lay out and initialise the guest.
    Evolve { single_use: bool },
    /// Start a guest call.
    BeginCall,
    /// A guest call finished, successfully or not.
    EndCall { failed: bool },
    /// Open a call context on a multi-use sandbox.
    NewCallContext,
    /// Close the call context.
    DropCallContext,
}

/// The sandbox's next state and what it does to guest memory on the way.
#[derive(Debug, Clone, Copy, PartialEq, Eq, Structural)]
pub struct SandboxStep {
    pub next: SandboxState,
    /// Take a snapshot of guest memory.
    pub take_snapshot: bool,
    /// Restore guest memory from the last snapshot.
    pub restore_snapshot: bool,
}

/// The step for `request` in `state`, `None` where the state does not allow it.
pub open spec fn sandbox_transition(state: SandboxState, request: SandboxRequest) -> Option<SandboxStep> {
    match (state, request) {
        (SandboxState::Uninitialised, SandboxRequest::Evolve { single_use }) => Some(SandboxStep {
            next: if single_use { SandboxState::SingleUse } else { SandboxState::MultiUse },
            take_snapshot: false,
            restore_snapshot: false,
        }),
        (SandboxState::MultiUse, SandboxRequest::BeginCall) => Some(
            SandboxStep { next: SandboxState::MultiUse, take_snapshot: true, restore_snapshot: false },
        ),
        (SandboxState::MultiUse, SandboxRequest::EndCall { failed }) => Some(
            SandboxStep { next: SandboxState::MultiUse, take_snapshot: false, restore_snapshot: failed },
        ),
        (SandboxState::SingleUse, SandboxRequest::BeginCall) => Some(
            SandboxStep { next: SandboxState::SingleUse, take_snapshot: false, restore_snapshot: false },
        ),
        (SandboxState::SingleUse, SandboxRequest::EndCall { .. }) => Some(
            SandboxStep { next: SandboxState::Consumed, take_snapshot: false, restore_snapshot: false },
        ),
        (SandboxState::MultiUse, SandboxRequest::NewCallContext) => Some(
            SandboxStep { next: SandboxState::CallContext, take_snapshot: true, restore_snapshot: false },
        ),
        (SandboxState::CallContext, SandboxRequest::BeginCall) => Some(
            SandboxStep { next: SandboxState::CallContext, take_snapshot: false, restore_snapshot: false },
        ),
        (SandboxState::CallContext, SandboxRequest::EndCall { .. }) => Some(
            SandboxStep { next: SandboxState::CallContext, take_snapshot: false, restore_snapshot: false },
        ),
        (SandboxState::CallContext, SandboxRequest::DropCallContext) => Some(
            SandboxStep { next: SandboxState::MultiUse, take_snapshot: false, restore_snapshot: true },
        ),
        _ => None,
    }
}

/// Advance a sandbox. An uninitialised sandbox evolves into a single-use or
/// a multi-use one. A multi-use sandbox snapshots memory before each call
/// and restores it after a failed one; it can open a call context, which
/// snapshots memory once, runs calls without restoring, and restores the
/// snapshot when it is dropped. A single-use sandbox is consumed by its one
/// call. Anything else fails with `InvalidSandboxTransition`.
pub fn sandbox_step(state: SandboxState, request: SandboxRequest) -> (r: Result<SandboxStep, HyperlightError>)
    ensures
        match sandbox_transition(state, request) {
            Some(step) => r == Ok::<SandboxStep, HyperlightError>(step),
            None => r == Err::<SandboxStep, HyperlightError>(HyperlightError::InvalidSandboxTransition),
        },
{
    let step = match (state, request) {
        (SandboxState::Uninitialised, SandboxRequest::Evolve { single_use }) => SandboxStep {
            next: if single_use { SandboxState::SingleUse } else { SandboxState::MultiUse },
            take_snapshot: false,
            restore_snapshot: false,
        },
        (SandboxState::MultiUse, SandboxRequest::BeginCall) =>
            SandboxStep { next: SandboxState::MultiUse, take_snapshot: true, restore_snapshot: false },
        (SandboxState::MultiUse, SandboxRequest::EndCall { failed }) =>
            SandboxStep { next: SandboxState::MultiUse, take_snapshot: false, restore_snapshot: failed },
        (SandboxState::SingleUse, SandboxRequest::BeginCall) =>
            SandboxStep { next: SandboxState::SingleUse, take_snapshot: false, restore_snapshot: false },
        (SandboxState::SingleUse, SandboxRequest::EndCall { .. }) =>
            SandboxStep { next: SandboxState::Consumed, take_snapshot: false, restore_snapshot: false },
        (SandboxState::MultiUse, SandboxRequest::NewCallContext) =>
            SandboxStep { next: SandboxState::CallContext, take_snapshot: true, restore_snapshot: false },
        (SandboxState::CallContext, SandboxRequest::BeginCall) =>
            SandboxStep { next: SandboxState::CallContext, take_snapshot: false, restore_snapshot: false },
        (SandboxState::CallContext, SandboxRequest::EndCall { .. }) =>
            SandboxStep { next: SandboxState::CallContext, take_snapshot: false, restore_snapshot: false },
        (SandboxState::CallContext, SandboxRequest::DropCallContext) =>
            SandboxStep { next: SandboxState::MultiUse, take_snapshot: false, restore_snapshot: true },
        _ => return Err(HyperlightError::InvalidSandboxTransition),
    };
    Ok(step)
}

/// A failed call on a multi-use sandbox is undone: the sandbox snapshots
/// memory when the call begins and restores that snapshot when it ends,
/// and stays multi-use; a call that succeeds keeps its effects.
pub proof fn lemma_failed_call_is_undone(failed: bool)
    ensures
        sandbox_transition(SandboxState::MultiUse, SandboxRequest::BeginCall)
            == Some(SandboxStep { next: SandboxState::MultiUse, take_snapshot: true, restore_snapshot: false }),
        sandbox_transition(SandboxState::MultiUse, SandboxRequest::EndCall { failed })
            == Some(SandboxStep { next: SandboxState::MultiUse, take_snapshot: false, restore_snapshot: failed }),
{
}

/// No transition leads back to an uninitialised sandbox, and a consumed
/// single-use sandbox allows nothing more.
pub proof fn lemma_transitions_are_irreversible(state: SandboxState, request: SandboxRequest)
    ensures
        sandbox_transition(state, request) is Some
            ==> sandbox_transition(state, request)->Some_0.next != SandboxState::Uninitialised,
        sandbox_transition(SandboxState::Consumed, request) is None,
{
}

} // verus!
