use vstd::prelude::*;

verus! {

/// The kinds of failure surfaced to callers of the sandbox core.
#[derive(Debug, Clone, PartialEq, Eq)]
pub enum HyperlightError {
    /// No supported hypervisor is present on this machine.
    NoHypervisorFound,
    /// The hypervisor is present but its API is not the stable one.
    HypervisorApiUnstable,
    /// A configured buffer size is zero.
    ConfigurationRejected,
    /// The memory plan needs `.0` bytes, more than the `.1` bytes allowed.
    MemoryRequestTooBig(usize, usize),
    /// An access at offset `.0` of `.1` bytes falls outside the shared memory of `.2` bytes.
    MemoryAccessOutOfBounds(usize, usize, usize),
    /// Shared memory of the requested number of bytes cannot be made.
    MemoryAllocationFailed(usize),
    /// The operating system's random source failed.
    RandomSourceFailed,
    /// The guest offset given when writing the PEB is neither the guest base
    /// address nor the host base address of the shared memory.
    GuestOffsetIsInvalid(usize),
    /// The guest touched the guard page at this guest physical address.
    GuardPageViolation(u64),
    /// The guest overflowed its stack into the guard page.
    StackOverflow,
    /// The guest tried to execute from a page that is not executable.
    ExecutionNX(u64),
    /// The guest accessed this guest physical address, which is not mapped.
    MemoryAccessViolation(u64),
    /// The host cancelled the running guest.
    ExecutionCanceledByHost,
    /// A cancellation was attempted on an execution that had already finished.
    HypervisorHandlerExecutionCancelAttemptOnFinishedExecution,
    /// The guest stayed inside a host function call past the cancellation.
    GuestExecutionHungOnHostFunctionCall,
    /// The handler did not acknowledge a cancellation in time.
    CancellationNotAcknowledged,
    /// No reply came from the hypervisor handler in time.
    HypervisorHandlerMessageReceiveTimedout,
    /// A channel to or from the hypervisor handler is closed.
    HypervisorHandlerCommunicationFailure,
    /// The guest aborted with this code and message.
    GuestAborted(u8, Vec<u8>),
    /// The guest panicked; the bytes are its panic context.
    GuestPanic(Vec<u8>),
    /// The guest has no function of this name.
    GuestFunctionNotFound(String),
    /// A parameter does not have the type the guest function expects.
    GuestFunctionParameterTypeMismatch,
    /// The number of parameters differs from what the guest function expects.
    GuestFunctionIncorrecNoOfParameters(usize, usize),
    /// A host function call of `.0` bytes does not fit the `.1` bytes of the output buffer.
    HostFunctionCallBufferTooBig(usize, usize),
    /// A guest function call of `.0` bytes does not fit the `.1` bytes of the input buffer.
    GuestFunctionCallBufferTooBig(usize, usize),
    /// A sandbox was asked for a transition its state does not allow.
    InvalidSandboxTransition,
    /// A serialized call or result has this impossible length.
    FlatbufferValidation(i64),
    /// A handle does not refer to a value of the expected kind.
    InvalidHandle(u64),
    /// A byte range given to a handle operation lies outside its byte array.
    ByteArrayRangeOutOfBounds(usize, usize, usize),
    /// A portable-executable structure at this offset could not be read.
    PeFileMalformed(usize),
    /// A vCPU exit that the driver does not recognise.
    UnknownExit(String),
    /// Any other failure, with a description.
    Error(String),
}

} // verus!
