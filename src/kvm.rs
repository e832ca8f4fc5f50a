use vstd::prelude::*;

verus! {

/// The type of the output from a KVM vCPU.
#[derive(Debug, Clone, Copy, PartialEq, Eq, Structural)]
pub enum KvmRunMessageType {
    /// IO Output
    IOOut,
    /// Halt
    Halt,
}

/// A description of the results of a KVM vCPU execution.
#[derive(Debug, Clone, Copy, PartialEq, Eq, Structural)]
pub struct KvmRunMessage {
    /// The exit reason of the vCPU.
    pub message_type: KvmRunMessageType,
    /// The value of the RAX register.
    pub rax: u64,
    /// The value of the RIP register.
    pub rip: u64,
    /// The port number when the reason is an I/O write, otherwise 0.
    pub port_number: u16,
}

} // verus!
