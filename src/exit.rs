use vstd::prelude::*;

use crate::error::HyperlightError;
use crate::layout::{BASE_ADDRESS, PML4_OFFSET};

verus! {

/// Why a vCPU run returned, in terms common to every hypervisor back-end.
#[derive(Debug, Clone)]
pub enum HyperlightExit {
    /// The guest executed `HLT`.
    Halt,
    /// The guest wrote `payload` to I/O `port` with the instruction at `rip`
    /// of `instruction_length` bytes.
    IoOut { port: u16, payload: u64, rip: u64, instruction_length: u64 },
    /// The guest accessed an unmapped guest physical address.
    Mmio(u64),
    /// The guest tried to execute from a page that is not executable.
    ExecutionAccessViolation(u64),
    /// The guest wrote to the guard page.
    GuardPageViolation(u64),
    /// The host cancelled the run.
    Cancelled,
    /// Anything else, with a description from the back-end.
    Unknown(String),
}

/// What the exit loop does after an exit.
#[derive(Debug, Clone)]
pub enum ExitAction {
    /// Return success: the guest halted.
    Finish,
    /// Hand `payload` written to `port` to the host's OutB handler, then
    /// resume the guest at `next_rip`.
    HandleOutb { port: u16, payload: u64, next_rip: u64 },
    /// Call the host's memory access handler, then fail with the error.
    MemAccessThenFail(HyperlightError),
    /// Fail with the error.
    Fail(HyperlightError),
}

/// `a + b` wrapped to 64 bits, as the instruction pointer wraps.
pub open spec fn add_wrapping(a: u64, b: u64) -> u64 {
    if a + b > u64::MAX {
        (a + b - (u64::MAX + 1)) as u64
    } else {
        (a + b) as u64
    }
}

/// Decide what to do after `exit`. A halt finishes; an I/O write is handed
/// to the OutB handler and the guest resumes after the instruction; an
/// access to unmapped memory calls the memory access handler and fails with
/// `MemoryAccessViolation`; an attempt to execute from the guard page
/// (`guard_page_start .. guard_page_end`) or a write to it fails with
/// `StackOverflow`, from any other non-executable page with `ExecutionNX`; a
/// cancelled run fails with `ExecutionCanceledByHost`.
pub fn handle_exit(exit: HyperlightExit, guard_page_start: u64, guard_page_end: u64) -> (r: ExitAction)
    ensures
        match exit {
            HyperlightExit::Halt => r is Finish,
            HyperlightExit::IoOut { port, payload, rip, instruction_length } => r == ExitAction::HandleOutb {
                port,
                payload,
                next_rip: add_wrapping(rip, instruction_length),
            },
            HyperlightExit::Mmio(gpa) => r == ExitAction::MemAccessThenFail(
                HyperlightError::MemoryAccessViolation(gpa)),
            HyperlightExit::ExecutionAccessViolation(gpa) => if guard_page_start <= gpa < guard_page_end {
                r == ExitAction::Fail(HyperlightError::StackOverflow)
            } else {
                r == ExitAction::Fail(HyperlightError::ExecutionNX(gpa))
            },
            HyperlightExit::GuardPageViolation(_) => r == ExitAction::Fail(HyperlightError::StackOverflow),
            HyperlightExit::Cancelled => r == ExitAction::Fail(HyperlightError::ExecutionCanceledByHost),
            HyperlightExit::Unknown(d) => r == ExitAction::Fail(HyperlightError::UnknownExit(d)),
        },
{
    match exit {
        HyperlightExit::Halt => ExitAction::Finish,
        HyperlightExit::IoOut { port, payload, rip, instruction_length } => ExitAction::HandleOutb {
            port,
            payload,
            next_rip: rip.wrapping_add(instruction_length),
        },
        HyperlightExit::Mmio(gpa) => ExitAction::MemAccessThenFail(HyperlightError::MemoryAccessViolation(gpa)),
        HyperlightExit::ExecutionAccessViolation(gpa) => {
            if guard_page_start <= gpa && gpa < guard_page_end {
                ExitAction::Fail(HyperlightError::StackOverflow)
            } else {
                ExitAction::Fail(HyperlightError::ExecutionNX(gpa))
            }
        },
        HyperlightExit::GuardPageViolation(_) => ExitAction::Fail(HyperlightError::StackOverflow),
        HyperlightExit::Cancelled => ExitAction::Fail(HyperlightError::ExecutionCanceledByHost),
        HyperlightExit::Unknown(d) => ExitAction::Fail(HyperlightError::UnknownExit(d)),
    }
}

/// Access kind that a memory access exit reports for an instruction fetch.
pub const MEMORY_ACCESS_EXECUTE: u32 = 2;

/// Classify a memory access exit at `gpa`: an instruction fetch is an
/// execution access violation, any other access to the guard page
/// (`guard_page_start .. guard_page_end`) a guard page violation, and the
/// rest an access to unmapped memory.
pub fn classify_memory_access(gpa: u64, access_info: u32, guard_page_start: u64, guard_page_end: u64) -> (r: HyperlightExit)
    ensures
        access_info == MEMORY_ACCESS_EXECUTE ==> r == HyperlightExit::ExecutionAccessViolation(gpa),
        access_info != MEMORY_ACCESS_EXECUTE && guard_page_start <= gpa < guard_page_end
            ==> r == HyperlightExit::GuardPageViolation(gpa),
        access_info != MEMORY_ACCESS_EXECUTE && !(guard_page_start <= gpa < guard_page_end)
            ==> r == HyperlightExit::Mmio(gpa),
{
    if access_info == MEMORY_ACCESS_EXECUTE {
        HyperlightExit::ExecutionAccessViolation(gpa)
    } else if guard_page_start <= gpa && gpa < guard_page_end {
        HyperlightExit::GuardPageViolation(gpa)
    } else {
        HyperlightExit::Mmio(gpa)
    }
}

pub const CR0_PE: u64 = 1;
pub const CR0_MP: u64 = 0x2;
pub const CR0_ET: u64 = 0x10;
pub const CR0_NE: u64 = 0x20;
pub const CR0_WP: u64 = 0x10000;
pub const CR0_AM: u64 = 0x40000;
pub const CR0_PG: u64 = 0x8000_0000;
pub const CR4_PAE: u64 = 0x20;
pub const CR4_OSFXSR: u64 = 0x200;
pub const CR4_OSXMMEXCPT: u64 = 0x400;
pub const EFER_LME: u64 = 0x100;
pub const EFER_LMA: u64 = 0x400;
/// Code segment with long-mode attributes: selector 8, flat, 64-bit.
pub const CS_LONG_MODE: u64 = 0xA09B0008_FFFFFFFF;
/// RFLAGS with only the always-one bit set.
pub const RFLAGS_DEFAULT: u64 = 0x2;

/// The registers a vCPU needs to start in 64-bit long mode.
#[derive(Debug, Clone, Copy, PartialEq, Eq, Structural)]
pub struct LongModeRegisters {
    pub cr0: u64,
    pub cr3: u64,
    pub cr4: u64,
    pub efer: u64,
    pub cs: u64,
    pub rflags: u64,
    pub rip: u64,
    pub rsp: u64,
}

/// Registers to enter long mode at `entrypoint` with the stack pointer at
/// `rsp`: paging on with the PML4 at the sandbox's base, PAE and SSE
/// enabled, long mode enabled and active, and a 64-bit code segment.
pub fn long_mode_registers(entrypoint: u64, rsp: u64) -> (r: LongModeRegisters)
    ensures
        r.cr0 == CR0_PE + CR0_MP + CR0_ET + CR0_NE + CR0_WP + CR0_AM + CR0_PG,
        r.cr3 == BASE_ADDRESS + PML4_OFFSET,
        r.cr4 == CR4_PAE + CR4_OSFXSR + CR4_OSXMMEXCPT,
        r.efer == EFER_LME + EFER_LMA,
        r.cs == CS_LONG_MODE,
        r.rflags == RFLAGS_DEFAULT,
        r.rip == entrypoint,
        r.rsp == rsp,
{
    LongModeRegisters {
        cr0: CR0_PE + CR0_MP + CR0_ET + CR0_NE + CR0_WP + CR0_AM + CR0_PG,
        cr3: (BASE_ADDRESS + PML4_OFFSET) as u64,
        cr4: CR4_PAE + CR4_OSFXSR + CR4_OSXMMEXCPT,
        efer: EFER_LME + EFER_LMA,
        cs: CS_LONG_MODE,
        rflags: RFLAGS_DEFAULT,
        rip: entrypoint,
        rsp,
    }
}

/// The argument registers the guest entry point reads.
#[derive(Debug, Clone, Copy, PartialEq, Eq, Structural)]
pub struct EntryArguments {
    pub rcx: u64,
    pub rdx: u64,
    pub r8: u64,
    pub r9: u64,
}

/// Arguments for the guest entry point: the PEB address in RCX, the random
/// seed in RDX, the page size in R8 and the maximum log level in R9.
pub fn entry_arguments(peb_addr: u64, seed: u64, page_size: u32, max_log_level: u32) -> (r: EntryArguments)
    ensures
        r.rcx == peb_addr,
        r.rdx == seed,
        r.r8 == page_size,
        r.r9 == max_log_level,
{
    EntryArguments { rcx: peb_addr, rdx: seed, r8: page_size as u64, r9: max_log_level as u64 }
}

} // verus!
