use vstd::prelude::*;

verus! {

/// Access rights of a guest memory region.
#[derive(Debug, Clone, Copy, PartialEq, Eq, Structural)]
pub struct MemoryRegionFlags {
    pub read: bool,
    pub write: bool,
    pub execute: bool,
}

/// What a guest memory region holds.
#[derive(Debug, Clone, Copy, PartialEq, Eq, Structural)]
pub enum MemoryRegionType {
    PageTables,
    Code,
    Peb,
    HostFunctionDefinitions,
    HostExceptionData,
    GuestErrorData,
    InputData,
    OutputData,
    PanicContext,
    Heap,
    GuardPage,
    Stack,
}

/// A guest physical range, the host range that backs it, and its rights.
/// Ranges are half-open: `start..end`.
#[derive(Debug, Clone, Copy, PartialEq, Eq, Structural)]
pub struct MemoryRegion {
    pub guest_region_start: usize,
    pub guest_region_end: usize,
    pub host_region_start: usize,
    pub host_region_end: usize,
    pub flags: MemoryRegionFlags,
    pub region_type: MemoryRegionType,
}

/// Read and write.
pub open spec fn rw() -> MemoryRegionFlags {
    MemoryRegionFlags { read: true, write: true, execute: false }
}

/// The kind of the `i`-th region of a sandbox, in layout order.
pub open spec fn region_type_at(i: int) -> MemoryRegionType {
    if i == 0 {
        MemoryRegionType::PageTables
    } else if i == 1 {
        MemoryRegionType::Code
    } else if i == 2 {
        MemoryRegionType::Peb
    } else if i == 3 {
        MemoryRegionType::HostFunctionDefinitions
    } else if i == 4 {
        MemoryRegionType::HostExceptionData
    } else if i == 5 {
        MemoryRegionType::GuestErrorData
    } else if i == 6 {
        MemoryRegionType::InputData
    } else if i == 7 {
        MemoryRegionType::OutputData
    } else if i == 8 {
        MemoryRegionType::PanicContext
    } else if i == 9 {
        MemoryRegionType::Heap
    } else if i == 10 {
        MemoryRegionType::GuardPage
    } else {
        MemoryRegionType::Stack
    }
}

/// The rights of the `i`-th region: code is the only executable region,
/// host function definitions and the guard page are read-only, and the rest
/// is readable and writable.
pub open spec fn region_flags_at(i: int) -> MemoryRegionFlags {
    if i == 1 {
        MemoryRegionFlags { read: true, write: true, execute: true }
    } else if i == 3 || i == 10 {
        MemoryRegionFlags { read: true, write: false, execute: false }
    } else {
        rw()
    }
}

} // verus!
