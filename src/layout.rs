use vstd::prelude::*;

use crate::config::SandboxConfiguration;
use crate::error::HyperlightError;
use crate::memory_region::{
    region_flags_at, region_type_at, MemoryRegion, MemoryRegionFlags, MemoryRegionType,
};
use crate::shared_mem::SharedMemory;

verus! {

/// Size of a guest page.
pub const PAGE_SIZE: usize = 0x1000;
/// Guest address at which the sandbox memory starts.
pub const BASE_ADDRESS: usize = 0x200000;
/// Guest addresses end below this bound with the paging set up here.
pub const GUEST_ADDRESS_LIMIT: usize = 0x40000000;
/// The most memory a sandbox may have: everything between the base address
/// and the end of the addressable range.
pub const MAX_MEMORY_SIZE: usize = 0x3FE00000;
/// Offset of the PML4 table in sandbox memory.
pub const PML4_OFFSET: usize = 0x0000;
/// Offset of the page directory pointer table in sandbox memory.
pub const PDPT_OFFSET: usize = 0x1000;
/// Offset of the page directory in sandbox memory.
pub const PD_OFFSET: usize = 0x2000;
/// Offset of the first page table in sandbox memory.
pub const PT_OFFSET: usize = 0x3000;
/// Memory mapped by a single page table (512 pages of 4 KiB).
pub const AMOUNT_OF_MEMORY_PER_PT: usize = 0x200000;
/// Bytes at the start of the input and output buffers that hold their
/// own stack pointer.
pub const STACK_POINTER_SIZE_BYTES: u64 = 8;

/// Offsets of the fields of the process environment block, from its start.
/// Every descriptor is a little-endian `u64` size followed by a `u64` pointer.
pub const PEB_SECURITY_COOKIE_SEED: usize = 0x00;
pub const PEB_GUEST_DISPATCH_FUNCTION_PTR: usize = 0x08;
pub const PEB_HOST_FUNCTION_DEFINITIONS: usize = 0x10;
pub const PEB_HOST_EXCEPTION: usize = 0x20;
pub const PEB_GUEST_ERROR: usize = 0x28;
pub const PEB_CODE_AND_OUTB_POINTER: usize = 0x38;
pub const PEB_INPUT_DATA: usize = 0x50;
pub const PEB_OUTPUT_DATA: usize = 0x60;
pub const PEB_GUEST_PANIC_CONTEXT: usize = 0x70;
pub const PEB_HEAP_DATA: usize = 0x80;
pub const PEB_STACK_DATA: usize = 0x90;
/// Size of the process environment block.
pub const PEB_SIZE: usize = 0x98;

/// `value` rounded up to the next multiple of `multiple`.
#[verifier::opaque]
pub open spec fn round_up(value: int, multiple: int) -> int {
    ((value + multiple - 1) / multiple) * multiple
}

/// `value` rounded up to a page boundary.
pub open spec fn page_up(value: int) -> int {
    round_up(value, PAGE_SIZE as int)
}

/// A rounded-up value is a multiple, is at least the value, and lies less
/// than one multiple above it.
pub proof fn lemma_round_up(value: int, multiple: int)
    requires
        value >= 0,
        multiple > 0,
    ensures
        round_up(value, multiple) % multiple == 0,
        value <= round_up(value, multiple) < value + multiple,
{
    reveal(round_up);
    let s = value + multiple - 1;
    vstd::arithmetic::div_mod::lemma_fundamental_div_mod(s, multiple);
    vstd::arithmetic::div_mod::lemma_mod_multiples_basic(s / multiple, multiple);
    vstd::arithmetic::mul::lemma_mul_is_commutative(s / multiple, multiple);
}

/// A multiple is left unchanged by rounding up.
pub proof fn lemma_round_up_of_multiple(value: int, multiple: int)
    requires
        value >= 0,
        multiple > 0,
        value % multiple == 0,
    ensures
        round_up(value, multiple) == value,
{
    reveal(round_up);
    vstd::arithmetic::div_mod::lemma_fundamental_div_mod(value, multiple);
    let q = value / multiple;
    vstd::arithmetic::mul::lemma_mul_is_commutative(q, multiple);
    vstd::arithmetic::div_mod::lemma_fundamental_div_mod_converse(
        value + multiple - 1,
        multiple,
        q,
        multiple - 1,
    );
}

/// Rounding up past a multiple rounds up what lies beyond it.
pub proof fn lemma_round_up_shift(a: int, s: int, m: int)
    requires
        a >= 0,
        s >= 0,
        m > 0,
        a % m == 0,
    ensures
        round_up(a + s, m) == a + round_up(s, m),
{
    reveal(round_up);
    vstd::arithmetic::div_mod::lemma_fundamental_div_mod(a, m);
    let k = a / m;
    vstd::arithmetic::div_mod::lemma_hoist_over_denominator(s + m - 1, k, m as nat);
    vstd::arithmetic::mul::lemma_mul_is_commutative(k, m);
    let q = (s + m - 1) / m;
    assert((q + k) * m == q * m + k * m) by (nonlinear_arith);
}

/// Round `value` up to the next multiple of `multiple`.
pub fn round_up_to(value: usize, multiple: usize) -> (r: usize)
    requires
        multiple > 0,
        value + multiple - 1 <= usize::MAX,
    ensures
        r == round_up(value as int, multiple as int),
{
    let s = value + (multiple - 1);
    proof {
        reveal(round_up);
        vstd::arithmetic::div_mod::lemma_fundamental_div_mod(s as int, multiple as int);
        vstd::arithmetic::mul::lemma_mul_is_commutative(s as int / multiple as int, multiple as int);
    }
    s - s % multiple
}

fn page_up_wide(value: u128) -> (r: u128)
    requires
        value <= 0x1_0000_0000_0000_0000_0000,
    ensures
        r == page_up(value as int),
        value <= r < value + 0x1000,
{
    let s = value + 0xFFF;
    proof {
        reveal(round_up);
        vstd::arithmetic::div_mod::lemma_fundamental_div_mod(s as int, 0x1000);
        lemma_round_up(value as int, 0x1000);
    }
    s - s % 0x1000
}

/// Size of the paging structures for the given sizes: enough page tables to
/// map everything the sandbox needs plus the tables themselves, and the PML4,
/// PDPT and PD.
pub open spec fn plan_page_table_size(cfg: SandboxConfiguration, code: int, stack: int, heap: int) -> int {
    let mapped = page_up(code) + page_up(stack) + page_up(heap)
        + page_up(cfg.host_exception_size as int)
        + page_up(cfg.host_function_definition_size as int)
        + page_up(cfg.guest_error_buffer_size as int) + page_up(cfg.input_data_size as int)
        + page_up(cfg.output_data_size as int)
        + page_up(cfg.guest_panic_context_buffer_size as int) + page_up(PEB_SIZE as int)
        + BASE_ADDRESS + 3 * PAGE_SIZE + 512 * PAGE_SIZE;
    let per_pt = AMOUNT_OF_MEMORY_PER_PT as int;
    ((mapped + per_pt - 1) / per_pt + 1 + 3) * PAGE_SIZE
}

pub open spec fn plan_peb_offset(cfg: SandboxConfiguration, code: int, stack: int, heap: int) -> int {
    plan_page_table_size(cfg, code, stack, heap) + page_up(code)
}

pub open spec fn plan_host_function_definitions_offset(cfg: SandboxConfiguration, code: int, stack: int, heap: int) -> int {
    page_up(plan_peb_offset(cfg, code, stack, heap) + PEB_SIZE)
}

pub open spec fn plan_host_exception_offset(cfg: SandboxConfiguration, code: int, stack: int, heap: int) -> int {
    page_up(plan_host_function_definitions_offset(cfg, code, stack, heap) + cfg.host_function_definition_size)
}

pub open spec fn plan_guest_error_offset(cfg: SandboxConfiguration, code: int, stack: int, heap: int) -> int {
    page_up(plan_host_exception_offset(cfg, code, stack, heap) + cfg.host_exception_size)
}

pub open spec fn plan_input_data_offset(cfg: SandboxConfiguration, code: int, stack: int, heap: int) -> int {
    page_up(plan_guest_error_offset(cfg, code, stack, heap) + cfg.guest_error_buffer_size)
}

pub open spec fn plan_output_data_offset(cfg: SandboxConfiguration, code: int, stack: int, heap: int) -> int {
    page_up(plan_input_data_offset(cfg, code, stack, heap) + cfg.input_data_size)
}

pub open spec fn plan_guest_panic_context_offset(cfg: SandboxConfiguration, code: int, stack: int, heap: int) -> int {
    page_up(plan_output_data_offset(cfg, code, stack, heap) + cfg.output_data_size)
}

pub open spec fn plan_heap_offset(cfg: SandboxConfiguration, code: int, stack: int, heap: int) -> int {
    page_up(plan_guest_panic_context_offset(cfg, code, stack, heap) + cfg.guest_panic_context_buffer_size)
}

pub open spec fn plan_guard_page_offset(cfg: SandboxConfiguration, code: int, stack: int, heap: int) -> int {
    page_up(plan_heap_offset(cfg, code, stack, heap) + heap)
}

pub open spec fn plan_stack_offset(cfg: SandboxConfiguration, code: int, stack: int, heap: int) -> int {
    plan_guard_page_offset(cfg, code, stack, heap) + PAGE_SIZE
}

/// Total guest memory of the plan, rounded up to a page.
pub open spec fn plan_memory_size(cfg: SandboxConfiguration, code: int, stack: int, heap: int) -> int {
    page_up(plan_stack_offset(cfg, code, stack, heap) + page_up(stack))
}

/// `v`, or `usize::MAX` where `v` does not fit.
pub open spec fn clamp_usize(v: int) -> usize {
    if v > usize::MAX { usize::MAX } else { v as usize }
}

/// The address plan of a sandbox's guest memory: where each region starts,
/// and where each field of the process environment block lies.
#[derive(Debug, Clone, Copy)]
pub struct SandboxMemoryLayout {
    pub sandbox_memory_config: SandboxConfiguration,
    /// The stack size of this sandbox, rounded up to a page.
    pub stack_size: usize,
    /// The heap size of this sandbox.
    pub heap_size: usize,
    pub peb_offset: usize,
    pub peb_security_cookie_seed_offset: usize,
    pub peb_guest_dispatch_function_ptr_offset: usize,
    pub peb_host_function_definitions_offset: usize,
    pub peb_host_exception_offset: usize,
    pub peb_guest_error_offset: usize,
    pub peb_code_and_outb_pointer_offset: usize,
    pub peb_input_data_offset: usize,
    pub peb_output_data_offset: usize,
    pub peb_guest_panic_context_offset: usize,
    pub peb_heap_data_offset: usize,
    pub peb_stack_data_offset: usize,
    pub host_function_definitions_buffer_offset: usize,
    pub host_exception_buffer_offset: usize,
    pub guest_error_buffer_offset: usize,
    pub input_data_buffer_offset: usize,
    pub output_data_buffer_offset: usize,
    pub guest_panic_context_buffer_offset: usize,
    pub guest_heap_buffer_offset: usize,
    pub guard_page_offset: usize,
    /// The lowest address of the stack.
    pub guest_stack_buffer_offset: usize,
    pub peb_address: usize,
    pub code_size: usize,
    pub total_page_table_size: usize,
    pub guest_code_offset: usize,
}

impl SandboxMemoryLayout {
    /// The layout is the plan for its configuration and its code, stack and
    /// heap sizes, that plan fits the guest address range, and no configured
    /// buffer is empty.
    pub open spec fn wf(&self) -> bool {
        let cfg = self.sandbox_memory_config;
        let code = self.code_size as int;
        let stack = self.stack_size as int;
        let heap = self.heap_size as int;
        &&& cfg.sizes_nonzero()
        &&& stack % (PAGE_SIZE as int) == 0
        &&& plan_memory_size(cfg, code, stack, heap) <= MAX_MEMORY_SIZE
        &&& self.total_page_table_size == plan_page_table_size(cfg, code, stack, heap)
        &&& self.guest_code_offset == self.total_page_table_size
        &&& self.peb_offset == plan_peb_offset(cfg, code, stack, heap)
        &&& self.peb_security_cookie_seed_offset == self.peb_offset + PEB_SECURITY_COOKIE_SEED
        &&& self.peb_guest_dispatch_function_ptr_offset == self.peb_offset + PEB_GUEST_DISPATCH_FUNCTION_PTR
        &&& self.peb_host_function_definitions_offset == self.peb_offset + PEB_HOST_FUNCTION_DEFINITIONS
        &&& self.peb_host_exception_offset == self.peb_offset + PEB_HOST_EXCEPTION
        &&& self.peb_guest_error_offset == self.peb_offset + PEB_GUEST_ERROR
        &&& self.peb_code_and_outb_pointer_offset == self.peb_offset + PEB_CODE_AND_OUTB_POINTER
        &&& self.peb_input_data_offset == self.peb_offset + PEB_INPUT_DATA
        &&& self.peb_output_data_offset == self.peb_offset + PEB_OUTPUT_DATA
        &&& self.peb_guest_panic_context_offset == self.peb_offset + PEB_GUEST_PANIC_CONTEXT
        &&& self.peb_heap_data_offset == self.peb_offset + PEB_HEAP_DATA
        &&& self.peb_stack_data_offset == self.peb_offset + PEB_STACK_DATA
        &&& self.peb_address == BASE_ADDRESS + self.peb_offset
        &&& self.host_function_definitions_buffer_offset == plan_host_function_definitions_offset(cfg, code, stack, heap)
        &&& self.host_exception_buffer_offset == plan_host_exception_offset(cfg, code, stack, heap)
        &&& self.guest_error_buffer_offset == plan_guest_error_offset(cfg, code, stack, heap)
        &&& self.input_data_buffer_offset == plan_input_data_offset(cfg, code, stack, heap)
        &&& self.output_data_buffer_offset == plan_output_data_offset(cfg, code, stack, heap)
        &&& self.guest_panic_context_buffer_offset == plan_guest_panic_context_offset(cfg, code, stack, heap)
        &&& self.guest_heap_buffer_offset == plan_heap_offset(cfg, code, stack, heap)
        &&& self.guard_page_offset == plan_guard_page_offset(cfg, code, stack, heap)
        &&& self.guest_stack_buffer_offset == plan_stack_offset(cfg, code, stack, heap)
    }

    /// Size of the paging structures needed to map the given sizes.
    fn get_total_page_table_size(
        cfg: &SandboxConfiguration,
        code_size: usize,
        stack_size: usize,
        heap_size: usize,
    ) -> (r: u128)
        ensures
            r == plan_page_table_size(*cfg, code_size as int, stack_size as int, heap_size as int),
            r <= 0x10_0000_0000_0000_0000,
    {
        assert(usize::MAX <= u64::MAX);
        let mut mapped: u128 = page_up_wide(code_size as u128);
        mapped = mapped + page_up_wide(stack_size as u128);
        mapped = mapped + page_up_wide(heap_size as u128);
        mapped = mapped + page_up_wide(cfg.host_exception_size as u128);
        mapped = mapped + page_up_wide(cfg.host_function_definition_size as u128);
        mapped = mapped + page_up_wide(cfg.guest_error_buffer_size as u128);
        mapped = mapped + page_up_wide(cfg.input_data_size as u128);
        mapped = mapped + page_up_wide(cfg.output_data_size as u128);
        mapped = mapped + page_up_wide(cfg.guest_panic_context_buffer_size as u128);
        mapped = mapped + page_up_wide(PEB_SIZE as u128);
        mapped = mapped + BASE_ADDRESS as u128;
        mapped = mapped + 3 * PAGE_SIZE as u128;
        mapped = mapped + 512 * PAGE_SIZE as u128;
        let per_pt = AMOUNT_OF_MEMORY_PER_PT as u128;
        let num_pages = (mapped + per_pt - 1) / per_pt + 1 + 3;
        num_pages * PAGE_SIZE as u128
    }

    /// Plan the guest memory for `cfg` and the given code, stack and heap
    /// sizes. Fails with `ConfigurationRejected` when a configured buffer size
    /// is zero, and otherwise with `MemoryRequestTooBig` exactly when the plan
    /// needs more than `MAX_MEMORY_SIZE`.
    pub fn new(
        cfg: SandboxConfiguration,
        code_size: usize,
        stack_size: usize,
        heap_size: usize,
    ) -> (r: Result<SandboxMemoryLayout, HyperlightError>)
        ensures
            !cfg.sizes_nonzero() ==> r is Err && r->Err_0 is ConfigurationRejected,
            cfg.sizes_nonzero() ==> (r is Err <==> plan_memory_size(
                cfg,
                code_size as int,
                stack_size as int,
                heap_size as int,
            ) > MAX_MEMORY_SIZE),
            cfg.sizes_nonzero() && r is Err ==> r->Err_0 == HyperlightError::MemoryRequestTooBig(
                clamp_usize(plan_memory_size(cfg, code_size as int, stack_size as int, heap_size as int)),
                MAX_MEMORY_SIZE,
            ),
            r is Ok ==> {
                let l = r->Ok_0;
                &&& l.wf()
                &&& l.sandbox_memory_config == cfg
                &&& l.code_size == code_size
                &&& l.stack_size == page_up(stack_size as int)
                &&& l.heap_size == heap_size
            },
    {
        if cfg.input_data_size == 0 || cfg.output_data_size == 0
            || cfg.host_function_definition_size == 0 || cfg.host_exception_size == 0
            || cfg.guest_error_buffer_size == 0 || cfg.guest_panic_context_buffer_size == 0 {
            return Err(HyperlightError::ConfigurationRejected);
        }
        assert(usize::MAX <= u64::MAX);
        let total_page_table_size = Self::get_total_page_table_size(&cfg, code_size, stack_size, heap_size);
        let peb_offset = total_page_table_size + page_up_wide(code_size as u128);
        let host_function_definitions_buffer_offset = page_up_wide(peb_offset + PEB_SIZE as u128);
        let host_exception_buffer_offset = page_up_wide(
            host_function_definitions_buffer_offset + cfg.host_function_definition_size as u128,
        );
        let guest_error_buffer_offset = page_up_wide(
            host_exception_buffer_offset + cfg.host_exception_size as u128,
        );
        let input_data_buffer_offset = page_up_wide(
            guest_error_buffer_offset + cfg.guest_error_buffer_size as u128,
        );
        let output_data_buffer_offset = page_up_wide(
            input_data_buffer_offset + cfg.input_data_size as u128,
        );
        let guest_panic_context_buffer_offset = page_up_wide(
            output_data_buffer_offset + cfg.output_data_size as u128,
        );
        let guest_heap_buffer_offset = page_up_wide(
            guest_panic_context_buffer_offset + cfg.guest_panic_context_buffer_size as u128,
        );
        let guard_page_offset = page_up_wide(guest_heap_buffer_offset + heap_size as u128);
        let guest_stack_buffer_offset = guard_page_offset + PAGE_SIZE as u128;
        let stack_size_rounded = page_up_wide(stack_size as u128);
        let memory_size = page_up_wide(guest_stack_buffer_offset + stack_size_rounded);
        if memory_size > MAX_MEMORY_SIZE as u128 {
            let requested = if memory_size > usize::MAX as u128 {
                usize::MAX
            } else {
                memory_size as usize
            };
            return Err(HyperlightError::MemoryRequestTooBig(requested, MAX_MEMORY_SIZE));
        }
        let ghost stack = stack_size_rounded as int;
        proof {
            lemma_round_up(stack_size as int, PAGE_SIZE as int);
            lemma_round_up_of_multiple(stack, PAGE_SIZE as int);
            assert(page_up(stack) == page_up(stack_size as int));
        }
        let peb_offset = peb_offset as usize;
        Ok(SandboxMemoryLayout {
            sandbox_memory_config: cfg,
            stack_size: stack_size_rounded as usize,
            heap_size,
            peb_offset,
            peb_security_cookie_seed_offset: peb_offset + PEB_SECURITY_COOKIE_SEED,
            peb_guest_dispatch_function_ptr_offset: peb_offset + PEB_GUEST_DISPATCH_FUNCTION_PTR,
            peb_host_function_definitions_offset: peb_offset + PEB_HOST_FUNCTION_DEFINITIONS,
            peb_host_exception_offset: peb_offset + PEB_HOST_EXCEPTION,
            peb_guest_error_offset: peb_offset + PEB_GUEST_ERROR,
            peb_code_and_outb_pointer_offset: peb_offset + PEB_CODE_AND_OUTB_POINTER,
            peb_input_data_offset: peb_offset + PEB_INPUT_DATA,
            peb_output_data_offset: peb_offset + PEB_OUTPUT_DATA,
            peb_guest_panic_context_offset: peb_offset + PEB_GUEST_PANIC_CONTEXT,
            peb_heap_data_offset: peb_offset + PEB_HEAP_DATA,
            peb_stack_data_offset: peb_offset + PEB_STACK_DATA,
            host_function_definitions_buffer_offset: host_function_definitions_buffer_offset as usize,
            host_exception_buffer_offset: host_exception_buffer_offset as usize,
            guest_error_buffer_offset: guest_error_buffer_offset as usize,
            input_data_buffer_offset: input_data_buffer_offset as usize,
            output_data_buffer_offset: output_data_buffer_offset as usize,
            guest_panic_context_buffer_offset: guest_panic_context_buffer_offset as usize,
            guest_heap_buffer_offset: guest_heap_buffer_offset as usize,
            guard_page_offset: guard_page_offset as usize,
            guest_stack_buffer_offset: guest_stack_buffer_offset as usize,
            peb_address: BASE_ADDRESS + peb_offset,
            code_size,
            total_page_table_size: total_page_table_size as usize,
            guest_code_offset: total_page_table_size as usize,
        })
    }

    /// Total guest memory of this layout.
    pub open spec fn spec_memory_size(&self) -> int {
        plan_memory_size(
            self.sandbox_memory_config,
            self.code_size as int,
            self.stack_size as int,
            self.heap_size as int,
        )
    }

    /// Offsets at which the regions start, in layout order, followed by the
    /// end of the last one.
    pub open spec fn region_bounds(&self) -> Seq<int> {
        seq![
            0,
            self.guest_code_offset as int,
            self.peb_offset as int,
            self.host_function_definitions_buffer_offset as int,
            self.host_exception_buffer_offset as int,
            self.guest_error_buffer_offset as int,
            self.input_data_buffer_offset as int,
            self.output_data_buffer_offset as int,
            self.guest_panic_context_buffer_offset as int,
            self.guest_heap_buffer_offset as int,
            self.guard_page_offset as int,
            self.guest_stack_buffer_offset as int,
            self.spec_memory_size(),
        ]
    }

    /// Offset of the size of the host exception data.
    pub fn get_host_exception_size_offset(&self) -> (r: usize)
        ensures
            r == self.peb_host_exception_offset,
    {
        self.peb_host_exception_offset
    }

    /// Offset of the size of the guest error buffer.
    pub fn get_guest_error_buffer_size_offset(&self) -> (r: usize)
        ensures
            r == self.peb_guest_error_offset,
    {
        self.peb_guest_error_offset
    }

    /// Offset of the pointer to the guest error buffer.
    pub fn get_guest_error_buffer_pointer_offset(&self) -> (r: usize)
        requires
            self.wf(),
        ensures
            r == self.peb_guest_error_offset + 8,
    {
        self.peb_guest_error_offset + 8
    }

    /// Offset of the size of the output data buffer.
    pub fn get_output_data_size_offset(&self) -> (r: usize)
        ensures
            r == self.peb_output_data_offset,
    {
        self.peb_output_data_offset
    }

    /// Offset of the size of the host function definitions.
    pub fn get_host_function_definitions_size_offset(&self) -> (r: usize)
        ensures
            r == self.peb_host_function_definitions_offset,
    {
        self.peb_host_function_definitions_offset
    }

    /// Offset of the pointer to the host function definitions.
    pub fn get_host_function_definitions_pointer_offset(&self) -> (r: usize)
        requires
            self.wf(),
        ensures
            r == self.peb_host_function_definitions_offset + 8,
    {
        self.peb_host_function_definitions_offset + 8
    }

    /// Offset of the minimum guest stack address.
    pub fn get_min_guest_stack_address_offset(&self) -> (r: usize)
        ensures
            r == self.peb_stack_data_offset,
    {
        self.peb_stack_data_offset
    }

    /// The stack size, rounded up to a page.
    pub fn get_stack_size(&self) -> (r: usize)
        ensures
            r == self.stack_size,
    {
        self.stack_size
    }

    /// Offset of the host exception buffer.
    pub fn get_host_exception_offset(&self) -> (r: usize)
        ensures
            r == self.host_exception_buffer_offset,
    {
        self.host_exception_buffer_offset
    }

    /// Host address of the code, in `shared_mem`; fails when it does not
    /// fit the address space.
    pub fn get_host_code_address(&self, shared_mem: &SharedMemory) -> (r: Result<usize, HyperlightError>)
        ensures
            r is Ok <==> shared_mem.spec_base_addr() + self.guest_code_offset <= usize::MAX,
            r is Ok ==> r->Ok_0 == shared_mem.spec_base_addr() + self.guest_code_offset,
            r is Err ==> r->Err_0 == HyperlightError::MemoryAccessOutOfBounds(
                self.guest_code_offset,
                0,
                shared_mem@.len() as usize,
            ),
    {
        let base = shared_mem.base_addr();
        if base > usize::MAX - self.guest_code_offset {
            return Err(HyperlightError::MemoryAccessOutOfBounds(self.guest_code_offset, 0, shared_mem.mem_size()));
        }
        Ok(base + self.guest_code_offset)
    }

    /// Offset of the OutB pointer.
    pub fn get_outb_pointer_offset(&self) -> (r: usize)
        requires
            self.wf(),
        ensures
            r == self.peb_code_and_outb_pointer_offset + 8,
    {
        self.peb_code_and_outb_pointer_offset + 8
    }

    /// Offset of the OutB context.
    pub fn get_outb_context_offset(&self) -> (r: usize)
        requires
            self.wf(),
        ensures
            r == self.peb_code_and_outb_pointer_offset + 16,
    {
        self.get_outb_pointer_offset() + 8
    }

    /// Offset of the pointer to the output data buffer.
    pub fn get_output_data_pointer_offset(&self) -> (r: usize)
        requires
            self.wf(),
        ensures
            r == self.peb_output_data_offset + 8,
    {
        self.get_output_data_size_offset() + 8
    }

    /// Offset of the output data buffer.
    pub fn get_output_data_offset(&self) -> (r: usize)
        ensures
            r == self.output_data_buffer_offset,
    {
        self.output_data_buffer_offset
    }

    /// Offset of the size of the input data buffer.
    pub fn get_input_data_size_offset(&self) -> (r: usize)
        ensures
            r == self.peb_input_data_offset,
    {
        self.peb_input_data_offset
    }

    /// Offset of the pointer to the input data buffer.
    pub fn get_input_data_pointer_offset(&self) -> (r: usize)
        requires
            self.wf(),
        ensures
            r == self.peb_input_data_offset + 8,
    {
        self.get_input_data_size_offset() + 8
    }

    /// Offset of the code pointer.
    pub fn get_code_pointer_offset(&self) -> (r: usize)
        ensures
            r == self.peb_code_and_outb_pointer_offset,
    {
        self.peb_code_and_outb_pointer_offset
    }

    /// Offset at which the guest writes its dispatch function pointer.
    pub fn get_dispatch_function_pointer_offset(&self) -> (r: usize)
        ensures
            r == self.peb_guest_dispatch_function_ptr_offset,
    {
        self.peb_guest_dispatch_function_ptr_offset
    }

    /// Offset of the process environment block.
    pub fn get_in_process_peb_offset(&self) -> (r: usize)
        ensures
            r == self.peb_offset,
    {
        self.peb_offset
    }

    /// Offset of the heap size.
    pub fn get_heap_size_offset(&self) -> (r: usize)
        ensures
            r == self.peb_heap_data_offset,
    {
        self.peb_heap_data_offset
    }

    /// Offset of the heap pointer.
    pub fn get_heap_pointer_offset(&self) -> (r: usize)
        requires
            self.wf(),
        ensures
            r == self.peb_heap_data_offset + 8,
    {
        self.get_heap_size_offset() + 8
    }

    /// Offset of the lowest address of the stack.
    pub fn get_top_of_stack_offset(&self) -> (r: usize)
        ensures
            r == self.guest_stack_buffer_offset,
    {
        self.guest_stack_buffer_offset
    }

    /// Offset of the guest panic context descriptor.
    pub fn get_guest_panic_context_offset(&self) -> (r: usize)
        ensures
            r == self.peb_guest_panic_context_offset,
    {
        self.peb_guest_panic_context_offset
    }

    /// Offset of the size of the guest panic context buffer.
    pub fn get_guest_panic_context_size_offset(&self) -> (r: usize)
        ensures
            r == self.peb_guest_panic_context_offset,
    {
        self.peb_guest_panic_context_offset
    }

    /// Offset of the pointer to the guest panic context buffer.
    pub fn get_guest_panic_context_buffer_pointer_offset(&self) -> (r: usize)
        requires
            self.wf(),
        ensures
            r == self.peb_guest_panic_context_offset + 8,
    {
        self.get_guest_panic_context_size_offset() + 8
    }

    /// Offset of the guest panic context buffer.
    pub fn get_guest_panic_context_buffer_offset(&self) -> (r: usize)
        ensures
            r == self.guest_panic_context_buffer_offset,
    {
        self.guest_panic_context_buffer_offset
    }

    /// Offset of the guard page.
    pub fn get_guard_page_offset(&self) -> (r: usize)
        ensures
            r == self.guard_page_offset,
    {
        self.guard_page_offset
    }

    /// End of the stack, before rounding to a page.
    pub fn get_unaligned_memory_size(&self) -> (r: usize)
        requires
            self.wf(),
        ensures
            r == self.guest_stack_buffer_offset + self.stack_size,
    {
        proof {
            lemma_round_up_of_multiple(self.stack_size as int, PAGE_SIZE as int);
            lemma_round_up(self.guest_stack_buffer_offset + self.stack_size, PAGE_SIZE as int);
        }
        self.get_top_of_stack_offset() + self.get_stack_size()
    }

    /// Offset of the code.
    pub fn get_guest_code_offset(&self) -> (r: usize)
        ensures
            r == self.guest_code_offset,
    {
        self.guest_code_offset
    }

    /// Guest address of the code.
    pub fn get_guest_code_address(&self) -> (r: usize)
        requires
            self.wf(),
        ensures
            r == BASE_ADDRESS + self.guest_code_offset,
    {
        proof {
            lemma_layout_regions(*self);
        }
        BASE_ADDRESS + self.guest_code_offset
    }

    /// Size of the paging structures.
    pub fn get_page_table_size(&self) -> (r: usize)
        ensures
            r == self.total_page_table_size,
    {
        self.total_page_table_size
    }

    /// Total guest memory of this layout, a whole number of pages; fails with
    /// `MemoryRequestTooBig` when it exceeds `MAX_MEMORY_SIZE`, which a
    /// well-formed layout never does.
    pub fn get_memory_size(&self) -> (r: Result<usize, HyperlightError>)
        requires
            self.wf(),
        ensures
            r is Ok,
            r->Ok_0 == self.spec_memory_size(),
    {
        proof {
            lemma_layout_regions(*self);
        }
        let total_memory = self.get_unaligned_memory_size();
        proof {
            assert(self.region_bounds()[12] % (PAGE_SIZE as int) == 0);
            lemma_round_up_of_multiple(total_memory as int, PAGE_SIZE as int);
        }
        let size = round_up_to(total_memory, PAGE_SIZE);
        if size > MAX_MEMORY_SIZE {
            Err(HyperlightError::MemoryRequestTooBig(size, MAX_MEMORY_SIZE))
        } else {
            Ok(size)
        }
    }

    /// The regions of this layout in order, as guest ranges from
    /// `BASE_ADDRESS` on and host ranges from the base of `shared_mem`.
    /// Fails when `shared_mem` is smaller than the layout or its host range
    /// does not fit in the address space.
    pub fn get_memory_regions(&self, shared_mem: &SharedMemory) -> (r: Result<Vec<MemoryRegion>, HyperlightError>)
        requires
            self.wf(),
        ensures
            r is Ok <==> self.spec_memory_size() <= shared_mem@.len()
                && shared_mem.spec_base_addr() + self.spec_memory_size() <= usize::MAX,
            r is Err ==> r->Err_0 == HyperlightError::MemoryAccessOutOfBounds(
                0,
                self.spec_memory_size() as usize,
                shared_mem@.len() as usize,
            ),
            r is Ok ==> r->Ok_0@.len() == 12 && forall|i: int| #![trigger r->Ok_0@[i]] 0 <= i < 12 ==> {
                let g = r->Ok_0@[i];
                &&& g.guest_region_start == BASE_ADDRESS + self.region_bounds()[i]
                &&& g.guest_region_end == BASE_ADDRESS + self.region_bounds()[i + 1]
                &&& g.host_region_start == shared_mem.spec_base_addr() + self.region_bounds()[i]
                &&& g.host_region_end == shared_mem.spec_base_addr() + self.region_bounds()[i + 1]
                &&& g.flags == region_flags_at(i)
                &&& g.region_type == region_type_at(i)
            },
    {
        proof {
            lemma_layout_regions(*self);
        }
        let size = match self.get_memory_size() {
            Ok(s) => s,
            Err(e) => return Err(e),
        };
        let host = shared_mem.base_addr();
        if shared_mem.mem_size() < size || host > usize::MAX - size {
            return Err(HyperlightError::MemoryAccessOutOfBounds(0, size, shared_mem.mem_size()));
        }
        let rw = MemoryRegionFlags { read: true, write: true, execute: false };
        let ro = MemoryRegionFlags { read: true, write: false, execute: false };
        let rwx = MemoryRegionFlags { read: true, write: true, execute: true };
        let mut regions: Vec<MemoryRegion> = Vec::new();
        regions.push(region(0, self.guest_code_offset, host, rw, MemoryRegionType::PageTables));
        regions.push(region(self.guest_code_offset, self.peb_offset, host, rwx, MemoryRegionType::Code));
        regions.push(region(self.peb_offset, self.host_function_definitions_buffer_offset, host, rw, MemoryRegionType::Peb));
        regions.push(region(self.host_function_definitions_buffer_offset, self.host_exception_buffer_offset, host, ro, MemoryRegionType::HostFunctionDefinitions));
        regions.push(region(self.host_exception_buffer_offset, self.guest_error_buffer_offset, host, rw, MemoryRegionType::HostExceptionData));
        regions.push(region(self.guest_error_buffer_offset, self.input_data_buffer_offset, host, rw, MemoryRegionType::GuestErrorData));
        regions.push(region(self.input_data_buffer_offset, self.output_data_buffer_offset, host, rw, MemoryRegionType::InputData));
        regions.push(region(self.output_data_buffer_offset, self.guest_panic_context_buffer_offset, host, rw, MemoryRegionType::OutputData));
        regions.push(region(self.guest_panic_context_buffer_offset, self.guest_heap_buffer_offset, host, rw, MemoryRegionType::PanicContext));
        regions.push(region(self.guest_heap_buffer_offset, self.guard_page_offset, host, rw, MemoryRegionType::Heap));
        regions.push(region(self.guard_page_offset, self.guest_stack_buffer_offset, host, ro, MemoryRegionType::GuardPage));
        regions.push(region(self.guest_stack_buffer_offset, size, host, rw, MemoryRegionType::Stack));
        Ok(regions)
    }
}

/// The region from `start` to `end`, both offsets into sandbox memory.
fn region(
    start: usize,
    end: usize,
    host_base: usize,
    flags: MemoryRegionFlags,
    region_type: MemoryRegionType,
) -> (r: MemoryRegion)
    requires
        start <= end <= MAX_MEMORY_SIZE,
        host_base + end <= usize::MAX,
    ensures
        r.guest_region_start == BASE_ADDRESS + start,
        r.guest_region_end == BASE_ADDRESS + end,
        r.host_region_start == host_base + start,
        r.host_region_end == host_base + end,
        r.flags == flags,
        r.region_type == region_type,
{
    MemoryRegion {
        guest_region_start: BASE_ADDRESS + start,
        guest_region_end: BASE_ADDRESS + end,
        host_region_start: host_base + start,
        host_region_end: host_base + end,
        flags,
        region_type,
    }
}

/// Every region of a well-formed layout starts on a page boundary, the
/// regions follow each other in layout order without overlapping, each is
/// large enough for what it holds, and the whole fits below the end of the
/// guest address range.
#[verifier::rlimit(60)]
#[verifier::spinoff_prover]
pub proof fn lemma_layout_regions(l: SandboxMemoryLayout)
    requires
        l.wf(),
    ensures
        forall|i: int| 0 <= i < 13 ==> #[trigger] l.region_bounds()[i] % (PAGE_SIZE as int) == 0,
        forall|i: int| 0 <= i < 12 ==> #[trigger] l.region_bounds()[i] <= l.region_bounds()[i + 1],
        l.guest_code_offset >= PT_OFFSET + PAGE_SIZE,
        l.guest_code_offset + l.code_size <= l.peb_offset,
        l.peb_offset + PEB_SIZE <= l.host_function_definitions_buffer_offset,
        l.host_function_definitions_buffer_offset + l.sandbox_memory_config.host_function_definition_size
            <= l.host_exception_buffer_offset,
        l.host_exception_buffer_offset + l.sandbox_memory_config.host_exception_size
            <= l.guest_error_buffer_offset,
        l.guest_error_buffer_offset + l.sandbox_memory_config.guest_error_buffer_size
            <= l.input_data_buffer_offset,
        l.input_data_buffer_offset + l.sandbox_memory_config.input_data_size <= l.output_data_buffer_offset,
        l.output_data_buffer_offset + l.sandbox_memory_config.output_data_size
            <= l.guest_panic_context_buffer_offset,
        l.guest_panic_context_buffer_offset + l.sandbox_memory_config.guest_panic_context_buffer_size
            <= l.guest_heap_buffer_offset,
        l.guest_heap_buffer_offset + l.heap_size <= l.guard_page_offset,
        l.input_data_buffer_offset + PAGE_SIZE <= l.output_data_buffer_offset,
        l.output_data_buffer_offset + PAGE_SIZE <= l.guest_panic_context_buffer_offset,
        l.guard_page_offset + PAGE_SIZE == l.guest_stack_buffer_offset,
        l.guest_stack_buffer_offset + l.stack_size == l.spec_memory_size(),
        l.spec_memory_size() <= MAX_MEMORY_SIZE,
        BASE_ADDRESS + l.spec_memory_size() <= GUEST_ADDRESS_LIMIT,
{
    let cfg = l.sandbox_memory_config;
    let p = PAGE_SIZE as int;
    let mapped = page_up(l.code_size as int) + page_up(l.stack_size as int) + page_up(l.heap_size as int)
        + page_up(cfg.host_exception_size as int)
        + page_up(cfg.host_function_definition_size as int)
        + page_up(cfg.guest_error_buffer_size as int) + page_up(cfg.input_data_size as int)
        + page_up(cfg.output_data_size as int)
        + page_up(cfg.guest_panic_context_buffer_size as int) + page_up(PEB_SIZE as int)
        + BASE_ADDRESS + 3 * PAGE_SIZE + 512 * PAGE_SIZE;
    lemma_round_up(l.code_size as int, p);
    lemma_round_up(l.stack_size as int, p);
    lemma_round_up(l.heap_size as int, p);
    lemma_round_up(cfg.host_exception_size as int, p);
    lemma_round_up(cfg.host_function_definition_size as int, p);
    lemma_round_up(cfg.guest_error_buffer_size as int, p);
    lemma_round_up(cfg.input_data_size as int, p);
    lemma_round_up(cfg.output_data_size as int, p);
    lemma_round_up(cfg.guest_panic_context_buffer_size as int, p);
    lemma_round_up(PEB_SIZE as int, p);
    let per_pt = AMOUNT_OF_MEMORY_PER_PT as int;
    let n = (mapped + per_pt - 1) / per_pt + 1 + 3;
    assert(n >= 4);
    vstd::arithmetic::div_mod::lemma_mod_multiples_basic(n, p);
    assert(l.total_page_table_size == n * p);
    assert(l.guest_code_offset as int % p == 0);
    lemma_round_up(l.peb_offset + PEB_SIZE, p);
    lemma_round_up(l.host_function_definitions_buffer_offset + cfg.host_function_definition_size, p);
    lemma_round_up(l.host_exception_buffer_offset + cfg.host_exception_size, p);
    lemma_round_up(l.guest_error_buffer_offset + cfg.guest_error_buffer_size, p);
    lemma_round_up(l.input_data_buffer_offset + cfg.input_data_size, p);
    lemma_round_up(l.output_data_buffer_offset + cfg.output_data_size, p);
    lemma_round_up(l.guest_panic_context_buffer_offset + cfg.guest_panic_context_buffer_size, p);
    lemma_round_up(l.guest_heap_buffer_offset + l.heap_size, p);
    lemma_round_up_of_multiple(l.stack_size as int, p);
    lemma_round_up(l.guest_stack_buffer_offset + l.stack_size, p);
    lemma_round_up_of_multiple(l.guest_stack_buffer_offset + l.stack_size, p);
    assert(l.spec_memory_size() == l.guest_stack_buffer_offset + l.stack_size);
    let b = l.region_bounds();
    assert forall|i: int| 0 <= i < 13 implies #[trigger] b[i] % p == 0 by {
        if i == 0 {
        } else if i == 1 {
        } else if i == 2 {
        } else if i == 3 {
        } else if i == 4 {
        } else if i == 5 {
        } else if i == 6 {
        } else if i == 7 {
        } else if i == 8 {
        } else if i == 9 {
        } else if i == 10 {
        } else if i == 11 {
        } else {
        }
    }
    lemma_aligned_gap(l.input_data_buffer_offset as int, l.output_data_buffer_offset as int, p);
    lemma_aligned_gap(l.output_data_buffer_offset as int, l.guest_panic_context_buffer_offset as int, p);
}

/// Two distinct multiples of `m` lie at least `m` apart.
proof fn lemma_aligned_gap(a: int, b: int, m: int)
    requires
        0 <= a < b,
        m > 0,
        a % m == 0,
        b % m == 0,
    ensures
        a + m <= b,
{
    vstd::arithmetic::div_mod::lemma_fundamental_div_mod(a, m);
    vstd::arithmetic::div_mod::lemma_fundamental_div_mod(b, m);
    vstd::arithmetic::div_mod::lemma_div_is_ordered(a, b, m);
    if b / m == a / m {
    } else {
        vstd::arithmetic::mul::lemma_mul_is_distributive_add(m, a / m, 1);
        vstd::arithmetic::mul::lemma_mul_inequality(a / m + 1, b / m, m);
        vstd::arithmetic::mul::lemma_mul_is_commutative(a / m + 1, m);
        vstd::arithmetic::mul::lemma_mul_is_commutative(b / m, m);
    }
}

} // verus!
