use rand::RngCore;
use vstd::prelude::*;

use crate::error::HyperlightError;
use crate::layout::{
    lemma_layout_regions, SandboxMemoryLayout, BASE_ADDRESS, PEB_CODE_AND_OUTB_POINTER,
    PEB_GUEST_DISPATCH_FUNCTION_PTR, PEB_GUEST_ERROR, PEB_GUEST_PANIC_CONTEXT, PEB_HEAP_DATA,
    PEB_HOST_EXCEPTION, PEB_HOST_FUNCTION_DEFINITIONS, PEB_INPUT_DATA, PEB_OUTPUT_DATA,
    PEB_SECURITY_COOKIE_SEED, PEB_SIZE, PEB_STACK_DATA, STACK_POINTER_SIZE_BYTES,
};
use crate::shared_mem::{u64_at, SharedMemory};

verus! {

broadcast use
    crate::shared_mem::lemma_u64_at_with_u64,
    crate::shared_mem::lemma_with_u64_len,
    crate::shared_mem::lemma_with_u64_index,
;

/// The descriptors held in a process environment block.
#[derive(Debug, Clone, Copy, PartialEq, Eq, Structural)]
pub struct PebDescriptors {
    pub security_cookie_seed: u64,
    pub guest_dispatch_function_ptr: u64,
    pub host_function_definitions_size: u64,
    pub host_function_definitions_ptr: u64,
    pub host_exception_size: u64,
    pub guest_error_size: u64,
    pub guest_error_ptr: u64,
    pub code_ptr: u64,
    pub outb_ptr: u64,
    pub outb_context: u64,
    pub input_data_size: u64,
    pub input_data_ptr: u64,
    pub output_data_size: u64,
    pub output_data_ptr: u64,
    pub guest_panic_context_size: u64,
    pub guest_panic_context_ptr: u64,
    pub heap_size: u64,
    pub heap_ptr: u64,
    pub min_guest_stack_address: u64,
}

#[verifier::external_type_specification]
#[verifier::external_body]
pub struct ExRandError(rand::Error);

/// Eight fresh random bytes, read as a little-endian `u64`, for the
/// security cookie seed.
/// Relies on `rand::rngs::OsRng::try_fill_bytes`, which draws from the
/// operating system's random source and reports a failure of that source as
/// an error instead of panicking; nothing is known of the value.
#[verifier::external_body]
fn os_random_u64() -> Result<u64, rand::Error> {
    let mut bytes = [0u8; 8];
    rand::rngs::OsRng.try_fill_bytes(&mut bytes).map(|()| u64::from_le_bytes(bytes))
}

/// The descriptors that the block at the layout's PEB offset holds.
pub open spec fn peb_view(l: SandboxMemoryLayout, bytes: Seq<u8>) -> PebDescriptors {
    let p = l.peb_offset as int;
    PebDescriptors {
        security_cookie_seed: u64_at(bytes, p + PEB_SECURITY_COOKIE_SEED),
        guest_dispatch_function_ptr: u64_at(bytes, p + PEB_GUEST_DISPATCH_FUNCTION_PTR),
        host_function_definitions_size: u64_at(bytes, p + PEB_HOST_FUNCTION_DEFINITIONS),
        host_function_definitions_ptr: u64_at(bytes, p + PEB_HOST_FUNCTION_DEFINITIONS + 8),
        host_exception_size: u64_at(bytes, p + PEB_HOST_EXCEPTION),
        guest_error_size: u64_at(bytes, p + PEB_GUEST_ERROR),
        guest_error_ptr: u64_at(bytes, p + PEB_GUEST_ERROR + 8),
        code_ptr: u64_at(bytes, p + PEB_CODE_AND_OUTB_POINTER),
        outb_ptr: u64_at(bytes, p + PEB_CODE_AND_OUTB_POINTER + 8),
        outb_context: u64_at(bytes, p + PEB_CODE_AND_OUTB_POINTER + 16),
        input_data_size: u64_at(bytes, p + PEB_INPUT_DATA),
        input_data_ptr: u64_at(bytes, p + PEB_INPUT_DATA + 8),
        output_data_size: u64_at(bytes, p + PEB_OUTPUT_DATA),
        output_data_ptr: u64_at(bytes, p + PEB_OUTPUT_DATA + 8),
        guest_panic_context_size: u64_at(bytes, p + PEB_GUEST_PANIC_CONTEXT),
        guest_panic_context_ptr: u64_at(bytes, p + PEB_GUEST_PANIC_CONTEXT + 8),
        heap_size: u64_at(bytes, p + PEB_HEAP_DATA),
        heap_ptr: u64_at(bytes, p + PEB_HEAP_DATA + 8),
        min_guest_stack_address: u64_at(bytes, p + PEB_STACK_DATA),
    }
}

impl SandboxMemoryLayout {
    /// `guest_offset` is one of the two bases the PEB pointers may be
    /// relative to, and every address from it fits the address space.
    pub open spec fn valid_guest_offset(&self, shared_mem: SharedMemory, guest_offset: usize) -> bool {
        &&& guest_offset == BASE_ADDRESS || guest_offset == shared_mem.spec_base_addr()
        &&& guest_offset + shared_mem@.len() <= usize::MAX
    }

    /// What the layout prescribes for each descriptor it writes: the sizes
    /// of the configuration, the heap and the stack, and pointers that are
    /// the start of each buffer relative to `guest_offset`.
    pub open spec fn prescribes(&self, p: PebDescriptors, guest_offset: usize, size: usize) -> bool {
        let cfg = self.sandbox_memory_config;
        let g = guest_offset as int;
        &&& p.host_function_definitions_size == cfg.host_function_definition_size as u64
        &&& p.host_function_definitions_ptr == (g + self.host_function_definitions_buffer_offset) as u64
        &&& p.host_exception_size == cfg.host_exception_size as u64
        &&& p.guest_error_size == cfg.guest_error_buffer_size as u64
        &&& p.guest_error_ptr == (g + self.guest_error_buffer_offset) as u64
        &&& p.input_data_size == cfg.input_data_size as u64
        &&& p.input_data_ptr == (g + self.input_data_buffer_offset) as u64
        &&& p.output_data_size == cfg.output_data_size as u64
        &&& p.output_data_ptr == (g + self.output_data_buffer_offset) as u64
        &&& p.guest_panic_context_size == cfg.guest_panic_context_buffer_size as u64
        &&& p.guest_panic_context_ptr == (g + self.guest_panic_context_buffer_offset) as u64
        &&& p.heap_size == self.heap_size as u64
        &&& p.heap_ptr == (g + self.guest_heap_buffer_offset) as u64
        &&& p.min_guest_stack_address == (g + size - self.stack_size) as u64
    }

    /// The bytes hold, at every field the layout writes, the value it
    /// prescribes, and both data buffers start with their stack pointer at 8.
    pub open spec fn peb_written(&self, bytes: Seq<u8>, guest_offset: usize, size: usize) -> bool {
        let cfg = self.sandbox_memory_config;
        let g = guest_offset as int;
        &&& u64_at(bytes, self.peb_host_function_definitions_offset as int) == cfg.host_function_definition_size as u64
        &&& u64_at(bytes, self.peb_host_function_definitions_offset + 8) == (g + self.host_function_definitions_buffer_offset) as u64
        &&& u64_at(bytes, self.peb_host_exception_offset as int) == cfg.host_exception_size as u64
        &&& u64_at(bytes, self.peb_guest_error_offset as int) == cfg.guest_error_buffer_size as u64
        &&& u64_at(bytes, self.peb_guest_error_offset + 8) == (g + self.guest_error_buffer_offset) as u64
        &&& u64_at(bytes, self.peb_input_data_offset as int) == cfg.input_data_size as u64
        &&& u64_at(bytes, self.peb_input_data_offset + 8) == (g + self.input_data_buffer_offset) as u64
        &&& u64_at(bytes, self.peb_output_data_offset as int) == cfg.output_data_size as u64
        &&& u64_at(bytes, self.peb_output_data_offset + 8) == (g + self.output_data_buffer_offset) as u64
        &&& u64_at(bytes, self.peb_guest_panic_context_offset as int) == cfg.guest_panic_context_buffer_size as u64
        &&& u64_at(bytes, self.peb_guest_panic_context_offset + 8) == (g + self.guest_panic_context_buffer_offset) as u64
        &&& u64_at(bytes, self.peb_heap_data_offset as int) == self.heap_size as u64
        &&& u64_at(bytes, self.peb_heap_data_offset + 8) == (g + self.guest_heap_buffer_offset) as u64
        &&& u64_at(bytes, self.peb_stack_data_offset as int) == (g + size - self.stack_size) as u64
        &&& u64_at(bytes, self.input_data_buffer_offset as int) == STACK_POINTER_SIZE_BYTES
        &&& u64_at(bytes, self.output_data_buffer_offset as int) == STACK_POINTER_SIZE_BYTES
    }

    /// Whether `write` writes the byte at offset `j`: the PEB apart from the
    /// guest dispatch pointer and the code and OutB pointers, and the stack
    /// pointer words at the start of the input and output buffers.
    pub open spec fn written_by_write(&self, j: int) -> bool {
        let p = self.peb_offset as int;
        let dispatch = p + PEB_GUEST_DISPATCH_FUNCTION_PTR;
        let code = p + PEB_CODE_AND_OUTB_POINTER;
        ||| (p <= j < p + PEB_SIZE && !(dispatch <= j < dispatch + 8) && !(code <= j < code + 24))
        ||| (self.input_data_buffer_offset <= j < self.input_data_buffer_offset + 8)
        ||| (self.output_data_buffer_offset <= j < self.output_data_buffer_offset + 8)
    }

    /// Address of `offset` relative to `guest_offset`; with a zero guest
    /// offset the host address from the shared memory is used.
    fn address_of(&self, shared_mem: &SharedMemory, guest_offset: usize, offset: usize) -> (r: u64)
        requires
            self.valid_guest_offset(*shared_mem, guest_offset),
            offset < shared_mem@.len(),
        ensures
            r == guest_offset + offset,
    {
        if guest_offset == 0 {
            match shared_mem.calculate_address(offset) {
                Ok(a) => a as u64,
                Err(_) => 0,
            }
        } else {
            (guest_offset + offset) as u64
        }
    }

    /// Write the process environment block of this layout into `shared_mem`:
    /// a fresh random security cookie seed, every size and buffer pointer,
    /// the minimum stack address `guest_offset + size - stack_size`, and the
    /// stack pointers of the input and output buffers, set to 8.
    ///
    /// Fails with `GuestOffsetIsInvalid` when `guest_offset` is neither
    /// `BASE_ADDRESS` nor the shared memory's base address (or addresses from
    /// it overflow), and with `MemoryAccessOutOfBounds` when the shared memory
    /// is smaller than the layout or `size` is not between the stack size and
    /// the size of the shared memory, and with `RandomSourceFailed` when the
    /// operating system's random source fails. Nothing is written on failure;
    /// on success every byte the write does not cover keeps its value, so the
    /// guest dispatch pointer and the code and OutB pointers are kept.
    #[verifier::rlimit(100)]
    #[verifier::spinoff_prover]
    pub fn write(&self, shared_mem: &mut SharedMemory, guest_offset: usize, size: usize) -> (r: Result<(), HyperlightError>)
        requires
            self.wf(),
        ensures
            r is Ok ==> self.valid_guest_offset(*old(shared_mem), guest_offset)
                && self.spec_memory_size() <= old(shared_mem)@.len()
                && self.stack_size <= size <= old(shared_mem)@.len(),
            self.valid_guest_offset(*old(shared_mem), guest_offset)
                && self.spec_memory_size() <= old(shared_mem)@.len()
                && self.stack_size <= size <= old(shared_mem)@.len()
                && r is Err ==> r->Err_0 == HyperlightError::RandomSourceFailed,
            !self.valid_guest_offset(*old(shared_mem), guest_offset) ==> r == Err::<(), HyperlightError>(
                HyperlightError::GuestOffsetIsInvalid(guest_offset)),
            r is Err ==> final(shared_mem)@ == old(shared_mem)@,
            r is Ok ==> self.peb_written(final(shared_mem)@, guest_offset, size),
            r is Ok ==> forall|j: int| 0 <= j < old(shared_mem)@.len() && !self.written_by_write(j)
                ==> #[trigger] final(shared_mem)@[j] == old(shared_mem)@[j],
            r is Ok ==> {
                let before = peb_view(*self, old(shared_mem)@);
                let after = peb_view(*self, final(shared_mem)@);
                &&& after.guest_dispatch_function_ptr == before.guest_dispatch_function_ptr
                &&& after.code_ptr == before.code_ptr
                &&& after.outb_ptr == before.outb_ptr
                &&& after.outb_context == before.outb_context
            },
            final(shared_mem)@.len() == old(shared_mem)@.len(),
            final(shared_mem).spec_base_addr() == old(shared_mem).spec_base_addr(),
    {
        proof {
            lemma_layout_regions(*self);
        }
        let len = shared_mem.mem_size();
        if (guest_offset != BASE_ADDRESS && guest_offset != shared_mem.base_addr())
            || guest_offset > usize::MAX - len {
            return Err(HyperlightError::GuestOffsetIsInvalid(guest_offset));
        }
        let memory_size = match self.get_memory_size() {
            Ok(s) => s,
            Err(e) => return Err(e),
        };
        if len < memory_size {
            return Err(HyperlightError::MemoryAccessOutOfBounds(0, memory_size, len));
        }
        if size < self.stack_size || size > len {
            return Err(HyperlightError::MemoryAccessOutOfBounds(0, size, len));
        }
        let cfg = &self.sandbox_memory_config;
        let hfd_addr = self.address_of(shared_mem, guest_offset, self.host_function_definitions_buffer_offset);
        let error_addr = self.address_of(shared_mem, guest_offset, self.guest_error_buffer_offset);
        let input_addr = self.address_of(shared_mem, guest_offset, self.input_data_buffer_offset);
        let output_addr = self.address_of(shared_mem, guest_offset, self.output_data_buffer_offset);
        let panic_addr = self.address_of(shared_mem, guest_offset, self.guest_panic_context_buffer_offset);
        let heap_addr = self.address_of(shared_mem, guest_offset, self.guest_heap_buffer_offset);
        let min_stack = (guest_offset + (size - self.stack_size)) as u64;

        let seed = match os_random_u64() {
            Ok(seed) => seed,
            Err(_) => return Err(HyperlightError::RandomSourceFailed),
        };
        let ghost start = shared_mem@;
        let _ = shared_mem.write_u64(self.peb_security_cookie_seed_offset, seed);
        let _ = shared_mem.write_u64(
            self.get_host_function_definitions_size_offset(),
            cfg.host_function_definition_size as u64,
        );
        let _ = shared_mem.write_u64(self.get_host_function_definitions_pointer_offset(), hfd_addr);
        let _ = shared_mem.write_u64(self.get_host_exception_size_offset(), cfg.host_exception_size as u64);
        let _ = shared_mem.write_u64(self.get_guest_error_buffer_pointer_offset(), error_addr);
        let _ = shared_mem.write_u64(
            self.get_guest_error_buffer_size_offset(),
            cfg.guest_error_buffer_size as u64,
        );
        let _ = shared_mem.write_u64(self.get_input_data_size_offset(), cfg.input_data_size as u64);
        let _ = shared_mem.write_u64(self.get_input_data_pointer_offset(), input_addr);
        let _ = shared_mem.write_u64(self.get_output_data_size_offset(), cfg.output_data_size as u64);
        let _ = shared_mem.write_u64(self.get_output_data_pointer_offset(), output_addr);
        let _ = shared_mem.write_u64(
            self.get_guest_panic_context_size_offset(),
            cfg.guest_panic_context_buffer_size as u64,
        );
        let _ = shared_mem.write_u64(self.get_guest_panic_context_buffer_pointer_offset(), panic_addr);
        let _ = shared_mem.write_u64(self.get_heap_size_offset(), self.heap_size as u64);
        let _ = shared_mem.write_u64(self.get_heap_pointer_offset(), heap_addr);
        let _ = shared_mem.write_u64(self.get_min_guest_stack_address_offset(), min_stack);
        let _ = shared_mem.write_u64(self.input_data_buffer_offset, STACK_POINTER_SIZE_BYTES);
        let _ = shared_mem.write_u64(self.output_data_buffer_offset, STACK_POINTER_SIZE_BYTES);
        proof {
            let p = self.peb_offset as int;
            assert forall|d: int| #![trigger start.subrange(d, d + 8)]
                d == p + PEB_GUEST_DISPATCH_FUNCTION_PTR || d == p + PEB_CODE_AND_OUTB_POINTER
                    || d == p + PEB_CODE_AND_OUTB_POINTER + 8 || d == p + PEB_CODE_AND_OUTB_POINTER + 16
                implies shared_mem@.subrange(d, d + 8) == start.subrange(d, d + 8) by {
                assert forall|k: int| 0 <= k < 8 implies #[trigger] shared_mem@[d + k] == start[d + k] by {
                    assert(!self.written_by_write(d + k));
                }
                assert(shared_mem@.subrange(d, d + 8) =~= start.subrange(d, d + 8));
            }
        }
        Ok(())
    }

    /// Read back the process environment block of this layout; fails when
    /// the block does not lie inside `shared_mem`.
    pub fn read_peb(&self, shared_mem: &SharedMemory) -> (r: Result<PebDescriptors, HyperlightError>)
        requires
            self.wf(),
        ensures
            r is Ok <==> self.peb_offset + PEB_SIZE <= shared_mem@.len(),
            r is Ok ==> r->Ok_0 == peb_view(*self, shared_mem@),
            r is Err ==> r->Err_0 == HyperlightError::MemoryAccessOutOfBounds(
                self.peb_offset,
                PEB_SIZE,
                shared_mem@.len() as usize,
            ),
    {
        proof {
            lemma_layout_regions(*self);
        }
        let len = shared_mem.mem_size();
        if len < self.peb_offset + PEB_SIZE {
            return Err(HyperlightError::MemoryAccessOutOfBounds(self.peb_offset, PEB_SIZE, len));
        }
        let p = self.peb_offset;
        Ok(PebDescriptors {
            security_cookie_seed: read(shared_mem, p + PEB_SECURITY_COOKIE_SEED),
            guest_dispatch_function_ptr: read(shared_mem, p + PEB_GUEST_DISPATCH_FUNCTION_PTR),
            host_function_definitions_size: read(shared_mem, p + PEB_HOST_FUNCTION_DEFINITIONS),
            host_function_definitions_ptr: read(shared_mem, p + PEB_HOST_FUNCTION_DEFINITIONS + 8),
            host_exception_size: read(shared_mem, p + PEB_HOST_EXCEPTION),
            guest_error_size: read(shared_mem, p + PEB_GUEST_ERROR),
            guest_error_ptr: read(shared_mem, p + PEB_GUEST_ERROR + 8),
            code_ptr: read(shared_mem, p + PEB_CODE_AND_OUTB_POINTER),
            outb_ptr: read(shared_mem, p + PEB_CODE_AND_OUTB_POINTER + 8),
            outb_context: read(shared_mem, p + PEB_CODE_AND_OUTB_POINTER + 16),
            input_data_size: read(shared_mem, p + PEB_INPUT_DATA),
            input_data_ptr: read(shared_mem, p + PEB_INPUT_DATA + 8),
            output_data_size: read(shared_mem, p + PEB_OUTPUT_DATA),
            output_data_ptr: read(shared_mem, p + PEB_OUTPUT_DATA + 8),
            guest_panic_context_size: read(shared_mem, p + PEB_GUEST_PANIC_CONTEXT),
            guest_panic_context_ptr: read(shared_mem, p + PEB_GUEST_PANIC_CONTEXT + 8),
            heap_size: read(shared_mem, p + PEB_HEAP_DATA),
            heap_ptr: read(shared_mem, p + PEB_HEAP_DATA + 8),
            min_guest_stack_address: read(shared_mem, p + PEB_STACK_DATA),
        })
    }
}

/// The `u64` at an offset known to be in bounds.
fn read(shared_mem: &SharedMemory, offset: usize) -> (r: u64)
    requires
        offset + 8 <= shared_mem@.len(),
    ensures
        r == u64_at(shared_mem@, offset as int),
{
    match shared_mem.read_u64(offset) {
        Ok(v) => v,
        Err(_) => 0,
    }
}

/// What `write` leaves in memory reads back through `read_peb` as the
/// descriptors that the layout prescribes.
pub proof fn lemma_peb_round_trip(l: SandboxMemoryLayout, bytes: Seq<u8>, guest_offset: usize, size: usize)
    requires
        l.wf(),
        l.peb_written(bytes, guest_offset, size),
    ensures
        l.prescribes(peb_view(l, bytes), guest_offset, size),
{
}

} // verus!
