use vstd::prelude::*;

use crate::error::HyperlightError;
use crate::layout::{
    lemma_layout_regions, lemma_round_up, lemma_round_up_of_multiple, lemma_round_up_shift, page_up,
    SandboxMemoryLayout, AMOUNT_OF_MEMORY_PER_PT, BASE_ADDRESS, MAX_MEMORY_SIZE, PAGE_SIZE, PDPT_OFFSET,
    PD_OFFSET, PEB_SIZE, PML4_OFFSET, PT_OFFSET,
};
use crate::memory_region::region_flags_at;
use crate::shared_mem::{u64_at, SharedMemory};

verus! {

broadcast use crate::shared_mem::lemma_u64_at_with_u64, crate::shared_mem::lemma_with_u64_len;

/// Entry flag: the page or table is present.
pub const PAGE_PRESENT: u64 = 1;
/// Entry flag: the page or table is writable.
pub const PAGE_RW: u64 = 2;
/// Entry flag: instructions may not be fetched from the page.
pub const PAGE_NX: u64 = 0x8000_0000_0000_0000;
/// Entries in one paging table.
pub const ENTRIES_PER_TABLE: usize = 512;

/// Index of the region of `l` that holds the byte at offset `off`.
pub open spec fn region_index_of(l: SandboxMemoryLayout, off: int) -> int {
    let b = l.region_bounds();
    if off < b[1] {
        0
    } else if off < b[2] {
        1
    } else if off < b[3] {
        2
    } else if off < b[4] {
        3
    } else if off < b[5] {
        4
    } else if off < b[6] {
        5
    } else if off < b[7] {
        6
    } else if off < b[8] {
        7
    } else if off < b[9] {
        8
    } else if off < b[10] {
        9
    } else if off < b[11] {
        10
    } else {
        11
    }
}

/// Flags of the page at offset `off`: present, writable where its region
/// is, and not executable unless its region is.
pub open spec fn page_flags(l: SandboxMemoryLayout, off: int) -> u64 {
    let f = region_flags_at(region_index_of(l, off));
    (PAGE_PRESENT + (if f.write { PAGE_RW } else { 0 }) + (if f.execute { 0 } else { PAGE_NX })) as u64
}

/// The page table entry for page `p` of the sandbox: its own guest address,
/// so that guest virtual and physical addresses coincide, with its flags.
pub open spec fn page_table_entry(l: SandboxMemoryLayout, p: int) -> u64 {
    (BASE_ADDRESS + p * PAGE_SIZE + page_flags(l, p * PAGE_SIZE)) as u64
}

/// Offset of the page table entry that maps page `p` of the sandbox. Page
/// tables are laid out back to back and cover guest addresses from zero.
pub open spec fn page_table_entry_offset(p: int) -> int {
    PT_OFFSET + (BASE_ADDRESS / PAGE_SIZE + p) * 8
}

/// Number of page tables that the page directory points at: as many as the
/// layout has room for, up to the size of one directory.
pub open spec fn page_table_count(l: SandboxMemoryLayout) -> int {
    let room = (l.total_page_table_size - PT_OFFSET) / (PAGE_SIZE as int);
    if room > ENTRIES_PER_TABLE { ENTRIES_PER_TABLE as int } else { room }
}

/// The page tables of a well-formed layout have room for an entry for every
/// page of the sandbox.
#[verifier::rlimit(60)]
#[verifier::spinoff_prover]
pub proof fn lemma_page_tables_fit(l: SandboxMemoryLayout)
    requires
        l.wf(),
    ensures
        l.page_tables_fit(),
{
    lemma_layout_regions(l);
    let p = PAGE_SIZE as int;
    let cfg = l.sandbox_memory_config;
    let b = l.region_bounds();
    assert(b[2] % p == 0 && b[3] % p == 0 && b[4] % p == 0 && b[5] % p == 0 && b[6] % p == 0);
    assert(b[7] % p == 0 && b[8] % p == 0 && b[9] % p == 0 && b[12] % p == 0);
    lemma_round_up_shift(l.peb_offset as int, PEB_SIZE as int, p);
    lemma_round_up_shift(l.host_function_definitions_buffer_offset as int, cfg.host_function_definition_size as int, p);
    lemma_round_up_shift(l.host_exception_buffer_offset as int, cfg.host_exception_size as int, p);
    lemma_round_up_shift(l.guest_error_buffer_offset as int, cfg.guest_error_buffer_size as int, p);
    lemma_round_up_shift(l.input_data_buffer_offset as int, cfg.input_data_size as int, p);
    lemma_round_up_shift(l.output_data_buffer_offset as int, cfg.output_data_size as int, p);
    lemma_round_up_shift(l.guest_panic_context_buffer_offset as int, cfg.guest_panic_context_buffer_size as int, p);
    lemma_round_up_shift(l.guest_heap_buffer_offset as int, l.heap_size as int, p);
    lemma_round_up_of_multiple(l.stack_size as int, p);
    lemma_round_up(PEB_SIZE as int, p);
    assert(page_up(PEB_SIZE as int) == p);
    let mem = l.spec_memory_size();
    let pt = l.total_page_table_size as int;
    let mapped = page_up(l.code_size as int) + page_up(l.stack_size as int) + page_up(l.heap_size as int)
        + page_up(cfg.host_exception_size as int)
        + page_up(cfg.host_function_definition_size as int)
        + page_up(cfg.guest_error_buffer_size as int) + page_up(cfg.input_data_size as int)
        + page_up(cfg.output_data_size as int)
        + page_up(cfg.guest_panic_context_buffer_size as int) + page_up(PEB_SIZE as int)
        + BASE_ADDRESS + 3 * PAGE_SIZE + 512 * PAGE_SIZE;
    assert(mapped == mem - pt + BASE_ADDRESS + 514 * p);
    let per_pt = AMOUNT_OF_MEMORY_PER_PT as int;
    let c = (mapped + per_pt - 1) / per_pt;
    assert(pt == (c + 4) * p);
    vstd::arithmetic::div_mod::lemma_fundamental_div_mod(mapped + per_pt - 1, per_pt);
    assert(c * per_pt >= mapped);
    assert(mapped <= MAX_MEMORY_SIZE + BASE_ADDRESS + 514 * p);
    assert(c <= 514);
    assert(mapped >= mem);
    assert(mem % p == 0);
    assert(mem / p * 8 * 512 == mem);
}

impl SandboxMemoryLayout {
    /// The page tables have room for an entry for every page.
    pub open spec fn page_tables_fit(&self) -> bool {
        page_table_entry_offset(self.spec_memory_size() / (PAGE_SIZE as int)) <= self.total_page_table_size
    }

    /// Flags of the page at offset `off`.
    fn flags_at(&self, off: usize) -> (r: u64)
        requires
            self.wf(),
        ensures
            r == page_flags(*self, off as int),
    {
        let i: usize = if off < self.guest_code_offset {
            0
        } else if off < self.peb_offset {
            1
        } else if off < self.host_function_definitions_buffer_offset {
            2
        } else if off < self.host_exception_buffer_offset {
            3
        } else if off < self.guest_error_buffer_offset {
            4
        } else if off < self.input_data_buffer_offset {
            5
        } else if off < self.output_data_buffer_offset {
            6
        } else if off < self.guest_panic_context_buffer_offset {
            7
        } else if off < self.guest_heap_buffer_offset {
            8
        } else if off < self.guard_page_offset {
            9
        } else if off < self.guest_stack_buffer_offset {
            10
        } else {
            11
        };
        let writable = !(i == 3 || i == 10);
        let executable = i == 1;
        PAGE_PRESENT + (if writable { PAGE_RW } else { 0 }) + (if executable { 0 } else { PAGE_NX })
    }

    /// Write the four-level page tables of this layout into `shared_mem`: the
    /// PML4 and PDPT each point at the next table, the page directory at every
    /// page table, and every page of the sandbox is mapped at its own guest
    /// address with the rights of its region. Fails with
    /// `MemoryAccessOutOfBounds`, writing nothing, when the shared memory is
    /// smaller than the layout.
    pub fn write_page_tables(&self, shared_mem: &mut SharedMemory) -> (r: Result<(), HyperlightError>)
        requires
            self.wf(),
        ensures
            r is Ok <==> self.spec_memory_size() <= old(shared_mem)@.len(),
            r is Err ==> final(shared_mem)@ == old(shared_mem)@,
            r is Ok ==> {
                let m = final(shared_mem)@;
                &&& u64_at(m, PML4_OFFSET as int) == BASE_ADDRESS + PDPT_OFFSET + PAGE_PRESENT + PAGE_RW
                &&& u64_at(m, PDPT_OFFSET as int) == BASE_ADDRESS + PD_OFFSET + PAGE_PRESENT + PAGE_RW
                &&& forall|i: int| 0 <= i < page_table_count(*self) ==> #[trigger] u64_at(m, PD_OFFSET + i * 8)
                    == BASE_ADDRESS + PT_OFFSET + i * PAGE_SIZE + PAGE_PRESENT + PAGE_RW
                &&& forall|p: int| 0 <= p < self.spec_memory_size() / (PAGE_SIZE as int)
                    ==> #[trigger] u64_at(m, page_table_entry_offset(p)) == page_table_entry(*self, p)
            },
            final(shared_mem)@.len() == old(shared_mem)@.len(),
            final(shared_mem).spec_base_addr() == old(shared_mem).spec_base_addr(),
    {
        proof {
            lemma_layout_regions(*self);
            lemma_page_tables_fit(*self);
        }
        let memory_size = match self.get_memory_size() {
            Ok(s) => s,
            Err(e) => return Err(e),
        };
        let len = shared_mem.mem_size();
        if len < memory_size {
            return Err(HyperlightError::MemoryAccessOutOfBounds(0, memory_size, len));
        }
        let room = (self.total_page_table_size - PT_OFFSET) / PAGE_SIZE;
        let table_count = if room > ENTRIES_PER_TABLE { ENTRIES_PER_TABLE } else { room };
        let pages = memory_size / PAGE_SIZE;
        let _ = shared_mem.write_u64(PML4_OFFSET, (BASE_ADDRESS + PDPT_OFFSET) as u64 + PAGE_PRESENT + PAGE_RW);
        let _ = shared_mem.write_u64(PDPT_OFFSET, (BASE_ADDRESS + PD_OFFSET) as u64 + PAGE_PRESENT + PAGE_RW);
        let mut i: usize = 0;
        while i < table_count
            invariant
                self.wf(),
                table_count <= ENTRIES_PER_TABLE,
                table_count == page_table_count(*self),
                i <= table_count,
                shared_mem@.len() == len,
                len >= memory_size,
                memory_size == self.spec_memory_size(),
                self.total_page_table_size <= memory_size,
                shared_mem.spec_base_addr() == old(shared_mem).spec_base_addr(),
                u64_at(shared_mem@, PML4_OFFSET as int) == BASE_ADDRESS + PDPT_OFFSET + PAGE_PRESENT + PAGE_RW,
                u64_at(shared_mem@, PDPT_OFFSET as int) == BASE_ADDRESS + PD_OFFSET + PAGE_PRESENT + PAGE_RW,
                forall|j: int| 0 <= j < i ==> #[trigger] u64_at(shared_mem@, PD_OFFSET + j * 8)
                    == BASE_ADDRESS + PT_OFFSET + j * PAGE_SIZE + PAGE_PRESENT + PAGE_RW,
            decreases table_count - i,
        {
            let entry = (BASE_ADDRESS + PT_OFFSET + i * PAGE_SIZE) as u64 + PAGE_PRESENT + PAGE_RW;
            let _ = shared_mem.write_u64(PD_OFFSET + i * 8, entry);
            i = i + 1;
        }
        let mut p: usize = 0;
        while p < pages
            invariant
                self.wf(),
                table_count <= ENTRIES_PER_TABLE,
                table_count == page_table_count(*self),
                pages == memory_size / PAGE_SIZE,
                p <= pages,
                shared_mem@.len() == len,
                len >= memory_size,
                memory_size == self.spec_memory_size(),
                memory_size <= crate::layout::MAX_MEMORY_SIZE,
                PT_OFFSET + (BASE_ADDRESS / PAGE_SIZE + pages) * 8 <= self.total_page_table_size,
                self.total_page_table_size <= memory_size,
                shared_mem.spec_base_addr() == old(shared_mem).spec_base_addr(),
                u64_at(shared_mem@, PML4_OFFSET as int) == BASE_ADDRESS + PDPT_OFFSET + PAGE_PRESENT + PAGE_RW,
                u64_at(shared_mem@, PDPT_OFFSET as int) == BASE_ADDRESS + PD_OFFSET + PAGE_PRESENT + PAGE_RW,
                forall|j: int| 0 <= j < table_count ==> #[trigger] u64_at(shared_mem@, PD_OFFSET + j * 8)
                    == BASE_ADDRESS + PT_OFFSET + j * PAGE_SIZE + PAGE_PRESENT + PAGE_RW,
                forall|q: int| 0 <= q < p ==> #[trigger] u64_at(shared_mem@, page_table_entry_offset(q))
                    == page_table_entry(*self, q),
            decreases pages - p,
        {
            let off = p * PAGE_SIZE;
            let entry = (BASE_ADDRESS + off) as u64 + self.flags_at(off);
            let _ = shared_mem.write_u64(PT_OFFSET + (BASE_ADDRESS / PAGE_SIZE + p) * 8, entry);
            p = p + 1;
        }
        Ok(())
    }
}

} // verus!
