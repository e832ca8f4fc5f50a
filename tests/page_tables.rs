use hyperlight_host::config::SandboxConfiguration;
use hyperlight_host::error::HyperlightError;
use hyperlight_host::layout::{SandboxMemoryLayout, PAGE_SIZE};
use hyperlight_host::page_tables::{PAGE_NX, PAGE_PRESENT, PAGE_RW};
use hyperlight_host::shared_mem::SharedMemory;

fn entry_offset(page: usize) -> usize {
    0x3000 + (512 + page) * 8
}

#[test]
fn page_tables_identity_map_with_region_rights() {
    let layout = SandboxMemoryLayout::new(SandboxConfiguration::default(), 4096, 4096, 4096).unwrap();
    let size = layout.get_memory_size().unwrap();
    let mut mem = SharedMemory::new(size).unwrap();
    layout.write_page_tables(&mut mem).unwrap();
    assert_eq!(mem.read_u64(0).unwrap(), 0x201000 + PAGE_PRESENT + PAGE_RW);
    assert_eq!(mem.read_u64(0x1000).unwrap(), 0x202000 + PAGE_PRESENT + PAGE_RW);
    assert_eq!(mem.read_u64(0x2000).unwrap(), 0x203000 + PAGE_PRESENT + PAGE_RW);
    assert_eq!(mem.read_u64(0x2008).unwrap(), 0x204000 + PAGE_PRESENT + PAGE_RW);
    // page tables: writable, not executable
    assert_eq!(mem.read_u64(entry_offset(0)).unwrap(), 0x200000 + PAGE_PRESENT + PAGE_RW + PAGE_NX);
    // code: writable and executable
    assert_eq!(mem.read_u64(entry_offset(7)).unwrap(), 0x207000 + PAGE_PRESENT + PAGE_RW);
    // host function definitions: read-only
    assert_eq!(mem.read_u64(entry_offset(9)).unwrap(), 0x209000 + PAGE_PRESENT + PAGE_NX);
    // guard page: read-only
    assert_eq!(mem.read_u64(entry_offset(0x19)).unwrap(), 0x219000 + PAGE_PRESENT + PAGE_NX);
    // last stack page
    let last = size / PAGE_SIZE - 1;
    assert_eq!(
        mem.read_u64(entry_offset(last)).unwrap(),
        (0x200000 + last * PAGE_SIZE) as u64 + PAGE_PRESENT + PAGE_RW + PAGE_NX
    );
}

#[test]
fn page_tables_need_the_whole_memory() {
    let layout = SandboxMemoryLayout::new(SandboxConfiguration::default(), 4096, 4096, 4096).unwrap();
    let mut mem = SharedMemory::new(PAGE_SIZE).unwrap();
    assert_eq!(
        layout.write_page_tables(&mut mem).unwrap_err(),
        HyperlightError::MemoryAccessOutOfBounds(0, 0x1b000, PAGE_SIZE)
    );
    assert_eq!(mem.read_u64(0).unwrap(), 0);
}

#[test]
fn page_tables_of_the_largest_layout() {
    let cfg = SandboxConfiguration::default();
    let fits = |heap: usize| SandboxMemoryLayout::new(cfg, 4096, 0x1000, heap).is_ok();
    let (mut lo, mut hi) = (0usize, 0x40000000usize);
    while lo + 1 < hi {
        let mid = lo + (hi - lo) / 2;
        if fits(mid) {
            lo = mid;
        } else {
            hi = mid;
        }
    }
    let layout = SandboxMemoryLayout::new(cfg, 4096, 0x1000, lo).unwrap();
    let size = layout.get_memory_size().unwrap();
    let mut mem = SharedMemory::new(size).unwrap();
    layout.write_page_tables(&mut mem).unwrap();
    assert_eq!(mem.read_u64(0x2000 + 511 * 8).unwrap(), 0x203000 + 511 * 0x1000 + PAGE_PRESENT + PAGE_RW);
    let last = size / PAGE_SIZE - 1;
    assert_eq!(
        mem.read_u64(entry_offset(last)).unwrap(),
        (0x200000 + last * PAGE_SIZE) as u64 + PAGE_PRESENT + PAGE_RW + PAGE_NX
    );
}
