use hyperlight_host::config::SandboxConfiguration;
use hyperlight_host::error::HyperlightError;
use hyperlight_host::layout::{
    round_up_to, SandboxMemoryLayout, BASE_ADDRESS, MAX_MEMORY_SIZE, PAGE_SIZE, PEB_SIZE,
};
use hyperlight_host::memory_region::MemoryRegionType;
use hyperlight_host::shared_mem::SharedMemory;

fn default_cfg() -> SandboxConfiguration {
    SandboxConfiguration::default()
}

#[test]
fn test_round_up() {
    assert_eq!(0, round_up_to(0, 4));
    assert_eq!(4, round_up_to(1, 4));
    assert_eq!(4, round_up_to(2, 4));
    assert_eq!(4, round_up_to(3, 4));
    assert_eq!(4, round_up_to(4, 4));
    assert_eq!(8, round_up_to(5, 4));
    assert_eq!(8, round_up_to(6, 4));
    assert_eq!(8, round_up_to(7, 4));
    assert_eq!(8, round_up_to(8, 4));
    assert_eq!(PAGE_SIZE, round_up_to(44, PAGE_SIZE));
    assert_eq!(PAGE_SIZE, round_up_to(4095, PAGE_SIZE));
    assert_eq!(PAGE_SIZE, round_up_to(4096, PAGE_SIZE));
    assert_eq!(PAGE_SIZE * 2, round_up_to(4097, PAGE_SIZE));
    assert_eq!(PAGE_SIZE * 2, round_up_to(8191, PAGE_SIZE));
}

#[test]
fn get_host_code_address() {
    let layout = SandboxMemoryLayout::new(default_cfg(), 4096, 2048, 4096).unwrap();
    let sm = SharedMemory::new(PAGE_SIZE).unwrap();
    let hca_in_proc = layout.get_host_code_address(&sm).unwrap();
    let hca_in_vm = layout.get_host_code_address(&sm).unwrap();
    let code_offset = layout.get_guest_code_offset();
    assert_eq!(hca_in_proc - sm.base_addr(), code_offset);
    assert_eq!(hca_in_vm - sm.base_addr(), code_offset);
    assert_eq!(hca_in_proc, hca_in_vm);
}

fn get_expected_memory_size(layout: &SandboxMemoryLayout) -> usize {
    let cfg = layout.sandbox_memory_config;
    let mut expected_size = 0;
    expected_size += layout.get_page_table_size();
    expected_size += layout.code_size;
    expected_size += round_up_to(PEB_SIZE, PAGE_SIZE);
    expected_size += round_up_to(cfg.host_function_definition_size, PAGE_SIZE);
    expected_size += round_up_to(cfg.host_exception_size, PAGE_SIZE);
    expected_size += round_up_to(cfg.guest_error_buffer_size, PAGE_SIZE);
    expected_size += round_up_to(cfg.input_data_size, PAGE_SIZE);
    expected_size += round_up_to(cfg.output_data_size, PAGE_SIZE);
    expected_size += round_up_to(cfg.guest_panic_context_buffer_size, PAGE_SIZE);
    expected_size += round_up_to(layout.heap_size, PAGE_SIZE);
    expected_size += PAGE_SIZE;
    expected_size += round_up_to(layout.stack_size, PAGE_SIZE);
    expected_size
}

#[test]
fn test_get_memory_size() {
    let sbox_cfg = default_cfg();
    let sbox_mem_layout = SandboxMemoryLayout::new(sbox_cfg, 4096, 2048, 4096).unwrap();
    assert_eq!(
        sbox_mem_layout.get_memory_size().unwrap(),
        get_expected_memory_size(&sbox_mem_layout)
    );
}

#[test]
fn layout_offsets_of_default_configuration() {
    let l = SandboxMemoryLayout::new(default_cfg(), 4096, 2048, 4096).unwrap();
    assert_eq!(l.get_page_table_size(), 0x7000);
    assert_eq!(l.get_guest_code_offset(), 0x7000);
    assert_eq!(l.get_in_process_peb_offset(), 0x8000);
    assert_eq!(l.peb_address, BASE_ADDRESS + 0x8000);
    assert_eq!(l.host_function_definitions_buffer_offset, 0x9000);
    assert_eq!(l.get_host_exception_offset(), 0xa000);
    assert_eq!(l.guest_error_buffer_offset, 0xe000);
    assert_eq!(l.input_data_buffer_offset, 0xf000);
    assert_eq!(l.get_output_data_offset(), 0x13000);
    assert_eq!(l.get_guest_panic_context_buffer_offset(), 0x17000);
    assert_eq!(l.guest_heap_buffer_offset, 0x18000);
    assert_eq!(l.get_guard_page_offset(), 0x19000);
    assert_eq!(l.get_top_of_stack_offset(), 0x1a000);
    assert_eq!(l.get_stack_size(), 0x1000);
    assert_eq!(l.get_memory_size().unwrap(), 0x1b000);
    assert_eq!(l.get_guest_code_address(), BASE_ADDRESS + 0x7000);
    assert_eq!(l.get_output_data_pointer_offset(), 0x8000 + 0x68);
    assert_eq!(l.get_outb_context_offset(), 0x8000 + 0x48);
}

#[test]
fn layout_regions_are_page_aligned_and_disjoint() {
    let l = SandboxMemoryLayout::new(default_cfg(), 5000, 3000, 7000).unwrap();
    let size = l.get_memory_size().unwrap();
    let sm = SharedMemory::new(size).unwrap();
    let regions = l.get_memory_regions(&sm).unwrap();
    assert_eq!(regions.len(), 12);
    assert_eq!(regions[0].guest_region_start, BASE_ADDRESS);
    assert_eq!(regions[11].guest_region_end, BASE_ADDRESS + size);
    for (i, r) in regions.iter().enumerate() {
        assert_eq!(r.guest_region_start % PAGE_SIZE, 0);
        assert_eq!(r.guest_region_end % PAGE_SIZE, 0);
        assert!(r.guest_region_start < r.guest_region_end);
        assert_eq!(r.host_region_start, sm.base_addr() + r.guest_region_start - BASE_ADDRESS);
        if i > 0 {
            assert_eq!(regions[i - 1].guest_region_end, r.guest_region_start);
        }
    }
    assert_eq!(regions[1].region_type, MemoryRegionType::Code);
    assert!(regions[1].flags.execute);
    assert_eq!(regions[10].region_type, MemoryRegionType::GuardPage);
    assert!(!regions[10].flags.write);
    assert!(!regions[9].flags.execute);
    assert!(regions[1].guest_region_end - regions[1].guest_region_start >= 5000);
}

#[test]
fn memory_regions_need_enough_shared_memory() {
    let l = SandboxMemoryLayout::new(default_cfg(), 4096, 4096, 4096).unwrap();
    let sm = SharedMemory::new(PAGE_SIZE).unwrap();
    let err = l.get_memory_regions(&sm).unwrap_err();
    assert_eq!(err, HyperlightError::MemoryAccessOutOfBounds(0, 0x1b000, PAGE_SIZE));
}

#[test]
fn layout_bound_heap_too_big() {
    let err = SandboxMemoryLayout::new(default_cfg(), 4096, 0x1000, 0x40000000).unwrap_err();
    assert_eq!(err, HyperlightError::MemoryRequestTooBig(0x4021a000, MAX_MEMORY_SIZE));
}

#[test]
fn layout_bound_largest_accepted() {
    let fits = |heap: usize| SandboxMemoryLayout::new(default_cfg(), 4096, 0x1000, heap).is_ok();
    let (mut lo, mut hi) = (0usize, MAX_MEMORY_SIZE);
    while lo + 1 < hi {
        let mid = lo + (hi - lo) / 2;
        if fits(mid) {
            lo = mid;
        } else {
            hi = mid;
        }
    }
    let l = SandboxMemoryLayout::new(default_cfg(), 4096, 0x1000, lo).unwrap();
    assert!(l.get_memory_size().unwrap() <= MAX_MEMORY_SIZE);
    assert!(!fits(lo + 1));
    assert!(matches!(
        SandboxMemoryLayout::new(default_cfg(), 4096, 0x1000, lo + 1),
        Err(HyperlightError::MemoryRequestTooBig(_, MAX_MEMORY_SIZE))
    ));
}

#[test]
fn layout_with_huge_inputs_is_too_big() {
    let err = SandboxMemoryLayout::new(default_cfg(), usize::MAX, usize::MAX, usize::MAX).unwrap_err();
    assert!(matches!(err, HyperlightError::MemoryRequestTooBig(_, MAX_MEMORY_SIZE)));
}

#[test]
fn configuration_rejects_zero_sizes() {
    for i in 0..6 {
        let mut sizes = [0x1000usize; 6];
        sizes[i] = 0;
        let r = SandboxConfiguration::new(
            sizes[0], sizes[1], sizes[2], sizes[3], sizes[4], sizes[5], None, None, None, None,
        );
        assert_eq!(r.unwrap_err(), HyperlightError::ConfigurationRejected);
    }
    let c = SandboxConfiguration::new(1, 2, 3, 4, 5, 6, Some(7), None, None, Some(9)).unwrap();
    assert_eq!(c.input_data_size, 1);
    assert_eq!(c.guest_panic_context_buffer_size, 6);
    assert_eq!(c.stack_size_override, Some(7));
    assert_eq!(c.max_execution_time, 1000);
    assert_eq!(c.max_wait_for_cancellation, 9);
}

#[test]
fn layout_rejects_zero_sized_buffer() {
    let mut cfg = default_cfg();
    cfg.guest_error_buffer_size = 0;
    let err = SandboxMemoryLayout::new(cfg, 4096, 4096, 4096).unwrap_err();
    assert_eq!(err, HyperlightError::ConfigurationRejected);
}
