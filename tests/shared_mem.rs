use hyperlight_host::error::HyperlightError;
use hyperlight_host::layout::{SandboxMemoryLayout, BASE_ADDRESS, PAGE_SIZE};
use hyperlight_host::config::SandboxConfiguration;
use hyperlight_host::shared_mem::SharedMemory;
use hyperlight_host::shared_mem_snapshot::SharedMemorySnapshot;

#[test]
fn restore_replace() {
    let mut data1 = vec![b'a', b'b', b'c'];
    data1.resize_with(PAGE_SIZE, || 0);
    let data2 = data1.iter().map(|b| b + 1).collect::<Vec<u8>>();
    let mut gm = SharedMemory::new(PAGE_SIZE).unwrap();
    gm.copy_from_slice(data1.as_slice(), 0).unwrap();
    let mut snap = SharedMemorySnapshot::new(gm).unwrap();
    {
        assert_eq!(data1, snap.shared_mem().copy_all_to_vec().unwrap());
    }
    {
        snap.shared_mem_mut().copy_from_slice(data2.as_slice(), 0).unwrap();
        assert_eq!(data2, snap.shared_mem().copy_all_to_vec().unwrap());
        snap.restore_from_snapshot().unwrap();
        assert_eq!(data1, snap.shared_mem().copy_all_to_vec().unwrap());
    }
    {
        snap.shared_mem_mut().copy_from_slice(data2.as_slice(), 0).unwrap();
        assert_eq!(data2, snap.shared_mem().copy_all_to_vec().unwrap());
        snap.replace_snapshot().unwrap();
        assert_eq!(data2, snap.shared_mem().copy_all_to_vec().unwrap());
        snap.restore_from_snapshot().unwrap();
        assert_eq!(data2, snap.shared_mem().copy_all_to_vec().unwrap());
    }
}

#[test]
fn restore_twice_is_a_no_op() {
    let mut gm = SharedMemory::new(2 * PAGE_SIZE).unwrap();
    gm.write_u64(16, 0x1122334455667788).unwrap();
    let mut snap = SharedMemorySnapshot::new(gm).unwrap();
    snap.shared_mem_mut().write_u64(16, 5).unwrap();
    snap.shared_mem_mut().write_i32(100, -1).unwrap();
    snap.restore_from_snapshot().unwrap();
    let once = snap.shared_mem().copy_all_to_vec().unwrap();
    snap.restore_from_snapshot().unwrap();
    let twice = snap.shared_mem().copy_all_to_vec().unwrap();
    assert_eq!(once, twice);
    assert_eq!(snap.shared_mem().read_u64(16).unwrap(), 0x1122334455667788);
    assert_eq!(snap.shared_mem().read_i32(100).unwrap(), 0);
}

#[test]
fn shared_memory_is_page_rounded_and_zeroed() {
    let gm = SharedMemory::new(1).unwrap();
    assert_eq!(gm.mem_size(), PAGE_SIZE);
    assert!(gm.copy_all_to_vec().unwrap().iter().all(|b| *b == 0));
    assert_eq!(SharedMemory::new(0).unwrap_err(), HyperlightError::MemoryAllocationFailed(0));
}

#[test]
fn typed_reads_and_writes_are_little_endian_and_bounded() {
    let mut gm = SharedMemory::new(PAGE_SIZE).unwrap();
    gm.write_u64(8, 0x0102030405060708).unwrap();
    let mut b = [0u8; 8];
    gm.copy_to_slice(&mut b, 8).unwrap();
    assert_eq!(b, [8, 7, 6, 5, 4, 3, 2, 1]);
    assert_eq!(gm.read_i64(8).unwrap(), 0x0102030405060708);
    assert_eq!(gm.read_u32(8).unwrap(), 0x05060708);
    gm.write_i32(0, -2).unwrap();
    assert_eq!(gm.read_i32(0).unwrap(), -2);
    assert_eq!(
        gm.read_u64(PAGE_SIZE - 7).unwrap_err(),
        HyperlightError::MemoryAccessOutOfBounds(PAGE_SIZE - 7, 8, PAGE_SIZE)
    );
    assert!(gm.write_u64(PAGE_SIZE - 4, 1).is_err());
    assert!(gm.write_i32(PAGE_SIZE - 4, 1).is_ok());
    assert!(gm.copy_from_slice(&[1, 2, 3], PAGE_SIZE - 2).is_err());
    assert_eq!(gm.calculate_address(10).unwrap(), gm.base_addr() + 10);
    assert!(gm.calculate_address(PAGE_SIZE).is_err());
}

#[test]
fn peb_round_trip() {
    let layout = SandboxMemoryLayout::new(SandboxConfiguration::default(), 4096, 4096, 4096).unwrap();
    let size = layout.get_memory_size().unwrap();
    let mut gm = SharedMemory::new(size).unwrap();
    layout.write(&mut gm, BASE_ADDRESS, size).unwrap();
    let peb = layout.read_peb(&gm).unwrap();
    let cfg = layout.sandbox_memory_config;
    assert_eq!(peb.host_function_definitions_size, cfg.host_function_definition_size as u64);
    assert_eq!(peb.host_function_definitions_ptr, (BASE_ADDRESS + 0x9000) as u64);
    assert_eq!(peb.host_exception_size, cfg.host_exception_size as u64);
    assert_eq!(peb.guest_error_size, cfg.guest_error_buffer_size as u64);
    assert_eq!(peb.guest_error_ptr, (BASE_ADDRESS + 0xe000) as u64);
    assert_eq!(peb.input_data_size, cfg.input_data_size as u64);
    assert_eq!(peb.input_data_ptr, (BASE_ADDRESS + 0xf000) as u64);
    assert_eq!(peb.output_data_size, cfg.output_data_size as u64);
    assert_eq!(peb.output_data_ptr, (BASE_ADDRESS + 0x13000) as u64);
    assert_eq!(peb.guest_panic_context_size, cfg.guest_panic_context_buffer_size as u64);
    assert_eq!(peb.guest_panic_context_ptr, (BASE_ADDRESS + 0x17000) as u64);
    assert_eq!(peb.heap_size, 4096);
    assert_eq!(peb.heap_ptr, (BASE_ADDRESS + 0x18000) as u64);
    assert_eq!(peb.min_guest_stack_address, (BASE_ADDRESS + 0x1a000) as u64);
    assert_eq!(peb.guest_dispatch_function_ptr, 0);
    assert_eq!(gm.read_u64(layout.input_data_buffer_offset).unwrap(), 8);
    assert_eq!(gm.read_u64(layout.output_data_buffer_offset).unwrap(), 8);
}

#[test]
fn peb_pointers_relative_to_host_base() {
    let layout = SandboxMemoryLayout::new(SandboxConfiguration::default(), 4096, 4096, 4096).unwrap();
    let size = layout.get_memory_size().unwrap();
    let mut gm = SharedMemory::new(size).unwrap();
    let base = gm.base_addr();
    layout.write(&mut gm, base, size).unwrap();
    let peb = layout.read_peb(&gm).unwrap();
    assert_eq!(peb.input_data_ptr, (base + 0xf000) as u64);
}

#[test]
fn peb_write_rejects_other_guest_offsets() {
    let layout = SandboxMemoryLayout::new(SandboxConfiguration::default(), 4096, 4096, 4096).unwrap();
    let size = layout.get_memory_size().unwrap();
    let mut gm = SharedMemory::new(size).unwrap();
    let before = gm.copy_all_to_vec().unwrap();
    let err = layout.write(&mut gm, BASE_ADDRESS + 1, size).unwrap_err();
    assert_eq!(err, HyperlightError::GuestOffsetIsInvalid(BASE_ADDRESS + 1));
    assert_eq!(before, gm.copy_all_to_vec().unwrap());
    let mut small = SharedMemory::new(PAGE_SIZE).unwrap();
    assert!(matches!(
        layout.write(&mut small, BASE_ADDRESS, size),
        Err(HyperlightError::MemoryAccessOutOfBounds(..))
    ));
}

#[test]
fn peb_write_keeps_guest_owned_fields() {
    let layout = SandboxMemoryLayout::new(SandboxConfiguration::default(), 4096, 4096, 4096).unwrap();
    let size = layout.get_memory_size().unwrap();
    let mut gm = SharedMemory::new(size).unwrap();
    gm.write_u64(layout.get_dispatch_function_pointer_offset(), 0xABCD).unwrap();
    gm.write_u64(layout.get_code_pointer_offset(), 0x1234).unwrap();
    gm.write_u64(layout.input_data_buffer_offset + 8, 77).unwrap();
    layout.write(&mut gm, BASE_ADDRESS, size).unwrap();
    let peb = layout.read_peb(&gm).unwrap();
    assert_eq!(peb.guest_dispatch_function_ptr, 0xABCD);
    assert_eq!(peb.code_ptr, 0x1234);
    assert_eq!(gm.read_u64(layout.input_data_buffer_offset + 8).unwrap(), 77);
    assert_ne!(peb.input_data_ptr, 0);
}
