use hyperlight_host::config::SandboxConfiguration;
use hyperlight_host::error::HyperlightError;
use hyperlight_host::host_function_call::HostFunctionCall;
use hyperlight_host::layout::SandboxMemoryLayout;
use hyperlight_host::shared_mem::SharedMemory;

fn host_function_call_test_data() -> Vec<u8> {
    let payload: Vec<u8> = (0u8..60).collect();
    let mut v = (payload.len() as u32).to_le_bytes().to_vec();
    v.extend_from_slice(&payload);
    v
}

#[test]
fn write_to_memory() {
    let test_data = host_function_call_test_data();
    let host_function_call = HostFunctionCall {};
    let memory_config = SandboxConfiguration::default();
    let memory_layout = SandboxMemoryLayout::new(memory_config, 4096, 4096, 4096).unwrap();
    let mut shared_memory = SharedMemory::new(memory_layout.get_memory_size().unwrap()).unwrap();
    let result = host_function_call.write(&test_data, &mut shared_memory, &memory_layout);
    assert!(result.is_err());
    assert_eq!(
        HyperlightError::HostFunctionCallBufferTooBig(test_data.len(), 0),
        result.err().unwrap()
    );

    let test_data = host_function_call_test_data();
    let host_function_call = HostFunctionCall {};
    let memory_config =
        SandboxConfiguration::new(0x4000, 1024, 0x1000, 0x4000, 0x100, 0x400, None, None, None, None)
            .unwrap();
    let memory_layout = SandboxMemoryLayout::new(memory_config, 4096, 4096, 4096).unwrap();
    let mem_size = memory_layout.get_memory_size().unwrap();
    let mut shared_memory = SharedMemory::new(mem_size).unwrap();
    let offset = shared_memory.base_addr();
    memory_layout.write(&mut shared_memory, offset, mem_size).unwrap();

    let result = host_function_call.write(&test_data, &mut shared_memory, &memory_layout);
    assert!(result.is_ok());
}

#[test]
fn host_function_call_round_trip() {
    let test_data = host_function_call_test_data();
    let call = HostFunctionCall {};
    let layout = SandboxMemoryLayout::new(SandboxConfiguration::default(), 4096, 4096, 4096).unwrap();
    let mem_size = layout.get_memory_size().unwrap();
    let mut shared_memory = SharedMemory::new(mem_size).unwrap();
    layout.write(&mut shared_memory, hyperlight_host::layout::BASE_ADDRESS, mem_size).unwrap();
    call.write(&test_data, &mut shared_memory, &layout).unwrap();
    assert_eq!(call.read(&shared_memory, &layout).unwrap(), test_data);
}

#[test]
fn host_function_call_buffer_too_big() {
    let cfg = SandboxConfiguration::new(0x4000, 16, 0x1000, 0x4000, 0x100, 0x400, None, None, None, None).unwrap();
    let layout = SandboxMemoryLayout::new(cfg, 4096, 4096, 4096).unwrap();
    let mem_size = layout.get_memory_size().unwrap();
    let mut shared_memory = SharedMemory::new(mem_size).unwrap();
    layout.write(&mut shared_memory, hyperlight_host::layout::BASE_ADDRESS, mem_size).unwrap();
    let data = host_function_call_test_data();
    assert_eq!(
        HostFunctionCall {}.write(&data, &mut shared_memory, &layout).unwrap_err(),
        HyperlightError::HostFunctionCallBufferTooBig(64, 16)
    );
}

#[test]
fn host_function_call_negative_length() {
    let layout = SandboxMemoryLayout::new(SandboxConfiguration::default(), 4096, 4096, 4096).unwrap();
    let mut shared_memory = SharedMemory::new(layout.get_memory_size().unwrap()).unwrap();
    shared_memory.write_i32(layout.output_data_buffer_offset, -5).unwrap();
    assert_eq!(
        HostFunctionCall {}.read(&shared_memory, &layout).unwrap_err(),
        HyperlightError::FlatbufferValidation(-5)
    );
}
