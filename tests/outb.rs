use hyperlight_host::config::SandboxConfiguration;
use hyperlight_host::error::HyperlightError;
use hyperlight_host::layout::SandboxMemoryLayout;
use hyperlight_host::outb::{
    guest_abort_error, guest_abort_message, outb_action, OutbAction, ABORT_PORT, HOST_CALL_PORT, LOG_PORT,
};
use hyperlight_host::shared_mem::SharedMemory;

#[test]
fn ports_select_the_host_action() {
    assert_eq!(outb_action(LOG_PORT, 0), OutbAction::Log);
    assert_eq!(outb_action(HOST_CALL_PORT, 0), OutbAction::CallHostFunction);
    assert_eq!(outb_action(ABORT_PORT, 0x1_2A), OutbAction::Abort(42));
    assert_eq!(outb_action(0x3f8, 1), OutbAction::UnknownPort(0x3f8));
}

#[test]
fn abort_with_code_carries_the_guest_message() {
    let layout = SandboxMemoryLayout::new(SandboxConfiguration::default(), 4096, 4096, 4096).unwrap();
    let mut mem = SharedMemory::new(layout.get_memory_size().unwrap()).unwrap();
    mem.copy_from_slice(b"bad input\0tail", layout.guest_panic_context_buffer_offset).unwrap();
    let code = match outb_action(ABORT_PORT, 42) {
        OutbAction::Abort(code) => code,
        other => panic!("unexpected action {:?}", other),
    };
    assert_eq!(
        guest_abort_error(code, &mem, &layout),
        HyperlightError::GuestAborted(42, b"bad input".to_vec())
    );
}

#[test]
fn abort_message_is_empty_without_one() {
    let layout = SandboxMemoryLayout::new(SandboxConfiguration::default(), 4096, 4096, 4096).unwrap();
    let mem = SharedMemory::new(layout.get_memory_size().unwrap()).unwrap();
    assert!(guest_abort_message(&mem, &layout).is_empty());
    let small = SharedMemory::new(4096).unwrap();
    assert!(guest_abort_message(&small, &layout).is_empty());
}
