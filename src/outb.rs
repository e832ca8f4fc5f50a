use vstd::prelude::*;

use crate::error::HyperlightError;
use crate::layout::SandboxMemoryLayout;
use crate::shared_mem::SharedMemory;

verus! {

/// Port on which the guest asks the host to log a record.
pub const LOG_PORT: u16 = 99;
/// Port on which the guest calls a host function.
pub const HOST_CALL_PORT: u16 = 101;
/// Port on which the guest aborts; the low byte of the payload is the code.
pub const ABORT_PORT: u16 = 102;

/// What the host does for a guest write to an I/O port.
#[derive(Debug, Clone, Copy, PartialEq, Eq, Structural)]
pub enum OutbAction {
    /// Read a log record from the output buffer and relay it.
    Log,
    /// Read a host call from the output buffer, run it, and write its result
    /// to the input buffer.
    CallHostFunction,
    /// Abort the sandbox with this code.
    Abort(u8),
    /// The port is not one the guest may use.
    UnknownPort(u16),
}

/// The host's action for a write of `payload` to `port`.
pub fn outb_action(port: u16, payload: u64) -> (r: OutbAction)
    ensures
        port == LOG_PORT ==> r == OutbAction::Log,
        port == HOST_CALL_PORT ==> r == OutbAction::CallHostFunction,
        port == ABORT_PORT ==> r == OutbAction::Abort((payload % 256) as u8),
        port != LOG_PORT && port != HOST_CALL_PORT && port != ABORT_PORT ==> r == OutbAction::UnknownPort(port),
{
    if port == LOG_PORT {
        OutbAction::Log
    } else if port == HOST_CALL_PORT {
        OutbAction::CallHostFunction
    } else if port == ABORT_PORT {
        OutbAction::Abort((payload % 256) as u8)
    } else {
        OutbAction::UnknownPort(port)
    }
}

/// Length of the message at the start of `bytes`: up to the first zero
/// byte, or all of them.
pub open spec fn message_len(bytes: Seq<u8>) -> int
    decreases bytes.len(),
{
    if bytes.len() == 0 || bytes[0] == 0 {
        0
    } else {
        1 + message_len(bytes.subrange(1, bytes.len() as int))
    }
}

/// The message the guest left in the panic context buffer before aborting:
/// its bytes up to the first zero byte, within the buffer. Empty when the
/// buffer is not inside the shared memory.
pub fn guest_abort_message(shared_mem: &SharedMemory, layout: &SandboxMemoryLayout) -> (r: Vec<u8>)
    ensures
        ({
            let start = layout.guest_panic_context_buffer_offset as int;
            let size = layout.sandbox_memory_config.guest_panic_context_buffer_size as int;
            if start + size <= shared_mem@.len() {
                let buf = shared_mem@.subrange(start, start + size);
                r@ == buf.subrange(0, message_len(buf))
            } else {
                r@.len() == 0
            }
        }),
{
    let start = layout.guest_panic_context_buffer_offset;
    let size = layout.sandbox_memory_config.guest_panic_context_buffer_size;
    let len = shared_mem.mem_size();
    let mut message: Vec<u8> = Vec::new();
    if start > len || len - start < size {
        return message;
    }
    let mut buf: Vec<u8> = vec![0u8; size];
    if shared_mem.copy_to_slice(buf.as_mut_slice(), start).is_err() {
        return message;
    }
    let ghost whole = buf@;
    proof {
        assert(whole.subrange(0, size as int) =~= whole);
    }
    let mut i: usize = 0;
    while i < size && buf[i] != 0
        invariant
            buf@ == whole,
            whole.len() == size,
            i <= size,
            message_len(whole) == i + message_len(whole.subrange(i as int, size as int)),
            message@ == whole.subrange(0, i as int),
        decreases size - i,
    {
        message.push(buf[i]);
        proof {
            let rest = whole.subrange(i as int, size as int);
            assert(rest.subrange(1, rest.len() as int) =~= whole.subrange(i + 1, size as int));
            assert(message@ =~= whole.subrange(0, i + 1));
        }
        i = i + 1;
    }
    proof {
        let rest = whole.subrange(i as int, size as int);
        assert(message_len(rest) == 0);
    }
    message
}

/// The error an abort on `ABORT_PORT` with `code` surfaces: `GuestAborted`
/// with the code and the guest's message.
pub fn guest_abort_error(code: u8, shared_mem: &SharedMemory, layout: &SandboxMemoryLayout) -> (r: HyperlightError)
    ensures
        r is GuestAborted,
        r->GuestAborted_0 == code,
        ({
            let start = layout.guest_panic_context_buffer_offset as int;
            let size = layout.sandbox_memory_config.guest_panic_context_buffer_size as int;
            if start + size <= shared_mem@.len() {
                let buf = shared_mem@.subrange(start, start + size);
                r->GuestAborted_1@ == buf.subrange(0, message_len(buf))
            } else {
                r->GuestAborted_1@.len() == 0
            }
        }),
{
    HyperlightError::GuestAborted(code, guest_abort_message(shared_mem, layout))
}

} // verus!
