use vstd::prelude::*;

use crate::error::HyperlightError;
use crate::layout::SandboxMemoryLayout;
use crate::shared_mem::{splice, u32_at, SharedMemory};

verus! {

/// Copy a serialized, size-prefixed guest function call into the input data
/// buffer. Fails with `GuestFunctionCallBufferTooBig` when it is longer than
/// the configured input buffer, and with `MemoryAccessOutOfBounds` when it
/// does not fit the shared memory; nothing is written on failure.
pub fn write_guest_function_call(
    buffer: &[u8],
    shared_memory: &mut SharedMemory,
    layout: &SandboxMemoryLayout,
) -> (r: Result<(), HyperlightError>)
    ensures
        ({
            let m = old(shared_memory)@;
            let input = layout.input_data_buffer_offset as int;
            let limit = layout.sandbox_memory_config.input_data_size;
            &&& r is Ok <==> buffer@.len() <= limit && input + buffer@.len() <= m.len()
            &&& buffer@.len() > limit ==> r == Err::<(), HyperlightError>(
                HyperlightError::GuestFunctionCallBufferTooBig(buffer@.len() as usize, limit))
            &&& r is Ok ==> final(shared_memory)@ == splice(m, input, buffer@)
            &&& r is Err ==> final(shared_memory)@ == m
        }),
        final(shared_memory).spec_base_addr() == old(shared_memory).spec_base_addr(),
{
    let limit = layout.sandbox_memory_config.input_data_size;
    if buffer.len() > limit {
        return Err(HyperlightError::GuestFunctionCallBufferTooBig(buffer.len(), limit));
    }
    shared_memory.copy_from_slice(buffer, layout.input_data_buffer_offset)
}

/// The size-prefixed record at `offset`: the little-endian 32-bit length
/// and that many bytes after it. Fails with `MemoryAccessOutOfBounds` when
/// the record runs past the shared memory.
pub fn read_size_prefixed(shared_memory: &SharedMemory, offset: usize) -> (r: Result<Vec<u8>, HyperlightError>)
    ensures
        ({
            let m = shared_memory@;
            let n = u32_at(m, offset as int) as int;
            &&& r is Ok <==> offset + 4 <= m.len() && offset + 4 + n <= m.len()
            &&& r is Ok ==> r->Ok_0@ == m.subrange(offset as int, offset + 4 + n)
            &&& r is Err ==> r->Err_0 is MemoryAccessOutOfBounds
        }),
{
    let len = match shared_memory.read_u32(offset) {
        Ok(n) => n as usize,
        Err(e) => return Err(e),
    };
    let total = shared_memory.mem_size();
    if len > total - offset - 4 {
        return Err(HyperlightError::MemoryAccessOutOfBounds(offset, len, total));
    }
    let mut record: Vec<u8> = vec![0u8; len + 4];
    match shared_memory.copy_to_slice(record.as_mut_slice(), offset) {
        Ok(()) => Ok(record),
        Err(e) => Err(e),
    }
}

/// The guest's result record, read from the start of the output data
/// buffer once the guest halts.
pub fn read_function_call_result(shared_memory: &SharedMemory, layout: &SandboxMemoryLayout)
    -> (r: Result<Vec<u8>, HyperlightError>)
    ensures
        ({
            let m = shared_memory@;
            let out = layout.output_data_buffer_offset as int;
            let n = u32_at(m, out) as int;
            &&& r is Ok <==> out + 4 <= m.len() && out + 4 + n <= m.len()
            &&& r is Ok ==> r->Ok_0@ == m.subrange(out, out + 4 + n)
            &&& r is Err ==> r->Err_0 is MemoryAccessOutOfBounds
        }),
{
    read_size_prefixed(shared_memory, layout.output_data_buffer_offset)
}

/// A log record the guest wrote for the host.
#[derive(Debug, Clone)]
pub struct LogRecord {
    pub level: u8,
    pub message: Vec<u8>,
}

/// The log record at the start of the output data buffer, laid out as a
/// little-endian 32-bit length, a level byte and the message: the length
/// counts the level byte and the message. Fails with `FlatbufferValidation`
/// when the length is zero, and with `MemoryAccessOutOfBounds` when the
/// record runs past the shared memory.
pub fn read_log_record(shared_memory: &SharedMemory, layout: &SandboxMemoryLayout)
    -> (r: Result<LogRecord, HyperlightError>)
    ensures
        ({
            let m = shared_memory@;
            let out = layout.output_data_buffer_offset as int;
            let n = u32_at(m, out) as int;
            &&& r is Ok <==> out + 4 <= m.len() && out + 4 + n <= m.len() && n >= 1
            &&& r is Ok ==> r->Ok_0.level == m[out + 4]
                && r->Ok_0.message@ == m.subrange(out + 5, out + 4 + n)
            &&& out + 4 <= m.len() && n == 0 ==> r is Err && r->Err_0 == HyperlightError::FlatbufferValidation(0)
            &&& !(out + 4 <= m.len() && out + 4 + n <= m.len()) ==> r is Err && r->Err_0 is MemoryAccessOutOfBounds
        }),
{
    let record = match read_function_call_result(shared_memory, layout) {
        Ok(rec) => rec,
        Err(e) => return Err(e),
    };
    if record.len() < 5 {
        return Err(HyperlightError::FlatbufferValidation(0));
    }
    let level = record[4];
    let mut message: Vec<u8> = Vec::with_capacity(record.len() - 5);
    let mut i: usize = 5;
    while i < record.len()
        invariant
            5 <= i <= record@.len(),
            message@ == record@.subrange(5, i as int),
        decreases record@.len() - i,
    {
        message.push(record[i]);
        i = i + 1;
        assert(message@ =~= record@.subrange(5, i as int));
    }
    proof {
        let out = layout.output_data_buffer_offset as int;
        assert(message@ =~= shared_memory@.subrange(out + 5, out + record@.len()));
    }
    Ok(LogRecord { level, message })
}

} // verus!
