use vstd::prelude::*;

use crate::error::HyperlightError;
use crate::layout::SandboxMemoryLayout;
use crate::shared_mem::{splice, u32_at, u64_at, SharedMemory};

verus! {

/// A function call from the guest to the host, carried through the output
/// data buffer as a size-prefixed serialized record.
#[derive(Debug, Clone, Copy)]
pub struct HostFunctionCall {}

impl HostFunctionCall {
    /// Copy a serialized call into the output data buffer. Fails with
    /// `MemoryAccessOutOfBounds` when the buffer's size field cannot be read,
    /// with `HostFunctionCallBufferTooBig` when the call is longer than the
    /// size recorded there, and with `MemoryAccessOutOfBounds` when the call
    /// does not fit the shared memory; nothing is written on failure.
    pub fn write(
        &self,
        function_call_buffer: &[u8],
        shared_memory: &mut SharedMemory,
        layout: &SandboxMemoryLayout,
    ) -> (r: Result<(), HyperlightError>)
        ensures
            ({
                let m = old(shared_memory)@;
                let size_at = layout.peb_output_data_offset as int;
                let out = layout.output_data_buffer_offset as int;
                &&& r is Ok <==> size_at + 8 <= m.len()
                    && function_call_buffer@.len() <= u64_at(m, size_at)
                    && out + function_call_buffer@.len() <= m.len()
                &&& size_at + 8 <= m.len() && function_call_buffer@.len() > u64_at(m, size_at)
                    ==> r == Err::<(), HyperlightError>(HyperlightError::HostFunctionCallBufferTooBig(
                        function_call_buffer@.len() as usize,
                        u64_at(m, size_at) as usize,
                    ))
                &&& r is Ok ==> final(shared_memory)@ == splice(m, out, function_call_buffer@)
                &&& r is Err ==> final(shared_memory)@ == m
            }),
            final(shared_memory).spec_base_addr() == old(shared_memory).spec_base_addr(),
    {
        let buffer_size = match shared_memory.read_u64(layout.get_output_data_size_offset()) {
            Ok(s) => s,
            Err(e) => return Err(e),
        };
        if function_call_buffer.len() as u64 > buffer_size {
            return Err(HyperlightError::HostFunctionCallBufferTooBig(
                function_call_buffer.len(),
                buffer_size as usize,
            ));
        }
        shared_memory.copy_from_slice(function_call_buffer, layout.output_data_buffer_offset)
    }

    /// Copy a serialized call out of the output data buffer: the 32-bit
    /// length at its start and that many bytes after it. Fails with
    /// `MemoryAccessOutOfBounds` when the length cannot be read or the
    /// record runs past the shared memory, and with `FlatbufferValidation`
    /// when the length is negative.
    pub fn read(&self, shared_memory: &SharedMemory, layout: &SandboxMemoryLayout) -> (r: Result<Vec<u8>, HyperlightError>)
        ensures
            ({
                let m = shared_memory@;
                let out = layout.output_data_buffer_offset as int;
                let n = u32_at(m, out) as i32 as int;
                &&& r is Ok <==> out + 4 <= m.len() && n >= 0 && out + n + 4 <= m.len()
                &&& r is Ok ==> r->Ok_0@ == m.subrange(out, out + n + 4)
                &&& out + 4 <= m.len() && n < 0 ==> r == Err::<Vec<u8>, HyperlightError>(
                    HyperlightError::FlatbufferValidation(n as i64))
                &&& r is Err && !(out + 4 <= m.len() && n < 0) ==> r->Err_0 is MemoryAccessOutOfBounds
            }),
    {
        let size_i32 = match shared_memory.read_i32(layout.output_data_buffer_offset) {
            Ok(s) => s,
            Err(e) => return Err(e),
        };
        if size_i32 < 0 {
            return Err(HyperlightError::FlatbufferValidation(size_i32 as i64));
        }
        let fb_buffer_size = size_i32 as usize + 4;
        let mut function_call_buffer: Vec<u8> = vec![0u8; fb_buffer_size];
        match shared_memory.copy_to_slice(function_call_buffer.as_mut_slice(), layout.output_data_buffer_offset) {
            Ok(()) => Ok(function_call_buffer),
            Err(e) => Err(e),
        }
    }
}

} // verus!
