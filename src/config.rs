use vstd::prelude::*;

use crate::error::HyperlightError;

verus! {

/// Default size of the input data buffer.
pub const DEFAULT_INPUT_SIZE: usize = 0x4000;
/// Default size of the output data buffer.
pub const DEFAULT_OUTPUT_SIZE: usize = 0x4000;
/// Default size of the host function definitions buffer.
pub const DEFAULT_HOST_FUNCTION_DEFINITION_SIZE: usize = 0x1000;
/// Default size of the host exception buffer.
pub const DEFAULT_HOST_EXCEPTION_SIZE: usize = 0x4000;
/// Default size of the guest error buffer.
pub const DEFAULT_GUEST_ERROR_BUFFER_SIZE: usize = 0x100;
/// Default size of the guest panic context buffer.
pub const DEFAULT_GUEST_PANIC_CONTEXT_BUFFER_SIZE: usize = 0x400;
/// Default time, in milliseconds, a guest call may run before it is cancelled.
pub const DEFAULT_MAX_EXECUTION_TIME: u64 = 1000;
/// Default time, in milliseconds, to wait for a cancellation to take effect.
pub const DEFAULT_MAX_WAIT_FOR_CANCELLATION: u64 = 100;

/// Sizes of the per-purpose guest buffers and the time limits of a sandbox.
///
/// Every buffer size is non-zero when the value comes from `new` or `default`.
#[derive(Debug, Clone, Copy)]
pub struct SandboxConfiguration {
    pub input_data_size: usize,
    pub output_data_size: usize,
    pub host_function_definition_size: usize,
    pub host_exception_size: usize,
    pub guest_error_buffer_size: usize,
    pub guest_panic_context_buffer_size: usize,
    pub stack_size_override: Option<u64>,
    pub heap_size_override: Option<u64>,
    /// Milliseconds.
    pub max_execution_time: u64,
    /// Milliseconds.
    pub max_wait_for_cancellation: u64,
}

impl SandboxConfiguration {
    /// Every buffer size is non-zero.
    pub open spec fn sizes_nonzero(&self) -> bool {
        &&& self.input_data_size > 0
        &&& self.output_data_size > 0
        &&& self.host_function_definition_size > 0
        &&& self.host_exception_size > 0
        &&& self.guest_error_buffer_size > 0
        &&& self.guest_panic_context_buffer_size > 0
    }

    /// Build a configuration; fails with `ConfigurationRejected` exactly when
    /// one of the buffer sizes is zero. Missing time limits take their defaults.
    pub fn new(
        input_data_size: usize,
        output_data_size: usize,
        host_function_definition_size: usize,
        host_exception_size: usize,
        guest_error_buffer_size: usize,
        guest_panic_context_buffer_size: usize,
        stack_size_override: Option<u64>,
        heap_size_override: Option<u64>,
        max_execution_time: Option<u64>,
        max_wait_for_cancellation: Option<u64>,
    ) -> (r: Result<SandboxConfiguration, HyperlightError>)
        ensures
            (input_data_size == 0 || output_data_size == 0 || host_function_definition_size == 0
                || host_exception_size == 0 || guest_error_buffer_size == 0
                || guest_panic_context_buffer_size == 0) <==> r is Err,
            r is Err ==> r->Err_0 is ConfigurationRejected,
            r is Ok ==> {
                let c = r->Ok_0;
                &&& c.sizes_nonzero()
                &&& c.input_data_size == input_data_size
                &&& c.output_data_size == output_data_size
                &&& c.host_function_definition_size == host_function_definition_size
                &&& c.host_exception_size == host_exception_size
                &&& c.guest_error_buffer_size == guest_error_buffer_size
                &&& c.guest_panic_context_buffer_size == guest_panic_context_buffer_size
                &&& c.stack_size_override == stack_size_override
                &&& c.heap_size_override == heap_size_override
                &&& c.max_execution_time == (match max_execution_time {
                    Some(t) => t,
                    None => DEFAULT_MAX_EXECUTION_TIME,
                })
                &&& c.max_wait_for_cancellation == (match max_wait_for_cancellation {
                    Some(t) => t,
                    None => DEFAULT_MAX_WAIT_FOR_CANCELLATION,
                })
            },
    {
        if input_data_size == 0 || output_data_size == 0 || host_function_definition_size == 0
            || host_exception_size == 0 || guest_error_buffer_size == 0
            || guest_panic_context_buffer_size == 0 {
            return Err(HyperlightError::ConfigurationRejected);
        }
        let max_execution_time = match max_execution_time {
            Some(t) => t,
            None => DEFAULT_MAX_EXECUTION_TIME,
        };
        let max_wait_for_cancellation = match max_wait_for_cancellation {
            Some(t) => t,
            None => DEFAULT_MAX_WAIT_FOR_CANCELLATION,
        };
        Ok(SandboxConfiguration {
            input_data_size,
            output_data_size,
            host_function_definition_size,
            host_exception_size,
            guest_error_buffer_size,
            guest_panic_context_buffer_size,
            stack_size_override,
            heap_size_override,
            max_execution_time,
            max_wait_for_cancellation,
        })
    }

    /// The configuration with every field at its default.
    pub fn default_config() -> (r: SandboxConfiguration)
        ensures
            r.sizes_nonzero(),
            r.input_data_size == DEFAULT_INPUT_SIZE,
            r.output_data_size == DEFAULT_OUTPUT_SIZE,
            r.host_function_definition_size == DEFAULT_HOST_FUNCTION_DEFINITION_SIZE,
            r.host_exception_size == DEFAULT_HOST_EXCEPTION_SIZE,
            r.guest_error_buffer_size == DEFAULT_GUEST_ERROR_BUFFER_SIZE,
            r.guest_panic_context_buffer_size == DEFAULT_GUEST_PANIC_CONTEXT_BUFFER_SIZE,
            r.stack_size_override is None,
            r.heap_size_override is None,
            r.max_execution_time == DEFAULT_MAX_EXECUTION_TIME,
            r.max_wait_for_cancellation == DEFAULT_MAX_WAIT_FOR_CANCELLATION,
    {
        SandboxConfiguration {
            input_data_size: DEFAULT_INPUT_SIZE,
            output_data_size: DEFAULT_OUTPUT_SIZE,
            host_function_definition_size: DEFAULT_HOST_FUNCTION_DEFINITION_SIZE,
            host_exception_size: DEFAULT_HOST_EXCEPTION_SIZE,
            guest_error_buffer_size: DEFAULT_GUEST_ERROR_BUFFER_SIZE,
            guest_panic_context_buffer_size: DEFAULT_GUEST_PANIC_CONTEXT_BUFFER_SIZE,
            stack_size_override: None,
            heap_size_override: None,
            max_execution_time: DEFAULT_MAX_EXECUTION_TIME,
            max_wait_for_cancellation: DEFAULT_MAX_WAIT_FOR_CANCELLATION,
        }
    }
}

impl Default for SandboxConfiguration {
    fn default() -> (r: SandboxConfiguration)
        ensures
            r.sizes_nonzero(),
            r.input_data_size == DEFAULT_INPUT_SIZE,
            r.output_data_size == DEFAULT_OUTPUT_SIZE,
            r.host_function_definition_size == DEFAULT_HOST_FUNCTION_DEFINITION_SIZE,
            r.host_exception_size == DEFAULT_HOST_EXCEPTION_SIZE,
            r.guest_error_buffer_size == DEFAULT_GUEST_ERROR_BUFFER_SIZE,
            r.guest_panic_context_buffer_size == DEFAULT_GUEST_PANIC_CONTEXT_BUFFER_SIZE,
            r.max_execution_time == DEFAULT_MAX_EXECUTION_TIME,
            r.max_wait_for_cancellation == DEFAULT_MAX_WAIT_FOR_CANCELLATION,
    {
        Self::default_config()
    }
}

} // verus!
