//! Host-side core of a micro-VM sandbox: the guest memory plan and its page
//! tables, the shared memory that backs it and its snapshots, the process
//! environment block written into it, the host/guest call framing over the
//! data buffers and I/O ports, the handle table for foreign callers, base
//! relocations of guest images, and the decisions of the hypervisor handler
//! and of the sandbox's state machine.

pub mod base_relocations;
pub mod capi;
pub mod config;
pub mod error;
pub mod exit;
pub mod function_call;
pub mod host_function_call;
pub mod hypervisor_handler;
pub mod kvm;
pub mod layout;
pub mod memory_region;
pub mod outb;
pub mod page_tables;
pub mod peb;
pub mod sandbox_state;
pub mod shared_mem;
pub mod shared_mem_snapshot;
