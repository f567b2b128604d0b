//! Resource residency bookkeeping for simulation buffers: generation tracking,
//! CPU patches, event rings, view/readback planning, transfer plans and reports,
//! an in-memory backend, the runtime's execution-path selection policy, and the
//! bridge that maps simulation outputs onto all of it.

pub mod bridge;
pub mod residency_core;
pub mod runtime;

pub use bridge::{
    cpu_kernel_contract, gpu_diagnostic_contract, gpu_input_contract, gpu_output_contract,
    sync_kernel_output, BridgeError, ResidencyReport, ResourceMappingError,
};
