//! Bridge from Conflux numeric resources to Residency: sync contracts,
//! resource mapping, the bridge's errors and the report of one sync cycle.

pub mod contracts;
pub mod error;
pub mod map;
pub mod report;
pub mod shader_map;
pub mod sync;

pub use contracts::{
    cpu_kernel_contract, gpu_diagnostic_contract, gpu_input_contract, gpu_output_contract,
    ResourceMappingError,
};
pub use error::BridgeError;
pub use map::{
    column_resource_desc, element_type, kernel_resource_descs, output_view_request, resource_id,
    Kernel, KernelBinding, ScalarType,
};
pub use report::ResidencyReport;
pub use shader_map::{
    diagnostic_desc, field_shader_resource_descs, field_shader_resource_id, generated_resource_id,
    gpu_column_contract, hex_encode, shader_resource_descs, shader_resource_id, Access,
    BindingRequirement, BindingSource, FieldBindingRequirement, FieldBindingSource, FieldShaderModule,
    ShaderModule,
};
pub use sync::{complete_readback, sync_kernel_output, MAX_READBACK_POLLS};
