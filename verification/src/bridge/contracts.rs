//! Sync contracts for the buffers the bridge declares.

use vstd::prelude::*;

use crate::residency_core::contract::{
    Authority, ReadbackPolicy, Residency, ResizePolicy, SyncContract, UploadPolicy,
};
use crate::residency_core::resource::ResourceId;

verus! {

/// The default sync contract for a CPU-side kernel buffer: the CPU kernel
/// executor authors the values as patches and reads them back.
pub fn cpu_kernel_contract() -> (c: SyncContract)
    ensures
        c == (SyncContract {
            residency: Residency::Cpu,
            authority: Authority::CpuAuthoritative,
            upload: UploadPolicy::PatchesAllowed,
            readback: ReadbackPolicy::ViewsAllowed,
            resize: ResizePolicy::Fixed,
        }),
{
    SyncContract {
        residency: Residency::Cpu,
        authority: Authority::CpuAuthoritative,
        upload: UploadPolicy::PatchesAllowed,
        readback: ReadbackPolicy::ViewsAllowed,
        resize: ResizePolicy::Fixed,
    }
}

/// Errors raised while mapping shader resource metadata into Residency
/// descriptors.
#[derive(Debug)]
pub enum ResourceMappingError {
    /// A generated diagnostic binding is too large to fit in a host resource
    /// length on this platform.
    DiagnosticTooLarge {
        /// Resource id whose diagnostic layout overflowed.
        resource: ResourceId,
    },
}

/// Sync contract for CPU-authored values staged for GPU execution: GPU
/// resident, uploaded once, never read back (inputs are not GPU products).
pub fn gpu_input_contract() -> (c: SyncContract)
    ensures
        c == (SyncContract {
            residency: Residency::Gpu,
            authority: Authority::CpuAuthoritative,
            upload: UploadPolicy::InitialOnly,
            readback: ReadbackPolicy::Deny,
            resize: ResizePolicy::Fixed,
        }),
{
    SyncContract {
        residency: Residency::Gpu,
        authority: Authority::CpuAuthoritative,
        upload: UploadPolicy::InitialOnly,
        readback: ReadbackPolicy::Deny,
        resize: ResizePolicy::Fixed,
    }
}

/// Sync contract for buffers authored by a GPU dispatch: CPU uploads are
/// allowed for initial contents only, and the graph advances the generation
/// when the GPU writes.
pub fn gpu_output_contract() -> (c: SyncContract)
    ensures
        c == (SyncContract {
            residency: Residency::Gpu,
            authority: Authority::GpuAuthoritative,
            upload: UploadPolicy::InitialOnly,
            readback: ReadbackPolicy::ViewsAllowed,
            resize: ResizePolicy::Fixed,
        }),
{
    SyncContract {
        residency: Residency::Gpu,
        authority: Authority::GpuAuthoritative,
        upload: UploadPolicy::InitialOnly,
        readback: ReadbackPolicy::ViewsAllowed,
        resize: ResizePolicy::Fixed,
    }
}

/// Sync contract for GPU-authored diagnostic buffers: normal views are
/// rejected, and callers ask for the diagnostics selector.
pub fn gpu_diagnostic_contract() -> (c: SyncContract)
    ensures
        c == (SyncContract {
            residency: Residency::Gpu,
            authority: Authority::GpuAuthoritative,
            upload: UploadPolicy::Deny,
            readback: ReadbackPolicy::DiagnosticsOnly,
            resize: ResizePolicy::Fixed,
        }),
{
    SyncContract {
        residency: Residency::Gpu,
        authority: Authority::GpuAuthoritative,
        upload: UploadPolicy::Deny,
        readback: ReadbackPolicy::DiagnosticsOnly,
        resize: ResizePolicy::Fixed,
    }
}

/// Every contract the bridge declares is consistent: registering it is never
/// refused as contradictory.
pub proof fn law_bridge_contracts_are_valid(c: SyncContract)
    requires
        c == (SyncContract {
            residency: Residency::Cpu,
            authority: Authority::CpuAuthoritative,
            upload: UploadPolicy::PatchesAllowed,
            readback: ReadbackPolicy::ViewsAllowed,
            resize: ResizePolicy::Fixed,
        }) || c == (SyncContract {
            residency: Residency::Gpu,
            authority: Authority::CpuAuthoritative,
            upload: UploadPolicy::InitialOnly,
            readback: ReadbackPolicy::Deny,
            resize: ResizePolicy::Fixed,
        }) || c == (SyncContract {
            residency: Residency::Gpu,
            authority: Authority::GpuAuthoritative,
            upload: UploadPolicy::InitialOnly,
            readback: ReadbackPolicy::ViewsAllowed,
            resize: ResizePolicy::Fixed,
        }) || c == (SyncContract {
            residency: Residency::Gpu,
            authority: Authority::GpuAuthoritative,
            upload: UploadPolicy::Deny,
            readback: ReadbackPolicy::DiagnosticsOnly,
            resize: ResizePolicy::Fixed,
        }),
    ensures
        !c.contradictory(),
{
}

} // verus!
