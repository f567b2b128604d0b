//! Backend trait — the boundary between the framework and a GPU driver.

use vstd::prelude::*;

use crate::residency_core::plan::{PlannedReadback, TransferPlan};
use crate::residency_core::readback::{ReadbackStatus, ReadbackToken};
use crate::residency_core::resource::ResourceDesc;

verus! {

/// Opaque handle a backend may return when a resource is created. The core
/// stores it but does not inspect it.
#[derive(Clone, Copy, Debug, PartialEq, Eq, Structural, Hash)]
pub struct BackendResourceHandle(pub u64);

/// Information the backend returns after executing a `TransferPlan`.
#[derive(Clone, Debug)]
pub struct BackendSubmission {
    /// Bytes actually pushed to the backend during this submission.
    pub uploaded_bytes: u64,
    /// Bytes the backend issued readback copies for during this submission.
    pub downloaded_bytes: u64,
    /// Tokens for any readbacks queued as part of the plan's `readbacks` field.
    pub readback_tokens: Vec<ReadbackToken>,
}

/// Backends create and own actual GPU buffers, perform copies, and resolve
/// async readbacks. The core never holds buffers directly.
pub trait ResidencyBackend {
    /// Error type returned by backend allocation, transfer, and readback calls.
    type Error;

    /// Allocate backend storage for a freshly registered resource.
    fn create_resource(&mut self, desc: &ResourceDesc) -> Result<BackendResourceHandle, Self::Error>;

    /// Execute the uploads, resizes, and (optionally) readbacks contained in
    /// the plan.
    fn execute_transfer_plan(&mut self, plan: &TransferPlan) -> Result<BackendSubmission, Self::Error>;

    /// Queue a single readback.
    fn request_readback(&mut self, request: PlannedReadback) -> Result<ReadbackToken, Self::Error>;

    /// Non-blocking poll of a previously issued readback.
    fn poll_readback(&mut self, token: &ReadbackToken) -> Result<ReadbackStatus, Self::Error>;
}

} // verus!
