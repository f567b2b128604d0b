//! Transfer plans produced by `SyncGraph::plan_transfers`.

use vstd::prelude::*;

use crate::residency_core::freshness::Freshness;
use crate::residency_core::generation::Generation;
use crate::residency_core::report::SyncWarning;
use crate::residency_core::resource::ResourceId;
use crate::residency_core::view::ViewSelector;

verus! {

/// A single CPU-to-backend upload operation.
#[derive(Clone, Debug)]
pub struct UploadOp {
    /// Resource that receives the uploaded bytes.
    pub resource: ResourceId,
    /// Byte offset within the resource where `bytes` begins.
    pub byte_offset: u64,
    /// Raw bytes copied from CPU memory into backend storage.
    pub bytes: Vec<u8>,
    /// Resource generation that becomes authoritative after the upload.
    pub resulting_generation: Generation,
}

/// Mathematical model of an [`UploadOp`].
pub struct UploadView {
    /// Resource that receives the bytes.
    pub resource: Seq<char>,
    /// Byte offset within the resource.
    pub byte_offset: int,
    /// The bytes to write.
    pub bytes: Seq<u8>,
    /// Resource generation that becomes authoritative after the upload.
    pub generation: int,
}

impl View for UploadOp {
    type V = UploadView;

    open spec fn view(&self) -> UploadView {
        UploadView {
            resource: self.resource@,
            byte_offset: self.byte_offset as int,
            bytes: self.bytes@,
            generation: self.resulting_generation.0 as int,
        }
    }
}

/// A readback the backend will be asked to perform.
///
/// `event_head` is a graph-supplied hint populated for
/// `ViewSelector::EventCandidates` views.
#[derive(Clone, Debug)]
pub struct PlannedReadback {
    /// Resource to read from backend storage.
    pub resource: ResourceId,
    /// Logical view selector describing which bytes or aggregate to return.
    pub selector: ViewSelector,
    /// Freshness requirement validated by the graph before planning.
    pub freshness: Freshness,
    /// Human-readable reason attached by the caller for diagnostics/reports.
    pub reason: String,
    /// Event-ring head captured by the graph for event candidate views.
    pub event_head: Option<u64>,
}

/// A backend reallocation produced when a buffer needs to grow.
#[derive(Clone, Debug)]
pub struct ResizeOp {
    /// Resource whose backend allocation should resize.
    pub resource: ResourceId,
    /// Previous byte capacity.
    pub old_size: u64,
    /// New byte capacity.
    pub new_size: u64,
    /// Resource generation that becomes authoritative after resize.
    pub resulting_generation: Generation,
}

/// Mathematical model of a [`ResizeOp`].
pub struct ResizeView {
    /// Resource whose allocation resizes.
    pub resource: Seq<char>,
    /// Previous byte capacity.
    pub old_size: int,
    /// New byte capacity.
    pub new_size: int,
    /// Resource generation that becomes authoritative after the resize.
    pub generation: int,
}

impl View for ResizeOp {
    type V = ResizeView;

    open spec fn view(&self) -> ResizeView {
        ResizeView {
            resource: self.resource@,
            old_size: self.old_size as int,
            new_size: self.new_size as int,
            generation: self.resulting_generation.0 as int,
        }
    }
}

/// Bundle of work the backend should execute this cycle.
#[derive(Clone, Debug)]
pub struct TransferPlan {
    /// CPU-to-backend uploads to execute this cycle.
    pub uploads: Vec<UploadOp>,
    /// Backend-to-CPU readbacks queued in this plan.
    pub readbacks: Vec<PlannedReadback>,
    /// Backend resource resizes to execute before uploads.
    pub resizes: Vec<ResizeOp>,
    /// Total bytes expected to be uploaded by this plan.
    pub expected_upload_bytes: u64,
    /// Total bytes expected to be downloaded by this plan.
    pub expected_download_bytes: u64,
    /// Warnings emitted while planning transfers.
    pub warnings: Vec<SyncWarning>,
}

impl Default for TransferPlan {
    fn default() -> (p: TransferPlan)
        ensures
            p.uploads@.len() == 0,
            p.readbacks@.len() == 0,
            p.resizes@.len() == 0,
            p.expected_upload_bytes == 0,
            p.expected_download_bytes == 0,
            p.warnings@.len() == 0,
    {
        TransferPlan {
            uploads: Vec::new(),
            readbacks: Vec::new(),
            resizes: Vec::new(),
            expected_upload_bytes: 0,
            expected_download_bytes: 0,
            warnings: Vec::new(),
        }
    }
}

impl TransferPlan {
    /// `true` when there is no work in the plan.
    pub fn is_empty(&self) -> (b: bool)
        ensures
            b == (self.uploads@.len() == 0 && self.readbacks@.len() == 0 && self.resizes@.len()
                == 0),
    {
        self.uploads.len() == 0 && self.readbacks.len() == 0 && self.resizes.len() == 0
    }
}

} // verus!
