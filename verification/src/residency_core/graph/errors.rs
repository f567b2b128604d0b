//! Error types emitted by `SyncGraph` operations.

use vstd::prelude::*;

use crate::residency_core::contract::ContractError;
use crate::residency_core::freshness::Freshness;
use crate::residency_core::generation::Generation;
use crate::residency_core::patch::PatchBuildError;
use crate::residency_core::resource::{ChunkId, ElementType, LayoutError, ResourceId};
use crate::residency_core::summary::SummaryKind;
use crate::residency_core::view::ViewSelector;

verus! {

/// Errors raised by `register`.
#[derive(Debug)]
pub enum RegisterError {
    /// A resource with the same identifier is already registered.
    DuplicateId {
        /// Duplicate resource identifier.
        id: ResourceId,
    },
    /// Diagnostic attachment exceeds the resource's declared maximum diagnostic bytes.
    DiagnosticsTooLarge {
        /// Resource whose diagnostics are too large.
        id: ResourceId,
        /// Declared diagnostic byte count.
        bytes: u64,
        /// Maximum allowed diagnostic byte count.
        max_bytes: u64,
    },
    /// A raw byte layout declared zero alignment.
    InvalidAlignment {
        /// Resource with invalid raw-byte alignment.
        id: ResourceId,
    },
    /// The synchronization contract is internally contradictory.
    InvalidContract {
        /// Resource with an invalid contract.
        id: ResourceId,
        /// Contract validation failure.
        source: ContractError,
    },
    /// Diagnostics-only readback was requested without a diagnostic attachment.
    DiagnosticsPolicyWithoutAttachment {
        /// Resource missing the required diagnostic attachment.
        id: ResourceId,
    },
    /// Layout metadata cannot be represented safely.
    LayoutMetadata {
        /// Resource with invalid layout metadata.
        id: ResourceId,
        /// Layout metadata failure.
        source: LayoutError,
    },
}

/// Errors raised by `submit_typed_patch` / `submit_untyped_patch`.
#[derive(Debug)]
pub enum SubmitPatchError {
    /// No resource with the given identifier is registered.
    UnknownResource {
        /// Unknown resource identifier.
        id: ResourceId,
    },
    /// The resource contract forbids CPU uploads.
    UploadDenied {
        /// Resource whose upload policy rejected the patch.
        id: ResourceId,
    },
    /// An `InitialOnly` resource already received its one allowed upload.
    InitialUploadConsumed {
        /// Resource whose initial upload was already consumed.
        id: ResourceId,
    },
    /// Patch element type does not match the resource's element type.
    ElementTypeMismatch {
        /// Resource receiving the patch.
        id: ResourceId,
        /// Element type expected by the resource layout.
        expected: ElementType,
        /// Element type supplied by the patch.
        actual: ElementType,
    },
    /// Patch byte offset is not aligned for the resource layout.
    Misaligned {
        /// Resource receiving the patch.
        id: ResourceId,
        /// Misaligned patch byte offset.
        offset: u64,
        /// Required byte alignment.
        alignment: u64,
    },
    /// Fixed-size resource cannot contain the patch byte range.
    OutOfBoundsFixed {
        /// Resource receiving the patch.
        id: ResourceId,
        /// Required byte capacity.
        required: u64,
        /// Current byte capacity.
        capacity: u64,
    },
    /// Resource would need a resize but resize is externally managed.
    ExternalResizeRequired {
        /// Resource receiving the patch.
        id: ResourceId,
        /// Required byte capacity.
        required: u64,
        /// Current byte capacity.
        capacity: u64,
    },
    /// Growable resource would exceed its maximum byte capacity.
    GrowExceedsMax {
        /// Resource receiving the patch.
        id: ResourceId,
        /// Required byte capacity.
        required: u64,
        /// Maximum allowed byte capacity.
        max_bytes: u64,
    },
    /// Typed patch could not be converted to a byte patch.
    PatchBuild {
        /// Resource receiving the patch.
        id: ResourceId,
        /// Patch conversion failure.
        source: PatchBuildError,
    },
    /// Patch byte range overflowed `u64`.
    PatchEndOverflow {
        /// Resource receiving the patch.
        id: ResourceId,
        /// Patch byte offset.
        offset: u64,
        /// Patch byte length.
        len: u64,
    },
    /// Required size cannot be rounded up to the next power-of-two capacity.
    ResizeCapacityOverflow {
        /// Resource receiving the patch.
        id: ResourceId,
        /// Required byte capacity.
        required: u64,
    },
}

/// Errors raised by `submit_event_append`.
#[derive(Debug)]
pub enum SubmitEventError {
    /// No resource with the given identifier is registered.
    UnknownResource {
        /// Unknown resource identifier.
        id: ResourceId,
    },
    /// Target resource is not an event-ring layout.
    NotEventRing {
        /// Resource that was expected to be an event ring.
        id: ResourceId,
    },
    /// Event append was rejected by upload policy.
    UploadDenied {
        /// Resource whose upload policy rejected the append.
        id: ResourceId,
    },
    /// An `InitialOnly` event ring already received its one allowed upload.
    InitialUploadConsumed {
        /// Event ring whose initial upload was already consumed.
        id: ResourceId,
    },
    /// Event record type does not match the event-ring layout.
    ElementTypeMismatch {
        /// Event ring receiving records.
        id: ResourceId,
        /// Record type expected by the event-ring layout.
        expected: ElementType,
        /// Record type supplied by the append.
        actual: ElementType,
    },
    /// Event-ring logical head arithmetic overflowed.
    EventHeadOverflow {
        /// Event ring whose head overflowed.
        id: ResourceId,
        /// Current head value.
        head: u64,
        /// Increment that could not be added.
        increment: u64,
    },
}

/// Errors raised by `submit_gpu_mutation`.
#[derive(Debug)]
pub enum AuthorityError {
    /// No resource with the given identifier is registered.
    UnknownResource {
        /// Unknown resource identifier.
        id: ResourceId,
    },
    /// Resource is not GPU-authoritative.
    NotGpuAuthoritative {
        /// Resource whose authority rejected the GPU mutation.
        id: ResourceId,
    },
}

/// Errors raised by `request_view`.
#[derive(Debug)]
pub enum ViewRequestError {
    /// No resource with the given identifier is registered.
    UnknownResource {
        /// Unknown resource identifier.
        id: ResourceId,
    },
    /// Readback policy denies all CPU views.
    ReadbackDenied {
        /// Resource whose readback policy rejected the view.
        id: ResourceId,
    },
    /// Diagnostics-only policy rejected a non-diagnostic selector.
    DiagnosticsOnly {
        /// Resource whose policy rejected the selector.
        id: ResourceId,
        /// Rejected selector.
        selector: ViewSelector,
    },
    /// Snapshot-only policy rejected the requested selector/freshness pair.
    SnapshotOnly {
        /// Resource whose policy rejected the view.
        id: ResourceId,
    },
    /// Diagnostic selector was requested on a resource without diagnostics.
    MissingDiagnostics {
        /// Resource missing diagnostics.
        id: ResourceId,
    },
    /// Requested byte range is outside resource capacity.
    OutOfBounds {
        /// Resource being viewed.
        id: ResourceId,
        /// Requested byte offset.
        offset: u64,
        /// Requested byte length.
        len: u64,
        /// Resource byte capacity.
        capacity: u64,
    },
    /// Requested byte offset is not aligned for the resource layout.
    Misaligned {
        /// Resource being viewed.
        id: ResourceId,
        /// Misaligned byte offset.
        offset: u64,
        /// Required byte alignment.
        alignment: u64,
    },
    /// Rows selector was used for a non-2D layout.
    RowsRequiresDense2D {
        /// Resource being viewed.
        id: ResourceId,
    },
    /// Requested row span exceeds the Dense2D height.
    RowsOutOfBounds {
        /// Resource being viewed.
        id: ResourceId,
        /// First requested row.
        start: u32,
        /// Number of requested rows.
        count: u32,
        /// Available row count.
        height: u32,
    },
    /// Requested row span overflowed `u32`.
    RowsEndOverflow {
        /// Resource being viewed.
        id: ResourceId,
        /// First requested row.
        start: u32,
        /// Number of requested rows.
        count: u32,
    },
    /// Chunks selector was used for a non-chunked layout.
    ChunksRequiresChunkedLayout {
        /// Resource being viewed.
        id: ResourceId,
    },
    /// Requested chunk is outside the chunk grid.
    ChunkOutOfBounds {
        /// Resource being viewed.
        id: ResourceId,
        /// Out-of-bounds chunk id.
        chunk: ChunkId,
        /// Number of chunks on the x axis.
        chunks_x: u32,
        /// Number of chunks on the y axis.
        chunks_y: u32,
    },
    /// Summary selector was used for an untyped raw-byte layout.
    SummaryRequiresTypedLayout {
        /// Resource being viewed.
        id: ResourceId,
    },
    /// Summary kind is incompatible with the resource element type.
    SummaryIncompatible {
        /// Resource being viewed.
        id: ResourceId,
        /// Requested summary kind.
        kind: SummaryKind,
        /// Resource element type.
        element: ElementType,
    },
    /// Event candidate selector was used for a non-event-ring layout.
    EventCandidatesRequiresEventRing {
        /// Resource being viewed.
        id: ResourceId,
    },
    /// Layout metadata cannot be represented safely.
    LayoutMetadata {
        /// Resource with invalid layout metadata.
        id: ResourceId,
        /// Layout metadata failure.
        source: LayoutError,
    },
    /// Estimated readback byte count overflowed `u64`.
    DownloadEstimateOverflow {
        /// Resource being viewed.
        id: ResourceId,
    },
    /// Requested freshness cannot be served by the current resource generation.
    FreshnessUnavailable {
        /// Resource being viewed.
        id: ResourceId,
        /// Requested freshness constraint.
        requested: Freshness,
        /// Current authoritative generation.
        current: Generation,
    },
}

} // verus!
