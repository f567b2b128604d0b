//! Mathematical model of a `SyncGraph` and of what each operation does to it.
//!
//! Every public operation of the graph is specified as a function from the
//! model before the call (and the call's arguments) to the model after it and
//! the returned value. The executable code in the sibling modules is proved to
//! compute exactly these functions.

use vstd::prelude::*;

use crate::residency_core::contract::{
    Authority, ContractError, ReadbackPolicy, ResizePolicy, UploadPolicy,
};
use crate::residency_core::diagnostics::DiagnosticAttachment;
use crate::residency_core::freshness::Freshness;
use crate::residency_core::generation::Generation;
use crate::residency_core::graph::errors::{
    AuthorityError, RegisterError, SubmitEventError, SubmitPatchError, ViewRequestError,
};
use crate::residency_core::patch::PatchBuildError;
use crate::residency_core::plan::{PlannedReadback, ResizeView, UploadView};
use crate::residency_core::report::{ReportView, SyncWarning};
use crate::residency_core::resource::{
    ChunkId, ChunkedLayoutInfo, ElementType, LayoutError, LayoutField, ResourceDesc, ResourceId,
    ResourceLayout, LayoutKind, mul_fits, then_mul,
};
use crate::residency_core::contract::SyncContract;
use crate::residency_core::view::{ViewRequest, ViewSelector};

verus! {

/// Per-cycle byte limits the graph enforces during `plan_transfers`.
///
/// When the planned upload bytes or the accumulated download estimate exceed
/// the matching limit, the planner raises `SyncWarning::TransferBudgetExceeded`
/// with the actual numbers — the plan still executes.
#[derive(Clone, Copy, Debug, PartialEq, Eq, Structural, Hash)]
pub struct TransferBudget {
    /// Maximum expected upload bytes allowed before a warning is emitted.
    pub upload_bytes_per_cycle: u64,
    /// Maximum expected download bytes allowed before a warning is emitted.
    pub download_bytes_per_cycle: u64,
}

impl TransferBudget {
    /// A budget with no upper limit on either direction.
    pub fn unlimited() -> (b: TransferBudget)
        ensures
            b.upload_bytes_per_cycle == u64::MAX,
            b.download_bytes_per_cycle == u64::MAX,
    {
        TransferBudget { upload_bytes_per_cycle: 0xffff_ffff_ffff_ffffu64, download_bytes_per_cycle: 0xffff_ffff_ffff_ffffu64 }
    }
}

/// Model of one registered resource.
pub struct ResourceEntry {
    /// The resource's identifier.
    pub id: Seq<char>,
    /// Logical storage layout.
    pub layout: ResourceLayout,
    /// Synchronization contract.
    pub contract: SyncContract,
    /// Optional diagnostic attachment.
    pub diagnostics: Option<DiagnosticAttachment>,
    /// Current authoritative generation.
    pub generation: int,
    /// Byte capacity currently allocated.
    pub capacity: int,
    /// Whether an `InitialOnly` resource already received its upload.
    pub has_initial_upload: bool,
    /// Total event records written (event rings only).
    pub event_head: int,
}

/// Model of a whole graph.
pub struct GraphView {
    /// Registered resources, in registration order.
    pub resources: Seq<ResourceEntry>,
    /// Uploads queued for the next plan, oldest first.
    pub pending_uploads: Seq<UploadView>,
    /// Resizes queued for the next plan, oldest first.
    pub pending_resizes: Seq<ResizeView>,
    /// Warnings queued for the next plan, oldest first.
    pub pending_warnings: Seq<SyncWarning>,
    /// Download bytes estimated for the views planned since the last plan.
    pub pending_download_estimate: int,
    /// Configured transfer budget.
    pub budget: Option<TransferBudget>,
    /// Running report of the current cycle.
    pub report: ReportView,
}

/// What a patch of `len` bytes at `byte_offset` does to a resource.
pub enum PatchDecision {
    /// Uploads are denied.
    Denied,
    /// The single allowed upload was already made.
    InitialConsumed,
    /// The offset is not aligned.
    Misaligned,
    /// `byte_offset + len` overflows `u64`.
    EndOverflow,
    /// The patch does not fit and the resource cannot grow.
    OutOfBoundsFixed,
    /// The patch does not fit and growth is managed elsewhere.
    ExternalResize,
    /// The grown capacity does not fit `u64`.
    CapacityOverflow,
    /// The grown capacity exceeds the given cap.
    ExceedsMax(u64),
    /// The patch is accepted, growing the resource to the given capacity if
    /// any.
    Accept(Option<int>),
}

/// Why a readback policy refuses a view.
pub enum Denial {
    /// All views are denied.
    Denied,
    /// Only the diagnostics selector is allowed.
    DiagnosticsOnly,
    /// Only a full snapshot is allowed.
    SnapshotOnly,
}

/// Whether, and why, `policy` refuses a view with this selector and
/// freshness.
pub open spec fn policy_denial(policy: ReadbackPolicy, sel: ViewSelector, fresh: Freshness) -> Option<Denial> {
    match policy {
        ReadbackPolicy::Deny => Some(Denial::Denied),
        ReadbackPolicy::DiagnosticsOnly => if sel is Diagnostics {
            None
        } else {
            Some(Denial::DiagnosticsOnly)
        },
        ReadbackPolicy::SnapshotOnly => if sel is Full && fresh == Freshness::Snapshot {
            None
        } else {
            Some(Denial::SnapshotOnly)
        },
        ReadbackPolicy::ViewsAllowed => None,
    }
}

/// `i` is the first position of `ids` outside the chunk grid.
pub open spec fn is_first_chunk_out(ids: Seq<ChunkId>, info: ChunkedLayoutInfo, i: int) -> bool {
    &&& 0 <= i < ids.len()
    &&& !info.spec_contains(ids[i])
    &&& forall|j: int| 0 <= j < i ==> info.spec_contains(#[trigger] ids[j])
}

/// The first chunk of `ids` outside the chunk grid, if any.
pub open spec fn first_chunk_out(ids: Seq<ChunkId>, info: ChunkedLayoutInfo) -> Option<int> {
    if exists|i: int| is_first_chunk_out(ids, info, i) {
        Some(choose|i: int| is_first_chunk_out(ids, info, i))
    } else {
        None
    }
}

/// The error a selector earns against resource `e`, if any.
pub open spec fn selector_error(
    e: ResourceEntry,
    chunks: Option<ChunkedLayoutInfo>,
    id: ResourceId,
    sel: ViewSelector,
) -> Option<ViewRequestError> {
    match sel {
        ViewSelector::Diagnostics => if e.diagnostics is None {
            Some(ViewRequestError::MissingDiagnostics { id })
        } else {
            None
        },
        ViewSelector::Full => None,
        ViewSelector::Range { offset, len } => {
            let alignment = e.layout.spec_alignment();
            if offset + len > u64::MAX || offset + len > e.capacity {
                Some(ViewRequestError::OutOfBounds { id, offset, len, capacity: e.capacity as u64 })
            } else if alignment > 0 && offset % alignment != 0 {
                Some(ViewRequestError::Misaligned { id, offset, alignment })
            } else {
                None
            }
        },
        ViewSelector::Rows { start, count } => match e.layout.spec_dimensions_2d() {
            None => Some(ViewRequestError::RowsRequiresDense2D { id }),
            Some((width, height)) => if height > u32::MAX {
                Some(
                    ViewRequestError::LayoutMetadata {
                        id,
                        source: LayoutError::ChunkedDimensionTooLarge {
                            field: LayoutField::Height,
                            value: height,
                        },
                    },
                )
            } else if start + count > u32::MAX {
                Some(ViewRequestError::RowsEndOverflow { id, start, count })
            } else if start + count > height {
                Some(ViewRequestError::RowsOutOfBounds { id, start, count, height: height as u32 })
            } else {
                None
            },
        },
        ViewSelector::Chunks { ids } => match chunks {
            None => Some(ViewRequestError::ChunksRequiresChunkedLayout { id }),
            Some(info) => match first_chunk_out(ids@, info) {
                Some(i) => Some(
                    ViewRequestError::ChunkOutOfBounds {
                        id,
                        chunk: ids@[i],
                        chunks_x: info.chunks_x,
                        chunks_y: info.chunks_y,
                    },
                ),
                None => None,
            },
        },
        ViewSelector::Summary { kind } => {
            let element = e.layout.spec_element_type();
            if element == ElementType::Bytes {
                Some(ViewRequestError::SummaryRequiresTypedLayout { id })
            } else if !kind.spec_compatible_with(element) {
                Some(ViewRequestError::SummaryIncompatible { id, kind, element })
            } else {
                None
            }
        },
        ViewSelector::EventCandidates { .. } => if e.layout.spec_event_ring_info() is None {
            Some(ViewRequestError::EventCandidatesRequiresEventRing { id })
        } else {
            None
        },
    }
}

/// The number of bytes a view of resource `e` is expected to download.
pub open spec fn estimate_download(
    e: ResourceEntry,
    chunks: Option<ChunkedLayoutInfo>,
    id: ResourceId,
    sel: ViewSelector,
) -> Result<int, ViewRequestError> {
    match sel {
        ViewSelector::Diagnostics => Ok(
            match e.diagnostics {
                Some(d) => d.layout.spec_byte_size() as int,
                None => 0,
            },
        ),
        ViewSelector::Range { len, .. } => Ok(len as int),
        ViewSelector::Full => Ok(e.capacity),
        ViewSelector::Rows { count, .. } => match e.layout.spec_dimensions_2d() {
            None => Err(ViewRequestError::RowsRequiresDense2D { id }),
            Some((width, _)) => match then_mul(mul_fits(count as int, width as int), e.layout.spec_element_size() as int) {
                None => Err(ViewRequestError::DownloadEstimateOverflow { id }),
                Some(b) => Ok(b),
            },
        },
        ViewSelector::Chunks { ids } => match chunks {
            None => Err(ViewRequestError::ChunksRequiresChunkedLayout { id }),
            Some(info) => match info.spec_chunk_size() {
                None => Err(
                    ViewRequestError::LayoutMetadata {
                        id,
                        source: LayoutError::ByteSizeOverflow { layout: LayoutKind::Chunked2D },
                    },
                ),
                Some(size) => match mul_fits(ids@.len() as int, size) {
                    None => Err(ViewRequestError::DownloadEstimateOverflow { id }),
                    Some(b) => Ok(b),
                },
            },
        },
        ViewSelector::Summary { kind } => Ok(kind.spec_result_size_bytes() as int),
        ViewSelector::EventCandidates { max_records } => match e.layout.spec_event_ring_info() {
            None => Err(ViewRequestError::EventCandidatesRequiresEventRing { id }),
            Some((size, count)) => match mul_fits(min3(max_records as int, e.event_head, count as int), size as int) {
                None => Err(ViewRequestError::DownloadEstimateOverflow { id }),
                Some(b) => Ok(b),
            },
        },
    }
}

/// Smallest power of two `>= n`, searching upward from `p`.
pub open spec fn ceil_pow2_from(p: int, n: int) -> int
    decreases if p < n { n - p } else { 0 },
{
    if p <= 0 || p >= n {
        p
    } else {
        ceil_pow2_from(2 * p, n)
    }
}

/// Smallest power of two that is at least `n` (`1` for `n <= 1`).
pub open spec fn ceil_pow2(n: int) -> int {
    ceil_pow2_from(1, n)
}

/// Whether a patch or event record of type `actual` may target a resource of
/// type `expected`: equal types, or raw bytes on either side.
pub open spec fn spec_type_compatible(expected: ElementType, actual: ElementType) -> bool {
    expected == actual || expected == ElementType::Bytes || actual == ElementType::Bytes
}

/// The upload of `bytes` at `byte_offset`, or none when `bytes` is empty.
pub open spec fn upload_if_nonempty(id: Seq<char>, byte_offset: int, bytes: Seq<u8>, generation: int) -> Seq<UploadView> {
    if bytes.len() > 0 {
        seq![UploadView { resource: id, byte_offset, bytes, generation }]
    } else {
        Seq::empty()
    }
}

/// Total byte length of a sequence of uploads.
pub open spec fn upload_bytes(ups: Seq<UploadView>) -> int
    decreases ups.len(),
{
    if ups.len() == 0 {
        0
    } else {
        upload_bytes(ups.drop_last()) + ups.last().bytes.len()
    }
}

/// The warning a plan of `uploaded` and `downloaded` bytes earns against
/// `budget`: none without a budget or within it.
pub open spec fn budget_warnings(budget: Option<TransferBudget>, uploaded: int, downloaded: int) -> Seq<SyncWarning> {
    match budget {
        Some(b) => if uploaded > b.upload_bytes_per_cycle || downloaded > b.download_bytes_per_cycle {
            seq![SyncWarning::TransferBudgetExceeded { uploaded: uploaded as u64, downloaded: downloaded as u64 }]
        } else {
            Seq::empty()
        },
        None => Seq::empty(),
    }
}

/// `min(a, min(b, c))`.
pub open spec fn min3(a: int, b: int, c: int) -> int {
    let m = if b < c { b } else { c };
    if a < m { a } else { m }
}

impl ResourceEntry {
    /// Whether the entry's numbers fit their machine integers.
    pub open spec fn fits(self) -> bool {
        &&& 0 <= self.generation <= u64::MAX
        &&& 0 <= self.capacity <= u64::MAX
        &&& 0 <= self.event_head <= u64::MAX
    }

    /// Layout invariants that registration establishes.
    pub open spec fn layout_ok(self) -> bool {
        &&& self.layout.spec_checked_byte_size() is Some
        &&& (self.layout matches ResourceLayout::EventRing { record_count, .. } ==> record_count > 0)
        &&& (self.layout matches ResourceLayout::RawBytes { alignment, .. } ==> alignment > 0)
    }

    /// The entry for a newly registered resource.
    pub open spec fn registered(desc: ResourceDesc, capacity: int) -> ResourceEntry {
        ResourceEntry {
            id: desc.id@,
            layout: desc.layout,
            contract: desc.contract,
            diagnostics: desc.diagnostics,
            generation: 0,
            capacity,
            has_initial_upload: false,
            event_head: 0,
        }
    }
}

impl GraphView {
    /// The model of an empty graph.
    pub open spec fn empty() -> GraphView {
        GraphView {
            resources: Seq::empty(),
            pending_uploads: Seq::empty(),
            pending_resizes: Seq::empty(),
            pending_warnings: Seq::empty(),
            pending_download_estimate: 0,
            budget: None,
            report: ReportView::empty(),
        }
    }

    /// Registered identifiers are unique and every layout is well formed.
    pub open spec fn wf(self) -> bool {
        &&& forall|i: int, j: int|
            0 <= i < j < self.resources.len() ==> self.resources[i].id != self.resources[j].id
        &&& forall|i: int| 0 <= i < self.resources.len() ==> (#[trigger] self.resources[i]).layout_ok()
    }

    /// Whether every number in the model fits its machine integer.
    pub open spec fn fits(self) -> bool {
        &&& forall|i: int| 0 <= i < self.resources.len() ==> (#[trigger] self.resources[i]).fits()
        &&& 0 <= self.pending_download_estimate <= u64::MAX
        &&& self.report.fits()
    }

    /// Whether a resource with this identifier is registered.
    pub open spec fn has(self, id: Seq<char>) -> bool {
        exists|i: int| 0 <= i < self.resources.len() && self.resources[i].id == id
    }

    /// Position of the resource with this identifier.
    pub open spec fn index_of(self, id: Seq<char>) -> int {
        choose|i: int| 0 <= i < self.resources.len() && self.resources[i].id == id
    }

    /// The resource with this identifier.
    pub open spec fn entry(self, id: Seq<char>) -> ResourceEntry {
        self.resources[self.index_of(id)]
    }

    /// The model with the resource `id` replaced by `e`.
    pub open spec fn set_entry(self, id: Seq<char>, e: ResourceEntry) -> GraphView {
        GraphView { resources: self.resources.update(self.index_of(id), e), ..self }
    }

    /// The model with a warning recorded both for the next plan and in the
    /// running report.
    pub open spec fn warn(self, w: SyncWarning) -> GraphView {
        GraphView {
            pending_warnings: self.pending_warnings.push(w),
            report: self.report.warn(w),
            ..self
        }
    }

    /// The model with several warnings recorded in order.
    pub open spec fn warn_all(self, ws: Seq<SyncWarning>) -> GraphView {
        GraphView {
            pending_warnings: self.pending_warnings + ws,
            report: ReportView { warnings: self.report.warnings + ws, ..self.report },
            ..self
        }
    }

    /// The model after `plan_transfers`: the queues are drained, the download
    /// estimate is reset, and a budget warning (if any) enters the report.
    pub open spec fn planned(self) -> GraphView {
        GraphView {
            pending_uploads: Seq::empty(),
            pending_resizes: Seq::empty(),
            pending_warnings: Seq::empty(),
            pending_download_estimate: 0,
            report: ReportView {
                warnings: self.report.warnings + budget_warnings(
                    self.budget,
                    upload_bytes(self.pending_uploads),
                    self.pending_download_estimate,
                ),
                ..self.report
            },
            ..self
        }
    }

    /// What `register` does.
    pub open spec fn register_outcome(self, desc: ResourceDesc) -> (GraphView, Result<ResourceId, RegisterError>) {
        let id = desc.id;
        if self.has(id@) {
            (self, Err(RegisterError::DuplicateId { id }))
        } else if desc.layout matches ResourceLayout::RawBytes { alignment, .. } && alignment == 0 {
            (self, Err(RegisterError::InvalidAlignment { id }))
        } else if desc.layout matches ResourceLayout::EventRing { record_count, .. } && record_count == 0 {
            (self, Err(RegisterError::LayoutMetadata { id, source: LayoutError::EmptyEventRing }))
        } else if desc.contract.contradictory() {
            (
                self,
                Err(
                    RegisterError::InvalidContract {
                        id,
                        source: ContractError::CpuAuthoritativeWithoutUploads,
                    },
                ),
            )
        } else if desc.contract.readback == ReadbackPolicy::DiagnosticsOnly && desc.diagnostics is None {
            (self, Err(RegisterError::DiagnosticsPolicyWithoutAttachment { id }))
        } else if desc.diagnostics matches Some(d) && d.layout.spec_byte_size() > d.max_bytes {
            let d = desc.diagnostics.unwrap();
            let bytes = d.layout.spec_byte_size();
            (
                self.warn(
                    SyncWarning::DiagnosticsTooLarge { resource: id, bytes, max_bytes: d.max_bytes },
                ),
                Err(RegisterError::DiagnosticsTooLarge { id, bytes, max_bytes: d.max_bytes }),
            )
        } else {
            let linted = self.warn_all(
                desc.contract.lints().map_values(
                    |l| SyncWarning::ContractLint { resource: id, lint: l },
                ),
            );
            match desc.layout.spec_checked_byte_size() {
                None => (
                    linted,
                    Err(
                        RegisterError::LayoutMetadata {
                            id,
                            source: LayoutError::ByteSizeOverflow { layout: desc.layout.kind() },
                        },
                    ),
                ),
                Some(capacity) => (
                    GraphView {
                        resources: linted.resources.push(ResourceEntry::registered(desc, capacity)),
                        ..linted
                    },
                    Ok(id),
                ),
            }
        }
    }

    /// What a patch of `len` bytes at `byte_offset` does to resource `e`.
    pub open spec fn patch_decision(e: ResourceEntry, byte_offset: u64, len: int) -> PatchDecision {
        let alignment = e.layout.spec_alignment();
        let required = byte_offset + len;
        if e.contract.upload == UploadPolicy::Deny {
            PatchDecision::Denied
        } else if e.contract.upload == UploadPolicy::InitialOnly && e.has_initial_upload {
            PatchDecision::InitialConsumed
        } else if alignment > 0 && byte_offset % alignment != 0 {
            PatchDecision::Misaligned
        } else if required > u64::MAX {
            PatchDecision::EndOverflow
        } else if required > e.capacity {
            match e.contract.resize {
                ResizePolicy::Fixed => PatchDecision::OutOfBoundsFixed,
                ResizePolicy::ExternalManaged => PatchDecision::ExternalResize,
                ResizePolicy::GrowPowerOfTwo { max_bytes } => {
                    let grown = ceil_pow2(required);
                    if grown > u64::MAX {
                        PatchDecision::CapacityOverflow
                    } else if max_bytes matches Some(cap) && grown > cap {
                        PatchDecision::ExceedsMax(max_bytes.unwrap())
                    } else {
                        PatchDecision::Accept(Some(grown))
                    }
                },
            }
        } else {
            PatchDecision::Accept(None)
        }
    }

    /// The model after an accepted patch: the resource grows (if `resize`),
    /// its generation advances once per resize and once for the upload, and
    /// the resize and the upload are queued.
    pub open spec fn accept_patch(
        self,
        resource: ResourceId,
        byte_offset: u64,
        bytes: Seq<u8>,
        resize: Option<int>,
    ) -> GraphView {
        let e = self.entry(resource@);
        let base = if resize is Some { e.generation + 1 } else { e.generation };
        let new_e = ResourceEntry {
            generation: base + 1,
            capacity: if resize is Some { resize.unwrap() } else { e.capacity },
            has_initial_upload: e.has_initial_upload || e.contract.upload == UploadPolicy::InitialOnly,
            ..e
        };
        let v1 = self.set_entry(resource@, new_e);
        let v2 = if resize is Some {
            GraphView {
                pending_resizes: v1.pending_resizes.push(
                    ResizeView {
                        resource: resource@,
                        old_size: e.capacity,
                        new_size: resize.unwrap(),
                        generation: e.generation + 1,
                    },
                ),
                report: ReportView {
                    reallocations: v1.report.reallocations + 1,
                    bytes_reallocated: v1.report.bytes_reallocated + (resize.unwrap() - e.capacity),
                    ..v1.report
                },
                ..v1
            }
        } else {
            v1
        };
        GraphView {
            pending_uploads: v2.pending_uploads.push(
                UploadView { resource: resource@, byte_offset: byte_offset as int, bytes, generation: base + 1 },
            ),
            ..v2
        }
    }

    /// What submitting `bytes` at `byte_offset` to `resource` does, once the
    /// element types were found compatible.
    pub open spec fn patch_outcome(self, resource: ResourceId, byte_offset: u64, bytes: Seq<u8>) -> (GraphView, Result<Generation, SubmitPatchError>) {
        let id = resource;
        if !self.has(id@) {
            (self, Err(SubmitPatchError::UnknownResource { id }))
        } else {
            let e = self.entry(id@);
            let required = byte_offset + bytes.len();
            match GraphView::patch_decision(e, byte_offset, bytes.len() as int) {
                PatchDecision::Denied => (
                    self.warn(SyncWarning::UploadPolicyViolation { resource: id }),
                    Err(SubmitPatchError::UploadDenied { id }),
                ),
                PatchDecision::InitialConsumed => (
                    self.warn(SyncWarning::UploadPolicyViolation { resource: id }),
                    Err(SubmitPatchError::InitialUploadConsumed { id }),
                ),
                PatchDecision::Misaligned => (
                    self,
                    Err(
                        SubmitPatchError::Misaligned {
                            id,
                            offset: byte_offset,
                            alignment: e.layout.spec_alignment(),
                        },
                    ),
                ),
                PatchDecision::EndOverflow => (
                    self,
                    Err(
                        SubmitPatchError::PatchEndOverflow {
                            id,
                            offset: byte_offset,
                            len: bytes.len() as u64,
                        },
                    ),
                ),
                PatchDecision::OutOfBoundsFixed => (
                    self,
                    Err(
                        SubmitPatchError::OutOfBoundsFixed {
                            id,
                            required: required as u64,
                            capacity: e.capacity as u64,
                        },
                    ),
                ),
                PatchDecision::ExternalResize => (
                    self.warn(
                        SyncWarning::ResizeRequired {
                            resource: id,
                            old_size: e.capacity as u64,
                            required_size: required as u64,
                        },
                    ),
                    Err(
                        SubmitPatchError::ExternalResizeRequired {
                            id,
                            required: required as u64,
                            capacity: e.capacity as u64,
                        },
                    ),
                ),
                PatchDecision::CapacityOverflow => (
                    self,
                    Err(SubmitPatchError::ResizeCapacityOverflow { id, required: required as u64 }),
                ),
                PatchDecision::ExceedsMax(cap) => (
                    self.warn(
                        SyncWarning::ResizeRequired {
                            resource: id,
                            old_size: e.capacity as u64,
                            required_size: required as u64,
                        },
                    ),
                    Err(
                        SubmitPatchError::GrowExceedsMax {
                            id,
                            required: required as u64,
                            max_bytes: cap,
                        },
                    ),
                ),
                PatchDecision::Accept(resize) => {
                    let after = self.accept_patch(id, byte_offset, bytes, resize);
                    (after, Ok(Generation(after.entry(id@).generation as u64)))
                },
            }
        }
    }

    /// Whether accepting a patch of `len` bytes at `byte_offset` to resource
    /// `id` keeps its generation and the report's counters in range.
    pub open spec fn patch_fits(self, id: Seq<char>, byte_offset: u64, len: int) -> bool {
        self.has(id) ==> {
            let e = self.entry(id);
            match GraphView::patch_decision(e, byte_offset, len) {
                PatchDecision::Accept(None) => e.generation + 1 <= u64::MAX,
                PatchDecision::Accept(Some(grown)) => {
                    &&& e.generation + 2 <= u64::MAX
                    &&& self.report.reallocations + 1 <= usize::MAX
                    &&& self.report.bytes_reallocated + (grown - e.capacity) <= u64::MAX
                },
                _ => true,
            }
        }
    }

    /// What `submit_untyped_patch` does with a patch of `bytes` of type
    /// `element` at `byte_offset`.
    pub open spec fn untyped_patch_outcome(
        self,
        resource: ResourceId,
        element: ElementType,
        byte_offset: u64,
        bytes: Seq<u8>,
    ) -> (GraphView, Result<Generation, SubmitPatchError>) {
        if !self.has(resource@) {
            (self, Err(SubmitPatchError::UnknownResource { id: resource }))
        } else {
            let expected = self.entry(resource@).layout.spec_element_type();
            if !spec_type_compatible(expected, element) {
                (self, Err(SubmitPatchError::ElementTypeMismatch { id: resource, expected, actual: element }))
            } else {
                self.patch_outcome(resource, byte_offset, bytes)
            }
        }
    }

    /// What `submit_typed_patch` does with elements of type `element`, encoded
    /// as `bytes`, written from element `offset_elements` on.
    pub open spec fn typed_patch_outcome(
        self,
        resource: ResourceId,
        element: ElementType,
        offset_elements: u64,
        bytes: Seq<u8>,
    ) -> (GraphView, Result<Generation, SubmitPatchError>) {
        if !self.has(resource@) {
            (self, Err(SubmitPatchError::UnknownResource { id: resource }))
        } else {
            let expected = self.entry(resource@).layout.spec_element_type();
            let size = element.spec_size_bytes();
            if !spec_type_compatible(expected, element) {
                (self, Err(SubmitPatchError::ElementTypeMismatch { id: resource, expected, actual: element }))
            } else if offset_elements * size > u64::MAX {
                (
                    self,
                    Err(
                        SubmitPatchError::PatchBuild {
                            id: resource,
                            source: PatchBuildError::OffsetOverflow { offset_elements, element_size: size },
                        },
                    ),
                )
            } else {
                self.patch_outcome(resource, (offset_elements * size) as u64, bytes)
            }
        }
    }

    /// What a GPU mutation report does.
    pub open spec fn gpu_mutation_outcome(self, id: ResourceId) -> (GraphView, Result<Generation, AuthorityError>) {
        if !self.has(id@) {
            (self, Err(AuthorityError::UnknownResource { id }))
        } else if self.entry(id@).contract.authority != Authority::GpuAuthoritative {
            (
                self.warn(SyncWarning::AuthorityConflict { resource: id }),
                Err(AuthorityError::NotGpuAuthoritative { id }),
            )
        } else {
            let e = self.entry(id@);
            let after = self.set_entry(id@, ResourceEntry { generation: e.generation + 1, ..e });
            (after, Ok(Generation((e.generation + 1) as u64)))
        }
    }

    /// Whether appending `n` records of type `element` to resource `id` can
    /// run to its end: the bytes to drop and the split point of a wrapping
    /// write lie within the encoded records, and the generation can advance.
    pub open spec fn event_safe(self, id: Seq<char>, element: ElementType, n: int) -> bool {
        self.has(id) ==> {
            let e = self.entry(id);
            match e.layout.spec_event_ring_info() {
                None => true,
                Some((size, count)) => {
                    let len = n * element.spec_size_bytes();
                    let dropped = if n > count { n - count } else { 0 };
                    let kept = n - dropped;
                    let start = (e.event_head + dropped) % (count as int);
                    let proceeds = spec_type_compatible(e.layout.spec_element_type(), element)
                        && e.contract.upload != UploadPolicy::Deny && !(e.contract.upload
                        == UploadPolicy::InitialOnly && e.has_initial_upload);
                    let trims = dropped * size <= usize::MAX;
                    let wraps = start + kept > count;
                    let splits = (count - start) * size <= usize::MAX;
                    let head_fits = e.event_head + n <= u64::MAX && start + kept <= u64::MAX;
                    proceeds ==> {
                        &&& trims ==> dropped * size <= len
                        &&& trims && head_fits && wraps && splits ==> (count - start) * size <= len
                            - dropped * size
                        &&& trims && head_fits && (wraps ==> splits) ==> e.generation < u64::MAX
                    }
                },
            }
        }
    }

    /// What appending `n` records of type `element`, encoded as `enc`, to the
    /// event ring `id` does.
    ///
    /// When more than `count` records arrive, the oldest are dropped (and the
    /// drop is warned); the rest are written from the ring's logical head on,
    /// wrapping to the ring's start, as one or two uploads.
    pub open spec fn event_outcome(
        self,
        id: ResourceId,
        element: ElementType,
        n: int,
        enc: Seq<u8>,
    ) -> (GraphView, Result<Generation, SubmitEventError>) {
        if !self.has(id@) {
            (self, Err(SubmitEventError::UnknownResource { id }))
        } else {
            let e = self.entry(id@);
            match e.layout.spec_event_ring_info() {
                None => (self, Err(SubmitEventError::NotEventRing { id })),
                Some((size, count)) => {
                    let expected = e.layout.spec_element_type();
                    let dropped = if n > count { n - count } else { 0 };
                    let kept = n - dropped;
                    let head = e.event_head;
                    let start = (head + dropped) % (count as int);
                    if !spec_type_compatible(expected, element) {
                        (self, Err(SubmitEventError::ElementTypeMismatch { id, expected, actual: element }))
                    } else if e.contract.upload == UploadPolicy::Deny {
                        (
                            self.warn(SyncWarning::UploadPolicyViolation { resource: id }),
                            Err(SubmitEventError::UploadDenied { id }),
                        )
                    } else if e.contract.upload == UploadPolicy::InitialOnly && e.has_initial_upload {
                        (
                            self.warn(SyncWarning::UploadPolicyViolation { resource: id }),
                            Err(SubmitEventError::InitialUploadConsumed { id }),
                        )
                    } else if dropped * size > usize::MAX {
                        (
                            self,
                            Err(SubmitEventError::EventHeadOverflow { id, head: dropped as u64, increment: size }),
                        )
                    } else if head + dropped > u64::MAX {
                        (
                            self,
                            Err(
                                SubmitEventError::EventHeadOverflow {
                                    id,
                                    head: head as u64,
                                    increment: dropped as u64,
                                },
                            ),
                        )
                    } else if head + dropped + kept > u64::MAX {
                        (
                            self,
                            Err(
                                SubmitEventError::EventHeadOverflow {
                                    id,
                                    head: (head + dropped) as u64,
                                    increment: kept as u64,
                                },
                            ),
                        )
                    } else if start + kept > u64::MAX {
                        (
                            self,
                            Err(
                                SubmitEventError::EventHeadOverflow {
                                    id,
                                    head: start as u64,
                                    increment: kept as u64,
                                },
                            ),
                        )
                    } else if start + kept > count && (count - start) * size > usize::MAX {
                        (
                            self,
                            Err(
                                SubmitEventError::EventHeadOverflow {
                                    id,
                                    head: (count - start) as u64,
                                    increment: size,
                                },
                            ),
                        )
                    } else {
                        let kept_bytes = enc.skip(dropped * size);
                        let new_gen = e.generation + 1;
                        let uploads = if start + kept <= count {
                            upload_if_nonempty(id@, start * size, kept_bytes, new_gen)
                        } else {
                            let split = (count - start) * size;
                            upload_if_nonempty(id@, start * size, kept_bytes.take(split), new_gen)
                                + upload_if_nonempty(id@, 0, kept_bytes.skip(split), new_gen)
                        };
                        let new_e = ResourceEntry {
                            generation: new_gen,
                            event_head: head + dropped + kept,
                            has_initial_upload: e.has_initial_upload || e.contract.upload
                                == UploadPolicy::InitialOnly,
                            ..e
                        };
                        let v1 = self.set_entry(id@, new_e);
                        let v2 = GraphView { pending_uploads: v1.pending_uploads + uploads, ..v1 };
                        let v3 = if dropped > 0 {
                            v2.warn(SyncWarning::EventRingOverflow { resource: id, dropped: dropped as u64 })
                        } else {
                            v2
                        };
                        (v3, Ok(Generation(new_gen as u64)))
                    }
                },
            }
        }
    }

    /// The model after a view was denied by policy: a warning is recorded and
    /// the denied-view counter advances.
    pub open spec fn deny(self, id: ResourceId) -> GraphView {
        let warned = self.warn(SyncWarning::ReadbackPolicyViolation { resource: id });
        GraphView {
            report: ReportView { denied_views: warned.report.denied_views + 1, ..warned.report },
            ..warned
        }
    }

    /// What `request_view` does.
    pub open spec fn view_outcome(self, req: ViewRequest) -> (GraphView, Result<PlannedReadback, ViewRequestError>) {
        let id = req.resource;
        if !self.has(id@) {
            (self, Err(ViewRequestError::UnknownResource { id }))
        } else {
            let e = self.entry(id@);
            match e.layout.spec_chunked_info() {
                Err(source) => (self, Err(ViewRequestError::LayoutMetadata { id, source })),
                Ok(chunks) => match policy_denial(e.contract.readback, req.selector, req.freshness) {
                    Some(Denial::Denied) => (self.deny(id), Err(ViewRequestError::ReadbackDenied { id })),
                    Some(Denial::DiagnosticsOnly) => (
                        self.deny(id),
                        Err(ViewRequestError::DiagnosticsOnly { id, selector: req.selector }),
                    ),
                    Some(Denial::SnapshotOnly) => (self.deny(id), Err(ViewRequestError::SnapshotOnly { id })),
                    None => match selector_error(e, chunks, id, req.selector) {
                        Some(err) => (self, Err(err)),
                        None => {
                            let full = req.selector is Full;
                            let v1 = if full && req.freshness != Freshness::Snapshot {
                                self.warn(
                                    SyncWarning::FullReadbackRequested { resource: id, reason: req.reason },
                                )
                            } else {
                                self
                            };
                            if !req.freshness.satisfied_by(e.generation as u64) {
                                (
                                    v1,
                                    Err(
                                        ViewRequestError::FreshnessUnavailable {
                                            id,
                                            requested: req.freshness,
                                            current: Generation(e.generation as u64),
                                        },
                                    ),
                                )
                            } else {
                                let v1x = if req.freshness is ExactGeneration {
                                    v1.warn(
                                        SyncWarning::ExactFreshnessMayStall { resource: id, requested: req.freshness },
                                    )
                                } else {
                                    v1
                                };
                                let v2 = if full && req.freshness == Freshness::Snapshot {
                                    GraphView {
                                        report: ReportView { full_snapshots: v1x.report.full_snapshots + 1, ..v1x.report },
                                        ..v1x
                                    }
                                } else {
                                    v1x
                                };
                                match estimate_download(e, chunks, id, req.selector) {
                                    Err(err) => (v2, Err(err)),
                                    Ok(est) => if v2.pending_download_estimate + est > u64::MAX {
                                        (v2, Err(ViewRequestError::DownloadEstimateOverflow { id }))
                                    } else {
                                        (
                                            GraphView {
                                                pending_download_estimate: v2.pending_download_estimate + est,
                                                report: ReportView {
                                                    readbacks_requested: v2.report.readbacks_requested + 1,
                                                    ..v2.report
                                                },
                                                ..v2
                                            },
                                            Ok(
                                                PlannedReadback {
                                                    resource: id,
                                                    selector: req.selector,
                                                    freshness: req.freshness,
                                                    reason: req.reason,
                                                    event_head: if req.selector is EventCandidates {
                                                        Some(e.event_head as u64)
                                                    } else {
                                                        None
                                                    },
                                                },
                                            ),
                                        )
                                    },
                                }
                            }
                        },
                    },
                },
            }
        }
    }
}

} // verus!
