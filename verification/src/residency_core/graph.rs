//! `SyncGraph` — the central registry, planner, and report aggregator.

use vstd::prelude::*;

use crate::residency_core::backend::BackendSubmission;
use crate::residency_core::contract::{Authority, ReadbackPolicy, SyncContract};
use crate::residency_core::diagnostics::DiagnosticAttachment;
use crate::residency_core::generation::Generation;
use crate::residency_core::bytes::encodes_words;
use crate::residency_core::patch::{encodes, Patch, PodElement, TypedPatch};
use crate::residency_core::plan::{ResizeOp, ResizeView, TransferPlan, UploadOp, UploadView};
use crate::residency_core::report::{ReportView, SyncWarning, TransferReport};
use crate::residency_core::resource::{LayoutError, ResourceDesc, ResourceId, ResourceLayout};

mod errors;
mod event_ops;
mod model;
mod patch_ops;
mod view_ops;

pub use errors::{
    AuthorityError, RegisterError, SubmitEventError, SubmitPatchError, ViewRequestError,
};
pub use model::{
    ceil_pow2, ceil_pow2_from, estimate_download, first_chunk_out, is_first_chunk_out, min3,
    upload_if_nonempty, upload_bytes, budget_warnings,
    policy_denial, selector_error, spec_type_compatible, Denial, GraphView, PatchDecision,
    ResourceEntry, TransferBudget,
};
pub use patch_ops::{next_power_of_two, type_compatible};

verus! {

pub(crate) struct ResourceState {
    pub(crate) id: ResourceId,
    pub(crate) layout: ResourceLayout,
    pub(crate) contract: SyncContract,
    pub(crate) diagnostics: Option<DiagnosticAttachment>,
    pub(crate) current_generation: Generation,
    pub(crate) capacity_bytes: u64,
    pub(crate) has_initial_upload: bool,
    pub(crate) event_head: u64,
}

impl View for ResourceState {
    type V = ResourceEntry;

    closed spec fn view(&self) -> ResourceEntry {
        ResourceEntry {
            id: self.id@,
            layout: self.layout,
            contract: self.contract,
            diagnostics: self.diagnostics,
            generation: self.current_generation.0 as int,
            capacity: self.capacity_bytes as int,
            has_initial_upload: self.has_initial_upload,
            event_head: self.event_head as int,
        }
    }
}

/// The central object that holds resource state and produces transfer plans.
pub struct SyncGraph {
    resources: Vec<ResourceState>,
    pending_uploads: Vec<UploadOp>,
    pending_resizes: Vec<ResizeOp>,
    pending_warnings: Vec<SyncWarning>,
    pending_download_estimate: u64,
    budget: Option<TransferBudget>,
    report: TransferReport,
}

impl View for SyncGraph {
    type V = GraphView;

    closed spec fn view(&self) -> GraphView {
        GraphView {
            resources: self.resources@.map_values(|s: ResourceState| s@),
            pending_uploads: self.pending_uploads@.map_values(|u: UploadOp| u@),
            pending_resizes: self.pending_resizes@.map_values(|r: ResizeOp| r@),
            pending_warnings: self.pending_warnings@,
            pending_download_estimate: self.pending_download_estimate as int,
            budget: self.budget,
            report: self.report@,
        }
    }
}

/// The model of a graph, field by field.
proof fn reveal_view(g: &SyncGraph)
    ensures
        g@.resources == g.resources@.map_values(|s: ResourceState| s@),
        g@.pending_uploads == g.pending_uploads@.map_values(|u: UploadOp| u@),
        g@.pending_resizes == g.pending_resizes@.map_values(|r: ResizeOp| r@),
        g@.pending_warnings == g.pending_warnings@,
        g@.pending_download_estimate == g.pending_download_estimate as int,
        g@.budget == g.budget,
        g@.report == g.report@,
{
}

/// The byte total of a prefix grows by the prefix's last upload and never
/// exceeds the total of the whole sequence.
proof fn lemma_upload_bytes_prefix(ups: Seq<UploadView>, k: int)
    requires
        0 < k <= ups.len(),
    ensures
        upload_bytes(ups.take(k)) == upload_bytes(ups.take(k - 1)) + ups[k - 1].bytes.len(),
        upload_bytes(ups.take(k)) <= upload_bytes(ups),
    decreases ups.len() - k,
{
    assert(ups.take(k).drop_last() =~= ups.take(k - 1));
    if k < ups.len() {
        lemma_upload_bytes_prefix(ups, k + 1);
    } else {
        assert(ups.take(k) =~= ups);
    }
}

impl SyncGraph {
    /// Position `i` holds resource `id` in a well-formed model exactly when
    /// `index_of` says so.
    proof fn lemma_index(v: GraphView, i: int, id: Seq<char>)
        requires
            v.wf(),
            0 <= i < v.resources.len(),
            v.resources[i].id == id,
        ensures
            v.has(id),
            v.index_of(id) == i,
    {
        let j = v.index_of(id);
        assert(v.resources[j].id == id);
        if j != i {
            if j < i {
                assert(v.resources[j].id != v.resources[i].id);
            } else {
                assert(v.resources[i].id != v.resources[j].id);
            }
        }
    }

    /// Finds the position of a registered resource.
    fn find(&self, id: &ResourceId) -> (r: Option<usize>)
        requires
            self@.wf(),
        ensures
            r matches Some(i) ==> self@.has(id@) && self@.index_of(id@) == i && i < self.resources@.len(),
            r is None ==> !self@.has(id@),
    {
        proof {
            reveal_view(self);
        }
        let mut i: usize = 0;
        while i < self.resources.len()
            invariant
                i <= self.resources@.len(),
                self@.wf(),
                self@.resources == self.resources@.map_values(|s: ResourceState| s@),
                forall|j: int| 0 <= j < i ==> self.resources@[j].id@ != id@,
            decreases self.resources@.len() - i,
        {
            if self.resources[i].id.same_as(id) {
                proof {
                    Self::lemma_index(self@, i as int, id@);
                }
                return Some(i);
            }
            i = i + 1;
        }
        proof {
            if self@.has(id@) {
                let k = choose|k: int| 0 <= k < self@.resources.len() && self@.resources[k].id == id@;
                assert(self.resources@[k].id@ == id@);
            }
        }
        None
    }

    /// Creates an empty synchronization graph with no transfer budget.
    pub fn new() -> (g: SyncGraph)
        ensures
            g@ == GraphView::empty(),
    {
        let g = SyncGraph {
            resources: Vec::new(),
            pending_uploads: Vec::new(),
            pending_resizes: Vec::new(),
            pending_warnings: Vec::new(),
            pending_download_estimate: 0,
            budget: None,
            report: TransferReport::default(),
        };
        proof {
            reveal_view(&g);
            assert(g@.resources =~= Seq::<ResourceEntry>::empty());
            assert(g@.pending_uploads =~= Seq::<UploadView>::empty());
            assert(g@.pending_resizes =~= Seq::<crate::residency_core::plan::ResizeView>::empty());
        }
        g
    }

    /// Builder-style: configure a transfer budget at construction.
    pub fn with_budget(self, budget: TransferBudget) -> (g: SyncGraph)
        ensures
            g@ == (GraphView { budget: Some(budget), ..self@ }),
    {
        let mut g = self;
        g.budget = Some(budget);
        proof {
            reveal_view(&g);
            reveal_view(&self);
        }
        g
    }

    /// Set or replace the transfer budget. Pass `None` to disable budget
    /// checks entirely.
    pub fn set_budget(&mut self, budget: Option<TransferBudget>)
        ensures
            final(self)@ == (GraphView { budget, ..old(self)@ }),
    {
        self.budget = budget;
        proof {
            reveal_view(self);
            reveal_view(old(self));
        }
    }

    /// Currently configured transfer budget, if any.
    pub fn budget(&self) -> (b: Option<TransferBudget>)
        ensures
            b == self@.budget,
    {
        proof {
            reveal_view(self);
        }
        self.budget
    }

    /// Replaces the mutable fields of the resource at position `i`.
    fn update_entry(&mut self, i: usize, generation: u64, capacity: u64, has_initial_upload: bool, event_head: u64)
        requires
            i < old(self)@.resources.len(),
        ensures
            final(self)@ == (GraphView {
                resources: old(self)@.resources.update(
                    i as int,
                    ResourceEntry {
                        generation: generation as int,
                        capacity: capacity as int,
                        has_initial_upload,
                        event_head: event_head as int,
                        ..old(self)@.resources[i as int]
                    },
                ),
                ..old(self)@
            }),
    {
        proof {
            reveal_view(self);
        }
        let st = ResourceState {
            id: self.resources[i].id.clone_id(),
            layout: self.resources[i].layout,
            contract: self.resources[i].contract,
            diagnostics: self.resources[i].diagnostics,
            current_generation: Generation(generation),
            capacity_bytes: capacity,
            has_initial_upload,
            event_head,
        };
        self.resources.set(i, st);
        proof {
            reveal_view(self);
            reveal_view(old(self));
            assert(self@.resources =~= old(self)@.resources.update(
                i as int,
                ResourceEntry {
                    generation: generation as int,
                    capacity: capacity as int,
                    has_initial_upload,
                    event_head: event_head as int,
                    ..old(self)@.resources[i as int]
                },
            ));
        }
    }

    /// Every number in the model fits its machine integer, as the graph holds
    /// it in machine integers.
    pub proof fn lemma_view_fits(&self)
        ensures
            self@.fits(),
    {
        assert forall|i: int| 0 <= i < self@.resources.len() implies (#[trigger] self@.resources[i]).fits() by {
            assert(self@.resources[i] == self.resources@[i]@);
        }
    }

    /// Records a warning both for the next plan and in the running report.
    fn push_warning(&mut self, warn: SyncWarning)
        ensures
            final(self)@ == old(self)@.warn(warn),
    {
        let copy = warn.clone_warning();
        self.pending_warnings.push(copy);
        self.report.warnings.push(warn);
        proof {
            reveal_view(self);
            reveal_view(old(self));
            assert(final(self)@.report == old(self)@.report.warn(warn));
        }
    }

    /// Register a new resource. Returns the canonical `ResourceId`.
    ///
    /// Rejects, in this order: duplicate ids, raw-byte layouts with zero
    /// alignment, event rings with no records, contradictory contracts,
    /// diagnostics-only resources without diagnostics, oversized diagnostics
    /// (also warned), and layouts whose byte size does not fit `u64` (after the
    /// contract's lints were warned).
    pub fn register(&mut self, desc: ResourceDesc) -> (r: Result<ResourceId, RegisterError>)
        requires
            old(self)@.wf(),
        ensures
            final(self)@.wf(),
            (final(self)@, r) == old(self)@.register_outcome(desc),
    {
        proof {
            reveal_view(self);
        }
        if self.find(&desc.id).is_some() {
            return Err(RegisterError::DuplicateId { id: desc.id });
        }
        if let ResourceLayout::RawBytes { alignment, .. } = desc.layout {
            if alignment == 0 {
                return Err(RegisterError::InvalidAlignment { id: desc.id });
            }
        }
        if let ResourceLayout::EventRing { record_count, .. } = desc.layout {
            if record_count == 0 {
                return Err(
                    RegisterError::LayoutMetadata { id: desc.id, source: LayoutError::EmptyEventRing },
                );
            }
        }
        if let Err(source) = desc.contract.validate() {
            return Err(RegisterError::InvalidContract { id: desc.id, source });
        }
        if desc.contract.readback == ReadbackPolicy::DiagnosticsOnly && desc.diagnostics.is_none() {
            return Err(RegisterError::DiagnosticsPolicyWithoutAttachment { id: desc.id });
        }
        if let Some(diag) = desc.diagnostics {
            let bytes = diag.layout.byte_size();
            if bytes > diag.max_bytes {
                self.push_warning(
                    SyncWarning::DiagnosticsTooLarge {
                        resource: desc.id.clone_id(),
                        bytes,
                        max_bytes: diag.max_bytes,
                    },
                );
                return Err(
                    RegisterError::DiagnosticsTooLarge { id: desc.id, bytes, max_bytes: diag.max_bytes },
                );
            }
        }
        let lints = desc.contract.lint();
        let ghost lint_warnings = desc.contract.lints().map_values(
            |l| SyncWarning::ContractLint { resource: desc.id, lint: l },
        );
        let ghost before = self@;
        let mut k: usize = 0;
        while k < lints.len()
            invariant
                k <= lints@.len(),
                lints@ == desc.contract.lints(),
                lint_warnings == desc.contract.lints().map_values(
                    |l| SyncWarning::ContractLint { resource: desc.id, lint: l },
                ),
                self@ == before.warn_all(lint_warnings.take(k as int)),
            decreases lints@.len() - k,
        {
            let ghost prev = self@;
            self.push_warning(SyncWarning::ContractLint { resource: desc.id.clone_id(), lint: lints[k] });
            proof {
                assert(lint_warnings.take(k as int + 1) =~= lint_warnings.take(k as int).push(
                    lint_warnings[k as int],
                ));
                assert(self@.pending_warnings =~= before.warn_all(lint_warnings.take(k as int + 1)).pending_warnings);
                assert(self@.report.warnings =~= before.warn_all(lint_warnings.take(k as int + 1)).report.warnings);
            }
            k = k + 1;
        }
        proof {
            assert(lint_warnings.take(lints@.len() as int) =~= lint_warnings);
        }
        let capacity_bytes = match desc.layout.checked_byte_size() {
            Ok(c) => c,
            Err(source) => {
                return Err(RegisterError::LayoutMetadata { id: desc.id, source });
            },
        };
        let id = desc.id.clone_id();
        let ghost linted = self@;
        self.resources.push(
            ResourceState {
                id: desc.id,
                layout: desc.layout,
                contract: desc.contract,
                diagnostics: desc.diagnostics,
                current_generation: Generation::initial(),
                capacity_bytes,
                has_initial_upload: false,
                event_head: 0,
            },
        );
        proof {
            reveal_view(self);
            assert(self@.resources =~= linted.resources.push(
                ResourceEntry::registered(desc, capacity_bytes as int),
            ));
            assert forall|i: int, j: int|
                0 <= i < j < self@.resources.len() implies self@.resources[i].id != self@.resources[j].id by {
                if j == self@.resources.len() - 1 {
                    if self@.resources[i].id == desc.id@ {
                        assert(linted.resources[i].id == desc.id@);
                        assert(before.resources[i].id == desc.id@);
                    }
                }
            }
        }
        Ok(id)
    }

    /// Submit a typed CPU patch: `data` is written from element
    /// `offset_elements` on.
    ///
    /// Fails, in this order, for unknown resources, element types that differ
    /// from the resource's (raw bytes match any), an element offset whose byte
    /// offset overflows `u64`, and then as `submit_untyped_patch` does. The
    /// bytes written are the elements' encodings one after the other, in the
    /// machine's byte order.
    pub fn submit_typed_patch<T: PodElement>(&mut self, resource: ResourceId, offset_elements: u64, data: Vec<T>) -> (r: Result<Generation, SubmitPatchError>)
        requires
            old(self)@.wf(),
            ({
                let size = T::spec_element_type().spec_size_bytes();
                old(self)@.has(resource@) && spec_type_compatible(
                    old(self)@.entry(resource@).layout.spec_element_type(),
                    T::spec_element_type(),
                ) && offset_elements * size <= u64::MAX ==> old(self)@.patch_fits(
                    resource@,
                    (offset_elements * size) as u64,
                    data@.len() * size,
                )
            }),
        ensures
            final(self)@.wf(),
            exists|bytes: Seq<u8>, big: bool|
                #[trigger] encodes::<T>(bytes, data@, big) && (final(self)@, r)
                    == old(self)@.typed_patch_outcome(resource, T::spec_element_type(), offset_elements, bytes),
    {
        let ghost g0 = self@;
        proof {
            T::lemma_encodable(data@);
        }
        let ghost (zeros, zbig) = choose|bytes: Seq<u8>, big: bool| encodes_words(
            bytes,
            T::spec_words(data@),
            T::spec_element_type().spec_size_bytes() as int,
            big,
        );
        assert(encodes::<T>(zeros, data@, zbig));
        let expected = match self.find(&resource) {
            None => {
                proof {
                    assert((self@, Err::<Generation, SubmitPatchError>(SubmitPatchError::UnknownResource { id: resource })) == g0.typed_patch_outcome(resource, T::spec_element_type(), offset_elements, zeros));
                }
                return Err(SubmitPatchError::UnknownResource { id: resource });
            },
            Some(i) => {
                proof {
                    reveal_view(self);
                }
                self.resources[i].layout.element_type()
            },
        };
        let actual = T::element_type();
        if !type_compatible(expected, actual) {
            proof {
                assert((self@, Err::<Generation, SubmitPatchError>(SubmitPatchError::ElementTypeMismatch { id: resource, expected, actual })) == g0.typed_patch_outcome(resource, T::spec_element_type(), offset_elements, zeros));
            }
            return Err(SubmitPatchError::ElementTypeMismatch { id: resource, expected, actual });
        }
        let id = resource.clone_id();
        let ghost patch_data = data@;
        let patch = match TypedPatch::new(resource, offset_elements, data).into_patch() {
            Err(source) => {
                proof {
                    assert((self@, Err::<Generation, SubmitPatchError>(SubmitPatchError::PatchBuild { id, source })) == g0.typed_patch_outcome(id, T::spec_element_type(), offset_elements, zeros));
                }
                return Err(SubmitPatchError::PatchBuild { id, source });
            },
            Ok(p) => p,
        };
        let ghost bytes = patch.bytes@;
        let ghost data_view = patch_data;
        let r = self.submit_patch_inner(patch);
        proof {
            assert((self@, r) == g0.typed_patch_outcome(id, T::spec_element_type(), offset_elements, bytes));
            let big = choose|big: bool| encodes::<T>(bytes, data_view, big);
            assert(encodes::<T>(bytes, data_view, big));
        }
        r
    }

    /// Submit a byte-erased CPU patch. Use sparingly — typed patches are
    /// preferred.
    ///
    /// Fails, in this order, for unknown resources, element types that differ
    /// from the resource's (raw bytes match any), a denied upload policy (also
    /// warned), a consumed initial upload (also warned), a byte offset that is
    /// not a multiple of the layout's alignment, a patch end that overflows
    /// `u64`, and a patch past the capacity that the resize policy does not
    /// allow to grow (an external resize or a growth past the cap is also
    /// warned). An accepted patch advances the generation, once more if the
    /// resource grew to the next power of two, and queues the upload.
    pub fn submit_untyped_patch(&mut self, patch: Patch) -> (r: Result<Generation, SubmitPatchError>)
        requires
            old(self)@.wf(),
            old(self)@.has(patch.resource@) && spec_type_compatible(
                old(self)@.entry(patch.resource@).layout.spec_element_type(),
                patch.element_type,
            ) ==> old(self)@.patch_fits(patch.resource@, patch.byte_offset, patch.bytes@.len() as int),
        ensures
            final(self)@.wf(),
            (final(self)@, r) == old(self)@.untyped_patch_outcome(
                patch.resource,
                patch.element_type,
                patch.byte_offset,
                patch.bytes@,
            ),
    {
        let expected = match self.find(&patch.resource) {
            None => {
                return Err(SubmitPatchError::UnknownResource { id: patch.resource });
            },
            Some(i) => {
                proof {
                    reveal_view(self);
                }
                self.resources[i].layout.element_type()
            },
        };
        if !type_compatible(expected, patch.element_type) {
            return Err(
                SubmitPatchError::ElementTypeMismatch {
                    id: patch.resource,
                    expected,
                    actual: patch.element_type,
                },
            );
        }
        self.submit_patch_inner(patch)
    }

    /// Declare that the GPU has just produced a new authoritative generation
    /// of a GPU-authoritative resource (i.e. a compute dispatch wrote to it).
    ///
    /// Fails for unknown resources and for resources that are not
    /// GPU-authoritative (also warned as an authority conflict).
    pub fn submit_gpu_mutation(&mut self, resource: ResourceId) -> (r: Result<Generation, AuthorityError>)
        requires
            old(self)@.wf(),
            old(self)@.has(resource@) && old(self)@.entry(resource@).contract.authority
                == Authority::GpuAuthoritative ==> old(self)@.entry(resource@).generation < u64::MAX,
        ensures
            final(self)@.wf(),
            (final(self)@, r) == old(self)@.gpu_mutation_outcome(resource),
    {
        let ghost g0 = self@;
        let idx = match self.find(&resource) {
            None => {
                return Err(AuthorityError::UnknownResource { id: resource });
            },
            Some(i) => i,
        };
        proof {
            reveal_view(self);
        }
        if self.resources[idx].contract.authority != Authority::GpuAuthoritative {
            self.push_warning(SyncWarning::AuthorityConflict { resource: resource.clone_id() });
            return Err(AuthorityError::NotGpuAuthoritative { id: resource });
        }
        let generation = self.resources[idx].current_generation.0 + 1;
        let capacity = self.resources[idx].capacity_bytes;
        let initial = self.resources[idx].has_initial_upload;
        let head = self.resources[idx].event_head;
        self.update_entry(idx, generation, capacity, initial, head);
        proof {
            let e = g0.entry(resource@);
            assert(self@.resources =~= g0.set_entry(resource@, ResourceEntry { generation: e.generation + 1, ..e }).resources);
            assert forall|i: int, j: int|
                0 <= i < j < self@.resources.len() implies self@.resources[i].id != self@.resources[j].id by {
                assert(self@.resources[i].id == g0.resources[i].id);
                assert(self@.resources[j].id == g0.resources[j].id);
            }
            assert forall|i: int| 0 <= i < self@.resources.len() implies (#[trigger] self@.resources[i]).layout_ok() by {
                assert(self@.resources[i].layout == g0.resources[i].layout);
                assert(g0.resources[i].layout_ok());
            }
        }
        Ok(Generation(generation))
    }

    /// Drain pending uploads and resizes into a `TransferPlan`.
    ///
    /// The plan carries the queued uploads, resizes and warnings in the order
    /// they were queued, the total upload bytes and the accumulated download
    /// estimate. When either total exceeds the configured budget, a
    /// `TransferBudgetExceeded` warning is added to the plan and the report;
    /// the plan is still produced.
    pub fn plan_transfers(&mut self) -> (plan: TransferPlan)
        requires
            upload_bytes(old(self)@.pending_uploads) <= u64::MAX,
        ensures
            final(self)@ == old(self)@.planned(),
            plan.uploads@.map_values(|u: UploadOp| u@) == old(self)@.pending_uploads,
            plan.resizes@.map_values(|r: ResizeOp| r@) == old(self)@.pending_resizes,
            plan.readbacks@.len() == 0,
            plan.expected_upload_bytes == upload_bytes(old(self)@.pending_uploads),
            plan.expected_download_bytes == old(self)@.pending_download_estimate,
            plan.warnings@ == old(self)@.pending_warnings + budget_warnings(
                old(self)@.budget,
                upload_bytes(old(self)@.pending_uploads),
                old(self)@.pending_download_estimate,
            ),
    {
        proof {
            reveal_view(self);
        }
        let mut uploads: Vec<UploadOp> = Vec::new();
        let mut resizes: Vec<ResizeOp> = Vec::new();
        let mut warnings: Vec<SyncWarning> = Vec::new();
        core::mem::swap(&mut uploads, &mut self.pending_uploads);
        core::mem::swap(&mut resizes, &mut self.pending_resizes);
        core::mem::swap(&mut warnings, &mut self.pending_warnings);
        let expected_download_bytes = self.pending_download_estimate;
        self.pending_download_estimate = 0;
        let ghost ups = uploads@.map_values(|u: UploadOp| u@);
        let mut expected_upload_bytes: u64 = 0;
        let mut i: usize = 0;
        while i < uploads.len()
            invariant
                i <= uploads@.len(),
                ups == uploads@.map_values(|u: UploadOp| u@),
                upload_bytes(ups) <= u64::MAX,
                expected_upload_bytes == upload_bytes(ups.take(i as int)),
            decreases uploads@.len() - i,
        {
            proof {
                assert(ups.take(i as int + 1).drop_last() =~= ups.take(i as int));
                lemma_upload_bytes_prefix(ups, i as int + 1);
            }
            expected_upload_bytes = expected_upload_bytes + uploads[i].bytes.len() as u64;
            i = i + 1;
        }
        proof {
            assert(ups.take(uploads@.len() as int) =~= ups);
            reveal_view(old(self));
            assert(ups == old(self)@.pending_uploads);
            assert(expected_download_bytes == old(self)@.pending_download_estimate);
            assert(warnings@ == old(self)@.pending_warnings);
        }
        if let Some(budget) = self.budget {
            if expected_upload_bytes > budget.upload_bytes_per_cycle || expected_download_bytes
                > budget.download_bytes_per_cycle {
                let warn = SyncWarning::TransferBudgetExceeded {
                    uploaded: expected_upload_bytes,
                    downloaded: expected_download_bytes,
                };
                warnings.push(warn.clone_warning());
                self.report.warnings.push(warn);
            }
        }
        proof {
            reveal_view(self);
            assert(self@.report.warnings =~= old(self)@.planned().report.warnings);
            assert(self@.report =~= old(self)@.planned().report);
            assert(self@.pending_uploads =~= Seq::<UploadView>::empty());
            assert(self@.pending_resizes =~= Seq::<ResizeView>::empty());
            assert(self@.pending_warnings =~= Seq::<SyncWarning>::empty());
            assert(warnings@ =~= old(self)@.pending_warnings + budget_warnings(
                old(self)@.budget,
                upload_bytes(old(self)@.pending_uploads),
                old(self)@.pending_download_estimate,
            ));
        }
        TransferPlan {
            uploads,
            readbacks: Vec::new(),
            resizes,
            expected_upload_bytes,
            expected_download_bytes,
            warnings,
        }
    }

    /// Fold backend submission accounting into the running report.
    pub fn note_submission(&mut self, submission: &BackendSubmission)
        requires
            old(self)@.report.uploaded_bytes + submission.uploaded_bytes <= u64::MAX,
            old(self)@.report.downloaded_bytes + submission.downloaded_bytes <= u64::MAX,
        ensures
            final(self)@ == (GraphView {
                report: ReportView {
                    uploaded_bytes: old(self)@.report.uploaded_bytes + submission.uploaded_bytes,
                    downloaded_bytes: old(self)@.report.downloaded_bytes + submission.downloaded_bytes,
                    ..old(self)@.report
                },
                ..old(self)@
            }),
    {
        proof {
            reveal_view(self);
        }
        self.report.uploaded_bytes = self.report.uploaded_bytes + submission.uploaded_bytes;
        self.report.downloaded_bytes = self.report.downloaded_bytes + submission.downloaded_bytes;
        proof {
            reveal_view(self);
            reveal_view(old(self));
        }
    }

    /// Record that a previously-issued readback of `bytes` bytes resolved.
    pub fn note_readback_completed(&mut self, bytes: u64)
        requires
            old(self)@.report.readbacks_completed < usize::MAX,
            old(self)@.report.downloaded_bytes + bytes <= u64::MAX,
        ensures
            final(self)@ == (GraphView {
                report: ReportView {
                    readbacks_completed: old(self)@.report.readbacks_completed + 1,
                    downloaded_bytes: old(self)@.report.downloaded_bytes + bytes,
                    ..old(self)@.report
                },
                ..old(self)@
            }),
    {
        proof {
            reveal_view(self);
        }
        self.report.readbacks_completed = self.report.readbacks_completed + 1;
        self.report.downloaded_bytes = self.report.downloaded_bytes + bytes;
        proof {
            reveal_view(self);
            reveal_view(old(self));
        }
    }

    /// Record that the backend was forced to block on a readback.
    pub fn note_forced_stall(&mut self)
        requires
            old(self)@.report.forced_stalls < usize::MAX,
        ensures
            final(self)@ == (GraphView {
                report: ReportView { forced_stalls: old(self)@.report.forced_stalls + 1, ..old(self)@.report },
                ..old(self)@
            }),
    {
        proof {
            reveal_view(self);
        }
        self.report.forced_stalls = self.report.forced_stalls + 1;
        proof {
            reveal_view(self);
            reveal_view(old(self));
        }
    }

    /// Take and reset the running `TransferReport`.
    pub fn take_report(&mut self) -> (r: TransferReport)
        ensures
            r@ == old(self)@.report,
            final(self)@ == (GraphView { report: ReportView::empty(), ..old(self)@ }),
    {
        let mut r = TransferReport::default();
        core::mem::swap(&mut r, &mut self.report);
        proof {
            reveal_view(self);
            reveal_view(old(self));
        }
        r
    }

    /// Read-only access to the running report without resetting it.
    pub fn report(&self) -> (r: &TransferReport)
        ensures
            r@ == self@.report,
    {
        proof {
            reveal_view(self);
        }
        &self.report
    }

    /// Current authoritative generation for a resource, if it exists.
    pub fn generation_of(&self, resource: &ResourceId) -> (g: Option<Generation>)
        requires
            self@.wf(),
        ensures
            self@.has(resource@) ==> g == Some(Generation(self@.entry(resource@).generation as u64)),
            !self@.has(resource@) ==> g is None,
    {
        proof {
            reveal_view(self);
        }
        match self.find(resource) {
            Some(i) => Some(self.resources[i].current_generation),
            None => None,
        }
    }

    /// Returns the byte capacity currently allocated for a resource.
    pub fn capacity_of(&self, resource: &ResourceId) -> (c: Option<u64>)
        requires
            self@.wf(),
        ensures
            self@.has(resource@) ==> c == Some(self@.entry(resource@).capacity as u64),
            !self@.has(resource@) ==> c is None,
    {
        proof {
            reveal_view(self);
        }
        match self.find(resource) {
            Some(i) => Some(self.resources[i].capacity_bytes),
            None => None,
        }
    }

    /// The registered resource ids, in registration order.
    pub fn resources(&self) -> (ids: Vec<ResourceId>)
        ensures
            ids@.len() == self@.resources.len(),
            forall|i: int| 0 <= i < ids@.len() ==> (#[trigger] ids@[i])@ == self@.resources[i].id,
    {
        proof {
            reveal_view(self);
        }
        let mut ids: Vec<ResourceId> = Vec::new();
        let mut i: usize = 0;
        while i < self.resources.len()
            invariant
                i <= self.resources@.len(),
                ids@.len() == i,
                self@.resources == self.resources@.map_values(|s: ResourceState| s@),
                forall|j: int| 0 <= j < i ==> (#[trigger] ids@[j])@ == self@.resources[j].id,
            decreases self.resources@.len() - i,
        {
            ids.push(self.resources[i].id.clone_id());
            i = i + 1;
        }
        ids
    }
}

impl Default for SyncGraph {
    fn default() -> (g: SyncGraph)
        ensures
            g@ == GraphView::empty(),
    {
        SyncGraph::new()
    }
}

} // verus!
