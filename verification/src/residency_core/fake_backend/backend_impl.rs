//! Operations of the in-memory backend.

use vstd::prelude::*;

use crate::residency_core::backend::{BackendResourceHandle, BackendSubmission, ResidencyBackend};
use crate::residency_core::fake_backend::model::{
    apply_resizes, apply_uploads, fake_index, is_fake_index, is_pending_index, overwritten,
    pending_index, resize_step, selector_bytes, slice_range_error, summary_supported, upload_step,
    zero_bytes, FakeResourceView, FakeView,
};
use crate::residency_core::fake_backend::selectors::{bytes_for_selector, compute_summary, summary_result};
use crate::residency_core::fake_backend::{
    checked_slice_range, freshness_available, overwrite, reveal_fake, reveal_fake_resource,
    usize_size, zeros, FakeBackend, FakeBackendError, FakeResource, PendingReadback,
};
use crate::residency_core::generation::Generation;
use crate::residency_core::plan::{PlannedReadback, ResizeOp, TransferPlan, UploadOp};
use crate::residency_core::readback::{ReadbackError, ReadbackId, ReadbackStatus, ReadbackToken};
use crate::residency_core::resource::{ResourceDesc, ResourceId};
use crate::residency_core::summary::SummaryKind;
use crate::residency_core::view::{ViewResult, ViewSelector};

verus! {

/// Two first positions of the same identifier are the same position.
proof fn lemma_fake_index_unique(rs: Seq<FakeResourceView>, id: Seq<char>, i: int, j: int)
    requires
        is_fake_index(rs, id, i),
        is_fake_index(rs, id, j),
    ensures
        i == j,
{
    if i < j {
        assert(rs[i].id != id);
    } else if j < i {
        assert(rs[j].id != id);
    }
}

/// Two first positions of the same readback are the same position.
proof fn lemma_pending_index_unique(ps: Seq<PendingReadback>, id: ReadbackId, i: int, j: int)
    requires
        is_pending_index(ps, id, i),
        is_pending_index(ps, id, j),
    ensures
        i == j,
{
    if i < j {
        assert(ps[i].id != id);
    } else if j < i {
        assert(ps[j].id != id);
    }
}

/// Once a resize fails, the remaining ones change nothing more.
proof fn lemma_apply_resizes_err(v: FakeView, ops: Seq<ResizeOp>, k: int)
    requires
        0 <= k <= ops.len(),
        apply_resizes(v, ops.take(k)).1 is Some,
    ensures
        apply_resizes(v, ops) == apply_resizes(v, ops.take(k)),
    decreases ops.len() - k,
{
    if k < ops.len() {
        assert(ops.take(k + 1).drop_last() =~= ops.take(k));
        lemma_apply_resizes_err(v, ops, k + 1);
    } else {
        assert(ops.take(k) =~= ops);
    }
}

/// Once an upload fails, the remaining ones change nothing more.
proof fn lemma_apply_uploads_err(v: FakeView, ops: Seq<UploadOp>, k: int)
    requires
        0 <= k <= ops.len(),
        apply_uploads(v, ops.take(k)).1 is Err,
    ensures
        apply_uploads(v, ops) == apply_uploads(v, ops.take(k)),
    decreases ops.len() - k,
{
    if k < ops.len() {
        assert(ops.take(k + 1).drop_last() =~= ops.take(k));
        lemma_apply_uploads_err(v, ops, k + 1);
    } else {
        assert(ops.take(k) =~= ops);
    }
}

impl FakeBackend {
    /// Creates an empty in-memory backend with immediate readback completion.
    pub fn new() -> (b: FakeBackend)
        ensures
            b@ == FakeView::empty(),
    {
        let b = FakeBackend {
            next_handle: 0,
            next_readback: 0,
            resources: Vec::new(),
            pending: Vec::new(),
            ready_after_polls: 0,
        };
        proof {
            reveal_fake(&b);
            assert(b@.resources =~= Seq::<FakeResourceView>::empty());
            assert(b@.pending =~= Seq::<PendingReadback>::empty());
        }
        b
    }

    /// Position of the first resource with identifier `id`.
    fn find_resource(&self, id: &ResourceId) -> (r: Option<usize>)
        ensures
            r matches Some(i) ==> fake_index(self@.resources, id@) == Some(i as int) && i < self.resources@.len(),
            r is None ==> fake_index(self@.resources, id@) is None,
    {
        proof {
            reveal_fake(self);
        }
        let mut i: usize = 0;
        while i < self.resources.len()
            invariant
                i <= self.resources@.len(),
                self@.resources == self.resources@.map_values(|r: FakeResource| r@),
                forall|j: int| 0 <= j < i ==> (#[trigger] self@.resources[j]).id != id@,
            decreases self.resources@.len() - i,
        {
            proof {
                reveal_fake_resource(&self.resources@[i as int]);
            }
            if self.resources[i].id.same_as(id) {
                proof {
                    assert(is_fake_index(self@.resources, id@, i as int));
                    let k = choose|k: int| is_fake_index(self@.resources, id@, k);
                    lemma_fake_index_unique(self@.resources, id@, i as int, k);
                }
                return Some(i);
            }
            i = i + 1;
        }
        proof {
            if exists|k: int| is_fake_index(self@.resources, id@, k) {
                let k = choose|k: int| is_fake_index(self@.resources, id@, k);
                assert(self@.resources[k].id != id@);
            }
        }
        None
    }

    /// Position of the first pending readback with identifier `id`.
    fn find_pending(&self, id: ReadbackId) -> (r: Option<usize>)
        ensures
            r matches Some(i) ==> pending_index(self@.pending, id) == Some(i as int) && i < self.pending@.len(),
            r is None ==> pending_index(self@.pending, id) is None,
    {
        proof {
            reveal_fake(self);
        }
        let mut i: usize = 0;
        while i < self.pending.len()
            invariant
                i <= self.pending@.len(),
                self@.pending == self.pending@,
                forall|j: int| 0 <= j < i ==> (#[trigger] self@.pending[j]).id != id,
            decreases self.pending@.len() - i,
        {
            if self.pending[i].id.0 == id.0 {
                proof {
                    assert(is_pending_index(self@.pending, id, i as int));
                    let k = choose|k: int| is_pending_index(self@.pending, id, k);
                    lemma_pending_index_unique(self@.pending, id, i as int, k);
                }
                return Some(i);
            }
            i = i + 1;
        }
        proof {
            if exists|k: int| is_pending_index(self@.pending, id, k) {
                let k = choose|k: int| is_pending_index(self@.pending, id, k);
                assert(self@.pending[k].id != id);
            }
        }
        None
    }

    /// Takes the resource at position `i` out, to be put back with `put_back`.
    fn take_resource(&mut self, i: usize) -> (r: FakeResource)
        requires
            i < old(self)@.resources.len(),
        ensures
            r@ == old(self)@.resources[i as int],
            final(self)@ == (FakeView { resources: old(self)@.resources.remove(i as int), ..old(self)@ }),
    {
        proof {
            reveal_fake(self);
        }
        let r = self.resources.remove(i);
        proof {
            reveal_fake(self);
            assert(self@.resources =~= old(self)@.resources.remove(i as int));
        }
        r
    }

    /// Puts a resource back at position `i`.
    fn put_back(&mut self, i: usize, r: FakeResource)
        requires
            i <= old(self)@.resources.len(),
        ensures
            final(self)@ == (FakeView { resources: old(self)@.resources.insert(i as int, r@), ..old(self)@ }),
    {
        proof {
            reveal_fake(self);
        }
        self.resources.insert(i, r);
        proof {
            reveal_fake(self);
            assert(self@.resources =~= old(self)@.resources.insert(i as int, r@));
        }
    }

    /// Directly write bytes into a resource — used by tests to simulate GPU
    /// mutations without going through `execute_transfer_plan`.
    ///
    /// Fails for unknown resources and for byte ranges past the buffer.
    pub fn poke_bytes(&mut self, id: &ResourceId, offset: u64, bytes: &[u8]) -> (r: Result<(), FakeBackendError>)
        ensures
            match fake_index(old(self)@.resources, id@) {
                None => final(self)@ == old(self)@ && r == Err::<(), FakeBackendError>(
                    FakeBackendError::UnknownResource(*id),
                ),
                Some(i) => {
                    let res = old(self)@.resources[i];
                    match slice_range_error(*id, offset, bytes@.len() as usize, res.bytes.len() as usize) {
                        Some(e) => final(self)@ == old(self)@ && r == Err::<(), FakeBackendError>(e),
                        None => r is Ok && final(self)@ == (FakeView {
                            resources: old(self)@.resources.update(
                                i,
                                FakeResourceView { bytes: overwritten(res.bytes, offset as int, bytes@), ..res },
                            ),
                            ..old(self)@
                        }),
                    }
                },
            },
    {
        let i = match self.find_resource(id) {
            None => {
                return Err(FakeBackendError::UnknownResource(id.clone_id()));
            },
            Some(i) => i,
        };
        let ghost before = self@;
        let mut res = self.take_resource(i);
        proof {
            reveal_fake_resource(&res);
        }
        let (start, _end) = match checked_slice_range(id, offset, bytes.len(), res.bytes.len()) {
            Err(e) => {
                self.put_back(i, res);
                proof {
                    assert(self@.resources =~= before.resources);
                }
                return Err(e);
            },
            Ok(range) => range,
        };
        overwrite(&mut res.bytes, start, bytes);
        proof {
            reveal_fake_resource(&res);
        }
        self.put_back(i, res);
        proof {
            assert(self@.resources =~= before.resources.update(
                i as int,
                FakeResourceView { bytes: overwritten(before.resources[i as int].bytes, offset as int, bytes@), ..before.resources[i as int] },
            ));
        }
        Ok(())
    }

    /// Directly write diagnostic bytes into a resource — used by tests.
    ///
    /// Fails for unknown resources and for bytes past the diagnostic buffer.
    pub fn poke_diagnostics(&mut self, id: &ResourceId, bytes: &[u8]) -> (r: Result<(), FakeBackendError>)
        ensures
            match fake_index(old(self)@.resources, id@) {
                None => final(self)@ == old(self)@ && r == Err::<(), FakeBackendError>(
                    FakeBackendError::UnknownResource(*id),
                ),
                Some(i) => {
                    let res = old(self)@.resources[i];
                    match slice_range_error(*id, 0, bytes@.len() as usize, res.diagnostic_bytes.len() as usize) {
                        Some(e) => final(self)@ == old(self)@ && r == Err::<(), FakeBackendError>(e),
                        None => r is Ok && final(self)@ == (FakeView {
                            resources: old(self)@.resources.update(
                                i,
                                FakeResourceView {
                                    diagnostic_bytes: overwritten(res.diagnostic_bytes, 0, bytes@),
                                    ..res
                                },
                            ),
                            ..old(self)@
                        }),
                    }
                },
            },
    {
        let i = match self.find_resource(id) {
            None => {
                return Err(FakeBackendError::UnknownResource(id.clone_id()));
            },
            Some(i) => i,
        };
        let ghost before = self@;
        let mut res = self.take_resource(i);
        proof {
            reveal_fake_resource(&res);
        }
        match checked_slice_range(id, 0, bytes.len(), res.diagnostic_bytes.len()) {
            Err(e) => {
                self.put_back(i, res);
                proof {
                    assert(self@.resources =~= before.resources);
                }
                return Err(e);
            },
            Ok(_) => {},
        }
        overwrite(&mut res.diagnostic_bytes, 0, bytes);
        proof {
            reveal_fake_resource(&res);
        }
        self.put_back(i, res);
        proof {
            assert(self@.resources =~= before.resources.update(
                i as int,
                FakeResourceView {
                    diagnostic_bytes: overwritten(before.resources[i as int].diagnostic_bytes, 0, bytes@),
                    ..before.resources[i as int]
                },
            ));
        }
        Ok(())
    }

    /// Inspect the bytes the backend currently holds.
    pub fn buffer_bytes(&self, id: &ResourceId) -> (r: Option<&[u8]>)
        ensures
            match fake_index(self@.resources, id@) {
                None => r is None,
                Some(i) => r matches Some(s) && s@ == self@.resources[i].bytes,
            },
    {
        match self.find_resource(id) {
            None => None,
            Some(i) => {
                proof {
                    reveal_fake(self);
                    reveal_fake_resource(&self.resources@[i as int]);
                }
                Some(self.resources[i].bytes.as_slice())
            },
        }
    }
}

impl Default for FakeBackend {
    fn default() -> (b: FakeBackend)
        ensures
            b@ == FakeView::empty(),
    {
        FakeBackend::new()
    }
}

impl FakeBackend {
    /// Stores `r` under its identifier: over the first resource with that
    /// identifier, or after the others.
    fn store(&mut self, r: FakeResource)
        ensures
            final(self)@ == old(self)@.store(r@),
    {
        proof {
            reveal_fake_resource(&r);
        }
        match self.find_resource(&r.id) {
            Some(i) => {
                let _old = self.take_resource(i);
                self.put_back(i, r);
                proof {
                    assert(self@.resources =~= old(self)@.resources.update(i as int, r@));
                }
            },
            None => {
                proof {
                    reveal_fake(self);
                }
                self.resources.push(r);
                proof {
                    reveal_fake(self);
                    assert(self@.resources =~= old(self)@.resources.push(r@));
                }
            },
        }
    }

    /// Applies one resize.
    fn resize_one(&mut self, op: &ResizeOp) -> (r: Result<(), FakeBackendError>)
        ensures
            match resize_step(old(self)@, *op) {
                Ok(v) => r is Ok && final(self)@ == v,
                Err(e) => r == Err::<(), FakeBackendError>(e) && final(self)@ == old(self)@,
            },
    {
        let i = match self.find_resource(&op.resource) {
            None => {
                return Err(FakeBackendError::UnknownResource(op.resource.clone_id()));
            },
            Some(i) => i,
        };
        let ghost before = self@;
        let mut res = self.take_resource(i);
        proof {
            reveal_fake_resource(&res);
        }
        let actual_size = res.bytes.len() as u64;
        if op.old_size != actual_size {
            self.put_back(i, res);
            proof {
                assert(self@.resources =~= before.resources);
            }
            return Err(
                FakeBackendError::ResizeOldSizeMismatch {
                    resource: op.resource.clone_id(),
                    expected: op.old_size,
                    actual: actual_size,
                },
            );
        }
        if op.new_size < actual_size {
            self.put_back(i, res);
            proof {
                assert(self@.resources =~= before.resources);
            }
            return Err(
                FakeBackendError::ResizeWouldShrink {
                    resource: op.resource.clone_id(),
                    old_size: actual_size,
                    new_size: op.new_size,
                },
            );
        }
        let new_size = match usize_size(&op.resource, op.new_size) {
            Err(e) => {
                self.put_back(i, res);
                proof {
                    assert(self@.resources =~= before.resources);
                }
                return Err(e);
            },
            Ok(n) => n,
        };
        let mut extra = zeros(new_size - res.bytes.len());
        res.bytes.append(&mut extra);
        res.generation = op.resulting_generation;
        proof {
            reveal_fake_resource(&res);
        }
        self.put_back(i, res);
        proof {
            let r0 = before.resources[i as int];
            assert(self@.resources =~= before.resources.update(
                i as int,
                FakeResourceView {
                    bytes: r0.bytes + Seq::new((op.new_size - r0.bytes.len()) as nat, |k: int| 0u8),
                    generation: op.resulting_generation.0 as int,
                    ..r0
                },
            ));
        }
        Ok(())
    }

    /// Applies one upload after `total` bytes were uploaded, returning the new
    /// total.
    fn upload_one(&mut self, op: &UploadOp, total: u64) -> (r: Result<u64, FakeBackendError>)
        ensures
            ({
                let (v, res) = upload_step(old(self)@, *op, total as int);
                &&& final(self)@ == v
                &&& match res {
                    Ok(t) => r == Ok::<u64, FakeBackendError>(t as u64),
                    Err(e) => r == Err::<u64, FakeBackendError>(e),
                }
            }),
    {
        let i = match self.find_resource(&op.resource) {
            None => {
                return Err(FakeBackendError::UnknownResource(op.resource.clone_id()));
            },
            Some(i) => i,
        };
        let ghost before = self@;
        let mut res = self.take_resource(i);
        proof {
            reveal_fake_resource(&res);
        }
        let (start, _end) = match checked_slice_range(&op.resource, op.byte_offset, op.bytes.len(), res.bytes.len()) {
            Err(e) => {
                self.put_back(i, res);
                proof {
                    assert(self@.resources =~= before.resources);
                }
                return Err(e);
            },
            Ok(range) => range,
        };
        overwrite(&mut res.bytes, start, op.bytes.as_slice());
        res.generation = op.resulting_generation;
        proof {
            reveal_fake_resource(&res);
        }
        self.put_back(i, res);
        proof {
            let r0 = before.resources[i as int];
            assert(self@.resources =~= before.resources.update(
                i as int,
                FakeResourceView {
                    bytes: overwritten(r0.bytes, op.byte_offset as int, op.bytes@),
                    generation: op.resulting_generation.0 as int,
                    ..r0
                },
            ));
        }
        let byte_len = op.bytes.len() as u64;
        match total.checked_add(byte_len) {
            None => Err(FakeBackendError::CounterOverflow { counter: "uploaded_bytes" }),
            Some(t) => Ok(t),
        }
    }
}

impl ResidencyBackend for FakeBackend {
    type Error = FakeBackendError;

    /// Allocates zeroed bytes (and zeroed diagnostic bytes) for the resource,
    /// replacing an allocation with the same identifier, and hands out the
    /// next handle.
    fn create_resource(&mut self, desc: &ResourceDesc) -> (r: Result<BackendResourceHandle, FakeBackendError>)
        ensures
            (final(self)@, r) == old(self)@.create_outcome(*desc),
    {
        let size_u64 = match desc.layout.checked_byte_size() {
            Err(e) => {
                return Err(FakeBackendError::LayoutMetadata(e));
            },
            Ok(s) => s,
        };
        let size = match usize_size(&desc.id, size_u64) {
            Err(e) => {
                return Err(e);
            },
            Ok(s) => s,
        };
        let diagnostic_size = match desc.diagnostics {
            Some(d) => match usize_size(&desc.id, d.layout.byte_size()) {
                Err(e) => {
                    return Err(e);
                },
                Ok(s) => s,
            },
            None => 0,
        };
        let res = FakeResource {
            id: desc.id.clone_id(),
            bytes: zeros(size),
            layout: desc.layout,
            diagnostics: desc.diagnostics,
            diagnostic_bytes: zeros(diagnostic_size),
            generation: Generation::initial(),
        };
        proof {
            reveal_fake_resource(&res);
            assert(res@.bytes =~= zero_bytes(size as int));
            assert(res@.diagnostic_bytes =~= zero_bytes(diagnostic_size as int));
        }
        self.store(res);
        proof {
            reveal_fake(self);
        }
        let handle = BackendResourceHandle(self.next_handle);
        if self.next_handle == u64::MAX {
            return Err(FakeBackendError::CounterOverflow { counter: "resource_handle" });
        }
        self.next_handle = self.next_handle + 1;
        proof {
            reveal_fake(self);
        }
        Ok(handle)
    }

    /// Applies the plan's resizes, then its uploads, in order; stops at the
    /// first failure, keeping what was applied before it.
    fn execute_transfer_plan(&mut self, plan: &TransferPlan) -> (r: Result<BackendSubmission, FakeBackendError>)
        ensures
            ({
                let (v1, e1) = apply_resizes(old(self)@, plan.resizes@);
                match e1 {
                    Some(e) => final(self)@ == v1 && r == Err::<BackendSubmission, FakeBackendError>(e),
                    None => {
                        let (v2, r2) = apply_uploads(v1, plan.uploads@);
                        &&& final(self)@ == v2
                        &&& match r2 {
                            Err(e) => r == Err::<BackendSubmission, FakeBackendError>(e),
                            Ok(t) => r matches Ok(s) && s.uploaded_bytes == t && s.downloaded_bytes == 0
                                && s.readback_tokens@.len() == 0,
                        }
                    },
                }
            }),
    {
        let ghost v0 = self@;
        let mut i: usize = 0;
        while i < plan.resizes.len()
            invariant
                i <= plan.resizes@.len(),
                v0 == old(self)@,
                apply_resizes(v0, plan.resizes@.take(i as int)) == (self@, None::<FakeBackendError>),
            decreases plan.resizes@.len() - i,
        {
            proof {
                assert(plan.resizes@.take(i as int + 1).drop_last() =~= plan.resizes@.take(i as int));
                assert(plan.resizes@.take(i as int + 1).last() == plan.resizes@[i as int]);
            }
            match self.resize_one(&plan.resizes[i]) {
                Err(e) => {
                    proof {
                        assert(apply_resizes(v0, plan.resizes@.take(i as int + 1)) == (self@, Some(e)));
                        lemma_apply_resizes_err(v0, plan.resizes@, i as int + 1);
                        assert(v0 == old(self)@);
                    }
                    return Err(e);
                },
                Ok(()) => {},
            }
            i = i + 1;
        }
        proof {
            assert(plan.resizes@.take(plan.resizes@.len() as int) =~= plan.resizes@);
        }
        let ghost v1 = self@;
        let mut uploaded: u64 = 0;
        let mut k: usize = 0;
        while k < plan.uploads.len()
            invariant
                k <= plan.uploads@.len(),
                v0 == old(self)@,
                apply_resizes(v0, plan.resizes@) == (v1, None::<FakeBackendError>),
                apply_uploads(v1, plan.uploads@.take(k as int)) == (self@, Ok::<int, FakeBackendError>(uploaded as int)),
            decreases plan.uploads@.len() - k,
        {
            proof {
                assert(plan.uploads@.take(k as int + 1).drop_last() =~= plan.uploads@.take(k as int));
                assert(plan.uploads@.take(k as int + 1).last() == plan.uploads@[k as int]);
            }
            uploaded = match self.upload_one(&plan.uploads[k], uploaded) {
                Err(e) => {
                    proof {
                        assert(apply_uploads(v1, plan.uploads@.take(k as int + 1)) == (self@, Err::<int, FakeBackendError>(e)));
                        lemma_apply_uploads_err(v1, plan.uploads@, k as int + 1);
                        assert(apply_resizes(v0, plan.resizes@) == (v1, None::<FakeBackendError>));
                        assert(v0 == old(self)@);
                    }
                    return Err(e);
                },
                Ok(t) => t,
            };
            k = k + 1;
        }
        proof {
            assert(plan.uploads@.take(plan.uploads@.len() as int) =~= plan.uploads@);
        }
        Ok(BackendSubmission { uploaded_bytes: uploaded, downloaded_bytes: 0, readback_tokens: Vec::new() })
    }

    /// Serves the request from the stored bytes into a pending readback that
    /// becomes ready after `ready_after_polls` polls.
    fn request_readback(&mut self, request: PlannedReadback) -> (r: Result<ReadbackToken, FakeBackendError>)
        ensures
            match fake_index(old(self)@.resources, request.resource@) {
                None => final(self)@ == old(self)@ && r == Err::<ReadbackToken, FakeBackendError>(
                    FakeBackendError::UnknownResource(request.resource),
                ),
                Some(i) => {
                    let res = old(self)@.resources[i];
                    if !request.freshness.satisfied_by(res.generation as u64) {
                        final(self)@ == old(self)@ && r == Err::<ReadbackToken, FakeBackendError>(
                            FakeBackendError::FreshnessUnavailable {
                                resource: request.resource,
                                requested: request.freshness,
                                served: Generation(res.generation as u64),
                            },
                        )
                    } else {
                        match request.selector {
                            ViewSelector::Summary { kind } => {
                                let element = res.layout.spec_element_type();
                                &&& (if !summary_supported(kind, element) {
                                    final(self)@ == old(self)@ && r == Err::<ReadbackToken, FakeBackendError>(
                                        FakeBackendError::UnsupportedSummary { kind, element },
                                    )
                                } else {
                                    ||| final(self)@ == old(self)@ && r == Err::<ReadbackToken, FakeBackendError>(
                                        FakeBackendError::SummaryOverflow { kind, element },
                                    ) && kind != SummaryKind::MinMaxF32 && res.bytes.len() > 4 * u32::MAX
                                    ||| old(self)@.served(final(self)@, request, res, r) && (r is Ok
                                        ==> old(self)@.served_bytes(final(self)@).len()
                                        == kind.spec_result_size_bytes())
                                })
                                &&& exists|out: Result<Seq<u8>, FakeBackendError>|
                                    #[trigger] summary_result(kind, element, res.bytes, out) && match out {
                                        Err(e) => final(self)@ == old(self)@ && r == Err::<ReadbackToken, FakeBackendError>(e),
                                        Ok(b) => old(self)@.served(final(self)@, request, res, r) && (r is Ok
                                            ==> old(self)@.served_bytes(final(self)@) == b),
                                    }
                            },
                            _ => match selector_bytes(res, request.resource, request.selector, request.event_head) {
                                Err(None) => final(self)@ == old(self)@ && r == Err::<ReadbackToken, FakeBackendError>(
                                    FakeBackendError::UnsupportedSelector(request.selector),
                                ),
                                Err(Some(e)) => final(self)@ == old(self)@ && r == Err::<ReadbackToken, FakeBackendError>(e),
                                Ok(b) => old(self)@.served(final(self)@, request, res, r) && (r is Ok
                                    ==> old(self)@.served_bytes(final(self)@) == b),
                            },
                        }
                    }
                },
            },
    {
        let PlannedReadback { resource, selector, freshness, reason: _, event_head } = request;
        let i = match self.find_resource(&resource) {
            None => {
                return Err(FakeBackendError::UnknownResource(resource));
            },
            Some(i) => i,
        };
        proof {
            reveal_fake(self);
            reveal_fake_resource(&self.resources@[i as int]);
        }
        let served = self.resources[i].generation;
        if !freshness_available(freshness, served) {
            return Err(FakeBackendError::FreshnessUnavailable { resource, requested: freshness, served });
        }
        let bytes = match selector {
            ViewSelector::Summary { kind } => match compute_summary(kind, &self.resources[i].layout, &self.resources[i].bytes) {
                Err(e) => {
                    return Err(e);
                },
                Ok(b) => b,
            },
            _ => match bytes_for_selector(&resource, &selector, event_head, &self.resources[i]) {
                Err(None) => {
                    return Err(FakeBackendError::UnsupportedSelector(selector));
                },
                Err(Some(e)) => {
                    return Err(e);
                },
                Ok(b) => b,
            },
        };
        let ghost b = bytes@;
        let id = ReadbackId(self.next_readback);
        if self.next_readback == u64::MAX {
            return Err(FakeBackendError::CounterOverflow { counter: "readback_token" });
        }
        let ghost before = self@;
        self.next_readback = self.next_readback + 1;
        let result = ViewResult { resource: resource.clone_id(), selector, served_generation: served, bytes };
        let p = PendingReadback { id, polls_remaining: self.ready_after_polls, result };
        let ghost pg = p;
        proof {
            reveal_fake(self);
            assert(self@ == FakeView { next_readback: before.next_readback + 1, ..before });
        }
        let ghost bumped = self@;
        match self.find_pending(id) {
            Some(j) => {
                proof {
                    reveal_fake(self);
                }
                let _old = self.pending.remove(j);
                self.pending.insert(j, p);
                proof {
                    reveal_fake(self);
                    assert(self@.pending =~= bumped.pending.update(j as int, pg));
                    assert(self@ == bumped.store_pending(pg));
                    assert(self@.pending[j as int] == pg);
                }
            },
            None => {
                proof {
                    reveal_fake(self);
                }
                self.pending.push(p);
                proof {
                    reveal_fake(self);
                    assert(self@.pending =~= bumped.pending.push(pg));
                    assert(self@ == bumped.store_pending(pg));
                    assert(self@.pending[bumped.pending.len() as int] == pg);
                }
            },
        }
        Ok(ReadbackToken { id, resource, freshness })
    }

    /// Counts a pending readback down by one poll, or hands out its result
    /// and forgets it; an unknown token is reported as a failed readback.
    fn poll_readback(&mut self, token: &ReadbackToken) -> (r: Result<ReadbackStatus, FakeBackendError>)
        ensures
            match pending_index(old(self)@.pending, token.id) {
                None => final(self)@ == old(self)@ && r == Ok::<ReadbackStatus, FakeBackendError>(
                    ReadbackStatus::Failed(ReadbackError::UnknownToken { id: token.id }),
                ),
                Some(i) => {
                    let p = old(self)@.pending[i];
                    if p.polls_remaining > 0 {
                        final(self)@ == (FakeView {
                            pending: old(self)@.pending.update(
                                i,
                                PendingReadback { polls_remaining: (p.polls_remaining - 1) as u32, ..p },
                            ),
                            ..old(self)@
                        }) && r == Ok::<ReadbackStatus, FakeBackendError>(ReadbackStatus::Pending)
                    } else {
                        final(self)@ == (FakeView { pending: old(self)@.pending.remove(i), ..old(self)@ })
                            && r == Ok::<ReadbackStatus, FakeBackendError>(ReadbackStatus::Ready(p.result))
                    }
                },
            },
    {
        let i = match self.find_pending(token.id) {
            None => {
                return Ok(ReadbackStatus::Failed(ReadbackError::UnknownToken { id: token.id }));
            },
            Some(i) => i,
        };
        proof {
            reveal_fake(self);
        }
        let slot = self.pending.remove(i);
        if slot.polls_remaining > 0 {
            let PendingReadback { id, polls_remaining, result } = slot;
            self.pending.insert(i, PendingReadback { id, polls_remaining: polls_remaining - 1, result });
            proof {
                reveal_fake(self);
                assert(self@.pending =~= old(self)@.pending.update(
                    i as int,
                    PendingReadback { polls_remaining: (polls_remaining - 1) as u32, ..old(self)@.pending[i as int] },
                ));
            }
            return Ok(ReadbackStatus::Pending);
        }
        proof {
            reveal_fake(self);
        }
        Ok(ReadbackStatus::Ready(slot.result))
    }
}

} // verus!
