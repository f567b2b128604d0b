//! Mathematical model of the in-memory backend and of what each operation
//! does to it.

use vstd::prelude::*;

use crate::residency_core::backend::BackendResourceHandle;
use crate::residency_core::diagnostics::DiagnosticAttachment;
use crate::residency_core::generation::Generation;
use crate::residency_core::readback::ReadbackToken;
use crate::residency_core::plan::PlannedReadback;
use crate::residency_core::fake_backend::{FakeBackendError, PendingReadback};
use crate::residency_core::graph::min3;
use crate::residency_core::plan::{ResizeOp, UploadOp};
use crate::residency_core::readback::ReadbackId;
use crate::residency_core::resource::{
    ChunkId, ChunkedLayoutInfo, ElementType, LayoutError, LayoutKind, ResourceDesc, ResourceId,
    ResourceLayout,
};
use crate::residency_core::summary::SummaryKind;
use crate::residency_core::view::ViewSelector;

verus! {

/// Model of one backend resource.
pub struct FakeResourceView {
    /// The resource's identifier.
    pub id: Seq<char>,
    /// The bytes the backend holds.
    pub bytes: Seq<u8>,
    /// Logical storage layout.
    pub layout: ResourceLayout,
    /// Declared diagnostic attachment.
    pub diagnostics: Option<DiagnosticAttachment>,
    /// The diagnostic bytes the backend holds.
    pub diagnostic_bytes: Seq<u8>,
    /// Generation of the last resize or upload applied.
    pub generation: int,
}

/// Model of the whole backend.
pub struct FakeView {
    /// Handle the next `create_resource` hands out.
    pub next_handle: int,
    /// Identifier the next readback gets.
    pub next_readback: int,
    /// Allocated resources.
    pub resources: Seq<FakeResourceView>,
    /// Readbacks waiting to be polled.
    pub pending: Seq<PendingReadback>,
    /// Polls a new readback stays pending for.
    pub ready_after_polls: u32,
}

/// `i` is the first position of a resource with identifier `id`.
pub open spec fn is_fake_index(rs: Seq<FakeResourceView>, id: Seq<char>, i: int) -> bool {
    &&& 0 <= i < rs.len()
    &&& rs[i].id == id
    &&& forall|j: int| 0 <= j < i ==> (#[trigger] rs[j]).id != id
}

/// The first position of a resource with identifier `id`, if any.
pub open spec fn fake_index(rs: Seq<FakeResourceView>, id: Seq<char>) -> Option<int> {
    if exists|i: int| is_fake_index(rs, id, i) {
        Some(choose|i: int| is_fake_index(rs, id, i))
    } else {
        None
    }
}

/// `i` is the first position of a pending readback with identifier `id`.
pub open spec fn is_pending_index(ps: Seq<PendingReadback>, id: ReadbackId, i: int) -> bool {
    &&& 0 <= i < ps.len()
    &&& ps[i].id == id
    &&& forall|j: int| 0 <= j < i ==> (#[trigger] ps[j]).id != id
}

/// The first position of a pending readback with identifier `id`, if any.
pub open spec fn pending_index(ps: Seq<PendingReadback>, id: ReadbackId) -> Option<int> {
    if exists|i: int| is_pending_index(ps, id, i) {
        Some(choose|i: int| is_pending_index(ps, id, i))
    } else {
        None
    }
}

/// The error for the range `[offset, offset + len)` of `size` bytes, if it
/// does not lie within them.
pub open spec fn end_error(offset: u64, len: u64, size: usize) -> Option<FakeBackendError> {
    if offset + len > size {
        Some(FakeBackendError::OutOfBounds { offset, len, size })
    } else {
        None
    }
}

/// The error for `len` bytes at `offset` of a buffer of `size` bytes of
/// `resource`, if any.
pub open spec fn slice_range_error(resource: ResourceId, offset: u64, len: usize, size: usize) -> Option<FakeBackendError> {
    if offset > usize::MAX {
        Some(FakeBackendError::SizeNotRepresentable { resource, size: offset })
    } else {
        end_error(offset, len as u64, size)
    }
}

/// `bytes` with `src` written from `start` on.
pub open spec fn overwritten(bytes: Seq<u8>, start: int, src: Seq<u8>) -> Seq<u8> {
    bytes.subrange(0, start) + src + bytes.subrange(start + src.len(), bytes.len() as int)
}

/// What applying one resize does.
pub open spec fn resize_step(v: FakeView, op: ResizeOp) -> Result<FakeView, FakeBackendError> {
    match fake_index(v.resources, op.resource@) {
        None => Err(FakeBackendError::UnknownResource(op.resource)),
        Some(i) => {
            let r = v.resources[i];
            let actual = r.bytes.len();
            if op.old_size != actual {
                Err(
                    FakeBackendError::ResizeOldSizeMismatch {
                        resource: op.resource,
                        expected: op.old_size,
                        actual: actual as u64,
                    },
                )
            } else if op.new_size < actual {
                Err(
                    FakeBackendError::ResizeWouldShrink {
                        resource: op.resource,
                        old_size: actual as u64,
                        new_size: op.new_size,
                    },
                )
            } else if op.new_size > usize::MAX {
                Err(FakeBackendError::SizeNotRepresentable { resource: op.resource, size: op.new_size })
            } else {
                let grown = FakeResourceView {
                    bytes: r.bytes + Seq::new((op.new_size - actual) as nat, |k: int| 0u8),
                    generation: op.resulting_generation.0 as int,
                    ..r
                };
                Ok(FakeView { resources: v.resources.update(i, grown), ..v })
            }
        },
    }
}

/// The backend after applying resizes in order, and the first error, at
/// which the remaining resizes are skipped.
pub open spec fn apply_resizes(v: FakeView, ops: Seq<ResizeOp>) -> (FakeView, Option<FakeBackendError>)
    decreases ops.len(),
{
    if ops.len() == 0 {
        (v, None)
    } else {
        let (v1, e1) = apply_resizes(v, ops.drop_last());
        if e1 is Some {
            (v1, e1)
        } else {
            match resize_step(v1, ops.last()) {
                Ok(v2) => (v2, None),
                Err(e) => (v1, Some(e)),
            }
        }
    }
}

/// What applying one upload does after `total` bytes were uploaded: the
/// backend after it, and the new total or the error.
pub open spec fn upload_step(v: FakeView, op: UploadOp, total: int) -> (FakeView, Result<int, FakeBackendError>) {
    match fake_index(v.resources, op.resource@) {
        None => (v, Err(FakeBackendError::UnknownResource(op.resource))),
        Some(i) => {
            let r = v.resources[i];
            match slice_range_error(op.resource, op.byte_offset, op.bytes@.len() as usize, r.bytes.len() as usize) {
                Some(e) => (v, Err(e)),
                None => {
                    let written = FakeResourceView {
                        bytes: overwritten(r.bytes, op.byte_offset as int, op.bytes@),
                        generation: op.resulting_generation.0 as int,
                        ..r
                    };
                    let v1 = FakeView { resources: v.resources.update(i, written), ..v };
                    if total + op.bytes@.len() > u64::MAX {
                        (v1, Err(FakeBackendError::CounterOverflow { counter: "uploaded_bytes" }))
                    } else {
                        (v1, Ok(total + op.bytes@.len()))
                    }
                },
            }
        },
    }
}

/// The backend after applying uploads in order, and the total bytes
/// uploaded or the first error, at which the remaining uploads are skipped.
pub open spec fn apply_uploads(v: FakeView, ops: Seq<UploadOp>) -> (FakeView, Result<int, FakeBackendError>)
    decreases ops.len(),
{
    if ops.len() == 0 {
        (v, Ok(0))
    } else {
        let (v1, r1) = apply_uploads(v, ops.drop_last());
        match r1 {
            Err(e) => (v1, Err(e)),
            Ok(t) => upload_step(v1, ops.last(), t),
        }
    }
}

/// The bytes of the chunks `ids` of resource `r`, packed in order, or the
/// first error.
pub open spec fn pack_chunks(
    r: FakeResourceView,
    resource: ResourceId,
    info: ChunkedLayoutInfo,
    ids: Seq<ChunkId>,
    chunk_size: u64,
) -> Result<Seq<u8>, FakeBackendError>
    decreases ids.len(),
{
    if ids.len() == 0 {
        Ok(Seq::empty())
    } else {
        match pack_chunks(r, resource, info, ids.drop_last(), chunk_size) {
            Err(e) => Err(e),
            Ok(acc) => {
                let chunk = ids.last();
                if !info.spec_contains(chunk) {
                    Err(
                        FakeBackendError::ChunkOutOfBounds {
                            resource,
                            chunk,
                            chunks_x: info.chunks_x,
                            chunks_y: info.chunks_y,
                        },
                    )
                } else {
                    match info.spec_chunk_offset(chunk) {
                        None => Err(
                            FakeBackendError::LayoutMetadata(
                                LayoutError::ByteSizeOverflow { layout: LayoutKind::Chunked2D },
                            ),
                        ),
                        Some(off) => if off > usize::MAX {
                            Err(FakeBackendError::SizeNotRepresentable { resource, size: off as u64 })
                        } else {
                            match end_error(off as u64, chunk_size, r.bytes.len() as usize) {
                                Some(e) => Err(e),
                                None => Ok(acc + r.bytes.subrange(off, off + chunk_size)),
                            }
                        },
                    }
                }
            },
        }
    }
}

/// The bytes of records `0..k` of the `n` most recent records of an event
/// ring whose logical head is `head`, oldest first, or the first error.
pub open spec fn pack_events(
    r: FakeResourceView,
    resource: ResourceId,
    head: int,
    n: int,
    size: u64,
    count: u64,
    k: int,
) -> Result<Seq<u8>, FakeBackendError>
    decreases k,
{
    if k <= 0 {
        Ok(Seq::empty())
    } else {
        match pack_events(r, resource, head, n, size, count, k - 1) {
            Err(e) => Err(e),
            Ok(acc) => {
                let pos = (head - n + (k - 1)) % (count as int);
                if pos * size > u64::MAX {
                    Err(FakeBackendError::OutOfBounds { offset: pos as u64, len: size, size: r.bytes.len() as usize })
                } else if pos * size > usize::MAX {
                    Err(FakeBackendError::SizeNotRepresentable { resource, size: (pos * size) as u64 })
                } else {
                    match end_error((pos * size) as u64, size, r.bytes.len() as usize) {
                        Some(e) => Err(e),
                        None => Ok(acc + r.bytes.subrange(pos * size, pos * size + size)),
                    }
                }
            },
        }
    }
}

/// Whether the backend computes summary `kind` over elements of type
/// `element`.
pub open spec fn summary_supported(kind: SummaryKind, element: ElementType) -> bool {
    match kind {
        SummaryKind::CountNonzero => element != ElementType::Bytes,
        SummaryKind::MinMaxF32 => element == ElementType::F32,
        SummaryKind::SumU32 => element == ElementType::U32,
    }
}

/// The bytes the backend serves for a selector other than a summary, the
/// error, or `Err(None)` when the selector does not fit the layout.
pub open spec fn selector_bytes(
    r: FakeResourceView,
    resource: ResourceId,
    selector: ViewSelector,
    event_head: Option<u64>,
) -> Result<Seq<u8>, Option<FakeBackendError>> {
    let size = r.bytes.len();
    match selector {
        ViewSelector::Full => Ok(r.bytes),
        ViewSelector::Range { offset, len } => if offset > usize::MAX {
            Err(Some(FakeBackendError::SizeNotRepresentable { resource, size: offset }))
        } else {
            match end_error(offset, len, size as usize) {
                Some(e) => Err(Some(e)),
                None => Ok(r.bytes.subrange(offset as int, offset + len)),
            }
        },
        ViewSelector::Diagnostics => if r.diagnostics is None {
            Err(Some(FakeBackendError::MissingDiagnostics(resource)))
        } else {
            Ok(r.diagnostic_bytes)
        },
        ViewSelector::Rows { start, count } => match r.layout.spec_dimensions_2d() {
            None => Err(None),
            Some((width, _)) => {
                let stride = width * r.layout.spec_element_size();
                if stride > u64::MAX {
                    Err(Some(FakeBackendError::OutOfBounds { offset: 0, len: u64::MAX, size: size as usize }))
                } else if start * stride > u64::MAX {
                    Err(Some(FakeBackendError::OutOfBounds { offset: start as u64, len: stride as u64, size: size as usize }))
                } else if count * stride > u64::MAX {
                    Err(
                        Some(
                            FakeBackendError::OutOfBounds {
                                offset: (start * stride) as u64,
                                len: count as u64,
                                size: size as usize,
                            },
                        ),
                    )
                } else if start * stride > usize::MAX {
                    Err(Some(FakeBackendError::SizeNotRepresentable { resource, size: (start * stride) as u64 }))
                } else {
                    match end_error((start * stride) as u64, (count * stride) as u64, size as usize) {
                        Some(e) => Err(Some(e)),
                        None => Ok(r.bytes.subrange(start * stride, start * stride + count * stride)),
                    }
                }
            },
        },
        ViewSelector::Chunks { ids } => match r.layout.spec_chunked_info() {
            Err(e) => Err(Some(FakeBackendError::LayoutMetadata(e))),
            Ok(None) => Err(None),
            Ok(Some(info)) => match info.spec_chunk_size() {
                None => Err(
                    Some(
                        FakeBackendError::LayoutMetadata(
                            LayoutError::ByteSizeOverflow { layout: LayoutKind::Chunked2D },
                        ),
                    ),
                ),
                Some(chunk_size) => if chunk_size > usize::MAX {
                    Err(Some(FakeBackendError::SizeNotRepresentable { resource, size: chunk_size as u64 }))
                } else if ids@.len() * chunk_size > usize::MAX {
                    Err(Some(FakeBackendError::OutOfBounds { offset: 0, len: chunk_size as u64, size: size as usize }))
                } else {
                    match pack_chunks(r, resource, info, ids@, chunk_size as u64) {
                        Err(e) => Err(Some(e)),
                        Ok(b) => Ok(b),
                    }
                },
            },
        },
        ViewSelector::Summary { .. } => Err(None),
        ViewSelector::EventCandidates { max_records } => match r.layout.spec_event_ring_info() {
            None => Err(None),
            Some((rsize, rcount)) => match event_head {
                None => Err(Some(FakeBackendError::MissingEventHead(resource))),
                Some(head) => {
                    let n = min3(max_records as int, head as int, rcount as int);
                    if n * rsize > u64::MAX {
                        Err(Some(FakeBackendError::OutOfBounds { offset: 0, len: rsize, size: size as usize }))
                    } else if n * rsize > usize::MAX {
                        Err(Some(FakeBackendError::SizeNotRepresentable { resource, size: (n * rsize) as u64 }))
                    } else {
                        match pack_events(r, resource, head as int, n, rsize, rcount, n) {
                            Err(e) => Err(Some(e)),
                            Ok(b) => Ok(b),
                        }
                    }
                },
            },
        },
    }
}

impl FakeView {
    /// The model of a new backend.
    pub open spec fn empty() -> FakeView {
        FakeView {
            next_handle: 0,
            next_readback: 0,
            resources: Seq::empty(),
            pending: Seq::empty(),
            ready_after_polls: 0,
        }
    }

    /// The backend with `r` stored under its identifier: replacing the first
    /// resource with that identifier, or added after the others.
    pub open spec fn store(self, r: FakeResourceView) -> FakeView {
        FakeView {
            resources: match fake_index(self.resources, r.id) {
                Some(i) => self.resources.update(i, r),
                None => self.resources.push(r),
            },
            ..self
        }
    }

    /// The backend with `p` stored under its identifier: replacing the first
    /// pending readback with that identifier, or added after the others.
    pub open spec fn store_pending(self, p: PendingReadback) -> FakeView {
        FakeView {
            pending: match pending_index(self.pending, p.id) {
                Some(i) => self.pending.update(i, p),
                None => self.pending.push(p),
            },
            ..self
        }
    }
}

/// `n` zero bytes.
pub open spec fn zero_bytes(n: int) -> Seq<u8> {
    Seq::new(n as nat, |k: int| 0u8)
}

impl FakeView {
    /// What `create_resource` does: the resource is stored with zeroed bytes
    /// (replacing one with the same identifier) and gets the next handle.
    pub open spec fn create_outcome(self, desc: ResourceDesc) -> (FakeView, Result<BackendResourceHandle, FakeBackendError>) {
        match desc.layout.spec_checked_byte_size() {
            None => (
                self,
                Err(FakeBackendError::LayoutMetadata(LayoutError::ByteSizeOverflow { layout: desc.layout.kind() })),
            ),
            Some(size) => {
                let dsize: int = match desc.diagnostics {
                    Some(d) => d.layout.spec_byte_size() as int,
                    None => 0,
                };
                if size > usize::MAX {
                    (self, Err(FakeBackendError::SizeNotRepresentable { resource: desc.id, size: size as u64 }))
                } else if dsize > usize::MAX {
                    (self, Err(FakeBackendError::SizeNotRepresentable { resource: desc.id, size: dsize as u64 }))
                } else {
                    let stored = self.store(
                        FakeResourceView {
                            id: desc.id@,
                            bytes: zero_bytes(size),
                            layout: desc.layout,
                            diagnostics: desc.diagnostics,
                            diagnostic_bytes: zero_bytes(dsize),
                            generation: 0,
                        },
                    );
                    if self.next_handle >= u64::MAX {
                        (stored, Err(FakeBackendError::CounterOverflow { counter: "resource_handle" }))
                    } else {
                        (
                            FakeView { next_handle: self.next_handle + 1, ..stored },
                            Ok(BackendResourceHandle(self.next_handle as u64)),
                        )
                    }
                }
            },
        }
    }

    /// Where a readback with identifier `id` is stored: over the first one
    /// with that identifier, or after the others.
    pub open spec fn pending_slot(self, id: ReadbackId) -> int {
        match pending_index(self.pending, id) {
            Some(j) => j,
            None => self.pending.len() as int,
        }
    }

    /// Whether `new` and `r` are what serving `request` from resource `res`
    /// gives: a new pending readback under the next identifier (its bytes are
    /// `served_bytes`), or a counter overflow that changes nothing.
    pub open spec fn served(
        self,
        new: FakeView,
        request: PlannedReadback,
        res: FakeResourceView,
        r: Result<ReadbackToken, FakeBackendError>,
    ) -> bool {
        if self.next_readback >= u64::MAX {
            new == self && r == Err::<ReadbackToken, FakeBackendError>(
                FakeBackendError::CounterOverflow { counter: "readback_token" },
            )
        } else {
            let id = ReadbackId(self.next_readback as u64);
            let p = new.pending[self.pending_slot(id)];
            &&& r == Ok::<ReadbackToken, FakeBackendError>(
                ReadbackToken { id, resource: request.resource, freshness: request.freshness },
            )
            &&& p.id == id
            &&& p.polls_remaining == self.ready_after_polls
            &&& p.result.resource == request.resource
            &&& p.result.selector == request.selector
            &&& p.result.served_generation == Generation(res.generation as u64)
            &&& new == (FakeView { next_readback: self.next_readback + 1, ..self }).store_pending(p)
        }
    }

    /// The bytes of the readback that serving a request stored, when it
    /// stored one.
    pub open spec fn served_bytes(self, new: FakeView) -> Seq<u8> {
        new.pending[self.pending_slot(ReadbackId(self.next_readback as u64))].result.bytes@
    }
}

} // verus!
