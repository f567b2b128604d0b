//! In-memory `ResidencyBackend` for tests.
//!
//! Stores per-resource bytes in a `Vec<u8>` and a separate diagnostic buffer
//! per resource when an attachment was declared. Lets tests round-trip patches
//! and readbacks without a GPU, and exposes a knob to simulate readback
//! latency.

use vstd::prelude::*;

use crate::residency_core::diagnostics::DiagnosticAttachment;
use crate::residency_core::freshness::Freshness;
use crate::residency_core::generation::Generation;
use crate::residency_core::readback::ReadbackId;
use crate::residency_core::resource::{ChunkId, ElementType, LayoutError, ResourceId, ResourceLayout};
use crate::residency_core::summary::SummaryKind;
use crate::residency_core::view::{ViewResult, ViewSelector};

mod backend_impl;
mod model;
mod selectors;

pub use model::{
    apply_resizes, apply_uploads, end_error, fake_index, is_fake_index, is_pending_index,
    pack_chunks, pack_events, pending_index, resize_step, selector_bytes, slice_range_error,
    summary_supported, upload_step, zero_bytes, overwritten, FakeResourceView, FakeView,
};

verus! {

/// One allocated resource of the in-memory backend.
pub(crate) struct FakeResource {
    pub(crate) id: ResourceId,
    pub(crate) bytes: Vec<u8>,
    pub(crate) layout: ResourceLayout,
    pub(crate) diagnostics: Option<DiagnosticAttachment>,
    pub(crate) diagnostic_bytes: Vec<u8>,
    pub(crate) generation: Generation,
}

impl View for FakeResource {
    type V = FakeResourceView;

    closed spec fn view(&self) -> FakeResourceView {
        FakeResourceView {
            id: self.id@,
            bytes: self.bytes@,
            layout: self.layout,
            diagnostics: self.diagnostics,
            diagnostic_bytes: self.diagnostic_bytes@,
            generation: self.generation.0 as int,
        }
    }
}

/// A readback waiting to be polled.
pub struct PendingReadback {
    /// Identifier handed out in the readback's token.
    pub id: ReadbackId,
    /// How many more polls report `Pending` before the result is ready.
    pub polls_remaining: u32,
    /// The result served once the readback is ready.
    pub result: ViewResult,
}

/// In-memory [`ResidencyBackend`] implementation that stores resource bytes
/// without a GPU.
pub struct FakeBackend {
    next_handle: u64,
    next_readback: u64,
    resources: Vec<FakeResource>,
    pending: Vec<PendingReadback>,
    /// How many `poll_readback` calls return `Pending` before a result becomes
    /// `Ready`. `0` = immediately ready.
    pub ready_after_polls: u32,
}

impl View for FakeBackend {
    type V = FakeView;

    closed spec fn view(&self) -> FakeView {
        FakeView {
            next_handle: self.next_handle as int,
            next_readback: self.next_readback as int,
            resources: self.resources@.map_values(|r: FakeResource| r@),
            pending: self.pending@,
            ready_after_polls: self.ready_after_polls,
        }
    }
}

/// The model of a backend, field by field.
proof fn reveal_fake(b: &FakeBackend)
    ensures
        b@.next_handle == b.next_handle as int,
        b@.next_readback == b.next_readback as int,
        b@.resources == b.resources@.map_values(|r: FakeResource| r@),
        b@.pending == b.pending@,
        b@.ready_after_polls == b.ready_after_polls,
{
}

/// The model of a resource, field by field.
pub(crate) proof fn reveal_fake_resource(r: &FakeResource)
    ensures
        r@.id == r.id@,
        r@.bytes == r.bytes@,
        r@.layout == r.layout,
        r@.diagnostics == r.diagnostics,
        r@.diagnostic_bytes == r.diagnostic_bytes@,
        r@.generation == r.generation.0 as int,
{
}

/// Errors emitted by the in-memory fake backend.
#[derive(Debug)]
pub enum FakeBackendError {
    /// A backend operation referenced an unknown resource.
    UnknownResource(ResourceId),
    /// The fake backend does not implement the requested selector for the layout.
    UnsupportedSelector(ViewSelector),
    /// The fake backend does not implement the requested summary for the element type.
    UnsupportedSummary {
        /// Unsupported summary kind.
        kind: SummaryKind,
        /// Resource element type.
        element: ElementType,
    },
    /// Diagnostic readback was requested for a resource without diagnostics.
    MissingDiagnostics(ResourceId),
    /// Requested byte range exceeded backend buffer size.
    OutOfBounds {
        /// Requested byte offset.
        offset: u64,
        /// Requested byte length.
        len: u64,
        /// Actual buffer size in bytes.
        size: usize,
    },
    /// Requested chunk coordinate is outside a chunked layout.
    ChunkOutOfBounds {
        /// Resource being read.
        resource: ResourceId,
        /// Offending chunk coordinate.
        chunk: ChunkId,
        /// Number of chunks on the x axis.
        chunks_x: u32,
        /// Number of chunks on the y axis.
        chunks_y: u32,
    },
    /// Resize operation does not match the current backend allocation size.
    ResizeOldSizeMismatch {
        /// Resource being resized.
        resource: ResourceId,
        /// Size declared by the resize operation.
        expected: u64,
        /// Actual backend allocation size.
        actual: u64,
    },
    /// Resize operation would shrink the backend allocation and discard data.
    ResizeWouldShrink {
        /// Resource being resized.
        resource: ResourceId,
        /// Current backend allocation size.
        old_size: u64,
        /// Requested allocation size.
        new_size: u64,
    },
    /// Layout metadata could not be represented safely.
    LayoutMetadata(LayoutError),
    /// Event-candidate readback did not carry the graph-captured event head.
    MissingEventHead(ResourceId),
    /// Pending readback disappeared between lookup and completion.
    MissingPendingReadback(ReadbackId),
    /// Requested byte size is not representable on this target.
    SizeNotRepresentable {
        /// Resource whose size could not be represented.
        resource: ResourceId,
        /// Requested byte size.
        size: u64,
    },
    /// Slice length is not representable by the backend range math.
    LengthNotRepresentable {
        /// Resource whose length could not be represented.
        resource: ResourceId,
        /// Requested byte length.
        len: usize,
    },
    /// A fake-backend monotonic counter overflowed.
    CounterOverflow {
        /// Name of the counter that overflowed.
        counter: &'static str,
    },
    /// Backend resource generation does not satisfy the planned freshness.
    FreshnessUnavailable {
        /// Resource being read back.
        resource: ResourceId,
        /// Requested freshness.
        requested: Freshness,
        /// Generation currently stored by the backend.
        served: Generation,
    },
    /// Summary value cannot be represented by the public summary result type.
    SummaryOverflow {
        /// Summary operation that overflowed.
        kind: SummaryKind,
        /// Resource element type being summarized.
        element: ElementType,
    },
}

/// `size` as a `usize`, or the error naming `resource` when it does not fit.
pub(crate) fn usize_size(resource: &ResourceId, size: u64) -> (r: Result<usize, FakeBackendError>)
    ensures
        size <= usize::MAX ==> r == Ok::<usize, FakeBackendError>(size as usize),
        size > usize::MAX ==> r == Err::<usize, FakeBackendError>(
            FakeBackendError::SizeNotRepresentable { resource: *resource, size },
        ),
{
    if size > usize::MAX as u64 {
        return Err(FakeBackendError::SizeNotRepresentable { resource: resource.clone_id(), size });
    }
    Ok(size as usize)
}

/// The end of the range `[offset, offset + len)` when it lies within `size`
/// bytes.
pub(crate) fn checked_end(offset: u64, len: u64, size: usize) -> (r: Result<usize, FakeBackendError>)
    ensures
        r == (match end_error(offset, len, size) {
            Some(e) => Err(e),
            None => Ok::<usize, FakeBackendError>((offset + len) as usize),
        }),
{
    let oob = FakeBackendError::OutOfBounds { offset, len, size };
    if offset > usize::MAX as u64 || len > usize::MAX as u64 {
        return Err(oob);
    }
    let start = offset as usize;
    let n = len as usize;
    let end = match start.checked_add(n) {
        None => {
            return Err(oob);
        },
        Some(e) => e,
    };
    if end > size {
        return Err(oob);
    }
    Ok(end)
}

/// The range `[offset, offset + len)` of a buffer of `size` bytes, checked.
pub(crate) fn checked_slice_range(resource: &ResourceId, offset: u64, len: usize, size: usize) -> (r: Result<(usize, usize), FakeBackendError>)
    ensures
        r == (match slice_range_error(*resource, offset, len, size) {
            Some(e) => Err(e),
            None => Ok::<(usize, usize), FakeBackendError>((offset as usize, (offset + len) as usize)),
        }),
{
    let len_u64 = len as u64;
    let start = match usize_size(resource, offset) {
        Err(e) => {
            return Err(e);
        },
        Ok(s) => s,
    };
    let end = match checked_end(offset, len_u64, size) {
        Err(e) => {
            return Err(e);
        },
        Ok(e) => e,
    };
    Ok((start, end))
}

/// Whether a resource at generation `served` satisfies `requested`.
pub(crate) fn freshness_available(requested: Freshness, served: Generation) -> (b: bool)
    ensures
        b == requested.satisfied_by(served.0),
{
    match requested {
        Freshness::LatestAvailable | Freshness::Snapshot => true,
        Freshness::AtLeastGeneration(g) => served.0 >= g.0,
        Freshness::ExactGeneration(g) => served.0 == g.0,
    }
}

/// `dst` with `src` written over the bytes from `start` on.
pub(crate) fn overwrite(dst: &mut Vec<u8>, start: usize, src: &[u8])
    requires
        start + src@.len() <= old(dst)@.len(),
    ensures
        final(dst)@ == old(dst)@.subrange(0, start as int) + src@ + old(dst)@.subrange(
            start + src@.len(),
            old(dst)@.len() as int,
        ),
{
    let n = dst.len();
    let mut k: usize = 0;
    while k < src.len()
        invariant
            start + src@.len() <= old(dst)@.len(),
            n == old(dst)@.len(),
            k <= src@.len(),
            dst@.len() == old(dst)@.len(),
            forall|i: int| 0 <= i < start ==> dst@[i] == old(dst)@[i],
            forall|i: int| 0 <= i < k ==> dst@[start + i] == src@[i],
            forall|i: int| start + k <= i < dst@.len() ==> dst@[i] == old(dst)@[i],
        decreases src@.len() - k,
    {
        dst.set(start + k, src[k]);
        k = k + 1;
    }
    assert(dst@ =~= old(dst)@.subrange(0, start as int) + src@ + old(dst)@.subrange(
        start + src@.len(),
        old(dst)@.len() as int,
    ));
}

/// `n` zero bytes.
pub(crate) fn zeros(n: usize) -> (v: Vec<u8>)
    ensures
        v@ == Seq::new(n as nat, |i: int| 0u8),
{
    let mut v: Vec<u8> = Vec::new();
    let mut k: usize = 0;
    while k < n
        invariant
            k <= n,
            v@ == Seq::new(k as nat, |i: int| 0u8),
        decreases n - k,
    {
        v.push(0);
        k = k + 1;
        assert(v@ =~= Seq::new(k as nat, |i: int| 0u8));
    }
    v
}

} // verus!
