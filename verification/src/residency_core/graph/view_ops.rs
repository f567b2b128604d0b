//! View request validation for `SyncGraph`.

use vstd::prelude::*;

use crate::residency_core::contract::ReadbackPolicy;
use crate::residency_core::freshness::Freshness;
use crate::residency_core::generation::Generation;
use crate::residency_core::graph::model::{
    estimate_download, first_chunk_out, is_first_chunk_out, min3, policy_denial, selector_error,
    Denial, GraphView,
};
use crate::residency_core::graph::{reveal_view, ResourceState, SyncGraph, ViewRequestError};
use crate::residency_core::plan::PlannedReadback;
use crate::residency_core::report::{ReportView, SyncWarning};
use crate::residency_core::resource::{
    ChunkId, ChunkedLayoutInfo, ElementType, LayoutError, LayoutField, ResourceId,
};
use crate::residency_core::view::{ViewRequest, ViewSelector};

verus! {

/// Two first-out positions of the same sequence are the same position.
proof fn lemma_first_chunk_out_unique(ids: Seq<ChunkId>, info: ChunkedLayoutInfo, i: int, j: int)
    requires
        is_first_chunk_out(ids, info, i),
        is_first_chunk_out(ids, info, j),
    ensures
        i == j,
{
    if i < j {
        assert(info.spec_contains(ids[i]));
    } else if j < i {
        assert(info.spec_contains(ids[j]));
    }
}

/// The first chunk of `ids` outside the grid described by `info`.
fn find_chunk_out(ids: &Vec<ChunkId>, info: ChunkedLayoutInfo) -> (r: Option<usize>)
    ensures
        r matches Some(i) ==> first_chunk_out(ids@, info) == Some(i as int) && i < ids@.len(),
        r is None ==> first_chunk_out(ids@, info) is None,
{
    let mut i: usize = 0;
    while i < ids.len()
        invariant
            i <= ids@.len(),
            forall|j: int| 0 <= j < i ==> info.spec_contains(#[trigger] ids@[j]),
        decreases ids@.len() - i,
    {
        if !info.contains(ids[i]) {
            proof {
                assert(is_first_chunk_out(ids@, info, i as int));
                let k = choose|k: int| is_first_chunk_out(ids@, info, k);
                lemma_first_chunk_out_unique(ids@, info, i as int, k);
            }
            return Some(i);
        }
        i = i + 1;
    }
    proof {
        if exists|k: int| is_first_chunk_out(ids@, info, k) {
            let k = choose|k: int| is_first_chunk_out(ids@, info, k);
            assert(info.spec_contains(ids@[k]));
        }
    }
    None
}

/// Checks a selector against the resource it reads.
fn validate_selector(
    state: &ResourceState,
    chunks: Option<ChunkedLayoutInfo>,
    id: ResourceId,
    selector: &ViewSelector,
) -> (r: Result<(), ViewRequestError>)
    ensures
        r == (match selector_error(state@, chunks, id, *selector) {
            Some(err) => Err(err),
            None => Ok(()),
        }),
{
    proof {
        reveal_view_state(state);
    }
    match selector {
        ViewSelector::Diagnostics => {
            if state.diagnostics.is_none() {
                return Err(ViewRequestError::MissingDiagnostics { id });
            }
            Ok(())
        },
        ViewSelector::Full => Ok(()),
        ViewSelector::Range { offset, len } => {
            let capacity = state.capacity_bytes;
            let alignment = state.layout.alignment();
            let out = match offset.checked_add(*len) {
                None => true,
                Some(end) => end > capacity,
            };
            if out {
                return Err(ViewRequestError::OutOfBounds { id, offset: *offset, len: *len, capacity });
            }
            if alignment > 0 && *offset % alignment != 0 {
                return Err(ViewRequestError::Misaligned { id, offset: *offset, alignment });
            }
            Ok(())
        },
        ViewSelector::Rows { start, count } => {
            let (_width, height) = match state.layout.dimensions_2d() {
                None => {
                    return Err(ViewRequestError::RowsRequiresDense2D { id });
                },
                Some(d) => d,
            };
            if height > 0xffff_ffffusize {
                return Err(
                    ViewRequestError::LayoutMetadata {
                        id,
                        source: LayoutError::ChunkedDimensionTooLarge { field: LayoutField::Height, value: height },
                    },
                );
            }
            let height_u32 = height as u32;
            let end = match start.checked_add(*count) {
                None => {
                    return Err(ViewRequestError::RowsEndOverflow { id, start: *start, count: *count });
                },
                Some(e) => e,
            };
            if end > height_u32 {
                return Err(
                    ViewRequestError::RowsOutOfBounds { id, start: *start, count: *count, height: height_u32 },
                );
            }
            Ok(())
        },
        ViewSelector::Chunks { ids } => {
            let info = match chunks {
                None => {
                    return Err(ViewRequestError::ChunksRequiresChunkedLayout { id });
                },
                Some(info) => info,
            };
            match find_chunk_out(ids, info) {
                Some(i) => Err(
                    ViewRequestError::ChunkOutOfBounds {
                        id,
                        chunk: ids[i],
                        chunks_x: info.chunks_x,
                        chunks_y: info.chunks_y,
                    },
                ),
                None => Ok(()),
            }
        },
        ViewSelector::Summary { kind } => {
            let element = state.layout.element_type();
            if element == ElementType::Bytes {
                return Err(ViewRequestError::SummaryRequiresTypedLayout { id });
            }
            if !kind.compatible_with(element) {
                return Err(ViewRequestError::SummaryIncompatible { id, kind: *kind, element });
            }
            Ok(())
        },
        ViewSelector::EventCandidates { .. } => {
            if state.layout.event_ring_info().is_none() {
                return Err(ViewRequestError::EventCandidatesRequiresEventRing { id });
            }
            Ok(())
        },
    }
}

/// `a * b` when it fits a `u64`.
fn mul_u64(a: u64, b: u64) -> (r: Option<u64>)
    ensures
        r matches Some(v) ==> v == a * b,
        r is None ==> a * b > u64::MAX,
{
    proof {
        assert(0 <= a * b) by (nonlinear_arith);
    }
    a.checked_mul(b)
}

/// The number of bytes a view is expected to download.
fn estimate_download_bytes(
    state: &ResourceState,
    chunks: Option<ChunkedLayoutInfo>,
    id: ResourceId,
    selector: &ViewSelector,
) -> (r: Result<u64, ViewRequestError>)
    ensures
        match estimate_download(state@, chunks, id, *selector) {
            Ok(b) => r == Ok::<u64, ViewRequestError>(b as u64) && 0 <= b <= u64::MAX,
            Err(err) => r == Err::<u64, ViewRequestError>(err),
        },
{
    proof {
        reveal_view_state(state);
    }
    match selector {
        ViewSelector::Diagnostics => match state.diagnostics {
            Some(d) => Ok(d.layout.byte_size()),
            None => Ok(0),
        },
        ViewSelector::Range { len, .. } => Ok(*len),
        ViewSelector::Full => Ok(state.capacity_bytes),
        ViewSelector::Rows { count, .. } => {
            let (width, _) = match state.layout.dimensions_2d() {
                None => {
                    return Err(ViewRequestError::RowsRequiresDense2D { id });
                },
                Some(d) => d,
            };
            match mul_u64(*count as u64, width as u64) {
                None => Err(ViewRequestError::DownloadEstimateOverflow { id }),
                Some(elements) => match mul_u64(elements, state.layout.element_size()) {
                    None => Err(ViewRequestError::DownloadEstimateOverflow { id }),
                    Some(b) => Ok(b),
                },
            }
        },
        ViewSelector::Chunks { ids } => {
            let info = match chunks {
                None => {
                    return Err(ViewRequestError::ChunksRequiresChunkedLayout { id });
                },
                Some(info) => info,
            };
            let size = match info.checked_chunk_size_bytes() {
                Err(source) => {
                    return Err(ViewRequestError::LayoutMetadata { id, source });
                },
                Ok(s) => s,
            };
            match mul_u64(ids.len() as u64, size) {
                None => Err(ViewRequestError::DownloadEstimateOverflow { id }),
                Some(b) => Ok(b),
            }
        },
        ViewSelector::Summary { kind } => Ok(kind.result_size_bytes()),
        ViewSelector::EventCandidates { max_records } => {
            let (record_size, record_count) = match state.layout.event_ring_info() {
                None => {
                    return Err(ViewRequestError::EventCandidatesRequiresEventRing { id });
                },
                Some(info) => info,
            };
            let head = state.event_head;
            let inner = if head < record_count {
                head
            } else {
                record_count
            };
            let n = if (*max_records as u64) < inner {
                *max_records as u64
            } else {
                inner
            };
            assert(n == min3(*max_records as int, state@.event_head, record_count as int));
            match mul_u64(n, record_size) {
                None => Err(ViewRequestError::DownloadEstimateOverflow { id }),
                Some(b) => Ok(b),
            }
        },
    }
}

/// The model of a resource state, field by field.
proof fn reveal_view_state(s: &ResourceState)
    ensures
        s@.id == s.id@,
        s@.layout == s.layout,
        s@.contract == s.contract,
        s@.diagnostics == s.diagnostics,
        s@.generation == s.current_generation.0 as int,
        s@.capacity == s.capacity_bytes as int,
        s@.has_initial_upload == s.has_initial_upload,
        s@.event_head == s.event_head as int,
{
}

impl SyncGraph {
    /// Records a view refused by policy: a warning and one more denied view.
    fn note_denied_view(&mut self, id: ResourceId)
        requires
            old(self)@.report.denied_views < usize::MAX,
        ensures
            final(self)@ == old(self)@.deny(id),
    {
        self.push_warning(SyncWarning::ReadbackPolicyViolation { resource: id });
        self.report.denied_views = self.report.denied_views + 1;
        proof {
            reveal_view(self);
        }
    }

    /// Validate a view request and produce a `PlannedReadback`.
    ///
    /// The graph validates the readback but does not queue it for
    /// `plan_transfers`; callers hand the returned `PlannedReadback` to the
    /// backend.
    ///
    /// Fails, in this order, for unknown resources, chunked layouts whose
    /// dimensions do not fit a `u32`, views the readback policy refuses (also
    /// warned and counted as denied), selectors that do not fit the resource,
    /// freshness the current generation cannot satisfy, download estimates
    /// that overflow, and an accumulated download estimate that overflows. A
    /// full view outside a snapshot is warned; a full snapshot is counted; an
    /// accepted exact-generation view is warned as a possible stall.
    pub fn request_view(&mut self, request: ViewRequest) -> (r: Result<PlannedReadback, ViewRequestError>)
        requires
            old(self)@.wf(),
            old(self)@.view_outcome(request).0.fits(),
        ensures
            final(self)@.wf(),
            (final(self)@, r) == old(self)@.view_outcome(request),
    {
        let ghost g0 = self@;
        let ghost req = request;
        let ViewRequest { resource, selector, freshness, reason } = request;
        let idx = match self.find(&resource) {
            None => {
                return Err(ViewRequestError::UnknownResource { id: resource });
            },
            Some(i) => i,
        };
        proof {
            reveal_view(self);
            reveal_view_state(&self.resources[idx as int]);
        }
        let ghost e = g0.entry(resource@);
        assert(self.resources@[idx as int]@ == e);
        let chunks = match self.resources[idx].layout.chunked_info() {
            Err(source) => {
                return Err(ViewRequestError::LayoutMetadata { id: resource, source });
            },
            Ok(c) => c,
        };
        let policy = self.resources[idx].contract.readback;
        let generation = self.resources[idx].current_generation;
        let event_head_now = self.resources[idx].event_head;
        assert(policy_denial(policy, selector, freshness) == policy_denial(e.contract.readback, req.selector, req.freshness));
        match policy {
            ReadbackPolicy::Deny => {
                self.note_denied_view(resource.clone_id());
                return Err(ViewRequestError::ReadbackDenied { id: resource });
            },
            ReadbackPolicy::DiagnosticsOnly => {
                let diagnostics = match selector {
                    ViewSelector::Diagnostics => true,
                    _ => false,
                };
                if !diagnostics {
                    self.note_denied_view(resource.clone_id());
                    return Err(ViewRequestError::DiagnosticsOnly { id: resource, selector });
                }
            },
            ReadbackPolicy::SnapshotOnly => {
                let allowed = match selector {
                    ViewSelector::Full => freshness == Freshness::Snapshot,
                    _ => false,
                };
                if !allowed {
                    self.note_denied_view(resource.clone_id());
                    return Err(ViewRequestError::SnapshotOnly { id: resource });
                }
            },
            ReadbackPolicy::ViewsAllowed => {},
        }
        match validate_selector(&self.resources[idx], chunks, resource.clone_id(), &selector) {
            Err(err) => {
                return Err(err);
            },
            Ok(()) => {},
        }
        let full = match selector {
            ViewSelector::Full => true,
            _ => false,
        };
        if full && freshness != Freshness::Snapshot {
            self.push_warning(
                SyncWarning::FullReadbackRequested { resource: resource.clone_id(), reason: reason.clone() },
            );
        }
        let satisfied = match freshness {
            Freshness::ExactGeneration(g) => g.0 == generation.0,
            Freshness::AtLeastGeneration(g) => g.0 <= generation.0,
            Freshness::LatestAvailable | Freshness::Snapshot => true,
        };
        if !satisfied {
            return Err(ViewRequestError::FreshnessUnavailable { id: resource, requested: freshness, current: generation });
        }
        let exact = match freshness {
            Freshness::ExactGeneration(_) => true,
            _ => false,
        };
        if exact {
            self.push_warning(SyncWarning::ExactFreshnessMayStall { resource: resource.clone_id(), requested: freshness });
        }
        if full && freshness == Freshness::Snapshot {
            self.report.full_snapshots = self.report.full_snapshots + 1;
            proof {
                reveal_view(self);
            }
        }
        proof {
            reveal_view(self);
        }
        let estimated = match estimate_download_bytes(&self.resources[idx], chunks, resource.clone_id(), &selector) {
            Err(err) => {
                return Err(err);
            },
            Ok(b) => b,
        };
        self.pending_download_estimate = match self.pending_download_estimate.checked_add(estimated) {
            None => {
                return Err(ViewRequestError::DownloadEstimateOverflow { id: resource });
            },
            Some(total) => total,
        };
        self.report.readbacks_requested = self.report.readbacks_requested + 1;
        let event_head = match selector {
            ViewSelector::EventCandidates { .. } => Some(event_head_now),
            _ => None,
        };
        proof {
            reveal_view(self);
        }
        Ok(PlannedReadback { resource, selector, freshness, reason, event_head })
    }
}

} // verus!
