//! What addressing, resizing, alignment, download estimates and budgets must
//! satisfy, stated directly over inputs and results.

use vstd::prelude::*;

use crate::residency_core::contract::UploadPolicy;
use crate::residency_core::fake_backend::{
    fake_index, pack_chunks, resize_step, selector_bytes, FakeResourceView, FakeView,
};
use crate::residency_core::graph::{budget_warnings, estimate_download, GraphView, ResourceEntry, SubmitPatchError, TransferBudget};
use crate::residency_core::plan::ResizeOp;
use crate::residency_core::report::SyncWarning;
use crate::residency_core::resource::{ChunkId, ChunkedLayoutInfo, ResourceId};
use crate::residency_core::view::ViewSelector;

verus! {

/// Chunks are laid out chunk-major, row by row of chunks: the byte offset of
/// chunk `(x, y)` is `(y * chunks_x + x)` whole chunks of
/// `chunk_width * chunk_height * element_size` bytes, whenever it is
/// representable; and whenever that number and the chunk size fit a `u64`
/// (for chunks of at least one byte), it is representable.
pub proof fn law_chunk_offset_is_chunk_major(info: ChunkedLayoutInfo, id: ChunkId)
    ensures
        ({
            let index = id.y * info.chunks_x + id.x;
            let chunk = info.chunk_width * info.chunk_height * info.element_size;
            &&& info.spec_chunk_offset(id) matches Some(v) ==> v == index * chunk
            &&& 1 <= chunk <= u64::MAX && index * chunk <= u64::MAX ==> info.spec_chunk_offset(id) == Some(index * chunk)
        }),
{
    let cx = info.chunks_x as int;
    let cw = info.chunk_width as int;
    let ch = info.chunk_height as int;
    let es = info.element_size as int;
    let x = id.x as int;
    let y = id.y as int;
    let index = y * cx + x;
    assert(cw * ch * es == (cw * ch) * es) by (nonlinear_arith);
    assert(0 <= y * cx) by (nonlinear_arith)
        requires
            0 <= y,
            0 <= cx,
    ;
    assert(0 <= cw * ch) by (nonlinear_arith)
        requires
            0 <= cw,
            0 <= ch,
    ;
    if 1 <= cw * ch * es <= u64::MAX && index * (cw * ch * es) <= u64::MAX {
        let chunk = cw * ch * es;
        assert(index <= index * chunk) by (nonlinear_arith)
            requires
                chunk >= 1,
                index >= 0,
        ;
        assert(es >= 1 && cw * ch >= 1) by (nonlinear_arith)
            requires
                (cw * ch) * es >= 1,
                cw * ch >= 0,
                es >= 0,
        ;
        assert(cw * ch <= chunk) by (nonlinear_arith)
            requires
                es >= 1,
                cw * ch >= 0,
                chunk == (cw * ch) * es,
        ;
        assert(chunk <= index * chunk || index == 0) by (nonlinear_arith)
            requires
                chunk >= 1,
                index >= 0,
        ;
    }
}

/// A resize keeps what a resource already holds: after a successful resize
/// the resource is `new_size` bytes long, its first `old_size` bytes are
/// the bytes it held before, and only the new tail is zero; no other
/// resource changes.
pub proof fn law_resize_keeps_existing_bytes(v: FakeView, op: ResizeOp)
    ensures
        resize_step(v, op) matches Ok(after) ==> {
            &&& fake_index(v.resources, op.resource@) matches Some(i)
            &&& after.resources.len() == v.resources.len()
            &&& {
                let i = fake_index(v.resources, op.resource@).unwrap();
                let before = v.resources[i].bytes;
                let now = after.resources[i].bytes;
                &&& now.len() == op.new_size
                &&& now.subrange(0, before.len() as int) == before
                &&& forall|k: int| before.len() <= k < now.len() ==> #[trigger] now[k] == 0
                &&& forall|j: int| 0 <= j < v.resources.len() && j != i ==> #[trigger] after.resources[j] == v.resources[j]
            }
        },
{
    if resize_step(v, op) is Ok {
        let i = fake_index(v.resources, op.resource@).unwrap();
        let before = v.resources[i].bytes;
        let after = resize_step(v, op)->Ok_0;
        assert(after.resources[i].bytes.subrange(0, before.len() as int) =~= before);
    }
}

/// Patches respect the layout's alignment: a patch that the upload policy
/// lets through but whose byte offset is not a multiple of a nonzero
/// alignment is refused as misaligned (naming the offset and the alignment)
/// and changes nothing; so every accepted patch starts on an aligned offset.
pub proof fn law_misaligned_patches_are_refused(g: GraphView, resource: ResourceId, byte_offset: u64, bytes: Seq<u8>)
    ensures
        ({
            let (after, r) = g.patch_outcome(resource, byte_offset, bytes);
            let e = g.entry(resource@);
            let a = e.layout.spec_alignment();
            &&& g.has(resource@) && e.contract.upload != UploadPolicy::Deny && !(e.contract.upload
                == UploadPolicy::InitialOnly && e.has_initial_upload) && a > 0 && byte_offset % a != 0 ==> {
                &&& r == Err::<crate::residency_core::generation::Generation, SubmitPatchError>(
                    SubmitPatchError::Misaligned { id: resource, offset: byte_offset, alignment: a },
                )
                &&& after == g
            }
            &&& r is Ok ==> (a > 0 ==> byte_offset % a == 0)
        }),
{
}

/// A planned view expects exactly the bytes it will be served: for a range
/// the range's length, for rows `count` rows of `width` elements each, for
/// chunks one whole chunk per requested id; so a
/// rows view's estimate equals the length of the bytes the backend serves for
/// the same selector on a resource of the same layout.
pub proof fn law_download_estimate_matches_served_bytes(
    e: ResourceEntry,
    chunks: Option<ChunkedLayoutInfo>,
    id: ResourceId,
    sel: ViewSelector,
    r: FakeResourceView,
    event_head: Option<u64>,
)
    ensures
        sel matches ViewSelector::Range { len, .. } ==> estimate_download(e, chunks, id, sel) == Ok::<
            int,
            crate::residency_core::graph::ViewRequestError,
        >(len as int),
        sel matches ViewSelector::Rows { count, .. } ==> (e.layout.spec_dimensions_2d() matches Some((width, _))
            ==> (estimate_download(e, chunks, id, sel) matches Ok(est) ==> est == count * width
            * e.layout.spec_element_size())),
        sel matches ViewSelector::Chunks { ids } ==> (chunks matches Some(info) ==> (estimate_download(
            e,
            chunks,
            id,
            sel,
        ) matches Ok(est) ==> est == ids@.len() * (info.chunk_width * info.chunk_height * info.element_size))),
        (sel is Range || sel is Rows) && r.layout == e.layout ==> (estimate_download(e, chunks, id, sel) matches Ok(
            est,
        ) ==> (selector_bytes(r, id, sel, event_head) matches Ok(b) ==> est == b.len())),
{
    if let ViewSelector::Rows { count, .. } = sel {
        if let Some((width, _)) = e.layout.spec_dimensions_2d() {
            let c = count as int;
            let w = width as int;
            let es = e.layout.spec_element_size() as int;
            assert(c * w * es == c * (w * es)) by (nonlinear_arith);
        }
    }
    if let ViewSelector::Chunks { ids } = sel {
        if let Some(info) = chunks {
            let cw = info.chunk_width as int;
            let ch = info.chunk_height as int;
            let es = info.element_size as int;
            assert(cw * ch * es == (cw * ch) * es) by (nonlinear_arith);
        }
    }
}

/// Transfer budgets are enforced by warning: with a budget, a plan whose
/// upload or download bytes exceed the per-cycle budget earns exactly one
/// `TransferBudgetExceeded` naming both totals, and a plan within both earns
/// none; without a budget nothing is warned. Planning adds exactly that to
/// the report's warnings.
pub proof fn law_budget_overruns_are_warned(g: GraphView, budget: Option<TransferBudget>, uploaded: int, downloaded: int)
    requires
        0 <= uploaded <= u64::MAX,
        0 <= downloaded <= u64::MAX,
    ensures
        ({
            let over = budget matches Some(b) && (uploaded > b.upload_bytes_per_cycle || downloaded
                > b.download_bytes_per_cycle);
            &&& over ==> budget_warnings(budget, uploaded, downloaded) == seq![
                SyncWarning::TransferBudgetExceeded { uploaded: uploaded as u64, downloaded: downloaded as u64 },
            ]
            &&& !over ==> budget_warnings(budget, uploaded, downloaded) == Seq::<SyncWarning>::empty()
        }),
        g.planned().report.warnings == g.report.warnings + budget_warnings(
            g.budget,
            crate::residency_core::graph::upload_bytes(g.pending_uploads),
            g.pending_download_estimate,
        ),
{
}


/// The chunk-major byte offset of chunk `id`.
pub open spec fn chunk_major_offset(info: ChunkedLayoutInfo, id: ChunkId) -> int {
    (id.y * info.chunks_x + id.x) * (info.chunk_width * info.chunk_height * info.element_size)
}

/// A chunks view serves, for each requested chunk in the order given, the
/// bytes stored at that chunk's chunk-major position.
pub proof fn law_chunks_view_serves_chunk_major_bytes(
    r: FakeResourceView,
    resource: ResourceId,
    info: ChunkedLayoutInfo,
    ids: Seq<ChunkId>,
    chunk_size: u64,
)
    requires
        chunk_size == info.chunk_width * info.chunk_height * info.element_size,
    ensures
        pack_chunks(r, resource, info, ids, chunk_size) matches Ok(b) ==> {
            &&& b.len() == ids.len() * chunk_size
            &&& forall|k: int|
                0 <= k < ids.len() ==> b.subrange(k * chunk_size, k * chunk_size + chunk_size) == r.bytes.subrange(
                    chunk_major_offset(info, #[trigger] ids[k]),
                    chunk_major_offset(info, ids[k]) + chunk_size,
                )
        },
    decreases ids.len(),
{
    if ids.len() > 0 {
        let prefix = ids.drop_last();
        law_chunks_view_serves_chunk_major_bytes(r, resource, info, prefix, chunk_size);
        if let Ok(b) = pack_chunks(r, resource, info, ids, chunk_size) {
            let acc = pack_chunks(r, resource, info, prefix, chunk_size)->Ok_0;
            let n = prefix.len() as int;
            let cs = chunk_size as int;
            let last = ids.last();
            law_chunk_offset_is_chunk_major(info, last);
            assert(n * cs + cs == (n + 1) * cs) by (nonlinear_arith);
            assert(b.len() == ids.len() * chunk_size);
            assert forall|k: int|
                0 <= k < ids.len() implies b.subrange(k * chunk_size, k * chunk_size + chunk_size) == r.bytes.subrange(
                chunk_major_offset(info, #[trigger] ids[k]),
                chunk_major_offset(info, ids[k]) + chunk_size,
            ) by {
                if k < n {
                    assert(ids[k] == prefix[k]);
                    assert(k * cs + cs <= n * cs) by (nonlinear_arith)
                        requires
                            k < n,
                            cs >= 0,
                    ;
                    assert(0 <= k * cs) by (nonlinear_arith)
                        requires
                            k >= 0,
                            cs >= 0,
                    ;
                    assert(b.subrange(k * cs, k * cs + cs) =~= acc.subrange(k * cs, k * cs + cs));
                } else {
                    assert(k == n);
                    assert(b.subrange(n * cs, n * cs + cs) =~= b.subrange(acc.len() as int, b.len() as int));
                }
            }
        }
    }
}

} // verus!
