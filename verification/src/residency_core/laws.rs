//! Properties of the synchronization graph that span its operations.

use vstd::prelude::*;

use crate::residency_core::contract::{ReadbackPolicy, ResizePolicy, UploadPolicy};
use crate::residency_core::generation::Generation;
use crate::residency_core::graph::{
    ceil_pow2, ceil_pow2_from, policy_denial, spec_type_compatible, GraphView, PatchDecision,
    ResourceEntry,
};
use crate::residency_core::resource::{ElementType, ResourceDesc, ResourceId};
use crate::residency_core::report::SyncWarning;
use crate::residency_core::view::ViewRequest;
use crate::residency_core::fake_backend::{
    fake_index, overwritten, pack_events, selector_bytes, slice_range_error, upload_step,
    FakeBackendError, FakeResourceView, FakeView,
};
use crate::residency_core::plan::UploadOp;
use crate::residency_core::view::ViewSelector;
use crate::residency_core::freshness::Freshness;
use crate::residency_core::bytes::{byte_of, encodes_words};
use crate::residency_core::patch::{encodes, F32Bits, PodElement};

verus! {

/// Whether `n` is a power of two.
pub open spec fn is_pow2(n: int) -> bool
    decreases n,
{
    if n <= 0 {
        false
    } else if n == 1 {
        true
    } else {
        n % 2 == 0 && is_pow2(n / 2)
    }
}

proof fn lemma_ceil_pow2_from(p: int, n: int)
    requires
        is_pow2(p),
        p < 2 * n || p == 1,
    ensures
        is_pow2(ceil_pow2_from(p, n)),
        ceil_pow2_from(p, n) >= n,
        ceil_pow2_from(p, n) == 1 || ceil_pow2_from(p, n) < 2 * n,
    decreases if p < n { n - p } else { 0 },
{
    if p < n {
        assert((2 * p) / 2 == p);
        lemma_ceil_pow2_from(2 * p, n);
    }
}

/// Growth targets are the smallest power of two that holds the request: a
/// power of two, at least `n`, and less than twice `n` (or `1`).
pub proof fn law_ceil_pow2_is_smallest_power_of_two(n: int)
    ensures
        is_pow2(ceil_pow2(n)),
        ceil_pow2(n) >= n,
        ceil_pow2(n) == 1 || ceil_pow2(n) < 2 * n,
{
    lemma_ceil_pow2_from(1, n);
}

/// Element-type compatibility is symmetric, and raw bytes are compatible
/// with every element type.
pub proof fn law_type_compatibility_is_symmetric(a: ElementType, b: ElementType)
    ensures
        spec_type_compatible(a, b) == spec_type_compatible(b, a),
        spec_type_compatible(a, ElementType::Bytes),
        spec_type_compatible(a, a),
{
}

/// Registering an identifier that is already registered is refused as a
/// duplicate and changes nothing; a fresh registration starts at generation
/// zero with the layout's byte size as capacity and no initial upload.
pub proof fn law_register_fresh_or_duplicate(g: GraphView, desc: ResourceDesc)
    requires
        g.wf(),
    ensures
        g.has(desc.id@) ==> g.register_outcome(desc) == (g, Err::<ResourceId, crate::residency_core::graph::RegisterError>(
            crate::residency_core::graph::RegisterError::DuplicateId { id: desc.id },
        )),
        g.register_outcome(desc).1 is Ok ==> {
            let after = g.register_outcome(desc).0;
            &&& after.has(desc.id@)
            &&& after.entry(desc.id@).generation == 0
            &&& Some(after.entry(desc.id@).capacity) == desc.layout.spec_checked_byte_size()
            &&& !after.entry(desc.id@).has_initial_upload
            &&& after.resources.len() == g.resources.len() + 1
        },
{
    if g.register_outcome(desc).1 is Ok {
        let after = g.register_outcome(desc).0;
        let i = g.resources.len() as int;
        assert(after.resources[i].id == desc.id@);
        assert(after.has(desc.id@));
        let j = after.index_of(desc.id@);
        if j != i {
            assert(after.resources[j].id == g.resources[j].id);
            assert(g.has(desc.id@));
        }
    }
}

/// An accepted patch advances the resource's generation by one (two when the
/// resource grew), queues an upload of exactly the patch's bytes at its
/// offset under the new generation, and leaves the capacity able to hold the
/// patch. A refused patch changes no resource and queues nothing.
pub proof fn law_patch_outcome(g: GraphView, resource: ResourceId, byte_offset: u64, bytes: Seq<u8>)
    requires
        g.wf(),
    ensures
        ({
            let (after, r) = g.patch_outcome(resource, byte_offset, bytes);
            match r {
                Ok(generation) => {
                    let before = g.entry(resource@);
                    let e = after.entry(resource@);
                    &&& g.has(resource@)
                    &&& generation == Generation(e.generation as u64)
                    &&& (e.generation == before.generation + 1 || e.generation == before.generation + 2)
                    &&& e.capacity >= byte_offset + bytes.len()
                    &&& e.capacity >= before.capacity
                    &&& after.pending_uploads.len() == g.pending_uploads.len() + 1
                    &&& after.pending_uploads.last().bytes == bytes
                    &&& after.pending_uploads.last().byte_offset == byte_offset
                    &&& after.pending_uploads.last().generation == e.generation
                },
                Err(_) => {
                    &&& after.resources == g.resources
                    &&& after.pending_uploads == g.pending_uploads
                    &&& after.pending_resizes == g.pending_resizes
                },
            }
        }),
{
    let (after, r) = g.patch_outcome(resource, byte_offset, bytes);
    if r is Ok {
        let e0 = g.entry(resource@);
        let i = g.index_of(resource@);
        let d = GraphView::patch_decision(e0, byte_offset, bytes.len() as int);
        lemma_ceil_pow2_from(1, byte_offset + bytes.len());
        assert(after.resources[i].id == resource@);
        let j = after.index_of(resource@);
        if j != i {
            assert(after.resources[j].id == g.resources[j].id);
            assert(g.resources[j].id != g.resources[i].id);
        }
        assert(j == i);
        assert(after.entry(resource@) == after.resources[i]);
    }
}

/// A resource that may not grow never does: a patch past the capacity of a
/// fixed or externally managed resource is refused, and a growable one grows
/// to the smallest power of two that holds the patch, within its cap.
pub proof fn law_growth_follows_resize_policy(e: ResourceEntry, byte_offset: u64, len: int)
    requires
        len >= 0,
    ensures
        ({
            let required = byte_offset + len;
            match GraphView::patch_decision(e, byte_offset, len) {
                PatchDecision::Accept(Some(grown)) => {
                    &&& e.contract.resize matches ResizePolicy::GrowPowerOfTwo { max_bytes }
                    &&& grown == ceil_pow2(required) && grown >= required && is_pow2(grown)
                    &&& (e.contract.resize matches ResizePolicy::GrowPowerOfTwo { max_bytes } && max_bytes
                        matches Some(cap) ==> grown <= cap)
                },
                PatchDecision::Accept(None) => required <= e.capacity,
                _ => true,
            }
        }),
{
    lemma_ceil_pow2_from(1, byte_offset + len);
}

/// Uploads are refused by policy: a resource that denies uploads never
/// accepts a patch, and an `InitialOnly` resource accepts at most one.
pub proof fn law_upload_policy_is_enforced(e: ResourceEntry, byte_offset: u64, len: int)
    ensures
        e.contract.upload == UploadPolicy::Deny ==> GraphView::patch_decision(e, byte_offset, len)
            == PatchDecision::Denied,
        e.contract.upload == UploadPolicy::InitialOnly && e.has_initial_upload ==> GraphView::patch_decision(
            e,
            byte_offset,
            len,
        ) == PatchDecision::InitialConsumed,
{
}

/// A view is planned only when the readback policy allows it and the
/// resource's current generation satisfies the requested freshness; a
/// denied resource never plans one. Planning never changes a resource or the
/// upload queue.
pub proof fn law_views_respect_policy_and_freshness(g: GraphView, req: ViewRequest)
    requires
        g.wf(),
    ensures
        ({
            let (after, r) = g.view_outcome(req);
            &&& r is Ok ==> g.has(req.resource@) && policy_denial(
                g.entry(req.resource@).contract.readback,
                req.selector,
                req.freshness,
            ) is None && req.freshness.satisfied_by(g.entry(req.resource@).generation as u64)
            &&& g.has(req.resource@) && g.entry(req.resource@).contract.readback == ReadbackPolicy::Deny ==> r is Err
            &&& after.resources == g.resources
            &&& after.pending_uploads == g.pending_uploads
        }),
{
}

/// Every operation keeps every resource's generation or advances it: no
/// patch, event append or GPU mutation moves a generation backwards.
pub proof fn law_generations_never_decrease(
    g: GraphView,
    resource: ResourceId,
    byte_offset: u64,
    bytes: Seq<u8>,
    element: ElementType,
    n: int,
    i: int,
)
    requires
        g.wf(),
        0 <= i < g.resources.len(),
    ensures
        g.patch_outcome(resource, byte_offset, bytes).0.resources[i].generation >= g.resources[i].generation,
        g.gpu_mutation_outcome(resource).0.resources[i].generation >= g.resources[i].generation,
        g.event_outcome(resource, element, n, bytes).0.resources[i].generation >= g.resources[i].generation,
        g.patch_outcome(resource, byte_offset, bytes).0.resources.len() == g.resources.len(),
        g.gpu_mutation_outcome(resource).0.resources.len() == g.resources.len(),
        g.event_outcome(resource, element, n, bytes).0.resources.len() == g.resources.len(),
{
}

/// A GPU mutation is accepted only for GPU-authoritative resources, and
/// advances exactly that resource's generation by one.
pub proof fn law_gpu_mutation_requires_gpu_authority(g: GraphView, resource: ResourceId)
    requires
        g.wf(),
    ensures
        ({
            let (after, r) = g.gpu_mutation_outcome(resource);
            r matches Ok(generation) ==> {
                &&& g.entry(resource@).contract.authority == crate::residency_core::contract::Authority::GpuAuthoritative
                &&& generation == Generation((g.entry(resource@).generation + 1) as u64)
                &&& after.resources == g.resources.update(
                    g.index_of(resource@),
                    ResourceEntry { generation: g.entry(resource@).generation + 1, ..g.entry(resource@) },
                )
            }
        }),
{
}

/// An accepted event append advances the ring's logical head by the number
/// of records appended, dropped ones included, and its generation by one.
pub proof fn law_event_append_advances_head(g: GraphView, resource: ResourceId, element: ElementType, n: int, enc: Seq<u8>)
    requires
        g.wf(),
        n >= 0,
    ensures
        ({
            let (after, r) = g.event_outcome(resource, element, n, enc);
            r is Ok ==> {
                let before = g.entry(resource@);
                let i = g.index_of(resource@);
                &&& after.resources[i].event_head == before.event_head + n
                &&& after.resources[i].generation == before.generation + 1
            }
        }),
{
}

/// What a read gives back of a write: once the backend applied an upload to
/// the resource at position `i`, a range view over exactly the uploaded bytes
/// serves those bytes, the bytes around them are kept, and the resource is at
/// the upload's generation.
pub proof fn law_upload_then_range_reads_back(v: FakeView, op: UploadOp, total: int, i: int)
    requires
        fake_index(v.resources, op.resource@) == Some(i),
        slice_range_error(op.resource, op.byte_offset, op.bytes@.len() as usize, v.resources[i].bytes.len() as usize)
            is None,
    ensures
        ({
            let res = upload_step(v, op, total).0.resources[i];
            &&& selector_bytes(
                res,
                op.resource,
                ViewSelector::Range { offset: op.byte_offset, len: op.bytes.len() as u64 },
                None,
            ) == Ok::<Seq<u8>, Option<crate::residency_core::fake_backend::FakeBackendError>>(op.bytes@)
            &&& res.bytes == overwritten(v.resources[i].bytes, op.byte_offset as int, op.bytes@)
            &&& res.bytes.len() == v.resources[i].bytes.len()
            &&& res.generation == op.resulting_generation.0
        }),
{
    assert(op.bytes@.len() == op.bytes.len());
    let b = v.resources[i].bytes;
    let nb = overwritten(b, op.byte_offset as int, op.bytes@);
    assert(nb.subrange(op.byte_offset as int, op.byte_offset + op.bytes@.len()) =~= op.bytes@);
}

/// The bytes of a ring of `count` records of `size` bytes after writing the
/// records `kept` from record `start` on, wrapping to the ring's start: the
/// byte effect of the one or two uploads of an event append.
pub open spec fn ring_written(b: Seq<u8>, start: int, size: int, count: int, kept: Seq<u8>) -> Seq<u8> {
    let split = (count - start) * size;
    if kept.len() <= split {
        overwritten(b, start * size, kept)
    } else {
        overwritten(overwritten(b, start * size, kept.take(split)), 0, kept.skip(split))
    }
}

/// Record `k` of the written records sits at ring position
/// `(start + k) % count`.
proof fn lemma_ring_record(b: Seq<u8>, start: int, size: int, count: int, kept: Seq<u8>, kn: int, k: int)
    requires
        size > 0,
        count > 0,
        0 <= start < count,
        0 <= k < kn <= count,
        b.len() == count * size,
        kept.len() == kn * size,
    ensures
        ({
            let p = (start + k) % count;
            let w = ring_written(b, start, size, count, kept);
            &&& 0 <= p < count
            &&& w.len() == b.len()
            &&& w.subrange(p * size, p * size + size) == kept.subrange(k * size, k * size + size)
        }),
{
    let split = (count - start) * size;
    let w = ring_written(b, start, size, count, kept);
    assert((count - start) * size == count * size - start * size) by (nonlinear_arith);
    assert(kn * size <= count * size) by (nonlinear_arith)
        requires
            kn <= count,
            size > 0,
    ;
    assert((start + k) * size == start * size + k * size) by (nonlinear_arith);
    assert((k + 1) * size == k * size + size) by (nonlinear_arith);
    assert(0 <= start * size) by (nonlinear_arith)
        requires
            start >= 0,
            size > 0,
    ;
    assert(0 <= k * size) by (nonlinear_arith)
        requires
            k >= 0,
            size > 0,
    ;
    assert(k * size + size <= kn * size) by (nonlinear_arith)
        requires
            k < kn,
            size > 0,
    ;
    if start + k < count {
        vstd::arithmetic::div_mod::lemma_small_mod((start + k) as nat, count as nat);
        let p = start + k;
        assert(p * size + size <= count * size) by (nonlinear_arith)
            requires
                p < count,
                size > 0,
        ;
        if kept.len() <= split {
            let w1 = overwritten(b, start * size, kept);
            assert(w1.subrange(p * size, p * size + size) =~= kept.subrange(k * size, k * size + size));
        } else {
            let first = kept.take(split);
            let w1 = overwritten(b, start * size, first);
            assert(k * size + size <= split) by (nonlinear_arith)
                requires
                    split == (count - start) * size,
                    start + k < count,
                    size > 0,
            ;
            assert(w1.subrange(p * size, p * size + size) =~= kept.subrange(k * size, k * size + size));
            let rest = kept.skip(split);
            assert(rest.len() <= start * size) by (nonlinear_arith)
                requires
                    rest.len() == kn * size - split,
                    split == (count - start) * size,
                    kn <= count,
                    size > 0,
            ;
            assert(w.subrange(p * size, p * size + size) =~= w1.subrange(p * size, p * size + size));
        }
    } else {
        let p = start + k - count;
        assert((count * 1 + p) % count == p % count) by {
            vstd::arithmetic::div_mod::lemma_mod_multiples_vanish(1, p, count);
        }
        vstd::arithmetic::div_mod::lemma_small_mod(p as nat, count as nat);
        assert(start + k == count * 1 + p);
        assert(kept.len() > split) by (nonlinear_arith)
            requires
                kept.len() == kn * size,
                split == (count - start) * size,
                start + kn > count,
                size > 0,
        ;
        let first = kept.take(split);
        let rest = kept.skip(split);
        let w1 = overwritten(b, start * size, first);
        assert(p * size == k * size - split) by (nonlinear_arith)
            requires
                p == start + k - count,
                split == (count - start) * size,
        ;
        assert(p * size + size <= rest.len());
        assert(w.subrange(p * size, p * size + size) =~= rest.subrange(p * size, p * size + size));
        assert(rest.subrange(p * size, p * size + size) =~= kept.subrange(k * size, k * size + size));
    }
}

/// What a read gives back of an event append: once the ring holds the
/// `kn` records `kept` written from the position the logical head had
/// before them, reading the `kn` most recent records serves exactly `kept`,
/// oldest first.
pub proof fn law_event_append_then_candidates_read_back(
    r: FakeResourceView,
    resource: ResourceId,
    b: Seq<u8>,
    head: int,
    kn: int,
    size: u64,
    count: u64,
    kept: Seq<u8>,
)
    requires
        size > 0,
        count > 0,
        count * size <= usize::MAX,
        0 <= kn <= count,
        kn <= head,
        b.len() == count * size,
        kept.len() == kn * size,
        r.bytes == ring_written(b, (head - kn) % (count as int), size as int, count as int, kept),
    ensures
        pack_events(r, resource, head, kn, size, count, kn) == Ok::<Seq<u8>, FakeBackendError>(kept),
{
    lemma_pack_events_prefix(r, resource, b, head, kn, size, count, kept, kn);
    assert(kept.take(kn * size) =~= kept);
}

#[verifier::spinoff_prover]
#[verifier::rlimit(50)]
proof fn lemma_pack_events_prefix(
    r: FakeResourceView,
    resource: ResourceId,
    b: Seq<u8>,
    head: int,
    kn: int,
    size: u64,
    count: u64,
    kept: Seq<u8>,
    k: int,
)
    requires
        size > 0,
        count > 0,
        count * size <= usize::MAX,
        0 <= k <= kn <= count,
        kn <= head,
        b.len() == count * size,
        kept.len() == kn * size,
        r.bytes == ring_written(b, (head - kn) % (count as int), size as int, count as int, kept),
    ensures
        pack_events(r, resource, head, kn, size, count, k) == Ok::<Seq<u8>, FakeBackendError>(
            kept.take(k * size),
        ),
    decreases k,
{
    if k > 0 {
        lemma_pack_events_prefix(r, resource, b, head, kn, size, count, kept, k - 1);
        let start = (head - kn) % (count as int);
        let q = (head - kn) / (count as int);
        vstd::arithmetic::div_mod::lemma_fundamental_div_mod(head - kn, count as int);
        assert(head - kn == count * q + start);
        assert(0 <= start < count);
        let pos = (head - kn + (k - 1)) % (count as int);
        assert(pos == (start + (k - 1)) % (count as int)) by {
            assert(head - kn + (k - 1) == count * q + (start + (k - 1)));
            vstd::arithmetic::div_mod::lemma_mod_multiples_vanish(q, start + (k - 1), count as int);
        }
        lemma_ring_record(b, start, size as int, count as int, kept, kn, k - 1);
        assert(pos * size + size <= count * size) by (nonlinear_arith)
            requires
                pos < count,
                size > 0,
        ;
        assert(0 <= pos * size) by (nonlinear_arith)
            requires
                pos >= 0,
                size > 0,
        ;
        assert(k * size == (k - 1) * size + size) by (nonlinear_arith);
        assert(0 <= (k - 1) * size) by (nonlinear_arith)
            requires
                k >= 1,
                size > 0,
        ;
        assert(k * size <= kn * size) by (nonlinear_arith)
            requires
                k <= kn,
                size > 0,
        ;
        assert(kept.take(k * size) =~= kept.take((k - 1) * size) + kept.subrange((k - 1) * size, (k - 1) * size + size));
    } else {
        assert(kept.take(0) =~= Seq::<u8>::empty());
    }
}

/// No hidden full-state readbacks or stalls: a full view that is planned
/// outside an explicit snapshot is always warned, both for the next plan and
/// in the report, a planned full snapshot is always counted, and a planned
/// exact-generation view is always warned as a possible stall.
pub proof fn law_full_readbacks_are_never_hidden(g: GraphView, req: ViewRequest)
    requires
        g.wf(),
    ensures
        ({
            let (after, r) = g.view_outcome(req);
            let warning = SyncWarning::FullReadbackRequested { resource: req.resource, reason: req.reason };
            let stall = SyncWarning::ExactFreshnessMayStall { resource: req.resource, requested: req.freshness };
            &&& r is Ok && req.selector is Full && req.freshness != Freshness::Snapshot ==> {
                &&& after.pending_warnings.take(g.pending_warnings.len() + 1int) == g.pending_warnings.push(warning)
                &&& after.report.warnings.take(g.report.warnings.len() + 1int) == g.report.warnings.push(warning)
            }
            &&& r is Ok && req.freshness is ExactGeneration ==> {
                &&& after.pending_warnings.last() == stall
                &&& after.report.warnings.last() == stall
            }
            &&& r is Ok && req.selector is Full && req.freshness == Freshness::Snapshot ==> after.report.full_snapshots
                == g.report.full_snapshots + 1
            &&& r is Ok ==> after.report.readbacks_requested == g.report.readbacks_requested + 1
        }),
{
    let (after, r) = g.view_outcome(req);
    let warning = SyncWarning::FullReadbackRequested { resource: req.resource, reason: req.reason };
    if r is Ok && req.selector is Full && req.freshness != Freshness::Snapshot {
        assert(after.pending_warnings.take(g.pending_warnings.len() + 1int) =~= g.pending_warnings.push(warning));
        assert(after.report.warnings.take(g.report.warnings.len() + 1int) =~= g.report.warnings.push(warning));
    }
}

/// Four bytes in a fixed order determine the 32-bit value they encode.
proof fn lemma_u32_bytes_determine(a: u32, b: u32, big: bool)
    requires
        forall|j: int| 0 <= j < 4 ==> byte_of(a as int, j, 4, big) == #[trigger] byte_of(b as int, j, 4, big),
    ensures
        a == b,
{
    assert(byte_of(a as int, 0, 4, big) == byte_of(b as int, 0, 4, big));
    assert(byte_of(a as int, 1, 4, big) == byte_of(b as int, 1, 4, big));
    assert(byte_of(a as int, 2, 4, big) == byte_of(b as int, 2, 4, big));
    assert(byte_of(a as int, 3, 4, big) == byte_of(b as int, 3, 4, big));
    assert(a == b) by (bit_vector)
        requires
            a % 256 == b % 256,
            (a / 0x100) % 256 == (b / 0x100) % 256,
            (a / 0x1_0000) % 256 == (b / 0x1_0000) % 256,
            (a / 0x100_0000) % 256 == (b / 0x100_0000) % 256,
    ;
}

/// Decoding undoes encoding: two sequences of `f32` bit patterns that the
/// same bytes encode in the same byte order are equal. With
/// `law_upload_then_range_reads_back`, a range view of a typed patch reads
/// back the written values.
pub proof fn law_f32_encoding_is_injective(bytes: Seq<u8>, written: Seq<F32Bits>, read: Seq<F32Bits>, big: bool)
    requires
        encodes::<F32Bits>(bytes, written, big),
        encodes::<F32Bits>(bytes, read, big),
    ensures
        read == written,
{
    reveal(encodes_words);
    let ww = <F32Bits as PodElement>::spec_words(written);
    let rw = <F32Bits as PodElement>::spec_words(read);
    assert(written.len() == read.len());
    assert forall|i: int| 0 <= i < written.len() implies #[trigger] read[i] == written[i] by {
        assert forall|j: int| 0 <= j < 4 implies byte_of(written[i].0 as int, j, 4, big) == #[trigger] byte_of(
            read[i].0 as int,
            j,
            4,
            big,
        ) by {
            let k = 4 * i + j;
            assert(k / 4 == i && k % 4 == j);
            assert(bytes[k] == byte_of(ww[k / 4], k % 4, 4, big));
            assert(bytes[k] == byte_of(rw[k / 4], k % 4, 4, big));
        }
        lemma_u32_bytes_determine(written[i].0, read[i].0, big);
    }
    assert(read =~= written);
}

/// Decoding undoes encoding for `u32` values: two sequences that the same
/// bytes encode in the same byte order are equal.
pub proof fn law_u32_encoding_is_injective(bytes: Seq<u8>, written: Seq<u32>, read: Seq<u32>, big: bool)
    requires
        encodes::<u32>(bytes, written, big),
        encodes::<u32>(bytes, read, big),
    ensures
        read == written,
{
    reveal(encodes_words);
    let ww = <u32 as PodElement>::spec_words(written);
    let rw = <u32 as PodElement>::spec_words(read);
    assert(written.len() == read.len());
    assert forall|i: int| 0 <= i < written.len() implies #[trigger] read[i] == written[i] by {
        assert forall|j: int| 0 <= j < 4 implies byte_of(written[i] as int, j, 4, big) == #[trigger] byte_of(
            read[i] as int,
            j,
            4,
            big,
        ) by {
            let k = 4 * i + j;
            assert(k / 4 == i && k % 4 == j);
            assert(bytes[k] == byte_of(ww[k / 4], k % 4, 4, big));
            assert(bytes[k] == byte_of(rw[k / 4], k % 4, 4, big));
        }
        lemma_u32_bytes_determine(written[i], read[i], big);
    }
    assert(read =~= written);
}

} // verus!
