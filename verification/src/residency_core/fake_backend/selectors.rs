//! Selector serving for the in-memory backend.

use vstd::prelude::*;

use crate::residency_core::bytes::{
    decodes_u32s, decodes_u64s, encodes_u32s, encodes_u64s, u32_slice_bytes, u32s_from_bytes, u64_slice_bytes,
    u64s_from_bytes,
};
use crate::residency_core::fake_backend::model::{
    end_error, pack_chunks, pack_events, selector_bytes, summary_supported, FakeResourceView,
};
use crate::residency_core::fake_backend::{
    checked_end, reveal_fake_resource, usize_size, FakeBackendError, FakeResource,
};
use crate::residency_core::graph::min3;
use crate::residency_core::resource::{
    ChunkId, ChunkedLayoutInfo, ElementType, LayoutError, LayoutKind, ResourceId, ResourceLayout,
};
use crate::residency_core::summary::SummaryKind;
use crate::residency_core::view::ViewSelector;

verus! {

/// A copy of `bytes[start..end]`.
fn copy_range(bytes: &Vec<u8>, start: usize, end: usize) -> (out: Vec<u8>)
    requires
        start <= end <= bytes@.len(),
    ensures
        out@ == bytes@.subrange(start as int, end as int),
{
    vstd::slice::slice_to_vec(vstd::slice::slice_subrange(bytes.as_slice(), start, end))
}

/// `a * b` when it fits a `u64`.
fn mul_u64(a: u64, b: u64) -> (r: Option<u64>)
    ensures
        r matches Some(v) ==> v == a * b,
        r is None ==> a * b > u64::MAX,
{
    proof {
        assert(0 <= a * b) by (nonlinear_arith);
    }
    a.checked_mul(b)
}

/// Once packing a prefix of the chunks fails, packing any longer prefix fails
/// the same way.
proof fn lemma_pack_chunks_err(
    r: FakeResourceView,
    resource: ResourceId,
    info: ChunkedLayoutInfo,
    ids: Seq<ChunkId>,
    k: int,
    chunk_size: u64,
)
    requires
        0 <= k <= ids.len(),
        pack_chunks(r, resource, info, ids.take(k), chunk_size) is Err,
    ensures
        pack_chunks(r, resource, info, ids, chunk_size) == pack_chunks(r, resource, info, ids.take(k), chunk_size),
    decreases ids.len() - k,
{
    if k < ids.len() {
        assert(ids.take(k + 1).drop_last() =~= ids.take(k));
        lemma_pack_chunks_err(r, resource, info, ids, k + 1, chunk_size);
    } else {
        assert(ids.take(k) =~= ids);
    }
}

/// Once packing the first records fails, packing more records fails the same
/// way.
proof fn lemma_pack_events_err(
    r: FakeResourceView,
    resource: ResourceId,
    head: int,
    n: int,
    size: u64,
    count: u64,
    k: int,
    m: int,
)
    requires
        0 <= k <= m,
        pack_events(r, resource, head, n, size, count, k) is Err,
    ensures
        pack_events(r, resource, head, n, size, count, m) == pack_events(r, resource, head, n, size, count, k),
    decreases m - k,
{
    if k < m {
        lemma_pack_events_err(r, resource, head, n, size, count, k, m - 1);
    }
}

/// The packed bytes of the chunks `ids`.
fn chunk_bytes(
    resource: &ResourceId,
    res: &FakeResource,
    info: ChunkedLayoutInfo,
    ids: &Vec<ChunkId>,
    chunk_size: u64,
) -> (r: Result<Vec<u8>, FakeBackendError>)
    ensures
        match pack_chunks(res@, *resource, info, ids@, chunk_size) {
            Ok(b) => r matches Ok(v) && v@ == b,
            Err(e) => r == Err::<Vec<u8>, FakeBackendError>(e),
        },
{
    proof {
        reveal_fake_resource(res);
    }
    let mut packed: Vec<u8> = Vec::new();
    let mut k: usize = 0;
    while k < ids.len()
        invariant
            k <= ids@.len(),
            res@.bytes == res.bytes@,
            pack_chunks(res@, *resource, info, ids@.take(k as int), chunk_size) == Ok::<Seq<u8>, FakeBackendError>(packed@),
        decreases ids@.len() - k,
    {
        let ghost prefix = ids@.take(k as int + 1);
        proof {
            assert(prefix.drop_last() =~= ids@.take(k as int));
            assert(prefix.last() == ids@[k as int]);
        }
        let chunk = ids[k];
        if !info.contains(chunk) {
            proof {
                lemma_pack_chunks_err(res@, *resource, info, ids@, k as int + 1, chunk_size);
            }
            return Err(
                FakeBackendError::ChunkOutOfBounds {
                    resource: resource.clone_id(),
                    chunk,
                    chunks_x: info.chunks_x,
                    chunks_y: info.chunks_y,
                },
            );
        }
        let off_u64 = match info.checked_chunk_byte_offset(chunk) {
            Err(e) => {
                proof {
                    lemma_pack_chunks_err(res@, *resource, info, ids@, k as int + 1, chunk_size);
                }
                return Err(FakeBackendError::LayoutMetadata(e));
            },
            Ok(o) => o,
        };
        let off = match usize_size(resource, off_u64) {
            Err(e) => {
                proof {
                    lemma_pack_chunks_err(res@, *resource, info, ids@, k as int + 1, chunk_size);
                }
                return Err(e);
            },
            Ok(o) => o,
        };
        let end = match checked_end(off_u64, chunk_size, res.bytes.len()) {
            Err(e) => {
                proof {
                    lemma_pack_chunks_err(res@, *resource, info, ids@, k as int + 1, chunk_size);
                }
                return Err(e);
            },
            Ok(e) => e,
        };
        let mut piece = copy_range(&res.bytes, off, end);
        packed.append(&mut piece);
        k = k + 1;
    }
    proof {
        assert(ids@.take(ids@.len() as int) =~= ids@);
    }
    Ok(packed)
}

/// The `n` most recent records of an event ring, oldest first.
fn event_bytes(
    resource: &ResourceId,
    res: &FakeResource,
    head: u64,
    n: u64,
    record_size: u64,
    record_count: u64,
) -> (r: Result<Vec<u8>, FakeBackendError>)
    requires
        n <= head,
        n <= record_count,
    ensures
        match pack_events(res@, *resource, head as int, n as int, record_size, record_count, n as int) {
            Ok(b) => r matches Ok(v) && v@ == b,
            Err(e) => r == Err::<Vec<u8>, FakeBackendError>(e),
        },
{
    proof {
        reveal_fake_resource(res);
    }
    let mut packed: Vec<u8> = Vec::new();
    let mut i: u64 = 0;
    while i < n
        invariant
            i <= n,
            n <= head,
            n <= record_count,
            res@.bytes == res.bytes@,
            pack_events(res@, *resource, head as int, n as int, record_size, record_count, i as int)
                == Ok::<Seq<u8>, FakeBackendError>(packed@),
        decreases n - i,
    {
        let logical = head - n + i;
        let ring_pos = logical % record_count;
        let off_u64 = match mul_u64(ring_pos, record_size) {
            None => {
                proof {
                    lemma_pack_events_err(res@, *resource, head as int, n as int, record_size, record_count, i as int + 1, n as int);
                }
                return Err(FakeBackendError::OutOfBounds { offset: ring_pos, len: record_size, size: res.bytes.len() });
            },
            Some(o) => o,
        };
        let off = match usize_size(resource, off_u64) {
            Err(e) => {
                proof {
                    lemma_pack_events_err(res@, *resource, head as int, n as int, record_size, record_count, i as int + 1, n as int);
                }
                return Err(e);
            },
            Ok(o) => o,
        };
        let end = match checked_end(off_u64, record_size, res.bytes.len()) {
            Err(e) => {
                proof {
                    lemma_pack_events_err(res@, *resource, head as int, n as int, record_size, record_count, i as int + 1, n as int);
                }
                return Err(e);
            },
            Ok(e) => e,
        };
        let mut piece = copy_range(&res.bytes, off, end);
        packed.append(&mut piece);
        i = i + 1;
    }
    Ok(packed)
}

/// How many of the values in `s` have a bit set under `mask`.
pub open spec fn count_masked_u32(s: Seq<u32>, mask: u32) -> nat
    decreases s.len(),
{
    if s.len() == 0 {
        0
    } else {
        count_masked_u32(s.drop_last(), mask) + if s.last() & mask != 0 { 1nat } else { 0nat }
    }
}

/// How many of the values in `s` have a bit set under `mask`.
pub open spec fn count_masked_u64(s: Seq<u64>, mask: u64) -> nat
    decreases s.len(),
{
    if s.len() == 0 {
        0
    } else {
        count_masked_u64(s.drop_last(), mask) + if s.last() & mask != 0 { 1nat } else { 0nat }
    }
}

/// The number of values among `words` that are nonzero under `mask`.
fn count_where_u32(words: &Vec<u32>, mask: u32) -> (n: usize)
    ensures
        n == count_masked_u32(words@, mask),
        n <= words@.len(),
{
    let mut n: usize = 0;
    let mut i: usize = 0;
    while i < words.len()
        invariant
            i <= words@.len(),
            n <= i,
            n == count_masked_u32(words@.take(i as int), mask),
        decreases words@.len() - i,
    {
        proof {
            assert(words@.take(i as int + 1).drop_last() =~= words@.take(i as int));
        }
        if words[i] & mask != 0 {
            n = n + 1;
        }
        i = i + 1;
    }
    proof {
        assert(words@.take(i as int) =~= words@);
    }
    n
}

/// The number of values among `words` that are nonzero under `mask`.
fn count_where_u64(words: &Vec<u64>, mask: u64) -> (n: usize)
    ensures
        n == count_masked_u64(words@, mask),
        n <= words@.len(),
{
    let mut n: usize = 0;
    let mut i: usize = 0;
    while i < words.len()
        invariant
            i <= words@.len(),
            n <= i,
            n == count_masked_u64(words@.take(i as int), mask),
        decreases words@.len() - i,
    {
        proof {
            assert(words@.take(i as int + 1).drop_last() =~= words@.take(i as int));
        }
        if words[i] & mask != 0 {
            n = n + 1;
        }
        i = i + 1;
    }
    proof {
        assert(words@.take(i as int) =~= words@);
    }
    n
}

/// Whether the `f32` with bit pattern `bits` is a NaN.
pub open spec fn f32_bits_nan(bits: u32) -> bool {
    (bits & 0x7f80_0000u32) == 0x7f80_0000u32 && (bits & 0x007f_ffffu32) != 0
}

/// A key that orders non-NaN `f32` bit patterns as their values are ordered,
/// with both zeros equal.
pub open spec fn f32_bits_key(bits: u32) -> int {
    if bits & 0x8000_0000u32 != 0 {
        -((bits & 0x7fff_ffffu32) as int)
    } else {
        bits as int
    }
}

/// Whether `a < b` for the `f32` values with these bit patterns.
pub open spec fn f32_bits_lt(a: u32, b: u32) -> bool {
    !f32_bits_nan(a) && !f32_bits_nan(b) && f32_bits_key(a) < f32_bits_key(b)
}

/// Whether `a < b` for the `f32` values with these bit patterns: false when
/// either is a NaN, and `-0.0` equals `0.0`.
pub fn f32_bits_less(a: u32, b: u32) -> (r: bool)
    ensures
        r == f32_bits_lt(a, b),
{
    let a_nan = (a & 0x7f80_0000u32) == 0x7f80_0000u32 && (a & 0x007f_ffffu32) != 0;
    let b_nan = (b & 0x7f80_0000u32) == 0x7f80_0000u32 && (b & 0x007f_ffffu32) != 0;
    if a_nan || b_nan {
        return false;
    }
    let ka: i64 = if a & 0x8000_0000u32 != 0 {
        -((a & 0x7fff_ffffu32) as i64)
    } else {
        a as i64
    };
    let kb: i64 = if b & 0x8000_0000u32 != 0 {
        -((b & 0x7fff_ffffu32) as i64)
    } else {
        b as i64
    };
    ka < kb
}

/// The running minimum and maximum over `s`, scanned left to right from
/// positive and negative infinity: a value replaces the minimum when it is
/// less, and the maximum when it is greater, so NaNs never enter and the
/// first of equal values stays.
pub open spec fn min_max_scan(s: Seq<u32>) -> (u32, u32)
    decreases s.len(),
{
    if s.len() == 0 {
        (0x7f80_0000u32, 0xff80_0000u32)
    } else {
        let prev = min_max_scan(s.drop_last());
        let v = s.last();
        (
            if f32_bits_lt(v, prev.0) { v } else { prev.0 },
            if f32_bits_lt(prev.1, v) { v } else { prev.1 },
        )
    }
}

/// The smallest and largest `f32` among `words` (NaNs skipped), starting
/// from positive and negative infinity.
fn min_max_f32_bits(words: &Vec<u32>) -> (r: (u32, u32))
    ensures
        r == min_max_scan(words@),
        forall|j: int| 0 <= j < words@.len() ==> !f32_bits_lt(#[trigger] words@[j], r.0),
        forall|j: int| 0 <= j < words@.len() ==> !f32_bits_lt(r.1, #[trigger] words@[j]),
{
    let mut min: u32 = 0x7f80_0000u32;
    let mut max: u32 = 0xff80_0000u32;
    let mut i: usize = 0;
    while i < words.len()
        invariant
            i <= words@.len(),
            (min, max) == min_max_scan(words@.take(i as int)),
            forall|j: int| 0 <= j < i ==> !f32_bits_lt(#[trigger] words@[j], min),
            forall|j: int| 0 <= j < i ==> !f32_bits_lt(max, #[trigger] words@[j]),
        decreases words@.len() - i,
    {
        proof {
            assert(words@.take(i as int + 1).drop_last() =~= words@.take(i as int));
        }
        let v = words[i];
        if f32_bits_less(v, min) {
            min = v;
        }
        if f32_bits_less(max, v) {
            max = v;
        }
        i = i + 1;
    }
    proof {
        assert(words@.take(i as int) =~= words@);
    }
    (min, max)
}

/// The sum of the values in `s`.
pub open spec fn sum_u32s(s: Seq<u32>) -> int
    decreases s.len(),
{
    if s.len() == 0 {
        0
    } else {
        sum_u32s(s.drop_last()) + s.last()
    }
}

/// The sum over a prefix is at most the sum over the whole sequence.
proof fn lemma_sum_prefix_le(s: Seq<u32>, k: int)
    requires
        0 <= k <= s.len(),
    ensures
        sum_u32s(s.take(k)) <= sum_u32s(s),
    decreases s.len(),
{
    if k == s.len() {
        assert(s.take(k) =~= s);
    } else {
        assert(s.take(k) =~= s.drop_last().take(k));
        lemma_sum_prefix_le(s.drop_last(), k);
    }
}

/// The sum of `words`, or `None` when it overflows `u64` (which takes more
/// than `u32::MAX` words).
fn sum_u32(words: &Vec<u32>) -> (r: Option<u64>)
    ensures
        match r {
            Some(t) => t == sum_u32s(words@),
            None => sum_u32s(words@) > u64::MAX,
        },
        r is None ==> words@.len() > u32::MAX,
{
    let mut total: u64 = 0;
    let mut i: usize = 0;
    while i < words.len()
        invariant
            i <= words@.len(),
            total <= i * 0xffff_ffffu64,
            total == sum_u32s(words@.take(i as int)),
        decreases words@.len() - i,
    {
        proof {
            assert(words@.take(i as int + 1).drop_last() =~= words@.take(i as int));
        }
        let w = words[i] as u64;
        match total.checked_add(w) {
            None => {
                proof {
                    assert(i > u32::MAX) by (nonlinear_arith)
                        requires
                            total <= i * 0xffff_ffffu64,
                            total + w > u64::MAX,
                            w <= 0xffff_ffffu64,
                    ;
                    lemma_sum_prefix_le(words@, i as int + 1);
                }
                return None;
            },
            Some(t) => {
                total = t;
            },
        }
        proof {
            assert(total <= (i + 1) * 0xffff_ffffu64) by (nonlinear_arith)
                requires
                    total <= i * 0xffff_ffffu64 + 0xffff_ffffu64,
            ;
        }
        i = i + 1;
    }
    proof {
        assert(words@.take(i as int) =~= words@);
    }
    Some(total)
}

/// Whether `bytes` holds `data` as four-byte values in one of the two byte
/// orders.
pub open spec fn is_u32s_encoding(bytes: Seq<u8>, data: Seq<u32>) -> bool {
    exists|big: bool| #[trigger] encodes_u32s(bytes, data, big)
}

/// Whether `bytes` holds `data` as eight-byte values in one of the two byte
/// orders.
pub open spec fn is_u64s_encoding(bytes: Seq<u8>, data: Seq<u64>) -> bool {
    exists|big: bool| #[trigger] encodes_u64s(bytes, data, big)
}

/// The bits that decide whether a four-byte element counts as nonzero: all of
/// them for integers, all but the sign for `f32` (so `-0.0` is zero).
pub open spec fn count_mask_u32(element: ElementType) -> u32 {
    if element == ElementType::F32 {
        0x7fff_ffffu32
    } else {
        0xffff_ffffu32
    }
}

/// A count summary of `n`: its four bytes, or an overflow past `u32::MAX`.
pub open spec fn count_result(
    kind: SummaryKind,
    element: ElementType,
    n: nat,
    out: Result<Seq<u8>, FakeBackendError>,
) -> bool {
    if n > u32::MAX {
        out == Err::<Seq<u8>, FakeBackendError>(FakeBackendError::SummaryOverflow { kind, element })
    } else {
        out matches Ok(b) && is_u32s_encoding(b, seq![n as u32])
    }
}

/// What summary `kind` over `stored`, holding elements of type `element`,
/// gives: the elements are read in the machine's byte order, and the count,
/// the bounds or the sum is written back in that order (or the error).
pub open spec fn summary_result(
    kind: SummaryKind,
    element: ElementType,
    stored: Seq<u8>,
    out: Result<Seq<u8>, FakeBackendError>,
) -> bool {
    if !summary_supported(kind, element) {
        out == Err::<Seq<u8>, FakeBackendError>(FakeBackendError::UnsupportedSummary { kind, element })
    } else {
        match kind {
            SummaryKind::CountNonzero => if element == ElementType::F64 {
                exists|words: Seq<u64>, big: bool|
                    #[trigger] decodes_u64s(stored, words, big) && count_result(
                        kind,
                        element,
                        count_masked_u64(words, 0x7fff_ffff_ffff_ffffu64),
                        out,
                    )
            } else {
                exists|words: Seq<u32>, big: bool|
                    #[trigger] decodes_u32s(stored, words, big) && count_result(
                        kind,
                        element,
                        count_masked_u32(words, count_mask_u32(element)),
                        out,
                    )
            },
            SummaryKind::MinMaxF32 => exists|words: Seq<u32>, big: bool|
                #[trigger] decodes_u32s(stored, words, big) && (out matches Ok(b) && is_u32s_encoding(
                    b,
                    seq![min_max_scan(words).0, min_max_scan(words).1],
                )),
            SummaryKind::SumU32 => exists|words: Seq<u32>, big: bool|
                #[trigger] decodes_u32s(stored, words, big) && if sum_u32s(words) > u64::MAX {
                    out == Err::<Seq<u8>, FakeBackendError>(FakeBackendError::SummaryOverflow { kind, element })
                } else {
                    out matches Ok(b) && is_u64s_encoding(b, seq![sum_u32s(words) as u64])
                },
        }
    }
}

/// The bytes of a result, as a sequence.
pub open spec fn bytes_result(r: Result<Vec<u8>, FakeBackendError>) -> Result<Seq<u8>, FakeBackendError> {
    match r {
        Ok(v) => Ok(v@),
        Err(e) => Err(e),
    }
}

/// The summary `kind` over the resource's elements, in the machine's byte
/// order.
pub(crate) fn compute_summary(kind: SummaryKind, layout: &ResourceLayout, bytes: &Vec<u8>) -> (r: Result<Vec<u8>, FakeBackendError>)
    ensures
        !summary_supported(kind, layout.spec_element_type()) ==> r == Err::<Vec<u8>, FakeBackendError>(
            FakeBackendError::UnsupportedSummary { kind, element: layout.spec_element_type() },
        ),
        summary_supported(kind, layout.spec_element_type()) ==> match r {
            Ok(v) => v@.len() == kind.spec_result_size_bytes(),
            Err(e) => e == FakeBackendError::SummaryOverflow { kind, element: layout.spec_element_type() },
        },
        summary_supported(kind, layout.spec_element_type()) && r is Err ==> kind != SummaryKind::MinMaxF32
            && bytes@.len() > 4 * u32::MAX,
        summary_result(kind, layout.spec_element_type(), bytes@, bytes_result(r)),
{
    let element = layout.element_type();
    match kind {
        SummaryKind::CountNonzero => match element {
            ElementType::Bytes => Err(FakeBackendError::UnsupportedSummary { kind, element }),
            ElementType::F64 => {
                let words = u64s_from_bytes(bytes.as_slice());
                let n = count_where_u64(&words, 0x7fff_ffff_ffff_ffffu64);
                let r = count_bytes(kind, element, n);
                proof {
                    let b1 = choose|big: bool| decodes_u64s(bytes@, words@, big);
                    assert(decodes_u64s(bytes@, words@, b1));
                }
                r
            },
            _ => {
                let mask: u32 = if element == ElementType::F32 {
                    0x7fff_ffffu32
                } else {
                    0xffff_ffffu32
                };
                let words = u32s_from_bytes(bytes.as_slice());
                let n = count_where_u32(&words, mask);
                let r = count_bytes(kind, element, n);
                proof {
                    let b1 = choose|big: bool| decodes_u32s(bytes@, words@, big);
                    assert(decodes_u32s(bytes@, words@, b1));
                }
                r
            },
        },
        SummaryKind::MinMaxF32 => {
            if element != ElementType::F32 {
                return Err(FakeBackendError::UnsupportedSummary { kind, element });
            }
            let words = u32s_from_bytes(bytes.as_slice());
            let (min, max) = min_max_f32_bits(&words);
            let out = [min, max];
            let served = u32_slice_bytes(&out);
            proof {
                let b1 = choose|big: bool| decodes_u32s(bytes@, words@, big);
                assert(decodes_u32s(bytes@, words@, b1));
                assert(out@ =~= seq![min, max]);
                let b2 = choose|big: bool| encodes_u32s(served@, out@, big);
                assert(encodes_u32s(served@, seq![min_max_scan(words@).0, min_max_scan(words@).1], b2));
            }
            Ok(served)
        },
        SummaryKind::SumU32 => {
            if element != ElementType::U32 {
                return Err(FakeBackendError::UnsupportedSummary { kind, element });
            }
            let words = u32s_from_bytes(bytes.as_slice());
            proof {
                let b1 = choose|big: bool| decodes_u32s(bytes@, words@, big);
                assert(decodes_u32s(bytes@, words@, b1));
            }
            match sum_u32(&words) {
                None => Err(FakeBackendError::SummaryOverflow { kind, element }),
                Some(total) => {
                    let out = [total];
                    let served = u64_slice_bytes(&out);
                    proof {
                        assert(out@ =~= seq![total]);
                        let b2 = choose|big: bool| encodes_u64s(served@, out@, big);
                        assert(encodes_u64s(served@, seq![sum_u32s(words@) as u64], b2));
                    }
                    Ok(served)
                },
            }
        },
    }
}

/// The count summary for `n`: its four bytes in the machine's byte order, or
/// an overflow when it does not fit a `u32`.
fn count_bytes(kind: SummaryKind, element: ElementType, n: usize) -> (r: Result<Vec<u8>, FakeBackendError>)
    ensures
        count_result(kind, element, n as nat, bytes_result(r)),
        r matches Ok(v) ==> v@.len() == 4,
        r is Err ==> n > u32::MAX && r == Err::<Vec<u8>, FakeBackendError>(
            FakeBackendError::SummaryOverflow { kind, element },
        ),
{
    if n > 0xffff_ffffusize {
        return Err(FakeBackendError::SummaryOverflow { kind, element });
    }
    let out = [n as u32];
    let served = u32_slice_bytes(&out);
    proof {
        assert(out@ =~= seq![n as u32]);
        let b2 = choose|big: bool| encodes_u32s(served@, out@, big);
        assert(encodes_u32s(served@, seq![n as u32], b2));
    }
    Ok(served)
}

/// The bytes served for `selector`, the error, or `Err(None)` when the
/// selector does not fit the layout. Summaries are computed elsewhere.
pub(crate) fn bytes_for_selector(
    resource: &ResourceId,
    selector: &ViewSelector,
    event_head: Option<u64>,
    res: &FakeResource,
) -> (r: Result<Vec<u8>, Option<FakeBackendError>>)
    requires
        !(selector is Summary),
    ensures
        match selector_bytes(res@, *resource, *selector, event_head) {
            Ok(b) => r matches Ok(v) && v@ == b,
            Err(e) => r == Err::<Vec<u8>, Option<FakeBackendError>>(e),
        },
{
    proof {
        reveal_fake_resource(res);
    }
    let size = res.bytes.len();
    match selector {
        ViewSelector::Full => Ok(vstd::slice::slice_to_vec(res.bytes.as_slice())),
        ViewSelector::Range { offset, len } => {
            let start = match usize_size(resource, *offset) {
                Err(e) => {
                    return Err(Some(e));
                },
                Ok(s) => s,
            };
            let end = match checked_end(*offset, *len, size) {
                Err(e) => {
                    return Err(Some(e));
                },
                Ok(e) => e,
            };
            Ok(copy_range(&res.bytes, start, end))
        },
        ViewSelector::Diagnostics => {
            if res.diagnostics.is_none() {
                return Err(Some(FakeBackendError::MissingDiagnostics(resource.clone_id())));
            }
            Ok(vstd::slice::slice_to_vec(res.diagnostic_bytes.as_slice()))
        },
        ViewSelector::Rows { start, count } => {
            let (width, _) = match res.layout.dimensions_2d() {
                None => {
                    return Err(None);
                },
                Some(d) => d,
            };
            let stride = match mul_u64(width as u64, res.layout.element_size()) {
                None => {
                    return Err(Some(FakeBackendError::OutOfBounds { offset: 0, len: u64::MAX, size }));
                },
                Some(s) => s,
            };
            let byte_offset = match mul_u64(*start as u64, stride) {
                None => {
                    return Err(Some(FakeBackendError::OutOfBounds { offset: *start as u64, len: stride, size }));
                },
                Some(o) => o,
            };
            let byte_len = match mul_u64(*count as u64, stride) {
                None => {
                    return Err(Some(FakeBackendError::OutOfBounds { offset: byte_offset, len: *count as u64, size }));
                },
                Some(l) => l,
            };
            let s = match usize_size(resource, byte_offset) {
                Err(e) => {
                    return Err(Some(e));
                },
                Ok(s) => s,
            };
            let e = match checked_end(byte_offset, byte_len, size) {
                Err(e) => {
                    return Err(Some(e));
                },
                Ok(e) => e,
            };
            Ok(copy_range(&res.bytes, s, e))
        },
        ViewSelector::Chunks { ids } => {
            let info = match res.layout.chunked_info() {
                Err(e) => {
                    return Err(Some(FakeBackendError::LayoutMetadata(e)));
                },
                Ok(None) => {
                    return Err(None);
                },
                Ok(Some(info)) => info,
            };
            let chunk_size_u64 = match info.checked_chunk_size_bytes() {
                Err(e) => {
                    return Err(Some(FakeBackendError::LayoutMetadata(e)));
                },
                Ok(c) => c,
            };
            let chunk_size = match usize_size(resource, chunk_size_u64) {
                Err(e) => {
                    return Err(Some(e));
                },
                Ok(c) => c,
            };
            proof {
                assert(0 <= ids@.len() * chunk_size) by (nonlinear_arith);
            }
            if ids.len().checked_mul(chunk_size).is_none() {
                return Err(Some(FakeBackendError::OutOfBounds { offset: 0, len: chunk_size_u64, size }));
            }
            match chunk_bytes(resource, res, info, ids, chunk_size_u64) {
                Err(e) => Err(Some(e)),
                Ok(b) => Ok(b),
            }
        },
        ViewSelector::Summary { .. } => Err(None),
        ViewSelector::EventCandidates { max_records } => {
            let (record_size, record_count) = match res.layout.event_ring_info() {
                None => {
                    return Err(None);
                },
                Some(info) => info,
            };
            let head = match event_head {
                None => {
                    return Err(Some(FakeBackendError::MissingEventHead(resource.clone_id())));
                },
                Some(h) => h,
            };
            let inner = if head < record_count {
                head
            } else {
                record_count
            };
            let n = if (*max_records as u64) < inner {
                *max_records as u64
            } else {
                inner
            };
            assert(n == min3(*max_records as int, head as int, record_count as int));
            let capacity = match mul_u64(n, record_size) {
                None => {
                    return Err(Some(FakeBackendError::OutOfBounds { offset: 0, len: record_size, size }));
                },
                Some(c) => c,
            };
            match usize_size(resource, capacity) {
                Err(e) => {
                    return Err(Some(e));
                },
                Ok(_) => {},
            }
            match event_bytes(resource, res, head, n, record_size, record_count) {
                Err(e) => Err(Some(e)),
                Ok(b) => Ok(b),
            }
        },
    }
}

} // verus!
