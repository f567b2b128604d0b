//! Byte views of plain element slices, through `bytemuck`.
//!
//! These are the only places where element values and raw bytes meet. The byte
//! order is the machine's native one, as `bytemuck` reinterprets memory in
//! place: little-endian or big-endian. The contracts below state that each
//! value's group of bytes is its encoding in one of the two orders, the same
//! order for every value of one call; which of the two is left open, since it
//! depends on the machine.

use vstd::prelude::*;

verus! {

/// `256` to the power `p`, for the byte positions of a value of up to eight
/// bytes.
pub open spec fn pow256(p: int) -> int {
    if p <= 0 {
        1
    } else if p == 1 {
        0x100
    } else if p == 2 {
        0x1_0000
    } else if p == 3 {
        0x100_0000
    } else if p == 4 {
        0x1_0000_0000
    } else if p == 5 {
        0x100_0000_0000
    } else if p == 6 {
        0x1_0000_0000_0000
    } else {
        0x100_0000_0000_0000
    }
}

/// Byte `j` (in memory order) of the `width`-byte value `v`, little-endian or
/// big-endian.
pub open spec fn byte_of(v: int, j: int, width: int, big: bool) -> u8 {
    let p = if big { width - 1 - j } else { j };
    ((v / pow256(p)) % 256) as u8
}

/// Whether `bytes` holds the values of `data`, four bytes each, in the given
/// byte order.
pub open spec fn encodes_u32s(bytes: Seq<u8>, data: Seq<u32>, big: bool) -> bool {
    &&& bytes.len() == 4 * data.len()
    &&& forall|k: int| 0 <= k < bytes.len() ==> #[trigger] bytes[k] == byte_of(data[k / 4] as int, k % 4, 4, big)
}

/// Whether `bytes` holds the values of `data`, eight bytes each, in the given
/// byte order.
pub open spec fn encodes_u64s(bytes: Seq<u8>, data: Seq<u64>, big: bool) -> bool {
    &&& bytes.len() == 8 * data.len()
    &&& forall|k: int| 0 <= k < bytes.len() ==> #[trigger] bytes[k] == byte_of(data[k / 8] as int, k % 8, 8, big)
}

/// Whether `bytes` holds the `width`-byte encodings of `words` one after the
/// other, in the given byte order.
#[verifier::opaque]
pub open spec fn encodes_words(bytes: Seq<u8>, words: Seq<int>, width: int, big: bool) -> bool {
    &&& bytes.len() == width * words.len()
    &&& forall|k: int| 0 <= k < bytes.len() ==> #[trigger] bytes[k] == byte_of(words[k / width], k % width, width, big)
}

/// Byte `k` of `bytes`, or zero past its end.
pub open spec fn padded_byte(bytes: Seq<u8>, k: int) -> u8 {
    if 0 <= k < bytes.len() {
        bytes[k]
    } else {
        0
    }
}

/// Whether `values` are the four-byte values read from `bytes` in the given
/// byte order, a trailing partial value padded with zero bytes.
pub open spec fn decodes_u32s(bytes: Seq<u8>, values: Seq<u32>, big: bool) -> bool {
    &&& values.len() == (bytes.len() + 3) / 4
    &&& forall|k: int|
        0 <= k < 4 * values.len() ==> byte_of(values[k / 4] as int, k % 4, 4, big) == #[trigger] padded_byte(bytes, k)
}

/// Whether `values` are the eight-byte values read from `bytes` in the given
/// byte order, a trailing partial value padded with zero bytes.
pub open spec fn decodes_u64s(bytes: Seq<u8>, values: Seq<u64>, big: bool) -> bool {
    &&& values.len() == (bytes.len() + 7) / 8
    &&& forall|k: int|
        0 <= k < 8 * values.len() ==> byte_of(values[k / 8] as int, k % 8, 8, big) == #[trigger] padded_byte(bytes, k)
}

/// `bytemuck::cast_slice::<u32, u8>`, copied into a new vector.
///
/// Claimed: the result is the values' four-byte encodings one after the
/// other, all in the machine's byte order (little- or big-endian); which of
/// the two is left unsaid.
#[verifier::external_body]
pub(crate) fn u32_slice_bytes(data: &[u32]) -> (bytes: Vec<u8>)
    ensures
        bytes@.len() == 4 * data@.len(),
        exists|big: bool| #[trigger] encodes_u32s(bytes@, data@, big),
{
    bytemuck::cast_slice::<u32, u8>(data).to_vec()
}

/// `bytemuck::cast_slice::<u64, u8>`, copied into a new vector.
///
/// Claimed: the result is the values' eight-byte encodings one after the
/// other, all in the machine's byte order; which order is left unsaid.
#[verifier::external_body]
pub(crate) fn u64_slice_bytes(data: &[u64]) -> (bytes: Vec<u8>)
    ensures
        bytes@.len() == 8 * data@.len(),
        exists|big: bool| #[trigger] encodes_u64s(bytes@, data@, big),
{
    bytemuck::cast_slice::<u64, u8>(data).to_vec()
}

/// Whether the `width` bytes of `bytes` starting at `start` are all zero; bytes
/// past the end count as zero.
pub open spec fn all_zero(bytes: Seq<u8>, start: int, width: int) -> bool {
    forall|k: int| start <= k < start + width && k < bytes.len() ==> #[trigger] bytes[k] == 0
}

/// `bytemuck::pod_collect_to_vec::<u8, u32>`: reads the bytes as native-endian
/// `u32` values, zero-padding a trailing partial value.
///
/// Claimed: the result has `ceil(len / 4)` values, each read from its four
/// bytes (zero past the end) in the machine's byte order, the same for all;
/// which order is left unsaid. So a value is zero exactly when its four source
/// bytes are zero.
#[verifier::external_body]
pub(crate) fn u32s_from_bytes(bytes: &[u8]) -> (values: Vec<u32>)
    ensures
        values@.len() == (bytes@.len() + 3) / 4,
        exists|big: bool| #[trigger] decodes_u32s(bytes@, values@, big),
        forall|i: int|
            0 <= i < values@.len() ==> (#[trigger] values@[i] == 0 <==> all_zero(
                bytes@,
                4 * i,
                4,
            )),
{
    bytemuck::pod_collect_to_vec::<u8, u32>(bytes)
}

/// `bytemuck::pod_collect_to_vec::<u8, u64>`: reads the bytes as native-endian
/// `u64` values, zero-padding a trailing partial value.
///
/// Claimed: the result has `ceil(len / 8)` values, each read from its eight
/// bytes (zero past the end) in the machine's byte order, the same for all;
/// which order is left unsaid. So a value is zero exactly when its eight
/// source bytes are zero.
#[verifier::external_body]
pub(crate) fn u64s_from_bytes(bytes: &[u8]) -> (values: Vec<u64>)
    ensures
        values@.len() == (bytes@.len() + 7) / 8,
        exists|big: bool| #[trigger] decodes_u64s(bytes@, values@, big),
        forall|i: int|
            0 <= i < values@.len() ==> (#[trigger] values@[i] == 0 <==> all_zero(
                bytes@,
                8 * i,
                8,
            )),
{
    bytemuck::pod_collect_to_vec::<u8, u64>(bytes)
}

} // verus!
