//! Typed and raw CPU patches.

use vstd::prelude::*;

use crate::residency_core::bytes::{
    byte_of, decodes_u32s, encodes_words, decodes_u64s, encodes_u32s, encodes_u64s, padded_byte, u32_slice_bytes,
    u32s_from_bytes, u64_slice_bytes, u64s_from_bytes,
};
use crate::residency_core::resource::{ElementType, ResourceId};

verus! {

/// Wiring of a plain scalar type to its `ElementType`, with its byte encoding.
///
/// Implemented for `u32`, `i32`, `u8`, and for [`F32Bits`] / [`F64Bits`], which
/// carry floating-point values by their IEEE-754 bit patterns.
pub trait PodElement: Sized + Copy {
    /// Residency element type represented by this Rust type.
    spec fn spec_element_type() -> ElementType;

    /// Residency element type represented by this Rust type.
    fn element_type() -> (e: ElementType)
        ensures
            e == Self::spec_element_type(),
    ;

    /// The values' bit patterns as unsigned numbers, which their bytes encode.
    spec fn spec_words(data: Seq<Self>) -> Seq<int>;

    /// Every sequence of values has an encoding.
    proof fn lemma_encodable(data: Seq<Self>)
        ensures
            exists|bytes: Seq<u8>, big: bool| #[trigger] encodes_words(
                bytes,
                Self::spec_words(data),
                Self::spec_element_type().spec_size_bytes() as int,
                big,
            ),
    ;

    /// The values' bytes, one element after the other, in the machine's byte
    /// order.
    fn encode(data: &[Self]) -> (bytes: Vec<u8>)
        ensures
            bytes@.len() == data@.len() * Self::spec_element_type().spec_size_bytes(),
            exists|big: bool| #[trigger] encodes_words(
                bytes@,
                Self::spec_words(data@),
                Self::spec_element_type().spec_size_bytes() as int,
                big,
            ),
    ;

    /// The values held by `bytes`, whose length is a multiple of the element
    /// size, read in the machine's byte order.
    fn decode(bytes: &[u8]) -> (data: Vec<Self>)
        requires
            (bytes@.len() as int) % (Self::spec_element_type().spec_size_bytes() as int) == 0,
        ensures
            data@.len() * Self::spec_element_type().spec_size_bytes() == bytes@.len(),
            exists|big: bool| #[trigger] encodes_words(
                bytes@,
                Self::spec_words(data@),
                Self::spec_element_type().spec_size_bytes() as int,
                big,
            ),
    ;
}

/// Whether `bytes` holds the elements of `data` one after the other, each as
/// the encoding of its bit pattern in the given byte order (little-endian when
/// `big` is false).
pub open spec fn encodes<T: PodElement>(bytes: Seq<u8>, data: Seq<T>, big: bool) -> bool {
    encodes_words(bytes, T::spec_words(data), T::spec_element_type().spec_size_bytes() as int, big)
}

proof fn div4_exact(n: int)
    requires
        n >= 0,
        n % 4 == 0,
    ensures
        ((n + 3) / 4) * 4 == n,
{
}

proof fn div8_exact(n: int)
    requires
        n >= 0,
        n % 8 == 0,
    ensures
        ((n + 7) / 8) * 8 == n,
{
}

/// An `f32` value carried by its IEEE-754 bit pattern.
#[derive(Clone, Copy, Debug, PartialEq, Eq, Structural, Hash)]
pub struct F32Bits(pub u32);

/// An `f64` value carried by its IEEE-754 bit pattern.
#[derive(Clone, Copy, Debug, PartialEq, Eq, Structural, Hash)]
pub struct F64Bits(pub u64);

impl PodElement for u32 {
    open spec fn spec_element_type() -> ElementType {
        ElementType::U32
    }

    fn element_type() -> (e: ElementType) {
        ElementType::U32
    }

    open spec fn spec_words(data: Seq<u32>) -> Seq<int> {
        data.map_values(|v: u32| v as int)
    }

    proof fn lemma_encodable(data: Seq<u32>) {
        lemma_le_encoding(Self::spec_words(data), 4);
        assert(encodes_words(le_encoding(Self::spec_words(data), 4), Self::spec_words(data), Self::spec_element_type().spec_size_bytes() as int, false));
    }

    fn encode(data: &[u32]) -> (bytes: Vec<u8>) {
        let bytes = u32_slice_bytes(data);
        proof {
            let big = choose|big: bool| encodes_u32s(bytes@, data@, big);
            lemma_words_u32(bytes@, data@, Self::spec_words(data@), big);
            assert(encodes_words(bytes@, Self::spec_words(data@), Self::spec_element_type().spec_size_bytes() as int, big));
        }
        bytes
    }

    fn decode(bytes: &[u8]) -> (data: Vec<u32>) {
        let data = u32s_from_bytes(bytes);
        proof {
            div4_exact(bytes@.len() as int);
            let big = choose|big: bool| decodes_u32s(bytes@, data@, big);
            lemma_decoded_u32s_encode(bytes@, data@, big);
            lemma_words_u32(bytes@, data@, Self::spec_words(data@), big);
            assert(encodes_words(bytes@, Self::spec_words(data@), Self::spec_element_type().spec_size_bytes() as int, big));
        }
        data
    }
}

impl PodElement for i32 {
    open spec fn spec_element_type() -> ElementType {
        ElementType::I32
    }

    fn element_type() -> (e: ElementType) {
        ElementType::I32
    }

    open spec fn spec_words(data: Seq<i32>) -> Seq<int> {
        data.map_values(|v: i32| (v as u32) as int)
    }

    proof fn lemma_encodable(data: Seq<i32>) {
        lemma_le_encoding(Self::spec_words(data), 4);
        assert(encodes_words(le_encoding(Self::spec_words(data), 4), Self::spec_words(data), Self::spec_element_type().spec_size_bytes() as int, false));
    }

    fn encode(data: &[i32]) -> (bytes: Vec<u8>) {
        let mut words: Vec<u32> = Vec::new();
        let mut i: usize = 0;
        while i < data.len()
            invariant
                i <= data@.len(),
                words@.len() == i,
                forall|j: int| 0 <= j < i ==> #[trigger] words@[j] == (data@[j] as u32),
            decreases data@.len() - i,
        {
            words.push(#[verifier::truncate] (data[i] as u32));
            i = i + 1;
        }
        let bytes = u32_slice_bytes(words.as_slice());
        assert(bytes@.len() == data@.len() * 4);
        proof {
            let big = choose|big: bool| encodes_u32s(bytes@, words@, big);
            assert forall|i: int| 0 <= i < words@.len() implies #[trigger] Self::spec_words(data@)[i] == words@[i] as int by {
                assert(words@[i] == (data@[i] as u32));
            }
            lemma_words_u32(bytes@, words@, Self::spec_words(data@), big);
            assert(encodes_words(bytes@, Self::spec_words(data@), Self::spec_element_type().spec_size_bytes() as int, big));
        }
        bytes
    }

    fn decode(bytes: &[u8]) -> (data: Vec<i32>) {
        let words = u32s_from_bytes(bytes);
        let mut out: Vec<i32> = Vec::new();
        let mut i: usize = 0;
        while i < words.len()
            invariant
                i <= words@.len(),
                out@.len() == i,
                forall|j: int| 0 <= j < i ==> (#[trigger] out@[j] as u32) == words@[j],
            decreases words@.len() - i,
        {
            let w = words[i];
            let v: i32 = #[verifier::truncate] (w as i32);
            assert(((w as i32) as u32) == w) by (bit_vector);
            out.push(v);
            i = i + 1;
        }
        proof {
            div4_exact(bytes@.len() as int);
            let big = choose|big: bool| decodes_u32s(bytes@, words@, big);
            lemma_decoded_u32s_encode(bytes@, words@, big);
            assert forall|i: int| 0 <= i < words@.len() implies #[trigger] Self::spec_words(out@)[i] == words@[i] as int by {
                assert((out@[i] as u32) == words@[i]);
            }
            lemma_words_u32(bytes@, words@, Self::spec_words(out@), big);
            assert(encodes_words(bytes@, Self::spec_words(out@), Self::spec_element_type().spec_size_bytes() as int, big));
        }
        out
    }
}

impl PodElement for u8 {
    open spec fn spec_element_type() -> ElementType {
        ElementType::Bytes
    }

    fn element_type() -> (e: ElementType) {
        ElementType::Bytes
    }

    open spec fn spec_words(data: Seq<u8>) -> Seq<int> {
        data.map_values(|v: u8| v as int)
    }

    proof fn lemma_encodable(data: Seq<u8>) {
        lemma_le_encoding(Self::spec_words(data), 1);
        assert(encodes_words(le_encoding(Self::spec_words(data), 1), Self::spec_words(data), Self::spec_element_type().spec_size_bytes() as int, false));
    }

    fn encode(data: &[u8]) -> (bytes: Vec<u8>) {
        let bytes = vstd::slice::slice_to_vec(data);
        proof {
            lemma_bytes_encode_themselves(bytes@, false);
            assert(bytes@ == data@);
            assert(encodes_words(bytes@, Self::spec_words(data@), Self::spec_element_type().spec_size_bytes() as int, false));
        }
        bytes
    }

    fn decode(bytes: &[u8]) -> (data: Vec<u8>) {
        let data = vstd::slice::slice_to_vec(bytes);
        proof {
            lemma_bytes_encode_themselves(data@, false);
            assert(bytes@ == data@);
            assert(encodes_words(bytes@, Self::spec_words(data@), Self::spec_element_type().spec_size_bytes() as int, false));
        }
        data
    }
}

/// Whether `bytes` holds the elements of `data` in one of the two byte orders.
pub open spec fn is_encoding<T: PodElement>(bytes: Seq<u8>, data: Seq<T>) -> bool {
    exists|big: bool| #[trigger] encodes::<T>(bytes, data, big)
}

/// The little-endian encoding of `words`, `width` bytes each.
pub open spec fn le_encoding(words: Seq<int>, width: int) -> Seq<u8> {
    Seq::new((width * words.len()) as nat, |k: int| byte_of(words[k / width], k % width, width, false))
}

/// The little-endian encoding is an encoding.
proof fn lemma_le_encoding(words: Seq<int>, width: int)
    requires
        width > 0,
    ensures
        encodes_words(le_encoding(words, width), words, width, false),
{
    reveal(encodes_words);
    assert(width * words.len() >= 0) by (nonlinear_arith)
        requires
            width > 0,
    ;
}

/// A byte sequence is its own encoding as `u8` elements, in either order.
proof fn lemma_bytes_encode_themselves(b: Seq<u8>, big: bool)
    ensures
        encodes_words(b, <u8 as PodElement>::spec_words(b), 1, big),
{
    reveal(encodes_words);
    assert forall|k: int| 0 <= k < b.len() implies #[trigger] b[k] == byte_of(
        <u8 as PodElement>::spec_words(b)[k / 1],
        k % 1,
        1,
        big,
    ) by {
        assert(k / 1 == k);
        assert(k % 1 == 0);
    }
}

/// Four-byte values read from bytes of a length divisible by four encode
/// those bytes again.
proof fn lemma_decoded_u32s_encode(bytes: Seq<u8>, values: Seq<u32>, big: bool)
    requires
        decodes_u32s(bytes, values, big),
        bytes.len() % 4 == 0,
    ensures
        encodes_u32s(bytes, values, big),
{
    div4_exact(bytes.len() as int);
    assert forall|k: int| 0 <= k < bytes.len() implies #[trigger] bytes[k] == byte_of(values[k / 4] as int, k % 4, 4, big) by {
        assert(padded_byte(bytes, k) == bytes[k]);
    }
}

/// Eight-byte values read from bytes of a length divisible by eight encode
/// those bytes again.
proof fn lemma_decoded_u64s_encode(bytes: Seq<u8>, values: Seq<u64>, big: bool)
    requires
        decodes_u64s(bytes, values, big),
        bytes.len() % 8 == 0,
    ensures
        encodes_u64s(bytes, values, big),
{
    div8_exact(bytes.len() as int);
    assert forall|k: int| 0 <= k < bytes.len() implies #[trigger] bytes[k] == byte_of(values[k / 8] as int, k % 8, 8, big) by {
        assert(padded_byte(bytes, k) == bytes[k]);
    }
}

/// Four-byte encodings of `ws` encode any numbers equal to them.
proof fn lemma_words_u32(bytes: Seq<u8>, ws: Seq<u32>, words: Seq<int>, big: bool)
    requires
        encodes_u32s(bytes, ws, big),
        words.len() == ws.len(),
        forall|i: int| 0 <= i < ws.len() ==> #[trigger] words[i] == ws[i] as int,
    ensures
        encodes_words(bytes, words, 4, big),
{
    reveal(encodes_words);
    assert forall|k: int| 0 <= k < bytes.len() implies #[trigger] bytes[k] == byte_of(words[k / 4], k % 4, 4, big) by {
        assert(words[k / 4] == ws[k / 4] as int);
    }
}

/// Eight-byte encodings of `ws` encode any numbers equal to them.
proof fn lemma_words_u64(bytes: Seq<u8>, ws: Seq<u64>, words: Seq<int>, big: bool)
    requires
        encodes_u64s(bytes, ws, big),
        words.len() == ws.len(),
        forall|i: int| 0 <= i < ws.len() ==> #[trigger] words[i] == ws[i] as int,
    ensures
        encodes_words(bytes, words, 8, big),
{
    reveal(encodes_words);
    assert forall|k: int| 0 <= k < bytes.len() implies #[trigger] bytes[k] == byte_of(words[k / 8], k % 8, 8, big) by {
        assert(words[k / 8] == ws[k / 8] as int);
    }
}

impl PodElement for F32Bits {
    open spec fn spec_element_type() -> ElementType {
        ElementType::F32
    }

    fn element_type() -> (e: ElementType) {
        ElementType::F32
    }

    open spec fn spec_words(data: Seq<F32Bits>) -> Seq<int> {
        data.map_values(|v: F32Bits| v.0 as int)
    }

    proof fn lemma_encodable(data: Seq<F32Bits>) {
        lemma_le_encoding(Self::spec_words(data), 4);
        assert(encodes_words(le_encoding(Self::spec_words(data), 4), Self::spec_words(data), Self::spec_element_type().spec_size_bytes() as int, false));
    }

    fn encode(data: &[F32Bits]) -> (bytes: Vec<u8>) {
        let mut words: Vec<u32> = Vec::new();
        let mut i: usize = 0;
        while i < data.len()
            invariant
                i <= data@.len(),
                words@.len() == i,
                forall|j: int| 0 <= j < i ==> #[trigger] words@[j] == data@[j].0,
            decreases data@.len() - i,
        {
            words.push(data[i].0);
            i = i + 1;
        }
        let bytes = u32_slice_bytes(words.as_slice());
        assert(bytes@.len() == data@.len() * 4);
        proof {
            let big = choose|big: bool| encodes_u32s(bytes@, words@, big);
            assert forall|i: int| 0 <= i < words@.len() implies #[trigger] Self::spec_words(data@)[i] == words@[i] as int by {
                assert(words@[i] == data@[i].0);
            }
            lemma_words_u32(bytes@, words@, Self::spec_words(data@), big);
            assert(encodes_words(bytes@, Self::spec_words(data@), Self::spec_element_type().spec_size_bytes() as int, big));
        }
        bytes
    }

    fn decode(bytes: &[u8]) -> (data: Vec<F32Bits>) {
        let words = u32s_from_bytes(bytes);
        let mut out: Vec<F32Bits> = Vec::new();
        let mut i: usize = 0;
        while i < words.len()
            invariant
                i <= words@.len(),
                out@.len() == i,
                forall|j: int| 0 <= j < i ==> (#[trigger] out@[j]).0 == words@[j],
            decreases words@.len() - i,
        {
            out.push(F32Bits(words[i]));
            i = i + 1;
        }
        proof {
            div4_exact(bytes@.len() as int);
            let big = choose|big: bool| decodes_u32s(bytes@, words@, big);
            lemma_decoded_u32s_encode(bytes@, words@, big);
            assert forall|i: int| 0 <= i < words@.len() implies #[trigger] Self::spec_words(out@)[i] == words@[i] as int by {
                assert(out@[i].0 == words@[i]);
            }
            lemma_words_u32(bytes@, words@, Self::spec_words(out@), big);
            assert(encodes_words(bytes@, Self::spec_words(out@), Self::spec_element_type().spec_size_bytes() as int, big));
        }
        out
    }
}

impl PodElement for F64Bits {
    open spec fn spec_element_type() -> ElementType {
        ElementType::F64
    }

    fn element_type() -> (e: ElementType) {
        ElementType::F64
    }

    open spec fn spec_words(data: Seq<F64Bits>) -> Seq<int> {
        data.map_values(|v: F64Bits| v.0 as int)
    }

    proof fn lemma_encodable(data: Seq<F64Bits>) {
        lemma_le_encoding(Self::spec_words(data), 8);
        assert(encodes_words(le_encoding(Self::spec_words(data), 8), Self::spec_words(data), Self::spec_element_type().spec_size_bytes() as int, false));
    }

    fn encode(data: &[F64Bits]) -> (bytes: Vec<u8>) {
        let mut words: Vec<u64> = Vec::new();
        let mut i: usize = 0;
        while i < data.len()
            invariant
                i <= data@.len(),
                words@.len() == i,
                forall|j: int| 0 <= j < i ==> #[trigger] words@[j] == data@[j].0,
            decreases data@.len() - i,
        {
            words.push(data[i].0);
            i = i + 1;
        }
        let bytes = u64_slice_bytes(words.as_slice());
        assert(bytes@.len() == data@.len() * 8);
        proof {
            let big = choose|big: bool| encodes_u64s(bytes@, words@, big);
            assert forall|i: int| 0 <= i < words@.len() implies #[trigger] Self::spec_words(data@)[i] == words@[i] as int by {
                assert(words@[i] == data@[i].0);
            }
            lemma_words_u64(bytes@, words@, Self::spec_words(data@), big);
            assert(encodes_words(bytes@, Self::spec_words(data@), Self::spec_element_type().spec_size_bytes() as int, big));
        }
        bytes
    }

    fn decode(bytes: &[u8]) -> (data: Vec<F64Bits>) {
        let words = u64s_from_bytes(bytes);
        let mut out: Vec<F64Bits> = Vec::new();
        let mut i: usize = 0;
        while i < words.len()
            invariant
                i <= words@.len(),
                out@.len() == i,
                forall|j: int| 0 <= j < i ==> (#[trigger] out@[j]).0 == words@[j],
            decreases words@.len() - i,
        {
            out.push(F64Bits(words[i]));
            i = i + 1;
        }
        proof {
            div8_exact(bytes@.len() as int);
            let big = choose|big: bool| decodes_u64s(bytes@, words@, big);
            lemma_decoded_u64s_encode(bytes@, words@, big);
            assert forall|i: int| 0 <= i < words@.len() implies #[trigger] Self::spec_words(out@)[i] == words@[i] as int by {
                assert(out@[i].0 == words@[i]);
            }
            lemma_words_u64(bytes@, words@, Self::spec_words(out@), big);
            assert(encodes_words(bytes@, Self::spec_words(out@), Self::spec_element_type().spec_size_bytes() as int, big));
        }
        out
    }
}

/// Errors raised while erasing a typed patch to bytes.
#[derive(Clone, Copy, Debug, PartialEq, Eq, Structural)]
pub enum PatchBuildError {
    /// Element offset times element size overflowed a `u64` byte offset.
    OffsetOverflow {
        /// Requested element offset.
        offset_elements: u64,
        /// Size in bytes of one element.
        element_size: u64,
    },
}

/// A typed CPU patch. Prefer this over raw `Patch` for the happy path.
#[derive(Clone, Debug)]
pub struct TypedPatch<T: PodElement> {
    /// Resource that receives the patch.
    pub resource: ResourceId,
    /// Element offset where the patch starts.
    pub offset_elements: u64,
    /// Typed patch payload.
    pub data: Vec<T>,
}

/// Byte-erased CPU patch. Produced by `TypedPatch::into_patch` or supplied
/// directly through `submit_untyped_patch` for advanced use.
#[derive(Clone, Debug)]
pub struct Patch {
    /// Resource that receives the patch.
    pub resource: ResourceId,
    /// Byte offset where the patch starts.
    pub byte_offset: u64,
    /// Byte payload to write.
    pub bytes: Vec<u8>,
    /// Element type represented by `bytes`.
    pub element_type: ElementType,
}

impl<T: PodElement> TypedPatch<T> {
    /// Build a new typed patch.
    pub fn new(resource: ResourceId, offset_elements: u64, data: Vec<T>) -> (p: Self)
        ensures
            p.resource == resource,
            p.offset_elements == offset_elements,
            p.data == data,
    {
        TypedPatch { resource, offset_elements, data }
    }

    /// Erase to the raw `Patch` form the graph stores internally: the byte
    /// offset is the element offset times the element size.
    pub fn into_patch(self) -> (r: Result<Patch, PatchBuildError>)
        ensures
            ({
                let size = T::spec_element_type().spec_size_bytes();
                let offset = self.offset_elements * size;
                &&& offset > u64::MAX ==> r == Err::<Patch, PatchBuildError>(
                    PatchBuildError::OffsetOverflow {
                        offset_elements: self.offset_elements,
                        element_size: size,
                    },
                )
                &&& offset <= u64::MAX ==> (r matches Ok(p) && p.resource == self.resource
                    && p.byte_offset == offset && p.element_type == T::spec_element_type()
                    && p.bytes@.len() == self.data@.len() * size
                    && exists|big: bool| #[trigger] encodes::<T>(p.bytes@, self.data@, big))
            }),
    {
        let element_type = T::element_type();
        let element_size = element_type.size_bytes();
        proof {
            assert(0 <= self.offset_elements * element_size) by (nonlinear_arith);
        }
        let byte_offset = match self.offset_elements.checked_mul(element_size) {
            None => {
                return Err(
                    PatchBuildError::OffsetOverflow {
                        offset_elements: self.offset_elements,
                        element_size,
                    },
                );
            },
            Some(b) => b,
        };
        let bytes = T::encode(self.data.as_slice());
        proof {
            let big = choose|big: bool| encodes_words(
                bytes@,
                T::spec_words(self.data@),
                T::spec_element_type().spec_size_bytes() as int,
                big,
            );
            assert(encodes::<T>(bytes@, self.data@, big));
        }
        let patch = Patch { resource: self.resource, byte_offset, bytes, element_type };
        assert(patch.bytes@.len() == self.data@.len() * element_size);
        assert(exists|big: bool| #[trigger] encodes::<T>(patch.bytes@, self.data@, big));
        Ok(patch)
    }
}

} // verus!
