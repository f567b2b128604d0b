//! `Summary` selector kinds.
//!
//! Kinds are declarative: the graph validates them against the resource's
//! element type, while each backend supplies the actual reduction.

use vstd::prelude::*;

use crate::residency_core::resource::ElementType;

verus! {

/// Kind of aggregate the `Summary` selector requests.
#[derive(Clone, Copy, Debug, PartialEq, Eq, Structural, Hash)]
pub enum SummaryKind {
    /// Count of non-zero elements across the resource. Result: `u32` (4 bytes).
    CountNonzero,
    /// Pair of min and max over an `f32` resource. Result: two `f32` (8 bytes).
    MinMaxF32,
    /// Sum of `u32` elements as `u64`. Result: `u64` (8 bytes).
    SumU32,
}

impl SummaryKind {
    /// Size in bytes of the readback this kind produces, as a specification.
    pub open spec fn spec_result_size_bytes(self) -> u64 {
        match self {
            SummaryKind::CountNonzero => 4,
            SummaryKind::MinMaxF32 | SummaryKind::SumU32 => 8,
        }
    }

    /// Whether this kind is meaningful for a given element type, as a
    /// specification.
    pub open spec fn spec_compatible_with(self, element: ElementType) -> bool {
        match self {
            SummaryKind::CountNonzero => element != ElementType::Bytes,
            SummaryKind::MinMaxF32 => element == ElementType::F32,
            SummaryKind::SumU32 => element == ElementType::U32,
        }
    }

    /// Size in bytes of the readback this kind produces.
    #[verifier::when_used_as_spec(spec_result_size_bytes)]
    pub fn result_size_bytes(self) -> (n: u64)
        ensures
            n == self.spec_result_size_bytes(),
    {
        match self {
            SummaryKind::CountNonzero => 4,
            SummaryKind::MinMaxF32 | SummaryKind::SumU32 => 8,
        }
    }

    /// Whether this kind is meaningful for a given element type.
    #[verifier::when_used_as_spec(spec_compatible_with)]
    pub fn compatible_with(self, element: ElementType) -> (b: bool)
        ensures
            b == self.spec_compatible_with(element),
    {
        match self {
            SummaryKind::CountNonzero => match element {
                ElementType::U32 | ElementType::I32 | ElementType::F32 | ElementType::F64 => true,
                ElementType::Bytes => false,
            },
            SummaryKind::MinMaxF32 => match element {
                ElementType::F32 => true,
                _ => false,
            },
            SummaryKind::SumU32 => match element {
                ElementType::U32 => true,
                _ => false,
            },
        }
    }
}

} // verus!
