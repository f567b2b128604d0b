//! View requests and decoded results.

use vstd::prelude::*;

use crate::residency_core::freshness::Freshness;
use crate::residency_core::generation::Generation;
use crate::residency_core::bytes::encodes_words;
use crate::residency_core::patch::{encodes, is_encoding, PodElement};
use crate::residency_core::resource::{ChunkId, ResourceId};
use crate::residency_core::summary::SummaryKind;

verus! {

/// Which slice of a resource a view is asking for.
#[derive(Clone, Debug, PartialEq, Eq, Hash)]
pub enum ViewSelector {
    /// The entire resource. Requires `Freshness::Snapshot`; otherwise a
    /// `FullReadbackRequested` warning is raised.
    Full,
    /// A byte-addressed half-open range `[offset, offset + len)`.
    Range {
        /// Byte offset where the requested range starts.
        offset: u64,
        /// Number of bytes requested from `offset`.
        len: u64,
    },
    /// The resource's diagnostic attachment.
    Diagnostics,
    /// A row range against a `Dense2D` layout, half-open `[start, start + count)`.
    Rows {
        /// First row to include in the result.
        start: u32,
        /// Number of consecutive rows to include.
        count: u32,
    },
    /// A set of chunks against a `Chunked2D` layout, packed in the order given.
    Chunks {
        /// Chunk identifiers to pack into the result in order.
        ids: Vec<ChunkId>,
    },
    /// Backend-computed aggregate over the whole resource.
    Summary {
        /// Aggregate summary operation to compute.
        kind: SummaryKind,
    },
    /// The most recent up to `max_records` records from an `EventRing`
    /// resource, oldest to newest.
    EventCandidates {
        /// Maximum number of recent event records to return.
        max_records: u32,
    },
}

/// A view request submitted to the graph.
#[derive(Clone, Debug)]
pub struct ViewRequest {
    /// Resource to read from backend storage.
    pub resource: ResourceId,
    /// Logical selector describing which bytes or aggregate to return.
    pub selector: ViewSelector,
    /// Freshness requirement for the returned data.
    pub freshness: Freshness,
    /// Caller-provided reason, used in diagnostics/reports.
    pub reason: String,
}

impl ViewRequest {
    /// Creates a view request for a resource selector and freshness constraint.
    pub fn new(resource: ResourceId, selector: ViewSelector, freshness: Freshness, reason: &str) -> (r: ViewRequest)
        ensures
            r.resource == resource,
            r.selector == selector,
            r.freshness == freshness,
            r.reason@ == reason@,
    {
        ViewRequest { resource, selector, freshness, reason: reason.to_owned() }
    }
}

/// The result of a satisfied view request.
#[derive(Clone, Debug)]
pub struct ViewResult {
    /// Resource whose data was served.
    pub resource: ResourceId,
    /// Selector that produced the result bytes.
    pub selector: ViewSelector,
    /// Resource generation observed by the backend readback.
    pub served_generation: Generation,
    /// Raw result bytes returned by the backend.
    pub bytes: Vec<u8>,
}

/// Errors raised when reinterpreting view bytes.
#[derive(Clone, Copy, Debug, PartialEq, Eq, Structural)]
pub enum ViewDecodeError {
    /// Requested typed interpretation uses a zero-sized type.
    ZeroSized,
    /// Result length is not a multiple of the requested element size.
    SizeMismatch {
        /// Actual result byte length.
        bytes: usize,
        /// Requested element size in bytes.
        element_size: usize,
    },
    /// Result length does not match a single requested value.
    ExpectedExactSize {
        /// Actual result byte length.
        bytes: usize,
        /// Required byte length for the requested type.
        expected: usize,
    },
    /// Result bytes are not aligned for the requested type.
    Alignment {
        /// Requested element size in bytes.
        element_size: usize,
    },
}

impl ViewResult {
    /// The result bytes read as `T` elements, in the machine's byte order.
    pub fn as_slice<T: PodElement>(&self) -> (r: Result<Vec<T>, ViewDecodeError>)
        ensures
            ({
                let size = T::spec_element_type().spec_size_bytes();
                &&& (self.bytes@.len() as int) % (size as int) != 0 ==> r == Err::<Vec<T>, ViewDecodeError>(
                    ViewDecodeError::SizeMismatch {
                        bytes: self.bytes@.len() as usize,
                        element_size: size as usize,
                    },
                )
                &&& (self.bytes@.len() as int) % (size as int) == 0 ==> (r matches Ok(v) && v@.len() * size
                    == self.bytes@.len() && is_encoding::<T>(self.bytes@, v@))
            }),
    {
        let size = T::element_type().size_bytes() as usize;
        if self.bytes.len() % size != 0 {
            return Err(ViewDecodeError::SizeMismatch { bytes: self.bytes.len(), element_size: size });
        }
        let values = T::decode(self.bytes.as_slice());
        proof {
            let big = choose|big: bool| encodes_words(
                self.bytes@,
                T::spec_words(values@),
                T::spec_element_type().spec_size_bytes() as int,
                big,
            );
            assert(encodes::<T>(self.bytes@, values@, big));
        }
        assert(values@.len() * (size as int) == self.bytes@.len());
        assert(is_encoding::<T>(self.bytes@, values@));
        Ok(values)
    }

    /// The result bytes read as exactly one `T`, in the machine's byte order.
    pub fn as_struct<T: PodElement>(&self) -> (r: Result<T, ViewDecodeError>)
        ensures
            ({
                let size = T::spec_element_type().spec_size_bytes();
                &&& self.bytes@.len() != size ==> r == Err::<T, ViewDecodeError>(
                    ViewDecodeError::ExpectedExactSize {
                        bytes: self.bytes@.len() as usize,
                        expected: size as usize,
                    },
                )
                &&& self.bytes@.len() == size ==> (r matches Ok(v) && is_encoding::<T>(self.bytes@, seq![v]))
            }),
    {
        let size = T::element_type().size_bytes() as usize;
        if self.bytes.len() != size {
            return Err(ViewDecodeError::ExpectedExactSize { bytes: self.bytes.len(), expected: size });
        }
        let values = T::decode(self.bytes.as_slice());
        assert(values@.len() == 1) by (nonlinear_arith)
            requires
                values@.len() * size == size,
                size > 0,
        ;
        let v = values[0];
        proof {
            assert(values@ =~= seq![v]);
            let big = choose|big: bool| encodes_words(
                self.bytes@,
                T::spec_words(values@),
                T::spec_element_type().spec_size_bytes() as int,
                big,
            );
            assert(encodes::<T>(self.bytes@, seq![v], big));
        }
        assert(is_encoding::<T>(self.bytes@, seq![v]));
        Ok(v)
    }

    /// Number of `T` elements the result holds.
    pub fn len_elements<T: PodElement>(&self) -> (r: Result<usize, ViewDecodeError>)
        ensures
            ({
                let size = T::spec_element_type().spec_size_bytes();
                &&& (self.bytes@.len() as int) % (size as int) != 0 ==> r == Err::<usize, ViewDecodeError>(
                    ViewDecodeError::SizeMismatch {
                        bytes: self.bytes@.len() as usize,
                        element_size: size as usize,
                    },
                )
                &&& (self.bytes@.len() as int) % (size as int) == 0 ==> r == Ok::<usize, ViewDecodeError>(
                    ((self.bytes@.len() as int) / (size as int)) as usize,
                )
            }),
    {
        let size = T::element_type().size_bytes() as usize;
        if self.bytes.len() % size != 0 {
            return Err(ViewDecodeError::SizeMismatch { bytes: self.bytes.len(), element_size: size });
        }
        Ok(self.bytes.len() / size)
    }
}

} // verus!
