//! Resource identity, layout, and description.

use vstd::prelude::*;

use crate::residency_core::contract::SyncContract;
use crate::residency_core::diagnostics::DiagnosticAttachment;

verus! {

/// Stable, human-readable identifier for a resource within a `SyncGraph`.
#[derive(Clone, Debug, PartialEq, Eq, Hash)]
pub struct ResourceId(String);

impl View for ResourceId {
    type V = Seq<char>;

    closed spec fn view(&self) -> Seq<char> {
        self.0@
    }
}

impl ResourceId {
    /// Creates a new identifier from a string.
    pub fn new(id: String) -> (r: ResourceId)
        ensures
            r@ == id@,
    {
        ResourceId(id)
    }

    /// Creates a new identifier from a string slice.
    pub fn from_str_id(id: &str) -> (r: ResourceId)
        ensures
            r@ == id@,
    {
        ResourceId(id.to_owned())
    }

    /// Returns the underlying string slice.
    pub fn as_str(&self) -> (s: &str)
        ensures
            s@ == self@,
    {
        self.0.as_str()
    }

    /// A copy of this identifier that is equal to it in every respect.
    pub fn clone_id(&self) -> (r: ResourceId)
        ensures
            r == *self,
            r@ == self@,
    {
        ResourceId(self.0.clone())
    }

    /// Whether two identifiers name the same resource.
    pub fn same_as(&self, other: &ResourceId) -> (b: bool)
        ensures
            b == (self@ == other@),
    {
        self.0 == other.0
    }
}

impl From<&str> for ResourceId {
    fn from(value: &str) -> (r: ResourceId)
        ensures
            r@ == value@,
    {
        ResourceId::from_str_id(value)
    }
}

impl vstd::std_specs::convert::FromSpecImpl<&str> for ResourceId {
    open spec fn obeys_from_spec() -> bool {
        false
    }

    open spec fn from_spec(v: &str) -> ResourceId {
        arbitrary()
    }
}

impl From<String> for ResourceId {
    fn from(value: String) -> (r: ResourceId)
        ensures
            r@ == value@,
    {
        ResourceId(value)
    }
}

impl vstd::std_specs::convert::FromSpecImpl<String> for ResourceId {
    open spec fn obeys_from_spec() -> bool {
        true
    }

    closed spec fn from_spec(v: String) -> ResourceId {
        ResourceId(v)
    }
}

/// Element types supported by resource layouts.
#[derive(Clone, Copy, Debug, PartialEq, Eq, Structural, Hash)]
pub enum ElementType {
    /// Unsigned 32-bit integer element.
    U32,
    /// Signed 32-bit integer element.
    I32,
    /// 32-bit floating point element.
    F32,
    /// 64-bit floating point element.
    F64,
    /// Untyped bytes (alignment 1, size 1).
    Bytes,
}

impl ElementType {
    /// Size in bytes of one element, as a specification.
    pub open spec fn spec_size_bytes(self) -> u64 {
        match self {
            ElementType::U32 | ElementType::I32 | ElementType::F32 => 4,
            ElementType::F64 => 8,
            ElementType::Bytes => 1,
        }
    }

    /// Size in bytes of one element.
    #[verifier::when_used_as_spec(spec_size_bytes)]
    pub fn size_bytes(self) -> (n: u64)
        ensures
            n == self.spec_size_bytes(),
    {
        match self {
            ElementType::U32 | ElementType::I32 | ElementType::F32 => 4,
            ElementType::F64 => 8,
            ElementType::Bytes => 1,
        }
    }

    /// Natural alignment in bytes for one element (its size).
    pub fn alignment_bytes(self) -> (n: u64)
        ensures
            n == self.spec_size_bytes(),
    {
        self.size_bytes()
    }
}

/// How a resource's storage is laid out logically.
///
/// Dense layouts are row-major where applicable; chunked layouts are
/// chunk-major; raw-byte layouts preserve caller-declared byte alignment.
#[derive(Clone, Copy, Debug, PartialEq, Eq, Structural)]
pub enum ResourceLayout {
    /// A 1D array of `len` elements of `element` type.
    Dense1D {
        /// Element type stored in the array.
        element: ElementType,
        /// Number of elements in the array.
        len: usize,
    },
    /// A row-major 2D array of `width` × `height` elements of `element` type.
    Dense2D {
        /// Element type stored in the grid.
        element: ElementType,
        /// Number of columns in the row-major grid.
        width: usize,
        /// Number of rows in the row-major grid.
        height: usize,
    },
    /// A `chunks_x` × `chunks_y` grid of `chunk_width` × `chunk_height` element
    /// chunks, stored chunk-major.
    Chunked2D {
        /// Element type stored in each chunk.
        element: ElementType,
        /// Width of one chunk in elements.
        chunk_width: usize,
        /// Height of one chunk in elements.
        chunk_height: usize,
        /// Number of chunks on the x axis.
        chunks_x: usize,
        /// Number of chunks on the y axis.
        chunks_y: usize,
    },
    /// A ring buffer of `record_count` records of `record` type.
    EventRing {
        /// Element type of one event record.
        record: ElementType,
        /// Number of records retained by the ring.
        record_count: usize,
    },
    /// Opaque byte buffer of fixed `len` with user-declared alignment.
    RawBytes {
        /// Number of bytes in the buffer.
        len: usize,
        /// Required byte alignment for patches and range views.
        alignment: usize,
    },
}

/// Identifier for a chunk inside a `Chunked2D` resource.
#[derive(Clone, Copy, Debug, PartialEq, Eq, Structural, Hash)]
pub struct ChunkId {
    /// Zero-based chunk coordinate on the x axis.
    pub x: u32,
    /// Zero-based chunk coordinate on the y axis.
    pub y: u32,
}

impl ChunkId {
    /// Creates a chunk identifier from zero-based x/y coordinates.
    pub fn new(x: u32, y: u32) -> (c: ChunkId)
        ensures
            c.x == x,
            c.y == y,
    {
        ChunkId { x, y }
    }
}

/// Which layout metadata value failed to fit its public representation.
#[derive(Clone, Copy, Debug, PartialEq, Eq, Structural)]
pub enum LayoutField {
    /// `Chunked2D::chunk_width`.
    ChunkWidth,
    /// `Chunked2D::chunk_height`.
    ChunkHeight,
    /// `Chunked2D::chunks_x`.
    ChunksX,
    /// `Chunked2D::chunks_y`.
    ChunksY,
    /// `Dense2D::height`.
    Height,
}

/// Which layout variant a byte count belongs to.
#[derive(Clone, Copy, Debug, PartialEq, Eq, Structural)]
pub enum LayoutKind {
    /// `ResourceLayout::Dense1D`.
    Dense1D,
    /// `ResourceLayout::Dense2D`.
    Dense2D,
    /// `ResourceLayout::Chunked2D`.
    Chunked2D,
    /// `ResourceLayout::EventRing`.
    EventRing,
}

/// Errors raised while deriving public layout metadata.
#[derive(Clone, Copy, Debug, PartialEq, Eq, Structural)]
pub enum LayoutError {
    /// A chunked layout dimension cannot be represented as `u32`.
    ChunkedDimensionTooLarge {
        /// Dimension field that overflowed.
        field: LayoutField,
        /// Original dimension value.
        value: usize,
    },
    /// A layout byte count or chunk byte address overflowed `u64`.
    ByteSizeOverflow {
        /// Layout variant whose size overflowed.
        layout: LayoutKind,
    },
    /// Event-ring layout declared zero record capacity.
    EmptyEventRing,
}

/// Cached layout info the graph/backends need to address a chunked resource.
#[derive(Clone, Copy, Debug, PartialEq, Eq, Structural)]
pub struct ChunkedLayoutInfo {
    /// Width of each chunk in elements.
    pub chunk_width: u32,
    /// Height of each chunk in elements.
    pub chunk_height: u32,
    /// Number of chunks on the x axis.
    pub chunks_x: u32,
    /// Number of chunks on the y axis.
    pub chunks_y: u32,
    /// Size of one element in bytes.
    pub element_size: u64,
}

/// `a * b` when it fits in a `u64`.
pub open spec fn mul_fits(a: int, b: int) -> Option<int> {
    if 0 <= a * b <= u64::MAX {
        Some(a * b)
    } else {
        None
    }
}

/// `a * b` chained after a previous checked product.
pub open spec fn then_mul(prev: Option<int>, b: int) -> Option<int> {
    match prev {
        Some(a) => mul_fits(a, b),
        None => None,
    }
}

fn checked_mul_u64(a: u64, b: u64) -> (r: Option<u64>)
    ensures
        r matches Some(v) ==> mul_fits(a as int, b as int) == Some(v as int),
        r is None ==> mul_fits(a as int, b as int) is None,
{
    proof {
        assert(0 <= a * b) by (nonlinear_arith);
    }
    a.checked_mul(b)
}

impl ChunkedLayoutInfo {
    /// Bytes occupied by one chunk, if representable.
    pub open spec fn spec_chunk_size(self) -> Option<int> {
        then_mul(mul_fits(self.chunk_width as int, self.chunk_height as int), self.element_size as int)
    }

    /// Byte offset of a chunk, if representable.
    pub open spec fn spec_chunk_offset(self, id: ChunkId) -> Option<int> {
        match mul_fits(id.y as int, self.chunks_x as int) {
            None => None,
            Some(base) => if base + id.x > u64::MAX {
                None
            } else {
                match self.spec_chunk_size() {
                    None => None,
                    Some(size) => mul_fits(base + id.x, size),
                }
            },
        }
    }

    /// Whether `id` lies in this chunk grid.
    pub open spec fn spec_contains(self, id: ChunkId) -> bool {
        id.x < self.chunks_x && id.y < self.chunks_y
    }

    /// Bytes occupied by a single chunk.
    pub fn chunk_size_bytes(self) -> (r: Result<u64, LayoutError>)
        ensures
            r matches Ok(v) ==> self.spec_chunk_size() == Some(v as int),
            r is Err ==> self.spec_chunk_size() is None && r == Err::<u64, LayoutError>(
                LayoutError::ByteSizeOverflow { layout: LayoutKind::Chunked2D },
            ),
    {
        let overflow = LayoutError::ByteSizeOverflow { layout: LayoutKind::Chunked2D };
        match checked_mul_u64(self.chunk_width as u64, self.chunk_height as u64) {
            None => Err(overflow),
            Some(elements) => match checked_mul_u64(elements, self.element_size) {
                None => Err(overflow),
                Some(bytes) => Ok(bytes),
            },
        }
    }

    /// Bytes occupied by a single chunk (same as `chunk_size_bytes`).
    pub fn checked_chunk_size_bytes(self) -> (r: Result<u64, LayoutError>)
        ensures
            r matches Ok(v) ==> self.spec_chunk_size() == Some(v as int),
            r is Err ==> self.spec_chunk_size() is None && r == Err::<u64, LayoutError>(
                LayoutError::ByteSizeOverflow { layout: LayoutKind::Chunked2D },
            ),
    {
        self.chunk_size_bytes()
    }

    /// Byte offset of `id` within the chunked storage:
    /// `(y * chunks_x + x) * chunk_size`.
    pub fn chunk_byte_offset(self, id: ChunkId) -> (r: Result<u64, LayoutError>)
        ensures
            r matches Ok(v) ==> self.spec_chunk_offset(id) == Some(v as int),
            r is Err ==> self.spec_chunk_offset(id) is None && r == Err::<u64, LayoutError>(
                LayoutError::ByteSizeOverflow { layout: LayoutKind::Chunked2D },
            ),
    {
        let overflow = LayoutError::ByteSizeOverflow { layout: LayoutKind::Chunked2D };
        let linear = match checked_mul_u64(id.y as u64, self.chunks_x as u64) {
            None => {
                return Err(overflow);
            },
            Some(base) => match base.checked_add(id.x as u64) {
                None => {
                    return Err(overflow);
                },
                Some(l) => l,
            },
        };
        let size = match self.chunk_size_bytes() {
            Err(e) => {
                return Err(e);
            },
            Ok(s) => s,
        };
        match checked_mul_u64(linear, size) {
            None => Err(overflow),
            Some(v) => Ok(v),
        }
    }

    /// Byte offset of `id` within chunked storage (same as `chunk_byte_offset`).
    pub fn checked_chunk_byte_offset(self, id: ChunkId) -> (r: Result<u64, LayoutError>)
        ensures
            r matches Ok(v) ==> self.spec_chunk_offset(id) == Some(v as int),
            r is Err ==> self.spec_chunk_offset(id) is None && r == Err::<u64, LayoutError>(
                LayoutError::ByteSizeOverflow { layout: LayoutKind::Chunked2D },
            ),
    {
        self.chunk_byte_offset(id)
    }

    /// `true` when `id` is in-range for this layout.
    pub fn contains(self, id: ChunkId) -> (b: bool)
        ensures
            b == self.spec_contains(id),
    {
        id.x < self.chunks_x && id.y < self.chunks_y
    }
}

impl ResourceLayout {
    /// Byte size of the logical resource, computed factor by factor; `None`
    /// when an intermediate product overflows `u64`.
    pub open spec fn spec_checked_byte_size(self) -> Option<int> {
        match self {
            ResourceLayout::Dense1D { element, len } => mul_fits(
                element.spec_size_bytes() as int,
                len as int,
            ),
            ResourceLayout::Dense2D { element, width, height } => then_mul(
                mul_fits(element.spec_size_bytes() as int, width as int),
                height as int,
            ),
            ResourceLayout::Chunked2D { element, chunk_width, chunk_height, chunks_x, chunks_y } =>
                then_mul(
                then_mul(
                    then_mul(
                        mul_fits(element.spec_size_bytes() as int, chunk_width as int),
                        chunk_height as int,
                    ),
                    chunks_x as int,
                ),
                chunks_y as int,
            ),
            ResourceLayout::EventRing { record, record_count } => mul_fits(
                record.spec_size_bytes() as int,
                record_count as int,
            ),
            ResourceLayout::RawBytes { len, .. } => Some(len as int),
        }
    }

    /// The layout variant, for overflow reports.
    pub open spec fn kind(self) -> LayoutKind {
        match self {
            ResourceLayout::Dense1D { .. } => LayoutKind::Dense1D,
            ResourceLayout::Dense2D { .. } => LayoutKind::Dense2D,
            ResourceLayout::Chunked2D { .. } => LayoutKind::Chunked2D,
            _ => LayoutKind::EventRing,
        }
    }

    /// Element type the layout stores (`Bytes` for raw layouts).
    pub open spec fn spec_element_type(self) -> ElementType {
        match self {
            ResourceLayout::Dense1D { element, .. } => element,
            ResourceLayout::Dense2D { element, .. } => element,
            ResourceLayout::Chunked2D { element, .. } => element,
            ResourceLayout::EventRing { record, .. } => record,
            ResourceLayout::RawBytes { .. } => ElementType::Bytes,
        }
    }

    /// Size in bytes of one element (`1` for raw layouts).
    pub open spec fn spec_element_size(self) -> u64 {
        self.spec_element_type().spec_size_bytes()
    }

    /// Required byte alignment for patches and range views.
    pub open spec fn spec_alignment(self) -> u64 {
        match self {
            ResourceLayout::RawBytes { alignment, .. } => alignment as u64,
            _ => self.spec_element_size(),
        }
    }

    /// `(record_size, record_count)` for event rings.
    pub open spec fn spec_event_ring_info(self) -> Option<(u64, u64)> {
        match self {
            ResourceLayout::EventRing { record, record_count } => Some(
                (record.spec_size_bytes(), record_count as u64),
            ),
            _ => None,
        }
    }

    /// `(width, height)` for `Dense2D`.
    pub open spec fn spec_dimensions_2d(self) -> Option<(usize, usize)> {
        match self {
            ResourceLayout::Dense2D { width, height, .. } => Some((width, height)),
            _ => None,
        }
    }

    /// Chunk addressing metadata for `Chunked2D`, or the first dimension that
    /// does not fit a `u32`.
    pub open spec fn spec_chunked_info(self) -> Result<Option<ChunkedLayoutInfo>, LayoutError> {
        match self {
            ResourceLayout::Chunked2D { element, chunk_width, chunk_height, chunks_x, chunks_y } => {
                if chunk_width > u32::MAX {
                    Err(
                        LayoutError::ChunkedDimensionTooLarge {
                            field: LayoutField::ChunkWidth,
                            value: chunk_width,
                        },
                    )
                } else if chunk_height > u32::MAX {
                    Err(
                        LayoutError::ChunkedDimensionTooLarge {
                            field: LayoutField::ChunkHeight,
                            value: chunk_height,
                        },
                    )
                } else if chunks_x > u32::MAX {
                    Err(
                        LayoutError::ChunkedDimensionTooLarge {
                            field: LayoutField::ChunksX,
                            value: chunks_x,
                        },
                    )
                } else if chunks_y > u32::MAX {
                    Err(
                        LayoutError::ChunkedDimensionTooLarge {
                            field: LayoutField::ChunksY,
                            value: chunks_y,
                        },
                    )
                } else {
                    Ok(
                        Some(
                            ChunkedLayoutInfo {
                                chunk_width: chunk_width as u32,
                                chunk_height: chunk_height as u32,
                                chunks_x: chunks_x as u32,
                                chunks_y: chunks_y as u32,
                                element_size: element.spec_size_bytes(),
                            },
                        ),
                    )
                }
            },
            _ => Ok(None),
        }
    }

    /// Size in bytes of the logical resource, checked for overflow.
    pub fn checked_byte_size(&self) -> (r: Result<u64, LayoutError>)
        ensures
            r matches Ok(v) ==> self.spec_checked_byte_size() == Some(v as int),
            r is Err ==> self.spec_checked_byte_size() is None && r == Err::<u64, LayoutError>(
                LayoutError::ByteSizeOverflow { layout: self.kind() },
            ),
    {
        match *self {
            ResourceLayout::Dense1D { element, len } => {
                match checked_mul_u64(element.size_bytes(), len as u64) {
                    Some(v) => Ok(v),
                    None => Err(LayoutError::ByteSizeOverflow { layout: LayoutKind::Dense1D }),
                }
            },
            ResourceLayout::Dense2D { element, width, height } => {
                let overflow = LayoutError::ByteSizeOverflow { layout: LayoutKind::Dense2D };
                match checked_mul_u64(element.size_bytes(), width as u64) {
                    None => Err(overflow),
                    Some(b) => match checked_mul_u64(b, height as u64) {
                        None => Err(overflow),
                        Some(v) => Ok(v),
                    },
                }
            },
            ResourceLayout::Chunked2D { element, chunk_width, chunk_height, chunks_x, chunks_y } => {
                let overflow = LayoutError::ByteSizeOverflow { layout: LayoutKind::Chunked2D };
                let a = match checked_mul_u64(element.size_bytes(), chunk_width as u64) {
                    None => {
                        return Err(overflow);
                    },
                    Some(a) => a,
                };
                let b = match checked_mul_u64(a, chunk_height as u64) {
                    None => {
                        return Err(overflow);
                    },
                    Some(b) => b,
                };
                let c = match checked_mul_u64(b, chunks_x as u64) {
                    None => {
                        return Err(overflow);
                    },
                    Some(c) => c,
                };
                match checked_mul_u64(c, chunks_y as u64) {
                    None => Err(overflow),
                    Some(v) => Ok(v),
                }
            },
            ResourceLayout::EventRing { record, record_count } => {
                match checked_mul_u64(record.size_bytes(), record_count as u64) {
                    Some(v) => Ok(v),
                    None => Err(LayoutError::ByteSizeOverflow { layout: LayoutKind::EventRing }),
                }
            },
            ResourceLayout::RawBytes { len, .. } => Ok(len as u64),
        }
    }

    /// Size in bytes of the logical resource; the layout's size must fit a
    /// `u64`.
    pub fn byte_size(&self) -> (n: u64)
        requires
            self.spec_checked_byte_size() is Some,
        ensures
            self.spec_checked_byte_size() == Some(n as int),
    {
        match self.checked_byte_size() {
            Ok(v) => v,
            Err(_) => 0,
        }
    }

    /// Size in bytes of one element (`1` for `RawBytes`).
    pub fn element_size(&self) -> (n: u64)
        ensures
            n == self.spec_element_size(),
    {
        self.element_type().size_bytes()
    }

    /// Required byte alignment for patches addressing this layout.
    pub fn alignment(&self) -> (n: u64)
        ensures
            n == self.spec_alignment(),
    {
        match *self {
            ResourceLayout::RawBytes { alignment, .. } => alignment as u64,
            _ => self.element_size(),
        }
    }

    /// Element type the layout expects.
    pub fn element_type(&self) -> (e: ElementType)
        ensures
            e == self.spec_element_type(),
    {
        match *self {
            ResourceLayout::Dense1D { element, .. } => element,
            ResourceLayout::Dense2D { element, .. } => element,
            ResourceLayout::Chunked2D { element, .. } => element,
            ResourceLayout::EventRing { record, .. } => record,
            ResourceLayout::RawBytes { .. } => ElementType::Bytes,
        }
    }

    /// `(record_size, record_count)` for `EventRing`; `None` otherwise.
    pub fn event_ring_info(&self) -> (r: Option<(u64, u64)>)
        ensures
            r == self.spec_event_ring_info(),
    {
        match *self {
            ResourceLayout::EventRing { record, record_count } => Some(
                (record.size_bytes(), record_count as u64),
            ),
            _ => None,
        }
    }

    /// `(width, height)` for `Dense2D`; `None` for other layouts.
    pub fn dimensions_2d(&self) -> (r: Option<(usize, usize)>)
        ensures
            r == self.spec_dimensions_2d(),
    {
        match *self {
            ResourceLayout::Dense2D { width, height, .. } => Some((width, height)),
            _ => None,
        }
    }

    /// `ChunkedLayoutInfo` for `Chunked2D`; `None` for other layouts.
    pub fn chunked_info(&self) -> (r: Result<Option<ChunkedLayoutInfo>, LayoutError>)
        ensures
            r == self.spec_chunked_info(),
    {
        match *self {
            ResourceLayout::Chunked2D { element, chunk_width, chunk_height, chunks_x, chunks_y } => {
                let cw = u32_dimension(LayoutField::ChunkWidth, chunk_width)?;
                let ch = u32_dimension(LayoutField::ChunkHeight, chunk_height)?;
                let cx = u32_dimension(LayoutField::ChunksX, chunks_x)?;
                let cy = u32_dimension(LayoutField::ChunksY, chunks_y)?;
                Ok(
                    Some(
                        ChunkedLayoutInfo {
                            chunk_width: cw,
                            chunk_height: ch,
                            chunks_x: cx,
                            chunks_y: cy,
                            element_size: element.size_bytes(),
                        },
                    ),
                )
            },
            _ => Ok(None),
        }
    }
}

fn u32_dimension(field: LayoutField, value: usize) -> (r: Result<u32, LayoutError>)
    ensures
        value <= u32::MAX ==> r == Ok::<u32, LayoutError>(value as u32),
        value > u32::MAX ==> r == Err::<u32, LayoutError>(
            LayoutError::ChunkedDimensionTooLarge { field, value },
        ),
{
    if value as u64 <= 0xffff_ffffu64 {
        Ok(value as u32)
    } else {
        Err(LayoutError::ChunkedDimensionTooLarge { field, value })
    }
}

/// Declarative description of a resource registered with a `SyncGraph`.
#[derive(Clone, Debug)]
pub struct ResourceDesc {
    /// Stable resource identifier.
    pub id: ResourceId,
    /// Logical storage layout.
    pub layout: ResourceLayout,
    /// Synchronization contract for authority, residency, upload, readback, and resize policy.
    pub contract: SyncContract,
    /// Optional diagnostic attachment associated with the resource.
    pub diagnostics: Option<DiagnosticAttachment>,
}

impl ResourceDesc {
    /// Creates a descriptor without a diagnostic attachment.
    pub fn new(id: ResourceId, layout: ResourceLayout, contract: SyncContract) -> (d: ResourceDesc)
        ensures
            d.id == id,
            d.layout == layout,
            d.contract == contract,
            d.diagnostics is None,
    {
        ResourceDesc { id, layout, contract, diagnostics: None }
    }

    /// Returns a copy with the given diagnostic attachment.
    pub fn with_diagnostics(self, attachment: DiagnosticAttachment) -> (d: ResourceDesc)
        ensures
            d.id == self.id,
            d.layout == self.layout,
            d.contract == self.contract,
            d.diagnostics == Some(attachment),
    {
        ResourceDesc { diagnostics: Some(attachment), ..self }
    }
}

} // verus!
