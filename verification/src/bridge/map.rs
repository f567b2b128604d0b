//! Pure mapping from kernel metadata to Residency descriptors and view
//! requests: the "what the simulation needs" half of the boundary. It never
//! registers, patches, reads back or transfers.

use vstd::prelude::*;
use vstd::string::StringExecFns;

use crate::residency_core::contract::SyncContract;
use crate::residency_core::freshness::Freshness;
use crate::residency_core::resource::{ElementType, ResourceDesc, ResourceId, ResourceLayout};
use crate::residency_core::view::{ViewRequest, ViewSelector};

verus! {

/// Scalar type of a kernel's column buffers.
#[derive(Clone, Copy, Debug, PartialEq, Eq, Structural, Hash)]
pub enum ScalarType {
    /// 32-bit floating point.
    F32,
    /// 32-bit unsigned integer.
    U32,
}

/// One column a kernel reads or writes: its name and its column index in the
/// table.
#[derive(Clone, Debug)]
pub struct KernelBinding {
    /// Column name.
    pub name: String,
    /// Column index within the kernel's table.
    pub column: usize,
}

/// The kernel metadata the bridge maps: the kernel's name, its table, the
/// number of rows, the scalar type of its buffers, and its column bindings.
#[derive(Clone, Debug)]
pub struct Kernel {
    /// Source rule name.
    pub name: String,
    /// Table the kernel runs over.
    pub table_name: String,
    /// Rows of the table, one element per row in each buffer.
    pub rows: usize,
    /// Scalar type of every buffer.
    pub scalar_type: ScalarType,
    /// Columns the kernel reads, in order.
    pub inputs: Vec<KernelBinding>,
    /// The column the kernel writes.
    pub output: KernelBinding,
}

/// The element type of a scalar type.
pub open spec fn spec_element_type(scalar: ScalarType) -> ElementType {
    match scalar {
        ScalarType::F32 => ElementType::F32,
        ScalarType::U32 => ElementType::U32,
    }
}

/// Maps a kernel scalar type to a Residency element type.
pub fn element_type(scalar: ScalarType) -> (e: ElementType)
    ensures
        e == spec_element_type(scalar),
{
    match scalar {
        ScalarType::F32 => ElementType::F32,
        ScalarType::U32 => ElementType::U32,
    }
}

/// The identifier of a kernel column buffer: `table.column`.
pub open spec fn column_id(table: Seq<char>, column: Seq<char>) -> Seq<char> {
    table + seq!['.'] + column
}

/// Stable resource id for a kernel column buffer: `"table.column"`.
pub fn resource_id(kernel: &Kernel, column_name: &str) -> (r: ResourceId)
    ensures
        r@ == column_id(kernel.table_name@, column_name@),
{
    let dot = ".";
    proof {
        reveal_strlit(".");
    }
    let id = kernel.table_name.clone().concat(dot).concat(column_name);
    proof {
        assert(id@ =~= column_id(kernel.table_name@, column_name@));
    }
    ResourceId::new(id)
}

/// The descriptor of one of a kernel's column buffers: a `Dense1D` buffer of
/// one element per row.
pub open spec fn column_desc_matches(d: ResourceDesc, kernel: Kernel, binding: KernelBinding, contract: SyncContract) -> bool {
    &&& d.id@ == column_id(kernel.table_name@, binding.name@)
    &&& d.layout == ResourceLayout::Dense1D { element: spec_element_type(kernel.scalar_type), len: kernel.rows }
    &&& d.contract == contract
    &&& d.diagnostics is None
}

/// Builds a Residency resource descriptor for one of a kernel's column
/// bindings.
pub fn column_resource_desc(kernel: &Kernel, binding: &KernelBinding, contract: SyncContract) -> (d: ResourceDesc)
    ensures
        column_desc_matches(d, *kernel, *binding, contract),
{
    ResourceDesc::new(
        resource_id(kernel, binding.name.as_str()),
        ResourceLayout::Dense1D { element: element_type(kernel.scalar_type), len: kernel.rows },
        contract,
    )
}

/// Whether some input of the kernel reads the column the kernel writes.
pub open spec fn output_is_input(kernel: Kernel) -> bool {
    exists|i: int| 0 <= i < kernel.inputs@.len() && (#[trigger] kernel.inputs@[i]).column == kernel.output.column
}

/// All resource descriptors a kernel needs: one per input binding, in order,
/// plus one for its output column unless an input already reads it.
pub fn kernel_resource_descs(kernel: &Kernel, contract: SyncContract) -> (descs: Vec<ResourceDesc>)
    ensures
        descs@.len() == kernel.inputs@.len() + (if output_is_input(*kernel) { 0int } else { 1int }),
        forall|i: int|
            0 <= i < kernel.inputs@.len() ==> column_desc_matches(
                #[trigger] descs@[i],
                *kernel,
                kernel.inputs@[i],
                contract,
            ),
        !output_is_input(*kernel) ==> column_desc_matches(
            descs@[kernel.inputs@.len() as int],
            *kernel,
            kernel.output,
            contract,
        ),
{
    let mut descs: Vec<ResourceDesc> = Vec::new();
    let mut found = false;
    let mut i: usize = 0;
    while i < kernel.inputs.len()
        invariant
            i <= kernel.inputs@.len(),
            descs@.len() == i,
            forall|j: int| 0 <= j < i ==> column_desc_matches(#[trigger] descs@[j], *kernel, kernel.inputs@[j], contract),
            found <==> exists|j: int| 0 <= j < i && (#[trigger] kernel.inputs@[j]).column == kernel.output.column,
        decreases kernel.inputs@.len() - i,
    {
        descs.push(column_resource_desc(kernel, &kernel.inputs[i], contract));
        if kernel.inputs[i].column == kernel.output.column {
            found = true;
        }
        i = i + 1;
    }
    if !found {
        descs.push(column_resource_desc(kernel, &kernel.output, contract));
    }
    descs
}

/// A view request to read a kernel's whole output buffer back: a byte range
/// over every row of the output column.
pub fn output_view_request(kernel: &Kernel, freshness: Freshness) -> (r: ViewRequest)
    requires
        kernel.rows * spec_element_type(kernel.scalar_type).spec_size_bytes() <= u64::MAX,
    ensures
        r.resource@ == column_id(kernel.table_name@, kernel.output.name@),
        r.selector == (ViewSelector::Range {
            offset: 0,
            len: (kernel.rows * spec_element_type(kernel.scalar_type).spec_size_bytes()) as u64,
        }),
        r.freshness == freshness,
        r.reason@ == "conflux.kernel.output"@,
{
    let len = (kernel.rows as u64) * element_type(kernel.scalar_type).size_bytes();
    ViewRequest::new(
        resource_id(kernel, kernel.output.name.as_str()),
        ViewSelector::Range { offset: 0, len },
        freshness,
        "conflux.kernel.output",
    )
}

} // verus!
