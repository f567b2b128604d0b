//! Mapping of lowered shader bindings onto Residency descriptors: column and
//! channel buffers get the canonical `"owner.name"` ids, generated buffers a
//! reserved namespace that cannot collide with them.

use vstd::prelude::*;
use vstd::string::StringExecFns;
use vstd::utf8::encode_utf8;

use crate::bridge::contracts::{gpu_diagnostic_contract, gpu_input_contract, gpu_output_contract, ResourceMappingError};
use crate::bridge::map::{column_id, element_type, resource_id, spec_element_type, Kernel, ScalarType};
use crate::residency_core::contract::{Authority, ReadbackPolicy, Residency, ResizePolicy, SyncContract, UploadPolicy};
use crate::residency_core::diagnostics::{DiagnosticAttachment, DiagnosticLayout, DiagnosticReadbackPolicy};
use crate::residency_core::resource::{ResourceDesc, ResourceId, ResourceLayout};

verus! {

/// How a shader binding accesses its buffer.
#[derive(Clone, Copy, Debug, PartialEq, Eq, Structural, Hash)]
pub enum Access {
    /// Read only.
    Read,
    /// Read and written.
    ReadWrite,
}

/// What a table shader binding is bound to.
#[derive(Clone, Debug)]
pub enum BindingSource {
    /// A table column.
    Column {
        /// Column name.
        name: String,
        /// Column index within the table.
        index: usize,
    },
    /// The generated diagnostics buffer.
    Diagnostics {
        /// Number of assessments the buffer records per element.
        assessments: usize,
        /// The buffer's byte length as the shader toolchain's diagnostic
        /// layout computes it, or `None` when that computation overflowed.
        byte_len: Option<u64>,
    },
}

/// One binding of a lowered table shader.
#[derive(Clone, Debug)]
pub struct BindingRequirement {
    /// Bind group.
    pub group: u32,
    /// Binding slot within the group.
    pub binding: u32,
    /// Shader variable name.
    pub var: String,
    /// How the shader accesses the buffer.
    pub access: Access,
    /// Scalar type of the buffer's elements.
    pub scalar_type: ScalarType,
    /// What the binding is bound to.
    pub source: BindingSource,
}

/// A lowered table shader: its kernel name, its element count and bindings.
#[derive(Clone, Debug)]
pub struct ShaderModule {
    /// Source kernel name.
    pub kernel: String,
    /// Shader source text.
    pub source: String,
    /// Entry point name.
    pub entry_point: String,
    /// Workgroup size.
    pub workgroup_size: u32,
    /// Number of elements (table rows) the shader runs over.
    pub element_count: usize,
    /// The shader's bindings.
    pub bindings: Vec<BindingRequirement>,
}

/// What a field shader binding is bound to.
#[derive(Clone, Debug)]
pub enum FieldBindingSource {
    /// A field channel.
    Channel {
        /// Field name.
        field: String,
        /// Field index.
        field_index: usize,
        /// Channel name.
        name: String,
        /// Channel index within the field.
        channel: usize,
    },
    /// The generated validity buffer.
    Validity,
    /// The generated diagnostics buffer.
    Diagnostics {
        /// Number of assessments the buffer records per cell.
        assessments: usize,
        /// The buffer's byte length as the shader toolchain's diagnostic
        /// layout computes it, or `None` when that computation overflowed.
        byte_len: Option<u64>,
    },
}

/// One binding of a lowered field shader.
#[derive(Clone, Debug)]
pub struct FieldBindingRequirement {
    /// Bind group.
    pub group: u32,
    /// Binding slot within the group.
    pub binding: u32,
    /// Shader variable name.
    pub var: String,
    /// How the shader accesses the buffer.
    pub access: Access,
    /// Scalar type of the buffer's elements.
    pub scalar_type: ScalarType,
    /// What the binding is bound to.
    pub source: FieldBindingSource,
}

/// A lowered field shader: its rule and field names, its grid and bindings.
#[derive(Clone, Debug)]
pub struct FieldShaderModule {
    /// Source rule name.
    pub kernel: String,
    /// Field name.
    pub field: String,
    /// Shader source text.
    pub source: String,
    /// Entry point name.
    pub entry_point: String,
    /// Workgroup size.
    pub workgroup_size: u32,
    /// Grid width.
    pub width: usize,
    /// Grid height.
    pub height: usize,
    /// Number of cells.
    pub cell_count: usize,
    /// The shader's bindings.
    pub bindings: Vec<FieldBindingRequirement>,
}

/// The lowercase hexadecimal digit for `n` (`0 <= n < 16`).
pub open spec fn hex_digit(n: int) -> char {
    if n == 0 {
        '0'
    } else if n == 1 {
        '1'
    } else if n == 2 {
        '2'
    } else if n == 3 {
        '3'
    } else if n == 4 {
        '4'
    } else if n == 5 {
        '5'
    } else if n == 6 {
        '6'
    } else if n == 7 {
        '7'
    } else if n == 8 {
        '8'
    } else if n == 9 {
        '9'
    } else if n == 10 {
        'a'
    } else if n == 11 {
        'b'
    } else if n == 12 {
        'c'
    } else if n == 13 {
        'd'
    } else if n == 14 {
        'e'
    } else {
        'f'
    }
}

/// The bytes as lowercase hexadecimal, two digits per byte, high digit first.
pub open spec fn hex_text(bytes: Seq<u8>) -> Seq<char>
    decreases bytes.len(),
{
    if bytes.len() == 0 {
        Seq::empty()
    } else {
        hex_text(bytes.drop_last()) + seq![hex_digit((bytes.last() / 16) as int), hex_digit((bytes.last() % 16) as int)]
    }
}

/// `":"` and the hexadecimal UTF-8 bytes of each scope part, in order.
pub open spec fn scope_text(parts: Seq<Seq<char>>) -> Seq<char>
    decreases parts.len(),
{
    if parts.len() == 0 {
        Seq::empty()
    } else {
        scope_text(parts.drop_last()) + seq![':'] + hex_text(encode_utf8(parts.last()))
    }
}

/// The reserved namespace of generated resource ids.
pub open spec fn generated_namespace() -> Seq<char> {
    seq!['$', 'c', 'o', 'n', 'f', 'l', 'u', 'x', '-', 'g', 'e', 'n', 'e', 'r', 'a', 't', 'e', 'd']
}

/// A generated resource id: the namespace, each scope part hex-encoded after a
/// colon, then a colon and the kind.
pub open spec fn generated_id(parts: Seq<Seq<char>>, kind: Seq<char>) -> Seq<char> {
    generated_namespace() + scope_text(parts) + seq![':'] + kind
}

/// The one-character string of the hexadecimal digit `n`.
fn hex_digit_str(n: u8) -> (s: &'static str)
    requires
        n < 16,
    ensures
        s@ == seq![hex_digit(n as int)],
{
    proof {
        reveal_strlit("0");
        reveal_strlit("1");
        reveal_strlit("2");
        reveal_strlit("3");
        reveal_strlit("4");
        reveal_strlit("5");
        reveal_strlit("6");
        reveal_strlit("7");
        reveal_strlit("8");
        reveal_strlit("9");
        reveal_strlit("a");
        reveal_strlit("b");
        reveal_strlit("c");
        reveal_strlit("d");
        reveal_strlit("e");
        reveal_strlit("f");
    }
    if n == 0 {
        "0"
    } else if n == 1 {
        "1"
    } else if n == 2 {
        "2"
    } else if n == 3 {
        "3"
    } else if n == 4 {
        "4"
    } else if n == 5 {
        "5"
    } else if n == 6 {
        "6"
    } else if n == 7 {
        "7"
    } else if n == 8 {
        "8"
    } else if n == 9 {
        "9"
    } else if n == 10 {
        "a"
    } else if n == 11 {
        "b"
    } else if n == 12 {
        "c"
    } else if n == 13 {
        "d"
    } else if n == 14 {
        "e"
    } else {
        "f"
    }
}

/// The UTF-8 bytes of `value` as lowercase hexadecimal.
pub fn hex_encode(value: &str) -> (s: String)
    ensures
        s@ == hex_text(encode_utf8(value@)),
{
    let bytes = value.as_bytes();
    let mut encoded = String::from_str("");
    proof {
        reveal_strlit("");
        assert(bytes@.take(0) =~= Seq::<u8>::empty());
    }
    let mut i: usize = 0;
    while i < bytes.len()
        invariant
            i <= bytes@.len(),
            bytes@ == encode_utf8(value@),
            encoded@ == hex_text(bytes@.take(i as int)),
        decreases bytes@.len() - i,
    {
        let b = bytes[i];
        let high = b >> 4;
        let low = b & 0x0f;
        assert(high == b / 16 && low == b % 16) by (bit_vector)
            requires
                high == b >> 4,
                low == b & 0x0f,
        ;
        encoded = encoded.concat(hex_digit_str(high));
        encoded = encoded.concat(hex_digit_str(low));
        proof {
            assert(bytes@.take(i as int + 1).drop_last() =~= bytes@.take(i as int));
        }
        i = i + 1;
    }
    proof {
        assert(bytes@.take(i as int) =~= bytes@);
    }
    encoded
}

/// A resource id in the reserved generated namespace, scoped by the
/// hex-encoded parts, ending in `kind`. Generated ids contain no dot, so they
/// cannot collide with canonical `"owner.name"` ids built from dot-free names.
pub fn generated_resource_id(scope_parts: &Vec<String>, kind: &str) -> (r: ResourceId)
    ensures
        r@ == generated_id(scope_parts@.map_values(|p: String| p@), kind@),
{
    let ghost parts = scope_parts@.map_values(|p: String| p@);
    let mut id = String::from_str("$conflux-generated");
    let colon = ":";
    proof {
        reveal_strlit("$conflux-generated");
        reveal_strlit(":");
        assert(id@ =~= generated_namespace() + scope_text(parts.take(0)));
    }
    let mut i: usize = 0;
    while i < scope_parts.len()
        invariant
            i <= scope_parts@.len(),
            parts == scope_parts@.map_values(|p: String| p@),
            colon@ == seq![':'],
            id@ == generated_namespace() + scope_text(parts.take(i as int)),
        decreases scope_parts@.len() - i,
    {
        let hex = hex_encode(scope_parts[i].as_str());
        id = id.concat(colon);
        id = id.concat(hex.as_str());
        proof {
            assert(parts.take(i as int + 1).drop_last() =~= parts.take(i as int));
            assert(parts.take(i as int + 1).last() == scope_parts@[i as int]@);
            assert(id@ =~= generated_namespace() + scope_text(parts.take(i as int + 1)));
        }
        i = i + 1;
    }
    id = id.concat(colon);
    id = id.concat(kind);
    proof {
        assert(parts.take(i as int) =~= parts);
        assert(id@ =~= generated_id(parts, kind@));
    }
    ResourceId::new(id)
}

/// The kind suffix of generated diagnostics buffers.
pub open spec fn diagnostics_kind() -> Seq<char> {
    seq!['d', 'i', 'a', 'g', 'n', 'o', 's', 't', 'i', 'c', 's']
}

/// The kind suffix of generated validity buffers.
pub open spec fn validity_kind() -> Seq<char> {
    seq!['v', 'a', 'l', 'i', 'd', 'i', 't', 'y']
}

/// The id of a table shader binding: `"table.column"` for a column, the
/// kernel-scoped generated id for diagnostics.
pub open spec fn shader_id_text(kernel: Kernel, binding: BindingRequirement) -> Seq<char> {
    match binding.source {
        BindingSource::Column { name, .. } => column_id(kernel.table_name@, name@),
        BindingSource::Diagnostics { .. } => generated_id(seq![kernel.name@], diagnostics_kind()),
    }
}

/// The id of a field shader binding: `"field.channel"` for a channel, the
/// field- and rule-scoped generated id for validity and diagnostics.
pub open spec fn field_shader_id_text(module: FieldShaderModule, binding: FieldBindingRequirement) -> Seq<char> {
    match binding.source {
        FieldBindingSource::Channel { field, name, .. } => column_id(field@, name@),
        FieldBindingSource::Validity => generated_id(seq![module.field@, module.kernel@], validity_kind()),
        FieldBindingSource::Diagnostics { .. } => generated_id(
            seq![module.field@, module.kernel@],
            diagnostics_kind(),
        ),
    }
}

/// The contract of a column or channel buffer: GPU input when only read, GPU
/// output when written.
pub open spec fn spec_gpu_column_contract(access: Access) -> SyncContract {
    SyncContract {
        residency: Residency::Gpu,
        authority: match access {
            Access::Read => Authority::CpuAuthoritative,
            Access::ReadWrite => Authority::GpuAuthoritative,
        },
        upload: UploadPolicy::InitialOnly,
        readback: match access {
            Access::Read => ReadbackPolicy::Deny,
            Access::ReadWrite => ReadbackPolicy::ViewsAllowed,
        },
        resize: ResizePolicy::Fixed,
    }
}

/// Whether a diagnostic byte length cannot back a resource: the toolchain
/// could not compute it, or it does not fit a host length.
pub open spec fn diagnostic_too_large(byte_len: Option<u64>) -> bool {
    byte_len is None || byte_len.unwrap() > usize::MAX
}

/// Whether `d` is the diagnostics descriptor of `byte_len` bytes: raw bytes
/// aligned as `f32`, the diagnostic contract, and a raw attachment of that
/// size read on request.
pub open spec fn diagnostic_desc_matches(d: ResourceDesc, byte_len: u64) -> bool {
    &&& d.layout == ResourceLayout::RawBytes { len: byte_len as usize, alignment: 4 }
    &&& d.contract == (SyncContract {
        residency: Residency::Gpu,
        authority: Authority::GpuAuthoritative,
        upload: UploadPolicy::Deny,
        readback: ReadbackPolicy::DiagnosticsOnly,
        resize: ResizePolicy::Fixed,
    })
    &&& d.diagnostics == Some(
        DiagnosticAttachment {
            layout: DiagnosticLayout::Raw { bytes: byte_len },
            readback: DiagnosticReadbackPolicy::OnRequest,
            max_bytes: byte_len,
        },
    )
}

/// Whether a table binding's descriptor cannot be built.
pub open spec fn table_binding_fails(binding: BindingRequirement) -> bool {
    binding.source matches BindingSource::Diagnostics { byte_len, .. } && diagnostic_too_large(byte_len)
}

/// Whether a field binding's descriptor cannot be built.
pub open spec fn field_binding_fails(binding: FieldBindingRequirement) -> bool {
    binding.source matches FieldBindingSource::Diagnostics { byte_len, .. } && diagnostic_too_large(byte_len)
}

/// Whether `d` is the descriptor of a table binding: a dense buffer of the
/// module's element count for a column, the diagnostics descriptor otherwise.
pub open spec fn table_desc_matches(d: ResourceDesc, kernel: Kernel, module: ShaderModule, binding: BindingRequirement) -> bool {
    &&& d.id@ == shader_id_text(kernel, binding)
    &&& match binding.source {
        BindingSource::Column { .. } => {
            &&& d.layout == ResourceLayout::Dense1D {
                element: spec_element_type(binding.scalar_type),
                len: module.element_count,
            }
            &&& d.contract == spec_gpu_column_contract(binding.access)
            &&& d.diagnostics is None
        },
        BindingSource::Diagnostics { byte_len, .. } => diagnostic_desc_matches(d, byte_len.unwrap()),
    }
}

/// Whether `d` is the descriptor of a field binding: a row-major grid of the
/// module's size for a channel or validity, the diagnostics descriptor
/// otherwise.
pub open spec fn field_desc_matches(d: ResourceDesc, module: FieldShaderModule, binding: FieldBindingRequirement) -> bool {
    &&& d.id@ == field_shader_id_text(module, binding)
    &&& match binding.source {
        FieldBindingSource::Diagnostics { byte_len, .. } => diagnostic_desc_matches(d, byte_len.unwrap()),
        _ => {
            &&& d.layout == ResourceLayout::Dense2D {
                element: spec_element_type(binding.scalar_type),
                width: module.width,
                height: module.height,
            }
            &&& d.contract == spec_gpu_column_contract(binding.access)
            &&& d.diagnostics is None
        },
    }
}

/// The contract of a column or channel buffer: [`gpu_input_contract`] when
/// only read, [`gpu_output_contract`] when written.
pub fn gpu_column_contract(access: Access) -> (c: SyncContract)
    ensures
        c == spec_gpu_column_contract(access),
{
    match access {
        Access::Read => gpu_input_contract(),
        Access::ReadWrite => gpu_output_contract(),
    }
}

/// The descriptor of a generated diagnostics buffer of `byte_len` bytes (as
/// the shader toolchain's diagnostic layout computed it): raw bytes with the
/// diagnostic contract and a raw attachment read on request.
///
/// Fails when no length could be computed or it does not fit a host length.
pub fn diagnostic_desc(id: ResourceId, byte_len: Option<u64>) -> (r: Result<ResourceDesc, ResourceMappingError>)
    ensures
        diagnostic_too_large(byte_len) ==> (r matches Err(ResourceMappingError::DiagnosticTooLarge { resource })
            && resource@ == id@),
        !diagnostic_too_large(byte_len) ==> (r matches Ok(d) && d.id@ == id@ && diagnostic_desc_matches(
            d,
            byte_len.unwrap(),
        )),
{
    let diagnostic_bytes = match byte_len {
        None => {
            return Err(ResourceMappingError::DiagnosticTooLarge { resource: id });
        },
        Some(b) => b,
    };
    if diagnostic_bytes > usize::MAX as u64 {
        return Err(ResourceMappingError::DiagnosticTooLarge { resource: id });
    }
    let bytes = diagnostic_bytes as usize;
    let contract = gpu_diagnostic_contract();
    let desc = ResourceDesc::new(id, ResourceLayout::RawBytes { len: bytes, alignment: 4 }, contract);
    Ok(
        desc.with_diagnostics(
            DiagnosticAttachment {
                layout: DiagnosticLayout::Raw { bytes: diagnostic_bytes },
                readback: DiagnosticReadbackPolicy::OnRequest,
                max_bytes: diagnostic_bytes,
            },
        ),
    )
}

/// Stable resource id for a table shader binding: a column's
/// `"table.column"`, or the kernel-scoped generated diagnostics id.
pub fn shader_resource_id(kernel: &Kernel, binding: &BindingRequirement) -> (r: ResourceId)
    ensures
        r@ == shader_id_text(*kernel, *binding),
{
    match &binding.source {
        BindingSource::Column { name, .. } => resource_id(kernel, name.as_str()),
        BindingSource::Diagnostics { .. } => {
            let mut parts: Vec<String> = Vec::new();
            parts.push(kernel.name.clone());
            let kind = "diagnostics";
            proof {
                reveal_strlit("diagnostics");
                assert(parts@.map_values(|p: String| p@) =~= seq![kernel.name@]);
                assert(kind@ =~= diagnostics_kind());
            }
            generated_resource_id(&parts, kind)
        },
    }
}

/// Stable resource id for a field shader binding: a channel's
/// `"field.channel"`, or the field- and rule-scoped generated id for validity
/// and diagnostics.
pub fn field_shader_resource_id(module: &FieldShaderModule, binding: &FieldBindingRequirement) -> (r: ResourceId)
    ensures
        r@ == field_shader_id_text(*module, *binding),
{
    let mut parts: Vec<String> = Vec::new();
    parts.push(module.field.clone());
    parts.push(module.kernel.clone());
    proof {
        assert(parts@.map_values(|p: String| p@) =~= seq![module.field@, module.kernel@]);
    }
    match &binding.source {
        FieldBindingSource::Channel { field, name, .. } => {
            let dot = ".";
            proof {
                reveal_strlit(".");
            }
            let id = field.clone().concat(dot).concat(name.as_str());
            proof {
                assert(id@ =~= column_id(field@, name@));
            }
            ResourceId::new(id)
        },
        FieldBindingSource::Validity => {
            let kind = "validity";
            proof {
                reveal_strlit("validity");
                assert(kind@ =~= validity_kind());
            }
            generated_resource_id(&parts, kind)
        },
        FieldBindingSource::Diagnostics { .. } => {
            let kind = "diagnostics";
            proof {
                reveal_strlit("diagnostics");
                assert(kind@ =~= diagnostics_kind());
            }
            generated_resource_id(&parts, kind)
        },
    }
}

/// The descriptor of one table shader binding.
fn table_binding_desc(kernel: &Kernel, module: &ShaderModule, binding: &BindingRequirement) -> (r: Result<ResourceDesc, ResourceMappingError>)
    ensures
        table_binding_fails(*binding) ==> (r matches Err(ResourceMappingError::DiagnosticTooLarge { resource })
            && resource@ == shader_id_text(*kernel, *binding)),
        !table_binding_fails(*binding) ==> (r matches Ok(d) && table_desc_matches(d, *kernel, *module, *binding)),
{
    let id = shader_resource_id(kernel, binding);
    match &binding.source {
        BindingSource::Column { .. } => Ok(
            ResourceDesc::new(
                id,
                ResourceLayout::Dense1D { element: element_type(binding.scalar_type), len: module.element_count },
                gpu_column_contract(binding.access),
            ),
        ),
        BindingSource::Diagnostics { byte_len, .. } => diagnostic_desc(id, *byte_len),
    }
}

/// The descriptor of one field shader binding.
fn field_binding_desc(module: &FieldShaderModule, binding: &FieldBindingRequirement) -> (r: Result<ResourceDesc, ResourceMappingError>)
    ensures
        field_binding_fails(*binding) ==> (r matches Err(ResourceMappingError::DiagnosticTooLarge { resource })
            && resource@ == field_shader_id_text(*module, *binding)),
        !field_binding_fails(*binding) ==> (r matches Ok(d) && field_desc_matches(d, *module, *binding)),
{
    let id = field_shader_resource_id(module, binding);
    match &binding.source {
        FieldBindingSource::Diagnostics { byte_len, .. } => diagnostic_desc(id, *byte_len),
        _ => Ok(
            ResourceDesc::new(
                id,
                ResourceLayout::Dense2D {
                    element: element_type(binding.scalar_type),
                    width: module.width,
                    height: module.height,
                },
                gpu_column_contract(binding.access),
            ),
        ),
    }
}

/// Descriptors for every binding of a lowered table shader, in order: column
/// bindings get dense buffers of the module's element count with the input
/// or output contract by access, diagnostics bindings the diagnostics
/// descriptor.
///
/// Fails, naming the first such binding, when a diagnostics binding's byte
/// length is missing or does not fit a host length.
pub fn shader_resource_descs(kernel: &Kernel, module: &ShaderModule) -> (r: Result<Vec<ResourceDesc>, ResourceMappingError>)
    ensures
        match r {
            Ok(descs) => {
                &&& descs@.len() == module.bindings@.len()
                &&& forall|i: int| 0 <= i < descs@.len() ==> !table_binding_fails(#[trigger] module.bindings@[i])
                &&& forall|i: int|
                    0 <= i < descs@.len() ==> table_desc_matches(
                        #[trigger] descs@[i],
                        *kernel,
                        *module,
                        module.bindings@[i],
                    )
            },
            Err(ResourceMappingError::DiagnosticTooLarge { resource }) => exists|i: int|
                0 <= i < module.bindings@.len() && table_binding_fails(#[trigger] module.bindings@[i])
                    && resource@ == shader_id_text(*kernel, module.bindings@[i])
                    && forall|j: int| 0 <= j < i ==> !table_binding_fails(#[trigger] module.bindings@[j]),
        },
{
    let mut descs: Vec<ResourceDesc> = Vec::new();
    let mut i: usize = 0;
    while i < module.bindings.len()
        invariant
            i <= module.bindings@.len(),
            descs@.len() == i,
            forall|j: int| 0 <= j < i ==> !table_binding_fails(#[trigger] module.bindings@[j]),
            forall|j: int|
                0 <= j < i ==> table_desc_matches(#[trigger] descs@[j], *kernel, *module, module.bindings@[j]),
        decreases module.bindings@.len() - i,
    {
        match table_binding_desc(kernel, module, &module.bindings[i]) {
            Err(e) => {
                return Err(e);
            },
            Ok(d) => {
                descs.push(d);
            },
        }
        i = i + 1;
    }
    Ok(descs)
}

/// Descriptors for every binding of a lowered field shader, in order: channel
/// and validity bindings get row-major grids of the module's size with the
/// input or output contract by access, diagnostics bindings the diagnostics
/// descriptor.
///
/// Fails, naming the first such binding, when a diagnostics binding's byte
/// length is missing or does not fit a host length.
pub fn field_shader_resource_descs(module: &FieldShaderModule) -> (r: Result<Vec<ResourceDesc>, ResourceMappingError>)
    ensures
        match r {
            Ok(descs) => {
                &&& descs@.len() == module.bindings@.len()
                &&& forall|i: int| 0 <= i < descs@.len() ==> !field_binding_fails(#[trigger] module.bindings@[i])
                &&& forall|i: int|
                    0 <= i < descs@.len() ==> field_desc_matches(#[trigger] descs@[i], *module, module.bindings@[i])
            },
            Err(ResourceMappingError::DiagnosticTooLarge { resource }) => exists|i: int|
                0 <= i < module.bindings@.len() && field_binding_fails(#[trigger] module.bindings@[i])
                    && resource@ == field_shader_id_text(*module, module.bindings@[i])
                    && forall|j: int| 0 <= j < i ==> !field_binding_fails(#[trigger] module.bindings@[j]),
        },
{
    let mut descs: Vec<ResourceDesc> = Vec::new();
    let mut i: usize = 0;
    while i < module.bindings.len()
        invariant
            i <= module.bindings@.len(),
            descs@.len() == i,
            forall|j: int| 0 <= j < i ==> !field_binding_fails(#[trigger] module.bindings@[j]),
            forall|j: int| 0 <= j < i ==> field_desc_matches(#[trigger] descs@[j], *module, module.bindings@[j]),
        decreases module.bindings@.len() - i,
    {
        match field_binding_desc(module, &module.bindings[i]) {
            Err(e) => {
                return Err(e);
            },
            Ok(d) => {
                descs.push(d);
            },
        }
        i = i + 1;
    }
    Ok(descs)
}

} // verus!
