use conflux_residency::bridge::{
    field_shader_resource_descs, generated_resource_id, hex_encode, shader_resource_descs, Access,
    BindingRequirement, BindingSource, FieldBindingRequirement, FieldBindingSource,
    FieldShaderModule, Kernel, KernelBinding, ScalarType, ShaderModule,
};
use conflux_residency::residency_core::{
    Authority, DiagnosticLayout, DiagnosticReadbackPolicy, ElementType, F32Bits, ReadbackPolicy,
    Residency, ResourceLayout, SyncGraph, UploadPolicy,
};
use conflux_residency::ResourceMappingError;

fn table_kernel() -> Kernel {
    Kernel {
        name: "tick".to_string(),
        table_name: "Cell".to_string(),
        rows: 4,
        scalar_type: ScalarType::F32,
        inputs: Vec::new(),
        output: KernelBinding { name: "output".to_string(), column: 1 },
    }
}

/// A diagnostics binding whose buffer the shader toolchain sized at
/// `byte_len` bytes (`None` when its size computation overflowed).
fn table_diagnostics(binding: u32, byte_len: Option<u64>, assessments: usize) -> BindingRequirement {
    BindingRequirement {
        group: 0,
        binding,
        var: "v_diagnostics".to_string(),
        access: Access::ReadWrite,
        scalar_type: ScalarType::F32,
        source: BindingSource::Diagnostics { assessments, byte_len },
    }
}

fn column(binding: u32, var: &str, access: Access, name: &str, index: usize) -> BindingRequirement {
    BindingRequirement {
        group: 0,
        binding,
        var: var.to_string(),
        access,
        scalar_type: ScalarType::F32,
        source: BindingSource::Column { name: name.to_string(), index },
    }
}

fn table_module(element_count: usize, bindings: Vec<BindingRequirement>) -> ShaderModule {
    ShaderModule {
        kernel: "tick".to_string(),
        source: String::new(),
        entry_point: "main".to_string(),
        workgroup_size: 64,
        element_count,
        bindings,
    }
}

fn field_module(kernel: &str, width: usize, height: usize, bindings: Vec<FieldBindingRequirement>) -> FieldShaderModule {
    FieldShaderModule {
        kernel: kernel.to_string(),
        field: "Terrain".to_string(),
        source: String::new(),
        entry_point: "main".to_string(),
        workgroup_size: 64,
        width,
        height,
        cell_count: width * height,
        bindings,
    }
}

fn field_binding(binding: u32, var: &str, access: Access, scalar_type: ScalarType, source: FieldBindingSource) -> FieldBindingRequirement {
    FieldBindingRequirement { group: 0, binding, var: var.to_string(), access, scalar_type, source }
}

fn channel(name: &str, channel: usize) -> FieldBindingSource {
    FieldBindingSource::Channel { field: "Terrain".to_string(), field_index: 0, name: name.to_string(), channel }
}

fn field_module_with_generated_resources(kernel: &str) -> FieldShaderModule {
    field_module(
        kernel,
        2,
        2,
        vec![
            field_binding(0, "v_validity", Access::ReadWrite, ScalarType::U32, FieldBindingSource::Validity),
            field_binding(
                1,
                "v_diagnostics",
                Access::ReadWrite,
                ScalarType::F32,
                FieldBindingSource::Diagnostics { assessments: 1, byte_len: Some(16) },
            ),
        ],
    )
}

fn ids(descs: &[conflux_residency::residency_core::ResourceDesc]) -> Vec<String> {
    descs.iter().map(|d| d.id.as_str().to_string()).collect()
}

#[test]
fn table_shader_bindings_map_to_gpu_resource_descriptors() {
    let kernel = table_kernel();
    let module = table_module(
        4,
        vec![
            column(0, "v_input", Access::Read, "input", 0),
            column(1, "v_output", Access::ReadWrite, "output", 1),
            table_diagnostics(2, Some(32), 2),
        ],
    );

    let descs = shader_resource_descs(&kernel, &module).unwrap();

    assert_eq!(descs.len(), 3);
    assert_eq!(descs[0].id.as_str(), "Cell.input");
    assert_eq!(descs[0].layout, ResourceLayout::Dense1D { element: ElementType::F32, len: 4 });
    assert_eq!(descs[0].contract.residency, Residency::Gpu);
    assert_eq!(descs[0].contract.authority, Authority::CpuAuthoritative);
    assert_eq!(descs[0].contract.upload, UploadPolicy::InitialOnly);
    assert_eq!(descs[0].contract.readback, ReadbackPolicy::Deny);

    assert_eq!(descs[1].id.as_str(), "Cell.output");
    assert_eq!(descs[1].contract.authority, Authority::GpuAuthoritative);
    assert_eq!(descs[1].contract.upload, UploadPolicy::InitialOnly);
    assert_eq!(descs[1].contract.readback, ReadbackPolicy::ViewsAllowed);

    assert_eq!(descs[2].id.as_str(), "$conflux-generated:7469636b:diagnostics");
    assert_eq!(descs[2].layout, ResourceLayout::RawBytes { len: 32, alignment: 4 });
    assert_eq!(descs[2].contract.readback, ReadbackPolicy::DiagnosticsOnly);
    let diagnostics = descs[2].diagnostics.unwrap();
    assert_eq!(diagnostics.layout, DiagnosticLayout::Raw { bytes: 32 });
    assert_eq!(diagnostics.readback, DiagnosticReadbackPolicy::OnRequest);
    assert_eq!(diagnostics.max_bytes, 32);
}

#[test]
fn generated_table_diagnostics_do_not_collide_with_column_names() {
    let kernel = table_kernel();
    let module = table_module(
        1,
        vec![
            column(0, "v_diagnostics_column", Access::Read, "diagnostics", 0),
            table_diagnostics(1, Some(4), 1),
        ],
    );

    let descs = shader_resource_descs(&kernel, &module).unwrap();

    assert_eq!(ids(&descs), ["Cell.diagnostics", "$conflux-generated:7469636b:diagnostics"]);
}

#[test]
fn gpu_output_contract_allows_initial_upload_before_gpu_authoring() {
    let kernel = table_kernel();
    let module = table_module(2, vec![column(0, "v_output", Access::ReadWrite, "output", 1)]);
    let desc = shader_resource_descs(&kernel, &module).unwrap().remove(0);
    let id = desc.id.clone();
    let mut graph = SyncGraph::new();

    graph.register(desc).unwrap();
    graph
        .submit_typed_patch(id.clone(), 0, vec![F32Bits(1.0_f32.to_bits()), F32Bits(2.0_f32.to_bits())])
        .unwrap();
    let second = graph.submit_typed_patch(id, 0, vec![F32Bits(3.0_f32.to_bits()), F32Bits(4.0_f32.to_bits())]);

    assert!(second.is_err());
}

#[test]
fn field_shader_channels_map_to_dense_2d_resources() {
    let module = field_module(
        "grow",
        3,
        2,
        vec![
            field_binding(0, "v_crop", Access::Read, ScalarType::F32, channel("crop", 0)),
            field_binding(1, "v_validity", Access::ReadWrite, ScalarType::U32, FieldBindingSource::Validity),
        ],
    );

    let descs = field_shader_resource_descs(&module).unwrap();

    assert_eq!(descs[0].id.as_str(), "Terrain.crop");
    assert_eq!(descs[0].layout, ResourceLayout::Dense2D { element: ElementType::F32, width: 3, height: 2 });
    assert_eq!(descs[0].contract.authority, Authority::CpuAuthoritative);
    assert_eq!(descs[1].id.as_str(), "$conflux-generated:5465727261696e:67726f77:validity");
    assert_eq!(descs[1].layout, ResourceLayout::Dense2D { element: ElementType::U32, width: 3, height: 2 });
    assert_eq!(descs[1].contract.authority, Authority::GpuAuthoritative);
}

#[test]
fn generated_field_resources_do_not_collide_with_channel_names() {
    let module = field_module(
        "grow",
        2,
        2,
        vec![
            field_binding(0, "v_validity_channel", Access::Read, ScalarType::F32, channel("validity", 0)),
            field_binding(1, "v_diagnostics_channel", Access::Read, ScalarType::F32, channel("diagnostics", 1)),
            field_binding(2, "v_validity", Access::ReadWrite, ScalarType::U32, FieldBindingSource::Validity),
            field_binding(
                3,
                "v_diagnostics",
                Access::ReadWrite,
                ScalarType::F32,
                FieldBindingSource::Diagnostics { assessments: 1, byte_len: Some(16) },
            ),
        ],
    );

    let descs = field_shader_resource_descs(&module).unwrap();

    assert_eq!(
        ids(&descs),
        [
            "Terrain.validity",
            "Terrain.diagnostics",
            "$conflux-generated:5465727261696e:67726f77:validity",
            "$conflux-generated:5465727261696e:67726f77:diagnostics"
        ]
    );
}

#[test]
fn generated_field_resources_are_scoped_by_rule() {
    let first_ids = ids(&field_shader_resource_descs(&field_module_with_generated_resources("grow")).unwrap());
    let second_ids = ids(&field_shader_resource_descs(&field_module_with_generated_resources("settle")).unwrap());

    assert_ne!(first_ids, second_ids);
    let all_ids: std::collections::HashSet<String> = first_ids.into_iter().chain(second_ids).collect();
    assert_eq!(all_ids.len(), 4);
}

#[test]
fn field_diagnostic_descriptor_carries_raw_attachment_shape() {
    let module = field_module(
        "grow",
        3,
        2,
        vec![field_binding(
            0,
            "v_diagnostics",
            Access::ReadWrite,
            ScalarType::F32,
            FieldBindingSource::Diagnostics { assessments: 3, byte_len: Some(72) },
        )],
    );

    let desc = field_shader_resource_descs(&module).unwrap().remove(0);

    assert_eq!(desc.id.as_str(), "$conflux-generated:5465727261696e:67726f77:diagnostics");
    assert_eq!(desc.layout, ResourceLayout::RawBytes { len: 72, alignment: 4 });
    assert_eq!(desc.contract.authority, Authority::GpuAuthoritative);
    assert_eq!(desc.contract.readback, ReadbackPolicy::DiagnosticsOnly);
    let diagnostics = desc.diagnostics.unwrap();
    assert_eq!(diagnostics.layout, DiagnosticLayout::Raw { bytes: 72 });
    assert_eq!(diagnostics.readback, DiagnosticReadbackPolicy::OnRequest);
    assert_eq!(diagnostics.max_bytes, 72);
}

#[test]
fn table_diagnostic_overflow_returns_mapping_error() {
    let kernel = table_kernel();
    let module = table_module(usize::MAX, vec![table_diagnostics(0, None, 2)]);

    let err = shader_resource_descs(&kernel, &module).unwrap_err();

    assert!(matches!(
        err,
        ResourceMappingError::DiagnosticTooLarge { resource }
            if resource.as_str() == "$conflux-generated:7469636b:diagnostics"
    ));
}

#[test]
fn field_diagnostic_overflow_returns_mapping_error() {
    let mut module = field_module_with_generated_resources("grow");
    module.cell_count = usize::MAX;
    module.bindings = vec![field_binding(
        0,
        "v_diagnostics",
        Access::ReadWrite,
        ScalarType::F32,
        FieldBindingSource::Diagnostics { assessments: 2, byte_len: None },
    )];

    let err = field_shader_resource_descs(&module).unwrap_err();

    assert!(matches!(
        err,
        ResourceMappingError::DiagnosticTooLarge { resource }
            if resource.as_str() == "$conflux-generated:5465727261696e:67726f77:diagnostics"
    ));
}

#[test]
fn hex_encoding_covers_utf8_bytes() {
    assert_eq!(hex_encode("tick"), "7469636b");
    assert_eq!(hex_encode(""), "");
    assert_eq!(hex_encode("é"), "c3a9");
    let id = generated_resource_id(&vec!["Terrain".to_string(), "grow".to_string()], "validity");
    assert_eq!(id.as_str(), "$conflux-generated:5465727261696e:67726f77:validity");
    assert_eq!(generated_resource_id(&Vec::new(), "x").as_str(), "$conflux-generated:x");
}
