use conflux_residency::bridge::{
    column_resource_desc, element_type, kernel_resource_descs, output_view_request, resource_id,
    Kernel, KernelBinding, ScalarType,
};
use conflux_residency::residency_core::{
    ElementType, F32Bits, Freshness, ResourceLayout, SyncGraph, ViewSelector,
};
use conflux_residency::{cpu_kernel_contract, gpu_output_contract};

/// The `combine` kernel over a three-row `Cell` table: it reads `value` and
/// `scratch` and writes `value`.
fn combine_kernel() -> Kernel {
    Kernel {
        name: "combine".to_string(),
        table_name: "Cell".to_string(),
        rows: 3,
        scalar_type: ScalarType::F32,
        inputs: vec![
            KernelBinding { name: "value".to_string(), column: 0 },
            KernelBinding { name: "scratch".to_string(), column: 1 },
        ],
        output: KernelBinding { name: "value".to_string(), column: 0 },
    }
}

#[test]
fn scalar_type_maps_to_residency_element_type() {
    assert_eq!(element_type(ScalarType::F32), ElementType::F32);
    assert_eq!(element_type(ScalarType::U32), ElementType::U32);
}

#[test]
fn maps_kernel_columns_to_resource_descs() {
    let kernel = combine_kernel();

    let descs = kernel_resource_descs(&kernel, cpu_kernel_contract());
    // Two distinct inputs (value, scratch); output `value` is already an input.
    assert_eq!(descs.len(), 2);
    let ids: Vec<String> = descs.iter().map(|d| d.id.as_str().to_string()).collect();
    assert_eq!(ids, ["Cell.value", "Cell.scratch"]);
    assert!(matches!(
        descs[0].layout,
        ResourceLayout::Dense1D {
            element: ElementType::F32,
            len: 3
        }
    ));
}

#[test]
fn output_view_request_targets_output_resource() {
    let kernel = combine_kernel();

    let request = output_view_request(&kernel, Freshness::LatestAvailable);
    assert_eq!(request.resource.as_str(), "Cell.value");
}

#[test]
fn output_column_outside_the_inputs_gets_its_own_descriptor() {
    let mut kernel = combine_kernel();
    kernel.output = KernelBinding { name: "total".to_string(), column: 2 };
    kernel.scalar_type = ScalarType::U32;
    let descs = kernel_resource_descs(&kernel, cpu_kernel_contract());
    assert_eq!(descs.len(), 3);
    assert_eq!(descs[2].id.as_str(), "Cell.total");
    assert!(matches!(
        descs[2].layout,
        ResourceLayout::Dense1D {
            element: ElementType::U32,
            len: 3
        }
    ));
    let request = output_view_request(&kernel, Freshness::Snapshot);
    assert_eq!(request.selector, ViewSelector::Range { offset: 0, len: 12 });
    assert_eq!(request.reason, "conflux.kernel.output");
    assert_eq!(resource_id(&kernel, "scratch").as_str(), "Cell.scratch");
    let single = column_resource_desc(&kernel, &kernel.inputs[1], cpu_kernel_contract());
    assert_eq!(single.id.as_str(), "Cell.scratch");
}

#[test]
fn gpu_output_column_takes_one_initial_upload_before_gpu_authoring() {
    let kernel = combine_kernel();
    let desc = column_resource_desc(&kernel, &kernel.output, gpu_output_contract());
    let id = desc.id.clone();
    let mut graph = SyncGraph::new();

    graph.register(desc).unwrap();
    graph
        .submit_typed_patch(id.clone(), 0, vec![F32Bits(1.0_f32.to_bits()), F32Bits(2.0_f32.to_bits())])
        .unwrap();
    let second = graph.submit_typed_patch(id, 0, vec![F32Bits(3.0_f32.to_bits())]);

    assert!(second.is_err());
}
