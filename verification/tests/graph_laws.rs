use conflux_residency::residency_core::{
    Authority, AuthorityError, ElementType, F32Bits, FakeBackend, Freshness, Generation,
    ReadbackPolicy, ReadbackStatus, RegisterError, Residency, ResidencyBackend, ResizePolicy,
    ResourceDesc, ResourceId, ResourceLayout, SummaryKind, SyncContract, SyncGraph, SyncWarning,
    TransferBudget, UploadPolicy, ViewRequest, ViewSelector,
};

fn contract(authority: Authority, resize: ResizePolicy) -> SyncContract {
    SyncContract {
        residency: Residency::Mirrored,
        authority,
        upload: UploadPolicy::PatchesAllowed,
        readback: ReadbackPolicy::ViewsAllowed,
        resize,
    }
}

fn read(graph: &mut SyncGraph, backend: &mut FakeBackend, id: &ResourceId, selector: ViewSelector) -> Vec<u8> {
    let planned = graph
        .request_view(ViewRequest::new(id.clone(), selector, Freshness::LatestAvailable, "law"))
        .unwrap();
    let token = backend.request_readback(planned).unwrap();
    let ReadbackStatus::Ready(result) = backend.poll_readback(&token).unwrap() else {
        panic!("readback should be ready at once");
    };
    result.bytes
}

#[test]
fn law_range_read_returns_what_a_patch_wrote() {
    let mut graph = SyncGraph::new();
    let mut backend = FakeBackend::new();
    let desc = ResourceDesc::new(
        ResourceId::from("law.values"),
        ResourceLayout::Dense1D { element: ElementType::U32, len: 4 },
        contract(Authority::CpuAuthoritative, ResizePolicy::Fixed),
    );
    backend.create_resource(&desc).unwrap();
    let id = graph.register(desc).unwrap();
    assert_eq!(graph.generation_of(&id), Some(Generation(0)));
    assert_eq!(graph.capacity_of(&id), Some(16));

    let generation = graph.submit_typed_patch(id.clone(), 1, vec![7_u32, 8]).unwrap();
    assert_eq!(generation, Generation(1));
    let plan = graph.plan_transfers();
    assert_eq!(plan.expected_upload_bytes, 8);
    assert_eq!(plan.uploads[0].byte_offset, 4);
    let submission = backend.execute_transfer_plan(&plan).unwrap();
    assert_eq!(submission.uploaded_bytes, 8);

    let written = read(&mut graph, &mut backend, &id, ViewSelector::Range { offset: 4, len: 8 });
    assert_eq!(bytemuck::pod_collect_to_vec::<u8, u32>(&written), vec![7, 8]);
    let whole = read(&mut graph, &mut backend, &id, ViewSelector::Range { offset: 0, len: 16 });
    assert_eq!(bytemuck::pod_collect_to_vec::<u8, u32>(&whole), vec![0, 7, 8, 0]);
}

#[test]
fn law_growth_rounds_to_the_next_power_of_two() {
    let mut graph = SyncGraph::new();
    let id = graph
        .register(ResourceDesc::new(
            ResourceId::from("law.grow"),
            ResourceLayout::Dense1D { element: ElementType::U32, len: 1 },
            contract(Authority::CpuAuthoritative, ResizePolicy::GrowPowerOfTwo { max_bytes: None }),
        ))
        .unwrap();
    let generation = graph.submit_typed_patch(id.clone(), 2, vec![1_u32, 2, 3]).unwrap();
    assert_eq!(generation, Generation(2));
    assert_eq!(graph.capacity_of(&id), Some(32));
    let plan = graph.plan_transfers();
    assert_eq!(plan.resizes.len(), 1);
    assert_eq!(plan.resizes[0].old_size, 4);
    assert_eq!(plan.resizes[0].new_size, 32);
    assert_eq!(plan.resizes[0].resulting_generation, Generation(1));
    assert_eq!(plan.uploads[0].resulting_generation, Generation(2));
    let report = graph.take_report();
    assert_eq!(report.reallocations, 1);
    assert_eq!(report.bytes_reallocated, 28);
    assert_eq!(graph.take_report().reallocations, 0);
}

#[test]
fn law_gpu_mutations_need_gpu_authority_and_advance_by_one() {
    let mut graph = SyncGraph::new();
    let gpu = graph
        .register(ResourceDesc::new(
            ResourceId::from("law.gpu"),
            ResourceLayout::Dense1D { element: ElementType::F32, len: 2 },
            contract(Authority::GpuAuthoritative, ResizePolicy::Fixed),
        ))
        .unwrap();
    assert_eq!(graph.submit_gpu_mutation(gpu.clone()).unwrap(), Generation(1));
    assert_eq!(graph.submit_gpu_mutation(gpu.clone()).unwrap(), Generation(2));
    let cpu = graph
        .register(ResourceDesc::new(
            ResourceId::from("law.cpu"),
            ResourceLayout::Dense1D { element: ElementType::F32, len: 2 },
            contract(Authority::CpuAuthoritative, ResizePolicy::Fixed),
        ))
        .unwrap();
    let err = graph.submit_gpu_mutation(cpu.clone()).unwrap_err();
    assert!(matches!(err, AuthorityError::NotGpuAuthoritative { .. }));
    assert_eq!(graph.generation_of(&cpu), Some(Generation(0)));
    let missing = graph.submit_gpu_mutation(ResourceId::from("law.none")).unwrap_err();
    assert!(matches!(missing, AuthorityError::UnknownResource { .. }));
    let report = graph.take_report();
    assert!(report.warnings.contains(&SyncWarning::AuthorityConflict { resource: cpu }));
}

#[test]
fn law_duplicate_registration_is_refused() {
    let mut graph = SyncGraph::new();
    let desc = ResourceDesc::new(
        ResourceId::from("law.dup"),
        ResourceLayout::Dense1D { element: ElementType::U32, len: 1 },
        contract(Authority::CpuAuthoritative, ResizePolicy::Fixed),
    );
    graph.register(desc.clone()).unwrap();
    let err = graph.register(desc).unwrap_err();
    assert!(matches!(err, RegisterError::DuplicateId { .. }));
    assert_eq!(graph.resources().len(), 1);
}

#[test]
fn law_event_appends_wrap_around_the_ring() {
    let mut graph = SyncGraph::new();
    let mut backend = FakeBackend::new();
    let desc = ResourceDesc::new(
        ResourceId::from("law.events"),
        ResourceLayout::EventRing { record: ElementType::U32, record_count: 3 },
        contract(Authority::CpuAuthoritative, ResizePolicy::Fixed),
    );
    backend.create_resource(&desc).unwrap();
    let id = graph.register(desc).unwrap();
    graph.submit_event_append(id.clone(), vec![1_u32, 2]).unwrap();
    let generation = graph.submit_event_append(id.clone(), vec![3_u32, 4]).unwrap();
    assert_eq!(generation, Generation(2));
    let plan = graph.plan_transfers();
    assert_eq!(plan.uploads.len(), 3);
    assert_eq!(plan.uploads[1].byte_offset, 8);
    assert_eq!(plan.uploads[1].bytes.len(), 4);
    assert_eq!(plan.uploads[2].byte_offset, 0);
    assert_eq!(plan.uploads[2].bytes.len(), 4);
    backend.execute_transfer_plan(&plan).unwrap();
    let events = read(&mut graph, &mut backend, &id, ViewSelector::EventCandidates { max_records: 10 });
    assert_eq!(bytemuck::pod_collect_to_vec::<u8, u32>(&events), vec![2, 3, 4]);
}

#[test]
fn law_budget_overruns_are_warned_but_planned() {
    let mut graph = SyncGraph::new().with_budget(TransferBudget {
        upload_bytes_per_cycle: 4,
        download_bytes_per_cycle: u64::MAX,
    });
    let id = graph
        .register(ResourceDesc::new(
            ResourceId::from("law.budget"),
            ResourceLayout::Dense1D { element: ElementType::U32, len: 2 },
            contract(Authority::CpuAuthoritative, ResizePolicy::Fixed),
        ))
        .unwrap();
    graph.submit_typed_patch(id, 0, vec![1_u32, 2]).unwrap();
    let plan = graph.plan_transfers();
    assert_eq!(plan.uploads.len(), 1);
    assert!(plan.warnings.contains(&SyncWarning::TransferBudgetExceeded { uploaded: 8, downloaded: 0 }));
    let empty = graph.plan_transfers();
    assert!(empty.is_empty());
    assert!(empty.warnings.is_empty());
    assert_eq!(TransferBudget::unlimited().upload_bytes_per_cycle, u64::MAX);
}

#[test]
fn law_float_summaries_treat_signed_zero_as_zero_and_skip_nan() {
    let mut graph = SyncGraph::new();
    let mut backend = FakeBackend::new();
    let desc = ResourceDesc::new(
        ResourceId::from("law.floats"),
        ResourceLayout::Dense1D { element: ElementType::F32, len: 4 },
        contract(Authority::CpuAuthoritative, ResizePolicy::Fixed),
    );
    backend.create_resource(&desc).unwrap();
    let id = graph.register(desc).unwrap();
    let values = [3.0_f32, -0.0, f32::NAN, -1.5];
    graph
        .submit_typed_patch(id.clone(), 0, values.iter().map(|v| F32Bits(v.to_bits())).collect())
        .unwrap();
    let plan = graph.plan_transfers();
    backend.execute_transfer_plan(&plan).unwrap();

    let count = read(&mut graph, &mut backend, &id, ViewSelector::Summary { kind: SummaryKind::CountNonzero });
    assert_eq!(u32::from_ne_bytes(count.try_into().unwrap()), 3);
    let min_max = read(&mut graph, &mut backend, &id, ViewSelector::Summary { kind: SummaryKind::MinMaxF32 });
    assert_eq!(bytemuck::pod_collect_to_vec::<u8, f32>(&min_max), vec![-1.5, 3.0]);
}

#[test]
fn law_stale_freshness_is_refused_by_the_backend_too() {
    let mut backend = FakeBackend::new();
    let desc = ResourceDesc::new(
        ResourceId::from("law.fresh"),
        ResourceLayout::Dense1D { element: ElementType::U32, len: 1 },
        contract(Authority::CpuAuthoritative, ResizePolicy::Fixed),
    );
    backend.create_resource(&desc).unwrap();
    let mut graph = SyncGraph::new();
    let id = graph.register(desc).unwrap();
    let planned = graph
        .request_view(ViewRequest::new(id.clone(), ViewSelector::Full, Freshness::Snapshot, "fresh"))
        .unwrap();
    let mut stale = planned.clone();
    stale.freshness = Freshness::ExactGeneration(Generation(3));
    assert!(backend.request_readback(stale).is_err());
    assert!(backend.request_readback(planned).is_ok());
    assert_eq!(graph.take_report().full_snapshots, 1);
}

#[test]
fn law_exact_freshness_is_warned_as_a_possible_stall() {
    let mut graph = SyncGraph::new();
    let id = graph
        .register(ResourceDesc::new(
            ResourceId::from("r"),
            ResourceLayout::Dense1D { element: ElementType::U32, len: 1 },
            contract(Authority::CpuAuthoritative, ResizePolicy::Fixed),
        ))
        .unwrap();
    let requested = Freshness::ExactGeneration(Generation(0));
    assert!(graph
        .request_view(ViewRequest::new(id.clone(), ViewSelector::Range { offset: 0, len: 4 }, requested, "x"))
        .is_ok());
    assert!(graph
        .report()
        .warnings
        .contains(&SyncWarning::ExactFreshnessMayStall { resource: id, requested }));
}
