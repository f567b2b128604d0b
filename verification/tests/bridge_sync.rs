use conflux_residency::bridge::{Kernel, KernelBinding, ScalarType};
use conflux_residency::residency_core::{
    Authority, ElementType, Freshness, ReadbackPolicy, Residency, ResizePolicy, ResourceId,
    ResourceLayout, SummaryKind, SyncContract, UploadPolicy, ViewRequest, ViewSelector,
};
use conflux_residency::residency_core::{
    BackendResourceHandle, BackendSubmission, F32Bits, FakeBackend, PlannedReadback, ReadbackError,
    ReadbackId, ReadbackStatus, ReadbackToken, ResidencyBackend, ResourceDesc, SyncGraph,
    TransferPlan,
};
use conflux_residency::runtime::gpu_report::{
    GpuAttachmentAvailability, GpuEquivalenceStatus, GpuEvidenceUnavailableReason,
    GpuExecutionReport, GpuReadbackEvidence, GpuReadbackFailureReason, GpuReadbackSummary,
    GpuResidencyMapping, GpuTransferEvidence, GpuTransferSummary, GpuWgslEvidence,
};
use conflux_residency::runtime::selection::FallbackReason;
use conflux_residency::bridge::complete_readback;
use conflux_residency::residency_core::{Generation, ViewDecodeError, ViewResult};
use conflux_residency::{sync_kernel_output, BridgeError};

#[derive(Debug)]
struct PendingThenFailedBackend {
    polls: usize,
}

#[derive(Debug, Default)]
struct AlwaysPendingBackend {
    polls: usize,
}

impl ResidencyBackend for PendingThenFailedBackend {
    type Error = std::convert::Infallible;

    fn create_resource(&mut self, _desc: &ResourceDesc) -> Result<BackendResourceHandle, Self::Error> {
        Ok(BackendResourceHandle(0))
    }

    fn execute_transfer_plan(&mut self, plan: &TransferPlan) -> Result<BackendSubmission, Self::Error> {
        Ok(BackendSubmission {
            uploaded_bytes: plan.expected_upload_bytes,
            downloaded_bytes: 0,
            readback_tokens: Vec::new(),
        })
    }

    fn request_readback(&mut self, request: PlannedReadback) -> Result<ReadbackToken, Self::Error> {
        Ok(ReadbackToken { id: ReadbackId(1), resource: request.resource, freshness: request.freshness })
    }

    fn poll_readback(&mut self, _token: &ReadbackToken) -> Result<ReadbackStatus, Self::Error> {
        self.polls += 1;
        if self.polls == 1 {
            Ok(ReadbackStatus::Pending)
        } else {
            Ok(ReadbackStatus::Failed(ReadbackError::Backend { message: "injected failure".to_string() }))
        }
    }
}

impl ResidencyBackend for AlwaysPendingBackend {
    type Error = std::convert::Infallible;

    fn create_resource(&mut self, _desc: &ResourceDesc) -> Result<BackendResourceHandle, Self::Error> {
        Ok(BackendResourceHandle(0))
    }

    fn execute_transfer_plan(&mut self, plan: &TransferPlan) -> Result<BackendSubmission, Self::Error> {
        Ok(BackendSubmission {
            uploaded_bytes: plan.expected_upload_bytes,
            downloaded_bytes: 0,
            readback_tokens: Vec::new(),
        })
    }

    fn request_readback(&mut self, request: PlannedReadback) -> Result<ReadbackToken, Self::Error> {
        Ok(ReadbackToken { id: ReadbackId(1), resource: request.resource, freshness: request.freshness })
    }

    fn poll_readback(&mut self, _token: &ReadbackToken) -> Result<ReadbackStatus, Self::Error> {
        self.polls += 1;
        Ok(ReadbackStatus::Pending)
    }
}

/// The `combine` kernel over the three-row `Cell` table: value + scratch into
/// value.
fn combine_kernel() -> Kernel {
    Kernel {
        name: "combine".to_string(),
        table_name: "Cell".to_string(),
        rows: 3,
        scalar_type: ScalarType::F32,
        inputs: vec![
            KernelBinding { name: "value".to_string(), column: 0 },
            KernelBinding { name: "scratch".to_string(), column: 1 },
        ],
        output: KernelBinding { name: "value".to_string(), column: 0 },
    }
}

/// The kernel's outputs for value [1, 2, 3] and scratch [10, 20, 30].
fn combine_outputs() -> Vec<F32Bits> {
    [1.0_f32, 2.0, 3.0]
        .iter()
        .zip([10.0_f32, 20.0, 30.0].iter())
        .map(|(a, b)| F32Bits((a + b).to_bits()))
        .collect()
}

#[test]
fn sync_cycle_round_trips_output_and_embeds_transfer_report() {
    let kernel = combine_kernel();
    let outputs = combine_outputs();

    let mut graph = SyncGraph::new();
    let mut backend = FakeBackend::new();
    let report = sync_kernel_output(&kernel, &outputs, &mut graph, &mut backend).unwrap();

    let values: Vec<f32> = report.output.iter().map(|v| f32::from_bits(v.0)).collect();
    assert_eq!(values, vec![11.0, 22.0, 33.0]);
    assert_eq!(report.output_resource, "Cell.value");
    assert_eq!(report.gpu_residency_mapping(), GpuResidencyMapping::Mappable);
    assert_eq!(report.transfer.uploaded_bytes, 12);
    assert_eq!(report.transfer.downloaded_bytes, 12);
    assert_eq!(report.transfer.readbacks_completed, 1);
    assert!(report.transfer.warnings.is_empty());
    assert_eq!(
        report.gpu_transfer_evidence(),
        GpuTransferEvidence::Reported(GpuTransferSummary {
            uploaded_bytes: 12,
            downloaded_bytes: 12,
            reallocations: 0,
            bytes_reallocated: 0,
            warnings: 0,
        })
    );
    assert_eq!(
        report.gpu_readback_evidence(),
        GpuReadbackEvidence::ReadBack(GpuReadbackSummary {
            requested: 1,
            completed: 1,
            downloaded_bytes: 12,
            forced_stalls: 0,
            stale_views_served: 0,
            full_snapshots: 0,
            denied_views: 0,
        })
    );

    let mut gpu = GpuExecutionReport {
        wgsl_evidence: GpuWgslEvidence::NotAttached(
            GpuEvidenceUnavailableReason::RuntimeDoesNotOwnWgslBackend,
        ),
        residency_mapping: GpuResidencyMapping::NotAttached(
            GpuEvidenceUnavailableReason::RuntimeDoesNotOwnResidencyMapping,
        ),
        transfer_evidence: GpuTransferEvidence::NotApplicable,
        readback_evidence: GpuReadbackEvidence::NotApplicable,
        equivalence_status: GpuEquivalenceStatus::NotApplicable,
    };
    report.attach_to_gpu_report(&mut gpu);
    assert_eq!(gpu.residency_mapping, GpuResidencyMapping::Mappable);
    assert_eq!(gpu.transfer_availability(), GpuAttachmentAvailability::Available);
    assert!(matches!(gpu.transfer_evidence, GpuTransferEvidence::Reported(_)));
    assert_eq!(gpu.readback_availability(), GpuAttachmentAvailability::Available);
    assert!(matches!(gpu.readback_evidence, GpuReadbackEvidence::ReadBack(_)));
}

#[test]
fn sync_cycle_preserves_failed_readback_error_after_pending_poll() {
    let kernel = combine_kernel();
    let outputs = combine_outputs();

    let mut graph = SyncGraph::new();
    let mut backend = PendingThenFailedBackend { polls: 0 };
    let error = sync_kernel_output(&kernel, &outputs, &mut graph, &mut backend).unwrap_err();

    assert!(matches!(&error, BridgeError::ReadbackFailed(ReadbackError::Backend { .. })));
    assert_eq!(error.gpu_execution_reason(), FallbackReason::GpuReadbackFailed);
    assert!(matches!(error.gpu_readback_evidence(), GpuReadbackEvidence::Failed(_)));
    assert_eq!(backend.polls, 2);
}

#[test]
fn sync_cycle_reports_bounded_pending_readback_instead_of_spinning_forever() {
    let kernel = combine_kernel();
    let outputs = combine_outputs();

    let mut graph = SyncGraph::new();
    let mut backend = AlwaysPendingBackend::default();
    let error = sync_kernel_output(&kernel, &outputs, &mut graph, &mut backend).unwrap_err();

    assert!(matches!(
        &error,
        BridgeError::ReadbackPendingLimitExceeded { polls } if *polls == backend.polls
    ));
    assert_eq!(error.gpu_execution_reason(), FallbackReason::GpuReadbackFailed);
    assert_eq!(
        error.gpu_readback_evidence(),
        GpuReadbackEvidence::Failed(GpuReadbackFailureReason::ReadbackFailed)
    );
}

#[test]
fn sync_cycle_refuses_a_second_registration_of_the_output() {
    let kernel = combine_kernel();
    let outputs = combine_outputs();
    let mut graph = SyncGraph::new();
    let mut backend = FakeBackend::new();
    sync_kernel_output(&kernel, &outputs, &mut graph, &mut backend).unwrap();
    let error = sync_kernel_output(&kernel, &outputs, &mut graph, &mut backend).unwrap_err();
    assert!(matches!(error, BridgeError::Register(_)));
}

#[test]
fn summary_of_fake_backend_sums_stored_values() {
    let mut graph = SyncGraph::new();
    let mut backend = FakeBackend::new();
    let desc = ResourceDesc::new(
        ResourceId::from("sum"),
        ResourceLayout::Dense1D { element: ElementType::U32, len: 4 },
        SyncContract {
            residency: Residency::Mirrored,
            authority: Authority::CpuAuthoritative,
            upload: UploadPolicy::PatchesAllowed,
            readback: ReadbackPolicy::ViewsAllowed,
            resize: ResizePolicy::Fixed,
        },
    );
    backend.create_resource(&desc).unwrap();
    let id = graph.register(desc).unwrap();
    graph.submit_typed_patch(id.clone(), 0, vec![10_u32, 11, 20, 21]).unwrap();
    let plan = graph.plan_transfers();
    backend.execute_transfer_plan(&plan).unwrap();
    let planned = graph
        .request_view(ViewRequest::new(
            id,
            ViewSelector::Summary { kind: SummaryKind::SumU32 },
            Freshness::LatestAvailable,
            "sum",
        ))
        .unwrap();
    let token = backend.request_readback(planned).unwrap();
    let ReadbackStatus::Ready(result) = backend.poll_readback(&token).unwrap() else {
        panic!("readback should be ready at once");
    };
    assert_eq!(u64::from_ne_bytes(result.bytes.clone().try_into().unwrap()), 62);
}

fn served(bytes: Vec<u8>) -> ViewResult {
    ViewResult {
        resource: ResourceId::from("Cell.value"),
        selector: ViewSelector::Range { offset: 0, len: bytes.len() as u64 },
        served_generation: Generation(1),
        bytes,
    }
}

#[test]
fn completing_a_readback_decodes_the_bytes_and_takes_the_report() {
    let kernel = combine_kernel();
    let mut graph = SyncGraph::new();
    let mut bytes = 11.0_f32.to_ne_bytes().to_vec();
    bytes.extend_from_slice(&22.0_f32.to_ne_bytes());
    let report = complete_readback::<std::convert::Infallible>(
        &kernel,
        &ResourceId::from("Cell.value"),
        served(bytes),
        &mut graph,
    )
    .unwrap();
    assert_eq!(report.output, vec![F32Bits(11.0_f32.to_bits()), F32Bits(22.0_f32.to_bits())]);
    assert_eq!(report.kernel, "combine");
    assert_eq!(report.output_resource, "Cell.value");
    assert_eq!(report.transfer.downloaded_bytes, 8);
    assert_eq!(report.transfer.readbacks_completed, 1);
    assert_eq!(graph.report().readbacks_completed, 0);
}

#[test]
fn completing_a_readback_refuses_partial_values_and_counter_overflow() {
    let kernel = combine_kernel();
    let mut graph = SyncGraph::new();
    let error = complete_readback::<std::convert::Infallible>(
        &kernel,
        &ResourceId::from("Cell.value"),
        served(vec![1, 2, 3]),
        &mut graph,
    )
    .unwrap_err();
    assert!(matches!(error, BridgeError::Decode(ViewDecodeError::SizeMismatch { bytes: 3, element_size: 4 })));
    assert_eq!(graph.report().readbacks_completed, 1);

    graph.note_submission(&BackendSubmission {
        uploaded_bytes: 0,
        downloaded_bytes: u64::MAX - 3,
        readback_tokens: Vec::new(),
    });
    let error = complete_readback::<std::convert::Infallible>(
        &kernel,
        &ResourceId::from("Cell.value"),
        served(vec![0, 0, 0, 0]),
        &mut graph,
    )
    .unwrap_err();
    assert!(matches!(
        error,
        BridgeError::ReportCounterOverflow { recorded, reported: 4 } if recorded == u64::MAX
    ));
}
