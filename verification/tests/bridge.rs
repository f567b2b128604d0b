use conflux_residency::residency_core::{
    Authority, ReadbackPolicy, Residency, ResizePolicy, UploadPolicy, F32Bits, ReadbackError, RegisterError, ResourceId, SubmitPatchError, SyncWarning,
    TransferReport, ViewDecodeError, ViewRequestError,
};
use conflux_residency::runtime::gpu_report::{
    GpuAttachmentAvailability, GpuAttachmentUnavailableReason, GpuEquivalenceStatus,
    GpuExecutionReport, GpuReadbackEvidence, GpuReadbackFailureReason, GpuReadbackSkipReason,
    GpuReadbackSummary, GpuResidencyMapping, GpuTransferEvidence, GpuTransferFailureReason,
    GpuTransferSkipReason, GpuTransferSummary, GpuWgslEvidence,
};
use conflux_residency::runtime::selection::FallbackReason;
use conflux_residency::{
    cpu_kernel_contract, gpu_diagnostic_contract, gpu_input_contract, gpu_output_contract,
    BridgeError, ResidencyReport,
};

fn f32s(values: &[f32]) -> Vec<F32Bits> {
    values.iter().map(|v| F32Bits(v.to_bits())).collect()
}

fn empty_transfer() -> TransferReport {
    TransferReport {
        uploaded_bytes: 0,
        downloaded_bytes: 0,
        readbacks_requested: 0,
        readbacks_completed: 0,
        forced_stalls: 0,
        denied_views: 0,
        stale_views_served: 0,
        full_snapshots: 0,
        reallocations: 0,
        bytes_reallocated: 0,
        warnings: Vec::new(),
    }
}

#[test]
fn bridge_errors_map_to_exact_gpu_execution_and_evidence_reasons() {
    assert_bridge_error_maps(
        &BridgeError::BackendAllocate("allocate"),
        FallbackReason::GpuResidencyMappingUnavailable,
        GpuTransferEvidence::Failed(GpuTransferFailureReason::MappingUnavailable),
        GpuReadbackEvidence::Failed(GpuReadbackFailureReason::ReadbackUnavailable),
    );
    assert_bridge_error_maps(
        &BridgeError::BackendTransfer("transfer"),
        FallbackReason::GpuTransferFailed,
        GpuTransferEvidence::Failed(GpuTransferFailureReason::TransferFailed),
        GpuReadbackEvidence::Failed(GpuReadbackFailureReason::ReadbackUnavailable),
    );
    assert_bridge_error_maps(
        &BridgeError::BackendReadbackRequest("request"),
        FallbackReason::GpuReadbackUnavailable,
        GpuTransferEvidence::NotAttached(GpuAttachmentUnavailableReason::BackendReportUnavailable),
        GpuReadbackEvidence::Failed(GpuReadbackFailureReason::ReadbackUnavailable),
    );
    assert_bridge_error_maps(
        &BridgeError::BackendReadbackPoll("poll"),
        FallbackReason::GpuReadbackFailed,
        GpuTransferEvidence::NotAttached(GpuAttachmentUnavailableReason::BackendReportUnavailable),
        GpuReadbackEvidence::Failed(GpuReadbackFailureReason::ReadbackFailed),
    );
    assert_bridge_error_maps(
        &BridgeError::Decode(ViewDecodeError::SizeMismatch {
            bytes: 3,
            element_size: 4,
        }),
        FallbackReason::GpuReadbackFailed,
        GpuTransferEvidence::NotAttached(GpuAttachmentUnavailableReason::BackendReportUnavailable),
        GpuReadbackEvidence::Failed(GpuReadbackFailureReason::DecodeFailed),
    );
    assert_bridge_error_maps(
        &BridgeError::ReadbackFailed(ReadbackError::Backend {
            message: "failed".to_string(),
        }),
        FallbackReason::GpuReadbackFailed,
        GpuTransferEvidence::NotAttached(GpuAttachmentUnavailableReason::BackendReportUnavailable),
        GpuReadbackEvidence::Failed(GpuReadbackFailureReason::ReadbackFailed),
    );
    assert_bridge_error_maps(
        &BridgeError::ReadbackPendingLimitExceeded { polls: 1024 },
        FallbackReason::GpuReadbackFailed,
        GpuTransferEvidence::NotAttached(GpuAttachmentUnavailableReason::BackendReportUnavailable),
        GpuReadbackEvidence::Failed(GpuReadbackFailureReason::ReadbackFailed),
    );
}

#[test]
fn graph_errors_map_to_exact_gpu_transfer_and_readback_reasons() {
    let id = ResourceId::from("Cell.value");

    assert_bridge_error_maps(
        &BridgeError::<&'static str>::Register(RegisterError::DuplicateId { id: id.clone() }),
        FallbackReason::GpuResidencyMappingUnavailable,
        GpuTransferEvidence::Failed(GpuTransferFailureReason::MappingUnavailable),
        GpuReadbackEvidence::Failed(GpuReadbackFailureReason::ReadbackUnavailable),
    );
    assert_bridge_error_maps(
        &BridgeError::<&'static str>::Patch(SubmitPatchError::UploadDenied { id: id.clone() }),
        FallbackReason::GpuTransferFailed,
        GpuTransferEvidence::Failed(GpuTransferFailureReason::TransferFailed),
        GpuReadbackEvidence::Failed(GpuReadbackFailureReason::ReadbackUnavailable),
    );
    assert_bridge_error_maps(
        &BridgeError::<&'static str>::View(ViewRequestError::ReadbackDenied { id }),
        FallbackReason::GpuReadbackUnavailable,
        GpuTransferEvidence::NotAttached(GpuAttachmentUnavailableReason::BackendReportUnavailable),
        GpuReadbackEvidence::Failed(GpuReadbackFailureReason::ReadbackUnavailable),
    );
}

#[test]
fn full_state_readback_evidence_is_surfaced_without_hiding_snapshot_count() {
    let report = ResidencyReport {
        kernel: "snapshot_rule".to_string(),
        output_resource: "Cell.value".to_string(),
        output: f32s(&[1.0, 2.0, 3.0, 4.0]),
        transfer: TransferReport {
            uploaded_bytes: 16,
            downloaded_bytes: 16,
            readbacks_requested: 1,
            readbacks_completed: 1,
            forced_stalls: 0,
            denied_views: 0,
            stale_views_served: 0,
            full_snapshots: 1,
            reallocations: 0,
            bytes_reallocated: 0,
            warnings: Vec::new(),
        },
    };

    assert_eq!(
        report.gpu_readback_evidence(),
        GpuReadbackEvidence::ReadBack(GpuReadbackSummary {
            requested: 1,
            completed: 1,
            downloaded_bytes: 16,
            forced_stalls: 0,
            stale_views_served: 0,
            full_snapshots: 1,
            denied_views: 0,
        })
    );

    let mut gpu = GpuExecutionReport {
        wgsl_evidence: GpuWgslEvidence::NotApplicable,
        residency_mapping: GpuResidencyMapping::NotApplicable,
        transfer_evidence: GpuTransferEvidence::NotApplicable,
        readback_evidence: GpuReadbackEvidence::NotApplicable,
        equivalence_status: GpuEquivalenceStatus::NotApplicable,
    };
    report.attach_to_gpu_report(&mut gpu);

    assert_eq!(
        gpu.readback_availability(),
        GpuAttachmentAvailability::Available
    );
    assert_eq!(
        gpu.readback_evidence,
        GpuReadbackEvidence::ReadBack(GpuReadbackSummary {
            requested: 1,
            completed: 1,
            downloaded_bytes: 16,
            forced_stalls: 0,
            stale_views_served: 0,
            full_snapshots: 1,
            denied_views: 0,
        })
    );
}

#[test]
fn warning_only_transfer_report_is_not_hidden_as_no_transfer_needed() {
    let mut transfer = empty_transfer();
    transfer.warnings = vec![SyncWarning::TransferBudgetExceeded {
        uploaded: 0,
        downloaded: 0,
    }];
    let report = ResidencyReport {
        kernel: "warning_rule".to_string(),
        output_resource: "Cell.value".to_string(),
        output: Vec::new(),
        transfer,
    };

    assert_eq!(
        report.gpu_transfer_evidence(),
        GpuTransferEvidence::Reported(GpuTransferSummary {
            uploaded_bytes: 0,
            downloaded_bytes: 0,
            reallocations: 0,
            bytes_reallocated: 0,
            warnings: 1,
        })
    );
}

#[test]
fn reallocation_bytes_are_not_hidden_as_no_transfer_needed() {
    let mut transfer = empty_transfer();
    transfer.bytes_reallocated = 64;
    let report = ResidencyReport {
        kernel: "resize_rule".to_string(),
        output_resource: "Cell.value".to_string(),
        output: Vec::new(),
        transfer,
    };

    assert_eq!(
        report.gpu_transfer_evidence(),
        GpuTransferEvidence::Reported(GpuTransferSummary {
            uploaded_bytes: 0,
            downloaded_bytes: 0,
            reallocations: 0,
            bytes_reallocated: 64,
            warnings: 0,
        })
    );
}

#[test]
fn incomplete_readback_evidence_keeps_partial_summary() {
    let report = ResidencyReport {
        kernel: "partial_readback_rule".to_string(),
        output_resource: "Cell.value".to_string(),
        output: f32s(&[1.0, 2.0]),
        transfer: TransferReport {
            uploaded_bytes: 8,
            downloaded_bytes: 4,
            readbacks_requested: 2,
            readbacks_completed: 1,
            forced_stalls: 1,
            denied_views: 1,
            stale_views_served: 0,
            full_snapshots: 1,
            reallocations: 0,
            bytes_reallocated: 0,
            warnings: Vec::new(),
        },
    };

    assert_eq!(
        report.gpu_readback_evidence(),
        GpuReadbackEvidence::Incomplete(GpuReadbackSummary {
            requested: 2,
            completed: 1,
            downloaded_bytes: 4,
            forced_stalls: 1,
            stale_views_served: 0,
            full_snapshots: 1,
            denied_views: 1,
        })
    );
}

#[test]
fn readback_counters_without_request_are_not_hidden_as_not_requested() {
    let mut transfer = empty_transfer();
    transfer.downloaded_bytes = 4;
    transfer.readbacks_completed = 1;
    transfer.forced_stalls = 1;
    let report = ResidencyReport {
        kernel: "inconsistent_readback_rule".to_string(),
        output_resource: "Cell.value".to_string(),
        output: f32s(&[1.0]),
        transfer,
    };

    assert_eq!(
        report.gpu_readback_evidence(),
        GpuReadbackEvidence::Incomplete(GpuReadbackSummary {
            requested: 0,
            completed: 1,
            downloaded_bytes: 4,
            forced_stalls: 1,
            stale_views_served: 0,
            full_snapshots: 0,
            denied_views: 0,
        })
    );
}

#[test]
fn stale_view_readback_evidence_is_not_hidden_as_not_requested() {
    let mut transfer = empty_transfer();
    transfer.stale_views_served = 1;
    let report = ResidencyReport {
        kernel: "stale_readback_rule".to_string(),
        output_resource: "Cell.value".to_string(),
        output: Vec::new(),
        transfer,
    };

    assert_eq!(
        report.gpu_readback_evidence(),
        GpuReadbackEvidence::Incomplete(GpuReadbackSummary {
            requested: 0,
            completed: 0,
            downloaded_bytes: 0,
            forced_stalls: 0,
            stale_views_served: 1,
            full_snapshots: 0,
            denied_views: 0,
        })
    );
}

#[test]
fn quiet_report_is_skipped_on_both_transfer_and_readback() {
    let report = ResidencyReport {
        kernel: "quiet_rule".to_string(),
        output_resource: "Cell.value".to_string(),
        output: Vec::new(),
        transfer: empty_transfer(),
    };
    assert_eq!(
        report.gpu_transfer_evidence(),
        GpuTransferEvidence::Skipped(GpuTransferSkipReason::NoTransferNeeded)
    );
    assert_eq!(
        report.gpu_readback_evidence(),
        GpuReadbackEvidence::Skipped(GpuReadbackSkipReason::NotRequested)
    );
    assert_eq!(report.gpu_residency_mapping(), GpuResidencyMapping::Mappable);
}

#[test]
fn bridge_contracts_match_their_roles() {
    let cpu = cpu_kernel_contract();
    assert_eq!(cpu.residency, Residency::Cpu);
    assert_eq!(cpu.upload, UploadPolicy::PatchesAllowed);
    let input = gpu_input_contract();
    assert_eq!(input.authority, Authority::CpuAuthoritative);
    assert_eq!(input.readback, ReadbackPolicy::Deny);
    let output = gpu_output_contract();
    assert_eq!(output.authority, Authority::GpuAuthoritative);
    assert_eq!(output.upload, UploadPolicy::InitialOnly);
    let diag = gpu_diagnostic_contract();
    assert_eq!(diag.readback, ReadbackPolicy::DiagnosticsOnly);
    assert_eq!(diag.resize, ResizePolicy::Fixed);
    assert!(cpu.validate().is_ok() && input.validate().is_ok());
    assert!(output.validate().is_ok() && diag.validate().is_ok());
}

fn assert_bridge_error_maps(
    error: &BridgeError<&'static str>,
    execution_reason: FallbackReason,
    transfer_evidence: GpuTransferEvidence,
    readback_evidence: GpuReadbackEvidence,
) {
    assert_eq!(error.gpu_execution_reason(), execution_reason);
    assert_eq!(error.gpu_transfer_evidence(), transfer_evidence);
    assert_eq!(error.gpu_readback_evidence(), readback_evidence);
}
