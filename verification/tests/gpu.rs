use conflux_residency::runtime::gpu_report::{
    GpuAttachmentAvailability, GpuAttachmentUnavailableReason, GpuEquivalenceNotCheckedReason,
    GpuEquivalenceStatus, GpuEvidenceUnavailableReason, GpuExecutionReport, GpuReadbackEvidence,
    GpuReadbackFailureReason, GpuReadbackSkipReason, GpuResidencyMapping, GpuTransferEvidence,
    GpuTransferSkipReason, GpuWgslEvidence,
};
use conflux_residency::runtime::selection::{ExecutionMode, ExecutionPath};

#[test]
fn gpu_report_never_turns_kernel_proxy_into_wgsl_evidence() {
    let report = GpuExecutionReport::from_selection(
        ExecutionMode::PreferGpu,
        ExecutionPath::Gpu,
        Some(ExecutionPath::Reference),
    );

    assert_eq!(
        report.wgsl_evidence,
        GpuWgslEvidence::NotAttached(GpuEvidenceUnavailableReason::RuntimeDoesNotOwnWgslBackend)
    );
    assert_eq!(
        report.residency_mapping,
        GpuResidencyMapping::NotAttached(
            GpuEvidenceUnavailableReason::RuntimeDoesNotOwnResidencyMapping
        )
    );
    assert_eq!(
        report.transfer_evidence,
        GpuTransferEvidence::NotAttached(GpuAttachmentUnavailableReason::GpuDidNotExecute)
    );
    assert_eq!(
        report.transfer_availability(),
        GpuAttachmentAvailability::NotAttached(GpuAttachmentUnavailableReason::GpuDidNotExecute)
    );
    assert_eq!(
        report.readback_evidence,
        GpuReadbackEvidence::NotAttached(GpuAttachmentUnavailableReason::GpuDidNotExecute)
    );
    assert_eq!(
        report.readback_availability(),
        GpuAttachmentAvailability::NotAttached(GpuAttachmentUnavailableReason::GpuDidNotExecute)
    );
    assert_eq!(report.equivalence_status, GpuEquivalenceStatus::NotApplicable);
}

#[test]
fn reference_only_report_has_no_gpu_evidence_applicability() {
    let report = GpuExecutionReport::from_selection(
        ExecutionMode::ReferenceOnly,
        ExecutionPath::Reference,
        Some(ExecutionPath::Reference),
    );

    assert_eq!(report.wgsl_evidence, GpuWgslEvidence::NotApplicable);
    assert_eq!(report.residency_mapping, GpuResidencyMapping::NotApplicable);
    assert_eq!(report.transfer_evidence, GpuTransferEvidence::NotApplicable);
    assert_eq!(
        report.transfer_availability(),
        GpuAttachmentAvailability::NotApplicable
    );
    assert_eq!(report.readback_evidence, GpuReadbackEvidence::NotApplicable);
    assert_eq!(
        report.readback_availability(),
        GpuAttachmentAvailability::NotApplicable
    );
}

#[test]
fn actual_gpu_used_path_requires_backend_attachments_and_checks() {
    let report = GpuExecutionReport::from_selection(
        ExecutionMode::RequireGpu,
        ExecutionPath::Gpu,
        Some(ExecutionPath::Gpu),
    );

    assert_eq!(
        report.wgsl_evidence,
        GpuWgslEvidence::NotAttached(GpuEvidenceUnavailableReason::RuntimeDoesNotOwnWgslBackend)
    );
    assert_eq!(
        report.transfer_evidence,
        GpuTransferEvidence::NotAttached(GpuAttachmentUnavailableReason::BackendReportUnavailable)
    );
    assert_eq!(
        report.transfer_availability(),
        GpuAttachmentAvailability::NotAttached(
            GpuAttachmentUnavailableReason::BackendReportUnavailable
        )
    );
    assert_eq!(
        report.readback_evidence,
        GpuReadbackEvidence::NotAttached(GpuAttachmentUnavailableReason::BackendReportUnavailable)
    );
    assert_eq!(
        report.readback_availability(),
        GpuAttachmentAvailability::NotAttached(
            GpuAttachmentUnavailableReason::BackendReportUnavailable
        )
    );
    assert_eq!(
        report.equivalence_status,
        GpuEquivalenceStatus::NotChecked(GpuEquivalenceNotCheckedReason::BackendReportUnavailable)
    );
}

#[test]
fn attached_evidence_is_available_whatever_its_outcome() {
    assert_eq!(
        GpuTransferEvidence::Skipped(GpuTransferSkipReason::NoTransferNeeded).availability(),
        GpuAttachmentAvailability::Available
    );
    assert_eq!(
        GpuReadbackEvidence::Skipped(GpuReadbackSkipReason::NotRequested).availability(),
        GpuAttachmentAvailability::Available
    );
    assert_eq!(
        GpuReadbackEvidence::Failed(GpuReadbackFailureReason::DecodeFailed).availability(),
        GpuAttachmentAvailability::Available
    );
}

#[test]
fn refused_gpu_rule_has_no_attachments_to_expect() {
    let report = GpuExecutionReport::from_selection(
        ExecutionMode::RequireGpu,
        ExecutionPath::Reference,
        None,
    );
    assert_eq!(
        report.wgsl_evidence,
        GpuWgslEvidence::NotAttached(GpuEvidenceUnavailableReason::RuntimeDoesNotOwnWgslBackend)
    );
    assert_eq!(report.residency_mapping, GpuResidencyMapping::NotApplicable);
    assert_eq!(report.transfer_evidence, GpuTransferEvidence::NotApplicable);
    assert_eq!(report.equivalence_status, GpuEquivalenceStatus::NotApplicable);
}
