//! GPU-adjacent evidence for one table-rule firing.
//!
//! Runtime reports store only availability/status and aggregate summaries of
//! this evidence; detailed payloads remain owned by the boundaries that
//! produce them.

use vstd::prelude::*;

use crate::runtime::selection::{ExecutionMode, ExecutionPath};

verus! {

/// GPU-adjacent evidence for one table-rule firing.
///
/// It does not duplicate the selected-execution fields of a rule report; it
/// records only evidence that backend or Residency boundaries can attach.
#[derive(Clone, Copy, Debug, PartialEq, Eq, Structural, Hash)]
pub struct GpuExecutionReport {
    /// Evidence about WGSL lowering attached for this firing.
    pub wgsl_evidence: GpuWgslEvidence,
    /// Evidence about Residency resource mapping attached for this firing.
    pub residency_mapping: GpuResidencyMapping,
    /// Plain transfer evidence summarized from a Residency transfer report.
    pub transfer_evidence: GpuTransferEvidence,
    /// Plain readback evidence summarized from a Residency readback report.
    pub readback_evidence: GpuReadbackEvidence,
    /// Status of GPU/reference checking attached for this firing.
    pub equivalence_status: GpuEquivalenceStatus,
}

/// Evidence about WGSL lowering for a runtime firing. `Lowerable` and
/// `NotLowerable` are used only when a backend boundary attached real lowering
/// evidence.
#[derive(Clone, Copy, Debug, PartialEq, Eq, Structural, Hash)]
pub enum GpuWgslEvidence {
    /// GPU execution was not requested by the caller.
    NotApplicable,
    /// No WGSL evidence was attached, for the contained reason.
    NotAttached(GpuEvidenceUnavailableReason),
    /// Attached backend evidence confirms that the rule lowered to WGSL.
    Lowerable,
    /// Attached backend evidence confirms that the rule did not lower to WGSL.
    NotLowerable,
}

/// Evidence about Residency-compatible resource mapping for a runtime firing.
#[derive(Clone, Copy, Debug, PartialEq, Eq, Structural, Hash)]
pub enum GpuResidencyMapping {
    /// GPU execution was not selected by runtime policy.
    NotApplicable,
    /// No mapping evidence was attached, for the contained reason.
    NotAttached(GpuEvidenceUnavailableReason),
    /// Attached bridge evidence confirms that a mapping exists.
    Mappable,
    /// Attached bridge evidence confirms that mapping failed.
    NotMappable,
}

/// Derived availability of GPU-adjacent evidence.
#[derive(Clone, Copy, Debug, PartialEq, Eq, Structural, Hash)]
pub enum GpuAttachmentAvailability {
    /// The attachment is not relevant for this firing.
    NotApplicable,
    /// The attachment is relevant but absent, for the contained reason.
    NotAttached(GpuAttachmentUnavailableReason),
    /// The attachment exists in a backend or Residency report for this firing.
    Available,
}

/// Why GPU-adjacent evidence was not attached to a runtime firing.
#[derive(Clone, Copy, Debug, PartialEq, Eq, Structural, Hash)]
pub enum GpuEvidenceUnavailableReason {
    /// The runtime does not own the WGSL backend and cannot prove lowerability.
    RuntimeDoesNotOwnWgslBackend,
    /// The runtime does not own Residency and cannot prove resource mapping.
    RuntimeDoesNotOwnResidencyMapping,
    /// The backend or bridge that owns this evidence did not attach a report.
    BoundaryReportNotAttached,
}

/// Why a GPU-adjacent report attachment is unavailable.
#[derive(Clone, Copy, Debug, PartialEq, Eq, Structural, Hash)]
pub enum GpuAttachmentUnavailableReason {
    /// No GPU work executed for this firing.
    GpuDidNotExecute,
    /// Residency mapping evidence was not attached.
    ResidencyMappingNotAttached,
    /// The backend did not attach the requested report.
    BackendReportUnavailable,
}

/// Plain runtime-owned evidence about GPU data transfer.
#[derive(Clone, Copy, Debug, PartialEq, Eq, Structural, Hash)]
pub enum GpuTransferEvidence {
    /// Transfer evidence is not relevant for this firing.
    NotApplicable,
    /// Transfer evidence is relevant but no boundary report was attached.
    NotAttached(GpuAttachmentUnavailableReason),
    /// The boundary report says no transfer was needed.
    Skipped(GpuTransferSkipReason),
    /// A transfer report was attached and records byte-level movement or
    /// warning evidence.
    Reported(GpuTransferSummary),
    /// The transfer boundary reported a typed failure.
    Failed(GpuTransferFailureReason),
}

/// Summary of transfer evidence.
#[derive(Clone, Copy, Debug, PartialEq, Eq, Structural, Hash)]
pub struct GpuTransferSummary {
    /// Bytes uploaded from CPU-visible state to GPU/backend storage.
    pub uploaded_bytes: u64,
    /// Bytes downloaded from GPU/backend storage to CPU-visible state.
    pub downloaded_bytes: u64,
    /// Number of backend reallocations reported by the transfer boundary.
    pub reallocations: usize,
    /// Total bytes added by backend reallocations.
    pub bytes_reallocated: u64,
    /// Number of non-fatal transfer warnings emitted by the boundary.
    pub warnings: usize,
}

/// Why transfer evidence was skipped.
#[derive(Clone, Copy, Debug, PartialEq, Eq, Structural, Hash)]
pub enum GpuTransferSkipReason {
    /// No input changes required transfer work.
    NoTransferNeeded,
}

/// Why GPU transfer failed at the boundary that owns buffer movement.
#[derive(Clone, Copy, Debug, PartialEq, Eq, Structural, Hash)]
pub enum GpuTransferFailureReason {
    /// Resource mapping or allocation needed before transfer was unavailable.
    MappingUnavailable,
    /// Transfer submission failed.
    TransferFailed,
}

/// Plain runtime-owned evidence about GPU readback.
#[derive(Clone, Copy, Debug, PartialEq, Eq, Structural, Hash)]
pub enum GpuReadbackEvidence {
    /// Readback evidence is not relevant for this firing.
    NotApplicable,
    /// Readback evidence is relevant but no boundary report was attached.
    NotAttached(GpuAttachmentUnavailableReason),
    /// The boundary report says no readback was requested.
    Skipped(GpuReadbackSkipReason),
    /// A readback report was attached and records request/completion evidence.
    ReadBack(GpuReadbackSummary),
    /// The readback boundary reported a typed failure.
    Failed(GpuReadbackFailureReason),
    /// A readback report was attached but not every requested readback
    /// completed, or counters indicate non-success evidence.
    Incomplete(GpuReadbackSummary),
}

/// Summary of readback evidence.
#[derive(Clone, Copy, Debug, PartialEq, Eq, Structural, Hash)]
pub struct GpuReadbackSummary {
    /// Readbacks requested from the boundary.
    pub requested: usize,
    /// Readbacks reported as completed by the boundary.
    pub completed: usize,
    /// Bytes downloaded through readback.
    pub downloaded_bytes: u64,
    /// Readbacks that forced a blocking stall.
    pub forced_stalls: usize,
    /// Stale views served by the boundary.
    pub stale_views_served: usize,
    /// Explicit full-resource snapshots requested by the boundary.
    pub full_snapshots: usize,
    /// View requests denied by boundary policy.
    pub denied_views: usize,
}

/// Why readback evidence was skipped.
#[derive(Clone, Copy, Debug, PartialEq, Eq, Structural, Hash)]
pub enum GpuReadbackSkipReason {
    /// No readback was requested.
    NotRequested,
}

/// Why GPU readback failed at the boundary that owns buffer movement.
#[derive(Clone, Copy, Debug, PartialEq, Eq, Structural, Hash)]
pub enum GpuReadbackFailureReason {
    /// The boundary could not create or attach the requested readback.
    ReadbackUnavailable,
    /// The boundary reported readback completion failure.
    ReadbackFailed,
    /// Readback bytes could not be decoded into the expected value type.
    DecodeFailed,
}

/// Status of GPU/reference checking for a runtime firing.
#[derive(Clone, Copy, Debug, PartialEq, Eq, Structural, Hash)]
pub enum GpuEquivalenceStatus {
    /// No GPU/reference check applies to this firing.
    NotApplicable,
    /// A check would apply, but no result was attached.
    NotChecked(GpuEquivalenceNotCheckedReason),
    /// Attached evidence says GPU output matched the reference contract.
    Passed,
    /// Attached evidence says GPU output failed the reference contract.
    Failed,
}

/// Why no GPU/reference check result is attached.
#[derive(Clone, Copy, Debug, PartialEq, Eq, Structural, Hash)]
pub enum GpuEquivalenceNotCheckedReason {
    /// Readback or diagnostic data needed for the check was not attached.
    DiagnosticsUnavailable,
    /// The backend did not attach a check report for this firing.
    BackendReportUnavailable,
}

impl GpuTransferEvidence {
    /// The availability of the transfer evidence attachment: not applicable or
    /// not attached (with its reason) as the evidence says, available for any
    /// attached report.
    pub open spec fn spec_availability(&self) -> GpuAttachmentAvailability {
        match *self {
            GpuTransferEvidence::NotApplicable => GpuAttachmentAvailability::NotApplicable,
            GpuTransferEvidence::NotAttached(reason) => GpuAttachmentAvailability::NotAttached(reason),
            _ => GpuAttachmentAvailability::Available,
        }
    }

    /// Returns the derived availability of the transfer evidence attachment.
    #[verifier::when_used_as_spec(spec_availability)]
    pub fn availability(&self) -> (a: GpuAttachmentAvailability)
        ensures
            a == self.spec_availability(),
    {
        match self {
            GpuTransferEvidence::NotApplicable => GpuAttachmentAvailability::NotApplicable,
            GpuTransferEvidence::NotAttached(reason) => GpuAttachmentAvailability::NotAttached(*reason),
            GpuTransferEvidence::Skipped(_) | GpuTransferEvidence::Reported(_) | GpuTransferEvidence::Failed(_) => {
                GpuAttachmentAvailability::Available
            },
        }
    }
}

impl GpuReadbackEvidence {
    /// The availability of the readback evidence attachment: not applicable
    /// or not attached (with its reason) as the evidence says, available for
    /// any attached report.
    pub open spec fn spec_availability(&self) -> GpuAttachmentAvailability {
        match *self {
            GpuReadbackEvidence::NotApplicable => GpuAttachmentAvailability::NotApplicable,
            GpuReadbackEvidence::NotAttached(reason) => GpuAttachmentAvailability::NotAttached(reason),
            _ => GpuAttachmentAvailability::Available,
        }
    }

    /// Returns the derived availability of the readback evidence attachment.
    #[verifier::when_used_as_spec(spec_availability)]
    pub fn availability(&self) -> (a: GpuAttachmentAvailability)
        ensures
            a == self.spec_availability(),
    {
        match self {
            GpuReadbackEvidence::NotApplicable => GpuAttachmentAvailability::NotApplicable,
            GpuReadbackEvidence::NotAttached(reason) => GpuAttachmentAvailability::NotAttached(*reason),
            GpuReadbackEvidence::Skipped(_)
            | GpuReadbackEvidence::ReadBack(_)
            | GpuReadbackEvidence::Failed(_)
            | GpuReadbackEvidence::Incomplete(_) => GpuAttachmentAvailability::Available,
        }
    }
}

impl GpuExecutionReport {
    /// The evidence status derived from the selected-execution fields alone.
    pub open spec fn spec_from_selection(
        requested_mode: ExecutionMode,
        selected_path: ExecutionPath,
        used_path: Option<ExecutionPath>,
    ) -> GpuExecutionReport {
        let selected = selected_path == ExecutionPath::Gpu;
        let executed = used_path == Some(ExecutionPath::Gpu);
        let unavailable: Option<GpuAttachmentUnavailableReason> = if executed {
            Some(GpuAttachmentUnavailableReason::BackendReportUnavailable)
        } else if selected {
            Some(GpuAttachmentUnavailableReason::GpuDidNotExecute)
        } else {
            None
        };
        GpuExecutionReport {
            wgsl_evidence: if requested_mode.spec_requests_gpu() {
                GpuWgslEvidence::NotAttached(GpuEvidenceUnavailableReason::RuntimeDoesNotOwnWgslBackend)
            } else {
                GpuWgslEvidence::NotApplicable
            },
            residency_mapping: if selected {
                GpuResidencyMapping::NotAttached(GpuEvidenceUnavailableReason::RuntimeDoesNotOwnResidencyMapping)
            } else {
                GpuResidencyMapping::NotApplicable
            },
            transfer_evidence: match unavailable {
                Some(reason) => GpuTransferEvidence::NotAttached(reason),
                None => GpuTransferEvidence::NotApplicable,
            },
            readback_evidence: match unavailable {
                Some(reason) => GpuReadbackEvidence::NotAttached(reason),
                None => GpuReadbackEvidence::NotApplicable,
            },
            equivalence_status: if executed {
                GpuEquivalenceStatus::NotChecked(GpuEquivalenceNotCheckedReason::BackendReportUnavailable)
            } else {
                GpuEquivalenceStatus::NotApplicable
            },
        }
    }

    /// Returns the derived availability of Residency transfer evidence.
    pub fn transfer_availability(&self) -> (a: GpuAttachmentAvailability)
        ensures
            a == self.transfer_evidence.spec_availability(),
    {
        self.transfer_evidence.availability()
    }

    /// Returns the derived availability of Residency readback evidence.
    pub fn readback_availability(&self) -> (a: GpuAttachmentAvailability)
        ensures
            a == self.readback_evidence.spec_availability(),
    {
        self.readback_evidence.availability()
    }

    /// Builds GPU-adjacent evidence status from selected-execution policy
    /// fields. It derives only attachment applicability and never turns kernel
    /// eligibility into WGSL lowerability evidence.
    pub fn from_selection(
        requested_mode: ExecutionMode,
        selected_path: ExecutionPath,
        used_path: Option<ExecutionPath>,
    ) -> (r: GpuExecutionReport)
        ensures
            r == GpuExecutionReport::spec_from_selection(requested_mode, selected_path, used_path),
    {
        let selected = selected_path == ExecutionPath::Gpu;
        let executed = match used_path {
            Some(ExecutionPath::Gpu) => true,
            _ => false,
        };
        let wgsl_evidence = if requested_mode.requests_gpu() {
            GpuWgslEvidence::NotAttached(GpuEvidenceUnavailableReason::RuntimeDoesNotOwnWgslBackend)
        } else {
            GpuWgslEvidence::NotApplicable
        };
        let residency_mapping = if selected {
            GpuResidencyMapping::NotAttached(GpuEvidenceUnavailableReason::RuntimeDoesNotOwnResidencyMapping)
        } else {
            GpuResidencyMapping::NotApplicable
        };
        let unavailable = if executed {
            Some(GpuAttachmentUnavailableReason::BackendReportUnavailable)
        } else if selected {
            Some(GpuAttachmentUnavailableReason::GpuDidNotExecute)
        } else {
            None
        };
        let transfer_evidence = match unavailable {
            Some(reason) => GpuTransferEvidence::NotAttached(reason),
            None => GpuTransferEvidence::NotApplicable,
        };
        let readback_evidence = match unavailable {
            Some(reason) => GpuReadbackEvidence::NotAttached(reason),
            None => GpuReadbackEvidence::NotApplicable,
        };
        let equivalence_status = if executed {
            GpuEquivalenceStatus::NotChecked(GpuEquivalenceNotCheckedReason::BackendReportUnavailable)
        } else {
            GpuEquivalenceStatus::NotApplicable
        };
        GpuExecutionReport {
            wgsl_evidence,
            residency_mapping,
            transfer_evidence,
            readback_evidence,
            equivalence_status,
        }
    }
}

/// Selection alone never claims attached evidence: a report built from the
/// selected-execution fields never says WGSL lowered or mapping exists, never
/// marks transfer or readback evidence available, and never reports a passed
/// or failed check.
pub proof fn law_selection_never_claims_evidence(
    requested_mode: ExecutionMode,
    selected_path: ExecutionPath,
    used_path: Option<ExecutionPath>,
)
    ensures
        ({
            let r = GpuExecutionReport::spec_from_selection(requested_mode, selected_path, used_path);
            &&& !(r.wgsl_evidence is Lowerable) && !(r.wgsl_evidence is NotLowerable)
            &&& !(r.residency_mapping is Mappable) && !(r.residency_mapping is NotMappable)
            &&& r.transfer_evidence.spec_availability() != GpuAttachmentAvailability::Available
            &&& r.readback_evidence.spec_availability() != GpuAttachmentAvailability::Available
            &&& !(r.equivalence_status is Passed) && !(r.equivalence_status is Failed)
        }),
{
}

/// For every rule resolution, the evidence built from it is applicable
/// exactly where the GPU was involved: WGSL evidence when the GPU was
/// requested, mapping evidence when it was selected, and transfer and readback
/// evidence agree on their availability.
pub proof fn law_evidence_follows_selection(requested_mode: ExecutionMode, selected_path: ExecutionPath, used_path: Option<ExecutionPath>)
    ensures
        ({
            let r = GpuExecutionReport::spec_from_selection(requested_mode, selected_path, used_path);
            &&& (r.wgsl_evidence is NotApplicable) <==> !requested_mode.spec_requests_gpu()
            &&& (r.residency_mapping is NotApplicable) <==> selected_path != ExecutionPath::Gpu
            &&& r.transfer_evidence.spec_availability() == r.readback_evidence.spec_availability()
        }),
{
}

} // verus!
