//! Errors of one bridge sync cycle, and the GPU evidence each one amounts to.

use vstd::prelude::*;

use crate::residency_core::graph::{RegisterError, SubmitPatchError, ViewRequestError};
use crate::residency_core::readback::ReadbackError;
use crate::residency_core::view::ViewDecodeError;
use crate::runtime::gpu_report::{
    GpuAttachmentUnavailableReason, GpuReadbackEvidence, GpuReadbackFailureReason,
    GpuTransferEvidence, GpuTransferFailureReason,
};
use crate::runtime::selection::FallbackReason;

verus! {

/// Errors raised while driving a Residency sync cycle. `B` is the backend's
/// error type.
#[derive(Debug)]
pub enum BridgeError<B> {
    /// Resource registration failed before backend allocation.
    Register(RegisterError),
    /// CPU patch validation or queuing failed.
    Patch(SubmitPatchError),
    /// Output view request failed before backend readback.
    View(ViewRequestError),
    /// Readback bytes could not be decoded as the expected output type.
    Decode(ViewDecodeError),
    /// Readback polling completed with an explicit readback failure.
    ReadbackFailed(ReadbackError),
    /// Backend allocation failed before transfer submission.
    BackendAllocate(B),
    /// Backend transfer submission failed.
    BackendTransfer(B),
    /// Backend readback request failed.
    BackendReadbackRequest(B),
    /// Backend readback polling failed.
    BackendReadbackPoll(B),
    /// Backend readback polling stayed pending beyond the bridge's bounded
    /// poll budget.
    ReadbackPendingLimitExceeded {
        /// Number of pending polls observed before the bridge stopped polling.
        polls: usize,
    },
    /// A byte count the backend reported does not fit the transfer report's
    /// counter on top of what it already recorded.
    ReportCounterOverflow {
        /// Bytes the report's counter had recorded.
        recorded: u64,
        /// Bytes the backend reported.
        reported: u64,
    },
}

/// The stage of a sync cycle an error comes from.
pub enum BridgeStage {
    /// Mapping the resource: registration or backend allocation.
    Mapping,
    /// Moving the data: patch submission or transfer execution.
    Transfer,
    /// Asking for the readback: the view request or the backend request.
    ReadbackRequest,
    /// Completing the readback: polling, a failed readback, a poll budget
    /// exceeded.
    ReadbackCompletion,
    /// Decoding the read bytes.
    Decode,
}

impl<B> BridgeError<B> {
    /// The stage of the sync cycle the error comes from.
    pub open spec fn stage(&self) -> BridgeStage {
        match self {
            BridgeError::Register(_) | BridgeError::BackendAllocate(_) => BridgeStage::Mapping,
            BridgeError::Patch(_) | BridgeError::BackendTransfer(_) | BridgeError::ReportCounterOverflow { .. } => {
                BridgeStage::Transfer
            },
            BridgeError::View(_) | BridgeError::BackendReadbackRequest(_) => BridgeStage::ReadbackRequest,
            BridgeError::Decode(_) => BridgeStage::Decode,
            BridgeError::ReadbackFailed(_)
            | BridgeError::BackendReadbackPoll(_)
            | BridgeError::ReadbackPendingLimitExceeded { .. } => BridgeStage::ReadbackCompletion,
        }
    }

    /// Converts a bridge failure into the typed GPU fallback/refusal reason:
    /// mapping failures make the residency mapping unavailable, transfer
    /// failures fail the transfer, readback requests make the readback
    /// unavailable, and everything after fails the readback.
    pub fn gpu_execution_reason(&self) -> (r: FallbackReason)
        ensures
            r == (match self.stage() {
                BridgeStage::Mapping => FallbackReason::GpuResidencyMappingUnavailable,
                BridgeStage::Transfer => FallbackReason::GpuTransferFailed,
                BridgeStage::ReadbackRequest => FallbackReason::GpuReadbackUnavailable,
                BridgeStage::ReadbackCompletion | BridgeStage::Decode => FallbackReason::GpuReadbackFailed,
            }),
    {
        match self {
            BridgeError::Register(_) | BridgeError::BackendAllocate(_) => {
                FallbackReason::GpuResidencyMappingUnavailable
            },
            BridgeError::Patch(_) | BridgeError::BackendTransfer(_) | BridgeError::ReportCounterOverflow { .. } => {
                FallbackReason::GpuTransferFailed
            },
            BridgeError::View(_) | BridgeError::BackendReadbackRequest(_) => {
                FallbackReason::GpuReadbackUnavailable
            },
            BridgeError::ReadbackFailed(_)
            | BridgeError::Decode(_)
            | BridgeError::BackendReadbackPoll(_)
            | BridgeError::ReadbackPendingLimitExceeded { .. } => FallbackReason::GpuReadbackFailed,
        }
    }

    /// Converts a bridge failure into runtime-owned transfer evidence: a
    /// failed mapping or transfer is a failed transfer, and an error after the
    /// transfer leaves the transfer report unattached.
    pub fn gpu_transfer_evidence(&self) -> (r: GpuTransferEvidence)
        ensures
            r == (match self.stage() {
                BridgeStage::Mapping => GpuTransferEvidence::Failed(GpuTransferFailureReason::MappingUnavailable),
                BridgeStage::Transfer => GpuTransferEvidence::Failed(GpuTransferFailureReason::TransferFailed),
                _ => GpuTransferEvidence::NotAttached(GpuAttachmentUnavailableReason::BackendReportUnavailable),
            }),
    {
        match self {
            BridgeError::Register(_) | BridgeError::BackendAllocate(_) => {
                GpuTransferEvidence::Failed(GpuTransferFailureReason::MappingUnavailable)
            },
            BridgeError::Patch(_) | BridgeError::BackendTransfer(_) | BridgeError::ReportCounterOverflow { .. } => {
                GpuTransferEvidence::Failed(GpuTransferFailureReason::TransferFailed)
            },
            BridgeError::View(_)
            | BridgeError::ReadbackFailed(_)
            | BridgeError::Decode(_)
            | BridgeError::BackendReadbackRequest(_)
            | BridgeError::BackendReadbackPoll(_)
            | BridgeError::ReadbackPendingLimitExceeded { .. } => GpuTransferEvidence::NotAttached(
                GpuAttachmentUnavailableReason::BackendReportUnavailable,
            ),
        }
    }

    /// Converts a bridge failure into runtime-owned readback evidence: the
    /// readback failed, as unavailable before it completed, as failed while
    /// completing, or as undecodable.
    pub fn gpu_readback_evidence(&self) -> (r: GpuReadbackEvidence)
        ensures
            r == (match self.stage() {
                BridgeStage::ReadbackCompletion => GpuReadbackEvidence::Failed(GpuReadbackFailureReason::ReadbackFailed),
                BridgeStage::Decode => GpuReadbackEvidence::Failed(GpuReadbackFailureReason::DecodeFailed),
                _ => GpuReadbackEvidence::Failed(GpuReadbackFailureReason::ReadbackUnavailable),
            }),
    {
        match self {
            BridgeError::View(_) | BridgeError::BackendReadbackRequest(_) => {
                GpuReadbackEvidence::Failed(GpuReadbackFailureReason::ReadbackUnavailable)
            },
            BridgeError::ReadbackFailed(_)
            | BridgeError::BackendReadbackPoll(_)
            | BridgeError::ReadbackPendingLimitExceeded { .. } => {
                GpuReadbackEvidence::Failed(GpuReadbackFailureReason::ReadbackFailed)
            },
            BridgeError::Decode(_) => GpuReadbackEvidence::Failed(GpuReadbackFailureReason::DecodeFailed),
            BridgeError::Register(_)
            | BridgeError::Patch(_)
            | BridgeError::BackendAllocate(_)
            | BridgeError::BackendTransfer(_)
            | BridgeError::ReportCounterOverflow { .. } => {
                GpuReadbackEvidence::Failed(GpuReadbackFailureReason::ReadbackUnavailable)
            },
        }
    }
}

/// Every bridge failure is a GPU reason, and its readback evidence is always
/// an attached failure.
pub proof fn law_bridge_errors_are_gpu_failures<B>(e: BridgeError<B>)
    ensures
        (match e.stage() {
            BridgeStage::Mapping => FallbackReason::GpuResidencyMappingUnavailable,
            BridgeStage::Transfer => FallbackReason::GpuTransferFailed,
            BridgeStage::ReadbackRequest => FallbackReason::GpuReadbackUnavailable,
            BridgeStage::ReadbackCompletion | BridgeStage::Decode => FallbackReason::GpuReadbackFailed,
        }).spec_is_gpu_reason(),
        (match e.stage() {
            BridgeStage::ReadbackCompletion => GpuReadbackEvidence::Failed(GpuReadbackFailureReason::ReadbackFailed),
            BridgeStage::Decode => GpuReadbackEvidence::Failed(GpuReadbackFailureReason::DecodeFailed),
            _ => GpuReadbackEvidence::Failed(GpuReadbackFailureReason::ReadbackUnavailable),
        }) is Failed,
{
}

} // verus!
