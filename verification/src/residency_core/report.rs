//! Per-cycle transfer report and sync warnings.

use vstd::prelude::*;

use crate::residency_core::contract::ContractLint;
use crate::residency_core::freshness::Freshness;
use crate::residency_core::resource::ResourceId;

verus! {

/// Aggregate report covering the current cycle (since the last `take_report`).
#[derive(Clone, Debug)]
pub struct TransferReport {
    /// Bytes uploaded from CPU memory to backend storage.
    pub uploaded_bytes: u64,
    /// Bytes downloaded from backend storage to CPU memory.
    pub downloaded_bytes: u64,
    /// Number of readbacks requested from the graph.
    pub readbacks_requested: usize,
    /// Number of readbacks reported as completed.
    pub readbacks_completed: usize,
    /// Number of readbacks that forced a blocking stall.
    pub forced_stalls: usize,
    /// Number of view requests denied by policy.
    pub denied_views: usize,
    /// Number of stale views served by the backend.
    pub stale_views_served: usize,
    /// Number of explicit full-resource snapshots requested.
    pub full_snapshots: usize,
    /// Number of backend reallocations planned.
    pub reallocations: usize,
    /// Total bytes added by reallocations.
    pub bytes_reallocated: u64,
    /// Warnings emitted while registering, planning, or validating transfers.
    pub warnings: Vec<SyncWarning>,
}

/// Mathematical model of a [`TransferReport`]: unbounded counters and the
/// warning sequence.
pub struct ReportView {
    /// Bytes uploaded from CPU memory to backend storage.
    pub uploaded_bytes: int,
    /// Bytes downloaded from backend storage to CPU memory.
    pub downloaded_bytes: int,
    /// Number of readbacks requested from the graph.
    pub readbacks_requested: int,
    /// Number of readbacks reported as completed.
    pub readbacks_completed: int,
    /// Number of readbacks that forced a blocking stall.
    pub forced_stalls: int,
    /// Number of view requests denied by policy.
    pub denied_views: int,
    /// Number of stale views served by the backend.
    pub stale_views_served: int,
    /// Number of explicit full-resource snapshots requested.
    pub full_snapshots: int,
    /// Number of backend reallocations planned.
    pub reallocations: int,
    /// Total bytes added by reallocations.
    pub bytes_reallocated: int,
    /// Warnings in the order they were recorded.
    pub warnings: Seq<SyncWarning>,
}

impl ReportView {
    /// The report of a fresh cycle: all counters zero, no warnings.
    pub open spec fn empty() -> ReportView {
        ReportView {
            uploaded_bytes: 0,
            downloaded_bytes: 0,
            readbacks_requested: 0,
            readbacks_completed: 0,
            forced_stalls: 0,
            denied_views: 0,
            stale_views_served: 0,
            full_snapshots: 0,
            reallocations: 0,
            bytes_reallocated: 0,
            warnings: Seq::empty(),
        }
    }

    /// Whether every counter fits the machine integer that stores it.
    pub open spec fn fits(self) -> bool {
        &&& 0 <= self.uploaded_bytes <= u64::MAX
        &&& 0 <= self.downloaded_bytes <= u64::MAX
        &&& 0 <= self.readbacks_requested <= usize::MAX
        &&& 0 <= self.readbacks_completed <= usize::MAX
        &&& 0 <= self.forced_stalls <= usize::MAX
        &&& 0 <= self.denied_views <= usize::MAX
        &&& 0 <= self.stale_views_served <= usize::MAX
        &&& 0 <= self.full_snapshots <= usize::MAX
        &&& 0 <= self.reallocations <= usize::MAX
        &&& 0 <= self.bytes_reallocated <= u64::MAX
    }

    /// The report with one more warning.
    pub open spec fn warn(self, w: SyncWarning) -> ReportView {
        ReportView { warnings: self.warnings.push(w), ..self }
    }
}

impl View for TransferReport {
    type V = ReportView;

    open spec fn view(&self) -> ReportView {
        ReportView {
            uploaded_bytes: self.uploaded_bytes as int,
            downloaded_bytes: self.downloaded_bytes as int,
            readbacks_requested: self.readbacks_requested as int,
            readbacks_completed: self.readbacks_completed as int,
            forced_stalls: self.forced_stalls as int,
            denied_views: self.denied_views as int,
            stale_views_served: self.stale_views_served as int,
            full_snapshots: self.full_snapshots as int,
            reallocations: self.reallocations as int,
            bytes_reallocated: self.bytes_reallocated as int,
            warnings: self.warnings@,
        }
    }
}

impl Default for TransferReport {
    fn default() -> (r: TransferReport)
        ensures
            r@ == ReportView::empty(),
    {
        TransferReport {
            uploaded_bytes: 0,
            downloaded_bytes: 0,
            readbacks_requested: 0,
            readbacks_completed: 0,
            forced_stalls: 0,
            denied_views: 0,
            stale_views_served: 0,
            full_snapshots: 0,
            reallocations: 0,
            bytes_reallocated: 0,
            warnings: Vec::new(),
        }
    }
}

/// Soft signals the graph emits when something noteworthy happens during
/// planning or validation. Warnings never block execution; they accumulate in
/// the current report and (for planning-time warnings) the returned
/// `TransferPlan`.
#[derive(Clone, Debug, PartialEq, Eq)]
pub enum SyncWarning {
    /// A full-resource readback was requested outside an explicit snapshot path.
    FullReadbackRequested {
        /// Resource whose full contents were requested.
        resource: ResourceId,
        /// Caller-provided reason for the view.
        reason: String,
    },
    /// Exact freshness may require the backend to stall until a generation is ready.
    ExactFreshnessMayStall {
        /// Resource whose exact generation was requested.
        resource: ResourceId,
        /// Requested freshness constraint.
        requested: Freshness,
    },
    /// A readback request violated the resource readback policy.
    ReadbackPolicyViolation {
        /// Resource whose readback policy was violated.
        resource: ResourceId,
    },
    /// An upload request violated the resource upload policy.
    UploadPolicyViolation {
        /// Resource whose upload policy was violated.
        resource: ResourceId,
    },
    /// A mutation request conflicted with the resource authority policy.
    AuthorityConflict {
        /// Resource whose authority policy was violated.
        resource: ResourceId,
    },
    /// Planned bytes exceeded the configured transfer budget.
    TransferBudgetExceeded {
        /// Planned upload byte count.
        uploaded: u64,
        /// Planned download byte count.
        downloaded: u64,
    },
    /// A patch required backend storage growth.
    ResizeRequired {
        /// Resource requiring resize.
        resource: ResourceId,
        /// Current byte capacity.
        old_size: u64,
        /// Required byte capacity.
        required_size: u64,
    },
    /// Diagnostic attachment exceeded its declared maximum byte count.
    DiagnosticsTooLarge {
        /// Resource with oversized diagnostics.
        resource: ResourceId,
        /// Declared diagnostic byte count.
        bytes: u64,
        /// Maximum allowed diagnostic byte count.
        max_bytes: u64,
    },
    /// A legal but surprising contract combination was registered.
    ContractLint {
        /// Resource whose contract emitted the lint.
        resource: ResourceId,
        /// Contract lint emitted by validation.
        lint: ContractLint,
    },
    /// Event append dropped older records because the ring capacity was exceeded.
    EventRingOverflow {
        /// Event-ring resource that overflowed.
        resource: ResourceId,
        /// Number of event records dropped.
        dropped: u64,
    },
}

impl SyncWarning {
    /// A copy of this warning that is equal to it in every respect.
    pub fn clone_warning(&self) -> (w: SyncWarning)
        ensures
            w == *self,
    {
        match self {
            SyncWarning::FullReadbackRequested { resource, reason } => SyncWarning::FullReadbackRequested {
                resource: resource.clone_id(),
                reason: reason.clone(),
            },
            SyncWarning::ExactFreshnessMayStall { resource, requested } => SyncWarning::ExactFreshnessMayStall {
                resource: resource.clone_id(),
                requested: *requested,
            },
            SyncWarning::ReadbackPolicyViolation { resource } => SyncWarning::ReadbackPolicyViolation {
                resource: resource.clone_id(),
            },
            SyncWarning::UploadPolicyViolation { resource } => SyncWarning::UploadPolicyViolation {
                resource: resource.clone_id(),
            },
            SyncWarning::AuthorityConflict { resource } => SyncWarning::AuthorityConflict {
                resource: resource.clone_id(),
            },
            SyncWarning::TransferBudgetExceeded { uploaded, downloaded } => SyncWarning::TransferBudgetExceeded {
                uploaded: *uploaded,
                downloaded: *downloaded,
            },
            SyncWarning::ResizeRequired { resource, old_size, required_size } => SyncWarning::ResizeRequired {
                resource: resource.clone_id(),
                old_size: *old_size,
                required_size: *required_size,
            },
            SyncWarning::DiagnosticsTooLarge { resource, bytes, max_bytes } => SyncWarning::DiagnosticsTooLarge {
                resource: resource.clone_id(),
                bytes: *bytes,
                max_bytes: *max_bytes,
            },
            SyncWarning::ContractLint { resource, lint } => SyncWarning::ContractLint {
                resource: resource.clone_id(),
                lint: *lint,
            },
            SyncWarning::EventRingOverflow { resource, dropped } => SyncWarning::EventRingOverflow {
                resource: resource.clone_id(),
                dropped: *dropped,
            },
        }
    }
}

} // verus!
