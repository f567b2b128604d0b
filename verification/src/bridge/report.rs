//! The report of one sync cycle, embedding Residency's transfer report.

use vstd::prelude::*;
use vstd::string::StringExecFns;

use crate::residency_core::patch::F32Bits;
use crate::residency_core::report::{ReportView, TransferReport};
use crate::residency_core::text::{decimal, decimal_string};
use crate::runtime::gpu_report::{
    GpuExecutionReport, GpuReadbackEvidence, GpuReadbackSkipReason, GpuReadbackSummary,
    GpuResidencyMapping, GpuTransferEvidence, GpuTransferSkipReason, GpuTransferSummary,
};

verus! {

/// The outcome of syncing a kernel's output buffer through Residency.
///
/// It embeds Residency's [`TransferReport`] verbatim.
#[derive(Debug)]
pub struct ResidencyReport {
    /// The source kernel/rule name.
    pub kernel: String,
    /// The synced output resource id (`"table.column"`).
    pub output_resource: String,
    /// Output values read back through Residency, as `f32` bit patterns.
    pub output: Vec<F32Bits>,
    /// Residency's transfer report, owned and unmodified.
    pub transfer: TransferReport,
}

/// The transfer evidence of a transfer report: skipped when nothing moved,
/// nothing was reallocated and nothing was warned; reported otherwise.
pub open spec fn transfer_evidence_of(t: ReportView) -> GpuTransferEvidence {
    if t.uploaded_bytes == 0 && t.downloaded_bytes == 0 && t.reallocations == 0 && t.bytes_reallocated == 0
        && t.warnings.len() == 0 {
        GpuTransferEvidence::Skipped(GpuTransferSkipReason::NoTransferNeeded)
    } else {
        GpuTransferEvidence::Reported(
            GpuTransferSummary {
                uploaded_bytes: t.uploaded_bytes as u64,
                downloaded_bytes: t.downloaded_bytes as u64,
                reallocations: t.reallocations as usize,
                bytes_reallocated: t.bytes_reallocated as u64,
                warnings: t.warnings.len() as usize,
            },
        )
    }
}

/// The readback counters of a transfer report.
pub open spec fn readback_summary_of(t: ReportView) -> GpuReadbackSummary {
    GpuReadbackSummary {
        requested: t.readbacks_requested as usize,
        completed: t.readbacks_completed as usize,
        downloaded_bytes: t.downloaded_bytes as u64,
        forced_stalls: t.forced_stalls as usize,
        stale_views_served: t.stale_views_served as usize,
        full_snapshots: t.full_snapshots as usize,
        denied_views: t.denied_views as usize,
    }
}

/// The readback evidence of a transfer report: skipped only when every
/// readback counter is zero; read back when at least one readback was
/// requested and every requested one completed; incomplete otherwise.
pub open spec fn readback_evidence_of(t: ReportView) -> GpuReadbackEvidence {
    let s = readback_summary_of(t);
    if s.requested == 0 && s.completed == 0 && s.downloaded_bytes == 0 && s.forced_stalls == 0
        && s.stale_views_served == 0 && s.full_snapshots == 0 && s.denied_views == 0 {
        GpuReadbackEvidence::Skipped(GpuReadbackSkipReason::NotRequested)
    } else if s.requested > 0 && s.completed == s.requested {
        GpuReadbackEvidence::ReadBack(s)
    } else {
        GpuReadbackEvidence::Incomplete(s)
    }
}

impl ResidencyReport {
    /// Returns runtime-owned proof that this firing reached the Residency
    /// bridge with resource mapping in place.
    pub fn gpu_residency_mapping(&self) -> (m: GpuResidencyMapping)
        ensures
            m == GpuResidencyMapping::Mappable,
    {
        GpuResidencyMapping::Mappable
    }

    /// Converts the embedded transfer report into runtime-owned GPU transfer
    /// evidence: aggregate counters and status only.
    pub fn gpu_transfer_evidence(&self) -> (e: GpuTransferEvidence)
        ensures
            e == transfer_evidence_of(self.transfer@),
    {
        let t = &self.transfer;
        if t.uploaded_bytes == 0 && t.downloaded_bytes == 0 && t.reallocations == 0 && t.bytes_reallocated == 0
            && t.warnings.len() == 0 {
            GpuTransferEvidence::Skipped(GpuTransferSkipReason::NoTransferNeeded)
        } else {
            GpuTransferEvidence::Reported(
                GpuTransferSummary {
                    uploaded_bytes: t.uploaded_bytes,
                    downloaded_bytes: t.downloaded_bytes,
                    reallocations: t.reallocations,
                    bytes_reallocated: t.bytes_reallocated,
                    warnings: t.warnings.len(),
                },
            )
        }
    }

    /// Converts the embedded transfer report's readback counters into
    /// runtime-owned GPU readback evidence.
    ///
    /// Skipped only when every readback counter is zero (requested,
    /// completed, downloaded bytes, forced stalls, stale views served, full
    /// snapshots, denied views); read back when at least one readback was
    /// requested and every requested readback completed; incomplete for all
    /// other nonzero evidence.
    pub fn gpu_readback_evidence(&self) -> (e: GpuReadbackEvidence)
        ensures
            e == readback_evidence_of(self.transfer@),
    {
        let t = &self.transfer;
        let summary = GpuReadbackSummary {
            requested: t.readbacks_requested,
            completed: t.readbacks_completed,
            downloaded_bytes: t.downloaded_bytes,
            forced_stalls: t.forced_stalls,
            stale_views_served: t.stale_views_served,
            full_snapshots: t.full_snapshots,
            denied_views: t.denied_views,
        };
        if summary.requested == 0 && summary.completed == 0 && summary.downloaded_bytes == 0
            && summary.forced_stalls == 0 && summary.stale_views_served == 0 && summary.full_snapshots == 0
            && summary.denied_views == 0 {
            GpuReadbackEvidence::Skipped(GpuReadbackSkipReason::NotRequested)
        } else if summary.requested > 0 && summary.completed == summary.requested {
            GpuReadbackEvidence::ReadBack(summary)
        } else {
            GpuReadbackEvidence::Incomplete(summary)
        }
    }

    /// Two lines: the kernel, its output resource and the number of output
    /// elements, then the embedded transfer report's summary, indented.
    pub open spec fn text(&self) -> Seq<char> {
        "kernel `"@ + self.kernel@ + "` -> resource `"@ + self.output_resource@ + "` ("@ + decimal(self.output@.len())
            + " elements)\n  "@ + self.transfer.text() + "\n"@
    }

    /// Renders the report as two lines.
    pub fn to_string(&self) -> (s: String)
        ensures
            s@ == self.text(),
    {
        let n = self.output.len();
        let s = String::from_str("kernel `").concat(self.kernel.as_str()).concat("` -> resource `");
        let s = s.concat(self.output_resource.as_str()).concat("` (").concat(decimal_string(n as u128).as_str());
        let s = s.concat(" elements)\n  ").concat(self.transfer.to_string().as_str()).concat("\n");
        s
    }

    /// Attaches this report's plain evidence to a runtime GPU report: the
    /// mapping, transfer and readback evidence are replaced, the rest is kept.
    pub fn attach_to_gpu_report(&self, gpu: &mut GpuExecutionReport)
        ensures
            *final(gpu) == (GpuExecutionReport {
                residency_mapping: GpuResidencyMapping::Mappable,
                transfer_evidence: transfer_evidence_of(self.transfer@),
                readback_evidence: readback_evidence_of(self.transfer@),
                ..*old(gpu)
            }),
    {
        gpu.residency_mapping = self.gpu_residency_mapping();
        gpu.transfer_evidence = self.gpu_transfer_evidence();
        gpu.readback_evidence = self.gpu_readback_evidence();
    }
}

/// Transfer and readback evidence never hide activity: a transfer report is
/// "no transfer needed" only when it moved, reallocated and warned nothing,
/// and "not requested" only when every readback counter is zero; any attached
/// evidence is available.
pub proof fn law_evidence_never_hides_activity(t: ReportView)
    requires
        t.fits(),
    ensures
        transfer_evidence_of(t) is Skipped <==> (t.uploaded_bytes == 0 && t.downloaded_bytes == 0
            && t.reallocations == 0 && t.bytes_reallocated == 0 && t.warnings.len() == 0),
        readback_evidence_of(t) is Skipped <==> (t.readbacks_requested == 0 && t.readbacks_completed == 0
            && t.downloaded_bytes == 0 && t.forced_stalls == 0 && t.stale_views_served == 0
            && t.full_snapshots == 0 && t.denied_views == 0),
        readback_evidence_of(t) is ReadBack ==> t.readbacks_requested > 0 && t.readbacks_completed
            == t.readbacks_requested,
        transfer_evidence_of(t).spec_availability() == crate::runtime::gpu_report::GpuAttachmentAvailability::Available,
        readback_evidence_of(t).spec_availability() == crate::runtime::gpu_report::GpuAttachmentAvailability::Available,
{
}

} // verus!
