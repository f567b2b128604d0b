//! Human-readable renderings of generations, selectors, warnings and reports.

use vstd::prelude::*;
use vstd::string::{StrSliceExecFns, StringExecFns};

use crate::residency_core::contract::ContractLint;
use crate::residency_core::freshness::Freshness;
use crate::residency_core::generation::Generation;
use crate::residency_core::report::{SyncWarning, TransferReport};
use crate::residency_core::resource::{ChunkId, ResourceId};
use crate::residency_core::summary::SummaryKind;
use crate::residency_core::view::{ViewResult, ViewSelector};

verus! {

/// The ten decimal digits, in order.
pub open spec fn digit_chars() -> Seq<char> {
    seq!['0', '1', '2', '3', '4', '5', '6', '7', '8', '9']
}

/// The decimal rendering of `n`, most significant digit first, without
/// leading zeros.
pub open spec fn decimal(n: nat) -> Seq<char>
    decreases n,
{
    if n < 10 {
        seq![digit_chars()[n as int]]
    } else {
        decimal(n / 10).push(digit_chars()[(n % 10) as int])
    }
}

/// The decimal rendering of `n`.
pub fn decimal_string(n: u128) -> (s: String)
    ensures
        s@ == decimal(n as nat),
    decreases n,
{
    let digits = "0123456789";
    proof {
        reveal_strlit("0123456789");
        assert(digits@ == digit_chars());
    }
    let last = (n % 10) as usize;
    let d = digits.substring_ascii(last, last + 1);
    if n < 10 {
        let s = String::from_str(d);
        proof {
            assert(s@ =~= decimal(n as nat));
        }
        s
    } else {
        let s = decimal_string(n / 10).concat(d);
        proof {
            assert(s@ =~= decimal(n as nat));
        }
        s
    }
}

impl Generation {
    /// `gen<n>`.
    pub open spec fn text(self) -> Seq<char> {
        "gen"@ + decimal(self.0 as nat)
    }

    /// Renders the generation as `gen<n>`.
    pub fn to_string(&self) -> (s: String)
        ensures
            s@ == self.text(),
    {
        String::from_str("gen").concat(decimal_string(self.0 as u128).as_str())
    }
}

impl ResourceId {
    /// Renders the identifier itself.
    pub fn to_string(&self) -> (s: String)
        ensures
            s@ == self@,
    {
        String::from_str(self.as_str())
    }
}

impl ChunkId {
    /// `(x,y)`.
    pub open spec fn text(self) -> Seq<char> {
        "("@ + decimal(self.x as nat) + ","@ + decimal(self.y as nat) + ")"@
    }

    /// Renders the chunk coordinate as `(x,y)`.
    pub fn to_string(&self) -> (s: String)
        ensures
            s@ == self.text(),
    {
        String::from_str("(").concat(decimal_string(self.x as u128).as_str()).concat(",").concat(
            decimal_string(self.y as u128).as_str(),
        ).concat(")")
    }
}

impl Freshness {
    /// `latest`, `>= gen<n>`, `== gen<n>` or `snapshot`.
    pub open spec fn text(self) -> Seq<char> {
        match self {
            Freshness::LatestAvailable => "latest"@,
            Freshness::AtLeastGeneration(g) => ">= "@ + g.text(),
            Freshness::ExactGeneration(g) => "== "@ + g.text(),
            Freshness::Snapshot => "snapshot"@,
        }
    }

    /// Renders the freshness requirement.
    pub fn to_string(&self) -> (s: String)
        ensures
            s@ == self.text(),
    {
        match self {
            Freshness::LatestAvailable => String::from_str("latest"),
            Freshness::AtLeastGeneration(g) => String::from_str(">= ").concat(g.to_string().as_str()),
            Freshness::ExactGeneration(g) => String::from_str("== ").concat(g.to_string().as_str()),
            Freshness::Snapshot => String::from_str("snapshot"),
        }
    }
}

impl SummaryKind {
    /// `count_nonzero`, `min_max_f32` or `sum_u32`.
    pub open spec fn text(self) -> Seq<char> {
        match self {
            SummaryKind::CountNonzero => "count_nonzero"@,
            SummaryKind::MinMaxF32 => "min_max_f32"@,
            SummaryKind::SumU32 => "sum_u32"@,
        }
    }

    /// Renders the summary kind.
    pub fn to_string(&self) -> (s: String)
        ensures
            s@ == self.text(),
    {
        match self {
            SummaryKind::CountNonzero => String::from_str("count_nonzero"),
            SummaryKind::MinMaxF32 => String::from_str("min_max_f32"),
            SummaryKind::SumU32 => String::from_str("sum_u32"),
        }
    }
}

impl ContractLint {
    /// The lint's explanation.
    pub open spec fn text(self) -> Seq<char> {
        match self {
            ContractLint::GpuAuthoritativeWithCpuPatches => "GPU-authoritative resource also accepts CPU patches; CPU may overwrite GPU writes"@,
            ContractLint::CpuResidentSnapshotOnly => "CPU-resident resource only exposes Snapshot views; routine reads are denied"@,
        }
    }

    /// Renders the lint's explanation.
    pub fn to_string(&self) -> (s: String)
        ensures
            s@ == self.text(),
    {
        match self {
            ContractLint::GpuAuthoritativeWithCpuPatches => String::from_str(
                "GPU-authoritative resource also accepts CPU patches; CPU may overwrite GPU writes",
            ),
            ContractLint::CpuResidentSnapshotOnly => String::from_str(
                "CPU-resident resource only exposes Snapshot views; routine reads are denied",
            ),
        }
    }
}

impl ViewSelector {
    /// `full`, `range[a..b]`, `diagnostics`, `rows[a..b]`,
    /// `chunks[<n> items]`, `summary(<kind>)` or `event_candidates(<n>)`.
    pub open spec fn text(self) -> Seq<char> {
        match self {
            ViewSelector::Full => "full"@,
            ViewSelector::Range { offset, len } => "range["@ + decimal(offset as nat) + ".."@ + decimal(
                (offset + len) as nat,
            ) + "]"@,
            ViewSelector::Diagnostics => "diagnostics"@,
            ViewSelector::Rows { start, count } => "rows["@ + decimal(start as nat) + ".."@ + decimal(
                (start + count) as nat,
            ) + "]"@,
            ViewSelector::Chunks { ids } => "chunks["@ + decimal(ids@.len()) + " items]"@,
            ViewSelector::Summary { kind } => "summary("@ + kind.text() + ")"@,
            ViewSelector::EventCandidates { max_records } => "event_candidates("@ + decimal(max_records as nat)
                + ")"@,
        }
    }

    /// Renders the selector.
    pub fn to_string(&self) -> (s: String)
        ensures
            s@ == self.text(),
    {
        match self {
            ViewSelector::Full => String::from_str("full"),
            ViewSelector::Range { offset, len } => String::from_str("range[").concat(
                decimal_string(*offset as u128).as_str(),
            ).concat("..").concat(decimal_string(*offset as u128 + *len as u128).as_str()).concat("]"),
            ViewSelector::Diagnostics => String::from_str("diagnostics"),
            ViewSelector::Rows { start, count } => String::from_str("rows[").concat(
                decimal_string(*start as u128).as_str(),
            ).concat("..").concat(decimal_string(*start as u128 + *count as u128).as_str()).concat("]"),
            ViewSelector::Chunks { ids } => String::from_str("chunks[").concat(
                decimal_string(ids.len() as u128).as_str(),
            ).concat(" items]"),
            ViewSelector::Summary { kind } => String::from_str("summary(").concat(kind.to_string().as_str()).concat(
                ")",
            ),
            ViewSelector::EventCandidates { max_records } => String::from_str("event_candidates(").concat(
                decimal_string(*max_records as u128).as_str(),
            ).concat(")"),
        }
    }
}

impl ViewResult {
    /// `<resource>@gen<n> <selector> (<len>B)`.
    pub open spec fn text(self) -> Seq<char> {
        self.resource@ + "@"@ + self.served_generation.text() + " "@ + self.selector.text() + " ("@ + decimal(
            self.bytes@.len(),
        ) + "B)"@
    }

    /// Renders the result's provenance and size.
    pub fn to_string(&self) -> (s: String)
        ensures
            s@ == self.text(),
    {
        self.resource.to_string().concat("@").concat(self.served_generation.to_string().as_str()).concat(" ").concat(
            self.selector.to_string().as_str(),
        ).concat(" (").concat(decimal_string(self.bytes.len() as u128).as_str()).concat("B)")
    }
}

impl SyncWarning {
    /// The warning's message.
    pub open spec fn text(self) -> Seq<char> {
        match self {
            SyncWarning::FullReadbackRequested { resource, reason } => "full readback requested on `"@ + resource@
                + "` ("@ + reason@ + ") — likely a hidden stall"@,
            SyncWarning::ExactFreshnessMayStall { resource, requested } => "exact-freshness on `"@ + resource@
                + "` ("@ + requested.text() + ") may force a stall"@,
            SyncWarning::ReadbackPolicyViolation { resource } => "readback policy violated on `"@ + resource@ + "`"@,
            SyncWarning::UploadPolicyViolation { resource } => "upload policy violated on `"@ + resource@ + "`"@,
            SyncWarning::AuthorityConflict { resource } => "authority conflict on `"@ + resource@
                + "` — non-authoritative side attempted to mutate"@,
            SyncWarning::TransferBudgetExceeded { uploaded, downloaded } => "transfer budget exceeded — uploaded "@
                + decimal(uploaded as nat) + "B, downloaded "@ + decimal(downloaded as nat) + "B"@,
            SyncWarning::ResizeRequired { resource, old_size, required_size } => "`"@ + resource@
                + "` requires resize from "@ + decimal(old_size as nat) + "B to fit "@ + decimal(required_size as nat)
                + "B"@,
            SyncWarning::DiagnosticsTooLarge { resource, bytes, max_bytes } => "diagnostics on `"@ + resource@
                + "` declare "@ + decimal(bytes as nat) + "B but max_bytes is "@ + decimal(max_bytes as nat),
            SyncWarning::ContractLint { resource, lint } => "contract lint on `"@ + resource@ + "`: "@ + lint.text(),
            SyncWarning::EventRingOverflow { resource, dropped } => "event ring `"@ + resource@
                + "` overflowed — dropped "@ + decimal(dropped as nat) + " oldest record(s)"@,
        }
    }

    /// Renders the warning's message.
    pub fn to_string(&self) -> (s: String)
        ensures
            s@ == self.text(),
    {
        match self {
            SyncWarning::FullReadbackRequested { resource, reason } => String::from_str(
                "full readback requested on `",
            ).concat(resource.as_str()).concat("` (").concat(reason.as_str()).concat(") — likely a hidden stall"),
            SyncWarning::ExactFreshnessMayStall { resource, requested } => String::from_str(
                "exact-freshness on `",
            ).concat(resource.as_str()).concat("` (").concat(requested.to_string().as_str()).concat(
                ") may force a stall",
            ),
            SyncWarning::ReadbackPolicyViolation { resource } => String::from_str(
                "readback policy violated on `",
            ).concat(resource.as_str()).concat("`"),
            SyncWarning::UploadPolicyViolation { resource } => String::from_str("upload policy violated on `").concat(
                resource.as_str(),
            ).concat("`"),
            SyncWarning::AuthorityConflict { resource } => String::from_str("authority conflict on `").concat(
                resource.as_str(),
            ).concat("` — non-authoritative side attempted to mutate"),
            SyncWarning::TransferBudgetExceeded { uploaded, downloaded } => String::from_str(
                "transfer budget exceeded — uploaded ",
            ).concat(decimal_string(*uploaded as u128).as_str()).concat("B, downloaded ").concat(
                decimal_string(*downloaded as u128).as_str(),
            ).concat("B"),
            SyncWarning::ResizeRequired { resource, old_size, required_size } => String::from_str("`").concat(
                resource.as_str(),
            ).concat("` requires resize from ").concat(decimal_string(*old_size as u128).as_str()).concat(
                "B to fit ",
            ).concat(decimal_string(*required_size as u128).as_str()).concat("B"),
            SyncWarning::DiagnosticsTooLarge { resource, bytes, max_bytes } => String::from_str(
                "diagnostics on `",
            ).concat(resource.as_str()).concat("` declare ").concat(decimal_string(*bytes as u128).as_str()).concat(
                "B but max_bytes is ",
            ).concat(decimal_string(*max_bytes as u128).as_str()),
            SyncWarning::ContractLint { resource, lint } => String::from_str("contract lint on `").concat(
                resource.as_str(),
            ).concat("`: ").concat(lint.to_string().as_str()),
            SyncWarning::EventRingOverflow { resource, dropped } => String::from_str("event ring `").concat(
                resource.as_str(),
            ).concat("` overflowed — dropped ").concat(decimal_string(*dropped as u128).as_str()).concat(
                " oldest record(s)",
            ),
        }
    }
}

impl TransferReport {
    /// The report's one-line summary.
    pub open spec fn text(&self) -> Seq<char> {
        "TransferReport: up="@ + decimal(self.uploaded_bytes as nat) + "B down="@ + decimal(
            self.downloaded_bytes as nat,
        ) + "B reads="@ + decimal(self.readbacks_requested as nat) + "/"@ + decimal(
            self.readbacks_completed as nat,
        ) + " stalls="@ + decimal(self.forced_stalls as nat) + " full="@ + decimal(self.full_snapshots as nat)
            + " resize="@ + decimal(self.reallocations as nat) + "("@ + decimal(self.bytes_reallocated as nat)
            + "B) warnings="@ + decimal(self.warnings@.len())
    }

    /// Renders the report's one-line summary.
    pub fn to_string(&self) -> (s: String)
        ensures
            s@ == self.text(),
    {
        let warnings = self.warnings.len();
        let s = String::from_str("TransferReport: up=").concat(decimal_string(self.uploaded_bytes as u128).as_str());
        let s = s.concat("B down=").concat(decimal_string(self.downloaded_bytes as u128).as_str());
        let s = s.concat("B reads=").concat(decimal_string(self.readbacks_requested as u128).as_str());
        let s = s.concat("/").concat(decimal_string(self.readbacks_completed as u128).as_str());
        let s = s.concat(" stalls=").concat(decimal_string(self.forced_stalls as u128).as_str());
        let s = s.concat(" full=").concat(decimal_string(self.full_snapshots as u128).as_str());
        let s = s.concat(" resize=").concat(decimal_string(self.reallocations as u128).as_str());
        let s = s.concat("(").concat(decimal_string(self.bytes_reallocated as u128).as_str());
        let s = s.concat("B) warnings=").concat(decimal_string(warnings as u128).as_str());
        s
    }
}

} // verus!
