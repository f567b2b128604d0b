use conflux_residency::residency_core::text::decimal_string;
use conflux_residency::residency_core::{
    ChunkId, ContractLint, F32Bits, Freshness, Generation, ResourceId, SummaryKind, SyncWarning,
    TransferReport, ViewResult, ViewSelector,
};
use conflux_residency::ResidencyReport;

fn report(uploaded: u64, downloaded: u64) -> TransferReport {
    TransferReport {
        uploaded_bytes: uploaded,
        downloaded_bytes: downloaded,
        readbacks_requested: 1,
        readbacks_completed: 1,
        forced_stalls: 0,
        denied_views: 0,
        stale_views_served: 0,
        full_snapshots: 0,
        reallocations: 1,
        bytes_reallocated: 12,
        warnings: Vec::new(),
    }
}

#[test]
fn decimal_rendering_matches_std() {
    for n in [0_u128, 7, 10, 99, 1234567890, u64::MAX as u128, u128::MAX] {
        assert_eq!(decimal_string(n), format!("{n}"));
    }
}

#[test]
fn small_values_render_like_their_display() {
    assert_eq!(Generation(12).to_string(), "gen12");
    assert_eq!(ChunkId::new(3, 4).to_string(), "(3,4)");
    assert_eq!(Freshness::AtLeastGeneration(Generation(5)).to_string(), ">= gen5");
    assert_eq!(Freshness::ExactGeneration(Generation(0)).to_string(), "== gen0");
    assert_eq!(Freshness::LatestAvailable.to_string(), "latest");
    assert_eq!(Freshness::Snapshot.to_string(), "snapshot");
    assert_eq!(SummaryKind::MinMaxF32.to_string(), "min_max_f32");
    assert_eq!(ResourceId::from("Cell.value").to_string(), "Cell.value");
    assert_eq!(
        ContractLint::CpuResidentSnapshotOnly.to_string(),
        "CPU-resident resource only exposes Snapshot views; routine reads are denied"
    );
}

#[test]
fn selectors_render_their_ranges() {
    assert_eq!(ViewSelector::Full.to_string(), "full");
    assert_eq!(ViewSelector::Range { offset: 4, len: 8 }.to_string(), "range[4..12]");
    assert_eq!(
        ViewSelector::Range { offset: u64::MAX, len: 1 }.to_string(),
        "range[18446744073709551615..18446744073709551616]"
    );
    assert_eq!(ViewSelector::Rows { start: 1, count: 2 }.to_string(), "rows[1..3]");
    assert_eq!(
        ViewSelector::Chunks { ids: vec![ChunkId::new(0, 0), ChunkId::new(1, 0)] }.to_string(),
        "chunks[2 items]"
    );
    assert_eq!(
        ViewSelector::Summary { kind: SummaryKind::SumU32 }.to_string(),
        "summary(sum_u32)"
    );
    assert_eq!(
        ViewSelector::EventCandidates { max_records: 3 }.to_string(),
        "event_candidates(3)"
    );
    assert_eq!(ViewSelector::Diagnostics.to_string(), "diagnostics");
}

#[test]
fn warnings_and_reports_render_their_numbers() {
    assert_eq!(
        SyncWarning::ResizeRequired {
            resource: ResourceId::from("x"),
            old_size: 4,
            required_size: 8,
        }
        .to_string(),
        "`x` requires resize from 4B to fit 8B"
    );
    assert_eq!(
        SyncWarning::TransferBudgetExceeded { uploaded: 10, downloaded: 2 }.to_string(),
        "transfer budget exceeded — uploaded 10B, downloaded 2B"
    );
    assert_eq!(
        SyncWarning::ContractLint {
            resource: ResourceId::from("x"),
            lint: ContractLint::GpuAuthoritativeWithCpuPatches,
        }
        .to_string(),
        "contract lint on `x`: GPU-authoritative resource also accepts CPU patches; CPU may overwrite GPU writes"
    );
    assert_eq!(
        report(16, 8).to_string(),
        "TransferReport: up=16B down=8B reads=1/1 stalls=0 full=0 resize=1(12B) warnings=0"
    );
    let result = ViewResult {
        resource: ResourceId::from("Cell.value"),
        selector: ViewSelector::Range { offset: 0, len: 8 },
        served_generation: Generation(2),
        bytes: vec![0; 8],
    };
    assert_eq!(result.to_string(), "Cell.value@gen2 range[0..8] (8B)");
    let residency = ResidencyReport {
        kernel: "combine".to_string(),
        output_resource: "Cell.value".to_string(),
        output: vec![F32Bits(0), F32Bits(1)],
        transfer: report(8, 8),
    };
    assert_eq!(
        residency.to_string(),
        "kernel `combine` -> resource `Cell.value` (2 elements)\n  TransferReport: up=8B down=8B reads=1/1 stalls=0 full=0 resize=1(12B) warnings=0\n"
    );
}
