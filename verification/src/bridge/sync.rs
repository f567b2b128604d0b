//! One Residency sync cycle for a kernel's output: declare, upload, plan,
//! execute, read back, report.

use vstd::prelude::*;

use crate::bridge::contracts::cpu_kernel_contract;
use crate::bridge::error::BridgeError;
use crate::bridge::map::{
    column_desc_matches, column_id, column_resource_desc, output_view_request, spec_element_type, Kernel,
};
use crate::bridge::report::ResidencyReport;
use crate::residency_core::contract::{Authority, ReadbackPolicy, Residency, ResizePolicy, SyncContract, UploadPolicy};
use crate::residency_core::freshness::Freshness;
use crate::residency_core::graph::{upload_bytes, GraphView};
use crate::residency_core::graph::{RegisterError, SubmitPatchError, SyncGraph, ViewRequestError};
use crate::residency_core::plan::PlannedReadback;
use crate::residency_core::view::{ViewDecodeError, ViewRequest, ViewResult, ViewSelector};
use crate::residency_core::laws::law_register_fresh_or_duplicate;
use crate::residency_core::backend::ResidencyBackend;
use crate::residency_core::bytes::encodes_words;
use crate::residency_core::patch::{encodes, is_encoding, F32Bits};
use crate::residency_core::readback::ReadbackStatus;
use crate::residency_core::report::ReportView;
use crate::residency_core::generation::Generation;
use crate::residency_core::resource::{ElementType, ResourceDesc, ResourceId};

verus! {

/// How many times a cycle polls a pending readback before giving up.
pub const MAX_READBACK_POLLS: usize = 1024;

/// The contract the cycle registers a kernel's output under.
pub open spec fn spec_cpu_kernel_contract() -> SyncContract {
    SyncContract {
        residency: Residency::Cpu,
        authority: Authority::CpuAuthoritative,
        upload: UploadPolicy::PatchesAllowed,
        readback: ReadbackPolicy::ViewsAllowed,
        resize: ResizePolicy::Fixed,
    }
}

/// The graph after a cycle registered `d`, patched in `bytes` and planned.
pub open spec fn plan_stage(g: GraphView, d: ResourceDesc, bytes: Seq<u8>) -> GraphView {
    g.register_outcome(d).0.typed_patch_outcome(d.id, ElementType::F32, 0, bytes).0.planned()
}

/// The graph a cycle asks its view of: after registering `d`, patching in
/// `bytes`, planning, and noting the backend's submission (which leaves the
/// report at `report`).
pub open spec fn view_stage(g: GraphView, d: ResourceDesc, bytes: Seq<u8>, report: ReportView) -> GraphView {
    GraphView {
        report,
        ..g.register_outcome(d).0.typed_patch_outcome(d.id, ElementType::F32, 0, bytes).0.planned()
    }
}

/// The transfer report of a cycle that registered `d`, patched in `pbytes`,
/// planned, noted a submission of `up` uploaded and `down` downloaded bytes,
/// planned the view `req`, and completed a readback of `bytes`.
pub open spec fn cycle_transfer(
    g: GraphView,
    d: ResourceDesc,
    pbytes: Seq<u8>,
    up: int,
    down: int,
    req: ViewRequest,
    bytes: Seq<u8>,
) -> ReportView {
    let g2 = g.register_outcome(d).0.typed_patch_outcome(d.id, ElementType::F32, 0, pbytes).0.planned();
    let noted = ReportView {
        uploaded_bytes: g2.report.uploaded_bytes + up,
        downloaded_bytes: g2.report.downloaded_bytes + down,
        ..g2.report
    };
    let viewed = view_stage(g, d, pbytes, noted).view_outcome(req).0.report;
    ReportView {
        readbacks_completed: viewed.readbacks_completed + 1,
        downloaded_bytes: viewed.downloaded_bytes + bytes.len(),
        ..viewed
    }
}

/// Runs one Residency sync cycle for a kernel's output on `backend`:
/// declares the output resource, uploads the CPU-computed values as a patch,
/// executes the transfer plan, reads the values back through a view (polling
/// at most [`MAX_READBACK_POLLS`] times), and returns the read-back values
/// with the embedded transfer report.
///
/// Fails when resource registration, backend allocation, patch submission,
/// transfer execution, view planning, readback polling, or readback byte
/// decoding fails, and when the byte counts the backend reports overflow the
/// transfer report's counters.
#[verifier::rlimit(80)]
#[verifier::spinoff_prover]
pub fn sync_kernel_output<B: ResidencyBackend>(
    kernel: &Kernel,
    output_values: &[F32Bits],
    graph: &mut SyncGraph,
    backend: &mut B,
) -> (r: Result<ResidencyReport, BridgeError<B::Error>>)
    requires
        old(graph)@.wf(),
        upload_bytes(old(graph)@.pending_uploads) + 4 * output_values@.len() <= u64::MAX,
        old(graph)@.report.readbacks_requested < usize::MAX,
        old(graph)@.report.readbacks_completed < usize::MAX,
    ensures
        final(graph)@.wf(),
        r matches Ok(rep) ==> {
            &&& rep.kernel@ == kernel.name@
            &&& rep.output_resource@ == column_id(kernel.table_name@, kernel.output.name@)
            &&& final(graph)@.report == ReportView::empty()
        },
        r matches Err(BridgeError::ReadbackPendingLimitExceeded { polls }) ==> polls == MAX_READBACK_POLLS,
        exists|d: ResourceDesc|
            #[trigger] column_desc_matches(d, *kernel, kernel.output, spec_cpu_kernel_contract()) && match old(
                graph,
            )@.register_outcome(d) {
                (g1, Err(e)) => final(graph)@ == g1 && r == Err::<ResidencyReport, BridgeError<B::Error>>(
                    BridgeError::Register(e),
                ),
                (_, Ok(_)) => !(r matches Err(BridgeError::Register(_))),
            },
        r matches Err(BridgeError::ReportCounterOverflow { recorded, reported }) ==> recorded + reported > u64::MAX
            && (recorded == final(graph)@.report.uploaded_bytes || recorded == final(graph)@.report.downloaded_bytes)
            && exists|d: ResourceDesc, pbytes: Seq<u8>, big: bool, rep: ReportView, req: ViewRequest|
            #![trigger column_desc_matches(d, *kernel, kernel.output, spec_cpu_kernel_contract()), encodes::<F32Bits>(pbytes, output_values@, big), view_stage(old(graph)@, d, pbytes, rep).view_outcome(req)]
            column_desc_matches(d, *kernel, kernel.output, spec_cpu_kernel_contract())
                && encodes::<F32Bits>(pbytes, output_values@, big)
                && old(graph)@.register_outcome(d).1 is Ok
                && old(graph)@.register_outcome(d).0.typed_patch_outcome(d.id, ElementType::F32, 0, pbytes).1 is Ok
                && (final(graph)@ == plan_stage(old(graph)@, d, pbytes) || (req.resource@ == d.id@
                && req.freshness == Freshness::LatestAvailable
                && final(graph)@ == view_stage(old(graph)@, d, pbytes, rep).view_outcome(req).0)),
        r matches Ok(rep) ==> exists|
            d: ResourceDesc,
            pbytes: Seq<u8>,
            big: bool,
            up: int,
            down: int,
            req: ViewRequest,
            bytes: Seq<u8>,
        |
            #![trigger column_desc_matches(d, *kernel, kernel.output, spec_cpu_kernel_contract()), encodes::<F32Bits>(pbytes, output_values@, big), cycle_transfer(old(graph)@, d, pbytes, up, down, req, bytes)]
            column_desc_matches(d, *kernel, kernel.output, spec_cpu_kernel_contract())
                && encodes::<F32Bits>(pbytes, output_values@, big)
                && 0 <= up && 0 <= down
                && req.resource@ == d.id@
                && req.selector == (ViewSelector::Range {
                    offset: 0,
                    len: (kernel.rows * spec_element_type(kernel.scalar_type).spec_size_bytes()) as u64,
                })
                && req.freshness == Freshness::LatestAvailable
                && rep.transfer@ == cycle_transfer(old(graph)@, d, pbytes, up, down, req, bytes)
                && rep.output@.len() * 4 == bytes.len()
                && is_encoding::<F32Bits>(bytes, rep.output@),
        r matches Err(BridgeError::Patch(e)) ==> exists|d: ResourceDesc, bytes: Seq<u8>, big: bool|
            #![trigger column_desc_matches(d, *kernel, kernel.output, spec_cpu_kernel_contract()), encodes::<F32Bits>(bytes, output_values@, big)]
            column_desc_matches(d, *kernel, kernel.output, spec_cpu_kernel_contract())
                && encodes::<F32Bits>(bytes, output_values@, big)
                && old(graph)@.register_outcome(d).1 is Ok
                && old(graph)@.register_outcome(d).0.typed_patch_outcome(d.id, ElementType::F32, 0, bytes)
                == (final(graph)@, Err::<Generation, SubmitPatchError>(e)),
        r matches Err(BridgeError::View(e)) ==> exists|d: ResourceDesc, bytes: Seq<u8>, big: bool, rep: ReportView, req: ViewRequest|
            #![trigger column_desc_matches(d, *kernel, kernel.output, spec_cpu_kernel_contract()), encodes::<F32Bits>(bytes, output_values@, big), view_stage(old(graph)@, d, bytes, rep).view_outcome(req)]
            column_desc_matches(d, *kernel, kernel.output, spec_cpu_kernel_contract())
                && encodes::<F32Bits>(bytes, output_values@, big)
                && req.resource@ == d.id@
                && req.selector == (ViewSelector::Range {
                    offset: 0,
                    len: (kernel.rows * spec_element_type(kernel.scalar_type).spec_size_bytes()) as u64,
                })
                && req.freshness == Freshness::LatestAvailable
                && view_stage(old(graph)@, d, bytes, rep).view_outcome(req) == (final(graph)@, Err::<
                    PlannedReadback,
                    ViewRequestError,
                >(e)),
{
    let ghost g0 = graph@;
    let desc = column_resource_desc(kernel, &kernel.output, cpu_kernel_contract());
    let alloc_desc = column_resource_desc(kernel, &kernel.output, cpu_kernel_contract());
    let output_id = desc.id.clone_id();
    let ghost d = desc;
    proof {
        law_register_fresh_or_duplicate(g0, d);
    }
    match graph.register(desc) {
        Err(e) => {
            return Err(BridgeError::Register(e));
        },
        Ok(_) => {},
    }
    let ghost g1 = graph@;
    match backend.create_resource(&alloc_desc) {
        Err(e) => {
            return Err(BridgeError::BackendAllocate(e));
        },
        Ok(_) => {},
    }
    let values = vstd::slice::slice_to_vec(output_values);
    let patched = graph.submit_typed_patch::<F32Bits>(output_id.clone_id(), 0, values);
    match patched {
        Err(e) => {
            return Err(BridgeError::Patch(e));
        },
        Ok(_) => {},
    }
    let ghost g2 = graph@;
    proof {
        let (bytes, big) = choose|bytes: Seq<u8>, big: bool|
            encodes::<F32Bits>(bytes, output_values@, big) && (graph@, patched) == g1.typed_patch_outcome(
                output_id,
                ElementType::F32,
                0,
                bytes,
            );
        reveal(encodes_words);
        assert(bytes.len() == 4 * output_values@.len());
        assert(graph@.pending_uploads.drop_last() =~= g1.pending_uploads);
        assert(upload_bytes(graph@.pending_uploads) == upload_bytes(g1.pending_uploads) + bytes.len());
        assert(graph@.report.readbacks_requested == g0.report.readbacks_requested);
        assert(graph@.report.readbacks_completed == g0.report.readbacks_completed);
    }
    let plan = graph.plan_transfers();
    let submission = match backend.execute_transfer_plan(&plan) {
        Err(e) => {
            return Err(BridgeError::BackendTransfer(e));
        },
        Ok(s) => s,
    };
    let ghost gp = graph@;
    proof {
        let (pbytes, big) = choose|bytes: Seq<u8>, big: bool|
            encodes::<F32Bits>(bytes, output_values@, big) && (g2, patched) == g1.typed_patch_outcome(
                output_id,
                ElementType::F32,
                0,
                bytes,
            );
        assert(gp == plan_stage(g0, d, pbytes));
        assert(encodes::<F32Bits>(pbytes, output_values@, big));
        assert(column_desc_matches(d, *kernel, kernel.output, spec_cpu_kernel_contract()));
        let any_req: ViewRequest = arbitrary();
        assert(view_stage(g0, d, pbytes, gp.report).view_outcome(any_req) == view_stage(
            g0,
            d,
            pbytes,
            gp.report,
        ).view_outcome(any_req));
    }
    let uploaded_now = graph.report().uploaded_bytes;
    if uploaded_now > u64::MAX - submission.uploaded_bytes {
        return Err(BridgeError::ReportCounterOverflow { recorded: uploaded_now, reported: submission.uploaded_bytes });
    }
    let downloaded_now = graph.report().downloaded_bytes;
    if downloaded_now > u64::MAX - submission.downloaded_bytes {
        return Err(
            BridgeError::ReportCounterOverflow { recorded: downloaded_now, reported: submission.downloaded_bytes },
        );
    }
    let ghost sub_up = submission.uploaded_bytes as int;
    let ghost sub_down = submission.downloaded_bytes as int;
    graph.note_submission(&submission);
    proof {
        graph.lemma_view_fits();
    }
    let ghost g3 = graph@;
    let request = output_view_request(kernel, Freshness::LatestAvailable);
    let ghost req = request;
    let planned = match graph.request_view(request) {
        Err(e) => {
            proof {
                let (bytes, big) = choose|bytes: Seq<u8>, big: bool|
                    encodes::<F32Bits>(bytes, output_values@, big) && (g2, patched) == g1.typed_patch_outcome(
                        output_id,
                        ElementType::F32,
                        0,
                        bytes,
                    );
                assert(g3 == view_stage(g0, d, bytes, g3.report));
                assert(req.resource@ == d.id@);
                assert(column_desc_matches(d, *kernel, kernel.output, spec_cpu_kernel_contract()));
                assert(encodes::<F32Bits>(bytes, output_values@, big));
            }
            return Err(BridgeError::View(e));
        },
        Ok(p) => p,
    };
    let token = match backend.request_readback(planned) {
        Err(e) => {
            return Err(BridgeError::BackendReadbackRequest(e));
        },
        Ok(t) => t,
    };
    let ghost g4 = graph@;
    let mut result = None;
    let mut polls: usize = 0;
    while polls < MAX_READBACK_POLLS
        invariant
            polls <= MAX_READBACK_POLLS,
            graph@ == g4,
            g4.wf(),
            column_desc_matches(d, *kernel, kernel.output, spec_cpu_kernel_contract()),
            g0.register_outcome(d).1 is Ok,
            old(graph)@ == g0,
        decreases MAX_READBACK_POLLS - polls,
    {
        match backend.poll_readback(&token) {
            Err(e) => {
                return Err(BridgeError::BackendReadbackPoll(e));
            },
            Ok(ReadbackStatus::Ready(ready)) => {
                result = Some(ready);
                break;
            },
            Ok(ReadbackStatus::Pending) => {},
            Ok(ReadbackStatus::Failed(error)) => {
                return Err(BridgeError::ReadbackFailed(error));
            },
        }
        polls = polls + 1;
    }
    let result = match result {
        None => {
            return Err(BridgeError::ReadbackPendingLimitExceeded { polls: MAX_READBACK_POLLS });
        },
        Some(r) => r,
    };
    let served_len = result.bytes.len();
    let ghost bytes = result.bytes@;
    let ghost before = graph@.report;
    proof {
        graph.lemma_view_fits();
    }
    let done = complete_readback(kernel, &output_id, result, graph);
    proof {
        if let Err(BridgeError::ReportCounterOverflow { recorded, reported }) = done {
            let (pbytes, big) = choose|bytes: Seq<u8>, big: bool|
                encodes::<F32Bits>(bytes, output_values@, big) && (g2, patched) == g1.typed_patch_outcome(
                    output_id,
                    ElementType::F32,
                    0,
                    bytes,
                );
            assert(g3 == view_stage(g0, d, pbytes, g3.report));
            assert(req.resource@ == d.id@);
            assert(encodes::<F32Bits>(pbytes, output_values@, big));
            assert(g4 == view_stage(g0, d, pbytes, g3.report).view_outcome(req).0);
            assert(before.downloaded_bytes + bytes.len() > u64::MAX);
            assert(recorded == before.downloaded_bytes);
            assert(bytes.len() == served_len);
            assert(reported == bytes.len());
            assert(graph@.report.downloaded_bytes == before.downloaded_bytes);
        }
        if done is Ok {
            let (pbytes, big) = choose|bytes: Seq<u8>, big: bool|
                encodes::<F32Bits>(bytes, output_values@, big) && (g2, patched) == g1.typed_patch_outcome(
                    output_id,
                    ElementType::F32,
                    0,
                    bytes,
                );
            assert(g3 == view_stage(g0, d, pbytes, g3.report));
            assert(req.resource@ == d.id@);
            assert(column_desc_matches(d, *kernel, kernel.output, spec_cpu_kernel_contract()));
            assert(encodes::<F32Bits>(pbytes, output_values@, big));
            assert(g4 == g3.view_outcome(req).0);
            assert(cycle_transfer(g0, d, pbytes, sub_up, sub_down, req, bytes) == done->Ok_0.transfer@);
        }
    }
    done
}

/// Finishes a cycle whose readback came back as `result`: notes the
/// completed readback in the report, reads the bytes as `f32` bit patterns,
/// and hands out the report with the graph's running report taken.
///
/// Fails when the read bytes do not fit the report's download counter (the
/// graph is left as it was), or when they are not a whole number of `f32`
/// values (after the readback was noted).
pub fn complete_readback<E>(
    kernel: &Kernel,
    output_id: &ResourceId,
    result: ViewResult,
    graph: &mut SyncGraph,
) -> (r: Result<ResidencyReport, BridgeError<E>>)
    requires
        old(graph)@.report.readbacks_completed < usize::MAX,
    ensures
        ({
            let before = old(graph)@.report;
            let n = result.bytes@.len();
            let noted = GraphView {
                report: ReportView {
                    readbacks_completed: before.readbacks_completed + 1,
                    downloaded_bytes: before.downloaded_bytes + n,
                    ..before
                },
                ..old(graph)@
            };
            if before.downloaded_bytes + n > u64::MAX {
                &&& final(graph)@ == old(graph)@
                &&& r == Err::<ResidencyReport, BridgeError<E>>(
                    BridgeError::ReportCounterOverflow { recorded: before.downloaded_bytes as u64, reported: n as u64 },
                )
            } else if n % 4 != 0 {
                &&& final(graph)@ == noted
                &&& r == Err::<ResidencyReport, BridgeError<E>>(
                    BridgeError::Decode(ViewDecodeError::SizeMismatch { bytes: n as usize, element_size: 4 }),
                )
            } else {
                &&& final(graph)@ == (GraphView { report: ReportView::empty(), ..noted })
                &&& r matches Ok(rep)
                &&& rep.kernel@ == kernel.name@
                &&& rep.output_resource@ == output_id@
                &&& rep.output@.len() * 4 == n
                &&& is_encoding::<F32Bits>(result.bytes@, rep.output@)
                &&& rep.transfer@ == noted.report
            }
        }),
{
    let read_bytes = result.bytes.len() as u64;
    let recorded = graph.report().downloaded_bytes;
    if recorded > u64::MAX - read_bytes {
        return Err(BridgeError::ReportCounterOverflow { recorded, reported: read_bytes });
    }
    graph.note_readback_completed(read_bytes);
    let output = match result.as_slice::<F32Bits>() {
        Err(e) => {
            return Err(BridgeError::Decode(e));
        },
        Ok(v) => v,
    };
    Ok(
        ResidencyReport {
            kernel: kernel.name.clone(),
            output_resource: output_id.to_string(),
            output,
            transfer: graph.take_report(),
        },
    )
}

} // verus!
