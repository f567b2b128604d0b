//! Properties of the synchronization graph over whole sequences of
//! operations.

use vstd::prelude::*;

use crate::residency_core::contract::ResizePolicy;
use crate::residency_core::graph::{GraphView, ResourceEntry};
use crate::residency_core::laws::{is_pow2, law_growth_follows_resize_policy};
use crate::residency_core::report::ReportView;
use crate::residency_core::resource::{ElementType, ResourceDesc, ResourceId};
use crate::residency_core::view::ViewRequest;

verus! {

/// One operation on a graph, as the model sees it: registration, a typed or
/// raw patch (given its bytes), an event append (given its record count and
/// encoded bytes), a GPU mutation, a view request, a transfer plan, or any
/// update of the running report (noting a submission, a completed readback
/// or a forced stall, or taking the report).
pub enum GraphStep {
    /// `register`.
    Register(ResourceDesc),
    /// `submit_typed_patch`.
    TypedPatch(ResourceId, ElementType, u64, Seq<u8>),
    /// `submit_untyped_patch`.
    UntypedPatch(ResourceId, ElementType, u64, Seq<u8>),
    /// `submit_event_append`.
    EventAppend(ResourceId, ElementType, int, Seq<u8>),
    /// `submit_gpu_mutation`.
    GpuMutation(ResourceId),
    /// `request_view`.
    View(ViewRequest),
    /// `plan_transfers`.
    Plan,
    /// A call that only replaces the running report.
    Report(ReportView),
}

/// The model after one operation.
pub open spec fn step(g: GraphView, s: GraphStep) -> GraphView {
    match s {
        GraphStep::Register(d) => g.register_outcome(d).0,
        GraphStep::TypedPatch(id, element, offset, bytes) => g.typed_patch_outcome(id, element, offset, bytes).0,
        GraphStep::UntypedPatch(id, element, offset, bytes) => g.untyped_patch_outcome(id, element, offset, bytes).0,
        GraphStep::EventAppend(id, element, n, enc) => g.event_outcome(id, element, n, enc).0,
        GraphStep::GpuMutation(id) => g.gpu_mutation_outcome(id).0,
        GraphStep::View(req) => g.view_outcome(req).0,
        GraphStep::Plan => g.planned(),
        GraphStep::Report(r) => GraphView { report: r, ..g },
    }
}

/// The model after a sequence of operations, in order.
pub open spec fn run(g: GraphView, steps: Seq<GraphStep>) -> GraphView
    decreases steps.len(),
{
    if steps.len() == 0 {
        g
    } else {
        step(run(g, steps.drop_last()), steps.last())
    }
}

/// How a resource entry may change: same id, layout and contract; its
/// generation never goes back; its capacity never shrinks, and it changes
/// only for a resource that may grow by powers of two, to a power of two
/// within the cap.
pub open spec fn entry_evolves(before: ResourceEntry, after: ResourceEntry) -> bool {
    &&& after.id == before.id
    &&& after.layout == before.layout
    &&& after.contract == before.contract
    &&& after.generation >= before.generation
    &&& after.capacity >= before.capacity
    &&& after.capacity != before.capacity ==> {
        &&& before.contract.resize matches ResizePolicy::GrowPowerOfTwo { max_bytes }
        &&& is_pow2(after.capacity)
        &&& (before.contract.resize matches ResizePolicy::GrowPowerOfTwo { max_bytes } && max_bytes matches Some(
            cap,
        ) ==> after.capacity <= cap)
    }
}

/// One patch keeps every entry evolving as allowed and drops none.
proof fn lemma_patch_step(g: GraphView, id: ResourceId, offset: u64, bytes: Seq<u8>, i: int)
    requires
        0 <= i < g.resources.len(),
    ensures
        g.patch_outcome(id, offset, bytes).0.resources.len() == g.resources.len(),
        entry_evolves(g.resources[i], g.patch_outcome(id, offset, bytes).0.resources[i]),
{
    if g.has(id@) {
        let e = g.entry(id@);
        law_growth_follows_resize_policy(e, offset, bytes.len() as int);
    }
}

/// One operation keeps every entry evolving as allowed and drops none.
proof fn lemma_step(g: GraphView, s: GraphStep, i: int)
    requires
        0 <= i < g.resources.len(),
    ensures
        step(g, s).resources.len() >= g.resources.len(),
        !(s is Register) ==> step(g, s).resources.len() == g.resources.len(),
        entry_evolves(g.resources[i], step(g, s).resources[i]),
{
    match s {
        GraphStep::TypedPatch(id, element, offset, bytes) => {
            let size = element.spec_size_bytes();
            if offset * size <= u64::MAX {
                lemma_patch_step(g, id, (offset * size) as u64, bytes, i);
            }
        },
        GraphStep::UntypedPatch(id, element, offset, bytes) => {
            lemma_patch_step(g, id, offset, bytes, i);
        },
        _ => {},
    }
}

/// One operation drops no resource, and only a registration adds one.
proof fn lemma_step_len(g: GraphView, s: GraphStep)
    ensures
        step(g, s).resources.len() >= g.resources.len(),
        !(s is Register) ==> step(g, s).resources.len() == g.resources.len(),
{
}

/// Whether step `s` registers a resource with identifier `id`.
pub open spec fn registers(s: GraphStep, id: Seq<char>) -> bool {
    s matches GraphStep::Register(d) && d.id@ == id
}

/// A resource is new after one operation only when that operation
/// registered it.
proof fn lemma_step_new_id(g: GraphView, s: GraphStep, id: Seq<char>)
    requires
        step(g, s).has(id),
        !g.has(id),
    ensures
        registers(s, id),
{
    let after = step(g, s);
    let i = choose|i: int| 0 <= i < after.resources.len() && after.resources[i].id == id;
    if i < g.resources.len() {
        lemma_step(g, s, i);
        assert(g.resources[i].id == id);
    } else {
        lemma_step_len(g, s);
    }
}

/// Resources come only from registration: a resource present after a
/// sequence of operations was present before it or registered by one of
/// them.
pub proof fn law_resources_come_from_registration(g: GraphView, steps: Seq<GraphStep>, id: Seq<char>)
    requires
        run(g, steps).has(id),
        !g.has(id),
    ensures
        exists|k: int| 0 <= k < steps.len() && registers(#[trigger] steps[k], id),
    decreases steps.len(),
{
    if steps.len() == 0 {
    } else {
        let mid = run(g, steps.drop_last());
        if mid.has(id) {
            law_resources_come_from_registration(g, steps.drop_last(), id);
            let k = choose|k: int| 0 <= k < steps.drop_last().len() && registers(#[trigger] steps.drop_last()[k], id);
            assert(steps[k] == steps.drop_last()[k]);
        } else {
            lemma_step_new_id(mid, steps.last(), id);
            assert(registers(steps[steps.len() - 1], id));
        }
    }
}

/// Over any sequence of operations, no resource is ever dropped and each
/// keeps its id, layout and contract; its generation never goes back; its
/// capacity never shrinks, and differs from where it started only for a
/// resource that may grow by powers of two, as a power of two within the
/// cap. (A fixed or externally managed resource keeps its capacity.)
pub proof fn law_resources_evolve_monotonically(g: GraphView, steps: Seq<GraphStep>, i: int)
    requires
        0 <= i < g.resources.len(),
    ensures
        run(g, steps).resources.len() >= g.resources.len(),
        entry_evolves(g.resources[i], run(g, steps).resources[i]),
    decreases steps.len(),
{
    if steps.len() > 0 {
        law_resources_evolve_monotonically(g, steps.drop_last(), i);
        let mid = run(g, steps.drop_last());
        lemma_step(mid, steps.last(), i);
    }
}


/// The resource an operation writes to, if any.
pub open spec fn step_target(s: GraphStep) -> Option<Seq<char>> {
    match s {
        GraphStep::TypedPatch(id, _, _, _) => Some(id@),
        GraphStep::UntypedPatch(id, _, _, _) => Some(id@),
        GraphStep::EventAppend(id, _, _, _) => Some(id@),
        GraphStep::GpuMutation(id) => Some(id@),
        _ => None,
    }
}

/// Whether an operation that writes to a resource was refused.
pub open spec fn step_refused(g: GraphView, s: GraphStep) -> bool {
    match s {
        GraphStep::TypedPatch(id, element, offset, bytes) => g.typed_patch_outcome(id, element, offset, bytes).1 is Err,
        GraphStep::UntypedPatch(id, element, offset, bytes) => g.untyped_patch_outcome(
            id,
            element,
            offset,
            bytes,
        ).1 is Err,
        GraphStep::EventAppend(id, element, n, enc) => g.event_outcome(id, element, n, enc).1 is Err,
        GraphStep::GpuMutation(id) => g.gpu_mutation_outcome(id).1 is Err,
        _ => false,
    }
}

/// An operation leaves every existing resource untouched unless it writes to
/// that resource and is accepted: registration only appends, views, plans
/// and report updates change no resource, a refused write changes none, and
/// an accepted write changes only its own resource.
pub proof fn law_step_touches_only_accepted_target(g: GraphView, s: GraphStep, i: int)
    requires
        0 <= i < g.resources.len(),
        step_refused(g, s) || !(step_target(s) matches Some(id) && id == g.resources[i].id),
    ensures
        step(g, s).resources[i] == g.resources[i],
{
    match s {
        GraphStep::TypedPatch(id, element, offset, bytes) => {
            if g.has(id@) {
                let j = g.index_of(id@);
                assert(g.resources[j].id == id@);
            }
        },
        GraphStep::UntypedPatch(id, element, offset, bytes) => {
            if g.has(id@) {
                let j = g.index_of(id@);
                assert(g.resources[j].id == id@);
            }
        },
        GraphStep::EventAppend(id, element, n, enc) => {
            if g.has(id@) {
                let j = g.index_of(id@);
                assert(g.resources[j].id == id@);
            }
        },
        GraphStep::GpuMutation(id) => {
            if g.has(id@) {
                let j = g.index_of(id@);
                assert(g.resources[j].id == id@);
            }
        },
        _ => {},
    }
}

} // verus!
