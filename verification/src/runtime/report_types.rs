//! Plain report records of the runtime that carry no floating-point payload.

use vstd::prelude::*;

verus! {

/// How a rule's execution relates to the reference path.
#[derive(Clone, Copy, Debug, PartialEq, Eq, Structural, Hash)]
pub enum ComparisonStatus {
    /// Ran on the reference; the result is the reference by definition.
    IsReference,
    /// Ran on the CPU kernel; equivalence is established by the equivalence
    /// harness within tolerance.
    DeferredToEquivalenceHarness,
    /// Ran on a GPU path; equivalence must be established by a GPU
    /// equivalence harness.
    DeferredToGpuEquivalenceHarness,
    /// The rule was refused, so nothing ran to compare.
    NotRun,
}

/// A rollup of one rule firing's per-row outcomes.
#[derive(Clone, Copy, Debug, PartialEq, Eq, Structural, Hash)]
pub struct AssessmentSummary {
    /// Rows that proposed a value (zero for a refused rule).
    pub proposed: usize,
    /// Rows whose proposal passed every assessment and was committed.
    pub committed: usize,
    /// Rows whose proposal was rejected.
    pub rejected: usize,
}

impl AssessmentSummary {
    /// The summary of rows whose commit flags are `committed`: every row
    /// proposed, the committed ones counted, the rest rejected.
    pub fn from_commits(committed: &Vec<bool>) -> (s: AssessmentSummary)
        ensures
            s.proposed == committed@.len(),
            s.committed == committed@.filter(|c: bool| c).len(),
            s.rejected == s.proposed - s.committed,
    {
        let mut n: usize = 0;
        let mut i: usize = 0;
        while i < committed.len()
            invariant
                i <= committed@.len(),
                n == committed@.take(i as int).filter(|c: bool| c).len(),
                n <= i,
            decreases committed@.len() - i,
        {
            proof {
                assert(committed@.take(i as int + 1).drop_last() =~= committed@.take(i as int));
                reveal(Seq::filter);
                committed@.take(i as int).lemma_filter_len(|c: bool| c);
            }
            if committed[i] {
                n = n + 1;
            }
            i = i + 1;
        }
        proof {
            assert(committed@.take(committed@.len() as int) =~= committed@);
            committed@.lemma_filter_len(|c: bool| c);
        }
        AssessmentSummary { proposed: committed.len(), committed: n, rejected: committed.len() - n }
    }
}

/// Why a proximity query cannot use the exact indexed path.
#[derive(Clone, Copy, Debug, PartialEq, Eq, Structural, Hash)]
pub enum QueryIndexRejectionReason {
    /// `KNearest` has no fixed radius, so a uniform-grid implementation needs
    /// an expanding-ring strategy before it can remain exact.
    KNearestRequiresExpandingRing {
        /// The number of neighbors asked for.
        k: usize,
    },
}

/// Where a flow transfer's quantity went.
#[derive(Clone, Copy, Debug, PartialEq, Eq, Structural, Hash)]
pub enum FlowDestination {
    /// Credited to this in-grid (or wrapped) destination cell.
    Cell(usize),
    /// The destination left the grid under a `Reject` edge: reported as
    /// boundary loss.
    Boundary,
}

/// The result of one actor's movement: its old position, the proposed target
/// (which may be off the grid), and the used position. `rejected` is true
/// when an off-grid `Reject` move left the actor in place.
#[derive(Clone, Copy, Debug, PartialEq, Eq, Hash)]
pub struct ActorMoveOutcome {
    /// Index of the actor within its set.
    pub actor: usize,
    /// Position before the move.
    pub old: (usize, usize),
    /// Proposed target, possibly off the grid.
    pub proposed: (i64, i64),
    /// Position after the move.
    pub used: (usize, usize),
    /// Whether an off-grid move was rejected.
    pub rejected: bool,
}

/// One actor movement applied on one tick: the per-actor position shifts.
#[derive(Clone, Debug)]
pub struct ActorMovementReport {
    /// The movement's name.
    pub movement: String,
    /// The actor set that moved.
    pub actor_set: String,
    /// One outcome per actor.
    pub moves: Vec<ActorMoveOutcome>,
}

/// Why an actor rule could not evaluate even though the actor rule itself was
/// not refused for actor-kernel reasons.
#[derive(Clone, Debug, PartialEq, Eq)]
pub enum ActorRuleBlockedReason {
    /// The rule consumes a query that was refused because exact index
    /// execution was required but unavailable.
    RequiredQueryIndexUnavailable {
        /// The refused query.
        query: String,
        /// Why the index was unavailable.
        reason: QueryIndexRejectionReason,
    },
}

/// A derived column to recompute, addressed as `(table, column)` indices.
pub type DerivedSlot = (usize, usize);

/// The ordered work for a CPU reference step.
#[derive(Clone, Debug)]
pub struct ExecutionPlan {
    /// Derived columns in recompute order (table, then column declaration
    /// order).
    pub derived: Vec<DerivedSlot>,
    /// Rule indices in evaluation order.
    pub rules: Vec<usize>,
}

} // verus!
