//! Generation-based freshness model for view requests.

use vstd::prelude::*;

use crate::residency_core::generation::Generation;

verus! {

/// What "fresh enough" means for a particular view request.
///
/// Every view is judged against the resource's current generation when
/// planning; the served view reports its actual generation back to the caller.
#[derive(Clone, Copy, Debug, PartialEq, Eq, Structural, Hash)]
pub enum Freshness {
    /// Serve whatever generation is currently available.
    LatestAvailable,
    /// Serve any generation at or after the given one.
    AtLeastGeneration(Generation),
    /// Serve exactly this generation (may force a stall — a warning is issued).
    ExactGeneration(Generation),
    /// Explicit full snapshot. Required for `ViewSelector::Full` to be
    /// considered intentional rather than accidental.
    Snapshot,
}

impl Freshness {
    /// Whether a resource at generation `current` can satisfy this freshness
    /// requirement.
    pub open spec fn satisfied_by(self, current: u64) -> bool {
        match self {
            Freshness::LatestAvailable | Freshness::Snapshot => true,
            Freshness::AtLeastGeneration(g) => current >= g.0,
            Freshness::ExactGeneration(g) => current == g.0,
        }
    }
}

} // verus!
