//! Monotonic generation counter for resources.

use vstd::prelude::*;

verus! {

/// Identifies a particular authoritative state of a resource.
///
/// Every time the authoritative side mutates a resource (CPU patch, GPU compute
/// dispatch, resize), the resource's generation advances. Views are tagged with
/// the generation they observed.
#[derive(Clone, Copy, Debug, PartialEq, Eq, Structural, PartialOrd, Ord, Hash)]
pub struct Generation(pub u64);

impl Generation {
    /// Generation assigned to a freshly registered resource that has not yet
    /// received any authoritative data.
    pub fn initial() -> (g: Generation)
        ensures
            g.0 == 0,
    {
        Generation(0)
    }

    /// Returns the next generation (`self + 1`).
    pub fn next(self) -> (g: Generation)
        requires
            self.0 < u64::MAX,
        ensures
            g.0 == self.0 + 1,
    {
        Generation(self.0 + 1)
    }
}

impl Default for Generation {
    fn default() -> (g: Self)
        ensures
            g.0 == 0,
    {
        Generation::initial()
    }
}

} // verus!
