//! The three-level trust ceiling that gates mutation.

use vstd::prelude::*;

verus! {

/// How far the current observations can be trusted. The levels are totally
/// ordered: `Low < Medium < High`.
#[derive(Debug, Clone, Copy, PartialEq, Eq, Structural)]
pub enum Confidence {
    Low,
    Medium,
    High,
}

impl Confidence {
    /// The position of a level in the order `Low < Medium < High`.
    pub open spec fn rank(self) -> int {
        match self {
            Confidence::Low => 0,
            Confidence::Medium => 1,
            Confidence::High => 2,
        }
    }

    /// The lower of two levels.
    pub open spec fn spec_min(self, other: Confidence) -> Confidence {
        if self.rank() <= other.rank() {
            self
        } else {
            other
        }
    }

    /// The more cautious of two levels.
    pub fn min(self, other: Confidence) -> (r: Confidence)
        ensures
            r == self.spec_min(other),
            r.rank() <= self.rank(),
            r.rank() <= other.rank(),
            r == self || r == other,
    {
        match (self, other) {
            (Confidence::Low, _) => Confidence::Low,
            (_, Confidence::Low) => Confidence::Low,
            (Confidence::Medium, _) => Confidence::Medium,
            (_, Confidence::Medium) => Confidence::Medium,
            (Confidence::High, Confidence::High) => Confidence::High,
        }
    }
}

} // verus!
