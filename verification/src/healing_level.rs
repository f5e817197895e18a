//! How far the daemon is allowed to go.

use vstd::prelude::*;

verus! {

/// The stage that the daemon is configured to run at.
#[derive(Debug, Clone, Copy, PartialEq, Eq, Structural)]
pub enum HealingLevel {
    /// Observe and report; change nothing.
    ObserveOnly,
    /// Restart services where the heal gate allows it.
    RuntimeSafe,
    /// Propose repair plans for a human to apply.
    AssistedRepair,
}

} // verus!
