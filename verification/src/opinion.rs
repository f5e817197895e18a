//! The tri-state verdict that each assessor hands to the decision core.

use vstd::prelude::*;

verus! {

/// A health verdict with the assessor's explanation. One is computed for the
/// overall system health and one for the integrity of the service manager;
/// neither carries history.
#[derive(Debug, Clone)]
pub enum Opinion {
    Healthy,
    Degraded { reason: String },
    Broken { reason: String },
}

/// What an [`Opinion`] says, as plain values.
pub enum OpinionView {
    Healthy,
    Degraded { reason: Seq<char> },
    Broken { reason: Seq<char> },
}

impl View for Opinion {
    type V = OpinionView;

    open spec fn view(&self) -> OpinionView {
        match self {
            Opinion::Healthy => OpinionView::Healthy,
            Opinion::Degraded { reason } => OpinionView::Degraded { reason: reason@ },
            Opinion::Broken { reason } => OpinionView::Broken { reason: reason@ },
        }
    }
}

impl Opinion {
    /// Whether the verdict is `Broken`, whatever its reason.
    pub fn is_broken(&self) -> (r: bool)
        ensures
            r == (self is Broken),
    {
        match self {
            Opinion::Broken { .. } => true,
            _ => false,
        }
    }

    /// Whether the verdict is `Healthy`.
    pub fn is_healthy(&self) -> (r: bool)
        ensures
            r == (self is Healthy),
    {
        match self {
            Opinion::Healthy => true,
            _ => false,
        }
    }
}

} // verus!
