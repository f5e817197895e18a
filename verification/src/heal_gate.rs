//! The single safety checkpoint in front of every mutating action.

use vstd::prelude::*;
use crate::confidence::Confidence;
use crate::opinion::Opinion;
use crate::state::BootContext;

verus! {

/// Healing is allowed in an interactive graphical session, with high confidence, and
/// with no broken opinion. All three must hold.
pub open spec fn gate_open(
    health: Opinion,
    systemd: Opinion,
    confidence: Confidence,
    boot_context: BootContext,
) -> bool {
    &&& boot_context == BootContext::Graphical
    &&& confidence == Confidence::High
    &&& !(health is Broken)
    &&& !(systemd is Broken)
}

/// Decides whether healing may go ahead this cycle. Fails closed: any one of
/// the three conditions failing gives `false`.
pub fn healing_allowed(
    health: &Opinion,
    systemd: &Opinion,
    confidence: Confidence,
    boot_context: BootContext,
) -> (allowed: bool)
    ensures
        allowed == gate_open(*health, *systemd, confidence, boot_context),
        boot_context != BootContext::Graphical ==> !allowed,
        confidence != Confidence::High ==> !allowed,
        (*health is Broken || *systemd is Broken) ==> !allowed,
{
    if boot_context != BootContext::Graphical {
        return false;
    }
    if confidence != Confidence::High {
        return false;
    }
    match (health, systemd) {
        (Opinion::Broken { .. }, _) => false,
        (_, Opinion::Broken { .. }) => false,
        _ => true,
    }
}

/// Outside a graphical session healing is refused, whatever the other inputs.
pub proof fn lemma_gate_shut_outside_graphical(
    health: Opinion,
    systemd: Opinion,
    confidence: Confidence,
    boot_context: BootContext,
)
    requires
        boot_context != BootContext::Graphical,
    ensures
        !gate_open(health, systemd, confidence, boot_context),
{
}

/// A broken opinion refuses healing, even in a graphical session with high
/// confidence.
pub proof fn lemma_gate_shut_when_broken(
    health: Opinion,
    systemd: Opinion,
    confidence: Confidence,
    boot_context: BootContext,
)
    requires
        health is Broken || systemd is Broken,
    ensures
        !gate_open(health, systemd, confidence, boot_context),
{
}

} // verus!
