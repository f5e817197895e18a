//! Combines the two assessors' opinions with the observer's confidence.

use vstd::prelude::*;
use crate::confidence::Confidence;
use crate::opinion::Opinion;

verus! {

/// The confidence that the pair of opinions supports by itself: `High` when
/// both are `Healthy`, `Low` when either is `Broken`, `Medium` otherwise.
pub open spec fn engine_confidence(health: Opinion, systemd: Opinion) -> Confidence {
    if health is Broken || systemd is Broken {
        Confidence::Low
    } else if health is Healthy && systemd is Healthy {
        Confidence::High
    } else {
        Confidence::Medium
    }
}

/// The combined confidence: the lower of the engine's and the observer's.
pub open spec fn combined_confidence(
    health: Opinion,
    systemd: Opinion,
    observer_confidence: Confidence,
) -> Confidence {
    engine_confidence(health, systemd).spec_min(observer_confidence)
}

/// Computes the engine's confidence from the two opinions.
pub fn evaluate_engine_confidence(health: &Opinion, systemd: &Opinion) -> (r: Confidence)
    ensures
        r == engine_confidence(*health, *systemd),
{
    match (health, systemd) {
        (Opinion::Healthy, Opinion::Healthy) => Confidence::High,
        (Opinion::Broken { .. }, _) => Confidence::Low,
        (_, Opinion::Broken { .. }) => Confidence::Low,
        _ => Confidence::Medium,
    }
}

/// Combines both opinions with the observer's confidence into the one value
/// that the heal gate reads. It never exceeds either source.
pub fn evaluate(health: &Opinion, systemd: &Opinion, observer_confidence: Confidence) -> (r:
    Confidence)
    ensures
        r == combined_confidence(*health, *systemd, observer_confidence),
        r.rank() <= observer_confidence.rank(),
        r.rank() <= engine_confidence(*health, *systemd).rank(),
{
    let engine = evaluate_engine_confidence(health, systemd);
    engine.min(observer_confidence)
}

/// The combined confidence is bounded by the observer's confidence and by
/// the engine's, for every pair of opinions.
pub proof fn lemma_combined_confidence_bounded(
    health: Opinion,
    systemd: Opinion,
    observer_confidence: Confidence,
)
    ensures
        combined_confidence(health, systemd, observer_confidence).rank()
            <= observer_confidence.rank(),
        combined_confidence(health, systemd, observer_confidence).rank() <= engine_confidence(
            health,
            systemd,
        ).rank(),
{
}

/// A combined confidence of `High` vouches for both opinions: neither is
/// broken, and in fact both are healthy.
pub proof fn lemma_high_confidence_excludes_broken(
    health: Opinion,
    systemd: Opinion,
    observer_confidence: Confidence,
)
    requires
        combined_confidence(health, systemd, observer_confidence) == Confidence::High,
    ensures
        health is Healthy,
        systemd is Healthy,
        !(health is Broken),
        !(systemd is Broken),
        observer_confidence == Confidence::High,
{
}

} // verus!
