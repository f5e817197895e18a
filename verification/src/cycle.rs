//! One turn of the control loop, as decisions.
//!
//! The loop observes, decides and acts, once per turn. The deciding is done
//! here: the caller brings what the probes found and carries out what the
//! decision names.

use vstd::prelude::*;
use vstd::string::*;
use std::time::Instant;
use crate::classifier::{Detection, Severity, classified_severity, classify};
use crate::clock::unix_seconds;
use crate::confidence::Confidence;
use crate::confidence_eval::{combined_confidence, evaluate};
use crate::deferred::{DeferredHealAction, DeferredHealQueue, enqueued};
use crate::detector::RawDetection;
use crate::heal_gate::{gate_open, healing_allowed};
use crate::healing_level::HealingLevel;
use crate::opinion::Opinion;
use crate::policy::{apply_policy, policy_reason, policy_severity};
use crate::repair_builder::{build_repair_plans_at, repair_plans};
use crate::repair_plan::{RepairPlan, RepairPlanView, plan_views};
use crate::reporter::ObserverReport;

verus! {

/// What one turn of the loop decided.
#[derive(Debug)]
pub struct CycleDecision {
    /// The combined confidence of this turn.
    pub confidence: Confidence,
    /// Whether healing is allowed in this turn.
    pub allowed: bool,
    /// The plans to write out and to show, for the assisted-repair stage.
    pub plans: Vec<RepairPlan>,
    /// The deferred actions to hand to the healing session, oldest first,
    /// for the runtime-safe stage.
    pub released: Vec<DeferredHealAction>,
}

/// Grades one raw detection and queues it for deferred healing if it is
/// still critical after the policy was applied. Returns the graded
/// detection for the report.
pub fn triage(raw: RawDetection, queue: &mut DeferredHealQueue) -> (filtered: Detection)
    ensures
        filtered.unit == raw.unit,
        filtered.severity == policy_severity(raw.unit@, classified_severity(raw.unit@)),
        filtered.reason@ == policy_reason(
            raw.unit@,
            "systemd reported status: "@ + raw.status@,
        ),
        filtered.severity != Severity::Critical ==> final(queue).pending() == old(
            queue,
        ).pending(),
        filtered.severity == Severity::Critical ==> exists|created_at: Instant|
            final(queue).pending() == #[trigger] enqueued(
                old(queue).pending(),
                filtered,
                created_at,
            ),
{
    let filtered = apply_policy(classify(raw));
    if filtered.severity == Severity::Critical {
        queue.enqueue(&filtered);
    }
    filtered
}

/// Decides one turn of the loop at time `now`.
///
/// The confidence is combined from both opinions and the observer's
/// confidence, and the heal gate is evaluated afresh. At the assisted-repair
/// stage the repair plans are built. At the runtime-safe stage, and only
/// where healing is allowed, the deferred queue is released.
pub fn decide_cycle_at(
    stage: HealingLevel,
    report: &ObserverReport,
    health: &Opinion,
    systemd: &Opinion,
    queue: &mut DeferredHealQueue,
    now: u64,
) -> (decision: CycleDecision)
    ensures
        decision.confidence == combined_confidence(*health, *systemd, report.confidence),
        decision.allowed == gate_open(
            *health,
            *systemd,
            decision.confidence,
            report.boot_context,
        ),
        plan_views(decision.plans@) == if stage == HealingLevel::AssistedRepair {
            repair_plans(*report, *health, *systemd, now)
        } else {
            Seq::<RepairPlanView>::empty()
        },
        stage == HealingLevel::RuntimeSafe && decision.allowed ==> decision.released@ == old(
            queue,
        ).pending() && final(queue).pending() == Seq::<DeferredHealAction>::empty(),
        !(stage == HealingLevel::RuntimeSafe && decision.allowed) ==> decision.released@
            == Seq::<DeferredHealAction>::empty() && final(queue).pending() == old(
            queue,
        ).pending(),
{
    let confidence = evaluate(health, systemd, report.confidence);
    let allowed = healing_allowed(health, systemd, confidence, report.boot_context);
    let plans = if stage == HealingLevel::AssistedRepair {
        build_repair_plans_at(report, health, systemd, now)
    } else {
        let none: Vec<RepairPlan> = Vec::new();
        assert(plan_views(none@) =~= Seq::<RepairPlanView>::empty());
        none
    };
    let released = if stage == HealingLevel::RuntimeSafe && allowed {
        queue.drain_ready(report.boot_context, confidence)
    } else {
        Vec::new()
    };
    CycleDecision { confidence, allowed, plans, released }
}

/// Decides one turn of the loop now. The clock is read once, for the plan
/// identifiers.
pub fn decide_cycle(
    stage: HealingLevel,
    report: &ObserverReport,
    health: &Opinion,
    systemd: &Opinion,
    queue: &mut DeferredHealQueue,
) -> (decision: CycleDecision)
    ensures
        decision.confidence == combined_confidence(*health, *systemd, report.confidence),
        decision.allowed == gate_open(
            *health,
            *systemd,
            decision.confidence,
            report.boot_context,
        ),
        stage == HealingLevel::AssistedRepair ==> exists|now: u64|
            plan_views(decision.plans@) == repair_plans(*report, *health, *systemd, now),
        stage != HealingLevel::AssistedRepair ==> decision.plans@.len() == 0,
        stage == HealingLevel::RuntimeSafe && decision.allowed ==> decision.released@ == old(
            queue,
        ).pending() && final(queue).pending() == Seq::<DeferredHealAction>::empty(),
        !(stage == HealingLevel::RuntimeSafe && decision.allowed) ==> decision.released@
            == Seq::<DeferredHealAction>::empty() && final(queue).pending() == old(
            queue,
        ).pending(),
{
    let now = unix_seconds();
    let decision = decide_cycle_at(stage, report, health, systemd, queue, now);
    assert(stage != HealingLevel::AssistedRepair ==> plan_views(decision.plans@).len() == 0);
    decision
}

} // verus!
