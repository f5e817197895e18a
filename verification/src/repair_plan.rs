//! Structured remediation proposals for a human to read and apply.

use vstd::prelude::*;
use crate::explain::{ExplainBlock, ExplainBlockView, block_views};
use crate::text::texts;

verus! {

/// How much harm applying a plan could do.
#[derive(Debug, Clone, Copy, PartialEq, Eq, Structural)]
pub enum RiskLevel {
    Low,
    Medium,
    High,
}

/// A remediation proposal. It is advisory: nothing in this crate applies
/// one, and `confidence_high` is recorded as metadata only.
#[derive(Debug, Clone)]
pub struct RepairPlan {
    pub id: String,
    pub issue: String,
    pub risk: RiskLevel,
    pub confidence_high: bool,
    pub reversible: bool,
    pub requires_reboot: bool,
    pub actions: Vec<String>,
    pub explain: Vec<ExplainBlock>,
}

/// What a [`RepairPlan`] says, as plain values.
pub struct RepairPlanView {
    pub id: Seq<char>,
    pub issue: Seq<char>,
    pub risk: RiskLevel,
    pub confidence_high: bool,
    pub reversible: bool,
    pub requires_reboot: bool,
    pub actions: Seq<Seq<char>>,
    pub explain: Seq<ExplainBlockView>,
}

impl View for RepairPlan {
    type V = RepairPlanView;

    open spec fn view(&self) -> RepairPlanView {
        RepairPlanView {
            id: self.id@,
            issue: self.issue@,
            risk: self.risk,
            confidence_high: self.confidence_high,
            reversible: self.reversible,
            requires_reboot: self.requires_reboot,
            actions: texts(self.actions@),
            explain: block_views(self.explain@),
        }
    }
}

/// The views of a list of plans, in order.
pub open spec fn plan_views(plans: Seq<RepairPlan>) -> Seq<RepairPlanView> {
    Seq::new(plans.len(), |i: int| plans[i]@)
}

} // verus!
