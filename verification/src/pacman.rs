//! Package-manager remediation: the stale-lock plan and the status lines of
//! the higher remediation tiers.

use vstd::prelude::*;
use vstd::string::*;
use crate::explain::{ExplainBlock, ExplainBlockView};
use crate::repair_plan::{RepairPlan, RepairPlanView, RiskLevel};

verus! {

/// The fixed plan that removes a stale database lock and refreshes the
/// package databases.
pub open spec fn pacman_fix_plan() -> RepairPlanView {
    RepairPlanView {
        id: "pacman-fix"@,
        issue: "pacman database is locked and inconsistent"@,
        risk: RiskLevel::Medium,
        confidence_high: true,
        reversible: true,
        requires_reboot: false,
        actions: seq!["rm -f /var/lib/pacman/db.lck"@, "pacman -Syy"@],
        explain: seq![
            ExplainBlockView {
                level: 1,
                title: "What happened"@,
                body: "A previous pacman process exited unexpectedly, leaving a stale lock file."@,
            },
            ExplainBlockView {
                level: 2,
                title: "Why this is safe"@,
                body: "No pacman process is currently running. Only the lock file will be removed."@,
            },
            ExplainBlockView {
                level: 3,
                title: "Exact actions"@,
                body: "rm -f /var/lib/pacman/db.lck\npacman -Syy"@,
            },
        ],
    }
}

/// Proposes the lock repair exactly when the database is locked and no
/// package-manager process is running.
pub fn pacman_lock_repair_plan(locked: bool, no_active_process: bool) -> (plan: Option<RepairPlan>)
    ensures
        plan is Some <==> locked && no_active_process,
        plan matches Some(p) ==> p@ == pacman_fix_plan(),
{
    if !(locked && no_active_process) {
        return None;
    }
    let plan = RepairPlan {
        issue: String::from_str("pacman database is locked and inconsistent"),
        id: String::from_str("pacman-fix"),
        risk: RiskLevel::Medium,
        confidence_high: true,
        reversible: true,
        requires_reboot: false,
        actions: vec![
            String::from_str("rm -f /var/lib/pacman/db.lck"),
            String::from_str("pacman -Syy"),
        ],
        explain: vec![
            ExplainBlock {
                level: 1,
                title: "What happened",
                body: "A previous pacman process exited unexpectedly, leaving a stale lock file.",
            },
            ExplainBlock {
                level: 2,
                title: "Why this is safe",
                body: "No pacman process is currently running. Only the lock file will be removed.",
            },
            ExplainBlock {
                level: 3,
                title: "Exact actions",
                body: "rm -f /var/lib/pacman/db.lck\npacman -Syy",
            },
        ],
    };
    assert(plan@.actions =~= pacman_fix_plan().actions);
    assert(plan@.explain =~= pacman_fix_plan().explain);
    Some(plan)
}

/// The status line of the lock-removal tier. Removing the lock file is left
/// to the caller.
pub fn heal() -> (status: String)
    ensures
        status@ == "removed stale pacman lock"@,
{
    String::from_str("removed stale pacman lock")
}

/// The status line of the database-sync tier.
pub fn sync_db() -> (status: String)
    ensures
        status@ == "pacman DB sync triggered"@,
{
    String::from_str("pacman DB sync triggered")
}

/// The status line of the base-reinstall tier.
pub fn reinstall_base() -> (status: String)
    ensures
        status@ == "base packages reinstall triggered"@,
{
    String::from_str("base packages reinstall triggered")
}

} // verus!
