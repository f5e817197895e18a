//! Synthesizes repair plans from one cycle's observations.
//!
//! One plan is proposed per independent issue, in a fixed order: a stale
//! package-database lock, each failed unit that may be restarted, a broken
//! health opinion, a broken service-manager opinion.

use vstd::prelude::*;
use vstd::string::*;
use crate::clock::unix_seconds;
use crate::confidence::Confidence;
use crate::explain::{ExplainBlock, ExplainBlockView};
use crate::opinion::Opinion;
use crate::repair_plan::{RepairPlan, RepairPlanView, RiskLevel, plan_views};
use crate::reporter::ObserverReport;
use crate::text::{concat2, concat3, decimal, decimal_digits, str_eq, texts};

verus! {

/// Units for which no restart plan is ever proposed.
pub open spec fn plan_denylisted(unit: Seq<char>) -> bool {
    ||| unit == "basic.target"@
    ||| unit == "sysinit.target"@
    ||| unit == "multi-user.target"@
    ||| unit == "graphical.target"@
    ||| unit == "systemd-journald.service"@
    ||| unit == "systemd-logind.service"@
    ||| unit == "systemd-udevd.service"@
    ||| unit == "dbus.service"@
    ||| unit == "getty@tt1.service"@
}

/// A plan's identifier: the prefix, a hyphen, and the generation time in
/// decimal seconds.
pub open spec fn plan_id_text(prefix: Seq<char>, now: u64) -> Seq<char> {
    prefix + "-"@ + decimal_digits(now as nat)
}

/// The plan for a package-database lock that no process owns.
pub open spec fn lock_plan(confidence_high: bool, now: u64) -> RepairPlanView {
    RepairPlanView {
        id: plan_id_text("pacman-lock"@, now),
        issue: "pacman database is locked"@,
        risk: RiskLevel::Medium,
        confidence_high,
        reversible: true,
        requires_reboot: false,
        actions: seq!["rm -f /var/lib/pacman/db.lck"@, "pacman -Sy"@],
        explain: seq![
            ExplainBlockView {
                level: 1,
                title: "What happened?"@,
                body: "The pacman database lock file exists but no pacman process is running."@,
            },
            ExplainBlockView {
                level: 2,
                title: "Why is this safe?"@,
                body: "Removing a stale lock file is safe when no package transaction is active."@,
            },
        ],
    }
}

/// The plan that restarts one failed unit.
pub open spec fn restart_plan(unit: Seq<char>, confidence_high: bool, now: u64) -> RepairPlanView {
    RepairPlanView {
        id: plan_id_text("restart-"@ + unit, now),
        issue: "systemd unit '"@ + unit + "' failed"@,
        risk: RiskLevel::Low,
        confidence_high,
        reversible: true,
        requires_reboot: false,
        actions: seq!["systemctl restart "@ + unit],
        explain: seq![
            ExplainBlockView {
                level: 1,
                title: "What happened?"@,
                body: "The service is listed as failed by systemd."@,
            },
            ExplainBlockView {
                level: 2,
                title: "What will this do?"@,
                body: "Attempt to restart the failed service."@,
            },
        ],
    }
}

/// The plan for a broken health opinion.
pub open spec fn health_broken_plan(reason: Seq<char>, now: u64) -> RepairPlanView {
    RepairPlanView {
        id: plan_id_text("health-broken"@, now),
        issue: "system health broken: "@ + reason,
        risk: RiskLevel::High,
        confidence_high: false,
        reversible: false,
        requires_reboot: true,
        actions: seq!["Investigate system logs"@, "Consider rebooting"@],
        explain: seq![
            ExplainBlockView {
                level: 1,
                title: "Critical state"@,
                body: "The system health module detected a broken condition."@,
            },
        ],
    }
}

/// The plan for a broken service-manager opinion.
pub open spec fn systemd_broken_plan(reason: Seq<char>, now: u64) -> RepairPlanView {
    RepairPlanView {
        id: plan_id_text("systemd-broken"@, now),
        issue: "systemd integrity issue: "@ + reason,
        risk: RiskLevel::High,
        confidence_high: false,
        reversible: false,
        requires_reboot: true,
        actions: seq!["Check journalctl -xe"@, "Reboot system"@],
        explain: seq![
            ExplainBlockView {
                level: 1,
                title: "Systemd is broken"@,
                body: "Core service manager reported critical failure."@,
            },
        ],
    }
}

/// The lock plan, where the lock is stale; nothing otherwise.
pub open spec fn lock_plans(
    locked: bool,
    no_active_process: bool,
    confidence_high: bool,
    now: u64,
) -> Seq<RepairPlanView> {
    if locked && no_active_process {
        seq![lock_plan(confidence_high, now)]
    } else {
        Seq::empty()
    }
}

/// One restart plan for each failed unit that is not denylisted, in the
/// order of the units.
pub open spec fn unit_plans(units: Seq<Seq<char>>, confidence_high: bool, now: u64) -> Seq<
    RepairPlanView,
> {
    units.filter(|u: Seq<char>| !plan_denylisted(u)).map_values(
        |u: Seq<char>| restart_plan(u, confidence_high, now),
    )
}

/// The plan for a broken opinion of the system's health; nothing for any
/// other opinion.
pub open spec fn health_plans(health: Opinion, now: u64) -> Seq<RepairPlanView> {
    match health {
        Opinion::Broken { reason } => seq![health_broken_plan(reason@, now)],
        _ => Seq::empty(),
    }
}

/// The plan for a broken opinion of the service manager; nothing for any
/// other opinion.
pub open spec fn systemd_plans(systemd: Opinion, now: u64) -> Seq<RepairPlanView> {
    match systemd {
        Opinion::Broken { reason } => seq![systemd_broken_plan(reason@, now)],
        _ => Seq::empty(),
    }
}

/// All plans that one cycle's observations call for, generated at `now`.
pub open spec fn repair_plans(
    report: ObserverReport,
    health: Opinion,
    systemd: Opinion,
    now: u64,
) -> Seq<RepairPlanView> {
    let high = report.confidence == Confidence::High;
    lock_plans(report.pacman.locked, report.pacman.no_active_process, high, now) + unit_plans(
        texts(report.failed_units@),
        high,
        now,
    ) + health_plans(health, now) + systemd_plans(systemd, now)
}

/// Whether a unit is one for which no restart plan is proposed.
pub fn is_plan_denylisted(unit: &str) -> (r: bool)
    ensures
        r == plan_denylisted(unit@),
{
    str_eq(unit, "basic.target") || str_eq(unit, "sysinit.target") || str_eq(
        unit,
        "multi-user.target",
    ) || str_eq(unit, "graphical.target") || str_eq(unit, "systemd-journald.service") || str_eq(
        unit,
        "systemd-logind.service",
    ) || str_eq(unit, "systemd-udevd.service") || str_eq(unit, "dbus.service") || str_eq(
        unit,
        "getty@tt1.service",
    )
}

/// Builds a plan identifier from a prefix and the generation time.
pub fn plan_id(prefix: &str, now: u64) -> (id: String)
    ensures
        id@ == plan_id_text(prefix@, now),
{
    let digits = decimal(now);
    concat3(prefix, "-", digits.as_str())
}

/// Builds a plan identifier from a prefix and the current time.
pub fn generate_plan_id(prefix: &str) -> (id: String)
    ensures
        exists|now: u64| id@ == plan_id_text(prefix@, now),
{
    let now = unix_seconds();
    plan_id(prefix, now)
}

fn make_lock_plan(confidence_high: bool, now: u64) -> (plan: RepairPlan)
    ensures
        plan@ == lock_plan(confidence_high, now),
{
    let plan = RepairPlan {
        id: plan_id("pacman-lock", now),
        issue: String::from_str("pacman database is locked"),
        risk: RiskLevel::Medium,
        confidence_high,
        reversible: true,
        requires_reboot: false,
        actions: vec![
            String::from_str("rm -f /var/lib/pacman/db.lck"),
            String::from_str("pacman -Sy"),
        ],
        explain: vec![
            ExplainBlock {
                level: 1,
                title: "What happened?",
                body: "The pacman database lock file exists but no pacman process is running.",
            },
            ExplainBlock {
                level: 2,
                title: "Why is this safe?",
                body: "Removing a stale lock file is safe when no package transaction is active.",
            },
        ],
    };
    assert(plan@.actions =~= lock_plan(confidence_high, now).actions);
    assert(plan@.explain =~= lock_plan(confidence_high, now).explain);
    plan
}

fn make_restart_plan(unit: &str, confidence_high: bool, now: u64) -> (plan: RepairPlan)
    ensures
        plan@ == restart_plan(unit@, confidence_high, now),
{
    let prefix = concat2("restart-", unit);
    let plan = RepairPlan {
        id: plan_id(prefix.as_str(), now),
        issue: concat3("systemd unit '", unit, "' failed"),
        risk: RiskLevel::Low,
        confidence_high,
        reversible: true,
        requires_reboot: false,
        actions: vec![concat2("systemctl restart ", unit)],
        explain: vec![
            ExplainBlock {
                level: 1,
                title: "What happened?",
                body: "The service is listed as failed by systemd.",
            },
            ExplainBlock {
                level: 2,
                title: "What will this do?",
                body: "Attempt to restart the failed service.",
            },
        ],
    };
    assert(plan@.actions =~= restart_plan(unit@, confidence_high, now).actions);
    assert(plan@.explain =~= restart_plan(unit@, confidence_high, now).explain);
    plan
}

fn make_health_broken_plan(reason: &str, now: u64) -> (plan: RepairPlan)
    ensures
        plan@ == health_broken_plan(reason@, now),
{
    let plan = RepairPlan {
        id: plan_id("health-broken", now),
        issue: concat2("system health broken: ", reason),
        risk: RiskLevel::High,
        confidence_high: false,
        reversible: false,
        requires_reboot: true,
        actions: vec![
            String::from_str("Investigate system logs"),
            String::from_str("Consider rebooting"),
        ],
        explain: vec![
            ExplainBlock {
                level: 1,
                title: "Critical state",
                body: "The system health module detected a broken condition.",
            },
        ],
    };
    assert(plan@.actions =~= health_broken_plan(reason@, now).actions);
    assert(plan@.explain =~= health_broken_plan(reason@, now).explain);
    plan
}

fn make_systemd_broken_plan(reason: &str, now: u64) -> (plan: RepairPlan)
    ensures
        plan@ == systemd_broken_plan(reason@, now),
{
    let plan = RepairPlan {
        id: plan_id("systemd-broken", now),
        issue: concat2("systemd integrity issue: ", reason),
        risk: RiskLevel::High,
        confidence_high: false,
        reversible: false,
        requires_reboot: true,
        actions: vec![
            String::from_str("Check journalctl -xe"),
            String::from_str("Reboot system"),
        ],
        explain: vec![
            ExplainBlock {
                level: 1,
                title: "Systemd is broken",
                body: "Core service manager reported critical failure.",
            },
        ],
    };
    assert(plan@.actions =~= systemd_broken_plan(reason@, now).actions);
    assert(plan@.explain =~= systemd_broken_plan(reason@, now).explain);
    plan
}

/// Appending a unit to the failed units appends its restart plan, unless the
/// unit is denylisted.
proof fn lemma_unit_plans_push(
    units: Seq<Seq<char>>,
    unit: Seq<char>,
    confidence_high: bool,
    now: u64,
)
    ensures
        unit_plans(units.push(unit), confidence_high, now) == if plan_denylisted(unit) {
            unit_plans(units, confidence_high, now)
        } else {
            unit_plans(units, confidence_high, now).push(restart_plan(unit, confidence_high, now))
        },
{
    reveal(Seq::filter);
    let keep = |u: Seq<char>| !plan_denylisted(u);
    assert(units.push(unit).drop_last() =~= units);
    assert(units.push(unit).last() == unit);
    if plan_denylisted(unit) {
        assert(units.push(unit).filter(keep) == units.filter(keep));
    } else {
        assert(units.push(unit).filter(keep) == units.filter(keep).push(unit));
        assert(unit_plans(units.push(unit), confidence_high, now) =~= unit_plans(
            units,
            confidence_high,
            now,
        ).push(restart_plan(unit, confidence_high, now)));
    }
}

/// Two units with the same restart identifier are the same unit.
proof fn lemma_restart_id_injective(first: Seq<char>, second: Seq<char>, now: u64)
    requires
        plan_id_text("restart-"@ + first, now) == plan_id_text("restart-"@ + second, now),
    ensures
        first == second,
{
    let head = "restart-"@;
    let tail = "-"@ + decimal_digits(now as nat);
    let one = plan_id_text(head + first, now);
    let other = plan_id_text(head + second, now);
    assert(one =~= head + first + tail);
    assert(other =~= head + second + tail);
    assert(one.len() == head.len() + first.len() + tail.len());
    assert(other.len() == head.len() + second.len() + tail.len());
    assert forall|i: int| 0 <= i < first.len() implies first[i] == second[i] by {
        assert(one[head.len() + i] == first[i]);
        assert(other[head.len() + i] == second[i]);
    }
    assert(first =~= second);
}

/// The restart plans of units that are listed once each: every identifier
/// begins with `r`, belongs to one of the units, and occurs once.
proof fn lemma_restart_ids_distinct(units: Seq<Seq<char>>, confidence_high: bool, now: u64)
    requires
        units.no_duplicates(),
    ensures
        forall|i: int|
            0 <= i < unit_plans(units, confidence_high, now).len() ==> {
                &&& (#[trigger] unit_plans(units, confidence_high, now)[i]).id.len() > 0
                &&& unit_plans(units, confidence_high, now)[i].id[0] == 'r'
                &&& exists|k: int|
                    0 <= k < units.len() && unit_plans(units, confidence_high, now)[i].id
                        == plan_id_text("restart-"@ + #[trigger] units[k], now)
            },
        forall|i: int, j: int|
            0 <= i < j < unit_plans(units, confidence_high, now).len() ==> (#[trigger] unit_plans(
                units,
                confidence_high,
                now,
            )[i]).id != (#[trigger] unit_plans(units, confidence_high, now)[j]).id,
    decreases units.len(),
{
    reveal(Seq::filter);
    if units.len() == 0 {
        assert(unit_plans(units, confidence_high, now).len() == 0);
    } else {
        let earlier = units.drop_last();
        let unit = units.last();
        let before = unit_plans(earlier, confidence_high, now);
        let after = unit_plans(units, confidence_high, now);
        assert(earlier.push(unit) =~= units);
        assert(earlier.no_duplicates()) by {
            assert forall|i: int, j: int|
                0 <= i < earlier.len() && 0 <= j < earlier.len() && i != j implies earlier[i]
                != earlier[j] by {
                assert(units[i] != units[j]);
            }
        }
        lemma_restart_ids_distinct(earlier, confidence_high, now);
        lemma_unit_plans_push(earlier, unit, confidence_high, now);
        assert forall|i: int| 0 <= i < before.len() implies exists|k: int|
            0 <= k < units.len() && (#[trigger] before[i]).id == plan_id_text(
                "restart-"@ + #[trigger] units[k],
                now,
            ) by {
            let k = choose|k: int|
                0 <= k < earlier.len() && before[i].id == plan_id_text(
                    "restart-"@ + #[trigger] earlier[k],
                    now,
                );
            assert(units[k] == earlier[k]);
        }
        if !plan_denylisted(unit) {
            let added = restart_plan(unit, confidence_high, now);
            let last = before.len() as int;
            assert(after == before.push(added));
            assert(added.id.len() > 0 && added.id[0] == 'r') by {
                reveal_strlit("restart-");
                assert(added.id =~= "restart-"@ + unit + "-"@ + decimal_digits(now as nat));
            }
            assert(added.id == plan_id_text("restart-"@ + units[units.len() - 1], now));
            assert forall|i: int| 0 <= i < before.len() implies (#[trigger] before[i]).id
                != added.id by {
                let k = choose|k: int|
                    0 <= k < earlier.len() && before[i].id == plan_id_text(
                        "restart-"@ + #[trigger] earlier[k],
                        now,
                    );
                assert(units[k] != units[units.len() - 1]);
                if before[i].id == added.id {
                    lemma_restart_id_injective(earlier[k], unit, now);
                }
            }
            assert forall|i: int| 0 <= i < after.len() implies {
                &&& (#[trigger] after[i]).id.len() > 0
                &&& after[i].id[0] == 'r'
                &&& exists|k: int|
                    0 <= k < units.len() && after[i].id == plan_id_text(
                        "restart-"@ + #[trigger] units[k],
                        now,
                    )
            } by {
                if i < last {
                    assert(after[i] == before[i]);
                }
            }
            assert forall|i: int, j: int| 0 <= i < j < after.len() implies (#[trigger] after[i]).id
                != (#[trigger] after[j]).id by {
                assert(after[i] == before[i]);
                if j < last {
                    assert(after[j] == before[j]);
                }
            }
        }
    }
}

/// The plans of one generation carry distinct identifiers, provided that no
/// failed unit is listed twice.
pub proof fn lemma_plan_ids_distinct(
    report: ObserverReport,
    health: Opinion,
    systemd: Opinion,
    now: u64,
)
    requires
        texts(report.failed_units@).no_duplicates(),
    ensures
        forall|i: int, j: int|
            0 <= i < j < repair_plans(report, health, systemd, now).len() ==> (
            #[trigger] repair_plans(report, health, systemd, now)[i]).id != (
            #[trigger] repair_plans(report, health, systemd, now)[j]).id,
{
    let high = report.confidence == Confidence::High;
    let locks = lock_plans(report.pacman.locked, report.pacman.no_active_process, high, now);
    let restarts = unit_plans(texts(report.failed_units@), high, now);
    let healths = health_plans(health, now);
    let systemds = systemd_plans(systemd, now);
    let all = repair_plans(report, health, systemd, now);
    let digits = "-"@ + decimal_digits(now as nat);
    lemma_restart_ids_distinct(texts(report.failed_units@), high, now);
    assert forall|i: int| 0 <= i < locks.len() implies (#[trigger] locks[i]).id.len() > 0
        && locks[i].id[0] == 'p' by {
        reveal_strlit("pacman-lock");
        assert(locks[i].id =~= "pacman-lock"@ + digits);
    }
    assert forall|i: int| 0 <= i < healths.len() implies (#[trigger] healths[i]).id.len() > 0
        && healths[i].id[0] == 'h' by {
        reveal_strlit("health-broken");
        assert(healths[i].id =~= "health-broken"@ + digits);
    }
    assert forall|i: int| 0 <= i < systemds.len() implies (#[trigger] systemds[i]).id.len() > 0
        && systemds[i].id[0] == 's' by {
        reveal_strlit("systemd-broken");
        assert(systemds[i].id =~= "systemd-broken"@ + digits);
    }
    assert(all == locks + restarts + healths + systemds);
    let a = locks.len() as int;
    let b = a + restarts.len();
    let c = b + healths.len();
    assert forall|i: int| 0 <= i < all.len() implies (#[trigger] all[i]).id.len() > 0
        && all[i].id[0] == (if i < a {
        'p'
    } else if i < b {
        'r'
    } else if i < c {
        'h'
    } else {
        's'
    }) by {
        if i < a {
            assert(all[i] == locks[i]);
        } else if i < b {
            assert(all[i] == restarts[i - a]);
        } else if i < c {
            assert(all[i] == healths[i - b]);
        } else {
            assert(all[i] == systemds[i - c]);
        }
    }
    assert forall|i: int, j: int| 0 <= i < j < all.len() implies (#[trigger] all[i]).id != (
    #[trigger] all[j]).id by {
        if a <= i && j < b {
            assert(all[i] == restarts[i - a]);
            assert(all[j] == restarts[j - a]);
        }
    }
}

/// Builds the plans that the observations call for, generated at `now`.
///
/// The result holds, in this order: the lock plan where the package
/// database is locked and no process owns the lock; one restart plan for
/// each failed unit that is not denylisted; one plan for a broken health
/// opinion; one plan for a broken service-manager opinion.
pub fn build_repair_plans_at(
    report: &ObserverReport,
    health: &Opinion,
    systemd: &Opinion,
    now: u64,
) -> (plans: Vec<RepairPlan>)
    ensures
        plan_views(plans@) == repair_plans(*report, *health, *systemd, now),
{
    let mut plans: Vec<RepairPlan> = Vec::new();
    let high = report.confidence == Confidence::High;
    let ghost units = texts(report.failed_units@);
    let ghost head = lock_plans(report.pacman.locked, report.pacman.no_active_process, high, now);

    if report.pacman.locked && report.pacman.no_active_process {
        plans.push(make_lock_plan(high, now));
    }
    proof {
        reveal(Seq::filter);
        assert(plan_views(plans@) =~= head);
        assert(units.take(0) =~= Seq::<Seq<char>>::empty());
        assert(unit_plans(units.take(0), high, now) =~= Seq::<RepairPlanView>::empty());
        assert(plan_views(plans@) =~= head + unit_plans(units.take(0), high, now));
    }

    let mut i: usize = 0;
    while i < report.failed_units.len()
        invariant
            i <= report.failed_units.len(),
            units == texts(report.failed_units@),
            plan_views(plans@) == head + unit_plans(units.take(i as int), high, now),
        decreases report.failed_units.len() - i,
    {
        let unit = report.failed_units[i].as_str();
        proof {
            assert(units.take(i as int + 1) =~= units.take(i as int).push(unit@));
            lemma_unit_plans_push(units.take(i as int), unit@, high, now);
        }
        if !is_plan_denylisted(unit) {
            let ghost before = plans@;
            plans.push(make_restart_plan(unit, high, now));
            assert(plan_views(plans@) =~= plan_views(before).push(
                restart_plan(unit@, high, now),
            ));
        }
        i = i + 1;
    }
    assert(units.take(report.failed_units.len() as int) =~= units);
    let ghost middle = head + unit_plans(units, high, now);

    match health {
        Opinion::Broken { reason } => {
            let ghost before = plans@;
            plans.push(make_health_broken_plan(reason.as_str(), now));
            assert(plan_views(plans@) =~= plan_views(before).push(
                health_broken_plan(reason@, now),
            ));
        },
        _ => {},
    }
    assert(plan_views(plans@) =~= middle + health_plans(*health, now));
    let ghost upper = middle + health_plans(*health, now);

    match systemd {
        Opinion::Broken { reason } => {
            let ghost before = plans@;
            plans.push(make_systemd_broken_plan(reason.as_str(), now));
            assert(plan_views(plans@) =~= plan_views(before).push(
                systemd_broken_plan(reason@, now),
            ));
        },
        _ => {},
    }
    assert(plan_views(plans@) =~= upper + systemd_plans(*systemd, now));
    plans
}

/// Builds the plans that the observations call for, stamped with the current
/// time. The clock is read once, so every plan of one call carries the same
/// time in its identifier.
pub fn build_repair_plans(report: &ObserverReport, health: &Opinion, systemd: &Opinion) -> (plans:
    Vec<RepairPlan>)
    ensures
        exists|now: u64| plan_views(plans@) == repair_plans(*report, *health, *systemd, now),
{
    let now = unix_seconds();
    build_repair_plans_at(report, health, systemd, now)
}

} // verus!
