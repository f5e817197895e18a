//! The observer's snapshot of the host and the confidence derived from it.

use vstd::prelude::*;
use vstd::string::*;
use crate::classifier::{Detection, Severity};
use crate::confidence::Confidence;
use crate::repair_plan::{RepairPlan, RiskLevel};
use crate::state::BootContext;
use crate::text::{
    concat2, concat3, line_texts, picked, str_eq, str_lines, str_split_whitespace, texts,
    whitespace_words,
};

verus! {

/// What the package-manager probe saw.
#[derive(Debug)]
pub struct PacmanState {
    /// The database lock file exists.
    pub locked: bool,
    /// No package-manager process is running.
    pub no_active_process: bool,
}

/// One cycle's observation of the host.
#[derive(Debug)]
pub struct ObserverReport {
    pub boot_context: BootContext,
    pub failed_units: Vec<String>,
    pub confidence: Confidence,
    pub pacman: PacmanState,
}

/// The observer's confidence for a boot phase and a number of failed units.
/// Unknown and early boot give `Low`; early userspace with more than five
/// failed units gives `Low`; a multi-user or graphical system gives `High`;
/// everything else gives `Medium`.
pub open spec fn observer_confidence(boot_context: BootContext, failed: nat) -> Confidence {
    match boot_context {
        BootContext::Unknown | BootContext::EarlyBoot => Confidence::Low,
        BootContext::EarlyUserspace => if failed > 5 {
            Confidence::Low
        } else {
            Confidence::Medium
        },
        BootContext::Graphical | BootContext::MultiUser => Confidence::High,
        BootContext::Rescue => Confidence::Medium,
    }
}

/// Derives the observer's confidence from the boot phase and the failed
/// units.
pub fn derive_confidence(boot_context: BootContext, failed_units: &[String]) -> (r: Confidence)
    ensures
        r == observer_confidence(boot_context, failed_units@.len()),
{
    match boot_context {
        BootContext::Unknown => Confidence::Low,
        BootContext::EarlyBoot => Confidence::Low,
        BootContext::EarlyUserspace => if failed_units.len() > 5 {
            Confidence::Low
        } else {
            Confidence::Medium
        },
        BootContext::Graphical => Confidence::High,
        BootContext::MultiUser => Confidence::High,
        BootContext::Rescue => Confidence::Medium,
    }
}

impl ObserverReport {
    /// Assembles the report from what the probes returned: the boot phase,
    /// the failed units in scan order, whether the package database lock
    /// exists, and whether a package-manager process is running.
    pub fn collect(
        boot_context: BootContext,
        failed_units: Vec<String>,
        lock_exists: bool,
        pacman_running: bool,
    ) -> (report: ObserverReport)
        ensures
            report.boot_context == boot_context,
            report.failed_units == failed_units,
            report.confidence == observer_confidence(boot_context, failed_units@.len()),
            report.pacman.locked == lock_exists,
            report.pacman.no_active_process == !pacman_running,
    {
        let confidence = derive_confidence(boot_context, failed_units.as_slice());
        ObserverReport {
            boot_context,
            failed_units,
            confidence,
            pacman: PacmanState { locked: lock_exists, no_active_process: !pacman_running },
        }
    }
}

/// The name of a severity as it is printed.
pub open spec fn severity_label(severity: Severity) -> Seq<char> {
    match severity {
        Severity::Info => "INFO"@,
        Severity::Warn => "WARN"@,
        Severity::Critical => "CRITICAL"@,
    }
}

/// The line that reports a detection: the severity in square brackets, the
/// unit, an arrow, the reason.
pub open spec fn detection_line(
    severity: Severity,
    unit: Seq<char>,
    reason: Seq<char>,
) -> Seq<char> {
    "["@ + severity_label(severity) + "] "@ + unit + " \u{2192} "@ + reason
}

/// Formats the line that reports a detection. Printing it is left to the
/// caller.
pub fn emit(d: &Detection) -> (line: String)
    ensures
        line@ == detection_line(d.severity, d.unit@, d.reason@),
{
    let label = match d.severity {
        Severity::Info => "INFO",
        Severity::Warn => "WARN",
        Severity::Critical => "CRITICAL",
    };
    let mut line = concat3("[", label, "] ");
    line.append(d.unit.as_str());
    line.append(" \u{2192} ");
    line.append(d.reason.as_str());
    line
}

/// The unit that the words of a listing line name: the second word where
/// the first is the bullet marker, else the first. A line without words,
/// and a marker alone, name none.
pub open spec fn failed_unit_of_words(words: Seq<Seq<char>>) -> Option<Seq<char>> {
    if words.len() == 0 {
        None
    } else if words[0] == "\u{25cf}"@ {
        if words.len() >= 2 {
            Some(words[1])
        } else {
            None
        }
    } else {
        Some(words[0])
    }
}

/// The unit that a line of the failed-unit listing names.
pub open spec fn failed_unit_of_line(line: Seq<char>) -> Option<Seq<char>> {
    failed_unit_of_words(whitespace_words(line))
}

/// The units that the lines of a listing name, in order.
pub open spec fn failed_units_of_lines(lines: Seq<Seq<char>>) -> Seq<Seq<char>> {
    picked(lines, |line: Seq<char>| failed_unit_of_line(line))
}

/// The unit named by a listing line that was split into its words.
pub fn failed_unit_of(words: &Vec<String>) -> (unit: Option<String>)
    ensures
        match unit {
            Some(u) => failed_unit_of_words(texts(words@)) == Some(u@),
            None => failed_unit_of_words(texts(words@)) is None,
        },
{
    if words.len() == 0 {
        return None;
    }
    assert(texts(words@)[0] == words@[0]@);
    if str_eq(words[0].as_str(), "\u{25cf}") {
        if words.len() >= 2 {
            assert(texts(words@)[1] == words@[1]@);
            Some(words[1].clone())
        } else {
            None
        }
    } else {
        Some(words[0].clone())
    }
}

/// The units named by the lines of a listing, in order.
pub fn failed_units_of(lines: &Vec<String>) -> (units: Vec<String>)
    ensures
        texts(units@) == failed_units_of_lines(texts(lines@)),
{
    let mut units: Vec<String> = Vec::new();
    let ghost all = texts(lines@);
    let ghost pick = |line: Seq<char>| failed_unit_of_line(line);
    let mut i: usize = 0;
    assert(all.take(0) =~= Seq::<Seq<char>>::empty());
    assert(texts(units@) =~= picked(all.take(0), pick));
    while i < lines.len()
        invariant
            i <= lines.len(),
            all == texts(lines@),
            pick == (|line: Seq<char>| failed_unit_of_line(line)),
            texts(units@) == picked(all.take(i as int), pick),
        decreases lines.len() - i,
    {
        proof {
            assert(all.take(i as int + 1).drop_last() =~= all.take(i as int));
            assert(all.take(i as int + 1).last() == lines@[i as int]@);
        }
        let words = str_split_whitespace(lines[i].as_str());
        match failed_unit_of(&words) {
            Some(unit) => {
                let ghost before = units@;
                units.push(unit);
                assert(texts(units@) =~= texts(before).push(unit@));
            },
            None => {},
        }
        i = i + 1;
    }
    assert(all.take(lines.len() as int) =~= all);
    units
}

/// The failed units for the observer's report, read from the answer to the
/// failed-unit query: `None` where the query failed, which gives no unit.
pub fn collect_failed_units(output: Option<&str>) -> (units: Vec<String>)
    ensures
        texts(units@) == match output {
            Some(listing) => failed_units_of_lines(line_texts(listing@)),
            None => Seq::<Seq<char>>::empty(),
        },
{
    match output {
        Some(listing) => {
            let lines = str_lines(listing);
            failed_units_of(&lines)
        },
        None => {
            let units: Vec<String> = Vec::new();
            assert(texts(units@) =~= Seq::<Seq<char>>::empty());
            units
        },
    }
}

/// The name of a risk level as it is printed.
pub open spec fn risk_label(risk: RiskLevel) -> Seq<char> {
    match risk {
        RiskLevel::Low => "Low"@,
        RiskLevel::Medium => "Medium"@,
        RiskLevel::High => "High"@,
    }
}

/// A truth value as it is printed.
pub open spec fn bool_label(value: bool) -> Seq<char> {
    if value {
        "true"@
    } else {
        "false"@
    }
}

/// The bulleted lines of a plan's actions.
pub open spec fn action_lines(actions: Seq<Seq<char>>) -> Seq<Seq<char>> {
    Seq::new(actions.len(), |i: int| "  \u{2022} "@ + actions[i])
}

/// The lines of a plan's summary: a heading, the identifier, the issue, the
/// risk, the three flags, and the actions as a bulleted list.
pub open spec fn summary_lines(
    id: Seq<char>,
    issue: Seq<char>,
    risk: RiskLevel,
    confidence_high: bool,
    reversible: bool,
    requires_reboot: bool,
    actions: Seq<Seq<char>>,
) -> Seq<Seq<char>> {
    seq![
        "\n\u{26a0} VoxLinux detected an issue"@,
        "ID: "@ + id,
        "Issue: "@ + issue,
        "Risk: "@ + risk_label(risk),
        "Confidence High: "@ + bool_label(confidence_high),
        "Reversible: "@ + bool_label(reversible),
        "Requires Reboot: "@ + bool_label(requires_reboot),
        "Actions:"@,
    ] + action_lines(actions)
}

/// The printed form of a truth value.
fn bool_text(value: bool) -> (text: &'static str)
    ensures
        text@ == bool_label(value),
{
    if value {
        "true"
    } else {
        "false"
    }
}

/// Formats the summary of a plan, line by line. Printing it is left to the
/// caller.
pub fn print_plan_summary(plan: &RepairPlan) -> (lines: Vec<String>)
    ensures
        texts(lines@) == summary_lines(
            plan.id@,
            plan.issue@,
            plan.risk,
            plan.confidence_high,
            plan.reversible,
            plan.requires_reboot,
            texts(plan.actions@),
        ),
{
    let risk = match plan.risk {
        RiskLevel::Low => "Low",
        RiskLevel::Medium => "Medium",
        RiskLevel::High => "High",
    };
    let mut lines: Vec<String> = vec![
        String::from_str("\n\u{26a0} VoxLinux detected an issue"),
        concat2("ID: ", plan.id.as_str()),
        concat2("Issue: ", plan.issue.as_str()),
        concat2("Risk: ", risk),
        concat2("Confidence High: ", bool_text(plan.confidence_high)),
        concat2("Reversible: ", bool_text(plan.reversible)),
        concat2("Requires Reboot: ", bool_text(plan.requires_reboot)),
        String::from_str("Actions:"),
    ];
    let ghost head = texts(lines@);
    let ghost actions = texts(plan.actions@);
    let mut i: usize = 0;
    assert(texts(lines@) =~= head + action_lines(actions.take(0)));
    while i < plan.actions.len()
        invariant
            i <= plan.actions.len(),
            actions == texts(plan.actions@),
            texts(lines@) == head + action_lines(actions.take(i as int)),
        decreases plan.actions.len() - i,
    {
        let ghost before = lines@;
        lines.push(concat2("  \u{2022} ", plan.actions[i].as_str()));
        assert(texts(lines@) =~= texts(before).push("  \u{2022} "@ + actions[i as int]));
        assert(action_lines(actions.take(i as int + 1)) =~= action_lines(
            actions.take(i as int),
        ).push("  \u{2022} "@ + actions[i as int]));
        i = i + 1;
    }
    assert(actions.take(plan.actions.len() as int) =~= actions);
    assert(head =~= summary_lines(
        plan.id@,
        plan.issue@,
        plan.risk,
        plan.confidence_high,
        plan.reversible,
        plan.requires_reboot,
        Seq::<Seq<char>>::empty(),
    ));
    lines
}

/// The directory that plans are written to.
pub open spec fn plan_dir() -> Seq<char> {
    "/run/voxlinux/plans"@
}

/// The file that a plan is written to: its identifier with the extension
/// `.json`, in the plan directory.
pub fn plan_path(id: &str) -> (path: String)
    ensures
        path@ == plan_dir() + "/"@ + id@ + ".json"@,
{
    let mut path = concat3("/run/voxlinux/plans", "/", id);
    path.append(".json");
    path
}

} // verus!
