//! Grades a raw unit failure by the unit's role.

use vstd::prelude::*;
use vstd::string::*;
use crate::detector::RawDetection;
use crate::text::{concat2, occurs_in, str_contains};

verus! {

/// How much a detection matters.
#[derive(Debug, Clone, Copy, PartialEq, Eq, PartialOrd, Ord, Structural)]
pub enum Severity {
    Info,
    Warn,
    Critical,
}

/// A failed unit with its grade and the reason for it.
#[derive(Debug)]
pub struct Detection {
    pub unit: String,
    pub severity: Severity,
    pub reason: String,
}

/// Whether the unit's name marks it as core identity or session
/// infrastructure: the login manager or the message bus.
pub open spec fn is_critical_unit(unit: Seq<char>) -> bool {
    occurs_in("systemd-logind"@, unit) || occurs_in("dbus"@, unit)
}

/// The grade that the classifier gives a unit.
pub open spec fn classified_severity(unit: Seq<char>) -> Severity {
    if is_critical_unit(unit) {
        Severity::Critical
    } else {
        Severity::Info
    }
}

/// Grades a raw detection: `Critical` for core identity and session
/// infrastructure, `Info` for everything else. The reason quotes the status
/// that the service manager reported.
pub fn classify(raw: RawDetection) -> (detection: Detection)
    ensures
        detection.unit == raw.unit,
        detection.severity == classified_severity(raw.unit@),
        detection.reason@ == "systemd reported status: "@ + raw.status@,
{
    let severity = if str_contains(raw.unit.as_str(), "systemd-logind") || str_contains(
        raw.unit.as_str(),
        "dbus",
    ) {
        Severity::Critical
    } else {
        Severity::Info
    };
    let reason = concat2("systemd reported status: ", raw.status.as_str());
    Detection { unit: raw.unit, severity, reason }
}

} // verus!
