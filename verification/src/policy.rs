//! Re-grades a detection against the static ignore and allow lists.

use vstd::prelude::*;
use vstd::string::*;
use crate::classifier::{Detection, Severity};
use crate::text::{str_eq, str_starts_with};

verus! {

/// A unit matches a pattern when it is the pattern or begins with it.
pub open spec fn pattern_matches(unit: Seq<char>, pattern: Seq<char>) -> bool {
    unit == pattern || pattern.is_prefix_of(unit)
}

/// Whether the unit matches one of the patterns of known-noisy units.
pub open spec fn is_ignored(unit: Seq<char>) -> bool {
    ||| pattern_matches(unit, "getty@"@)
    ||| pattern_matches(unit, "serial-getty@"@)
    ||| pattern_matches(unit, "bluetooth.service"@)
    ||| pattern_matches(unit, "cups.service"@)
    ||| pattern_matches(unit, "modemmanager.service"@)
    ||| pattern_matches(unit, "avahi-daemon.service"@)
    ||| pattern_matches(unit, "power-profiles-daemon.service"@)
}

/// Whether the unit is one of those whose severity may stand.
pub open spec fn is_allowed(unit: Seq<char>) -> bool {
    ||| unit == "NetworkManager.service"@
    ||| unit == "pipewire.service"@
    ||| unit == "wireplumber.service"@
    ||| unit == "sddm.service"@
    ||| unit == "systemd-logind.service"@
    ||| unit == "dbus.service"@
}

/// The severity that the policy leaves a detection with.
pub open spec fn policy_severity(unit: Seq<char>, severity: Severity) -> Severity {
    if !is_ignored(unit) && is_allowed(unit) {
        severity
    } else {
        Severity::Info
    }
}

/// The reason that the policy leaves a detection with: the old one, with an
/// audit suffix where the severity was forced down.
pub open spec fn policy_reason(unit: Seq<char>, reason: Seq<char>) -> Seq<char> {
    if is_ignored(unit) {
        reason + " (ignored by policy)"@
    } else if is_allowed(unit) {
        reason
    } else {
        reason + " (not in allow list)"@
    }
}

/// Whether the unit is the pattern or begins with it.
pub fn matches_pattern(unit: &str, pattern: &str) -> (r: bool)
    ensures
        r == pattern_matches(unit@, pattern@),
{
    str_eq(unit, pattern) || str_starts_with(unit, pattern)
}

/// Whether the unit matches an ignore pattern.
pub fn unit_is_ignored(unit: &str) -> (r: bool)
    ensures
        r == is_ignored(unit@),
{
    matches_pattern(unit, "getty@") || matches_pattern(unit, "serial-getty@") || matches_pattern(
        unit,
        "bluetooth.service",
    ) || matches_pattern(unit, "cups.service") || matches_pattern(unit, "modemmanager.service")
        || matches_pattern(unit, "avahi-daemon.service") || matches_pattern(
        unit,
        "power-profiles-daemon.service",
    )
}

/// Whether the unit is on the allow list.
pub fn unit_is_allowed(unit: &str) -> (r: bool)
    ensures
        r == is_allowed(unit@),
{
    str_eq(unit, "NetworkManager.service") || str_eq(unit, "pipewire.service") || str_eq(
        unit,
        "wireplumber.service",
    ) || str_eq(unit, "sddm.service") || str_eq(unit, "systemd-logind.service") || str_eq(
        unit,
        "dbus.service",
    )
}

/// Applies the policy to a detection and returns the re-graded detection.
///
/// An ignored unit is forced to `Info`; otherwise an allow-listed unit keeps
/// its severity; every other unit is forced to `Info`. Each forcing appends
/// its audit suffix to the reason. Only an allow-listed unit can leave with
/// a severity above `Info`.
pub fn apply_policy(d: Detection) -> (filtered: Detection)
    ensures
        filtered.unit == d.unit,
        filtered.severity == policy_severity(d.unit@, d.severity),
        filtered.reason@ == policy_reason(d.unit@, d.reason@),
        filtered.severity != Severity::Info ==> is_allowed(d.unit@) && !is_ignored(d.unit@),
{
    let mut d = d;
    if unit_is_ignored(d.unit.as_str()) {
        d.severity = Severity::Info;
        d.reason.append(" (ignored by policy)");
        return d;
    }
    if unit_is_allowed(d.unit.as_str()) {
        return d;
    }
    d.severity = Severity::Info;
    d.reason.append(" (not in allow list)");
    d
}

} // verus!
