use voxlinuxd::classifier::{classify, Detection, Severity};
use voxlinuxd::detector::RawDetection;
use voxlinuxd::policy::{apply_policy, matches_pattern, unit_is_allowed, unit_is_ignored};

fn raw(unit: &str, status: &str) -> RawDetection {
    RawDetection { unit: unit.to_string(), status: status.to_string() }
}

fn detection(unit: &str, severity: Severity, reason: &str) -> Detection {
    Detection { unit: unit.to_string(), severity, reason: reason.to_string() }
}

#[test]
fn classify_marks_login_manager_and_bus_critical() {
    for unit in [
        "systemd-logind.service",
        "dbus.service",
        "dbus-broker.service",
        "org.freedesktop.dbus.socket",
        "xsystemd-logindx",
    ] {
        let d = classify(raw(unit, "loaded/failed/failed"));
        assert_eq!(d.severity, Severity::Critical);
        assert_eq!(d.unit, unit);
        assert_eq!(d.reason, "systemd reported status: loaded/failed/failed");
    }
}

#[test]
fn classify_marks_everything_else_info() {
    for unit in ["NetworkManager.service", "sshd.service", "dbu.service", "systemd-login", "", "DBUS"] {
        let d = classify(raw(unit, "x"));
        assert_eq!(d.severity, Severity::Info);
        assert_eq!(d.reason, "systemd reported status: x");
    }
}

#[test]
fn getty_is_always_forced_to_info() {
    for severity in [Severity::Info, Severity::Warn, Severity::Critical] {
        let d = apply_policy(detection("getty@tty1.service", severity, "why"));
        assert_eq!(d.severity, Severity::Info);
        assert_eq!(d.unit, "getty@tty1.service");
        assert_eq!(d.reason, "why (ignored by policy)");
    }
}

#[test]
fn network_manager_keeps_critical() {
    let d = apply_policy(detection("NetworkManager.service", Severity::Critical, "why"));
    assert_eq!(d.severity, Severity::Critical);
    assert_eq!(d.reason, "why");
    assert_eq!(d.unit, "NetworkManager.service");
}

#[test]
fn allow_listed_units_keep_their_severity() {
    for unit in [
        "NetworkManager.service",
        "pipewire.service",
        "wireplumber.service",
        "sddm.service",
        "systemd-logind.service",
        "dbus.service",
    ] {
        assert!(unit_is_allowed(unit));
        for severity in [Severity::Info, Severity::Warn, Severity::Critical] {
            let d = apply_policy(detection(unit, severity, "r"));
            assert_eq!(d.severity, severity);
            assert_eq!(d.reason, "r");
        }
    }
}

#[test]
fn ignore_patterns_match_by_prefix_or_equality() {
    for unit in [
        "getty@",
        "getty@tty2.service",
        "serial-getty@ttyS0.service",
        "bluetooth.service",
        "bluetooth.service.d",
        "cups.service",
        "modemmanager.service",
        "avahi-daemon.service",
        "power-profiles-daemon.service",
    ] {
        assert!(unit_is_ignored(unit));
        let d = apply_policy(detection(unit, Severity::Critical, "r"));
        assert_eq!(d.severity, Severity::Info);
        assert_eq!(d.reason, "r (ignored by policy)");
    }
    for unit in ["getty", "xgetty@tty1.service", "Bluetooth.service", "cups", ""] {
        assert!(!unit_is_ignored(unit));
    }
}

#[test]
fn units_on_neither_list_are_forced_to_info() {
    for unit in ["sshd.service", "dbus-broker.service", "networkmanager.service", ""] {
        for severity in [Severity::Info, Severity::Warn, Severity::Critical] {
            let d = apply_policy(detection(unit, severity, "r"));
            assert_eq!(d.severity, Severity::Info);
            assert_eq!(d.reason, "r (not in allow list)");
            assert_eq!(d.unit, unit);
        }
    }
}

#[test]
fn matches_pattern_is_equality_or_prefix() {
    assert!(matches_pattern("getty@tty1.service", "getty@"));
    assert!(matches_pattern("getty@", "getty@"));
    assert!(matches_pattern("anything", ""));
    assert!(!matches_pattern("getty", "getty@"));
    assert!(!matches_pattern("a-getty@tty1", "getty@"));
    assert!(!matches_pattern("", "getty@"));
}

#[test]
fn severity_is_ordered() {
    assert!(Severity::Info < Severity::Warn);
    assert!(Severity::Warn < Severity::Critical);
}

#[test]
fn classify_then_policy() {
    let d = apply_policy(classify(raw("dbus.service", "loaded/failed/failed")));
    assert_eq!(d.severity, Severity::Critical);
    assert_eq!(d.reason, "systemd reported status: loaded/failed/failed");
    let d = apply_policy(classify(raw("dbus-broker.service", "loaded/failed/failed")));
    assert_eq!(d.severity, Severity::Info);
    assert_eq!(d.reason, "systemd reported status: loaded/failed/failed (not in allow list)");
    let d = apply_policy(classify(raw("NetworkManager.service", "loaded/failed/failed")));
    assert_eq!(d.severity, Severity::Info);
    assert_eq!(d.reason, "systemd reported status: loaded/failed/failed");
}
