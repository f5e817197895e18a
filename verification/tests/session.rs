use voxlinuxd::confidence::Confidence;
use voxlinuxd::session::{restart_outcome, unit_is_denylisted, HealingSession, RestartStatus};
use voxlinuxd::state::BootContext;

const DENYLIST: [&str; 8] = [
    "basic.target",
    "sysinit.target",
    "multi-user.target",
    "graphical.target",
    "systemd-journald.service",
    "systemd-logind.service",
    "systemd-udevd.service",
    "dbus.service",
];

#[test]
fn restart_runs_once_when_nothing_refuses() {
    let mut session = HealingSession::default();
    let mut calls = 0;
    let mut seen = String::new();
    let result = session.restart_service(
        "NetworkManager.service",
        BootContext::Graphical,
        Confidence::High,
        |unit: &str| {
            calls += 1;
            seen = unit.to_string();
            RestartStatus::Succeeded
        },
    );
    assert_eq!(result, Ok(()));
    assert_eq!(calls, 1);
    assert_eq!(seen, "NetworkManager.service");
    assert!(session.was_attempted("NetworkManager.service"));
}

#[test]
fn restart_is_refused_outside_graphical_session() {
    for context in [
        BootContext::EarlyBoot,
        BootContext::EarlyUserspace,
        BootContext::MultiUser,
        BootContext::Rescue,
        BootContext::Unknown,
    ] {
        let mut session = HealingSession::new();
        let mut calls = 0;
        let result = session.restart_service("sddm.service", context, Confidence::High, |_: &str| {
            calls += 1;
            RestartStatus::Succeeded
        });
        assert_eq!(result, Err("not in graphical session".to_string()));
        assert_eq!(calls, 0);
        assert!(!session.was_attempted("sddm.service"));
    }
}

#[test]
fn restart_is_refused_below_high_confidence() {
    for confidence in [Confidence::Low, Confidence::Medium] {
        let mut session = HealingSession::new();
        let mut calls = 0;
        let result =
            session.restart_service("sddm.service", BootContext::Graphical, confidence, |_: &str| {
                calls += 1;
                RestartStatus::Succeeded
            });
        assert_eq!(result, Err("confidence not high".to_string()));
        assert_eq!(calls, 0);
        assert!(!session.was_attempted("sddm.service"));
    }
}

#[test]
fn boot_context_is_checked_before_confidence() {
    let mut session = HealingSession::new();
    let result = session.restart_service(
        "dbus.service",
        BootContext::MultiUser,
        Confidence::Low,
        |_: &str| RestartStatus::Succeeded,
    );
    assert_eq!(result, Err("not in graphical session".to_string()));
}

#[test]
fn denylisted_units_are_never_restarted() {
    for unit in DENYLIST {
        assert!(unit_is_denylisted(unit));
        for context in [BootContext::Graphical, BootContext::MultiUser, BootContext::Rescue] {
            for confidence in [Confidence::Low, Confidence::Medium, Confidence::High] {
                let mut session = HealingSession::new();
                let mut calls = 0;
                let result = session.restart_service(unit, context, confidence, |_: &str| {
                    calls += 1;
                    RestartStatus::Succeeded
                });
                assert!(result.is_err());
                assert_eq!(calls, 0);
                assert!(!session.was_attempted(unit));
            }
        }
        let mut session = HealingSession::new();
        let result = session.restart_service(
            unit,
            BootContext::Graphical,
            Confidence::High,
            |_: &str| RestartStatus::Succeeded,
        );
        assert_eq!(result, Err("unit is denylisted".to_string()));
    }
}

#[test]
fn units_off_the_denylist_are_not_denylisted() {
    assert!(!unit_is_denylisted("NetworkManager.service"));
    assert!(!unit_is_denylisted("dbus.servic"));
    assert!(!unit_is_denylisted("dbus.service "));
    assert!(!unit_is_denylisted(""));
    assert!(!unit_is_denylisted("getty@tty1.service"));
}

#[test]
fn second_restart_of_a_unit_is_refused_after_success() {
    let mut session = HealingSession::new();
    let first = session.restart_service(
        "pipewire.service",
        BootContext::Graphical,
        Confidence::High,
        |_: &str| RestartStatus::Succeeded,
    );
    assert_eq!(first, Ok(()));
    let mut calls = 0;
    let second = session.restart_service(
        "pipewire.service",
        BootContext::Graphical,
        Confidence::High,
        |_: &str| {
            calls += 1;
            RestartStatus::Succeeded
        },
    );
    assert_eq!(second, Err("unit already attempted this session".to_string()));
    assert_eq!(calls, 0);
}

#[test]
fn second_restart_of_a_unit_is_refused_after_failure() {
    let mut session = HealingSession::new();
    let first = session.restart_service(
        "pipewire.service",
        BootContext::Graphical,
        Confidence::High,
        |_: &str| RestartStatus::Failed,
    );
    assert_eq!(first, Err("systemctl restart failed".to_string()));
    let mut calls = 0;
    let second = session.restart_service(
        "pipewire.service",
        BootContext::Graphical,
        Confidence::High,
        |_: &str| {
            calls += 1;
            RestartStatus::Succeeded
        },
    );
    assert_eq!(second, Err("unit already attempted this session".to_string()));
    assert_eq!(calls, 0);
}

#[test]
fn a_refused_call_does_not_use_up_the_attempt() {
    let mut session = HealingSession::new();
    let refused = session.restart_service(
        "wireplumber.service",
        BootContext::MultiUser,
        Confidence::High,
        |_: &str| RestartStatus::Succeeded,
    );
    assert!(refused.is_err());
    let granted = session.restart_service(
        "wireplumber.service",
        BootContext::Graphical,
        Confidence::High,
        |_: &str| RestartStatus::Succeeded,
    );
    assert_eq!(granted, Ok(()));
}

#[test]
fn different_units_are_attempted_independently() {
    let mut session = HealingSession::new();
    for unit in ["a.service", "b.service", "c.service"] {
        let result = session.restart_service(
            unit,
            BootContext::Graphical,
            Confidence::High,
            |_: &str| RestartStatus::Succeeded,
        );
        assert_eq!(result, Ok(()));
    }
    assert!(session.was_attempted("a.service"));
    assert!(session.was_attempted("b.service"));
    assert!(session.was_attempted("c.service"));
    assert!(!session.was_attempted("d.service"));
}

#[test]
fn restart_outcome_maps_each_status() {
    assert_eq!(restart_outcome(RestartStatus::Succeeded), Ok(()));
    assert_eq!(
        restart_outcome(RestartStatus::Failed),
        Err("systemctl restart failed".to_string())
    );
    assert_eq!(
        restart_outcome(RestartStatus::NotInvoked { error: "No such file or directory".to_string() }),
        Err("failed to invoke systemctl: No such file or directory".to_string())
    );
}

#[test]
fn spawn_failure_is_reported_and_uses_up_the_attempt() {
    let mut session = HealingSession::new();
    let result = session.restart_service(
        "sddm.service",
        BootContext::Graphical,
        Confidence::High,
        |_: &str| RestartStatus::NotInvoked { error: "permission denied".to_string() },
    );
    assert_eq!(result, Err("failed to invoke systemctl: permission denied".to_string()));
    assert!(session.was_attempted("sddm.service"));
}

#[test]
fn authorize_restart_marks_the_unit() {
    let mut session = HealingSession::new();
    assert_eq!(
        session.authorize_restart("sddm.service", BootContext::Graphical, Confidence::High),
        Ok(())
    );
    assert_eq!(
        session.authorize_restart("sddm.service", BootContext::Graphical, Confidence::High),
        Err("unit already attempted this session".to_string())
    );
}
