use voxlinuxd::healer::{
    command_line, format_hundredths, heal, heal_boot, heal_filesystem, heal_keyed, heal_network,
    heal_package, heal_service, HealStep,
};
use voxlinuxd::state::{
    current_level, drop_confidence, escalate_level, get_confidence, set_confidence, HealState,
};
use voxlinuxd::system_state::{field_key, state_key, SystemState};

#[test]
fn state_key_is_the_debug_representation() {
    let states = vec![
        SystemState::PackageConsistent,
        SystemState::ServiceActive("sshd.service".to_string()),
        SystemState::ServiceActive("odd \"name\"\n\\".to_string()),
        SystemState::ServiceActive(String::new()),
        SystemState::NetworkReachable,
        SystemState::FilesystemWritable("/".to_string()),
        SystemState::FilesystemWritable("/mnt/\u{e9}t\u{e9}".to_string()),
        SystemState::BootHealthy,
    ];
    for s in &states {
        assert_eq!(state_key(s), format!("{:?}", s));
    }
    assert_eq!(state_key(&states[1]), "ServiceActive(\"sshd.service\")");
    assert_eq!(state_key(&states[5]), "FilesystemWritable(\"/\")");
    assert_eq!(state_key(&states[0]), "PackageConsistent");
}

#[test]
fn service_tiers() {
    let a = heal_service("sshd.service", 1);
    assert_eq!(a.note, "L1: restarting service");
    assert_eq!(a.steps, vec![HealStep::RestartService]);
    let a = heal_service("sshd.service", 2);
    assert_eq!(a.note, "L2: daemon reload + restart");
    assert_eq!(a.steps, vec![HealStep::DaemonReload, HealStep::RestartService]);
    let a = heal_service("sshd.service", 3);
    assert_eq!(a.note, "L3: reinstalling service unit");
    assert_eq!(a.steps, vec![HealStep::ReinstallServiceUnit]);
    for level in [4u8, 0, 5, 255] {
        let a = heal_service("sshd.service", level);
        assert_eq!(a.note, "L4: isolating service 'sshd.service' (manual intervention)");
        assert!(a.steps.is_empty());
    }
}

#[test]
fn package_tiers() {
    let a = heal_package(1);
    assert_eq!(a.note, "L1: removing pacman lock");
    assert_eq!(a.steps, vec![HealStep::RemovePacmanLock]);
    let a = heal_package(2);
    assert_eq!(a.note, "L2: syncing pacman database");
    assert_eq!(a.steps, vec![HealStep::SyncPackageDb]);
    let a = heal_package(3);
    assert_eq!(a.note, "L3: reinstalling base packages");
    assert_eq!(a.steps, vec![HealStep::ReinstallBasePackages]);
    let a = heal_package(4);
    assert_eq!(a.note, "L4: pacman isolated");
    assert!(a.steps.is_empty());
}

#[test]
fn network_tiers() {
    let a = heal_network(1);
    assert_eq!(a.note, "L1: restarting NetworkManager");
    assert_eq!(a.steps, vec![HealStep::RestartNetworkManager]);
    let a = heal_network(2);
    assert_eq!(a.note, "L2: enabling networking (nmcli on)");
    assert_eq!(a.steps, vec![HealStep::NetworkingOn]);
    let a = heal_network(3);
    assert_eq!(a.note, "L3: resetting network stack");
    assert_eq!(a.steps, vec![HealStep::NetworkingOff, HealStep::NetworkingOn]);
    let a = heal_network(4);
    assert_eq!(a.note, "L4: network isolated");
    assert!(a.steps.is_empty());
}

#[test]
fn filesystem_tiers() {
    let a = heal_filesystem(1);
    assert_eq!(a.note, "L1: remounting filesystem rw");
    assert_eq!(a.steps, vec![HealStep::RemountReadWrite]);
    let a = heal_filesystem(2);
    assert_eq!(a.note, "L2: fsck scheduled for next boot");
    assert!(a.steps.is_empty());
    let a = heal_filesystem(3);
    assert_eq!(a.note, "L3: emergency sync");
    assert_eq!(a.steps, vec![HealStep::SyncDisks]);
    let a = heal_filesystem(4);
    assert_eq!(a.note, "L4: filesystem isolated");
    assert!(a.steps.is_empty());
}

#[test]
fn boot_tiers() {
    let a = heal_boot(1);
    assert_eq!(a.note, "L1: regenerating initramfs");
    assert_eq!(a.steps, vec![HealStep::RegenerateInitramfs]);
    let a = heal_boot(2);
    assert_eq!(a.note, "L2: reinstalling kernel");
    assert_eq!(a.steps, vec![HealStep::ReinstallKernel]);
    let a = heal_boot(3);
    assert_eq!(a.note, "L3: regenerating bootloader config");
    assert_eq!(a.steps, vec![HealStep::RegenerateBootloaderConfig]);
    let a = heal_boot(4);
    assert_eq!(a.note, "L4: boot recovery required");
    assert!(a.steps.is_empty());
}

#[test]
fn command_lines() {
    let root = SystemState::FilesystemWritable("/".to_string());
    let net = SystemState::NetworkReachable;
    assert_eq!(command_line(HealStep::RemovePacmanLock, &net), vec!["rm", "-f", "/var/lib/pacman/db.lck"]);
    assert_eq!(
        command_line(HealStep::RestartNetworkManager, &net),
        vec!["systemctl", "restart", "NetworkManager"]
    );
    assert_eq!(command_line(HealStep::NetworkingOn, &net), vec!["nmcli", "networking", "on"]);
    assert_eq!(command_line(HealStep::NetworkingOff, &net), vec!["nmcli", "networking", "off"]);
    assert_eq!(
        command_line(HealStep::RemountReadWrite, &root),
        vec!["mount", "-o", "remount,rw", "/"]
    );
    assert!(command_line(HealStep::RemountReadWrite, &net).is_empty());
    assert_eq!(command_line(HealStep::SyncDisks, &root), vec!["sync"]);
    assert_eq!(command_line(HealStep::RegenerateInitramfs, &net), vec!["mkinitcpio", "-P"]);
    assert_eq!(
        command_line(HealStep::ReinstallKernel, &net),
        vec!["pacman", "-S", "--noconfirm", "linux"]
    );
    assert_eq!(
        command_line(HealStep::RegenerateBootloaderConfig, &net),
        vec!["grub-mkconfig", "-o", "/boot/grub/grub.cfg"]
    );
    for step in [
        HealStep::RestartService,
        HealStep::DaemonReload,
        HealStep::ReinstallServiceUnit,
        HealStep::SyncPackageDb,
        HealStep::ReinstallBasePackages,
    ] {
        assert!(command_line(step, &SystemState::ServiceActive("a".to_string())).is_empty());
    }
}

#[test]
fn hundredths_are_written_with_two_places() {
    assert_eq!(format_hundredths(0), "0.00");
    assert_eq!(format_hundredths(5), "0.05");
    assert_eq!(format_hundredths(50), "0.50");
    assert_eq!(format_hundredths(99), "0.99");
    assert_eq!(format_hundredths(100), "1.00");
    assert_eq!(format_hundredths(255), "2.55");
}

#[test]
fn first_round_runs_at_level_one_and_escalates() {
    let mut state = HealState::new();
    let target = SystemState::ServiceActive("sshd.service".to_string());
    let d = heal(&mut state, &target);
    assert_eq!(d.key, "ServiceActive(\"sshd.service\")");
    assert_eq!(d.level, 1);
    assert_eq!(d.confidence, 50);
    assert_eq!(d.steps, vec![HealStep::RestartService]);
    assert_eq!(
        d.notes,
        vec![
            "Healing ServiceActive(\"sshd.service\") | level=L1 | confidence=0.50",
            "L1: restarting service",
        ]
    );
    assert!(d.escalated);
    assert_eq!(current_level(&state, &d.key), 2);
}

#[test]
fn rounds_climb_the_ladder_and_stay_at_four() {
    let mut state = HealState::new();
    let target = SystemState::NetworkReachable;
    let levels: Vec<u8> = (0..6).map(|_| heal(&mut state, &target).level).collect();
    assert_eq!(levels, vec![1, 2, 3, 4, 4, 4]);
    assert_eq!(current_level(&state, "NetworkReachable"), 4);
    let d = heal(&mut state, &target);
    assert!(d.steps.is_empty());
    assert_eq!(d.notes[1], "L4: network isolated");
}

#[test]
fn low_confidence_holds_the_level() {
    let mut state = HealState::new();
    let target = SystemState::PackageConsistent;
    drop_confidence(&mut state, "PackageConsistent");
    assert_eq!(get_confidence(&state, "PackageConsistent"), 35);
    let d = heal(&mut state, &target);
    assert_eq!(d.level, 1);
    assert_eq!(d.confidence, 35);
    assert!(!d.escalated);
    assert_eq!(d.steps, vec![HealStep::RemovePacmanLock]);
    assert_eq!(
        d.notes,
        vec![
            "Healing PackageConsistent | level=L1 | confidence=0.35",
            "L1: removing pacman lock",
            "Low confidence: holding healing level",
        ]
    );
    assert_eq!(current_level(&state, "PackageConsistent"), 1);
}

#[test]
fn escalation_threshold_is_forty_hundredths() {
    let target = SystemState::BootHealthy;
    let mut state = HealState::new();
    set_confidence(&mut state, "BootHealthy", 40);
    assert!(heal(&mut state, &target).escalated);
    let mut state = HealState::new();
    set_confidence(&mut state, "BootHealthy", 39);
    assert!(!heal(&mut state, &target).escalated);
}

#[test]
fn heal_leaves_other_targets_alone() {
    let mut state = HealState::new();
    escalate_level(&mut state, "NetworkReachable");
    let d = heal(&mut state, &SystemState::FilesystemWritable("/".to_string()));
    assert_eq!(d.level, 1);
    assert_eq!(d.steps, vec![HealStep::RemountReadWrite]);
    assert_eq!(current_level(&state, "NetworkReachable"), 2);
    assert_eq!(current_level(&state, "FilesystemWritable(\"/\")"), 2);
}

#[test]
fn field_key_puts_the_quoted_field_in_brackets() {
    assert_eq!(field_key("ServiceActive", "\"a\""), "ServiceActive(\"a\")");
    assert_eq!(field_key("X", ""), "X()");
}

#[test]
fn heal_keyed_keeps_its_records_under_the_given_key() {
    let mut state = HealState::new();
    escalate_level(&mut state, "custom");
    let target = SystemState::ServiceActive("cups.service".to_string());
    let d = heal_keyed(&mut state, &target, "custom".to_string());
    assert_eq!(d.key, "custom");
    assert_eq!(d.level, 2);
    assert_eq!(d.steps, vec![HealStep::DaemonReload, HealStep::RestartService]);
    assert_eq!(
        d.notes,
        vec!["Healing custom | level=L2 | confidence=0.50", "L2: daemon reload + restart"]
    );
    assert_eq!(current_level(&state, "custom"), 3);
    assert_eq!(current_level(&state, "ServiceActive(\"cups.service\")"), 1);
}
