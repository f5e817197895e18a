//! Chooses the remediation for a broken state by its escalation level.
//!
//! Nothing is run here. A decision names the steps to take, in order, and
//! the lines to log; the caller carries them out.

use vstd::prelude::*;
use vstd::string::*;
use crate::state::{HealState, current_level, escalate_level, escalated, get_confidence};
use crate::system_state::{SystemState, state_key, state_key_text};
use crate::text::{concat2, concat3, decimal, decimal_digits, digit_char, texts};

verus! {

/// The least confidence, in hundredths, with which a target moves to the
/// next level after an attempt.
pub const ESCALATION_THRESHOLD: u8 = 40;

/// One step of a remediation. A step that concerns a service or a mount
/// point means the one named by the target.
#[derive(Debug, Clone, Copy, PartialEq, Eq, Structural)]
pub enum HealStep {
    RestartService,
    DaemonReload,
    ReinstallServiceUnit,
    RemovePacmanLock,
    SyncPackageDb,
    ReinstallBasePackages,
    RestartNetworkManager,
    NetworkingOn,
    NetworkingOff,
    RemountReadWrite,
    SyncDisks,
    RegenerateInitramfs,
    ReinstallKernel,
    RegenerateBootloaderConfig,
}

/// What one level of remediation does: a line to log and the steps to take.
#[derive(Debug)]
pub struct TierAction {
    pub note: String,
    pub steps: Vec<HealStep>,
}

/// What was decided for a target in one healing round.
#[derive(Debug)]
pub struct HealDecision {
    /// The key of the target's records.
    pub key: String,
    /// The escalation level that the round was run at.
    pub level: u8,
    /// The target's confidence in hundredths.
    pub confidence: u8,
    /// The lines to log, in order.
    pub notes: Vec<String>,
    /// The steps to take, in order.
    pub steps: Vec<HealStep>,
    /// Whether the target moved to the next level for the next round.
    pub escalated: bool,
}

/// The steps for a service at a level: restart; reload and restart;
/// reinstall the unit; from level four on, nothing.
pub open spec fn service_steps(level: u8) -> Seq<HealStep> {
    if level == 1 {
        seq![HealStep::RestartService]
    } else if level == 2 {
        seq![HealStep::DaemonReload, HealStep::RestartService]
    } else if level == 3 {
        seq![HealStep::ReinstallServiceUnit]
    } else {
        Seq::empty()
    }
}

/// The line logged for a service at a level.
pub open spec fn service_note(service: Seq<char>, level: u8) -> Seq<char> {
    if level == 1 {
        "L1: restarting service"@
    } else if level == 2 {
        "L2: daemon reload + restart"@
    } else if level == 3 {
        "L3: reinstalling service unit"@
    } else {
        "L4: isolating service '"@ + service + "' (manual intervention)"@
    }
}

/// The steps for the package manager at a level.
pub open spec fn package_steps(level: u8) -> Seq<HealStep> {
    if level == 1 {
        seq![HealStep::RemovePacmanLock]
    } else if level == 2 {
        seq![HealStep::SyncPackageDb]
    } else if level == 3 {
        seq![HealStep::ReinstallBasePackages]
    } else {
        Seq::empty()
    }
}

/// The line logged for the package manager at a level.
pub open spec fn package_note(level: u8) -> Seq<char> {
    if level == 1 {
        "L1: removing pacman lock"@
    } else if level == 2 {
        "L2: syncing pacman database"@
    } else if level == 3 {
        "L3: reinstalling base packages"@
    } else {
        "L4: pacman isolated"@
    }
}

/// The steps for the network at a level.
pub open spec fn network_steps(level: u8) -> Seq<HealStep> {
    if level == 1 {
        seq![HealStep::RestartNetworkManager]
    } else if level == 2 {
        seq![HealStep::NetworkingOn]
    } else if level == 3 {
        seq![HealStep::NetworkingOff, HealStep::NetworkingOn]
    } else {
        Seq::empty()
    }
}

/// The line logged for the network at a level.
pub open spec fn network_note(level: u8) -> Seq<char> {
    if level == 1 {
        "L1: restarting NetworkManager"@
    } else if level == 2 {
        "L2: enabling networking (nmcli on)"@
    } else if level == 3 {
        "L3: resetting network stack"@
    } else {
        "L4: network isolated"@
    }
}

/// The steps for a file system at a level. Level two only announces the
/// check at the next boot.
pub open spec fn filesystem_steps(level: u8) -> Seq<HealStep> {
    if level == 1 {
        seq![HealStep::RemountReadWrite]
    } else if level == 3 {
        seq![HealStep::SyncDisks]
    } else {
        Seq::empty()
    }
}

/// The line logged for a file system at a level.
pub open spec fn filesystem_note(level: u8) -> Seq<char> {
    if level == 1 {
        "L1: remounting filesystem rw"@
    } else if level == 2 {
        "L2: fsck scheduled for next boot"@
    } else if level == 3 {
        "L3: emergency sync"@
    } else {
        "L4: filesystem isolated"@
    }
}

/// The steps for the boot chain at a level.
pub open spec fn boot_steps(level: u8) -> Seq<HealStep> {
    if level == 1 {
        seq![HealStep::RegenerateInitramfs]
    } else if level == 2 {
        seq![HealStep::ReinstallKernel]
    } else if level == 3 {
        seq![HealStep::RegenerateBootloaderConfig]
    } else {
        Seq::empty()
    }
}

/// The line logged for the boot chain at a level.
pub open spec fn boot_note(level: u8) -> Seq<char> {
    if level == 1 {
        "L1: regenerating initramfs"@
    } else if level == 2 {
        "L2: reinstalling kernel"@
    } else if level == 3 {
        "L3: regenerating bootloader config"@
    } else {
        "L4: boot recovery required"@
    }
}

/// The steps for a target at a level.
pub open spec fn heal_steps(target: SystemState, level: u8) -> Seq<HealStep> {
    match target {
        SystemState::PackageConsistent => package_steps(level),
        SystemState::ServiceActive(_) => service_steps(level),
        SystemState::NetworkReachable => network_steps(level),
        SystemState::FilesystemWritable(_) => filesystem_steps(level),
        SystemState::BootHealthy => boot_steps(level),
    }
}

/// The line logged for a target at a level.
pub open spec fn heal_note(target: SystemState, level: u8) -> Seq<char> {
    match target {
        SystemState::PackageConsistent => package_note(level),
        SystemState::ServiceActive(service) => service_note(service@, level),
        SystemState::NetworkReachable => network_note(level),
        SystemState::FilesystemWritable(_) => filesystem_note(level),
        SystemState::BootHealthy => boot_note(level),
    }
}

/// The program and the arguments that carry out a step for a target. A step
/// that is left to the service executor, and a step that only reports, has
/// no command line of its own and gives the empty sequence; so does a
/// remount for a target that names no mount point.
pub open spec fn command_words(step: HealStep, target: SystemState) -> Seq<Seq<char>> {
    match step {
        HealStep::RemovePacmanLock => seq!["rm"@, "-f"@, "/var/lib/pacman/db.lck"@],
        HealStep::RestartNetworkManager => seq!["systemctl"@, "restart"@, "NetworkManager"@],
        HealStep::NetworkingOn => seq!["nmcli"@, "networking"@, "on"@],
        HealStep::NetworkingOff => seq!["nmcli"@, "networking"@, "off"@],
        HealStep::RemountReadWrite => match target {
            SystemState::FilesystemWritable(path) => seq![
                "mount"@,
                "-o"@,
                "remount,rw"@,
                path@,
            ],
            _ => Seq::empty(),
        },
        HealStep::SyncDisks => seq!["sync"@],
        HealStep::RegenerateInitramfs => seq!["mkinitcpio"@, "-P"@],
        HealStep::ReinstallKernel => seq!["pacman"@, "-S"@, "--noconfirm"@, "linux"@],
        HealStep::RegenerateBootloaderConfig => seq![
            "grub-mkconfig"@,
            "-o"@,
            "/boot/grub/grub.cfg"@,
        ],
        HealStep::RestartService => Seq::empty(),
        HealStep::DaemonReload => Seq::empty(),
        HealStep::ReinstallServiceUnit => Seq::empty(),
        HealStep::SyncPackageDb => Seq::empty(),
        HealStep::ReinstallBasePackages => Seq::empty(),
    }
}

/// A confidence in hundredths written as a decimal fraction with two
/// places, such as `0.50`.
pub open spec fn hundredths_text(confidence: u8) -> Seq<char> {
    decimal_digits((confidence / 100) as nat) + "."@ + seq![
        digit_char(((confidence / 10) % 10) as nat),
        digit_char((confidence % 10) as nat),
    ]
}

/// The line that opens a healing round.
pub open spec fn announcement(key: Seq<char>, level: u8, confidence: u8) -> Seq<char> {
    "Healing "@ + key + " | level=L"@ + decimal_digits(level as nat) + " | confidence="@
        + hundredths_text(confidence)
}

/// The lines logged in a healing round: the opening line, the line of the
/// level, and, where the confidence is under the threshold, the line that
/// says that the level is held.
pub open spec fn heal_notes(target: SystemState, level: u8, confidence: u8) -> Seq<Seq<char>> {
    heal_notes_keyed(state_key_text(target), target, level, confidence)
}

/// Chooses the remediation of a service at a level.
pub fn heal_service(service: &str, level: u8) -> (action: TierAction)
    ensures
        action.note@ == service_note(service@, level),
        action.steps@ == service_steps(level),
{
    if level == 1 {
        TierAction {
            note: String::from_str("L1: restarting service"),
            steps: vec![HealStep::RestartService],
        }
    } else if level == 2 {
        TierAction {
            note: String::from_str("L2: daemon reload + restart"),
            steps: vec![HealStep::DaemonReload, HealStep::RestartService],
        }
    } else if level == 3 {
        TierAction {
            note: String::from_str("L3: reinstalling service unit"),
            steps: vec![HealStep::ReinstallServiceUnit],
        }
    } else {
        TierAction {
            note: concat3("L4: isolating service '", service, "' (manual intervention)"),
            steps: Vec::new(),
        }
    }
}

/// Chooses the remediation of the package manager at a level.
pub fn heal_package(level: u8) -> (action: TierAction)
    ensures
        action.note@ == package_note(level),
        action.steps@ == package_steps(level),
{
    if level == 1 {
        TierAction {
            note: String::from_str("L1: removing pacman lock"),
            steps: vec![HealStep::RemovePacmanLock],
        }
    } else if level == 2 {
        TierAction {
            note: String::from_str("L2: syncing pacman database"),
            steps: vec![HealStep::SyncPackageDb],
        }
    } else if level == 3 {
        TierAction {
            note: String::from_str("L3: reinstalling base packages"),
            steps: vec![HealStep::ReinstallBasePackages],
        }
    } else {
        TierAction { note: String::from_str("L4: pacman isolated"), steps: Vec::new() }
    }
}

/// Chooses the remediation of the network at a level.
pub fn heal_network(level: u8) -> (action: TierAction)
    ensures
        action.note@ == network_note(level),
        action.steps@ == network_steps(level),
{
    if level == 1 {
        TierAction {
            note: String::from_str("L1: restarting NetworkManager"),
            steps: vec![HealStep::RestartNetworkManager],
        }
    } else if level == 2 {
        TierAction {
            note: String::from_str("L2: enabling networking (nmcli on)"),
            steps: vec![HealStep::NetworkingOn],
        }
    } else if level == 3 {
        TierAction {
            note: String::from_str("L3: resetting network stack"),
            steps: vec![HealStep::NetworkingOff, HealStep::NetworkingOn],
        }
    } else {
        TierAction { note: String::from_str("L4: network isolated"), steps: Vec::new() }
    }
}

/// Chooses the remediation of a file system at a level.
pub fn heal_filesystem(level: u8) -> (action: TierAction)
    ensures
        action.note@ == filesystem_note(level),
        action.steps@ == filesystem_steps(level),
{
    if level == 1 {
        TierAction {
            note: String::from_str("L1: remounting filesystem rw"),
            steps: vec![HealStep::RemountReadWrite],
        }
    } else if level == 2 {
        TierAction {
            note: String::from_str("L2: fsck scheduled for next boot"),
            steps: Vec::new(),
        }
    } else if level == 3 {
        TierAction {
            note: String::from_str("L3: emergency sync"),
            steps: vec![HealStep::SyncDisks],
        }
    } else {
        TierAction { note: String::from_str("L4: filesystem isolated"), steps: Vec::new() }
    }
}

/// Chooses the remediation of the boot chain at a level.
pub fn heal_boot(level: u8) -> (action: TierAction)
    ensures
        action.note@ == boot_note(level),
        action.steps@ == boot_steps(level),
{
    if level == 1 {
        TierAction {
            note: String::from_str("L1: regenerating initramfs"),
            steps: vec![HealStep::RegenerateInitramfs],
        }
    } else if level == 2 {
        TierAction {
            note: String::from_str("L2: reinstalling kernel"),
            steps: vec![HealStep::ReinstallKernel],
        }
    } else if level == 3 {
        TierAction {
            note: String::from_str("L3: regenerating bootloader config"),
            steps: vec![HealStep::RegenerateBootloaderConfig],
        }
    } else {
        TierAction { note: String::from_str("L4: boot recovery required"), steps: Vec::new() }
    }
}

/// The command line of a step for a target: the program first, then its
/// arguments.
pub fn command_line(step: HealStep, target: &SystemState) -> (words: Vec<String>)
    ensures
        texts(words@) == command_words(step, *target),
{
    let words = match step {
        HealStep::RemovePacmanLock => vec![
            String::from_str("rm"),
            String::from_str("-f"),
            String::from_str("/var/lib/pacman/db.lck"),
        ],
        HealStep::RestartNetworkManager => vec![
            String::from_str("systemctl"),
            String::from_str("restart"),
            String::from_str("NetworkManager"),
        ],
        HealStep::NetworkingOn => vec![
            String::from_str("nmcli"),
            String::from_str("networking"),
            String::from_str("on"),
        ],
        HealStep::NetworkingOff => vec![
            String::from_str("nmcli"),
            String::from_str("networking"),
            String::from_str("off"),
        ],
        HealStep::RemountReadWrite => match target {
            SystemState::FilesystemWritable(path) => vec![
                String::from_str("mount"),
                String::from_str("-o"),
                String::from_str("remount,rw"),
                path.clone(),
            ],
            _ => Vec::new(),
        },
        HealStep::SyncDisks => vec![String::from_str("sync")],
        HealStep::RegenerateInitramfs => vec![
            String::from_str("mkinitcpio"),
            String::from_str("-P"),
        ],
        HealStep::ReinstallKernel => vec![
            String::from_str("pacman"),
            String::from_str("-S"),
            String::from_str("--noconfirm"),
            String::from_str("linux"),
        ],
        HealStep::RegenerateBootloaderConfig => vec![
            String::from_str("grub-mkconfig"),
            String::from_str("-o"),
            String::from_str("/boot/grub/grub.cfg"),
        ],
        HealStep::RestartService => Vec::new(),
        HealStep::DaemonReload => Vec::new(),
        HealStep::ReinstallServiceUnit => Vec::new(),
        HealStep::SyncPackageDb => Vec::new(),
        HealStep::ReinstallBasePackages => Vec::new(),
    };
    assert(texts(words@) =~= command_words(step, *target));
    words
}

/// Writes a confidence in hundredths as a decimal fraction with two places.
pub fn format_hundredths(confidence: u8) -> (s: String)
    ensures
        s@ == hundredths_text(confidence),
{
    let whole = decimal((confidence / 100) as u64);
    let tenths = decimal(((confidence / 10) % 10) as u64);
    let hundredths = decimal((confidence % 10) as u64);
    let mut s = concat2(whole.as_str(), ".");
    s.append(tenths.as_str());
    s.append(hundredths.as_str());
    assert(s@ =~= hundredths_text(confidence));
    s
}

/// The lines logged in a healing round that is recorded under `key`.
pub open spec fn heal_notes_keyed(
    key: Seq<char>,
    target: SystemState,
    level: u8,
    confidence: u8,
) -> Seq<Seq<char>> {
    let opening = seq![announcement(key, level, confidence), heal_note(target, level)];
    if confidence >= ESCALATION_THRESHOLD {
        opening
    } else {
        opening.push("Low confidence: holding healing level"@)
    }
}

/// Decides one healing round for a broken state whose records are kept
/// under `key`.
///
/// The round runs at the level recorded under the key and logs the
/// confidence recorded there. After the round the level moves one up, to
/// level four at most, where the confidence is at least forty hundredths;
/// below that the level is held and a line says so.
pub fn heal_keyed(state: &mut HealState, target: &SystemState, key: String) -> (decision:
    HealDecision)
    ensures
        decision.key == key,
        decision.level == old(state).level_of(key@),
        decision.confidence == old(state).confidence_of(key@),
        decision.steps@ == heal_steps(*target, decision.level),
        texts(decision.notes@) == heal_notes_keyed(
            key@,
            *target,
            decision.level,
            decision.confidence,
        ),
        decision.escalated == (decision.confidence >= ESCALATION_THRESHOLD),
        final(state).levels() == if decision.escalated {
            old(state).levels().insert(key@, escalated(decision.level))
        } else {
            old(state).levels()
        },
        final(state).retries() == old(state).retries(),
        final(state).next_retry() == old(state).next_retry(),
        final(state).confidences() == old(state).confidences(),
        final(state).restart_counts() == old(state).restart_counts(),
        final(state).observed_at() == old(state).observed_at(),
        final(state).wf(),
{
    let level = current_level(state, key.as_str());
    let confidence = get_confidence(state, key.as_str());

    let level_text = decimal(level as u64);
    let confidence_text = format_hundredths(confidence);
    let mut opening = concat3("Healing ", key.as_str(), " | level=L");
    opening.append(level_text.as_str());
    opening.append(" | confidence=");
    opening.append(confidence_text.as_str());

    let action = match target {
        SystemState::PackageConsistent => heal_package(level),
        SystemState::ServiceActive(service) => heal_service(service.as_str(), level),
        SystemState::NetworkReachable => heal_network(level),
        SystemState::FilesystemWritable(_) => heal_filesystem(level),
        SystemState::BootHealthy => heal_boot(level),
    };
    let TierAction { note, steps } = action;

    let mut notes: Vec<String> = Vec::new();
    notes.push(opening);
    notes.push(note);

    let escalated = confidence >= ESCALATION_THRESHOLD;
    if escalated {
        escalate_level(state, key.as_str());
    } else {
        notes.push(String::from_str("Low confidence: holding healing level"));
    }
    assert(texts(notes@) =~= heal_notes_keyed(key@, *target, level, confidence));
    HealDecision { key, level, confidence, notes, steps, escalated }
}

/// Decides one healing round for a broken state. The records are kept under
/// the key of the state.
pub fn heal(state: &mut HealState, target: &SystemState) -> (decision: HealDecision)
    ensures
        decision.key@ == state_key_text(*target),
        decision.level == old(state).level_of(state_key_text(*target)),
        decision.confidence == old(state).confidence_of(state_key_text(*target)),
        decision.steps@ == heal_steps(*target, decision.level),
        texts(decision.notes@) == heal_notes(*target, decision.level, decision.confidence),
        decision.escalated == (decision.confidence >= ESCALATION_THRESHOLD),
        final(state).levels() == if decision.escalated {
            old(state).levels().insert(decision.key@, escalated(decision.level))
        } else {
            old(state).levels()
        },
        final(state).retries() == old(state).retries(),
        final(state).next_retry() == old(state).next_retry(),
        final(state).confidences() == old(state).confidences(),
        final(state).restart_counts() == old(state).restart_counts(),
        final(state).observed_at() == old(state).observed_at(),
        final(state).wf(),
{
    let key = state_key(target);
    heal_keyed(state, target, key)
}

} // verus!
