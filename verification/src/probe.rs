//! Turns what the health probes found into the list of broken states, and
//! checks afterwards whether a state has recovered.

use vstd::prelude::*;
use vstd::string::*;
use crate::system_state::{SystemState, SystemStateView, state_views};
use crate::systemd::is_active;
use crate::text::{occurs_in, str_contains};

verus! {

/// What the probes found when a state is checked after healing.
#[derive(Debug)]
pub struct HealthProbes {
    /// The package database lock exists.
    pub pacman_broken: bool,
    /// A ping of the reference address succeeded.
    pub ping_ok: bool,
    /// What the mount table printed, if it could be read.
    pub mount_output: Option<String>,
}

/// The network is usable when both the ping and the name lookup succeeded.
pub fn network_ok(ping_ok: bool, dns_ok: bool) -> (usable: bool)
    ensures
        usable == (ping_ok && dns_ok),
{
    ping_ok && dns_ok
}

/// Whether a mount table shows the path and a read-write mount.
pub open spec fn shows_read_write(mount_output: Option<Seq<char>>, path: Seq<char>) -> bool {
    match mount_output {
        Some(table) => occurs_in(path, table) && occurs_in("(rw"@, table),
        None => false,
    }
}

/// Whether the file system at the path is mounted read-write, judged from
/// what the mount table printed. A table that could not be read counts as
/// not writable.
pub fn filesystem_rw(mount_output: Option<&str>, path: &str) -> (writable: bool)
    ensures
        writable == shows_read_write(
            match mount_output {
                Some(table) => Some(table@),
                None => None,
            },
            path@,
        ),
{
    match mount_output {
        Some(table) => str_contains(table, path) && str_contains(table, "(rw"),
        None => false,
    }
}

/// Whether the disk is full. No probe for it is wired in: it never is.
pub fn disk_full() -> (full: bool)
    ensures
        !full,
{
    false
}

/// Whether the boot was degraded. No probe for it is wired in: it never is.
pub fn boot_degraded() -> (degraded: bool)
    ensures
        !degraded,
{
    false
}

/// The broken states that the findings stand for, in the order package
/// database, service, network, root file system.
pub open spec fn broken_states(
    pacman_broken: bool,
    failed_service: Option<Seq<char>>,
    network_usable: bool,
    root_writable: bool,
) -> Seq<SystemStateView> {
    (if pacman_broken {
        seq![SystemStateView::PackageConsistent]
    } else {
        Seq::empty()
    }) + (match failed_service {
        Some(service) => seq![SystemStateView::ServiceActive(service)],
        None => Seq::empty(),
    }) + (if network_usable {
        Seq::empty()
    } else {
        seq![SystemStateView::NetworkReachable]
    }) + (if root_writable {
        Seq::empty()
    } else {
        seq![SystemStateView::FilesystemWritable("/"@)]
    })
}

/// Lists the states that are broken, given what the probes found: whether
/// the package database is locked, a failed service if there is one, whether
/// the network is usable, and whether the root file system is writable.
pub fn detect_broken_states(
    pacman_broken: bool,
    failed_service: Option<String>,
    network_usable: bool,
    root_writable: bool,
) -> (broken: Vec<SystemState>)
    ensures
        state_views(broken@) == broken_states(
            pacman_broken,
            match failed_service {
                Some(service) => Some(service@),
                None => None,
            },
            network_usable,
            root_writable,
        ),
{
    let mut broken: Vec<SystemState> = Vec::new();
    if pacman_broken {
        broken.push(SystemState::PackageConsistent);
    }
    let ghost first = state_views(broken@);
    match failed_service {
        Some(service) => {
            broken.push(SystemState::ServiceActive(service));
            assert(state_views(broken@) =~= first.push(SystemStateView::ServiceActive(service@)));
        },
        None => {},
    }
    let ghost second = state_views(broken@);
    if !network_usable {
        broken.push(SystemState::NetworkReachable);
        assert(state_views(broken@) =~= second.push(SystemStateView::NetworkReachable));
    }
    let ghost third = state_views(broken@);
    if !root_writable {
        broken.push(SystemState::FilesystemWritable(String::from_str("/")));
        assert(state_views(broken@) =~= third.push(SystemStateView::FilesystemWritable("/"@)));
    }
    assert(state_views(broken@) =~= broken_states(
        pacman_broken,
        match failed_service {
            Some(service) => Some(service@),
            None => None,
        },
        network_usable,
        root_writable,
    ));
    broken
}

/// Whether a state counts as healthy under the findings.
pub open spec fn is_healthy(state: SystemStateView, probes: HealthProbes) -> bool {
    match state {
        SystemStateView::PackageConsistent => !probes.pacman_broken,
        SystemStateView::ServiceActive(_) => true,
        SystemStateView::NetworkReachable => probes.ping_ok,
        SystemStateView::FilesystemWritable(path) => shows_read_write(
            match probes.mount_output {
                Some(table) => Some(table@),
                None => None,
            },
            path,
        ),
        SystemStateView::BootHealthy => true,
    }
}

/// Checks whether a state is healthy now, given what the probes found. The
/// package database is healthy when it is not locked, a service when it is
/// active, the network when the ping succeeded, a file system when the
/// mount table shows it read-write, the boot chain when the boot was not
/// degraded.
pub fn verify(state: &SystemState, probes: &HealthProbes) -> (healthy: bool)
    ensures
        healthy == is_healthy(state@, *probes),
{
    match state {
        SystemState::PackageConsistent => !probes.pacman_broken,
        SystemState::ServiceActive(service) => is_active(service.as_str()),
        SystemState::NetworkReachable => probes.ping_ok,
        SystemState::FilesystemWritable(path) => match &probes.mount_output {
            Some(table) => filesystem_rw(Some(table.as_str()), path.as_str()),
            None => filesystem_rw(None, path.as_str()),
        },
        SystemState::BootHealthy => !boot_degraded(),
    }
}

} // verus!
