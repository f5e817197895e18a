//! The states that the daemon wants the host to be in.

use vstd::prelude::*;
use vstd::string::*;
use crate::text::{concat3, debug_quoted, debug_text};

verus! {

/// A desired state of the host; each is a remediation target of its own.
#[derive(Debug, Clone, PartialEq, Eq, Hash)]
pub enum SystemState {
    /// The package database is consistent and unlocked.
    PackageConsistent,
    /// The named service is active.
    ServiceActive(String),
    /// The network is reachable.
    NetworkReachable,
    /// The file system mounted at the path is writable.
    FilesystemWritable(String),
    /// The boot chain is healthy.
    BootHealthy,
}

/// What a [`SystemState`] names, as plain values.
pub enum SystemStateView {
    PackageConsistent,
    ServiceActive(Seq<char>),
    NetworkReachable,
    FilesystemWritable(Seq<char>),
    BootHealthy,
}

impl View for SystemState {
    type V = SystemStateView;

    open spec fn view(&self) -> SystemStateView {
        match self {
            SystemState::PackageConsistent => SystemStateView::PackageConsistent,
            SystemState::ServiceActive(service) => SystemStateView::ServiceActive(service@),
            SystemState::NetworkReachable => SystemStateView::NetworkReachable,
            SystemState::FilesystemWritable(path) => SystemStateView::FilesystemWritable(path@),
            SystemState::BootHealthy => SystemStateView::BootHealthy,
        }
    }
}

/// The views of a list of states, in order.
pub open spec fn state_views(states: Seq<SystemState>) -> Seq<SystemStateView> {
    Seq::new(states.len(), |i: int| states[i]@)
}

/// The key under which a target's records are kept: the target as its debug
/// representation, the variant's name followed, where it has a field, by the
/// quoted field in round brackets.
pub open spec fn state_key_text(target: SystemState) -> Seq<char> {
    match target {
        SystemState::PackageConsistent => "PackageConsistent"@,
        SystemState::ServiceActive(service) => field_key_text(
            "ServiceActive"@,
            debug_text(service@),
        ),
        SystemState::NetworkReachable => "NetworkReachable"@,
        SystemState::FilesystemWritable(path) => field_key_text(
            "FilesystemWritable"@,
            debug_text(path@),
        ),
        SystemState::BootHealthy => "BootHealthy"@,
    }
}

/// The key of a variant with one field: the variant's name and the quoted
/// field in round brackets.
pub open spec fn field_key_text(variant: Seq<char>, quoted: Seq<char>) -> Seq<char> {
    variant + "("@ + quoted + ")"@
}

/// Builds the key of a variant with one field from the variant's name and
/// the field as it was quoted.
pub fn field_key(variant: &str, quoted: &str) -> (key: String)
    ensures
        key@ == field_key_text(variant@, quoted@),
{
    let mut key = concat3(variant, "(", quoted);
    key.append(")");
    key
}

/// Computes the key under which a target's records are kept.
pub fn state_key(target: &SystemState) -> (key: String)
    ensures
        key@ == state_key_text(*target),
{
    match target {
        SystemState::PackageConsistent => String::from_str("PackageConsistent"),
        SystemState::ServiceActive(service) => {
            let quoted = debug_quoted(service.as_str());
            field_key("ServiceActive", quoted.as_str())
        },
        SystemState::NetworkReachable => String::from_str("NetworkReachable"),
        SystemState::FilesystemWritable(path) => {
            let quoted = debug_quoted(path.as_str());
            field_key("FilesystemWritable", quoted.as_str())
        },
        SystemState::BootHealthy => String::from_str("BootHealthy"),
    }
}

} // verus!
