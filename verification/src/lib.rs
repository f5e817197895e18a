//! Decision core of a host-resident remediation daemon.
//!
//! The crate turns observations of a running system (failed units, the
//! package-manager lock, the boot phase) into bounded, explainable and
//! safety-gated remediation decisions. Nothing here runs a command or touches
//! a file: what the probes found comes in as plain values, and what is to be
//! done goes out as plain values.
//!
//! The one thing that the crate reads by itself is the clock. `should_retry`,
//! `set_last_restart_count`, `build_repair_plans`, `generate_plan_id`,
//! `note` and `decide_cycle` read the wall clock, and `enqueue`, and `triage`
//! through it, read the monotonic clock. Each of them has a sibling that
//! takes the time as an argument and does the same work on it.

pub mod classifier;
pub mod clock;
pub mod confidence;
pub mod confidence_eval;
pub mod cycle;
pub mod deferred;
pub mod detector;
pub mod explain;
pub mod heal_gate;
pub mod healer;
pub mod healing_level;
pub mod health;
pub mod keyed;
pub mod opinion;
pub mod pacman;
pub mod policy;
pub mod predictive;
pub mod probe;
pub mod repair_builder;
pub mod repair_plan;
pub mod reporter;
pub mod session;
pub mod state;
pub mod system_state;
pub mod systemd;
pub mod text;
