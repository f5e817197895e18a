//! The per-process guard around service restarts.
//!
//! A session lives as long as the daemon process. It is the only component
//! that may request a restart outside a human-approved plan, and it grants
//! one attempt per unit.

use vstd::prelude::*;
use vstd::hash_set::StringHashSet;
use vstd::string::*;
use crate::confidence::Confidence;
use crate::confidence_eval::combined_confidence;
use crate::heal_gate::gate_open;
use crate::opinion::Opinion;
use crate::state::BootContext;
use crate::text::{concat2, str_eq};

verus! {

/// How the attempt to run the restart command ended.
#[derive(Debug)]
pub enum RestartStatus {
    /// The command ran and reported success.
    Succeeded,
    /// The command ran and reported failure.
    Failed,
    /// The command could not be started; `error` says why.
    NotInvoked { error: String },
}

/// The units restarted, or tried, during this process lifetime.
pub struct HealingSession {
    attempted_units: StringHashSet,
}

/// Foundational services and targets that are never restarted
/// automatically.
pub open spec fn is_denylisted(unit: Seq<char>) -> bool {
    ||| unit == "basic.target"@
    ||| unit == "sysinit.target"@
    ||| unit == "multi-user.target"@
    ||| unit == "graphical.target"@
    ||| unit == "systemd-journald.service"@
    ||| unit == "systemd-logind.service"@
    ||| unit == "systemd-udevd.service"@
    ||| unit == "dbus.service"@
}

/// Why a restart is refused, if it is. The checks come in this order: the
/// session is not graphical, the confidence is not high, the unit is
/// denylisted, the unit was already attempted.
pub open spec fn refusal(
    attempted: Set<Seq<char>>,
    unit: Seq<char>,
    boot_context: BootContext,
    confidence: Confidence,
) -> Option<Seq<char>> {
    if boot_context != BootContext::Graphical {
        Some("not in graphical session"@)
    } else if confidence != Confidence::High {
        Some("confidence not high"@)
    } else if is_denylisted(unit) {
        Some("unit is denylisted"@)
    } else if attempted.contains(unit) {
        Some("unit already attempted this session"@)
    } else {
        None
    }
}

/// What the caller is told for each way the restart command can end.
pub open spec fn restart_result(status: RestartStatus) -> Result<(), Seq<char>> {
    match status {
        RestartStatus::Succeeded => Ok(()),
        RestartStatus::Failed => Err("systemctl restart failed"@),
        RestartStatus::NotInvoked { error } => Err("failed to invoke systemctl: "@ + error@),
    }
}

/// A result with its message as characters.
pub open spec fn result_text(result: Result<(), String>) -> Result<(), Seq<char>> {
    match result {
        Ok(()) => Ok(()),
        Err(message) => Err(message@),
    }
}

/// Whether the unit is on the denylist.
pub fn unit_is_denylisted(unit: &str) -> (r: bool)
    ensures
        r == is_denylisted(unit@),
{
    str_eq(unit, "basic.target") || str_eq(unit, "sysinit.target") || str_eq(
        unit,
        "multi-user.target",
    ) || str_eq(unit, "graphical.target") || str_eq(unit, "systemd-journald.service") || str_eq(
        unit,
        "systemd-logind.service",
    ) || str_eq(unit, "systemd-udevd.service") || str_eq(unit, "dbus.service")
}

/// Maps the way the restart command ended to the caller's result.
pub fn restart_outcome(status: RestartStatus) -> (result: Result<(), String>)
    ensures
        result_text(result) == restart_result(status),
{
    match status {
        RestartStatus::Succeeded => Ok(()),
        RestartStatus::Failed => Err(String::from_str("systemctl restart failed")),
        RestartStatus::NotInvoked { error } => Err(
            concat2("failed to invoke systemctl: ", error.as_str()),
        ),
    }
}

impl HealingSession {
    /// The units attempted so far.
    pub closed spec fn attempted(&self) -> Set<Seq<char>> {
        self.attempted_units@
    }

    /// A session in which nothing was attempted yet.
    pub fn new() -> (session: HealingSession)
        ensures
            session.attempted() == Set::<Seq<char>>::empty(),
    {
        HealingSession { attempted_units: StringHashSet::new() }
    }

    /// Whether the unit was attempted in this session.
    pub fn was_attempted(&self, unit: &str) -> (r: bool)
        ensures
            r == self.attempted().contains(unit@),
    {
        self.attempted_units.contains(unit)
    }

    /// Decides whether the unit may be restarted, and marks it as attempted
    /// if so. `Ok` tells the caller to run the restart; `Err` carries the
    /// reason for the refusal, and then the session is unchanged.
    pub fn authorize_restart(
        &mut self,
        unit: &str,
        boot_context: BootContext,
        confidence: Confidence,
    ) -> (decision: Result<(), String>)
        ensures
            result_text(decision) == match refusal(
                old(self).attempted(),
                unit@,
                boot_context,
                confidence,
            ) {
                Some(reason) => Err::<(), Seq<char>>(reason),
                None => Ok::<(), Seq<char>>(()),
            },
            decision is Err ==> final(self).attempted() == old(self).attempted(),
            decision is Ok ==> final(self).attempted() == old(self).attempted().insert(unit@),
    {
        if boot_context != BootContext::Graphical {
            return Err(String::from_str("not in graphical session"));
        }
        if confidence != Confidence::High {
            return Err(String::from_str("confidence not high"));
        }
        if unit_is_denylisted(unit) {
            return Err(String::from_str("unit is denylisted"));
        }
        if self.attempted_units.contains(unit) {
            return Err(String::from_str("unit already attempted this session"));
        }
        let _ = self.attempted_units.insert(String::from_str(unit));
        Ok(())
    }

    /// Attempts one guarded restart of a unit.
    ///
    /// The boot context and the confidence are checked again here, whatever
    /// the caller checked before. A denylisted unit and a unit attempted
    /// earlier in this session are refused. Only when nothing refuses is the
    /// unit marked as attempted and `run` called, once, with the unit's
    /// name; what `run` reports becomes the result.
    ///
    /// The caller owes the precondition of `run` only for a request that is
    /// not refused. So on a refusal nothing is known here that would allow a
    /// call of `run`: a refused request reaches no executor.
    pub fn restart_service<F: FnOnce(&str) -> RestartStatus>(
        &mut self,
        unit: &str,
        boot_context: BootContext,
        confidence: Confidence,
        run: F,
    ) -> (result: Result<(), String>)
        requires
            refusal(old(self).attempted(), unit@, boot_context, confidence) is None
                ==> call_requires(run, (unit,)),
        ensures
            match refusal(old(self).attempted(), unit@, boot_context, confidence) {
                Some(reason) => {
                    &&& result_text(result) == Err::<(), Seq<char>>(reason)
                    &&& final(self).attempted() == old(self).attempted()
                },
                None => {
                    &&& final(self).attempted() == old(self).attempted().insert(unit@)
                    &&& exists|status: RestartStatus|
                        call_ensures(run, (unit,), status) && result_text(result)
                            == restart_result(status)
                },
            },
    {
        match self.authorize_restart(unit, boot_context, confidence) {
            Err(reason) => Err(reason),
            Ok(()) => {
                let status = run(unit);
                restart_outcome(status)
            },
        }
    }
}

impl Default for HealingSession {
    fn default() -> (session: HealingSession)
        ensures
            session.attempted() == Set::<Seq<char>>::empty(),
    {
        HealingSession::new()
    }
}

/// Where the session is handed the combined confidence of the cycle, it
/// lets a restart pass only if the heal gate is open: the boot context and
/// the confidence are checked here, and a high combined confidence rules out
/// a broken opinion.
pub proof fn lemma_restart_passes_only_through_open_gate(
    attempted: Set<Seq<char>>,
    unit: Seq<char>,
    boot_context: BootContext,
    health: Opinion,
    systemd: Opinion,
    observer_confidence: Confidence,
)
    requires
        refusal(
            attempted,
            unit,
            boot_context,
            combined_confidence(health, systemd, observer_confidence),
        ) is None,
    ensures
        gate_open(
            health,
            systemd,
            combined_confidence(health, systemd, observer_confidence),
            boot_context,
        ),
{
}

/// A denylisted unit is refused whatever the boot context, the confidence
/// and the session's history are. For a refused request `restart_service`
/// asks nothing of the executor and so cannot call it.
pub proof fn lemma_denylisted_always_refused(
    attempted: Set<Seq<char>>,
    unit: Seq<char>,
    boot_context: BootContext,
    confidence: Confidence,
)
    requires
        is_denylisted(unit),
    ensures
        refusal(attempted, unit, boot_context, confidence) is Some,
{
}

/// Once a unit has passed the checks it is refused for the rest of the
/// session, whatever became of the first attempt. In a graphical session
/// with high confidence the reason is that it was already attempted.
pub proof fn lemma_second_attempt_refused(
    attempted: Set<Seq<char>>,
    unit: Seq<char>,
    boot_context: BootContext,
    confidence: Confidence,
    later_boot_context: BootContext,
    later_confidence: Confidence,
)
    requires
        refusal(attempted, unit, boot_context, confidence) is None,
    ensures
        refusal(attempted.insert(unit), unit, later_boot_context, later_confidence) is Some,
        later_boot_context == BootContext::Graphical && later_confidence == Confidence::High
            ==> refusal(attempted.insert(unit), unit, later_boot_context, later_confidence)
            == Some("unit already attempted this session"@),
{
}

} // verus!
