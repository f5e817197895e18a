//! Watches the restart counts of selected services for early signs of
//! trouble. It only raises alerts; it never asks for a command.

use vstd::prelude::*;
use vstd::string::*;
use crate::clock::unix_seconds;
use crate::state::{HealState, get_last_restart_count, set_last_restart_count_at};
use crate::systemd::get_restart_count;
use crate::text::{concat3, decimal, decimal_digits, texts};

verus! {

/// Why a healing action was triggered.
#[derive(Debug)]
pub enum TriggerReason {
    Predicted,
}

/// A service whose restart count rose since the last observation.
#[derive(Debug)]
pub struct DriftResult {
    pub service: String,
    pub score: u64,
}

/// The least score that raises an alert.
pub const DRIFT_THRESHOLD: u64 = 15;

/// The drift score of a reading: ten for each restart since the reading
/// before it; zero where there was none before or the count did not rise.
pub open spec fn drift_score(previous: Option<u32>, current: u32) -> nat {
    match previous {
        Some(before) => if current > before {
            ((current - before) * 10) as nat
        } else {
            0
        },
        None => 0,
    }
}

/// The two lines of an alert.
pub open spec fn alert_notes(service: Seq<char>, score: u64) -> Seq<Seq<char>> {
    seq![
        "Predictive alert: restart trend detected for '"@ + service + "' (drift score = "@
            + decimal_digits(score as nat) + ")"@,
        "Predictive healing triggered for '"@ + service + "'"@,
    ]
}

/// The lines of the alerts for the drifts that reach the threshold, in the
/// order of the drifts.
pub open spec fn alerts(drifts: Seq<DriftResult>) -> Seq<Seq<char>>
    decreases drifts.len(),
{
    if drifts.len() == 0 {
        Seq::empty()
    } else if drifts.last().score >= DRIFT_THRESHOLD {
        alerts(drifts.drop_last()) + alert_notes(drifts.last().service@, drifts.last().score)
    } else {
        alerts(drifts.drop_last())
    }
}

/// Compares a service's restart count, read at `now`, with the count
/// recorded before, records the new count, and reports the drift if the
/// count rose.
pub fn restart_trend_at(state: &mut HealState, service: &str, current: u32, now: u64) -> (drift:
    Option<DriftResult>)
    ensures
        final(state).restart_counts() == old(state).restart_counts().insert(service@, current),
        final(state).observed_at() == old(state).observed_at().insert(service@, now),
        final(state).retries() == old(state).retries(),
        final(state).next_retry() == old(state).next_retry(),
        final(state).levels() == old(state).levels(),
        final(state).confidences() == old(state).confidences(),
        final(state).wf(),
        ({
            let previous = if old(state).restart_counts().contains_key(service@) {
                Some(old(state).restart_counts()[service@])
            } else {
                None
            };
            match drift {
                Some(d) => d.service@ == service@ && d.score == drift_score(previous, current)
                    && d.score > 0,
                None => drift_score(previous, current) == 0,
            }
        }),
{
    let previous = match get_last_restart_count(state, service) {
        Some(count) => count,
        None => current,
    };
    set_last_restart_count_at(state, service, current, now);
    let delta: u32 = if current > previous {
        current - previous
    } else {
        0
    };
    if delta == 0 {
        return None;
    }
    let score: u64 = (delta as u64) * 10;
    Some(DriftResult { service: String::from_str(service), score })
}

/// Looks for a restart trend of one service. The count comes from the
/// service manager; as long as it reports none there is no drift and nothing
/// is recorded.
pub fn check_restart_trend(state: &mut HealState, service: &str) -> (drift: Option<DriftResult>)
    ensures
        drift is None,
        final(state).same_as(old(state)),
{
    match get_restart_count(service) {
        Some(current) => {
            let now = unix_seconds();
            restart_trend_at(state, service, current, now)
        },
        None => None,
    }
}

/// Looks for restart trends in the watched services.
pub fn detect_systemd_drift(state: &mut HealState) -> (drifts: Vec<DriftResult>)
    ensures
        drifts@.len() == 0,
        final(state).same_as(old(state)),
{
    let mut drifts: Vec<DriftResult> = Vec::new();
    match check_restart_trend(state, "NetworkManager.service") {
        Some(drift) => drifts.push(drift),
        None => {},
    }
    match check_restart_trend(state, "sshd.service") {
        Some(drift) => drifts.push(drift),
        None => {},
    }
    drifts
}

/// The two lines that announce a preventive healing.
pub fn trigger_preventive_heal(drift: &DriftResult) -> (notes: Vec<String>)
    ensures
        texts(notes@) == alert_notes(drift.service@, drift.score),
{
    let score = decimal(drift.score);
    let mut alert = concat3(
        "Predictive alert: restart trend detected for '",
        drift.service.as_str(),
        "' (drift score = ",
    );
    alert.append(score.as_str());
    alert.append(")");
    let triggered = concat3("Predictive healing triggered for '", drift.service.as_str(), "'");
    let notes = vec![alert, triggered];
    assert(texts(notes@) =~= alert_notes(drift.service@, drift.score));
    notes
}

/// The lines to log for a list of drifts: an alert for each drift whose
/// score reaches the threshold.
pub fn alerts_for(drifts: &Vec<DriftResult>) -> (notes: Vec<String>)
    ensures
        texts(notes@) == alerts(drifts@),
{
    let mut notes: Vec<String> = Vec::new();
    let mut i: usize = 0;
    assert(drifts@.take(0) =~= Seq::<DriftResult>::empty());
    assert(texts(notes@) =~= alerts(drifts@.take(0)));
    while i < drifts.len()
        invariant
            i <= drifts.len(),
            texts(notes@) == alerts(drifts@.take(i as int)),
        decreases drifts.len() - i,
    {
        proof {
            assert(drifts@.take(i as int + 1).drop_last() =~= drifts@.take(i as int));
            assert(drifts@.take(i as int + 1).last() == drifts@[i as int]);
        }
        if drifts[i].score >= DRIFT_THRESHOLD {
            let mut alert = trigger_preventive_heal(&drifts[i]);
            let ghost before = notes@;
            let ghost added = alert@;
            notes.append(&mut alert);
            assert(texts(notes@) =~= texts(before) + texts(added));
        }
        i = i + 1;
    }
    assert(drifts@.take(drifts.len() as int) =~= drifts@);
    notes
}

/// One round of observation: looks for restart trends in the watched
/// services and returns the lines of the alerts to log.
pub fn observe(state: &mut HealState) -> (notes: Vec<String>)
    ensures
        notes@.len() == 0,
        final(state).same_as(old(state)),
{
    let drifts = detect_systemd_drift(state);
    let notes = alerts_for(&drifts);
    assert(texts(notes@).len() == 0);
    notes
}

} // verus!
