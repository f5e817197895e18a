//! Boot phase and the persistent escalation and retry state.
//!
//! The state is an owned store that the control loop passes to its
//! consumers. It keeps, for each remediation target: how often a retry was
//! granted and when the next one is due, the escalation level, a confidence
//! score in hundredths, and the restart count last seen.

use vstd::prelude::*;
use vstd::arithmetic::power2::{lemma2_to64, pow2};
use vstd::string::*;
use crate::clock::unix_seconds;
use crate::keyed::{
    Entry, KeyedStore, distinct_keys, entries_map, lemma_entry_in_map, lemma_replayed_distinct,
    replayed,
};

verus! {

/// The phase of system start-up, or the kind of session, that the host is
/// in. Probed afresh every cycle and never persisted.
#[derive(Debug, Clone, Copy, PartialEq, Eq, Structural)]
pub enum BootContext {
    EarlyBoot,
    EarlyUserspace,
    MultiUser,
    Graphical,
    Rescue,
    Unknown,
}

/// The most retries that are granted for one target between two resets.
pub const MAX_RETRIES: u8 = 3;

/// The highest escalation level.
pub const MAX_LEVEL: u8 = 4;

/// The escalation level of a target that has none recorded.
pub const DEFAULT_LEVEL: u8 = 1;

/// The confidence, in hundredths, of a target that has none recorded.
pub const DEFAULT_CONFIDENCE: u8 = 50;

/// The highest confidence, in hundredths.
pub const FULL_CONFIDENCE: u8 = 100;

/// What a successful remediation adds to a target's confidence.
pub const CONFIDENCE_GAIN: u8 = 10;

/// What a failed remediation takes from a target's confidence.
pub const CONFIDENCE_LOSS: u8 = 15;

/// The longest backoff delay, in seconds.
pub const MAX_BACKOFF: u64 = 40;

/// The escalation and retry records, one per target key.
pub struct HealState {
    retries: KeyedStore<u8>,
    next_retry: KeyedStore<u64>,
    healing_level: KeyedStore<u8>,
    confidence: KeyedStore<u8>,
    last_restart_count: KeyedStore<u32>,
    last_observed_at: KeyedStore<u64>,
}

/// The records of a [`HealState`] laid out as lists, for writing them out
/// and reading them back.
pub struct HealSnapshot {
    pub retries: Vec<Entry<u8>>,
    pub next_retry: Vec<Entry<u64>>,
    pub healing_level: Vec<Entry<u8>>,
    pub confidence: Vec<Entry<u8>>,
    pub last_restart_count: Vec<Entry<u32>>,
    pub last_observed_at: Vec<Entry<u64>>,
}

/// Every value is at most the bound.
pub open spec fn all_at_most(entries: Seq<Entry<u8>>, bound: u8) -> bool {
    forall|i: int| 0 <= i < entries.len() ==> (#[trigger] entries[i]).value <= bound
}

/// Every value is at least the bound.
pub open spec fn all_at_least(entries: Seq<Entry<u8>>, bound: u8) -> bool {
    forall|i: int| 0 <= i < entries.len() ==> (#[trigger] entries[i]).value >= bound
}

impl HealSnapshot {
    /// Whether every value of the snapshot is within the bounds that the
    /// state keeps.
    pub open spec fn in_bounds(&self) -> bool {
        &&& all_at_most(self.retries@, MAX_RETRIES)
        &&& all_at_least(self.healing_level@, DEFAULT_LEVEL)
        &&& all_at_most(self.healing_level@, MAX_LEVEL)
        &&& all_at_most(self.confidence@, FULL_CONFIDENCE)
    }
}

/// The seconds to wait after the retry with the given number (from 1):
/// ten, doubled with each further retry.
pub open spec fn backoff_delay(attempt: nat) -> nat
    recommends
        attempt >= 1,
{
    10 * pow2((attempt - 1) as nat)
}

/// The level after one escalation: one higher, up to the ceiling.
pub open spec fn escalated(level: u8) -> u8 {
    if level < MAX_LEVEL {
        (level + 1) as u8
    } else {
        level
    }
}

/// The confidence after a success: higher by the gain, capped at full.
pub open spec fn bumped(confidence: u8) -> u8 {
    if confidence + CONFIDENCE_GAIN >= FULL_CONFIDENCE {
        FULL_CONFIDENCE
    } else {
        (confidence + CONFIDENCE_GAIN) as u8
    }
}

/// The confidence after a failure: lower by the loss, floored at zero and
/// never above full.
pub open spec fn dropped(confidence: u8) -> u8 {
    if confidence <= CONFIDENCE_LOSS {
        0
    } else if confidence - CONFIDENCE_LOSS >= FULL_CONFIDENCE {
        FULL_CONFIDENCE
    } else {
        (confidence - CONFIDENCE_LOSS) as u8
    }
}

/// A confidence clamped to the range from zero to full.
pub open spec fn clamped(confidence: u8) -> u8 {
    if confidence >= FULL_CONFIDENCE {
        FULL_CONFIDENCE
    } else {
        confidence
    }
}

impl HealState {
    /// The retry counts, by key.
    pub closed spec fn retries(&self) -> Map<Seq<char>, u8> {
        self.retries@
    }

    /// The earliest time of the next retry in seconds, by key.
    pub closed spec fn next_retry(&self) -> Map<Seq<char>, u64> {
        self.next_retry@
    }

    /// The escalation levels, by key.
    pub closed spec fn levels(&self) -> Map<Seq<char>, u8> {
        self.healing_level@
    }

    /// The confidence scores in hundredths, by key.
    pub closed spec fn confidences(&self) -> Map<Seq<char>, u8> {
        self.confidence@
    }

    /// The restart counts last seen, by key.
    pub closed spec fn restart_counts(&self) -> Map<Seq<char>, u32> {
        self.last_restart_count@
    }

    /// The times of the last observation in seconds, by key.
    pub closed spec fn observed_at(&self) -> Map<Seq<char>, u64> {
        self.last_observed_at@
    }

    /// The retries granted for a key so far: zero where none is recorded.
    pub open spec fn retry_count(&self, key: Seq<char>) -> u8 {
        if self.retries().contains_key(key) {
            self.retries()[key]
        } else {
            0
        }
    }

    /// The escalation level of a key: the default where none is recorded.
    pub open spec fn level_of(&self, key: Seq<char>) -> u8 {
        if self.levels().contains_key(key) {
            self.levels()[key]
        } else {
            DEFAULT_LEVEL
        }
    }

    /// The confidence of a key: the default where none is recorded.
    pub open spec fn confidence_of(&self, key: Seq<char>) -> u8 {
        if self.confidences().contains_key(key) {
            self.confidences()[key]
        } else {
            DEFAULT_CONFIDENCE
        }
    }

    /// Whether a retry for the key is due at `now`: no backoff is recorded,
    /// or its time has come.
    pub open spec fn retry_due(&self, key: Seq<char>, now: u64) -> bool {
        self.next_retry().contains_key(key) ==> now >= self.next_retry()[key]
    }

    /// Whether a retry for the key is granted at `now`.
    pub open spec fn retry_granted(&self, key: Seq<char>, now: u64) -> bool {
        self.retry_count(key) < MAX_RETRIES && self.retry_due(key, now)
    }

    /// What one retry decision at `now` records: a grant counts the retry and
    /// sets the next backoff; a refusal records the count as it was and
    /// leaves the backoff alone. `self` is the state after the decision.
    pub open spec fn retry_recorded(&self, before: &HealState, key: Seq<char>, now: u64) -> bool {
        &&& self.same_but_retries(before)
        &&& if before.retry_granted(key, now) {
            &&& self.retries() == before.retries().insert(
                key,
                (before.retry_count(key) + 1) as u8,
            )
            &&& self.next_retry() == before.next_retry().insert(
                key,
                (now + backoff_delay((before.retry_count(key) + 1) as nat)) as u64,
            )
        } else {
            &&& self.retries() == before.retries().insert(key, before.retry_count(key))
            &&& self.next_retry() == before.next_retry()
        }
    }

    /// The bounds that every record keeps: at most three retries, a level
    /// from one to four, a confidence of at most one hundred hundredths.
    /// They hold of every state that the functions of this module hand out.
    pub open spec fn wf(&self) -> bool {
        &&& forall|key: Seq<char>| #[trigger]
            self.retries().contains_key(key) ==> self.retries()[key] <= MAX_RETRIES
        &&& forall|key: Seq<char>| #[trigger]
            self.levels().contains_key(key) ==> DEFAULT_LEVEL <= self.levels()[key] <= MAX_LEVEL
        &&& forall|key: Seq<char>| #[trigger]
            self.confidences().contains_key(key) ==> self.confidences()[key] <= FULL_CONFIDENCE
    }

    /// Whether every map but the retry counts and the backoff times is as in
    /// `other`.
    pub open spec fn same_but_retries(&self, other: &HealState) -> bool {
        &&& self.levels() == other.levels()
        &&& self.confidences() == other.confidences()
        &&& self.restart_counts() == other.restart_counts()
        &&& self.observed_at() == other.observed_at()
    }

    /// Whether every map is as in `other`.
    pub open spec fn same_as(&self, other: &HealState) -> bool {
        &&& self.retries() == other.retries()
        &&& self.next_retry() == other.next_retry()
        &&& self.same_but_retries(other)
    }

    /// Lays the records out as lists, each key once.
    pub fn snapshot(&self) -> (snapshot: HealSnapshot)
        ensures
            entries_map(snapshot.retries@) == self.retries(),
            entries_map(snapshot.next_retry@) == self.next_retry(),
            entries_map(snapshot.healing_level@) == self.levels(),
            entries_map(snapshot.confidence@) == self.confidences(),
            entries_map(snapshot.last_restart_count@) == self.restart_counts(),
            entries_map(snapshot.last_observed_at@) == self.observed_at(),
            distinct_keys(snapshot.retries@),
            distinct_keys(snapshot.next_retry@),
            distinct_keys(snapshot.healing_level@),
            distinct_keys(snapshot.confidence@),
            distinct_keys(snapshot.last_restart_count@),
            distinct_keys(snapshot.last_observed_at@),
            snapshot.in_bounds(),
    {
        let snapshot = HealSnapshot {
            retries: self.retries.to_vec(),
            next_retry: self.next_retry.to_vec(),
            healing_level: self.healing_level.to_vec(),
            confidence: self.confidence.to_vec(),
            last_restart_count: self.last_restart_count.to_vec(),
            last_observed_at: self.last_observed_at.to_vec(),
        };
        proof {
            use_type_invariant(self);
            self.lemma_maps();
            assert forall|i: int| 0 <= i < snapshot.retries@.len() implies (
            #[trigger] snapshot.retries@[i]).value <= MAX_RETRIES by {
                lemma_entry_in_map(snapshot.retries@, i);
            }
            assert forall|i: int| 0 <= i < snapshot.healing_level@.len() implies DEFAULT_LEVEL <= (
            #[trigger] snapshot.healing_level@[i]).value <= MAX_LEVEL by {
                lemma_entry_in_map(snapshot.healing_level@, i);
            }
            assert forall|i: int| 0 <= i < snapshot.confidence@.len() implies (
            #[trigger] snapshot.confidence@[i]).value <= FULL_CONFIDENCE by {
                lemma_entry_in_map(snapshot.confidence@, i);
            }
        }
        snapshot
    }

    /// Rebuilds the state from a snapshot. A snapshot with a value out of
    /// bounds is refused as corrupt. Where a list holds a key twice, the
    /// later entry counts.
    pub fn restore(snapshot: &HealSnapshot) -> (state: Option<HealState>)
        ensures
            state is Some <==> snapshot.in_bounds(),
            state matches Some(s) ==> {
                &&& s.wf()
                &&& s.retries() == replayed(snapshot.retries@)
                &&& s.next_retry() == replayed(snapshot.next_retry@)
                &&& s.levels() == replayed(snapshot.healing_level@)
                &&& s.confidences() == replayed(snapshot.confidence@)
                &&& s.restart_counts() == replayed(snapshot.last_restart_count@)
                &&& s.observed_at() == replayed(snapshot.last_observed_at@)
            },
    {
        if !(values_at_most(&snapshot.retries, MAX_RETRIES) && values_at_least(
            &snapshot.healing_level,
            DEFAULT_LEVEL,
        ) && values_at_most(&snapshot.healing_level, MAX_LEVEL) && values_at_most(
            &snapshot.confidence,
            FULL_CONFIDENCE,
        )) {
            return None;
        }
        proof {
            lemma_replayed_bounds(snapshot.retries@, 0, MAX_RETRIES);
            lemma_replayed_bounds(snapshot.healing_level@, DEFAULT_LEVEL, MAX_LEVEL);
            lemma_replayed_bounds(snapshot.confidence@, 0, FULL_CONFIDENCE);
        }
        let state = HealState {
            retries: KeyedStore::from_entries(&snapshot.retries),
            next_retry: KeyedStore::from_entries(&snapshot.next_retry),
            healing_level: KeyedStore::from_entries(&snapshot.healing_level),
            confidence: KeyedStore::from_entries(&snapshot.confidence),
            last_restart_count: KeyedStore::from_entries(&snapshot.last_restart_count),
            last_observed_at: KeyedStore::from_entries(&snapshot.last_observed_at),
        };
        proof {
            state.lemma_maps();
        }
        Some(state)
    }

    /// The bounds on the stored values, kept by every state that exists.
    #[verifier::type_invariant]
    spec fn bounded(self) -> bool {
        &&& forall|key: Seq<char>| #[trigger]
            self.retries@.contains_key(key) ==> self.retries@[key] <= MAX_RETRIES
        &&& forall|key: Seq<char>| #[trigger]
            self.healing_level@.contains_key(key) ==> DEFAULT_LEVEL <= self.healing_level@[key]
                <= MAX_LEVEL
        &&& forall|key: Seq<char>| #[trigger]
            self.confidence@.contains_key(key) ==> self.confidence@[key] <= FULL_CONFIDENCE
    }

    /// Names each map of the state, so that facts about the fields carry
    /// over to the maps.
    proof fn lemma_maps(&self)
        ensures
            self.retries() == self.retries@,
            self.next_retry() == self.next_retry@,
            self.levels() == self.healing_level@,
            self.confidences() == self.confidence@,
            self.restart_counts() == self.last_restart_count@,
            self.observed_at() == self.last_observed_at@,
            self.wf() == self.bounded(),
    {
    }

    /// The state with no record at all.
    pub fn new() -> (state: HealState)
        ensures
            state.wf(),
            state.retries() == Map::<Seq<char>, u8>::empty(),
            state.next_retry() == Map::<Seq<char>, u64>::empty(),
            state.levels() == Map::<Seq<char>, u8>::empty(),
            state.confidences() == Map::<Seq<char>, u8>::empty(),
            state.restart_counts() == Map::<Seq<char>, u32>::empty(),
            state.observed_at() == Map::<Seq<char>, u64>::empty(),
    {
        HealState {
            retries: KeyedStore::new(),
            next_retry: KeyedStore::new(),
            healing_level: KeyedStore::new(),
            confidence: KeyedStore::new(),
            last_restart_count: KeyedStore::new(),
            last_observed_at: KeyedStore::new(),
        }
    }
}

/// Whether every value of the list is at most the bound.
fn values_at_most(entries: &Vec<Entry<u8>>, bound: u8) -> (r: bool)
    ensures
        r == all_at_most(entries@, bound),
{
    let mut i: usize = 0;
    while i < entries.len()
        invariant
            i <= entries.len(),
            forall|j: int| 0 <= j < i ==> (#[trigger] entries@[j]).value <= bound,
        decreases entries.len() - i,
    {
        if entries[i].value > bound {
            return false;
        }
        i = i + 1;
    }
    true
}

/// Whether every value of the list is at least the bound.
fn values_at_least(entries: &Vec<Entry<u8>>, bound: u8) -> (r: bool)
    ensures
        r == all_at_least(entries@, bound),
{
    let mut i: usize = 0;
    while i < entries.len()
        invariant
            i <= entries.len(),
            forall|j: int| 0 <= j < i ==> (#[trigger] entries@[j]).value >= bound,
        decreases entries.len() - i,
    {
        if entries[i].value < bound {
            return false;
        }
        i = i + 1;
    }
    true
}

/// Values within bounds stay within bounds when the entries are stored one
/// after the other.
proof fn lemma_replayed_bounds(entries: Seq<Entry<u8>>, low: u8, high: u8)
    requires
        all_at_least(entries, low),
        all_at_most(entries, high),
    ensures
        forall|key: Seq<char>| #[trigger]
            replayed(entries).contains_key(key) ==> low <= replayed(entries)[key] <= high,
    decreases entries.len(),
{
    if entries.len() > 0 {
        let earlier = entries.drop_last();
        assert(all_at_least(earlier, low)) by {
            assert forall|i: int| 0 <= i < earlier.len() implies (#[trigger] earlier[i]).value
                >= low by {
                assert(earlier[i] == entries[i]);
            }
        }
        assert(all_at_most(earlier, high)) by {
            assert forall|i: int| 0 <= i < earlier.len() implies (#[trigger] earlier[i]).value
                <= high by {
                assert(earlier[i] == entries[i]);
            }
        }
        lemma_replayed_bounds(earlier, low, high);
        let last = entries[entries.len() - 1];
        assert(low <= last.value <= high);
        assert(replayed(entries) == replayed(earlier).insert(last.key@, last.value));
    }
}

/// A snapshot that is restored gives back the records it was taken from.
pub proof fn lemma_snapshot_round_trip(
    state: &HealState,
    snapshot: &HealSnapshot,
    restored: &HealState,
)
    requires
        entries_map(snapshot.retries@) == state.retries(),
        entries_map(snapshot.next_retry@) == state.next_retry(),
        entries_map(snapshot.healing_level@) == state.levels(),
        entries_map(snapshot.confidence@) == state.confidences(),
        entries_map(snapshot.last_restart_count@) == state.restart_counts(),
        entries_map(snapshot.last_observed_at@) == state.observed_at(),
        distinct_keys(snapshot.retries@),
        distinct_keys(snapshot.next_retry@),
        distinct_keys(snapshot.healing_level@),
        distinct_keys(snapshot.confidence@),
        distinct_keys(snapshot.last_restart_count@),
        distinct_keys(snapshot.last_observed_at@),
        restored.retries() == replayed(snapshot.retries@),
        restored.next_retry() == replayed(snapshot.next_retry@),
        restored.levels() == replayed(snapshot.healing_level@),
        restored.confidences() == replayed(snapshot.confidence@),
        restored.restart_counts() == replayed(snapshot.last_restart_count@),
        restored.observed_at() == replayed(snapshot.last_observed_at@),
    ensures
        restored.same_as(state),
{
    lemma_replayed_distinct(snapshot.retries@);
    lemma_replayed_distinct(snapshot.next_retry@);
    lemma_replayed_distinct(snapshot.healing_level@);
    lemma_replayed_distinct(snapshot.confidence@);
    lemma_replayed_distinct(snapshot.last_restart_count@);
    lemma_replayed_distinct(snapshot.last_observed_at@);
}

/// Stores a retry count for a key.
fn put_retry(state: &mut HealState, key: &str, count: u8)
    requires
        count <= MAX_RETRIES,
    ensures
        final(state).retries() == old(state).retries().insert(key@, count),
        final(state).next_retry() == old(state).next_retry(),
        final(state).same_but_retries(old(state)),
        final(state).wf(),
{
    proof {
        use_type_invariant(&*state);
        state.lemma_maps();
    }
    let mut retries: KeyedStore<u8> = KeyedStore::new();
    std::mem::swap(&mut retries, &mut state.retries);
    retries.insert(String::from_str(key), count);
    state.retries = retries;
    proof {
        state.lemma_maps();
    }
}

/// Stores the time of the next retry for a key.
fn put_backoff(state: &mut HealState, key: &str, at: u64)
    ensures
        final(state).next_retry() == old(state).next_retry().insert(key@, at),
        final(state).retries() == old(state).retries(),
        final(state).same_but_retries(old(state)),
        final(state).wf(),
{
    proof {
        use_type_invariant(&*state);
        state.lemma_maps();
    }
    let mut next_retry: KeyedStore<u64> = KeyedStore::new();
    std::mem::swap(&mut next_retry, &mut state.next_retry);
    next_retry.insert(String::from_str(key), at);
    state.next_retry = next_retry;
    proof {
        state.lemma_maps();
    }
}

/// Stores an escalation level for a key.
fn put_level(state: &mut HealState, key: &str, level: u8)
    requires
        DEFAULT_LEVEL <= level <= MAX_LEVEL,
    ensures
        final(state).levels() == old(state).levels().insert(key@, level),
        final(state).retries() == old(state).retries(),
        final(state).next_retry() == old(state).next_retry(),
        final(state).confidences() == old(state).confidences(),
        final(state).restart_counts() == old(state).restart_counts(),
        final(state).observed_at() == old(state).observed_at(),
        final(state).wf(),
{
    proof {
        use_type_invariant(&*state);
        state.lemma_maps();
    }
    let mut levels: KeyedStore<u8> = KeyedStore::new();
    std::mem::swap(&mut levels, &mut state.healing_level);
    levels.insert(String::from_str(key), level);
    state.healing_level = levels;
    proof {
        state.lemma_maps();
    }
}

/// Stores a confidence for a key.
fn put_confidence(state: &mut HealState, key: &str, confidence: u8)
    requires
        confidence <= FULL_CONFIDENCE,
    ensures
        final(state).confidences() == old(state).confidences().insert(key@, confidence),
        final(state).retries() == old(state).retries(),
        final(state).next_retry() == old(state).next_retry(),
        final(state).levels() == old(state).levels(),
        final(state).restart_counts() == old(state).restart_counts(),
        final(state).observed_at() == old(state).observed_at(),
        final(state).wf(),
{
    proof {
        use_type_invariant(&*state);
        state.lemma_maps();
    }
    let mut confidences: KeyedStore<u8> = KeyedStore::new();
    std::mem::swap(&mut confidences, &mut state.confidence);
    confidences.insert(String::from_str(key), confidence);
    state.confidence = confidences;
    proof {
        state.lemma_maps();
    }
}

/// Stores a restart count and the time at which it was seen.
fn put_restart_count(state: &mut HealState, service: &str, count: u32, now: u64)
    ensures
        final(state).restart_counts() == old(state).restart_counts().insert(service@, count),
        final(state).observed_at() == old(state).observed_at().insert(service@, now),
        final(state).retries() == old(state).retries(),
        final(state).next_retry() == old(state).next_retry(),
        final(state).levels() == old(state).levels(),
        final(state).confidences() == old(state).confidences(),
        final(state).wf(),
{
    proof {
        use_type_invariant(&*state);
        state.lemma_maps();
    }
    let mut counts: KeyedStore<u32> = KeyedStore::new();
    std::mem::swap(&mut counts, &mut state.last_restart_count);
    counts.insert(String::from_str(service), count);
    state.last_restart_count = counts;
    let mut seen: KeyedStore<u64> = KeyedStore::new();
    std::mem::swap(&mut seen, &mut state.last_observed_at);
    seen.insert(String::from_str(service), now);
    state.last_observed_at = seen;
    proof {
        state.lemma_maps();
    }
}

/// Removes every field that is recorded under a key.
fn forget(state: &mut HealState, key: &str)
    ensures
        final(state).levels() == old(state).levels().remove(key@),
        final(state).retries() == old(state).retries().remove(key@),
        final(state).next_retry() == old(state).next_retry().remove(key@),
        final(state).confidences() == old(state).confidences().remove(key@),
        final(state).restart_counts() == old(state).restart_counts().remove(key@),
        final(state).observed_at() == old(state).observed_at().remove(key@),
        final(state).wf(),
{
    proof {
        use_type_invariant(&*state);
        state.lemma_maps();
    }
    let mut levels: KeyedStore<u8> = KeyedStore::new();
    std::mem::swap(&mut levels, &mut state.healing_level);
    levels.remove(key);
    state.healing_level = levels;
    let mut retries: KeyedStore<u8> = KeyedStore::new();
    std::mem::swap(&mut retries, &mut state.retries);
    retries.remove(key);
    state.retries = retries;
    let mut next_retry: KeyedStore<u64> = KeyedStore::new();
    std::mem::swap(&mut next_retry, &mut state.next_retry);
    next_retry.remove(key);
    state.next_retry = next_retry;
    let mut confidences: KeyedStore<u8> = KeyedStore::new();
    std::mem::swap(&mut confidences, &mut state.confidence);
    confidences.remove(key);
    state.confidence = confidences;
    let mut counts: KeyedStore<u32> = KeyedStore::new();
    std::mem::swap(&mut counts, &mut state.last_restart_count);
    counts.remove(key);
    state.last_restart_count = counts;
    let mut seen: KeyedStore<u64> = KeyedStore::new();
    std::mem::swap(&mut seen, &mut state.last_observed_at);
    seen.remove(key);
    state.last_observed_at = seen;
    proof {
        state.lemma_maps();
    }
}

/// Decides at time `now` whether the target may be retried, and records the
/// decision.
///
/// A retry is granted when fewer than three were granted since the last
/// reset and the backoff of the previous one has passed. Granting counts the
/// retry and sets the next backoff to ten seconds doubled with each retry
/// granted before. A refusal leaves the backoff alone and records the count
/// as it was.
pub fn should_retry_at(state: &mut HealState, key: &str, now: u64) -> (granted: bool)
    requires
        now + MAX_BACKOFF <= u64::MAX,
    ensures
        granted == old(state).retry_granted(key@, now),
        final(state).retry_recorded(old(state), key@, now),
        final(state).wf(),
{
    proof {
        use_type_invariant(&*state);
        state.lemma_maps();
    }
    let count = match state.retries.get(key) {
        Some(c) => c,
        None => 0,
    };
    if count >= MAX_RETRIES {
        put_retry(state, key, count);
        return false;
    }
    let due = match state.next_retry.get(key) {
        Some(next) => now >= next,
        None => true,
    };
    if !due {
        put_retry(state, key, count);
        return false;
    }
    let attempt: u8 = count + 1;
    let delay: u64 = if attempt == 1 {
        10
    } else if attempt == 2 {
        20
    } else {
        40
    };
    proof {
        lemma2_to64();
        assert(delay == backoff_delay(attempt as nat));
    }
    put_retry(state, key, attempt);
    put_backoff(state, key, now + delay);
    true
}

/// The latest time at which a retry can be decided: the longest backoff
/// still fits behind it.
pub open spec fn latest_decision_time() -> u64 {
    (u64::MAX - MAX_BACKOFF) as u64
}

/// Decides whether the target may be retried now, and records the decision.
///
/// The clock is read once. A reading later than the latest time that leaves
/// room for the backoff counts as that time. The decision is the one that
/// `should_retry_at` takes at the time read: a target without a backoff on
/// record is granted a retry as long as it has one left, and a target that
/// has used its three retries is refused, whatever the clock says.
pub fn should_retry(state: &mut HealState, key: &str) -> (granted: bool)
    ensures
        exists|now: u64|
            {
                &&& now <= latest_decision_time()
                &&& granted == #[trigger] old(state).retry_granted(key@, now)
                &&& final(state).retry_recorded(old(state), key@, now)
            },
        old(state).retry_count(key@) < MAX_RETRIES && !old(state).next_retry().contains_key(key@)
            ==> granted,
        old(state).retry_count(key@) >= MAX_RETRIES ==> !granted,
        final(state).same_but_retries(old(state)),
        final(state).wf(),
{
    let read = unix_seconds();
    let now = if read > u64::MAX - MAX_BACKOFF {
        u64::MAX - MAX_BACKOFF
    } else {
        read
    };
    should_retry_at(state, key, now)
}

/// The backoff ladder: ten, twenty and forty seconds after the first, the
/// second and the third retry.
pub proof fn lemma_backoff_ladder()
    ensures
        backoff_delay(1) == 10,
        backoff_delay(2) == 20,
        backoff_delay(3) == 40,
{
    lemma2_to64();
}

/// A target that has used its three retries is refused at every time.
pub proof fn lemma_retry_ceiling(state: &HealState, key: Seq<char>, now: u64)
    requires
        state.retry_count(key) >= MAX_RETRIES,
    ensures
        !state.retry_granted(key, now),
{
}

/// After a retry granted at `now`, every call that comes before the backoff
/// has passed is refused.
pub proof fn lemma_backoff_honoured(
    before: &HealState,
    after: &HealState,
    key: Seq<char>,
    now: u64,
    later: u64,
)
    requires
        now + MAX_BACKOFF <= u64::MAX,
        before.retry_granted(key, now),
        after.retry_recorded(before, key, now),
        later < now + backoff_delay((before.retry_count(key) + 1) as nat),
    ensures
        !after.retry_granted(key, later),
{
    lemma2_to64();
}

/// A second decision that comes before the backoff of the first retry has
/// passed is refused and changes nothing that is on record: from a target
/// without a record, a retry granted at `first` and a second decision at
/// `second`, less than ten seconds later, leave the count at one and the
/// backoff at ten seconds after `first`.
pub proof fn lemma_second_call_within_backoff(
    fresh: &HealState,
    once: &HealState,
    twice: &HealState,
    key: Seq<char>,
    first: u64,
    second: u64,
)
    requires
        first + MAX_BACKOFF <= u64::MAX,
        !fresh.retries().contains_key(key),
        !fresh.next_retry().contains_key(key),
        once.retry_recorded(fresh, key, first),
        twice.retry_recorded(once, key, second),
        first <= second < first + 10,
    ensures
        fresh.retry_granted(key, first),
        !once.retry_granted(key, second),
        twice.retry_count(key) == 1,
        twice.next_retry().contains_key(key),
        twice.next_retry()[key] == first + 10,
        twice.retries() == once.retries(),
        twice.next_retry() == once.next_retry(),
{
    lemma2_to64();
    assert(once.retries()[key] == 1);
    assert(twice.retries() =~= once.retries());
}

/// The number of retries granted along a run of decisions for one key:
/// `run[i + 1]` is the state after the decision taken in `run[i]` at
/// `times[i]`.
pub open spec fn grants_in(run: Seq<HealState>, key: Seq<char>, times: Seq<u64>) -> nat
    decreases times.len(),
{
    if times.len() == 0 || run.len() != times.len() + 1 {
        0
    } else {
        let earlier = grants_in(run.drop_last(), key, times.drop_last());
        if run[times.len() - 1].retry_granted(key, times.last()) {
            earlier + 1
        } else {
            earlier
        }
    }
}

/// However many decisions are taken for a key, and at whatever times, at
/// most three retries are granted in all, and the count at the end is the
/// count at the start plus the retries granted.
pub proof fn lemma_at_most_three_grants(run: Seq<HealState>, key: Seq<char>, times: Seq<u64>)
    requires
        run.len() == times.len() + 1,
        run[0].retry_count(key) <= MAX_RETRIES,
        forall|i: int|
            0 <= i < times.len() ==> (#[trigger] run[i + 1]).retry_recorded(
                &run[i],
                key,
                times[i],
            ),
    ensures
        run.last().retry_count(key) == run[0].retry_count(key) + grants_in(run, key, times),
        run[0].retry_count(key) + grants_in(run, key, times) <= MAX_RETRIES,
    decreases times.len(),
{
    if times.len() > 0 {
        let n = times.len() as int;
        let shorter = run.drop_last();
        assert forall|i: int| 0 <= i < n - 1 implies (#[trigger] shorter[i + 1]).retry_recorded(
            &shorter[i],
            key,
            times.drop_last()[i],
        ) by {
            assert(run[i + 1].retry_recorded(&run[i], key, times[i]));
        }
        lemma_at_most_three_grants(shorter, key, times.drop_last());
        assert(shorter.last() == run[n - 1]);
        assert(run[n - 1 + 1].retry_recorded(&run[n - 1], key, times[n - 1]));
        assert(run.last() == run[n]);
    }
}

/// From a target without a record, three calls that each wait out the
/// backoff of the one before are granted, and the fourth is refused at
/// whatever time it comes.
pub proof fn lemma_three_retries_then_refused(
    run: Seq<HealState>,
    key: Seq<char>,
    times: Seq<u64>,
)
    requires
        run.len() == 5,
        times.len() == 4,
        !run[0].retries().contains_key(key),
        !run[0].next_retry().contains_key(key),
        forall|i: int| 0 <= i < 4 ==> (#[trigger] times[i]) + MAX_BACKOFF <= u64::MAX,
        forall|i: int|
            0 <= i < 4 ==> (#[trigger] run[i + 1]).retry_recorded(&run[i], key, times[i]),
        times[1] >= times[0] + 10,
        times[2] >= times[1] + 20,
    ensures
        run[0].retry_granted(key, times[0]),
        run[1].retry_granted(key, times[1]),
        run[2].retry_granted(key, times[2]),
        !run[3].retry_granted(key, times[3]),
        run[4].retry_count(key) == MAX_RETRIES,
{
    lemma2_to64();
    assert(run[0int + 1].retry_recorded(&run[0], key, times[0]));
    assert(run[1int + 1].retry_recorded(&run[1], key, times[1]));
    assert(run[2int + 1].retry_recorded(&run[2], key, times[2]));
    assert(run[3int + 1].retry_recorded(&run[3], key, times[3]));
}

/// The level after a number of escalations in a row.
pub open spec fn escalated_by(level: u8, times: nat) -> u8
    decreases times,
{
    if times == 0 {
        level
    } else {
        escalated(escalated_by(level, (times - 1) as nat))
    }
}

/// However often a level is escalated, it never passes level four: from a
/// level of at most four it reaches the lower of four and the level plus
/// the number of escalations.
pub proof fn lemma_escalation_bounded(level: u8, times: nat)
    requires
        level <= MAX_LEVEL,
    ensures
        escalated_by(level, times) <= MAX_LEVEL,
        escalated_by(level, times) == if level + times <= MAX_LEVEL {
            level + times
        } else {
            MAX_LEVEL as int
        },
    decreases times,
{
    if times > 0 {
        lemma_escalation_bounded(level, (times - 1) as nat);
    }
}

/// The escalation level of the target: one where none is recorded.
pub fn current_level(state: &HealState, key: &str) -> (level: u8)
    ensures
        level == state.level_of(key@),
        DEFAULT_LEVEL <= level <= MAX_LEVEL,
        state.wf(),
{
    proof {
        use_type_invariant(state);
        state.lemma_maps();
    }
    match state.healing_level.get(key) {
        Some(level) => level,
        None => DEFAULT_LEVEL,
    }
}

/// Moves the target one level up, to level four at most, and records it.
pub fn escalate_level(state: &mut HealState, key: &str)
    ensures
        final(state).levels() == old(state).levels().insert(
            key@,
            escalated(old(state).level_of(key@)),
        ),
        final(state).retries() == old(state).retries(),
        final(state).next_retry() == old(state).next_retry(),
        final(state).confidences() == old(state).confidences(),
        final(state).restart_counts() == old(state).restart_counts(),
        final(state).observed_at() == old(state).observed_at(),
        final(state).wf(),
        DEFAULT_LEVEL <= final(state).level_of(key@) <= MAX_LEVEL,
{
    let level = current_level(state, key);
    let next = if level < MAX_LEVEL {
        level + 1
    } else {
        level
    };
    put_level(state, key, next);
}

/// Forgets everything that is recorded under the key: the level, the retry
/// count, the backoff, the confidence, the restart count and the time of
/// its observation. Each reads as its default again, and the records of
/// every other key stay as they are.
pub fn reset_level(state: &mut HealState, key: &str)
    ensures
        final(state).levels() == old(state).levels().remove(key@),
        final(state).retries() == old(state).retries().remove(key@),
        final(state).next_retry() == old(state).next_retry().remove(key@),
        final(state).confidences() == old(state).confidences().remove(key@),
        final(state).restart_counts() == old(state).restart_counts().remove(key@),
        final(state).observed_at() == old(state).observed_at().remove(key@),
        final(state).level_of(key@) == DEFAULT_LEVEL,
        final(state).retry_count(key@) == 0,
        final(state).confidence_of(key@) == DEFAULT_CONFIDENCE,
        forall|now: u64| final(state).retry_granted(key@, now),
        final(state).wf(),
{
    forget(state, key);
}

/// The target's confidence in hundredths: fifty where none is recorded.
pub fn get_confidence(state: &HealState, key: &str) -> (confidence: u8)
    ensures
        confidence == state.confidence_of(key@),
        confidence <= FULL_CONFIDENCE,
        state.wf(),
{
    proof {
        use_type_invariant(state);
        state.lemma_maps();
    }
    match state.confidence.get(key) {
        Some(confidence) => confidence,
        None => DEFAULT_CONFIDENCE,
    }
}

/// Records the target's confidence in hundredths, clamped to one hundred.
pub fn set_confidence(state: &mut HealState, key: &str, value: u8)
    ensures
        final(state).confidences() == old(state).confidences().insert(key@, clamped(value)),
        final(state).retries() == old(state).retries(),
        final(state).next_retry() == old(state).next_retry(),
        final(state).levels() == old(state).levels(),
        final(state).restart_counts() == old(state).restart_counts(),
        final(state).observed_at() == old(state).observed_at(),
        final(state).wf(),
{
    let stored = if value >= FULL_CONFIDENCE {
        FULL_CONFIDENCE
    } else {
        value
    };
    put_confidence(state, key, stored);
}

/// Raises the target's confidence by ten hundredths after a success, up to
/// one hundred.
pub fn bump_confidence(state: &mut HealState, key: &str)
    ensures
        final(state).confidences() == old(state).confidences().insert(
            key@,
            bumped(old(state).confidence_of(key@)),
        ),
        final(state).retries() == old(state).retries(),
        final(state).next_retry() == old(state).next_retry(),
        final(state).levels() == old(state).levels(),
        final(state).restart_counts() == old(state).restart_counts(),
        final(state).observed_at() == old(state).observed_at(),
        final(state).wf(),
{
    let current = get_confidence(state, key);
    let next = if current >= FULL_CONFIDENCE - CONFIDENCE_GAIN {
        FULL_CONFIDENCE
    } else {
        current + CONFIDENCE_GAIN
    };
    put_confidence(state, key, next);
}

/// Lowers the target's confidence by fifteen hundredths after a failure,
/// down to zero.
pub fn drop_confidence(state: &mut HealState, key: &str)
    ensures
        final(state).confidences() == old(state).confidences().insert(
            key@,
            dropped(old(state).confidence_of(key@)),
        ),
        final(state).retries() == old(state).retries(),
        final(state).next_retry() == old(state).next_retry(),
        final(state).levels() == old(state).levels(),
        final(state).restart_counts() == old(state).restart_counts(),
        final(state).observed_at() == old(state).observed_at(),
        final(state).wf(),
{
    let current = get_confidence(state, key);
    let next = if current <= CONFIDENCE_LOSS {
        0
    } else if current - CONFIDENCE_LOSS >= FULL_CONFIDENCE {
        FULL_CONFIDENCE
    } else {
        current - CONFIDENCE_LOSS
    };
    put_confidence(state, key, next);
}

/// The restart count last recorded for the service, if any.
pub fn get_last_restart_count(state: &HealState, service: &str) -> (count: Option<u32>)
    ensures
        count == if state.restart_counts().contains_key(service@) {
            Some(state.restart_counts()[service@])
        } else {
            None
        },
{
    state.last_restart_count.get(service)
}

/// Records the service's restart count as observed at `now`.
pub fn set_last_restart_count_at(state: &mut HealState, service: &str, count: u32, now: u64)
    ensures
        final(state).restart_counts() == old(state).restart_counts().insert(service@, count),
        final(state).observed_at() == old(state).observed_at().insert(service@, now),
        final(state).retries() == old(state).retries(),
        final(state).next_retry() == old(state).next_retry(),
        final(state).levels() == old(state).levels(),
        final(state).confidences() == old(state).confidences(),
        final(state).wf(),
{
    put_restart_count(state, service, count, now);
}

/// Records the service's restart count as observed now.
pub fn set_last_restart_count(state: &mut HealState, service: &str, count: u32)
    ensures
        final(state).restart_counts() == old(state).restart_counts().insert(service@, count),
        exists|now: u64|
            final(state).observed_at() == #[trigger] old(state).observed_at().insert(service@, now),
        final(state).retries() == old(state).retries(),
        final(state).next_retry() == old(state).next_retry(),
        final(state).levels() == old(state).levels(),
        final(state).confidences() == old(state).confidences(),
        final(state).wf(),
{
    let now = unix_seconds();
    set_last_restart_count_at(state, service, count, now);
}

} // verus!
