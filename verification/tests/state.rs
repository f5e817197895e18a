use voxlinuxd::keyed::Entry;
use voxlinuxd::state::{
    bump_confidence, current_level, drop_confidence, escalate_level, get_confidence,
    get_last_restart_count, reset_level, set_confidence, set_last_restart_count,
    set_last_restart_count_at, should_retry, should_retry_at, HealSnapshot, HealState,
};

fn entry<V>(key: &str, value: V) -> Entry<V> {
    Entry { key: key.to_string(), value }
}

fn value_of<V: Copy>(entries: &Vec<Entry<V>>, key: &str) -> Option<V> {
    let mut found = None;
    for e in entries {
        if e.key == key {
            assert!(found.is_none());
            found = Some(e.value);
        }
    }
    found
}

#[test]
fn three_retries_are_granted_when_the_backoff_is_waited_out() {
    let mut state = HealState::new();
    let t = 1_700_000_000u64;
    assert!(should_retry_at(&mut state, "svc", t));
    assert!(should_retry_at(&mut state, "svc", t + 10));
    assert!(should_retry_at(&mut state, "svc", t + 30));
    assert!(!should_retry_at(&mut state, "svc", t + 70));
    assert!(!should_retry_at(&mut state, "svc", t + 100_000));
}

#[test]
fn second_retry_within_ten_seconds_is_refused() {
    let mut state = HealState::new();
    let t = 1_700_000_000u64;
    assert!(should_retry_at(&mut state, "svc", t));
    assert!(!should_retry_at(&mut state, "svc", t));
    assert!(!should_retry_at(&mut state, "svc", t + 9));
    assert!(should_retry_at(&mut state, "svc", t + 10));
}

#[test]
fn four_calls_without_clock_advance_grant_one_retry() {
    let mut state = HealState::new();
    let t = 42u64;
    let results: Vec<bool> = (0..4).map(|_| should_retry_at(&mut state, "svc", t)).collect();
    assert_eq!(results, vec![true, false, false, false]);
}

#[test]
fn backoff_ladder_is_ten_twenty_forty() {
    let mut state = HealState::new();
    let t = 1000u64;
    assert!(should_retry_at(&mut state, "k", t));
    assert_eq!(value_of(&state.snapshot().next_retry, "k"), Some(t + 10));
    assert_eq!(value_of(&state.snapshot().retries, "k"), Some(1));
    assert!(!should_retry_at(&mut state, "k", t + 9));
    assert_eq!(value_of(&state.snapshot().next_retry, "k"), Some(t + 10));
    assert!(should_retry_at(&mut state, "k", t + 10));
    assert_eq!(value_of(&state.snapshot().next_retry, "k"), Some(t + 30));
    assert_eq!(value_of(&state.snapshot().retries, "k"), Some(2));
    assert!(!should_retry_at(&mut state, "k", t + 29));
    assert!(should_retry_at(&mut state, "k", t + 30));
    assert_eq!(value_of(&state.snapshot().next_retry, "k"), Some(t + 70));
    assert_eq!(value_of(&state.snapshot().retries, "k"), Some(3));
    assert!(!should_retry_at(&mut state, "k", t + 70));
    assert_eq!(value_of(&state.snapshot().next_retry, "k"), Some(t + 70));
    assert_eq!(value_of(&state.snapshot().retries, "k"), Some(3));
}

#[test]
fn a_refusal_records_the_count_as_it_was() {
    let mut state = HealState::new();
    assert!(should_retry_at(&mut state, "k", 100));
    assert!(!should_retry_at(&mut state, "k", 101));
    let snapshot = state.snapshot();
    assert_eq!(value_of(&snapshot.retries, "k"), Some(1));
    assert_eq!(value_of(&snapshot.next_retry, "k"), Some(110));
}

#[test]
fn retries_of_different_keys_are_independent() {
    let mut state = HealState::new();
    assert!(should_retry_at(&mut state, "a", 5));
    assert!(should_retry_at(&mut state, "b", 5));
    assert!(!should_retry_at(&mut state, "a", 6));
    assert!(should_retry_at(&mut state, "c", 6));
}

#[test]
fn reset_allows_retries_again() {
    let mut state = HealState::new();
    let t = 500u64;
    assert!(should_retry_at(&mut state, "svc", t));
    assert!(should_retry_at(&mut state, "svc", t + 10));
    assert!(should_retry_at(&mut state, "svc", t + 30));
    assert!(!should_retry_at(&mut state, "svc", t + 1000));
    reset_level(&mut state, "svc");
    assert!(should_retry_at(&mut state, "svc", t + 31));
    assert_eq!(value_of(&state.snapshot().next_retry, "svc"), Some(t + 41));
}

#[test]
fn should_retry_reads_the_clock() {
    let mut state = HealState::new();
    assert!(should_retry(&mut state, "svc"));
    assert!(!should_retry(&mut state, "svc"));
    let snapshot = state.snapshot();
    assert_eq!(value_of(&snapshot.retries, "svc"), Some(1));
    let next = value_of(&snapshot.next_retry, "svc").unwrap();
    assert!(next >= 10);
}

#[test]
fn level_defaults_to_one() {
    let state = HealState::new();
    assert_eq!(current_level(&state, "anything"), 1);
    assert_eq!(current_level(&state, ""), 1);
}

#[test]
fn escalation_stops_at_four() {
    let mut state = HealState::new();
    let mut seen = Vec::new();
    for _ in 0..10 {
        escalate_level(&mut state, "svc");
        seen.push(current_level(&state, "svc"));
    }
    assert_eq!(seen, vec![2, 3, 4, 4, 4, 4, 4, 4, 4, 4]);
    assert_eq!(current_level(&state, "other"), 1);
}

#[test]
fn reset_clears_every_field_of_the_key() {
    let mut state = HealState::new();
    escalate_level(&mut state, "svc");
    escalate_level(&mut state, "svc");
    assert!(should_retry_at(&mut state, "svc", 10));
    bump_confidence(&mut state, "svc");
    set_last_restart_count_at(&mut state, "svc", 7, 99);
    assert_eq!(get_last_restart_count(&state, "svc"), Some(7));
    escalate_level(&mut state, "other");
    set_last_restart_count_at(&mut state, "other", 3, 50);

    reset_level(&mut state, "svc");

    assert_eq!(current_level(&state, "svc"), 1);
    assert_eq!(get_confidence(&state, "svc"), 50);
    assert_eq!(get_last_restart_count(&state, "svc"), None);
    let snapshot = state.snapshot();
    assert_eq!(value_of(&snapshot.retries, "svc"), None);
    assert_eq!(value_of(&snapshot.next_retry, "svc"), None);
    assert_eq!(value_of(&snapshot.healing_level, "svc"), None);
    assert_eq!(value_of(&snapshot.confidence, "svc"), None);
    assert_eq!(value_of(&snapshot.last_restart_count, "svc"), None);
    assert_eq!(value_of(&snapshot.last_observed_at, "svc"), None);
    assert_eq!(current_level(&state, "other"), 2);
    assert_eq!(get_last_restart_count(&state, "other"), Some(3));
    assert_eq!(value_of(&snapshot.last_observed_at, "other"), Some(50));
}

#[test]
fn a_second_call_within_the_backoff_changes_nothing() {
    let mut state = HealState::new();
    let t = 1_000u64;
    assert!(should_retry_at(&mut state, "svc", t));
    for later in [t, t + 1, t + 9] {
        assert!(!should_retry_at(&mut state, "svc", later));
        let snapshot = state.snapshot();
        assert_eq!(value_of(&snapshot.retries, "svc"), Some(1));
        assert_eq!(value_of(&snapshot.next_retry, "svc"), Some(t + 10));
    }
}

#[test]
fn a_target_without_a_record_is_granted_its_first_retry_whatever_the_clock() {
    for key in ["a", "b", "ServiceActive(\"sshd.service\")"] {
        let mut state = HealState::new();
        assert!(should_retry(&mut state, key));
        assert_eq!(value_of(&state.snapshot().retries, key), Some(1));
        assert!(value_of(&state.snapshot().next_retry, key).is_some());
    }
    let mut state = HealState::new();
    assert!(should_retry_at(&mut state, "edge", u64::MAX - 40));
    assert_eq!(value_of(&state.snapshot().next_retry, "edge"), Some(u64::MAX - 30));
}

#[test]
fn an_exhausted_target_is_refused_by_the_clock_reading_call() {
    let mut state = HealState::new();
    assert!(should_retry_at(&mut state, "svc", 0));
    assert!(should_retry_at(&mut state, "svc", 10));
    assert!(should_retry_at(&mut state, "svc", 30));
    assert!(!should_retry(&mut state, "svc"));
    assert_eq!(value_of(&state.snapshot().retries, "svc"), Some(3));
    assert_eq!(value_of(&state.snapshot().next_retry, "svc"), Some(70));
}

#[test]
fn reset_of_an_unknown_key_changes_nothing() {
    let mut state = HealState::new();
    escalate_level(&mut state, "svc");
    reset_level(&mut state, "nothing");
    assert_eq!(current_level(&state, "svc"), 2);
    assert_eq!(state.snapshot().healing_level.len(), 1);
}

#[test]
fn confidence_defaults_to_fifty_hundredths() {
    let state = HealState::new();
    assert_eq!(get_confidence(&state, "svc"), 50);
}

#[test]
fn bump_adds_ten_up_to_one_hundred() {
    let mut state = HealState::new();
    let mut seen = Vec::new();
    for _ in 0..7 {
        bump_confidence(&mut state, "svc");
        seen.push(get_confidence(&state, "svc"));
    }
    assert_eq!(seen, vec![60, 70, 80, 90, 100, 100, 100]);
}

#[test]
fn drop_takes_fifteen_down_to_zero() {
    let mut state = HealState::new();
    let mut seen = Vec::new();
    for _ in 0..6 {
        drop_confidence(&mut state, "svc");
        seen.push(get_confidence(&state, "svc"));
    }
    assert_eq!(seen, vec![35, 20, 5, 0, 0, 0]);
}

#[test]
fn bump_and_drop_combine() {
    let mut state = HealState::new();
    drop_confidence(&mut state, "svc");
    bump_confidence(&mut state, "svc");
    assert_eq!(get_confidence(&state, "svc"), 45);
    set_confidence(&mut state, "svc", 95);
    bump_confidence(&mut state, "svc");
    assert_eq!(get_confidence(&state, "svc"), 100);
    set_confidence(&mut state, "svc", 15);
    drop_confidence(&mut state, "svc");
    assert_eq!(get_confidence(&state, "svc"), 0);
    set_confidence(&mut state, "svc", 16);
    drop_confidence(&mut state, "svc");
    assert_eq!(get_confidence(&state, "svc"), 1);
}

#[test]
fn set_confidence_clamps_to_one_hundred() {
    let mut state = HealState::new();
    set_confidence(&mut state, "svc", 255);
    assert_eq!(get_confidence(&state, "svc"), 100);
    set_confidence(&mut state, "svc", 100);
    assert_eq!(get_confidence(&state, "svc"), 100);
    set_confidence(&mut state, "svc", 0);
    assert_eq!(get_confidence(&state, "svc"), 0);
    set_confidence(&mut state, "svc", 73);
    assert_eq!(get_confidence(&state, "svc"), 73);
}

#[test]
fn restart_count_is_recorded_with_its_time() {
    let mut state = HealState::new();
    assert_eq!(get_last_restart_count(&state, "sshd.service"), None);
    set_last_restart_count_at(&mut state, "sshd.service", 3, 1234);
    assert_eq!(get_last_restart_count(&state, "sshd.service"), Some(3));
    assert_eq!(value_of(&state.snapshot().last_observed_at, "sshd.service"), Some(1234));
    set_last_restart_count_at(&mut state, "sshd.service", 5, 1300);
    assert_eq!(get_last_restart_count(&state, "sshd.service"), Some(5));
    assert_eq!(value_of(&state.snapshot().last_observed_at, "sshd.service"), Some(1300));
    assert_eq!(state.snapshot().last_restart_count.len(), 1);
}

#[test]
fn restart_count_is_stamped_with_the_clock() {
    let mut state = HealState::new();
    set_last_restart_count(&mut state, "sshd.service", 9);
    assert_eq!(get_last_restart_count(&state, "sshd.service"), Some(9));
    assert!(value_of(&state.snapshot().last_observed_at, "sshd.service").is_some());
}

#[test]
fn snapshot_and_restore_round_trip() {
    let mut state = HealState::new();
    assert!(should_retry_at(&mut state, "a", 100));
    escalate_level(&mut state, "a");
    escalate_level(&mut state, "b");
    bump_confidence(&mut state, "b");
    set_last_restart_count_at(&mut state, "c", 4, 77);

    let snapshot = state.snapshot();
    let restored = HealState::restore(&snapshot).expect("a snapshot of a state is in bounds");

    assert_eq!(current_level(&restored, "a"), 2);
    assert_eq!(current_level(&restored, "b"), 2);
    assert_eq!(current_level(&restored, "c"), 1);
    assert_eq!(get_confidence(&restored, "b"), 60);
    assert_eq!(get_confidence(&restored, "a"), 50);
    assert_eq!(get_last_restart_count(&restored, "c"), Some(4));
    let again = restored.snapshot();
    assert_eq!(value_of(&again.retries, "a"), Some(1));
    assert_eq!(value_of(&again.next_retry, "a"), Some(110));
    assert_eq!(value_of(&again.last_observed_at, "c"), Some(77));
}

fn empty_snapshot() -> HealSnapshot {
    HealSnapshot {
        retries: Vec::new(),
        next_retry: Vec::new(),
        healing_level: Vec::new(),
        confidence: Vec::new(),
        last_restart_count: Vec::new(),
        last_observed_at: Vec::new(),
    }
}

#[test]
fn restore_of_an_empty_snapshot_is_the_empty_state() {
    let state = HealState::restore(&empty_snapshot()).unwrap();
    assert_eq!(current_level(&state, "x"), 1);
    assert_eq!(get_confidence(&state, "x"), 50);
    assert_eq!(get_last_restart_count(&state, "x"), None);
}

#[test]
fn restore_refuses_values_out_of_bounds() {
    let mut s = empty_snapshot();
    s.retries.push(entry("a", 4));
    assert!(HealState::restore(&s).is_none());

    let mut s = empty_snapshot();
    s.healing_level.push(entry("a", 0));
    assert!(HealState::restore(&s).is_none());

    let mut s = empty_snapshot();
    s.healing_level.push(entry("a", 5));
    assert!(HealState::restore(&s).is_none());

    let mut s = empty_snapshot();
    s.confidence.push(entry("a", 101));
    assert!(HealState::restore(&s).is_none());

    let mut s = empty_snapshot();
    s.retries.push(entry("a", 3));
    s.healing_level.push(entry("a", 4));
    s.healing_level.push(entry("b", 1));
    s.confidence.push(entry("a", 100));
    s.next_retry.push(entry("a", u64::MAX));
    assert!(HealState::restore(&s).is_some());
}

#[test]
fn restore_lets_the_later_entry_count() {
    let mut s = empty_snapshot();
    s.healing_level.push(entry("a", 2));
    s.healing_level.push(entry("a", 3));
    let state = HealState::restore(&s).unwrap();
    assert_eq!(current_level(&state, "a"), 3);
    assert_eq!(state.snapshot().healing_level.len(), 1);
}

#[test]
fn a_restored_exhausted_target_is_refused() {
    let mut s = empty_snapshot();
    s.retries.push(entry("a", 3));
    let mut state = HealState::restore(&s).unwrap();
    assert!(!should_retry_at(&mut state, "a", 0));
    assert!(!should_retry_at(&mut state, "a", 1_000_000));
}
