use std::time::Instant;
use voxlinuxd::classifier::{Detection, Severity};
use voxlinuxd::confidence::Confidence;
use voxlinuxd::deferred::{DeferredHealAction, DeferredHealQueue};
use voxlinuxd::state::BootContext;

fn detection(unit: &str, reason: &str) -> Detection {
    Detection { unit: unit.to_string(), severity: Severity::Critical, reason: reason.to_string() }
}

#[test]
fn enqueue_twice_for_one_unit_queues_one_action() {
    let mut queue = DeferredHealQueue::default();
    queue.enqueue(&detection("dbus.service", "first"));
    queue.enqueue(&detection("dbus.service", "second"));
    assert_eq!(queue.len(), 1);
    let released = queue.drain_ready(BootContext::Graphical, Confidence::High);
    assert_eq!(released.len(), 1);
    assert_eq!(released[0].unit, "dbus.service");
    assert_eq!(released[0].reason, "first");
}

#[test]
fn enqueue_keeps_arrival_order() {
    let mut queue = DeferredHealQueue::new();
    queue.enqueue(&detection("b.service", "rb"));
    queue.enqueue(&detection("a.service", "ra"));
    queue.enqueue(&detection("b.service", "again"));
    queue.enqueue(&detection("c.service", "rc"));
    assert_eq!(queue.len(), 3);
    assert!(queue.contains_unit("a.service"));
    assert!(!queue.contains_unit("d.service"));
    let mut units = Vec::new();
    queue.try_execute(BootContext::Graphical, Confidence::High, |a: &DeferredHealAction| {
        units.push(a.unit.clone());
    });
    assert_eq!(units, vec!["b.service", "a.service", "c.service"]);
    assert!(queue.is_empty());
}

#[test]
fn enqueue_at_keeps_the_given_time() {
    let mut queue = DeferredHealQueue::new();
    let at = Instant::now();
    queue.enqueue_at(&detection("x.service", "r"), at);
    let released = queue.drain_ready(BootContext::Graphical, Confidence::High);
    assert_eq!(released[0].created_at, at);
}

#[test]
fn try_execute_with_medium_confidence_keeps_the_queue() {
    let mut queue = DeferredHealQueue::new();
    queue.enqueue(&detection("sddm.service", "r"));
    let mut calls = 0;
    queue.try_execute(BootContext::Graphical, Confidence::Medium, |_: &DeferredHealAction| {
        calls += 1;
    });
    assert_eq!(calls, 0);
    assert_eq!(queue.len(), 1);
    assert!(!queue.is_empty());
}

#[test]
fn try_execute_in_multi_user_keeps_the_queue() {
    let mut queue = DeferredHealQueue::new();
    queue.enqueue(&detection("sddm.service", "r"));
    queue.enqueue(&detection("dbus.service", "r"));
    let mut calls = 0;
    queue.try_execute(BootContext::MultiUser, Confidence::High, |_: &DeferredHealAction| {
        calls += 1;
    });
    assert_eq!(calls, 0);
    assert_eq!(queue.len(), 2);
}

#[test]
fn try_execute_defers_in_every_unsafe_combination() {
    let contexts = [
        BootContext::EarlyBoot,
        BootContext::EarlyUserspace,
        BootContext::MultiUser,
        BootContext::Graphical,
        BootContext::Rescue,
        BootContext::Unknown,
    ];
    for context in contexts {
        for confidence in [Confidence::Low, Confidence::Medium, Confidence::High] {
            if context == BootContext::Graphical && confidence == Confidence::High {
                continue;
            }
            let mut queue = DeferredHealQueue::new();
            queue.enqueue(&detection("sddm.service", "r"));
            let mut calls = 0;
            queue.try_execute(context, confidence, |_: &DeferredHealAction| {
                calls += 1;
            });
            assert_eq!(calls, 0);
            assert_eq!(queue.len(), 1);
            assert!(queue.drain_ready(context, confidence).is_empty());
            assert_eq!(queue.len(), 1);
        }
    }
}

#[test]
fn deferred_actions_are_released_once_conditions_are_safe() {
    let mut queue = DeferredHealQueue::new();
    queue.enqueue(&detection("sddm.service", "r"));
    let mut calls = 0;
    queue.try_execute(BootContext::EarlyUserspace, Confidence::Low, |_: &DeferredHealAction| {
        calls += 1;
    });
    queue.enqueue(&detection("pipewire.service", "r"));
    queue.try_execute(BootContext::Graphical, Confidence::High, |_: &DeferredHealAction| {
        calls += 1;
    });
    assert_eq!(calls, 2);
    assert!(queue.is_empty());
    queue.try_execute(BootContext::Graphical, Confidence::High, |_: &DeferredHealAction| {
        calls += 1;
    });
    assert_eq!(calls, 2);
}

#[test]
fn a_unit_can_be_queued_again_after_release() {
    let mut queue = DeferredHealQueue::new();
    queue.enqueue(&detection("sddm.service", "r"));
    let _ = queue.drain_ready(BootContext::Graphical, Confidence::High);
    queue.enqueue(&detection("sddm.service", "r2"));
    assert_eq!(queue.len(), 1);
}

#[test]
fn clear_discards_everything() {
    let mut queue = DeferredHealQueue::new();
    queue.enqueue(&detection("a.service", "r"));
    queue.enqueue(&detection("b.service", "r"));
    queue.clear();
    assert!(queue.is_empty());
    assert_eq!(queue.len(), 0);
    let mut calls = 0;
    queue.try_execute(BootContext::Graphical, Confidence::High, |_: &DeferredHealAction| {
        calls += 1;
    });
    assert_eq!(calls, 0);
}
