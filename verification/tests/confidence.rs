use voxlinuxd::confidence::Confidence;
use voxlinuxd::confidence_eval::{evaluate, evaluate_engine_confidence};
use voxlinuxd::opinion::Opinion;
use voxlinuxd::reporter::derive_confidence;
use voxlinuxd::state::BootContext;

fn rank(c: Confidence) -> u8 {
    match c {
        Confidence::Low => 0,
        Confidence::Medium => 1,
        Confidence::High => 2,
    }
}

fn all_levels() -> Vec<Confidence> {
    vec![Confidence::Low, Confidence::Medium, Confidence::High]
}

fn all_opinions() -> Vec<Opinion> {
    vec![
        Opinion::Healthy,
        Opinion::Degraded { reason: "disk at 91%".to_string() },
        Opinion::Broken { reason: "root is read-only".to_string() },
    ]
}

#[test]
fn min_is_the_lower_level() {
    assert_eq!(Confidence::Low.min(Confidence::High), Confidence::Low);
    assert_eq!(Confidence::High.min(Confidence::Low), Confidence::Low);
    assert_eq!(Confidence::Medium.min(Confidence::High), Confidence::Medium);
    assert_eq!(Confidence::High.min(Confidence::Medium), Confidence::Medium);
    assert_eq!(Confidence::Medium.min(Confidence::Low), Confidence::Low);
    assert_eq!(Confidence::High.min(Confidence::High), Confidence::High);
    assert_eq!(Confidence::Medium.min(Confidence::Medium), Confidence::Medium);
    assert_eq!(Confidence::Low.min(Confidence::Low), Confidence::Low);
}

#[test]
fn min_is_commutative_and_bounded() {
    for a in all_levels() {
        for b in all_levels() {
            let m = a.min(b);
            assert_eq!(m, b.min(a));
            assert!(rank(m) <= rank(a));
            assert!(rank(m) <= rank(b));
            assert!(m == a || m == b);
        }
    }
}

#[test]
fn engine_confidence_follows_the_opinions() {
    let ok = Opinion::Healthy;
    let degraded = Opinion::Degraded { reason: "slow boot".to_string() };
    let broken = Opinion::Broken { reason: "no answer".to_string() };
    assert_eq!(evaluate_engine_confidence(&ok, &ok), Confidence::High);
    assert_eq!(evaluate_engine_confidence(&ok, &degraded), Confidence::Medium);
    assert_eq!(evaluate_engine_confidence(&degraded, &ok), Confidence::Medium);
    assert_eq!(evaluate_engine_confidence(&degraded, &degraded), Confidence::Medium);
    assert_eq!(evaluate_engine_confidence(&broken, &ok), Confidence::Low);
    assert_eq!(evaluate_engine_confidence(&ok, &broken), Confidence::Low);
    assert_eq!(evaluate_engine_confidence(&degraded, &broken), Confidence::Low);
    assert_eq!(evaluate_engine_confidence(&broken, &broken), Confidence::Low);
}

#[test]
fn combined_confidence_never_exceeds_either_source() {
    for health in all_opinions() {
        for systemd in all_opinions() {
            for observer in all_levels() {
                let combined = evaluate(&health, &systemd, observer);
                let engine = evaluate_engine_confidence(&health, &systemd);
                assert!(rank(combined) <= rank(observer));
                assert!(rank(combined) <= rank(engine));
                assert_eq!(combined, engine.min(observer));
            }
        }
    }
}

#[test]
fn evaluate_gives_high_only_when_everything_agrees() {
    let ok = Opinion::Healthy;
    assert_eq!(evaluate(&ok, &ok, Confidence::High), Confidence::High);
    assert_eq!(evaluate(&ok, &ok, Confidence::Medium), Confidence::Medium);
    assert_eq!(evaluate(&ok, &ok, Confidence::Low), Confidence::Low);
    let degraded = Opinion::Degraded { reason: "x".to_string() };
    assert_eq!(evaluate(&degraded, &ok, Confidence::High), Confidence::Medium);
    let broken = Opinion::Broken { reason: "x".to_string() };
    assert_eq!(evaluate(&ok, &broken, Confidence::High), Confidence::Low);
}

#[test]
fn observer_confidence_by_boot_context() {
    let none: Vec<String> = Vec::new();
    let six: Vec<String> = (0..6).map(|i| format!("unit{}.service", i)).collect();
    let five: Vec<String> = (0..5).map(|i| format!("unit{}.service", i)).collect();
    assert_eq!(derive_confidence(BootContext::Unknown, &none), Confidence::Low);
    assert_eq!(derive_confidence(BootContext::EarlyBoot, &none), Confidence::Low);
    assert_eq!(derive_confidence(BootContext::EarlyUserspace, &six), Confidence::Low);
    assert_eq!(derive_confidence(BootContext::EarlyUserspace, &five), Confidence::Medium);
    assert_eq!(derive_confidence(BootContext::EarlyUserspace, &none), Confidence::Medium);
    assert_eq!(derive_confidence(BootContext::Graphical, &six), Confidence::High);
    assert_eq!(derive_confidence(BootContext::MultiUser, &six), Confidence::High);
    assert_eq!(derive_confidence(BootContext::Rescue, &none), Confidence::Medium);
    assert_eq!(derive_confidence(BootContext::Rescue, &six), Confidence::Medium);
}

#[test]
fn opinion_kind_queries() {
    assert!(Opinion::Healthy.is_healthy());
    assert!(!Opinion::Healthy.is_broken());
    let broken = Opinion::Broken { reason: "x".to_string() };
    assert!(broken.is_broken());
    assert!(!broken.is_healthy());
    let degraded = Opinion::Degraded { reason: "x".to_string() };
    assert!(!degraded.is_broken());
    assert!(!degraded.is_healthy());
}
