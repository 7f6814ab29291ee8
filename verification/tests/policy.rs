use rs_hyperliquid::health::is_stale;
use rs_hyperliquid::policy::{ReconnectDecision, ReconnectPolicy};

#[test]
fn unlimited_policy_always_retries() {
    let policy = ReconnectPolicy::new(0, 5);
    assert_eq!(policy.decide(0), ReconnectDecision::Retry { delay_secs: 5 });
    assert_eq!(policy.decide(1_000_000), ReconnectDecision::Retry { delay_secs: 5 });
    assert_eq!(policy.decide(u32::MAX), ReconnectDecision::Retry { delay_secs: 5 });
}

#[test]
fn capped_policy_gives_up_at_the_cap() {
    let policy = ReconnectPolicy::new(3, 7);
    assert_eq!(policy.decide(0), ReconnectDecision::Retry { delay_secs: 7 });
    assert_eq!(policy.decide(2), ReconnectDecision::Retry { delay_secs: 7 });
    assert_eq!(policy.decide(3), ReconnectDecision::GiveUp);
    assert_eq!(policy.decide(4), ReconnectDecision::GiveUp);
}

#[test]
fn silence_is_measured_against_three_intervals() {
    assert!(!is_stale(Some(1_000), 1_000, 30));
    assert!(!is_stale(Some(1_000), 91_000, 30));
    assert!(is_stale(Some(1_000), 91_001, 30));
    assert!(!is_stale(Some(91_001), 1_000, 30));
    assert!(!is_stale(None, u64::MAX, 30));
    assert!(is_stale(Some(0), 1, 0));
    assert!(!is_stale(Some(0), 0, 0));
    assert!(!is_stale(Some(0), u64::MAX, u64::MAX));
}
