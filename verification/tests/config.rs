use yatti::Config;
use yatti::idle_expired;

#[test]
fn stock_settings() {
    let c = Config::default();
    assert_eq!(c.precision, 0);
    assert_eq!(c.reset_time, 5);
    assert_eq!(c.sample_size, 5);
}

#[test]
fn idle_reset_fires_only_past_the_threshold() {
    assert!(!idle_expired(0, 5));
    assert!(!idle_expired(5_000_000_000, 5));
    assert!(idle_expired(5_000_000_001, 5));
    assert!(idle_expired(u64::MAX, 5));
}

#[test]
fn zero_threshold_fires_on_any_pause() {
    assert!(!idle_expired(0, 0));
    assert!(idle_expired(1, 0));
}
