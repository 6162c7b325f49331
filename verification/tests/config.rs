use tokio_system_resolver::{Duration, ResolverConfig};

#[test]
fn default_configuration() {
    let config = ResolverConfig::default();
    assert_eq!(config.soft_limit, 8);
    assert_eq!(config.hard_limit, 32);
    assert_eq!(config.stall_threshold, Duration::from_millis(500));
    assert_eq!(config.timeout, None);
}

#[test]
fn spans_count_nanoseconds() {
    assert_eq!(Duration::from_secs(2).nanos, 2_000_000_000);
    assert_eq!(Duration::from_millis(20).nanos, 20_000_000);
    assert_eq!(Duration::from_millis(2000), Duration::from_secs(2));
    assert_eq!(Duration::from_secs(u64::MAX).nanos, 18_446_744_073_709_551_615_000_000_000);
}
