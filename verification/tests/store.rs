use admission::bucket::{consume, ConsumeOutcome};
use admission::policy::{RateLimitPolicy, Tier};
use admission::store::BucketStore;

const T0: u64 = 1_700_000_000_000;

#[test]
fn twice_the_capacity_at_once_lets_exactly_the_capacity_through() {
    let policy = RateLimitPolicy::new(Tier::Auth, 10, 1).unwrap();
    let mut store = BucketStore::new();
    let mut let_through = 0;
    for _ in 0..20 {
        if store.consume("rl:auth:ip:10.0.0.1", &policy, T0).allowed {
            let_through += 1;
        }
    }
    assert_eq!(let_through, 10);
}

#[test]
fn store_serves_as_the_bucket_does() {
    let policy = RateLimitPolicy::new(Tier::Api, 3, 20).unwrap();
    let mut store = BucketStore::new();
    let mut stored = None;
    let times = [T0, T0, T0 + 10, T0 + 10, T0 + 2_000, T0 + 2_990, T0 + 3_010, T0 + 9_000];
    for now in times {
        let (record, expected) = consume(stored, &policy, now);
        assert_eq!(store.consume("k", &policy, now), expected);
        assert_eq!(store.peek("k"), Some(record));
        stored = Some(record);
    }
}

#[test]
fn buckets_of_different_keys_do_not_touch() {
    let policy = RateLimitPolicy::new(Tier::Auth, 2, 1).unwrap();
    let mut store = BucketStore::new();
    assert_eq!(store.len(), 0);
    assert!(store.consume("a", &policy, T0).allowed);
    assert!(store.consume("a", &policy, T0).allowed);
    assert!(!store.consume("a", &policy, T0).allowed);
    let before = store.peek("a");
    assert_eq!(
        store.consume("b", &policy, T0),
        ConsumeOutcome { allowed: true, remaining: 1, retry_after_seconds: 0 }
    );
    assert_eq!(store.peek("a"), before);
    assert_eq!(store.len(), 2);
    assert_eq!(store.peek("c"), None);
}

#[test]
fn expired_bucket_counts_as_fresh() {
    let policy = RateLimitPolicy::new(Tier::Auth, 10, 1).unwrap();
    let mut store = BucketStore::new();
    for _ in 0..11 {
        store.consume("a", &policy, T0);
    }
    let later = T0 + policy.idle_expiry_seconds() * 1_000;
    assert_eq!(
        store.consume("a", &policy, later),
        ConsumeOutcome { allowed: true, remaining: 9, retry_after_seconds: 0 }
    );
    assert_eq!(store.len(), 1);
}

#[test]
fn sweep_drops_what_has_expired_and_nothing_else() {
    let slow = RateLimitPolicy::new(Tier::Auth, 10, 1).unwrap();
    let fast = RateLimitPolicy::new(Tier::Api, 100, 20).unwrap();
    let mut store = BucketStore::new();
    store.consume("slow", &slow, T0);
    store.consume("fast", &fast, T0);
    store.consume("late", &fast, T0 + 500_000);
    let kept = store.peek("slow");
    store.sweep(T0 + 600_000);
    assert_eq!(store.len(), 3);
    store.sweep(T0 + 600_001);
    assert_eq!(store.len(), 2);
    assert_eq!(store.peek("fast"), None);
    assert_eq!(store.peek("slow"), kept);
    assert!(store.peek("late").is_some());
    store.sweep(T0 + 1_200_001);
    assert_eq!(store.len(), 0);
    store.sweep(T0 + 1_200_001);
    assert_eq!(store.len(), 0);
}

#[test]
fn forgetting_idle_buckets_changes_no_answer() {
    let policy = RateLimitPolicy::new(Tier::Api, 3, 20).unwrap();
    let mut sweeping = BucketStore::new();
    let mut keeping = None;
    let times = [T0, T0, T0, T0, T0 + 17_999, T0 + 36_000, T0 + 36_000, T0 + 100_000, T0 + 100_001];
    for now in times {
        sweeping.sweep(now);
        let (record, expected) = consume(keeping, &policy, now);
        assert_eq!(sweeping.consume("k", &policy, now), expected);
        keeping = Some(record);
    }
}
