use admission::policy::{
    PolicyError, PolicyRegistry, RateLimitPolicy, Tier, DEFAULT_API_CAPACITY, DEFAULT_API_REFILL,
    DEFAULT_AUTH_CAPACITY, DEFAULT_AUTH_REFILL,
};

#[test]
fn policy_must_have_positive_numbers() {
    assert_eq!(RateLimitPolicy::new(Tier::Api, 0, 5), Err(PolicyError::ZeroCapacity));
    assert_eq!(RateLimitPolicy::new(Tier::Api, 5, 0), Err(PolicyError::ZeroRefill));
    assert_eq!(RateLimitPolicy::new(Tier::Api, 0, 0), Err(PolicyError::ZeroCapacity));
    let policy = RateLimitPolicy::new(Tier::Auth, 10, 1).unwrap();
    assert_eq!(policy.tier(), Tier::Auth);
    assert_eq!(policy.bucket_size(), 10);
    assert_eq!(policy.refill_rate(), 1);
}

#[test]
fn idle_expiry_is_twice_the_fill_time_rounded_up() {
    assert_eq!(RateLimitPolicy::new(Tier::Auth, 10, 1).unwrap().idle_expiry_seconds(), 1200);
    assert_eq!(RateLimitPolicy::new(Tier::Api, 100, 20).unwrap().idle_expiry_seconds(), 600);
    assert_eq!(RateLimitPolicy::new(Tier::Api, 1, 7).unwrap().idle_expiry_seconds(), 18);
    assert_eq!(
        RateLimitPolicy::new(Tier::Api, u32::MAX, 1).unwrap().idle_expiry_seconds(),
        120 * (u32::MAX as u64)
    );
}

#[test]
fn request_path_picks_the_stock_policy() {
    let auth = RateLimitPolicy::from_request_path("/api/auth/login");
    assert_eq!(auth.tier(), Tier::Auth);
    assert_eq!(auth.bucket_size(), DEFAULT_AUTH_CAPACITY);
    assert_eq!(auth.refill_rate(), DEFAULT_AUTH_REFILL);
    let api = RateLimitPolicy::from_request_path("/api/post/latest");
    assert_eq!(api.tier(), Tier::Api);
    assert_eq!(api.bucket_size(), DEFAULT_API_CAPACITY);
    assert_eq!(api.refill_rate(), DEFAULT_API_REFILL);
    assert_eq!(RateLimitPolicy::from_request_path("/api/auth").tier(), Tier::Api);
    assert_eq!(RateLimitPolicy::from_request_path("").tier(), Tier::Api);
    assert_eq!(RateLimitPolicy::from_request_path("/api/auth/").tier(), Tier::Auth);
    assert_eq!(RateLimitPolicy::from_request_path("/API/AUTH/login").tier(), Tier::Api);
}

#[test]
fn stock_numbers_are_ten_one_and_hundred_twenty() {
    assert_eq!((DEFAULT_AUTH_CAPACITY, DEFAULT_AUTH_REFILL), (10, 1));
    assert_eq!((DEFAULT_API_CAPACITY, DEFAULT_API_REFILL), (100, 20));
    let registry = PolicyRegistry::with_defaults();
    assert_eq!(registry.policy_for(Tier::Auth), RateLimitPolicy::new(Tier::Auth, 10, 1).unwrap());
    assert_eq!(registry.policy_for(Tier::Api), RateLimitPolicy::new(Tier::Api, 100, 20).unwrap());
    assert_eq!(
        registry.classify("/api/auth/signup"),
        RateLimitPolicy::from_request_path("/api/auth/signup")
    );
    assert_eq!(registry.classify("/index.html"), RateLimitPolicy::from_request_path("/index.html"));
}

#[test]
fn registry_refuses_bad_numbers_in_order() {
    assert_eq!(PolicyRegistry::new(0, 0, 100, 20).err(), Some(PolicyError::ZeroCapacity));
    assert_eq!(PolicyRegistry::new(10, 1, 0, 20).err(), Some(PolicyError::ZeroCapacity));
    assert_eq!(PolicyRegistry::new(10, 0, 100, 20).err(), Some(PolicyError::ZeroRefill));
    assert_eq!(PolicyRegistry::new(10, 1, 100, 0).err(), Some(PolicyError::ZeroRefill));
    assert_eq!(PolicyRegistry::new(100, 1, 100, 20).err(), Some(PolicyError::AuthNotStricter));
    assert_eq!(PolicyRegistry::new(10, 20, 100, 20).err(), Some(PolicyError::AuthNotStricter));
    assert_eq!(PolicyRegistry::new(200, 30, 100, 20).err(), Some(PolicyError::AuthNotStricter));
    assert!(PolicyRegistry::new(5, 3, 100, 20).is_ok());
}

#[test]
fn longest_prefix_wins() {
    let registry = PolicyRegistry::new(5, 3, 100, 20)
        .ok()
        .unwrap()
        .with_prefix("/api/", Tier::Api)
        .ok()
        .unwrap()
        .with_prefix("/api/auth/", Tier::Auth)
        .ok()
        .unwrap()
        .with_prefix("/api/auth/check", Tier::Api)
        .ok()
        .unwrap();
    assert_eq!(registry.classify("/api/auth/login").tier(), Tier::Auth);
    assert_eq!(registry.classify("/api/auth/login").bucket_size(), 5);
    assert_eq!(registry.classify("/api/auth/login").refill_rate(), 3);
    assert_eq!(registry.classify("/api/auth/check").tier(), Tier::Api);
    assert_eq!(registry.classify("/api/auth/checkup").tier(), Tier::Api);
    assert_eq!(registry.classify("/api/post/new").tier(), Tier::Api);
    assert_eq!(registry.classify("/login").tier(), Tier::Api);
    assert_eq!(registry.classify("/api/auth").tier(), Tier::Api);
}

#[test]
fn order_of_registration_does_not_matter() {
    let registry = PolicyRegistry::new(5, 3, 100, 20)
        .ok()
        .unwrap()
        .with_prefix("/a/b/c", Tier::Api)
        .ok()
        .unwrap()
        .with_prefix("/a/b", Tier::Auth)
        .ok()
        .unwrap()
        .with_prefix("/a", Tier::Api)
        .ok()
        .unwrap();
    assert_eq!(registry.classify("/a/b/c/d").tier(), Tier::Api);
    assert_eq!(registry.classify("/a/b/x").tier(), Tier::Auth);
    assert_eq!(registry.classify("/a/x").tier(), Tier::Api);
    assert_eq!(registry.classify("/x").tier(), Tier::Api);
}

#[test]
fn empty_table_serves_everything_from_the_general_tier() {
    let registry = PolicyRegistry::new(5, 3, 100, 20).ok().unwrap();
    assert_eq!(registry.classify("/api/auth/login").tier(), Tier::Api);
    assert_eq!(registry.classify("/api/auth/login").bucket_size(), 100);
}

#[test]
fn prefix_cannot_be_registered_twice() {
    let registry = PolicyRegistry::with_defaults();
    assert_eq!(
        registry.with_prefix("/api/auth/", Tier::Api).err(),
        Some(PolicyError::DuplicatePrefix)
    );
    let registry = PolicyRegistry::with_defaults().with_prefix("/admin/", Tier::Auth).ok().unwrap();
    assert_eq!(registry.classify("/admin/users").tier(), Tier::Auth);
    assert_eq!(registry.with_prefix("/admin/", Tier::Auth).err(), Some(PolicyError::DuplicatePrefix));
}
