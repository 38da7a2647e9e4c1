use admission::identity::{resolve, IdentityKey, SessionLookup};
use admission::policy::Tier;

fn ip() -> Option<String> {
    Some("107.2.95.249".to_string())
}

#[test]
fn found_session_names_the_user() {
    let key = resolve(SessionLookup::Found("Users:ann".to_string()), ip());
    assert_eq!(key, Some(IdentityKey::User("Users:ann".to_string())));
    let key = resolve(SessionLookup::Found("Users:ann".to_string()), None);
    assert_eq!(key, Some(IdentityKey::User("Users:ann".to_string())));
}

#[test]
fn invalid_session_falls_back_to_the_address() {
    assert_eq!(resolve(SessionLookup::NotFound, ip()), Some(IdentityKey::Ip("107.2.95.249".to_string())));
    assert_eq!(resolve(SessionLookup::Failed, ip()), Some(IdentityKey::Ip("107.2.95.249".to_string())));
    assert_eq!(
        resolve(SessionLookup::NoCredential, ip()),
        Some(IdentityKey::Ip("107.2.95.249".to_string()))
    );
}

#[test]
fn nobody_to_count_without_session_and_address() {
    assert_eq!(resolve(SessionLookup::NotFound, None), None);
    assert_eq!(resolve(SessionLookup::Failed, None), None);
    assert_eq!(resolve(SessionLookup::NoCredential, None), None);
}

#[test]
fn bucket_key_names_tier_kind_and_value() {
    let user = IdentityKey::User("Users:ann".to_string());
    let address = IdentityKey::Ip("107.2.95.249".to_string());
    assert_eq!(user.bucket_key(Tier::Auth), "rl:auth:user:Users:ann");
    assert_eq!(user.bucket_key(Tier::Api), "rl:api:user:Users:ann");
    assert_eq!(address.bucket_key(Tier::Auth), "rl:auth:ip:107.2.95.249");
    assert_eq!(address.bucket_key(Tier::Api), "rl:api:ip:107.2.95.249");
    assert_eq!(IdentityKey::Ip(String::new()).bucket_key(Tier::Api), "rl:api:ip:");
}

#[test]
fn bucket_keys_of_different_callers_differ() {
    let same_text_user = IdentityKey::User("10.0.0.1".to_string());
    let same_text_ip = IdentityKey::Ip("10.0.0.1".to_string());
    assert_ne!(same_text_user.bucket_key(Tier::Api), same_text_ip.bucket_key(Tier::Api));
    assert_ne!(same_text_ip.bucket_key(Tier::Api), same_text_ip.bucket_key(Tier::Auth));
    let tricky = IdentityKey::Ip("user:10.0.0.1".to_string());
    assert_ne!(tricky.bucket_key(Tier::Api), same_text_user.bucket_key(Tier::Api));
}
