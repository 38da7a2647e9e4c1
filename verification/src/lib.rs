//! Admission control for a social posting backend, with the rules of the
//! backend's accounts, posts and uploads.
//!
//! Every request is counted against its caller in a token bucket before any
//! other work is done for it. `policy` holds the quotas and picks one by
//! request path, `identity` names the caller, `bucket` is the token bucket
//! itself, `store` keeps buckets by key, `gate` puts them together, and
//! `guarantees` states what holds of whole sequences of requests.
pub mod auth;
pub mod bucket;
pub mod common_redirects;
pub mod config;
pub mod fingerprinting;
pub mod gate;
pub mod guarantees;
pub mod identity;
pub mod minio;
pub mod moderation;
pub mod policy;
pub mod post;
pub mod store;
pub mod text;
