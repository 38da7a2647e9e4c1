//! The token bucket: continuous refill, one token per admitted request.
//!
//! Time is counted in whole milliseconds and the fill level in units of
//! 1/60000 token, which is what flows into a bucket in one millisecond at a
//! refill rate of one token per minute. With these two units the state of a
//! bucket is kept exactly, in integers: a bucket that refills at `r` tokens
//! per minute gains exactly `r` units per millisecond. Only the answer is
//! rounded, the tokens left down and the seconds to wait up.
use crate::policy::{PolicyModel, RateLimitPolicy};
use vstd::prelude::*;

verus! {

/// Fill-level units in one token.
pub const UNITS_PER_TOKEN: u64 = 60_000;

/// Milliseconds in one second.
pub const MILLIS_PER_SECOND: u64 = 1_000;

/// A bucket as mathematics: its fill level in units and the time of its last
/// refill in milliseconds.
pub struct BucketModel {
    pub level: nat,
    pub last_refill_at: nat,
}

/// The answer to one request, as mathematics.
pub struct OutcomeModel {
    pub allowed: bool,
    pub remaining: nat,
    pub retry_after_seconds: nat,
}

/// The level of a full bucket.
pub open spec fn full_level(capacity: nat) -> nat {
    capacity * UNITS_PER_TOKEN as nat
}

/// The time that has passed since `last`; none if the clock stepped back.
pub open spec fn elapsed_between(last: nat, now: nat) -> nat {
    if now >= last {
        (now - last) as nat
    } else {
        0
    }
}

/// The level after `elapsed` milliseconds of refill, capped at a full bucket.
pub open spec fn refilled_level(level: nat, elapsed: nat, capacity: nat, refill: nat) -> nat {
    if level + elapsed * refill >= full_level(capacity) {
        full_level(capacity)
    } else {
        level + elapsed * refill
    }
}

/// Whole seconds, rounded up, until a bucket below one token holds one.
pub open spec fn retry_after_of(level: nat, refill: nat) -> nat
    recommends
        level < UNITS_PER_TOKEN,
        refill > 0,
{
    ((UNITS_PER_TOKEN - level + MILLIS_PER_SECOND * refill - 1) / (MILLIS_PER_SECOND
        * refill) as int) as nat
}

/// A bucket nobody has drawn from: full, refilled now.
pub open spec fn fresh_bucket(capacity: nat, now: nat) -> BucketModel {
    BucketModel { level: full_level(capacity), last_refill_at: now }
}

/// The bucket brought up to `now`. The refill time never moves backwards.
pub open spec fn refill(b: BucketModel, policy: PolicyModel, now: nat) -> BucketModel {
    BucketModel {
        level: refilled_level(
            b.level,
            elapsed_between(b.last_refill_at, now),
            policy.capacity,
            policy.refill_per_minute,
        ),
        last_refill_at: if now >= b.last_refill_at {
            now
        } else {
            b.last_refill_at
        },
    }
}

/// One request against a bucket: what the bucket is afterwards, and the
/// answer. A missing bucket counts as a fresh one. The bucket is refilled
/// first; with at least one token in it the request is admitted and pays one
/// token, otherwise it is turned away and the refilled state is kept.
pub open spec fn consume_model(stored: Option<BucketModel>, policy: PolicyModel, now: nat) -> (
    BucketModel,
    OutcomeModel,
) {
    let loaded = match stored {
        Some(b) => b,
        None => fresh_bucket(policy.capacity, now),
    };
    let b = refill(loaded, policy, now);
    if b.level >= UNITS_PER_TOKEN {
        let left = (b.level - UNITS_PER_TOKEN) as nat;
        (
            BucketModel { level: left, last_refill_at: b.last_refill_at },
            OutcomeModel {
                allowed: true,
                remaining: left / UNITS_PER_TOKEN as nat,
                retry_after_seconds: 0,
            },
        )
    } else {
        (
            b,
            OutcomeModel {
                allowed: false,
                remaining: 0,
                retry_after_seconds: retry_after_of(b.level, policy.refill_per_minute),
            },
        )
    }
}

/// The stored state of one bucket.
#[derive(Clone, Copy, Debug, PartialEq, Eq, Structural)]
pub struct BucketRecord {
    level: u64,
    last_refill_at: u64,
}

impl View for BucketRecord {
    type V = BucketModel;

    closed spec fn view(&self) -> BucketModel {
        BucketModel { level: self.level as nat, last_refill_at: self.last_refill_at as nat }
    }
}

/// The model of a bucket that may be missing.
pub open spec fn stored_model(stored: Option<BucketRecord>) -> Option<BucketModel> {
    match stored {
        Some(b) => Some(b@),
        None => None,
    }
}

impl BucketRecord {
    /// A record with the given level, in units, and refill time, in
    /// milliseconds.
    pub fn new(level: u64, last_refill_at: u64) -> (b: BucketRecord)
        ensures
            b@ == (BucketModel { level: level as nat, last_refill_at: last_refill_at as nat }),
    {
        BucketRecord { level, last_refill_at }
    }

    /// A full bucket of the policy, as a first request at `now` finds it.
    pub fn full(policy: &RateLimitPolicy, now: u64) -> (b: BucketRecord)
        ensures
            b@ == fresh_bucket(policy@.capacity, now as nat),
    {
        let cap: u64 = policy.bucket_size() as u64;
        BucketRecord { level: cap * UNITS_PER_TOKEN, last_refill_at: now }
    }

    /// The fill level in units.
    pub fn level(&self) -> (n: u64)
        ensures
            n == self@.level,
    {
        self.level
    }

    /// The whole tokens in the bucket.
    pub fn tokens(&self) -> (n: u64)
        ensures
            n == self@.level / UNITS_PER_TOKEN as nat,
    {
        self.level / UNITS_PER_TOKEN
    }

    /// The time, in milliseconds, up to which the bucket has been refilled.
    pub fn last_refill_at(&self) -> (t: u64)
        ensures
            t == self@.last_refill_at,
    {
        self.last_refill_at
    }
}

/// The answer to one request: admitted with `remaining` whole tokens left, or
/// turned away with the seconds to wait before the next attempt.
#[derive(Clone, Copy, Debug, PartialEq, Eq, Structural)]
pub struct ConsumeOutcome {
    pub allowed: bool,
    pub remaining: u32,
    pub retry_after_seconds: u32,
}

impl View for ConsumeOutcome {
    type V = OutcomeModel;

    open spec fn view(&self) -> OutcomeModel {
        OutcomeModel {
            allowed: self.allowed,
            remaining: self.remaining as nat,
            retry_after_seconds: self.retry_after_seconds as nat,
        }
    }
}

/// Serves one request at time `now` from the bucket `stored`, or from a fresh
/// bucket if there is none, and returns the bucket to store with the answer.
pub fn consume(stored: Option<BucketRecord>, policy: &RateLimitPolicy, now: u64) -> (r: (
    BucketRecord,
    ConsumeOutcome,
))
    ensures
        (r.0@, r.1@) == consume_model(stored_model(stored), policy@, now as nat),
{
    let cap: u64 = policy.bucket_size() as u64;
    let rate: u64 = policy.refill_rate() as u64;
    let full: u64 = cap * UNITS_PER_TOKEN;
    let loaded = match stored {
        Some(b) => b,
        None => BucketRecord { level: full, last_refill_at: now },
    };
    let elapsed: u64 = if now >= loaded.last_refill_at {
        now - loaded.last_refill_at
    } else {
        0
    };
    let last: u64 = if now >= loaded.last_refill_at {
        now
    } else {
        loaded.last_refill_at
    };
    assert(elapsed * rate <= u64::MAX * u32::MAX) by (nonlinear_arith)
        requires
            elapsed <= u64::MAX,
            rate <= u32::MAX,
    ;
    let gain: u128 = (elapsed as u128) * (rate as u128);
    let raw: u128 = loaded.level as u128 + gain;
    let level: u64 = if raw >= full as u128 {
        full
    } else {
        raw as u64
    };
    assert(level == refilled_level(
        loaded@.level,
        elapsed as nat,
        policy@.capacity,
        policy@.refill_per_minute,
    ));
    if level >= UNITS_PER_TOKEN {
        let left: u64 = level - UNITS_PER_TOKEN;
        let remaining: u64 = left / UNITS_PER_TOKEN;
        (
            BucketRecord { level: left, last_refill_at: last },
            ConsumeOutcome { allowed: true, remaining: remaining as u32, retry_after_seconds: 0 },
        )
    } else {
        let per_second: u64 = MILLIS_PER_SECOND * rate;
        let wait: u64 = (UNITS_PER_TOKEN - level + per_second - 1) / per_second;
        assert(wait <= 60) by (nonlinear_arith)
            requires
                per_second >= 1000,
                level < 60000,
                wait == (60000 - level + per_second - 1) / (per_second as int),
        ;
        (
            BucketRecord { level, last_refill_at: last },
            ConsumeOutcome { allowed: false, remaining: 0, retry_after_seconds: wait as u32 },
        )
    }
}

} // verus!
