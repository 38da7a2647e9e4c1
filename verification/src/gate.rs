//! The admission gate: the one question asked of every request before any
//! other work is done for it.
//!
//! It resolves the caller, picks the policy of the request path, and has
//! the bucket of that caller and tier serve the request. Whenever it cannot
//! do so, because nobody can be named to count the request against or because
//! the store gives no usable answer, it says so, and the request is let
//! through: a broken dependency must not turn legitimate callers away.
use crate::bucket::{ConsumeOutcome, OutcomeModel};
use crate::identity::{address_model, bucket_key_of, identity_of, resolve, SessionLookup};
use crate::policy::{PolicyRegistry, RateLimitPolicy, RegistryModel};
use crate::store::{serve_model, BucketStore};
use vstd::prelude::*;

verus! {

/// The answer for one request.
#[derive(Clone, Copy, Debug, PartialEq, Eq, Structural)]
pub enum Decision {
    /// Admitted; so many whole tokens are left.
    Allowed(u32),
    /// Turned away; a token will be there after so many seconds.
    Denied(u32),
    /// No decision could be made. The request is let through.
    DependencyUnavailable,
}

impl Decision {
    /// Whether the request goes on to its handler: always, unless it was
    /// turned away for want of a token.
    pub fn lets_through(&self) -> (through: bool)
        ensures
            through == !(*self is Denied),
    {
        match self {
            Decision::Denied(_) => false,
            _ => true,
        }
    }

    /// The seconds to wait, to be passed on to a caller that was turned away.
    pub fn retry_after_seconds(&self) -> (wait: Option<u32>)
        ensures
            wait == match *self {
                Decision::Denied(seconds) => Some(seconds),
                _ => None::<u32>,
            },
    {
        match self {
            Decision::Denied(seconds) => Some(*seconds),
            _ => None,
        }
    }
}

/// The HTTP status that tells a caller to slow down.
pub const TOO_MANY_REQUESTS: u16 = 429;

/// What a handler behind the rate limit is handed: the tokens its caller has
/// left, or the seconds the caller has to wait.
#[derive(Clone, Copy, Debug, PartialEq, Eq, Structural)]
pub enum RateLimitEnforcer {
    /// The caller is within the limit; so many tokens are left.
    Allowed(i64),
    /// The caller is over the limit; the next request may come in so many
    /// seconds.
    Ratelimited(i64),
}

impl RateLimitEnforcer {
    /// What a decision hands to the handler; nothing where none was made.
    pub fn from_decision(d: Decision) -> (r: Option<RateLimitEnforcer>)
        ensures
            r == match d {
                Decision::Allowed(left) => Some(RateLimitEnforcer::Allowed(left as i64)),
                Decision::Denied(wait) => Some(RateLimitEnforcer::Ratelimited(wait as i64)),
                Decision::DependencyUnavailable => None::<RateLimitEnforcer>,
            },
    {
        match d {
            Decision::Allowed(left) => Some(RateLimitEnforcer::Allowed(left as i64)),
            Decision::Denied(wait) => Some(RateLimitEnforcer::Ratelimited(wait as i64)),
            Decision::DependencyUnavailable => None,
        }
    }
}

impl Decision {
    /// The HTTP status with which a request is turned away; none for a
    /// request that goes on.
    pub fn reject_status(&self) -> (status: Option<u16>)
        ensures
            status == if *self is Denied {
                Some(TOO_MANY_REQUESTS)
            } else {
                None::<u16>
            },
    {
        match self {
            Decision::Denied(_) => Some(TOO_MANY_REQUESTS),
            _ => None,
        }
    }
}

/// The decision that an answer of the bucket amounts to.
pub open spec fn decision_of(outcome: OutcomeModel) -> Decision {
    if outcome.allowed {
        Decision::Allowed(outcome.remaining as u32)
    } else {
        Decision::Denied(outcome.retry_after_seconds as u32)
    }
}

/// The decision that a reply of the store amounts to. A reply is three
/// integers: 1 or 0 for admitted or not, the tokens left, and the seconds to
/// wait. Anything else is no answer.
pub open spec fn reply_decision(reply: Seq<i64>) -> Decision {
    if reply.len() == 3 && 0 <= reply[1] <= u32::MAX && 0 <= reply[2] <= u32::MAX {
        if reply[0] == 1 {
            Decision::Allowed(reply[1] as u32)
        } else if reply[0] == 0 {
            Decision::Denied(reply[2] as u32)
        } else {
            Decision::DependencyUnavailable
        }
    } else {
        Decision::DependencyUnavailable
    }
}

/// The reply that carries an answer of the bucket.
pub open spec fn reply_of(outcome: ConsumeOutcome) -> Seq<i64> {
    seq![
        if outcome.allowed {
            1i64
        } else {
            0i64
        },
        outcome.remaining as i64,
        outcome.retry_after_seconds as i64,
    ]
}

impl ConsumeOutcome {
    /// This answer as a decision on the request.
    pub fn decision(&self) -> (d: Decision)
        ensures
            d == decision_of(self@),
    {
        if self.allowed {
            Decision::Allowed(self.remaining)
        } else {
            Decision::Denied(self.retry_after_seconds)
        }
    }

    /// This answer as the store sends it: admitted or not as 1 or 0, the
    /// tokens left, the seconds to wait.
    pub fn to_reply(&self) -> (reply: Vec<i64>)
        ensures
            reply@ == reply_of(*self),
    {
        let mut reply: Vec<i64> = Vec::new();
        reply.push(if self.allowed { 1 } else { 0 });
        reply.push(self.remaining as i64);
        reply.push(self.retry_after_seconds as i64);
        assert(reply@ =~= reply_of(*self));
        reply
    }
}

/// Reads a reply of the store.
pub fn decode_reply(reply: &Vec<i64>) -> (d: Decision)
    ensures
        d == reply_decision(reply@),
{
    if reply.len() != 3 {
        return Decision::DependencyUnavailable;
    }
    let flag: i64 = reply[0];
    let remaining: i64 = reply[1];
    let wait: i64 = reply[2];
    if remaining < 0 || remaining > 0xffff_ffff || wait < 0 || wait > 0xffff_ffff {
        return Decision::DependencyUnavailable;
    }
    if flag == 1 {
        Decision::Allowed(remaining as u32)
    } else if flag == 0 {
        Decision::Denied(wait as u32)
    } else {
        Decision::DependencyUnavailable
    }
}

/// What the store made of a request: its reply, or nothing if it could not
/// be reached or failed.
pub fn decide(reply: Option<Vec<i64>>) -> (d: Decision)
    ensures
        d == match reply {
            Some(r) => reply_decision(r@),
            None => Decision::DependencyUnavailable,
        },
{
    match reply {
        Some(r) => decode_reply(&r),
        None => Decision::DependencyUnavailable,
    }
}

/// A reply that carries an answer of the bucket is read back as the decision
/// that the answer amounts to.
pub proof fn law_reply_round_trip(outcome: ConsumeOutcome)
    ensures
        reply_decision(reply_of(outcome)) == decision_of(outcome@),
{
}

/// What is asked of the store for one request: the bucket to draw from
/// and the policy to draw under.
pub struct ConsumePlan {
    pub key: String,
    pub policy: RateLimitPolicy,
}

/// The admission gate. It holds the registry and nothing that changes.
pub struct AdmissionGate {
    registry: PolicyRegistry,
}

impl View for AdmissionGate {
    type V = RegistryModel;

    closed spec fn view(&self) -> RegistryModel {
        self.registry@
    }
}

impl AdmissionGate {
    /// A gate over the given registry.
    pub fn new(registry: PolicyRegistry) -> (gate: AdmissionGate)
        ensures
            gate@ == registry@,
    {
        AdmissionGate { registry }
    }

    /// The bucket and the policy for a request, or nothing if the caller can
    /// be named neither by session nor by address.
    pub fn plan(
        &self,
        path: &str,
        lookup: SessionLookup,
        client_address: Option<String>,
    ) -> (plan: Option<ConsumePlan>)
        ensures
            match identity_of(lookup.user(), address_model(client_address)) {
                Some(identity) => plan is Some && plan->Some_0.policy@ == self@.classify(path@)
                    && plan->Some_0.key@ == bucket_key_of(
                    self@.classify(path@).tier,
                    identity,
                ),
                None => plan is None,
            },
    {
        match resolve(lookup, client_address) {
            Some(identity) => {
                let policy = self.registry.classify(path);
                let key = identity.bucket_key(policy.tier());
                Some(ConsumePlan { key, policy })
            },
            None => None,
        }
    }

    /// Decides on one request against a store in memory. If the caller cannot
    /// be named the store is left alone and the request is let through;
    /// otherwise the caller's bucket of the path's tier serves the request.
    pub fn screen(
        &self,
        path: &str,
        lookup: SessionLookup,
        client_address: Option<String>,
        store: &mut BucketStore,
        now: u64,
    ) -> (d: Decision)
        ensures
            match identity_of(lookup.user(), address_model(client_address)) {
                Some(identity) => {
                    let policy = self@.classify(path@);
                    let served = serve_model(
                        old(store)@,
                        bucket_key_of(policy.tier, identity),
                        policy,
                        now as nat,
                    );
                    final(store)@ == served.0 && d == decision_of(served.1)
                },
                None => final(store)@ == old(store)@ && d == Decision::DependencyUnavailable,
            },
    {
        match self.plan(path, lookup, client_address) {
            Some(plan) => {
                let outcome = store.consume(plan.key.as_str(), &plan.policy, now);
                outcome.decision()
            },
            None => Decision::DependencyUnavailable,
        }
    }
}

} // verus!
