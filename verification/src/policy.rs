//! Quota policies and the registry that picks one for a request path.
//!
//! A policy is a pair of positive integers, the bucket capacity and the number
//! of tokens that flow back in per minute, tagged with the tier it serves. The
//! registry holds one policy per tier and a table of path prefixes; a path is
//! served by the tier of the longest registered prefix it starts with, and by
//! the general tier when no prefix matches.
use crate::text::{chars_of, has_prefix, same_chars};
use vstd::prelude::*;

verus! {

/// The path prefix under which the authentication routes are mounted.
pub const AUTH_PATH_PREFIX: &'static str = "/api/auth/";

/// Bucket capacity of the authentication tier in the stock registry.
pub const DEFAULT_AUTH_CAPACITY: u32 = 10;

/// Tokens per minute of the authentication tier in the stock registry.
pub const DEFAULT_AUTH_REFILL: u32 = 1;

/// Bucket capacity of the general tier in the stock registry.
pub const DEFAULT_API_CAPACITY: u32 = 100;

/// Tokens per minute of the general tier in the stock registry.
pub const DEFAULT_API_REFILL: u32 = 20;

/// The quota tier a route belongs to.
#[derive(Clone, Copy, Debug, PartialEq, Eq, Structural)]
pub enum Tier {
    /// Authentication endpoints (login, signup and the like).
    Auth,
    /// Every other endpoint.
    Api,
}

/// Why a policy or a registry was refused at start-up.
#[derive(Clone, Copy, Debug, PartialEq, Eq, Structural)]
pub enum PolicyError {
    /// A bucket that can hold no token admits nothing.
    ZeroCapacity,
    /// A bucket that never refills would not recover from exhaustion.
    ZeroRefill,
    /// The authentication tier must hold fewer tokens and refill more slowly
    /// than the general tier.
    AuthNotStricter,
    /// The prefix is already in the table.
    DuplicatePrefix,
}

/// What a policy is, as mathematics.
pub struct PolicyModel {
    pub tier: Tier,
    pub capacity: nat,
    pub refill_per_minute: nat,
}

impl PolicyModel {
    /// A bucket of this policy can hold a token and gets tokens back.
    pub open spec fn positive(self) -> bool {
        self.capacity > 0 && self.refill_per_minute > 0
    }
}

/// A quota: at most `capacity` tokens, `refill_per_minute` flowing back in
/// per minute. Both are positive in every value of this type.
#[derive(Clone, Copy, Debug, PartialEq, Eq, Structural)]
pub struct RateLimitPolicy {
    tier: Tier,
    capacity: u32,
    refill_per_minute: u32,
}

impl View for RateLimitPolicy {
    type V = PolicyModel;

    closed spec fn view(&self) -> PolicyModel {
        PolicyModel {
            tier: self.tier,
            capacity: self.capacity as nat,
            refill_per_minute: self.refill_per_minute as nat,
        }
    }
}

/// The idle time, in whole seconds, after which a bucket may be forgotten:
/// twice the time an empty bucket takes to fill, rounded up.
pub open spec fn idle_expiry_of(capacity: nat, refill_per_minute: nat) -> nat
    recommends
        refill_per_minute > 0,
{
    ((120 * capacity + refill_per_minute - 1) / (refill_per_minute as int)) as nat
}

impl RateLimitPolicy {
    #[verifier::type_invariant]
    spec fn positive(self) -> bool {
        self.capacity > 0 && self.refill_per_minute > 0
    }

    /// Registers a policy, refusing a zero capacity or a zero refill rate.
    pub fn new(tier: Tier, capacity: u32, refill_per_minute: u32) -> (r: Result<
        RateLimitPolicy,
        PolicyError,
    >)
        ensures
            capacity == 0 ==> r == Err::<RateLimitPolicy, PolicyError>(PolicyError::ZeroCapacity),
            capacity != 0 && refill_per_minute == 0 ==> r == Err::<RateLimitPolicy, PolicyError>(
                PolicyError::ZeroRefill,
            ),
            capacity != 0 && refill_per_minute != 0 ==> r is Ok && r->Ok_0@ == (PolicyModel {
                tier,
                capacity: capacity as nat,
                refill_per_minute: refill_per_minute as nat,
            }),
    {
        if capacity == 0 {
            Err(PolicyError::ZeroCapacity)
        } else if refill_per_minute == 0 {
            Err(PolicyError::ZeroRefill)
        } else {
            Ok(RateLimitPolicy { tier, capacity, refill_per_minute })
        }
    }

    /// The tier this policy serves.
    pub fn tier(&self) -> (t: Tier)
        ensures
            t == self@.tier,
            self@.positive(),
    {
        proof {
            use_type_invariant(self);
        }
        self.tier
    }

    /// The most tokens the bucket holds.
    pub fn bucket_size(&self) -> (n: u32)
        ensures
            n == self@.capacity,
            n > 0,
    {
        proof {
            use_type_invariant(self);
        }
        self.capacity
    }

    /// The number of tokens that flow back in per minute.
    pub fn refill_rate(&self) -> (n: u32)
        ensures
            n == self@.refill_per_minute,
            n > 0,
    {
        proof {
            use_type_invariant(self);
        }
        self.refill_per_minute
    }

    /// The idle time in seconds after which the store may drop a bucket of
    /// this policy.
    pub fn idle_expiry_seconds(&self) -> (secs: u64)
        ensures
            secs == idle_expiry_of(self@.capacity, self@.refill_per_minute),
            secs <= 120 * u32::MAX,
    {
        proof {
            use_type_invariant(self);
        }
        let cap: u64 = self.capacity as u64;
        let rate: u64 = self.refill_per_minute as u64;
        assert((120 * cap + rate - 1) / (rate as int) <= 120 * cap) by (nonlinear_arith)
            requires
                rate >= 1,
        ;
        (120 * cap + rate - 1) / rate
    }

    /// The policy that the stock registry gives a request path: the
    /// authentication tier under the authentication prefix, the general tier
    /// elsewhere.
    pub fn from_request_path(path: &str) -> (p: RateLimitPolicy)
        ensures
            p@ == stock_registry().classify(path@),
            AUTH_PATH_PREFIX@.is_prefix_of(path@) ==> p@ == default_auth_model(),
            !AUTH_PATH_PREFIX@.is_prefix_of(path@) ==> p@ == default_api_model(),
    {
        proof {
            law_stock_registry_goes_by_auth_prefix(path@);
        }
        PolicyRegistry::with_defaults().classify(path)
    }
}

/// The authentication policy of the stock registry.
pub open spec fn default_auth_model() -> PolicyModel {
    PolicyModel {
        tier: Tier::Auth,
        capacity: DEFAULT_AUTH_CAPACITY as nat,
        refill_per_minute: DEFAULT_AUTH_REFILL as nat,
    }
}

/// The general policy of the stock registry.
pub open spec fn default_api_model() -> PolicyModel {
    PolicyModel {
        tier: Tier::Api,
        capacity: DEFAULT_API_CAPACITY as nat,
        refill_per_minute: DEFAULT_API_REFILL as nat,
    }
}

/// The stock registry.
pub open spec fn stock_registry() -> RegistryModel {
    RegistryModel {
        auth: default_auth_model(),
        api: default_api_model(),
        rules: seq![(AUTH_PATH_PREFIX@, Tier::Auth)],
    }
}

/// One line of the prefix table.
pub struct PrefixRule {
    prefix: Vec<char>,
    tier: Tier,
}

/// What a registry is, as mathematics: a policy for each tier and the prefix
/// table in the order of registration.
pub struct RegistryModel {
    pub auth: PolicyModel,
    pub api: PolicyModel,
    pub rules: Seq<(Seq<char>, Tier)>,
}

/// Rule `i` matches `path`, and no matching rule has a longer prefix.
pub open spec fn is_longest_match(rules: Seq<(Seq<char>, Tier)>, path: Seq<char>, i: int) -> bool {
    &&& 0 <= i < rules.len()
    &&& rules[i].0.is_prefix_of(path)
    &&& forall|j: int|
        0 <= j < rules.len() && (#[trigger] rules[j]).0.is_prefix_of(path) ==> rules[j].0.len()
            <= rules[i].0.len()
}

/// No prefix stands in the table twice.
pub open spec fn distinct_prefixes(rules: Seq<(Seq<char>, Tier)>) -> bool {
    forall|i: int, j: int|
        0 <= i < rules.len() && 0 <= j < rules.len() && (#[trigger] rules[i]).0 == (
        #[trigger] rules[j]).0 ==> i == j
}

/// The tier that serves `path`: that of the longest matching prefix, the
/// general tier if none matches.
pub open spec fn tier_of_path(rules: Seq<(Seq<char>, Tier)>, path: Seq<char>) -> Tier {
    if exists|i: int| is_longest_match(rules, path, i) {
        rules[choose|i: int| is_longest_match(rules, path, i)].1
    } else {
        Tier::Api
    }
}

impl RegistryModel {
    /// Each policy serves its own tier with positive numbers, the
    /// authentication tier is strictly the tighter of the two, and no prefix
    /// is registered twice.
    pub open spec fn well_formed(self) -> bool {
        &&& self.auth.tier == Tier::Auth
        &&& self.api.tier == Tier::Api
        &&& self.auth.positive()
        &&& self.api.positive()
        &&& self.auth.capacity < self.api.capacity
        &&& self.auth.refill_per_minute < self.api.refill_per_minute
        &&& distinct_prefixes(self.rules)
    }

    /// The policy of a tier.
    pub open spec fn policy_of(self, tier: Tier) -> PolicyModel {
        match tier {
            Tier::Auth => self.auth,
            Tier::Api => self.api,
        }
    }

    /// The policy that serves `path`.
    pub open spec fn classify(self, path: Seq<char>) -> PolicyModel {
        self.policy_of(tier_of_path(self.rules, path))
    }
}

/// Among distinct prefixes at most one is the longest match of a path.
pub proof fn lemma_longest_match_is_unique(
    rules: Seq<(Seq<char>, Tier)>,
    path: Seq<char>,
    i: int,
    j: int,
)
    requires
        distinct_prefixes(rules),
        is_longest_match(rules, path, i),
        is_longest_match(rules, path, j),
    ensures
        i == j,
{
    assert(rules[i].0.len() == rules[j].0.len());
    assert(rules[i].0 =~= rules[j].0);
}

/// The longest registered prefix that a path starts with decides its tier,
/// and a path that starts with none is served by the general tier.
pub proof fn law_longest_prefix_decides(rules: Seq<(Seq<char>, Tier)>, path: Seq<char>)
    requires
        distinct_prefixes(rules),
    ensures
        forall|i: int| is_longest_match(rules, path, i) ==> tier_of_path(rules, path) == rules[i].1,
        (forall|i: int| 0 <= i < rules.len() ==> !(#[trigger] rules[i]).0.is_prefix_of(path))
            ==> tier_of_path(rules, path) == Tier::Api,
{
    assert forall|i: int| is_longest_match(rules, path, i) implies tier_of_path(rules, path)
        == rules[i].1 by {
        let c = choose|c: int| is_longest_match(rules, path, c);
        lemma_longest_match_is_unique(rules, path, i, c);
    }
}

/// The stock registry serves a path from the authentication tier if it
/// starts with the authentication prefix, and from the general tier if not.
pub proof fn law_stock_registry_goes_by_auth_prefix(path: Seq<char>)
    ensures
        AUTH_PATH_PREFIX@.is_prefix_of(path) ==> stock_registry().classify(path)
            == default_auth_model(),
        !AUTH_PATH_PREFIX@.is_prefix_of(path) ==> stock_registry().classify(path)
            == default_api_model(),
{
    let rules = stock_registry().rules;
    law_longest_prefix_decides(rules, path);
    if AUTH_PATH_PREFIX@.is_prefix_of(path) {
        assert(is_longest_match(rules, path, 0));
    }
}

/// The policies of the two tiers and the table that maps path prefixes to
/// tiers. Built once at start-up and then only read.
pub struct PolicyRegistry {
    auth: RateLimitPolicy,
    api: RateLimitPolicy,
    rules: Vec<PrefixRule>,
}

impl View for PolicyRegistry {
    type V = RegistryModel;

    closed spec fn view(&self) -> RegistryModel {
        RegistryModel {
            auth: self.auth@,
            api: self.api@,
            rules: Seq::new(
                self.rules@.len(),
                |i: int| (self.rules@[i].prefix@, self.rules@[i].tier),
            ),
        }
    }
}

impl PolicyRegistry {
    #[verifier::type_invariant]
    spec fn sound(self) -> bool {
        self@.well_formed()
    }

    /// Builds a registry with an empty prefix table from the numbers of the
    /// two tiers. A zero capacity, a zero refill rate, and an authentication
    /// tier that is not strictly tighter than the general one in both
    /// numbers are refused, in that order.
    pub fn new(auth_capacity: u32, auth_refill: u32, api_capacity: u32, api_refill: u32) -> (r:
        Result<PolicyRegistry, PolicyError>)
        ensures
            auth_capacity == 0 || api_capacity == 0 ==> r is Err && r->Err_0
                == PolicyError::ZeroCapacity,
            auth_capacity != 0 && api_capacity != 0 && (auth_refill == 0 || api_refill == 0)
                ==> r is Err && r->Err_0 == PolicyError::ZeroRefill,
            auth_capacity != 0 && api_capacity != 0 && auth_refill != 0 && api_refill != 0 && (
            auth_capacity >= api_capacity || auth_refill >= api_refill) ==> r is Err && r->Err_0
                == PolicyError::AuthNotStricter,
            0 < auth_capacity < api_capacity && 0 < auth_refill < api_refill ==> r is Ok
                && r->Ok_0@ == (RegistryModel {
                auth: PolicyModel {
                    tier: Tier::Auth,
                    capacity: auth_capacity as nat,
                    refill_per_minute: auth_refill as nat,
                },
                api: PolicyModel {
                    tier: Tier::Api,
                    capacity: api_capacity as nat,
                    refill_per_minute: api_refill as nat,
                },
                rules: Seq::empty(),
            }),
            r is Ok ==> r->Ok_0@.well_formed(),
    {
        if auth_capacity == 0 || api_capacity == 0 {
            return Err(PolicyError::ZeroCapacity);
        }
        if auth_refill == 0 || api_refill == 0 {
            return Err(PolicyError::ZeroRefill);
        }
        if auth_capacity >= api_capacity || auth_refill >= api_refill {
            return Err(PolicyError::AuthNotStricter);
        }
        let registry = PolicyRegistry {
            auth: RateLimitPolicy {
                tier: Tier::Auth,
                capacity: auth_capacity,
                refill_per_minute: auth_refill,
            },
            api: RateLimitPolicy {
                tier: Tier::Api,
                capacity: api_capacity,
                refill_per_minute: api_refill,
            },
            rules: Vec::new(),
        };
        assert(registry@.rules =~= Seq::empty());
        Ok(registry)
    }

    /// The stock registry: the default numbers of the two tiers, and the
    /// authentication prefix mapped to the authentication tier.
    pub fn with_defaults() -> (r: PolicyRegistry)
        ensures
            r@ == stock_registry(),
            r@.well_formed(),
    {
        let mut rules: Vec<PrefixRule> = Vec::new();
        rules.push(PrefixRule { prefix: chars_of(AUTH_PATH_PREFIX), tier: Tier::Auth });
        let registry = PolicyRegistry {
            auth: RateLimitPolicy {
                tier: Tier::Auth,
                capacity: DEFAULT_AUTH_CAPACITY,
                refill_per_minute: DEFAULT_AUTH_REFILL,
            },
            api: RateLimitPolicy {
                tier: Tier::Api,
                capacity: DEFAULT_API_CAPACITY,
                refill_per_minute: DEFAULT_API_REFILL,
            },
            rules,
        };
        assert(registry@.rules =~= seq![(AUTH_PATH_PREFIX@, Tier::Auth)]);
        registry
    }

    /// The registry with one more line in its prefix table. A prefix that is
    /// already in the table is refused.
    pub fn with_prefix(self, prefix: &str, tier: Tier) -> (r: Result<PolicyRegistry, PolicyError>)
        ensures
            (exists|i: int|
                0 <= i < self@.rules.len() && (#[trigger] self@.rules[i]).0 == prefix@) ==> r is Err
                && r->Err_0 == PolicyError::DuplicatePrefix,
            !(exists|i: int| 0 <= i < self@.rules.len() && (#[trigger] self@.rules[i]).0 == prefix@)
                ==> r is Ok && r->Ok_0@ == (RegistryModel {
                auth: self@.auth,
                api: self@.api,
                rules: self@.rules.push((prefix@, tier)),
            }),
            r is Ok ==> r->Ok_0@.well_formed(),
    {
        proof {
            use_type_invariant(&self);
        }
        let wanted = chars_of(prefix);
        let mut i: usize = 0;
        while i < self.rules.len()
            invariant
                i <= self.rules.len(),
                wanted@ == prefix@,
                forall|k: int| 0 <= k < i ==> (#[trigger] self@.rules[k]).0 != prefix@,
            decreases self.rules.len() - i,
        {
            if same_chars(&self.rules[i].prefix, &wanted) {
                assert(self@.rules[i as int].0 == prefix@);
                return Err(PolicyError::DuplicatePrefix);
            }
            i += 1;
        }
        let ghost before = self@;
        let PolicyRegistry { auth, api, rules } = self;
        let mut rules = rules;
        let ghost n = rules@.len() as int;
        assert(forall|k: int| 0 <= k < n ==> (#[trigger] before.rules[k]).0 == rules@[k].prefix@);
        rules.push(PrefixRule { prefix: wanted, tier });
        let ghost table = Seq::new(rules@.len(), |k: int| (rules@[k].prefix@, rules@[k].tier));
        assert(table =~= before.rules.push((prefix@, tier)));
        assert(distinct_prefixes(table)) by {
            assert forall|a: int, b: int|
                0 <= a < table.len() && 0 <= b < table.len() && (#[trigger] table[a]).0 == (
                #[trigger] table[b]).0 implies a == b by {
                if a < n && b < n {
                    assert(before.rules[a].0 == before.rules[b].0);
                } else if a < n {
                    assert(before.rules[a].0 == prefix@);
                } else if b < n {
                    assert(before.rules[b].0 == prefix@);
                }
            }
        }
        Ok(PolicyRegistry { auth, api, rules })
    }

    /// The policy of a tier.
    pub fn policy_for(&self, tier: Tier) -> (p: RateLimitPolicy)
        ensures
            p@ == self@.policy_of(tier),
            p@.tier == tier,
            p@.positive(),
            self@.well_formed(),
    {
        proof {
            use_type_invariant(self);
        }
        match tier {
            Tier::Auth => self.auth,
            Tier::Api => self.api,
        }
    }

    /// The policy that serves a request path: that of the tier of the longest
    /// registered prefix the path starts with, the general policy if it
    /// starts with none.
    pub fn classify(&self, path: &str) -> (p: RateLimitPolicy)
        ensures
            p@ == self@.classify(path@),
            p@.positive(),
            self@.well_formed(),
    {
        proof {
            use_type_invariant(self);
        }
        let chars = chars_of(path);
        let mut best: Option<usize> = None;
        let mut i: usize = 0;
        while i < self.rules.len()
            invariant
                i <= self.rules.len(),
                chars@ == path@,
                best matches Some(b) ==> b < i && is_longest_match(
                    self@.rules.take(i as int),
                    path@,
                    b as int,
                ),
                best is None ==> forall|k: int|
                    0 <= k < i ==> !(#[trigger] self@.rules[k]).0.is_prefix_of(path@),
            decreases self.rules.len() - i,
        {
            let ghost seen = self@.rules.take(i as int);
            let ghost next = self@.rules.take(i + 1);
            assert(forall|k: int| 0 <= k < i ==> next[k] == seen[k]);
            assert(next[i as int] == self@.rules[i as int]);
            if has_prefix(&chars, &self.rules[i].prefix) {
                let better = match best {
                    Some(b) => self.rules[i].prefix.len() > self.rules[b].prefix.len(),
                    None => true,
                };
                if better {
                    best = Some(i);
                }
            }
            i += 1;
        }
        assert(self@.rules.take(i as int) =~= self@.rules);
        match best {
            Some(b) => {
                proof {
                    law_longest_prefix_decides(self@.rules, path@);
                }
                self.policy_for(self.rules[b].tier)
            },
            None => {
                proof {
                    law_longest_prefix_decides(self@.rules, path@);
                }
                self.policy_for(Tier::Api)
            },
        }
    }
}

} // verus!
