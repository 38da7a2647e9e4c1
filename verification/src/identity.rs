//! Who a request is counted against, and the name of the bucket that counts it.
//!
//! A caller with a live session is counted as that user; any other caller is
//! counted by the address the request came from. A session that cannot be
//! looked up is no reason to turn a request away: the caller is then counted
//! by address like anybody else.
use crate::policy::Tier;
use vstd::prelude::*;

verus! {

/// The caller that a request is counted against.
#[derive(Clone, Debug, PartialEq, Eq)]
pub enum IdentityKey {
    /// A signed-in user, by user id.
    User(String),
    /// An anonymous caller, by source address.
    Ip(String),
}

/// An identity as mathematics.
pub enum IdentityModel {
    User(Seq<char>),
    Ip(Seq<char>),
}

impl View for IdentityKey {
    type V = IdentityModel;

    open spec fn view(&self) -> IdentityModel {
        match self {
            IdentityKey::User(id) => IdentityModel::User(id@),
            IdentityKey::Ip(address) => IdentityModel::Ip(address@),
        }
    }
}

/// What became of the request's session credential.
#[derive(Clone, Debug, PartialEq, Eq)]
pub enum SessionLookup {
    /// The request carried no session credential.
    NoCredential,
    /// The session is unknown or has expired.
    NotFound,
    /// The session could not be looked up.
    Failed,
    /// The session belongs to the user with this id.
    Found(String),
}

/// The identity of a caller with the given session user, if any, and source
/// address, if known.
pub open spec fn identity_of(user: Option<Seq<char>>, address: Option<Seq<char>>) -> Option<
    IdentityModel,
> {
    match (user, address) {
        (Some(id), _) => Some(IdentityModel::User(id)),
        (None, Some(a)) => Some(IdentityModel::Ip(a)),
        (None, None) => None,
    }
}

impl SessionLookup {
    /// The user the session belongs to, if the lookup found one.
    pub open spec fn user(self) -> Option<Seq<char>> {
        match self {
            SessionLookup::Found(id) => Some(id@),
            _ => None,
        }
    }
}

/// The model of an address that may be unknown.
pub open spec fn address_model(address: Option<String>) -> Option<Seq<char>> {
    match address {
        Some(a) => Some(a@),
        None => None,
    }
}

/// The model of an identity that may be missing.
pub open spec fn identity_model(key: Option<IdentityKey>) -> Option<IdentityModel> {
    match key {
        Some(k) => Some(k@),
        None => None,
    }
}

/// Resolves the caller of a request. A session that was found makes the
/// caller that user. In every other case, a session that is missing, unknown,
/// expired or could not be looked up, the caller is the source address; and
/// if that is unknown too, there is nobody to count the request against.
pub fn resolve(lookup: SessionLookup, client_address: Option<String>) -> (key: Option<
    IdentityKey,
>)
    ensures
        identity_model(key) == identity_of(lookup.user(), address_model(client_address)),
        !(lookup is Found) && client_address is Some ==> key is Some && key->Some_0@
            == IdentityModel::Ip(client_address->Some_0@),
{
    match lookup {
        SessionLookup::Found(id) => Some(IdentityKey::User(id)),
        _ => match client_address {
            Some(address) => Some(IdentityKey::Ip(address)),
            None => None,
        },
    }
}

/// The name of a tier inside a bucket key.
pub open spec fn tier_label(tier: Tier) -> Seq<char> {
    match tier {
        Tier::Auth => seq!['a', 'u', 't', 'h'],
        Tier::Api => seq!['a', 'p', 'i'],
    }
}

impl IdentityModel {
    /// The name of the kind of identity inside a bucket key.
    pub open spec fn kind_label(self) -> Seq<char> {
        match self {
            IdentityModel::User(_) => seq!['u', 's', 'e', 'r'],
            IdentityModel::Ip(_) => seq!['i', 'p'],
        }
    }

    /// The user id or the address.
    pub open spec fn value(self) -> Seq<char> {
        match self {
            IdentityModel::User(id) => id,
            IdentityModel::Ip(address) => address,
        }
    }
}

/// The key of the bucket that counts `identity` under `tier`:
/// `rl:<tier>:<kind>:<value>`.
pub open spec fn bucket_key_of(tier: Tier, identity: IdentityModel) -> Seq<char> {
    seq!['r', 'l', ':'] + tier_label(tier) + seq![':'] + identity.kind_label() + seq![':']
        + identity.value()
}

/// Two bucket keys are the same only for the same tier and the same caller:
/// no two callers share a bucket, and no caller's buckets of the two tiers
/// coincide.
pub proof fn law_bucket_keys_are_distinct(
    tier_a: Tier,
    a: IdentityModel,
    tier_b: Tier,
    b: IdentityModel,
)
    requires
        bucket_key_of(tier_a, a) == bucket_key_of(tier_b, b),
    ensures
        tier_a == tier_b,
        a == b,
{
    let ka = bucket_key_of(tier_a, a);
    let kb = bucket_key_of(tier_b, b);
    let head_a = seq!['r', 'l', ':'] + tier_label(tier_a) + seq![':'];
    let head_b = seq!['r', 'l', ':'] + tier_label(tier_b) + seq![':'];
    assert(ka[4] == tier_label(tier_a)[1]);
    assert(kb[4] == tier_label(tier_b)[1]);
    assert(tier_a == tier_b);
    assert(head_a == head_b);
    let n = head_a.len() as int;
    assert(ka[n] == a.kind_label()[0]);
    assert(kb[n] == b.kind_label()[0]);
    assert(a.kind_label() == b.kind_label());
    let m = n + a.kind_label().len() + 1;
    assert(ka.skip(m) =~= a.value());
    assert(kb.skip(m) =~= b.value());
}

impl IdentityKey {
    /// The key of the bucket that counts this caller under `tier`.
    pub fn bucket_key(&self, tier: Tier) -> (key: String)
        ensures
            key@ == bucket_key_of(tier, self@),
    {
        proof {
            reveal_strlit("rl:");
            reveal_strlit("auth");
            reveal_strlit("api");
            reveal_strlit(":user:");
            reveal_strlit(":ip:");
        }
        let mut key = String::from_str("rl:");
        match tier {
            Tier::Auth => key.append("auth"),
            Tier::Api => key.append("api"),
        }
        match self {
            IdentityKey::User(id) => {
                key.append(":user:");
                key.append(id.as_str());
            },
            IdentityKey::Ip(address) => {
                key.append(":ip:");
                key.append(address.as_str());
            },
        }
        assert(key@ =~= bucket_key_of(tier, self@));
        key
    }
}

} // verus!
