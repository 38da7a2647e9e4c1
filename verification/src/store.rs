//! A bucket store that lives in memory.
//!
//! It keeps one bucket per key and serves each request in a single step that
//! nothing can interleave with: the store is borrowed exclusively for the
//! whole of it. A bucket that has been idle for the expiry time of its policy
//! counts as gone, and can be swept out.
use crate::bucket::{
    consume, consume_model, stored_model, BucketModel, BucketRecord, ConsumeOutcome, OutcomeModel,
    MILLIS_PER_SECOND,
};
use crate::policy::{idle_expiry_of, PolicyModel, RateLimitPolicy};
use vstd::prelude::*;

verus! {

/// A stored bucket as mathematics: the bucket and the time, in milliseconds,
/// after which it counts as gone.
pub struct StoredModel {
    pub bucket: BucketModel,
    pub expires_at: nat,
}

/// One bucket in the store.
pub struct StoredBucket {
    key: String,
    record: BucketRecord,
    expires_at: u64,
}

impl StoredBucket {
    spec fn model(self) -> StoredModel {
        StoredModel { bucket: self.record@, expires_at: self.expires_at as nat }
    }
}

/// The buckets by key.
pub struct BucketStore {
    entries: Vec<StoredBucket>,
    model: Ghost<Map<Seq<char>, StoredModel>>,
}

impl View for BucketStore {
    type V = Map<Seq<char>, StoredModel>;

    closed spec fn view(&self) -> Map<Seq<char>, StoredModel> {
        self.model@
    }
}

/// The bucket stored under `key` that a request at `now` finds: none if
/// there is no bucket or if its expiry time has passed.
pub open spec fn live_bucket(store: Map<Seq<char>, StoredModel>, key: Seq<char>, now: nat) -> Option<
    BucketModel,
> {
    if store.contains_key(key) && now <= store[key].expires_at {
        Some(store[key].bucket)
    } else {
        None
    }
}

/// The time after which a bucket served at `now` counts as gone: the idle
/// expiry time of its policy later, or the end of time if that is sooner.
pub open spec fn expiry_after(policy: PolicyModel, now: nat) -> nat {
    let at = now + idle_expiry_of(policy.capacity, policy.refill_per_minute) * MILLIS_PER_SECOND;
    if at <= u64::MAX {
        at as nat
    } else {
        u64::MAX as nat
    }
}

/// The store after a request for `key` at `now`, and the answer.
pub open spec fn serve_model(
    store: Map<Seq<char>, StoredModel>,
    key: Seq<char>,
    policy: PolicyModel,
    now: nat,
) -> (Map<Seq<char>, StoredModel>, OutcomeModel) {
    let (bucket, outcome) = consume_model(live_bucket(store, key, now), policy, now);
    (store.insert(key, StoredModel { bucket, expires_at: expiry_after(policy, now) }), outcome)
}

/// The store without the buckets whose expiry time has passed at `now`.
pub open spec fn swept(store: Map<Seq<char>, StoredModel>, now: nat) -> Map<
    Seq<char>,
    StoredModel,
> {
    Map::new(
        |k: Seq<char>| store.contains_key(k) && now <= store[k].expires_at,
        |k: Seq<char>| store[k],
    )
}

/// The entries and the map say the same, and no key is stored twice.
spec fn consistent(entries: Seq<StoredBucket>, model: Map<Seq<char>, StoredModel>) -> bool {
    &&& forall|i: int|
        0 <= i < entries.len() ==> model.contains_key((#[trigger] entries[i]).key@)
            && model[entries[i].key@] == entries[i].model()
    &&& forall|k: Seq<char>| #[trigger]
        model.contains_key(k) ==> exists|i: int|
            0 <= i < entries.len() && (#[trigger] entries[i]).key@ == k
    &&& forall|i: int, j: int|
        0 <= i < entries.len() && 0 <= j < entries.len() && (#[trigger] entries[i]).key@ == (
        #[trigger] entries[j]).key@ ==> i == j
}

/// A consistent store holds as many entries as its map has keys.
proof fn lemma_size(entries: Seq<StoredBucket>, model: Map<Seq<char>, StoredModel>)
    requires
        consistent(entries, model),
    ensures
        model.dom().finite(),
        model.dom().len() == entries.len(),
{
    let keys = entries.map_values(|e: StoredBucket| e.key@);
    assert(keys.no_duplicates()) by {
        assert forall|i: int, j: int|
            0 <= i < keys.len() && 0 <= j < keys.len() && i != j implies keys[i] != keys[j] by {
            assert(keys[i] == entries[i].key@);
            assert(keys[j] == entries[j].key@);
        }
    }
    keys.unique_seq_to_set();
    assert(keys.to_set() =~= model.dom()) by {
        assert forall|k: Seq<char>| keys.to_set().contains(k) implies model.dom().contains(k) by {
            let i = choose|i: int| 0 <= i < keys.len() && keys[i] == k;
            assert(entries[i].key@ == k);
        }
        assert forall|k: Seq<char>| model.dom().contains(k) implies keys.to_set().contains(k) by {
            let i = choose|i: int| 0 <= i < entries.len() && (#[trigger] entries[i]).key@ == k;
            assert(keys[i] == k);
        }
    }
}

/// The place of `key` among the entries.
fn find(entries: &Vec<StoredBucket>, key: &String, Ghost(model): Ghost<
    Map<Seq<char>, StoredModel>,
>) -> (at: Option<usize>)
    requires
        consistent(entries@, model),
    ensures
        at matches Some(i) ==> i < entries@.len() && entries@[i as int].key@ == key@
            && model.contains_key(key@),
        at is None ==> !model.contains_key(key@),
{
    let mut i: usize = 0;
    while i < entries.len()
        invariant
            consistent(entries@, model),
            i <= entries@.len(),
            forall|k: int| 0 <= k < i ==> (#[trigger] entries@[k]).key@ != key@,
        decreases entries@.len() - i,
    {
        if entries[i].key == *key {
            return Some(i);
        }
        i += 1;
    }
    None
}

impl BucketStore {
    #[verifier::type_invariant]
    spec fn wf(self) -> bool {
        consistent(self.entries@, self.model@)
    }

    /// A store without buckets.
    pub fn new() -> (s: BucketStore)
        ensures
            s@ == Map::<Seq<char>, StoredModel>::empty(),
    {
        BucketStore { entries: Vec::new(), model: Ghost(Map::empty()) }
    }

    /// The number of buckets held, expired ones included.
    pub fn len(&self) -> (n: usize)
        ensures
            n == self@.dom().len(),
            self@.dom().finite(),
    {
        proof {
            use_type_invariant(self);
            lemma_size(self.entries@, self.model@);
        }
        self.entries.len()
    }

    /// The bucket stored under `key`, whether it has expired or not.
    pub fn peek(&self, key: &str) -> (found: Option<BucketRecord>)
        ensures
            found is Some == self@.contains_key(key@),
            found matches Some(b) ==> b@ == self@[key@].bucket,
    {
        proof {
            use_type_invariant(self);
        }
        let owned = String::from_str(key);
        match find(&self.entries, &owned, Ghost(self.model@)) {
            Some(i) => Some(self.entries[i].record),
            None => None,
        }
    }

    /// Serves one request for `key` at time `now` under `policy`, as one
    /// indivisible step: loads the bucket, which counts as fresh if it is
    /// missing or has expired, refills it, decides, and stores the bucket
    /// with its new expiry time. No other bucket is touched.
    pub fn consume(&mut self, key: &str, policy: &RateLimitPolicy, now: u64) -> (outcome:
        ConsumeOutcome)
        ensures
            (final(self)@, outcome@) == serve_model(old(self)@, key@, policy@, now as nat),
    {
        let owned = String::from_str(key);
        let ttl: u64 = policy.idle_expiry_seconds();
        let ttl_millis: u64 = ttl * MILLIS_PER_SECOND;
        let expires_at: u64 = if now > u64::MAX - ttl_millis {
            u64::MAX
        } else {
            now + ttl_millis
        };
        let mut taken = BucketStore::new();
        core::mem::swap(self, &mut taken);
        proof {
            use_type_invariant(&taken);
        }
        let BucketStore { entries, model } = taken;
        let mut entries = entries;
        let ghost before = entries@;
        let ghost held = model@;
        let at = find(&entries, &owned, Ghost(held));
        let live = match at {
            Some(i) => {
                if now <= entries[i].expires_at {
                    Some(entries[i].record)
                } else {
                    None
                }
            },
            None => None,
        };
        assert(stored_model(live) == live_bucket(held, key@, now as nat));
        let (record, outcome) = consume(live, policy, now);
        let entry = StoredBucket { key: owned, record, expires_at };
        let ghost next = held.insert(key@, entry.model());
        match at {
            Some(i) => {
                entries.set(i, entry);
                assert(consistent(entries@, next)) by {
                    assert forall|k: Seq<char>| #[trigger] next.contains_key(k) implies exists|
                        j: int,
                    | 0 <= j < entries@.len() && (#[trigger] entries@[j]).key@ == k by {
                        if k == key@ {
                            assert(entries@[i as int].key@ == k);
                        } else {
                            let j = choose|j: int|
                                0 <= j < before.len() && (#[trigger] before[j]).key@ == k;
                            assert(entries@[j].key@ == k);
                        }
                    }
                }
            },
            None => {
                entries.push(entry);
                assert(consistent(entries@, next)) by {
                    let n = before.len() as int;
                    assert forall|k: Seq<char>| #[trigger] next.contains_key(k) implies exists|
                        j: int,
                    | 0 <= j < entries@.len() && (#[trigger] entries@[j]).key@ == k by {
                        if k == key@ {
                            assert(entries@[n].key@ == k);
                        } else {
                            let j = choose|j: int|
                                0 <= j < before.len() && (#[trigger] before[j]).key@ == k;
                            assert(entries@[j].key@ == k);
                        }
                    }
                }
            },
        }
        *self = BucketStore { entries, model: Ghost(next) };
        outcome
    }

    /// Drops every bucket whose expiry time has passed at `now`, and leaves
    /// the others as they are.
    pub fn sweep(&mut self, now: u64)
        ensures
            final(self)@ == swept(old(self)@, now as nat),
    {
        let mut taken = BucketStore::new();
        core::mem::swap(self, &mut taken);
        proof {
            use_type_invariant(&taken);
        }
        let BucketStore { entries, model } = taken;
        let mut rest = entries;
        let ghost all = rest@;
        let ghost total = rest@.len() as int;
        let ghost held = model@;
        let mut kept: Vec<StoredBucket> = Vec::new();
        while rest.len() > 0
            invariant
                rest@.len() <= total,
                total == all.len(),
                rest@ == all.take(rest@.len() as int),
                forall|j: int|
                    0 <= j < kept@.len() ==> now <= (#[trigger] kept@[j]).expires_at && exists|i: int|
                        rest@.len() <= i < total && all[i] == kept@[j],
                forall|i: int|
                    rest@.len() <= i < total && now <= (#[trigger] all[i]).expires_at ==> exists|
                        j: int,
                    | 0 <= j < kept@.len() && kept@[j] == all[i],
                forall|i: int, j: int|
                    0 <= i < all.len() && 0 <= j < all.len() && (#[trigger] all[i]).key@ == (
                    #[trigger] all[j]).key@ ==> i == j,
                forall|a: int, b: int|
                    0 <= a < kept@.len() && 0 <= b < kept@.len() && (#[trigger] kept@[a]).key@ == (
                    #[trigger] kept@[b]).key@ ==> a == b,
            decreases rest@.len(),
        {
            let ghost m = rest@.len() - 1;
            let ghost before = kept@;
            let entry = rest.pop().unwrap();
            assert(entry == all[m]);
            assert(rest@ =~= all.take(m));
            if now <= entry.expires_at {
                kept.push(entry);
                assert forall|j: int| 0 <= j < kept@.len() implies now <= (
                #[trigger] kept@[j]).expires_at && exists|i: int|
                    rest@.len() <= i < total && all[i] == kept@[j] by {
                    if j < before.len() {
                        assert(kept@[j] == before[j]);
                        let i = choose|i: int| m + 1 <= i < total && all[i] == before[j];
                        assert(all[i] == kept@[j]);
                    } else {
                        assert(all[m] == kept@[j]);
                    }
                }
                assert forall|i: int|
                    rest@.len() <= i < total && now <= (#[trigger] all[i]).expires_at implies exists|
                    j: int,
                | 0 <= j < kept@.len() && kept@[j] == all[i] by {
                    if i == m {
                        assert(kept@[before.len() as int] == all[i]);
                    } else {
                        let j = choose|j: int| 0 <= j < before.len() && before[j] == all[i];
                        assert(kept@[j] == all[i]);
                    }
                }
                assert forall|a: int, b: int|
                    0 <= a < kept@.len() && 0 <= b < kept@.len() && (#[trigger] kept@[a]).key@ == (
                    #[trigger] kept@[b]).key@ implies a == b by {
                    if a < before.len() && b < before.len() {
                        assert(before[a].key@ == before[b].key@);
                    } else if a < before.len() {
                        let i = choose|i: int| m + 1 <= i < total && all[i] == before[a];
                        assert(all[i].key@ == all[m].key@);
                    } else if b < before.len() {
                        let i = choose|i: int| m + 1 <= i < total && all[i] == before[b];
                        assert(all[i].key@ == all[m].key@);
                    }
                }
            } else {
                assert forall|j: int| 0 <= j < kept@.len() implies now <= (
                #[trigger] kept@[j]).expires_at && exists|i: int|
                    rest@.len() <= i < total && all[i] == kept@[j] by {
                    let i = choose|i: int| m + 1 <= i < total && all[i] == kept@[j];
                    assert(all[i] == kept@[j]);
                }
            }
        }
        let ghost next = swept(held, now as nat);
        assert(consistent(kept@, next)) by {
            assert forall|j: int| 0 <= j < kept@.len() implies next.contains_key(
                (#[trigger] kept@[j]).key@,
            ) && next[kept@[j].key@] == kept@[j].model() by {
                let i = choose|i: int| 0 <= i < total && all[i] == kept@[j];
                assert(held[all[i].key@] == all[i].model());
            }
            assert forall|k: Seq<char>| #[trigger] next.contains_key(k) implies exists|j: int|
                0 <= j < kept@.len() && (#[trigger] kept@[j]).key@ == k by {
                let i = choose|i: int| 0 <= i < total && (#[trigger] all[i]).key@ == k;
                assert(held[all[i].key@] == all[i].model());
                assert(now <= all[i].expires_at);
                let j = choose|j: int| 0 <= j < kept@.len() && kept@[j] == all[i];
                assert(kept@[j].key@ == k);
            }
        }
        *self = BucketStore { entries: kept, model: Ghost(next) };
    }
}

} // verus!
