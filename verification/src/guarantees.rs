//! What the token bucket promises over whole sequences of requests.
//!
//! A sequence of requests against one bucket is given by the times at which
//! the store serves them, one after the other: the store serves each request
//! as one indivisible step, so whatever the callers do at the same moment,
//! what the bucket sees is such a sequence.
use crate::bucket::{
    consume_model, full_level, refill, retry_after_of, BucketModel, OutcomeModel,
    MILLIS_PER_SECOND, UNITS_PER_TOKEN,
};
use crate::policy::{idle_expiry_of, PolicyModel};
use crate::store::{expiry_after, live_bucket, serve_model, StoredModel};
use vstd::prelude::*;

verus! {

/// The bucket after the requests at `times` have been served in order.
pub open spec fn run(stored: Option<BucketModel>, policy: PolicyModel, times: Seq<nat>) -> Option<
    BucketModel,
>
    decreases times.len(),
{
    if times.len() == 0 {
        stored
    } else {
        Some(consume_model(run(stored, policy, times.drop_last()), policy, times.last()).0)
    }
}

/// The answer to request number `k`, counted from zero.
pub open spec fn outcome_at(
    stored: Option<BucketModel>,
    policy: PolicyModel,
    times: Seq<nat>,
    k: int,
) -> OutcomeModel {
    consume_model(run(stored, policy, times.take(k)), policy, times[k]).1
}

/// How many of the requests at `times` are admitted.
pub open spec fn admitted(stored: Option<BucketModel>, policy: PolicyModel, times: Seq<nat>) -> nat
    decreases times.len(),
{
    if times.len() == 0 {
        0
    } else {
        admitted(stored, policy, times.drop_last()) + if outcome_at(
            stored,
            policy,
            times,
            times.len() - 1,
        ).allowed {
            1nat
        } else {
            0nat
        }
    }
}

/// All requests arrive at the one moment `now`.
pub open spec fn all_at(times: Seq<nat>, now: nat) -> bool {
    forall|i: int| 0 <= i < times.len() ==> times[i] == now
}

/// No request is served at an earlier time than the one before it.
pub open spec fn in_time_order(times: Seq<nat>) -> bool {
    forall|i: int, j: int| 0 <= i <= j < times.len() ==> times[i] <= times[j]
}

/// Whatever the bucket was, after a request it holds no more than a full
/// bucket; an admitted request reports fewer tokens left than the capacity
/// and no wait; a refused one reports no tokens and a wait of 1 to 60 seconds.
pub proof fn law_outcome_bounds(stored: Option<BucketModel>, policy: PolicyModel, now: nat)
    requires
        policy.positive(),
    ensures
        ({
            let (b, o) = consume_model(stored, policy, now);
            &&& b.level <= full_level(policy.capacity)
            &&& b.last_refill_at >= now
            &&& o.allowed ==> o.remaining < policy.capacity && o.retry_after_seconds == 0
            &&& !o.allowed ==> o.remaining == 0 && 1 <= o.retry_after_seconds <= 60
        }),
{
    let (b, o) = consume_model(stored, policy, now);
    if !o.allowed {
        lemma_retry_after_bounds(b.level, policy.refill_per_minute);
    }
}

/// The wait reported for a bucket below one token is at least one second and
/// at most a minute, and it is the least number of whole seconds after which
/// the bucket holds a token.
pub proof fn lemma_retry_after_bounds(level: nat, refill: nat)
    requires
        level < UNITS_PER_TOKEN,
        refill > 0,
    ensures
        1 <= retry_after_of(level, refill) <= 60,
        level + retry_after_of(level, refill) * MILLIS_PER_SECOND * refill >= UNITS_PER_TOKEN,
        level + (retry_after_of(level, refill) - 1) * MILLIS_PER_SECOND * refill
            < UNITS_PER_TOKEN,
{
    let d: int = 1000 * (refill as int);
    let x: int = 60000 - level + d - 1;
    assert(d > 0);
    assert(x >= d);
    assert(x < 61 * d);
    let q: int = x / d;
    assert(retry_after_of(level, refill) == q);
    assert(1 <= q <= 60 && q * d <= x && x < q * d + d) by (nonlinear_arith)
        requires
            d > 0,
            x >= d,
            x < 61 * d,
            q == x / d,
    ;
    assert(q * 1000 * refill == q * d) by (nonlinear_arith)
        requires
            d == 1000 * refill,
    ;
    assert((q - 1) * 1000 * refill == q * d - d) by (nonlinear_arith)
        requires
            d == 1000 * refill,
    ;
}

/// The wait that a refused request is told is true and tight: the bucket
/// left alone, a request after that many seconds is admitted, and a request
/// one second earlier would still be refused.
pub proof fn law_retry_after_is_exact(stored: Option<BucketModel>, policy: PolicyModel, now: nat)
    requires
        policy.positive(),
        !consume_model(stored, policy, now).1.allowed,
    ensures
        ({
            let (b, refused) = consume_model(stored, policy, now);
            let wait = refused.retry_after_seconds;
            let at = b.last_refill_at;
            &&& wait >= 1
            &&& consume_model(Some(b), policy, at + wait * MILLIS_PER_SECOND as nat).1.allowed
            &&& !consume_model(
                Some(b),
                policy,
                at + ((wait - 1) as nat) * MILLIS_PER_SECOND as nat,
            ).1.allowed
        }),
{
    let (b, refused) = consume_model(stored, policy, now);
    let wait = refused.retry_after_seconds;
    let r = policy.refill_per_minute;
    lemma_retry_after_bounds(b.level, r);
    assert(full_level(policy.capacity) >= UNITS_PER_TOKEN);
    let soon: nat = b.last_refill_at + wait * 1000;
    let sooner: nat = b.last_refill_at + ((wait - 1) as nat) * 1000;
    assert(soon - b.last_refill_at == wait * 1000);
    assert(sooner - b.last_refill_at == (wait - 1) * 1000);
}

/// The level of a fresh bucket after `n` requests at one moment: one token
/// less per request until none is left.
pub open spec fn level_after_burst(capacity: nat, n: nat) -> nat {
    if n <= capacity {
        ((capacity - n) * UNITS_PER_TOKEN) as nat
    } else {
        0
    }
}

/// The bucket of a fresh key after one or more requests at the moment `now`.
pub proof fn lemma_burst_state(policy: PolicyModel, times: Seq<nat>, now: nat)
    requires
        policy.positive(),
        all_at(times, now),
        times.len() >= 1,
    ensures
        run(None, policy, times) == Some(
            BucketModel {
                level: level_after_burst(policy.capacity, times.len()),
                last_refill_at: now,
            },
        ),
    decreases times.len(),
{
    let earlier = times.drop_last();
    assert(times.last() == now);
    assert(0 * policy.refill_per_minute == 0) by (nonlinear_arith);
    if times.len() == 1 {
        assert(run(None, policy, earlier) == None::<BucketModel>);
    } else {
        lemma_burst_state(policy, earlier, now);
    }
}

/// The answer to request number `k` of a burst on a fresh key: admitted
/// while tokens last, refused from then on.
pub proof fn lemma_burst_outcome(policy: PolicyModel, times: Seq<nat>, now: nat, k: int)
    requires
        policy.positive(),
        all_at(times, now),
        0 <= k < times.len(),
    ensures
        k < policy.capacity ==> outcome_at(None, policy, times, k) == (OutcomeModel {
            allowed: true,
            remaining: (policy.capacity - 1 - k) as nat,
            retry_after_seconds: 0,
        }),
        k >= policy.capacity ==> outcome_at(None, policy, times, k) == (OutcomeModel {
            allowed: false,
            remaining: 0,
            retry_after_seconds: retry_after_of(0, policy.refill_per_minute),
        }),
{
    let before = times.take(k);
    assert(times[k] == now);
    assert(0 * policy.refill_per_minute == 0) by (nonlinear_arith);
    if k == 0 {
        assert(run(None, policy, before) == None::<BucketModel>);
    } else {
        lemma_burst_state(policy, before, now);
    }
}

/// A burst no longer than the capacity, on a key never seen before, is
/// admitted whole, and each answer reports one token less than the one
/// before: request number `k`, counted from zero, leaves `capacity - 1 - k`.
pub proof fn law_burst_within_capacity_is_admitted(
    policy: PolicyModel,
    times: Seq<nat>,
    now: nat,
    k: int,
)
    requires
        policy.positive(),
        all_at(times, now),
        times.len() <= policy.capacity,
        0 <= k < times.len(),
    ensures
        outcome_at(None, policy, times, k) == (OutcomeModel {
            allowed: true,
            remaining: (policy.capacity - 1 - k) as nat,
            retry_after_seconds: 0,
        }),
        k + 1 < times.len() ==> outcome_at(None, policy, times, k + 1).remaining + 1
            == outcome_at(None, policy, times, k).remaining,
{
    lemma_burst_outcome(policy, times, now, k);
    if k + 1 < times.len() {
        lemma_burst_outcome(policy, times, now, k + 1);
    }
}

/// Once a burst has used up a fresh bucket, every further request at that
/// moment is refused, and told to wait the time one token takes to flow in,
/// which is at least a second.
pub proof fn law_burst_beyond_capacity_is_refused(
    policy: PolicyModel,
    times: Seq<nat>,
    now: nat,
    k: int,
)
    requires
        policy.positive(),
        all_at(times, now),
        policy.capacity <= k < times.len(),
    ensures
        outcome_at(None, policy, times, k) == (OutcomeModel {
            allowed: false,
            remaining: 0,
            retry_after_seconds: retry_after_of(0, policy.refill_per_minute),
        }),
        outcome_at(None, policy, times, k).retry_after_seconds > 0,
{
    lemma_burst_outcome(policy, times, now, k);
    lemma_retry_after_bounds(0, policy.refill_per_minute);
}

/// Of any number of requests that reach a fresh bucket at one moment, in
/// whatever order the store serves them, exactly as many are admitted as the
/// bucket holds tokens, or all of them if they are fewer. Of twice the
/// capacity, exactly the capacity.
pub proof fn law_burst_admits_exactly_capacity(policy: PolicyModel, times: Seq<nat>, now: nat)
    requires
        policy.positive(),
        all_at(times, now),
    ensures
        times.len() <= policy.capacity ==> admitted(None, policy, times) == times.len(),
        times.len() >= policy.capacity ==> admitted(None, policy, times) == policy.capacity,
        times.len() == 2 * policy.capacity ==> admitted(None, policy, times) == policy.capacity,
    decreases times.len(),
{
    if times.len() > 0 {
        let earlier = times.drop_last();
        law_burst_admits_exactly_capacity(policy, earlier, now);
        lemma_burst_outcome(policy, times, now, times.len() - 1);
    }
}

/// After a burst has emptied a fresh bucket, a wait long enough for one token
/// to flow in, but not for two, is rewarded with exactly one admitted
/// request: it leaves nothing, and the next request at that moment is
/// refused. At `r` tokens per minute the shortest such wait is `60 / r`
/// seconds.
pub proof fn law_one_token_returns_after_wait(
    policy: PolicyModel,
    times: Seq<nat>,
    emptied_at: nat,
    wait: nat,
)
    requires
        policy.positive(),
        all_at(times, emptied_at),
        times.len() >= policy.capacity,
        UNITS_PER_TOKEN <= wait * policy.refill_per_minute < 2 * UNITS_PER_TOKEN,
    ensures
        ({
            let later = emptied_at + wait;
            let trace = times.push(later).push(later);
            &&& outcome_at(None, policy, trace, times.len() as int) == (OutcomeModel {
                allowed: true,
                remaining: 0,
                retry_after_seconds: 0,
            })
            &&& !outcome_at(None, policy, trace, times.len() as int + 1).allowed
            &&& outcome_at(None, policy, trace, times.len() as int + 1).retry_after_seconds > 0
        }),
{
    let later = emptied_at + wait;
    let n = times.len() as int;
    let trace = times.push(later).push(later);
    let upto = times.push(later);
    lemma_burst_state(policy, times, emptied_at);
    assert(trace.take(n) =~= times);
    assert(trace.take(n + 1) =~= upto);
    assert(upto.drop_last() =~= times);
    assert(upto.last() == later);
    assert(trace[n] == later && trace[n + 1] == later);
    let emptied = BucketModel { level: 0, last_refill_at: emptied_at };
    assert(run(None, policy, times) == Some(emptied));
    let (after_one, first) = consume_model(Some(emptied), policy, later);
    assert(run(None, policy, upto) == Some(after_one));
    assert(first.allowed && first.remaining == 0 && after_one.level < UNITS_PER_TOKEN);
    assert(0 * policy.refill_per_minute == 0) by (nonlinear_arith);
    law_outcome_bounds(Some(after_one), policy, later);
}

/// Within one moment nothing flows in: a second request at the time of the
/// first finds the bucket exactly as the first left it, is admitted if and
/// only if a whole token was left, and on a fresh key reports one token less
/// than the first did.
pub proof fn law_no_refill_within_a_moment(
    stored: Option<BucketModel>,
    policy: PolicyModel,
    now: nat,
)
    requires
        policy.positive(),
    ensures
        ({
            let (first, first_answer) = consume_model(stored, policy, now);
            let (second, second_answer) = consume_model(Some(first), policy, now);
            &&& refill(first, policy, now) == first
            &&& second_answer.allowed == (first.level >= UNITS_PER_TOKEN)
            &&& second.level == if second_answer.allowed {
                first.level - UNITS_PER_TOKEN
            } else {
                first.level as int
            }
            &&& stored is None && policy.capacity >= 2 ==> second_answer.allowed
                && second_answer.remaining + 1 == first_answer.remaining
            &&& stored is None && policy.capacity == 1 ==> !second_answer.allowed
        }),
{
    assert(0 * policy.refill_per_minute == 0) by (nonlinear_arith);
}

/// The bucket after one or more requests in time order on a fresh key, and
/// the account of tokens: what was admitted and what is left never exceed a
/// full bucket and what has flowed in since the first request.
pub proof fn lemma_supply_account(policy: PolicyModel, times: Seq<nat>)
    requires
        policy.positive(),
        in_time_order(times),
        times.len() >= 1,
    ensures
        run(None, policy, times) is Some,
        run(None, policy, times)->Some_0.last_refill_at == times.last(),
        admitted(None, policy, times) * UNITS_PER_TOKEN + run(
            None,
            policy,
            times,
        )->Some_0.level <= full_level(policy.capacity) + (times.last() - times[0])
            * policy.refill_per_minute,
    decreases times.len(),
{
    let earlier = times.drop_last();
    let t = times.last();
    let r = policy.refill_per_minute;
    assert(times.take(times.len() - 1) =~= earlier);
    assert(0 * r == 0) by (nonlinear_arith);
    if times.len() == 1 {
        assert(run(None, policy, earlier) == None::<BucketModel>);
        assert(admitted(None, policy, earlier) == 0);
    } else {
        lemma_supply_account(policy, earlier);
        let before = run(None, policy, earlier)->Some_0;
        let p = earlier.last();
        assert(p == times[times.len() - 2]);
        assert(p <= t);
        assert(earlier[0] == times[0]);
        assert((p - times[0]) * r + (t - p) * r == (t - times[0]) * r) by (nonlinear_arith);
    }
}

/// However the requests on a fresh key are spread over time, no more are
/// admitted than a full bucket holds and the refill has supplied between the
/// first request and the last.
pub proof fn law_admitted_is_bounded_by_supply(policy: PolicyModel, times: Seq<nat>)
    requires
        policy.positive(),
        in_time_order(times),
        times.len() >= 1,
    ensures
        admitted(None, policy, times) * UNITS_PER_TOKEN <= full_level(policy.capacity) + (
        times.last() - times[0]) * policy.refill_per_minute,
{
    lemma_supply_account(policy, times);
}

/// Each request comes at least `gap` milliseconds after the one before it.
pub open spec fn spaced(times: Seq<nat>, gap: nat) -> bool {
    forall|i: int| 0 <= i < times.len() - 1 ==> times[i] + gap <= #[trigger] times[i + 1]
}

/// The bucket after one or more spaced requests on a fresh key has been
/// refilled up to the last of them.
pub proof fn lemma_spaced_run(policy: PolicyModel, times: Seq<nat>, gap: nat)
    requires
        spaced(times, gap),
        times.len() >= 1,
    ensures
        run(None, policy, times) is Some,
        run(None, policy, times)->Some_0.last_refill_at == times.last(),
    decreases times.len(),
{
    let earlier = times.drop_last();
    if times.len() == 1 {
        assert(run(None, policy, earlier) == None::<BucketModel>);
    } else {
        assert forall|i: int| 0 <= i < earlier.len() - 1 implies earlier[i] + gap
            <= #[trigger] earlier[i + 1] by {
            assert(earlier[i + 1] == times[i + 1]);
        }
        lemma_spaced_run(policy, earlier, gap);
        assert(earlier.last() + gap <= times[times.len() - 2 + 1]);
    }
}

/// A caller on a fresh key who keeps to the refill rate is never refused:
/// if every request comes at least the time of one token's refill after the
/// one before it, all of them are admitted.
pub proof fn law_steady_caller_is_never_refused(
    policy: PolicyModel,
    times: Seq<nat>,
    gap: nat,
    k: int,
)
    requires
        policy.positive(),
        spaced(times, gap),
        gap * policy.refill_per_minute >= UNITS_PER_TOKEN,
        0 <= k < times.len(),
    ensures
        outcome_at(None, policy, times, k).allowed,
{
    let before = times.take(k);
    let r = policy.refill_per_minute;
    assert(0 * r == 0) by (nonlinear_arith);
    if k == 0 {
        assert(run(None, policy, before) == None::<BucketModel>);
    } else {
        assert forall|i: int| 0 <= i < before.len() - 1 implies before[i] + gap
            <= #[trigger] before[i + 1] by {
            assert(before[i + 1] == times[i + 1]);
        }
        lemma_spaced_run(policy, before, gap);
        let b = run(None, policy, before)->Some_0;
        assert(before.last() == times[k - 1]);
        assert(times[k - 1] + gap <= times[k - 1 + 1]);
        let elapsed = (times[k] - b.last_refill_at) as nat;
        assert(elapsed * r >= gap * r) by (nonlinear_arith)
            requires
                elapsed >= gap,
        ;
    }
}

/// The idle time after which a bucket may be dropped is at least twice the
/// time an empty bucket takes to fill.
pub proof fn lemma_idle_expiry_covers_two_fills(capacity: nat, refill: nat)
    requires
        refill > 0,
    ensures
        idle_expiry_of(capacity, refill) * refill >= 120 * capacity,
{
    let x: int = 120 * capacity + refill - 1;
    let d: int = refill as int;
    let q: int = x / d;
    assert(x < q * d + d && q >= 0) by (nonlinear_arith)
        requires
            d > 0,
            x >= 0,
            q == x / d,
    ;
}

/// A bucket that has been idle for the expiry time of its policy is full
/// again, so a store that has dropped it answers as one that has kept it.
pub proof fn law_expiry_is_unobservable(b: BucketModel, policy: PolicyModel, now: nat)
    requires
        policy.positive(),
        now >= b.last_refill_at + idle_expiry_of(policy.capacity, policy.refill_per_minute)
            * MILLIS_PER_SECOND,
    ensures
        consume_model(Some(b), policy, now) == consume_model(None, policy, now),
{
    let r = policy.refill_per_minute;
    let e = idle_expiry_of(policy.capacity, r);
    let elapsed = (now - b.last_refill_at) as nat;
    lemma_idle_expiry_covers_two_fills(policy.capacity, r);
    assert(elapsed * r >= 1000 * (e * r)) by (nonlinear_arith)
        requires
            elapsed >= e * 1000,
    ;
    assert(0 * r == 0) by (nonlinear_arith);
}

/// The store after the requests for `key` at `times` have been served in
/// order.
pub open spec fn store_after(
    store: Map<Seq<char>, StoredModel>,
    key: Seq<char>,
    policy: PolicyModel,
    times: Seq<nat>,
) -> Map<Seq<char>, StoredModel>
    decreases times.len(),
{
    if times.len() == 0 {
        store
    } else {
        serve_model(store_after(store, key, policy, times.drop_last()), key, policy, times.last()).0
    }
}

/// The store's answer to request number `k` for `key`, counted from zero.
pub open spec fn store_outcome_at(
    store: Map<Seq<char>, StoredModel>,
    key: Seq<char>,
    policy: PolicyModel,
    times: Seq<nat>,
    k: int,
) -> OutcomeModel {
    serve_model(store_after(store, key, policy, times.take(k)), key, policy, times[k]).1
}

/// Every time can be told by the clock.
pub open spec fn on_the_clock(times: Seq<nat>) -> bool {
    forall|i: int| 0 <= i < times.len() ==> times[i] <= u64::MAX
}

/// What the store holds for a key after one or more requests in time order,
/// the key being new to it: the bucket that these requests leave, with the
/// expiry time reckoned from the last of them.
pub proof fn lemma_store_tracks_bucket(
    store: Map<Seq<char>, StoredModel>,
    key: Seq<char>,
    policy: PolicyModel,
    times: Seq<nat>,
)
    requires
        policy.positive(),
        in_time_order(times),
        on_the_clock(times),
        times.len() >= 1,
        !store.contains_key(key),
    ensures
        store_after(store, key, policy, times).contains_key(key),
        run(None, policy, times) == Some(store_after(store, key, policy, times)[key].bucket),
        store_after(store, key, policy, times)[key].expires_at == expiry_after(
            policy,
            times.last(),
        ),
    decreases times.len(),
{
    let earlier = times.drop_last();
    let t = times.last();
    if times.len() == 1 {
        assert(store_after(store, key, policy, earlier) == store);
        assert(run(None, policy, earlier) == None::<BucketModel>);
    } else {
        lemma_store_tracks_bucket(store, key, policy, earlier);
        lemma_supply_account(policy, earlier);
        let held = store_after(store, key, policy, earlier);
        let b = held[key].bucket;
        let p = earlier.last();
        assert(p == times[times.len() - 2]);
        assert(p <= t <= u64::MAX);
        if live_bucket(held, key, t) is None {
            law_expiry_is_unobservable(b, policy, t);
        }
    }
}

/// A store that forgets idle buckets answers every request exactly as the
/// bucket would that had been kept for ever: on a key new to the store, with
/// the requests served in time order, forgetting is never to be seen.
pub proof fn law_store_answers_as_the_bucket(
    store: Map<Seq<char>, StoredModel>,
    key: Seq<char>,
    policy: PolicyModel,
    times: Seq<nat>,
    k: int,
)
    requires
        policy.positive(),
        in_time_order(times),
        on_the_clock(times),
        !store.contains_key(key),
        0 <= k < times.len(),
    ensures
        store_outcome_at(store, key, policy, times, k) == outcome_at(None, policy, times, k),
{
    let before = times.take(k);
    if k == 0 {
        assert(store_after(store, key, policy, before) == store);
        assert(run(None, policy, before) == None::<BucketModel>);
    } else {
        assert(in_time_order(before));
        assert(on_the_clock(before));
        lemma_store_tracks_bucket(store, key, policy, before);
        lemma_supply_account(policy, before);
        let held = store_after(store, key, policy, before);
        let b = held[key].bucket;
        let t = times[k];
        assert(before.last() == times[k - 1]);
        assert(before.last() <= t <= u64::MAX);
        if live_bucket(held, key, t) is None {
            law_expiry_is_unobservable(b, policy, t);
        }
    }
}

/// Of any number of requests for one key that reach the store at one moment,
/// the key being new to it, the store lets through exactly those that come
/// while tokens last: request number `k`, counted from zero, is let through
/// if and only if `k` is less than the capacity.
pub proof fn law_store_lets_capacity_through(
    store: Map<Seq<char>, StoredModel>,
    key: Seq<char>,
    policy: PolicyModel,
    times: Seq<nat>,
    now: nat,
    k: int,
)
    requires
        policy.positive(),
        all_at(times, now),
        now <= u64::MAX,
        !store.contains_key(key),
        0 <= k < times.len(),
    ensures
        store_outcome_at(store, key, policy, times, k).allowed == (k < policy.capacity),
{
    law_store_answers_as_the_bucket(store, key, policy, times, k);
    lemma_burst_outcome(policy, times, now, k);
}

/// Serving a request for one key leaves the bucket of every other key as it
/// was.
pub proof fn law_other_buckets_are_untouched(
    store: Map<Seq<char>, StoredModel>,
    key: Seq<char>,
    other: Seq<char>,
    policy: PolicyModel,
    now: nat,
)
    requires
        key != other,
    ensures
        serve_model(store, key, policy, now).0.contains_key(other) == store.contains_key(other),
        store.contains_key(other) ==> serve_model(store, key, policy, now).0[other] == store[other],
{
}

} // verus!
