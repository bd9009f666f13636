//! What holds of the quota gate over whole runs of reservations and of
//! attempts.

use crate::quota::{
    counter_after_reserve, counter_at, counter_key, failures_after, gives_up, key_prefix,
    reserve_grants, store_after_reserve, DailyCounter, RetryPolicy,
};
use vstd::prelude::*;

verus! {

/// The counter after `n` reservations in a row.
pub open spec fn counter_after_reserves(
    counter: Option<DailyCounter>,
    max_per_day: u64,
    n: nat,
) -> Option<DailyCounter>
    decreases n,
{
    if n == 0 {
        counter
    } else {
        counter_after_reserve(
            counter_after_reserves(counter, max_per_day, (n - 1) as nat),
            max_per_day,
        )
    }
}

/// How many of the first `n` reservations in a row are granted.
pub open spec fn grants_among(counter: Option<DailyCounter>, max_per_day: u64, n: nat) -> nat
    decreases n,
{
    if n == 0 {
        0
    } else {
        let earlier = grants_among(counter, max_per_day, (n - 1) as nat);
        if reserve_grants(counter_after_reserves(counter, max_per_day, (n - 1) as nat), max_per_day) {
            earlier + 1
        } else {
            earlier
        }
    }
}

/// A counter from which reservations alone cannot overshoot: a missing one
/// under a maximum of at least 1, or one that reads 0 or more.
pub open spec fn starts_within_quota(counter: Option<DailyCounter>, max_per_day: u64) -> bool {
    match counter {
        None => max_per_day >= 1,
        Some(c) => c.value >= 0,
    }
}

/// Every grant moves the counter up by exactly one, and a counter that
/// was moved by a grant never reads more than the maximum.
pub proof fn lemma_counter_tracks_grants(counter: Option<DailyCounter>, max_per_day: u64, n: nat)
    requires
        starts_within_quota(counter, max_per_day),
    ensures
        ({
            let end = counter_after_reserves(counter, max_per_day, n);
            let granted = grants_among(counter, max_per_day, n);
            &&& end is None ==> n == 0 && granted == 0
            &&& end matches Some(c) ==> {
                &&& c.value >= 0
                &&& granted > 0 ==> c.value <= max_per_day
                &&& counter matches Some(c0) ==> c.value == c0.value + granted
                &&& counter is None ==> n >= 1 && c.value == granted
            }
        }),
    decreases n,
{
    if n > 0 {
        lemma_counter_tracks_grants(counter, max_per_day, (n - 1) as nat);
    }
}

/// The quota is never exceeded: among any number of reservations in a row
/// on one day's counter, at most `max_per_day` are granted.
pub proof fn lemma_grants_never_exceed_quota(
    counter: Option<DailyCounter>,
    max_per_day: u64,
    n: nat,
)
    requires
        starts_within_quota(counter, max_per_day),
    ensures
        grants_among(counter, max_per_day, n) <= max_per_day,
{
    lemma_counter_tracks_grants(counter, max_per_day, n);
}

/// Once `max_per_day` reservations were granted, the next one is refused.
pub proof fn lemma_refused_once_quota_is_used(
    counter: Option<DailyCounter>,
    max_per_day: u64,
    n: nat,
)
    requires
        starts_within_quota(counter, max_per_day),
        grants_among(counter, max_per_day, n) == max_per_day,
    ensures
        !reserve_grants(counter_after_reserves(counter, max_per_day, n), max_per_day),
{
    lemma_counter_tracks_grants(counter, max_per_day, n);
}

/// The count of grants never goes down as more reservations are made.
pub proof fn lemma_grants_grow_with_calls(
    counter: Option<DailyCounter>,
    max_per_day: u64,
    n: nat,
    m: nat,
)
    requires
        n <= m,
    ensures
        grants_among(counter, max_per_day, n) <= grants_among(counter, max_per_day, m),
    decreases m,
{
    if n < m {
        lemma_grants_grow_with_calls(counter, max_per_day, n, (m - 1) as nat);
    }
}

/// On a day that starts without a counter, or with one that reads 0, the
/// first `max_per_day` reservations are granted and every later one is
/// refused.
pub proof fn lemma_fresh_day_grants_exactly_quota(
    counter: Option<DailyCounter>,
    max_per_day: u64,
    n: nat,
)
    requires
        1 <= max_per_day <= i64::MAX,
        counter matches Some(c) ==> c.value == 0,
    ensures
        grants_among(counter, max_per_day, n) == if n <= max_per_day {
            n
        } else {
            max_per_day as nat
        },
        n >= 1 ==> reserve_grants(
            counter_after_reserves(counter, max_per_day, (n - 1) as nat),
            max_per_day,
        ) == (n <= max_per_day),
    decreases n,
{
    if n > 0 {
        lemma_fresh_day_grants_exactly_quota(counter, max_per_day, (n - 1) as nat);
        lemma_counter_tracks_grants(counter, max_per_day, (n - 1) as nat);
    }
}

/// A reservation never pushes a counter over the maximum: afterwards the
/// counter reads at most `max_per_day`, or it was left as it stood. (A
/// counter may stand above the maximum where another writer put it there.)
pub proof fn lemma_reservation_never_pushes_over(counter: Option<DailyCounter>, max_per_day: u64)
    requires
        counter is None ==> max_per_day >= 1,
    ensures
        counter_after_reserve(counter, max_per_day) == counter || (counter_after_reserve(
            counter,
            max_per_day,
        ) matches Some(c) && c.value <= max_per_day),
        counter_after_reserve(counter, max_per_day) is Some,
        !reserve_grants(counter, max_per_day) ==> counter_after_reserve(counter, max_per_day)
            == counter,
{
}

/// A reservation under a key acts on the counter under that key as a
/// reservation on that counter does, and on no other.
pub proof fn lemma_reservation_acts_on_its_counter(
    counters: Map<Seq<char>, DailyCounter>,
    key: Seq<char>,
    other: Seq<char>,
    max_per_day: u64,
)
    ensures
        counter_at(store_after_reserve(counters, key, max_per_day), key) == counter_after_reserve(
            counter_at(counters, key),
            max_per_day,
        ),
        other != key ==> counter_at(store_after_reserve(counters, key, max_per_day), other)
            == counter_at(counters, other),
{
}

/// Two days never share a key.
pub proof fn lemma_keys_differ_by_day(day_a: Seq<char>, day_b: Seq<char>)
    ensures
        counter_key(day_a) == counter_key(day_b) <==> day_a == day_b,
{
    let n = key_prefix().len() as int;
    if counter_key(day_a) == counter_key(day_b) {
        assert(counter_key(day_a).subrange(n, n + day_a.len()) =~= day_a);
        assert(counter_key(day_b).subrange(n, n + day_b.len()) =~= day_b);
        assert(counter_key(day_a).len() == n + day_a.len());
        assert(counter_key(day_b).len() == n + day_b.len());
    }
}

/// Days are isolated: a reservation made for one day changes neither the
/// counter of another day nor the answer to a reservation made for it, and
/// reservations for two days may be made in either order.
pub proof fn lemma_days_are_isolated(
    counters: Map<Seq<char>, DailyCounter>,
    day_a: Seq<char>,
    max_a: u64,
    day_b: Seq<char>,
    max_b: u64,
)
    requires
        day_a != day_b,
    ensures
        counter_at(store_after_reserve(counters, counter_key(day_a), max_a), counter_key(day_b))
            == counter_at(counters, counter_key(day_b)),
        reserve_grants(
            counter_at(
                store_after_reserve(counters, counter_key(day_a), max_a),
                counter_key(day_b),
            ),
            max_b,
        ) == reserve_grants(counter_at(counters, counter_key(day_b)), max_b),
        store_after_reserve(
            store_after_reserve(counters, counter_key(day_a), max_a),
            counter_key(day_b),
            max_b,
        ) == store_after_reserve(
            store_after_reserve(counters, counter_key(day_b), max_b),
            counter_key(day_a),
            max_a,
        ),
{
    lemma_keys_differ_by_day(day_a, day_b);
    let key_a = counter_key(day_a);
    let key_b = counter_key(day_b);
    let after_a = store_after_reserve(counters, key_a, max_a);
    let after_b = store_after_reserve(counters, key_b, max_b);
    assert(counter_at(after_a, key_b) == counter_at(counters, key_b));
    assert(counter_at(after_b, key_a) == counter_at(counters, key_a));
    assert(store_after_reserve(after_a, key_b, max_b) =~= store_after_reserve(
        after_b,
        key_a,
        max_a,
    ));
}

/// How a bounded retry ends.
pub enum RetryVerdict {
    /// An attempt succeeded; `attempts` were made, that one included.
    Succeeded { attempts: nat },
    /// The last allowed attempt failed; `attempts` were made.
    GaveUp { attempts: nat },
    /// Every attempt so far failed and another one is allowed.
    Pending,
}

/// How a retry that has counted `failures` failures ends when its next
/// attempts turn out as `failed` says (`true`: that attempt fails).
/// Attempts after the one that settles the retry are never made.
pub open spec fn retry_verdict(policy: RetryPolicy, failures: u32, failed: Seq<bool>) -> RetryVerdict
    decreases failed.len(),
{
    if failed.len() == 0 {
        RetryVerdict::Pending
    } else if !failed[0] {
        RetryVerdict::Succeeded { attempts: 1 }
    } else if gives_up(policy, failures) {
        RetryVerdict::GaveUp { attempts: 1 }
    } else {
        match retry_verdict(policy, failures_after(policy, failures), failed.drop_first()) {
            RetryVerdict::Succeeded { attempts } => RetryVerdict::Succeeded {
                attempts: attempts + 1,
            },
            RetryVerdict::GaveUp { attempts } => RetryVerdict::GaveUp { attempts: attempts + 1 },
            RetryVerdict::Pending => RetryVerdict::Pending,
        }
    }
}

/// If the first `k` attempts fail, with `k` below the bound, and the next
/// one succeeds, the retry succeeds after exactly `k + 1` attempts.
pub proof fn lemma_retry_succeeds_within_bound(
    policy: RetryPolicy,
    failures: u32,
    failed: Seq<bool>,
    k: nat,
)
    requires
        failures + k < policy.max_attempts,
        k < failed.len(),
        forall|i: int| 0 <= i < k ==> failed[i],
        !failed[k as int],
    ensures
        retry_verdict(policy, failures, failed) == (RetryVerdict::Succeeded { attempts: k + 1 }),
    decreases k,
{
    if k > 0 {
        let rest = failed.drop_first();
        assert(forall|i: int| 0 <= i < k - 1 ==> rest[i] == failed[i + 1]);
        assert(rest[k - 1] == failed[k as int]);
        lemma_retry_succeeds_within_bound(
            policy,
            failures_after(policy, failures),
            rest,
            (k - 1) as nat,
        );
    }
}

/// If attempt after attempt fails, the retry gives up after exactly as
/// many attempts as the bound allows (one, where the bound is 0), however
/// many more would have failed.
pub proof fn lemma_retry_gives_up_at_bound(policy: RetryPolicy, failures: u32, failed: Seq<bool>)
    requires
        failures <= policy.max_attempts,
        failed.len() >= policy.max_attempts - failures,
        failed.len() >= 1,
        forall|i: int| 0 <= i < policy.max_attempts - failures ==> failed[i],
        failed[0],
    ensures
        retry_verdict(policy, failures, failed) == (RetryVerdict::GaveUp {
            attempts: if policy.max_attempts - failures >= 1 {
                (policy.max_attempts - failures) as nat
            } else {
                1
            },
        }),
    decreases policy.max_attempts - failures,
{
    if !gives_up(policy, failures) {
        let rest = failed.drop_first();
        assert(forall|i: int| 0 <= i < rest.len() ==> rest[i] == failed[i + 1]);
        lemma_retry_gives_up_at_bound(policy, failures_after(policy, failures), rest);
    }
}

} // verus!
