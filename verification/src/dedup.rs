//! First-seen-wins deduplication of identities.

use vstd::hash_set::StringHashSet;
use vstd::prelude::*;
use vstd::string::StringExecFns;

verus! {

/// The identities admitted so far in one crawl run.
pub struct Deduplicator {
    seen: StringHashSet,
}

impl View for Deduplicator {
    type V = Set<Seq<char>>;

    closed spec fn view(&self) -> Set<Seq<char>> {
        self.seen@
    }
}

impl Deduplicator {
    /// A deduplicator that has seen nothing.
    pub fn new() -> (fresh: Deduplicator)
        ensures
            fresh@ == Set::<Seq<char>>::empty(),
    {
        Deduplicator { seen: StringHashSet::new() }
    }

    /// Whether `identity` was admitted before.
    pub fn has_seen(&self, identity: &str) -> (seen: bool)
        ensures
            seen == self@.contains(identity@),
    {
        self.seen.contains(identity)
    }

    /// Admits `identity` if it is new. Returns `true` exactly when it was
    /// not seen before; afterwards it counts as seen either way.
    pub fn admit_identity(&mut self, identity: &str) -> (admitted: bool)
        ensures
            admitted == !old(self)@.contains(identity@),
            final(self)@ == old(self)@.insert(identity@),
    {
        self.seen.insert(String::from_str(identity))
    }
}

/// The set of identities seen once every element of `identities` was
/// presented, in order, to a deduplicator that had seen `seen`.
pub open spec fn seen_after(seen: Set<Seq<char>>, identities: Seq<Seq<char>>) -> Set<Seq<char>>
    decreases identities.len(),
{
    if identities.len() == 0 {
        seen
    } else {
        seen_after(seen, identities.drop_last()).insert(identities.last())
    }
}

/// What `admit_identity` answers for the identity at position `i` when `identities`
/// are presented in order to a deduplicator that had seen `seen`.
pub open spec fn admitted_at(seen: Set<Seq<char>>, identities: Seq<Seq<char>>, i: int) -> bool
    recommends
        0 <= i < identities.len(),
{
    !seen_after(seen, identities.take(i)).contains(identities[i])
}

/// How many of the first `n` presentations are admitted.
pub open spec fn admitted_count(seen: Set<Seq<char>>, identities: Seq<Seq<char>>, n: nat) -> nat
    recommends
        n <= identities.len(),
    decreases n,
{
    if n == 0 {
        0
    } else {
        let before = admitted_count(seen, identities, (n - 1) as nat);
        if admitted_at(seen, identities, n - 1) {
            before + 1
        } else {
            before
        }
    }
}

/// After a run of presentations an identity counts as seen exactly when it
/// was seen before the run or occurs in it.
pub proof fn lemma_seen_after_members(
    seen: Set<Seq<char>>,
    identities: Seq<Seq<char>>,
    identity: Seq<char>,
)
    ensures
        seen_after(seen, identities).contains(identity) <==> (seen.contains(identity)
            || identities.contains(identity)),
    decreases identities.len(),
{
    if identities.len() > 0 {
        let front = identities.drop_last();
        lemma_seen_after_members(seen, front, identity);
        if identities.contains(identity) {
            let k = choose|k: int| 0 <= k < identities.len() && identities[k] == identity;
            if k < identities.len() - 1 {
                assert(front[k] == identity);
            }
        }
        if front.contains(identity) {
            let k = choose|k: int| 0 <= k < front.len() && front[k] == identity;
            assert(identities[k] == identity);
        }
        assert(identities[identities.len() - 1] == identities.last());
    }
}

/// First seen wins: a presentation is admitted exactly when its identity
/// was not seen before the run and does not occur earlier in the run.
pub proof fn lemma_admitted_iff_first_occurrence(
    seen: Set<Seq<char>>,
    identities: Seq<Seq<char>>,
    i: int,
)
    requires
        0 <= i < identities.len(),
    ensures
        admitted_at(seen, identities, i) <==> (!seen.contains(identities[i]) && forall|j: int|
            0 <= j < i ==> identities[j] != identities[i]),
{
    let earlier = identities.take(i);
    lemma_seen_after_members(seen, earlier, identities[i]);
    if earlier.contains(identities[i]) {
        let k = choose|k: int| 0 <= k < earlier.len() && earlier[k] == identities[i];
        assert(identities[k] == identities[i]);
    }
    if exists|j: int| 0 <= j < i && identities[j] == identities[i] {
        let j = choose|j: int| 0 <= j < i && identities[j] == identities[i];
        assert(earlier[j] == identities[i]);
    }
}

/// Presenting one identity again and again admits it at most once: exactly
/// once if it was new, never if it had been seen.
pub proof fn lemma_repeated_identity_admitted_once(
    seen: Set<Seq<char>>,
    identity: Seq<char>,
    times: nat,
)
    ensures
        admitted_count(seen, Seq::new(times, |k: int| identity), times) == if times > 0
            && !seen.contains(identity) {
            1nat
        } else {
            0nat
        },
{
    lemma_repeated_prefix_count(seen, identity, times, times);
}

proof fn lemma_repeated_prefix_count(
    seen: Set<Seq<char>>,
    identity: Seq<char>,
    times: nat,
    n: nat,
)
    requires
        n <= times,
    ensures
        admitted_count(seen, Seq::new(times, |k: int| identity), n) == if n > 0 && !seen.contains(
            identity,
        ) {
            1nat
        } else {
            0nat
        },
    decreases n,
{
    if n > 0 {
        let run = Seq::new(times, |k: int| identity);
        lemma_repeated_prefix_count(seen, identity, times, (n - 1) as nat);
        lemma_admitted_iff_first_occurrence(seen, run, n - 1);
        if n > 1 {
            assert(run[0] == run[n - 1]);
        }
    }
}

/// Whatever was seen before a presentation is still seen after it, and a
/// second presentation of the same identity changes nothing.
pub proof fn lemma_admit_is_idempotent(seen: Set<Seq<char>>, identity: Seq<char>)
    ensures
        seen.insert(identity).insert(identity) == seen.insert(identity),
        seen.insert(identity).contains(identity),
        seen.subset_of(seen.insert(identity)),
{
    assert(seen.insert(identity).insert(identity) =~= seen.insert(identity));
}

/// Exactly one presentation is admitted for each distinct identity that
/// was not seen before: the admissions among the first `n` presentations
/// are as many as the new identities among them.
pub proof fn lemma_one_admission_per_new_identity(
    seen: Set<Seq<char>>,
    identities: Seq<Seq<char>>,
    n: nat,
)
    requires
        n <= identities.len(),
    ensures
        identities.take(n as int).to_set().difference(seen).finite(),
        admitted_count(seen, identities, n) == identities.take(n as int).to_set().difference(
            seen,
        ).len(),
    decreases n,
{
    vstd::seq_lib::seq_to_set_is_finite(identities.take(n as int));
    if n == 0 {
        assert(identities.take(0).to_set().difference(seen) =~= Set::<Seq<char>>::empty());
    } else {
        let earlier = identities.take(n - 1);
        let latest = identities[n - 1];
        let before = earlier.to_set().difference(seen);
        let after = identities.take(n as int).to_set().difference(seen);
        lemma_one_admission_per_new_identity(seen, identities, (n - 1) as nat);
        lemma_seen_after_members(seen, earlier, latest);
        assert(identities.take(n as int) =~= earlier.push(latest));
        assert forall|x: Seq<char>| identities.take(n as int).contains(x) <==> (earlier.contains(x)
            || x == latest) by {
            if earlier.contains(x) {
                let k = choose|k: int| 0 <= k < earlier.len() && earlier[k] == x;
                assert(identities.take(n as int)[k] == x);
            }
            if x == latest {
                assert(identities.take(n as int)[n - 1] == x);
            }
            if identities.take(n as int).contains(x) {
                let k = choose|k: int|
                    0 <= k < identities.take(n as int).len() && identities.take(n as int)[k] == x;
                if k < n - 1 {
                    assert(earlier[k] == x);
                }
            }
        }
        if admitted_at(seen, identities, n - 1) {
            assert(!before.contains(latest));
            assert(after =~= before.insert(latest));
        } else {
            assert(after =~= before);
        }
    }
}

} // verus!
