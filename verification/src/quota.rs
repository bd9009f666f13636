//! The daily send quota: what one reservation does to a day's counter, an
//! in-process counter store, and the quota check that decides.

use crate::error::{BotError, BotErrorView, ErrorKind};
use vstd::hash_map::StringHashMap;
use vstd::prelude::*;
use vstd::string::StringExecFns;

verus! {

/// Seconds a day's counter lives after its first increment.
pub const COUNTER_TTL_SECONDS: u64 = 86400;

/// What the store answers when an increment would leave the 64-bit range.
pub open spec fn overflow_detail() -> Seq<char> {
    "increment or decrement would overflow"@
}

/// One day's counter as the store holds it: the number of reservations and,
/// if an expiry is set, the seconds left until the key vanishes.
#[derive(Clone, Copy, Debug, PartialEq, Eq)]
pub struct DailyCounter {
    pub value: i64,
    pub ttl_seconds: Option<u64>,
}

/// What a reservation does to the counter after reading it.
#[derive(Clone, Copy, Debug, PartialEq, Eq)]
pub enum GateDecision {
    /// No counter yet: set it to 1 and set its expiry. A slot is granted.
    StartFresh,
    /// Below the maximum: add 1, and set the expiry again if the counter
    /// read 0. A slot is granted.
    Increment { refresh_expiry: bool },
    /// At or above the maximum: leave the counter alone. No slot.
    Exhausted,
}

impl GateDecision {
    /// Whether this decision grants a slot.
    pub open spec fn grants(self) -> bool {
        !(self is Exhausted)
    }

    /// Whether this decision grants a slot.
    pub fn is_grant(&self) -> (granted: bool)
        ensures
            granted == self.grants(),
    {
        match self {
            GateDecision::Exhausted => false,
            _ => true,
        }
    }
}

/// The decision for a counter that reads `observed` (`None`: no such key)
/// under a maximum of `max_per_day`.
pub open spec fn decision_for(observed: Option<i64>, max_per_day: u64) -> GateDecision {
    match observed {
        None => GateDecision::StartFresh,
        Some(count) => if (count as int) < (max_per_day as int) {
            GateDecision::Increment { refresh_expiry: count == 0 }
        } else {
            GateDecision::Exhausted
        },
    }
}

/// The value a counter reads, or `None` where there is no counter.
pub open spec fn reading(counter: Option<DailyCounter>) -> Option<i64> {
    match counter {
        None => None,
        Some(c) => Some(c.value),
    }
}

/// Whether carrying out `decision` on `counter` is refused by the store
/// because the counter already holds the largest 64-bit value.
pub open spec fn write_overflows(counter: Option<DailyCounter>, decision: GateDecision) -> bool {
    decision is Increment && counter is Some && counter->Some_0.value == i64::MAX
}

/// The counter once `decision` was carried out on it. A refused write
/// leaves it as it was.
pub open spec fn counter_after(
    counter: Option<DailyCounter>,
    decision: GateDecision,
) -> Option<DailyCounter> {
    match decision {
        GateDecision::StartFresh => Some(
            DailyCounter { value: 1, ttl_seconds: Some(COUNTER_TTL_SECONDS) },
        ),
        GateDecision::Increment { refresh_expiry } => {
            let refreshed: Option<u64> = Some(COUNTER_TTL_SECONDS);
            match counter {
                None => Some(
                    DailyCounter {
                        value: 1,
                        ttl_seconds: if refresh_expiry {
                            refreshed
                        } else {
                            None
                        },
                    },
                ),
                Some(c) => if c.value == i64::MAX {
                    counter
                } else {
                    Some(
                        DailyCounter {
                            value: (c.value + 1) as i64,
                            ttl_seconds: if refresh_expiry {
                                refreshed
                            } else {
                                c.ttl_seconds
                            },
                        },
                    )
                },
            }
        },
        GateDecision::Exhausted => counter,
    }
}

/// One whole reservation on a counter: read, decide, write.
pub open spec fn counter_after_reserve(
    counter: Option<DailyCounter>,
    max_per_day: u64,
) -> Option<DailyCounter> {
    counter_after(counter, decision_for(reading(counter), max_per_day))
}

/// Whether one whole reservation on `counter` is refused by the store.
pub open spec fn reserve_overflows(counter: Option<DailyCounter>, max_per_day: u64) -> bool {
    write_overflows(counter, decision_for(reading(counter), max_per_day))
}

/// Whether one whole reservation on `counter` grants a slot.
pub open spec fn reserve_grants(counter: Option<DailyCounter>, max_per_day: u64) -> bool {
    decision_for(reading(counter), max_per_day).grants() && !reserve_overflows(
        counter,
        max_per_day,
    )
}

/// The counter kept under `key`, if any.
pub open spec fn counter_at(
    counters: Map<Seq<char>, DailyCounter>,
    key: Seq<char>,
) -> Option<DailyCounter> {
    if counters.contains_key(key) {
        Some(counters[key])
    } else {
        None
    }
}

/// The store once the counter under `key` was replaced by `counter`.
pub open spec fn with_counter(
    counters: Map<Seq<char>, DailyCounter>,
    key: Seq<char>,
    counter: Option<DailyCounter>,
) -> Map<Seq<char>, DailyCounter> {
    match counter {
        Some(c) => counters.insert(key, c),
        None => counters.remove(key),
    }
}

/// The store after one whole reservation under `key`.
pub open spec fn store_after_reserve(
    counters: Map<Seq<char>, DailyCounter>,
    key: Seq<char>,
    max_per_day: u64,
) -> Map<Seq<char>, DailyCounter> {
    with_counter(counters, key, counter_after_reserve(counter_at(counters, key), max_per_day))
}

/// An in-process counter store: the counters by key, with the write
/// semantics that a reservation relies on.
pub struct CounterStore {
    counters: StringHashMap<DailyCounter>,
}

impl View for CounterStore {
    type V = Map<Seq<char>, DailyCounter>;

    closed spec fn view(&self) -> Map<Seq<char>, DailyCounter> {
        self.counters@
    }
}

impl CounterStore {
    /// A store without any counter.
    pub fn new() -> (store: CounterStore)
        ensures
            store@ == Map::<Seq<char>, DailyCounter>::empty(),
    {
        CounterStore { counters: StringHashMap::new() }
    }

    /// The counter kept under `key`, if any.
    pub fn counter(&self, key: &str) -> (found: Option<DailyCounter>)
        ensures
            found == counter_at(self@, key@),
    {
        match self.counters.get(key) {
            Some(c) => Some(*c),
            None => None,
        }
    }

    /// The value read under `key`: `None` where there is no counter.
    pub fn read(&self, key: &str) -> (observed: Option<i64>)
        ensures
            observed == reading(counter_at(self@, key@)),
    {
        match self.counters.get(key) {
            Some(c) => Some(c.value),
            None => None,
        }
    }

    /// Puts `counter` under `key`, replacing what was there.
    pub fn put(&mut self, key: &str, counter: DailyCounter)
        ensures
            final(self)@ == old(self)@.insert(key@, counter),
    {
        self.counters.insert(String::from_str(key), counter);
    }

    /// Carries out `decision` on the counter under `key`. An increment of
    /// the largest 64-bit value is refused and changes nothing.
    pub fn apply(&mut self, key: &str, decision: GateDecision) -> (done: Result<(), BotError>)
        ensures
            final(self)@ == with_counter(
                old(self)@,
                key@,
                counter_after(counter_at(old(self)@, key@), decision),
            ),
            done is Err <==> write_overflows(counter_at(old(self)@, key@), decision),
            done matches Err(e) ==> e@ == (BotErrorView {
                kind: ErrorKind::Redis,
                detail: overflow_detail(),
            }),
    {
        let current: Option<DailyCounter> = self.counter(key);
        match decision {
            GateDecision::StartFresh => {
                self.put(key, DailyCounter { value: 1, ttl_seconds: Some(COUNTER_TTL_SECONDS) });
                Ok(())
            },
            GateDecision::Increment { refresh_expiry } => {
                match current {
                    None => {
                        let ttl: Option<u64> = if refresh_expiry {
                            Some(COUNTER_TTL_SECONDS)
                        } else {
                            None
                        };
                        self.put(key, DailyCounter { value: 1, ttl_seconds: ttl });
                        Ok(())
                    },
                    Some(c) => {
                        if c.value == i64::MAX {
                            assert(self@ =~= old(self)@.insert(key@, c));
                            Err(
                                BotError::RedisError(
                                    String::from_str("increment or decrement would overflow"),
                                ),
                            )
                        } else {
                            let ttl: Option<u64> = if refresh_expiry {
                                Some(COUNTER_TTL_SECONDS)
                            } else {
                                c.ttl_seconds
                            };
                            self.put(key, DailyCounter { value: c.value + 1, ttl_seconds: ttl });
                            Ok(())
                        }
                    },
                }
            },
            GateDecision::Exhausted => {
                proof {
                    match current {
                        Some(c) => {
                            assert(self@ =~= old(self)@.insert(key@, c));
                        },
                        None => {
                            assert(self@ =~= old(self)@.remove(key@));
                        },
                    }
                }
                Ok(())
            },
        }
    }
}

/// How often a failing store is tried, and how long to wait in between.
#[derive(Clone, Copy, Debug, PartialEq, Eq)]
pub struct RetryPolicy {
    /// Attempts made before giving up, the first one included.
    pub max_attempts: u32,
    /// Milliseconds to wait before the next attempt.
    pub delay_millis: u64,
}

impl RetryPolicy {
    /// Five attempts, half a second apart.
    pub fn standard() -> (policy: RetryPolicy)
        ensures
            policy.max_attempts == 5,
            policy.delay_millis == 500,
    {
        RetryPolicy { max_attempts: 5, delay_millis: 500 }
    }
}

/// What to do after an attempt.
#[derive(Debug, PartialEq, Eq)]
pub enum RetryStep<T> {
    /// The attempt succeeded with this value.
    Done(T),
    /// The attempt failed: wait, then try again.
    RetryAfter { millis: u64 },
    /// The last allowed attempt failed with this report.
    GiveUp(String),
}

/// The failures counted after one more attempt has failed, given that
/// `failures` had failed before it.
pub open spec fn failures_after(policy: RetryPolicy, failures: u32) -> u32 {
    if failures < policy.max_attempts {
        (failures + 1) as u32
    } else {
        failures
    }
}

/// Whether the attempt that fails after `failures` earlier failures is
/// the last one allowed.
pub open spec fn gives_up(policy: RetryPolicy, failures: u32) -> bool {
    failures_after(policy, failures) >= policy.max_attempts
}

/// A bounded retry in progress: the policy and the failures so far.
#[derive(Clone, Copy, Debug, PartialEq, Eq)]
pub struct Retry {
    policy: RetryPolicy,
    failures: u32,
}

impl Retry {
    /// The policy this retry follows.
    pub closed spec fn policy(self) -> RetryPolicy {
        self.policy
    }

    /// The attempts that have failed so far (it stops counting at the
    /// policy's bound).
    pub closed spec fn failures(self) -> u32 {
        self.failures
    }

    /// A retry before its first attempt.
    pub fn new(policy: RetryPolicy) -> (retry: Retry)
        ensures
            retry.policy() == policy,
            retry.failures() == 0,
    {
        Retry { policy, failures: 0 }
    }

    /// The attempts that have failed so far.
    pub fn failed_attempts(&self) -> (failures: u32)
        ensures
            failures == self.failures(),
    {
        self.failures
    }

    /// Takes the outcome of one attempt and says what to do next: a
    /// success ends the retry with its value; a failure is counted and
    /// either asks for another attempt after the policy's delay or, if it
    /// was the last allowed attempt, gives up with the failure's report.
    pub fn on_outcome<T>(&mut self, outcome: Result<T, String>) -> (step: RetryStep<T>)
        ensures
            final(self).policy() == old(self).policy(),
            outcome is Ok ==> final(self).failures() == old(self).failures(),
            outcome is Err ==> final(self).failures() == failures_after(
                old(self).policy(),
                old(self).failures(),
            ),
            outcome matches Ok(value) ==> step == RetryStep::Done(value),
            outcome matches Err(report) ==> step == (if gives_up(
                old(self).policy(),
                old(self).failures(),
            ) {
                RetryStep::<T>::GiveUp(report)
            } else {
                RetryStep::<T>::RetryAfter { millis: old(self).policy().delay_millis }
            }),
    {
        match outcome {
            Ok(value) => RetryStep::Done(value),
            Err(report) => {
                if self.failures < self.policy.max_attempts {
                    self.failures = self.failures + 1;
                }
                if self.failures >= self.policy.max_attempts {
                    RetryStep::GiveUp(report)
                } else {
                    RetryStep::RetryAfter { millis: self.policy.delay_millis }
                }
            },
        }
    }
}

/// How one reservation ended, or what to do to end it.
#[derive(Debug, PartialEq, Eq)]
pub enum ReserveStep {
    /// A slot was reserved.
    Granted,
    /// Today's quota is used up.
    Exhausted,
    /// The store failed: wait, then attempt the reservation again.
    RetryAfter { millis: u64 },
    /// The store kept failing: the reservation is abandoned.
    Failed(BotError),
}

/// The check in front of the daily quota.
#[derive(Clone, Copy, Debug, PartialEq, Eq)]
pub struct QuotaGate {
    max_per_day: u64,
    policy: RetryPolicy,
}

impl QuotaGate {
    /// The most reservations granted per day.
    pub closed spec fn max_per_day(self) -> u64 {
        self.max_per_day
    }

    /// How a failing store is retried.
    pub closed spec fn policy(self) -> RetryPolicy {
        self.policy
    }

    /// A gate with the given daily maximum and retry policy.
    pub fn new(max_per_day: u64, policy: RetryPolicy) -> (gate: QuotaGate)
        ensures
            gate.max_per_day() == max_per_day,
            gate.policy() == policy,
    {
        QuotaGate { max_per_day, policy }
    }

    /// A gate with the given daily maximum that tries a failing store five
    /// times, half a second apart.
    pub fn with_standard_retry(max_per_day: u64) -> (gate: QuotaGate)
        ensures
            gate.max_per_day() == max_per_day,
            gate.policy().max_attempts == 5,
            gate.policy().delay_millis == 500,
    {
        QuotaGate { max_per_day, policy: RetryPolicy::standard() }
    }

    /// The most reservations granted per day.
    pub fn daily_maximum(&self) -> (max: u64)
        ensures
            max == self.max_per_day(),
    {
        self.max_per_day
    }

    /// What to do to a counter that reads `observed`: start it, increment
    /// it, or leave it and refuse.
    pub fn decide(&self, observed: Option<i64>) -> (decision: GateDecision)
        ensures
            decision == decision_for(observed, self.max_per_day()),
    {
        match observed {
            None => GateDecision::StartFresh,
            Some(count) => {
                if count < 0 || (count as u64) < self.max_per_day {
                    GateDecision::Increment { refresh_expiry: count == 0 }
                } else {
                    GateDecision::Exhausted
                }
            },
        }
    }

    /// One reservation against the in-process store, for the day named
    /// `day`: reads the day's counter, decides and writes in one step.
    /// `Ok(true)`: a slot was reserved and the counter moved; `Ok(false)`:
    /// the quota is used up and the store is unchanged; `Err`: the store
    /// refused the increment, and is unchanged.
    pub fn try_reserve(&self, store: &mut CounterStore, day: &str) -> (reserved: Result<
        bool,
        BotError,
    >)
        ensures
            final(store)@ == store_after_reserve(
                old(store)@,
                counter_key(day@),
                self.max_per_day(),
            ),
            reserved is Err <==> reserve_overflows(
                counter_at(old(store)@, counter_key(day@)),
                self.max_per_day(),
            ),
            reserved matches Ok(granted) ==> granted == reserve_grants(
                counter_at(old(store)@, counter_key(day@)),
                self.max_per_day(),
            ),
            reserved matches Err(e) ==> e@ == (BotErrorView {
                kind: ErrorKind::Redis,
                detail: overflow_detail(),
            }),
    {
        let key: String = key_for_day(day);
        let decision: GateDecision = self.decide(store.read(key.as_str()));
        match store.apply(key.as_str(), decision) {
            Ok(()) => Ok(decision.is_grant()),
            Err(e) => Err(e),
        }
    }

    /// A fresh retry for one reservation against a store that may fail.
    pub fn begin(&self) -> (retry: Retry)
        ensures
            retry.policy() == self.policy(),
            retry.failures() == 0,
    {
        Retry::new(self.policy)
    }

    /// Takes the outcome of one attempted reservation against a store that
    /// may fail, `Ok(granted)` or `Err(report)`, and says how the
    /// reservation ends or goes on.
    pub fn settle(&self, retry: &mut Retry, outcome: Result<bool, String>) -> (step: ReserveStep)
        ensures
            final(retry).policy() == old(retry).policy(),
            outcome is Ok ==> final(retry).failures() == old(retry).failures(),
            outcome is Err ==> final(retry).failures() == failures_after(
                old(retry).policy(),
                old(retry).failures(),
            ),
            outcome == Ok::<bool, String>(true) ==> step is Granted,
            outcome == Ok::<bool, String>(false) ==> step is Exhausted,
            outcome matches Err(report) ==> (if gives_up(old(retry).policy(), old(retry).failures()) {
                step matches ReserveStep::Failed(e) && e@ == (BotErrorView {
                    kind: ErrorKind::Redis,
                    detail: report@,
                })
            } else {
                step == (ReserveStep::RetryAfter { millis: old(retry).policy().delay_millis })
            }),
    {
        match retry.on_outcome(outcome) {
            RetryStep::Done(granted) => if granted {
                ReserveStep::Granted
            } else {
                ReserveStep::Exhausted
            },
            RetryStep::RetryAfter { millis } => ReserveStep::RetryAfter { millis },
            RetryStep::GiveUp(report) => ReserveStep::Failed(BotError::RedisError(report)),
        }
    }
}

/// The words that open every counter key.
pub open spec fn key_prefix() -> Seq<char> {
    "emails_sent:"@
}

/// The key of the counter for the day written `day`.
pub open spec fn counter_key(day: Seq<char>) -> Seq<char> {
    key_prefix() + day
}

/// The key of the counter for the day written `day` (as `YYYY-MM-DD`).
pub fn key_for_day(day: &str) -> (key: String)
    ensures
        key@ == counter_key(day@),
{
    String::from_str("emails_sent:").concat(day)
}

/// The pattern under which a day is written: year, month, day.
pub open spec fn day_pattern() -> Seq<char> {
    "%Y-%m-%d"@
}

/// The text that `chrono` writes for the UTC instant `seconds` seconds
/// after the Unix epoch under the strftime pattern `pattern`; `None` where
/// the instant lies outside the dates `chrono` can hold or it refuses the
/// pattern.
pub uninterp spec fn utc_text(seconds: i64, pattern: Seq<char>) -> Option<Seq<char>>;

/// The view of an optional text.
pub open spec fn text_view(text: Option<String>) -> Option<Seq<char>> {
    match text {
        Some(t) => Some(t@),
        None => None,
    }
}

/// Calls `chrono::DateTime::from_timestamp`, `DateTime::format` and
/// `DelayedFormat::write_to`. Trusted: the result is a function of the
/// two arguments alone, named [`utc_text`]; nothing is claimed of what
/// the text holds.
#[verifier::external_body]
fn format_utc(seconds: i64, pattern: &str) -> (text: Option<String>)
    ensures
        text_view(text) == utc_text(seconds, pattern@),
{
    let instant = chrono::DateTime::from_timestamp(seconds, 0)?;
    let mut text = String::new();
    instant.format(pattern).write_to(&mut text).ok()?;
    Some(text)
}

/// The counter key for the UTC day that holds the instant `seconds`.
pub open spec fn key_at(seconds: i64) -> Option<Seq<char>> {
    match utc_text(seconds, day_pattern()) {
        Some(day) => Some(counter_key(day)),
        None => None,
    }
}

/// The UTC day that holds the instant `seconds` seconds after the Unix
/// epoch, as `chrono` writes it under the pattern year, month, day; `None`
/// for an instant beyond the calendar.
pub fn day_of(seconds: i64) -> (day: Option<String>)
    ensures
        text_view(day) == utc_text(seconds, day_pattern()),
{
    format_utc(seconds, "%Y-%m-%d")
}

/// The counter key for the UTC day that holds the instant `seconds`;
/// `None` for an instant beyond the calendar. The caller reads the clock:
/// once for each reservation, so that a run that crosses midnight moves on
/// to a fresh counter.
pub fn key_for_instant(seconds: i64) -> (key: Option<String>)
    ensures
        text_view(key) == key_at(seconds),
{
    match day_of(seconds) {
        Some(day) => Some(key_for_day(day.as_str())),
        None => None,
    }
}

} // verus!
