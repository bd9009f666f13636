//! What holds of a whole dispatch pass that is run against one day's
//! counter.

use crate::dispatch::{DispatchAction, DispatchPhase, DispatcherView, SendOutcome};
use crate::quota::{counter_after_reserve, reserve_grants, reserve_overflows, DailyCounter};
use crate::record::{is_valid_recipient, ContactRecordView};
use vstd::prelude::*;

verus! {

/// How a pass ended, and what it left of the counter.
pub struct PassEnd {
    pub state: DispatcherView,
    pub counter: Option<DailyCounter>,
}

/// The steps a pass may still take, at most.
pub open spec fn steps_left(state: DispatcherView) -> nat {
    if state.cursor >= state.records.len() {
        0
    } else if state.phase == DispatchPhase::Reserved {
        (2 * (state.records.len() - state.cursor) - 1) as nat
    } else {
        (2 * (state.records.len() - state.cursor)) as nat
    }
}

/// What a reservation on `counter` answers to the pass: granted, refused,
/// or (`None`) refused by the store.
pub open spec fn answer_of(counter: Option<DailyCounter>, max_per_day: u64) -> Option<bool> {
    if reserve_overflows(counter, max_per_day) {
        None
    } else {
        Some(reserve_grants(counter, max_per_day))
    }
}

/// The pass run to its end from `state`: every skip asked for is
/// reported, every reservation asked for is made on `counter`, and every
/// send asked for is attempted, with `delivers` saying of each record
/// whether its send succeeds.
pub open spec fn run_pass(
    state: DispatcherView,
    counter: Option<DailyCounter>,
    max_per_day: u64,
    delivers: spec_fn(usize) -> bool,
) -> PassEnd
    decreases steps_left(state),
{
    if !state.well_formed() {
        PassEnd { state, counter }
    } else {
        match state.action() {
            DispatchAction::Nothing => PassEnd { state, counter },
            DispatchAction::SkipInvalid { index } => run_pass(
                state.after_skip(),
                counter,
                max_per_day,
                delivers,
            ),
            DispatchAction::Reserve { index } => {
                let answered = state.after_reservation(answer_of(counter, max_per_day));
                let counted = counter_after_reserve(counter, max_per_day);
                if answered.phase == DispatchPhase::Reserved {
                    run_pass(answered, counted, max_per_day, delivers)
                } else {
                    PassEnd { state: answered, counter: counted }
                }
            },
            DispatchAction::Send { index } => run_pass(
                state.after_send(delivers(index)),
                counter,
                max_per_day,
                delivers,
            ),
        }
    }
}

/// How many of the records from position `from` on have a valid
/// recipient.
pub open spec fn valid_from(records: Seq<ContactRecordView>, from: nat) -> nat
    decreases records.len() - from,
{
    if from >= records.len() {
        0
    } else if is_valid_recipient(records[from as int]) {
        1 + valid_from(records, from + 1)
    } else {
        valid_from(records, from + 1)
    }
}

/// What a counter reads, a missing one reading 0.
pub open spec fn count_of(counter: Option<DailyCounter>) -> int {
    match counter {
        None => 0,
        Some(c) => c.value as int,
    }
}

/// How many reservations in a row a counter still grants: a missing one
/// grants the whole quota (and one even under a maximum of 0), a present
/// one what is left up to the maximum.
pub open spec fn slots_left(counter: Option<DailyCounter>, max_per_day: u64) -> nat {
    match counter {
        None => if max_per_day == 0 {
            1
        } else {
            max_per_day as nat
        },
        Some(c) => if c.value < max_per_day {
            (max_per_day - c.value) as nat
        } else {
            0
        },
    }
}

/// The smaller of two numbers.
pub open spec fn smaller(a: nat, b: nat) -> nat {
    if a <= b {
        a
    } else {
        b
    }
}

/// A pass against a counter attempts exactly as many sends as there are
/// valid recipients left, or as the counter still grants, whichever is
/// less; each takes the counter up by one. If the slots run out first the
/// pass halts before the first valid recipient that found none, else it
/// reaches the end of the records.
pub proof fn lemma_pass_sends_up_to_quota(
    state: DispatcherView,
    counter: Option<DailyCounter>,
    max_per_day: u64,
    delivers: spec_fn(usize) -> bool,
)
    requires
        state.well_formed(),
        state.phase == DispatchPhase::Ready,
        max_per_day <= i64::MAX,
    ensures
        ({
            let end = run_pass(state, counter, max_per_day, delivers);
            let sends = smaller(
                slots_left(counter, max_per_day),
                valid_from(state.records, state.cursor),
            );
            &&& end.state.well_formed()
            &&& end.state.records == state.records
            &&& end.state.outcomes.len() == state.outcomes.len() + sends
            &&& state.outcomes.is_prefix_of(end.state.outcomes)
            &&& count_of(end.counter) == count_of(counter) + sends
            &&& sends == 0 ==> end.counter == counter
            &&& if valid_from(state.records, state.cursor) > slots_left(counter, max_per_day) {
                end.state.phase == DispatchPhase::Halted && end.state.cursor < state.records.len()
                    && is_valid_recipient(state.records[end.state.cursor as int])
            } else {
                end.state.phase == DispatchPhase::Ready && end.state.cursor == state.records.len()
            }
        }),
    decreases state.records.len() - state.cursor,
{
    let records = state.records;
    if state.cursor >= records.len() {
        assert(state.outcomes.subrange(0, state.outcomes.len() as int) =~= state.outcomes);
    } else if !is_valid_recipient(records[state.cursor as int]) {
        let next = state.after_skip();
        lemma_pass_sends_up_to_quota(next, counter, max_per_day, delivers);
    } else {
        let index = state.cursor as usize;
        let answered = state.after_reservation(answer_of(counter, max_per_day));
        let counted = counter_after_reserve(counter, max_per_day);
        if slots_left(counter, max_per_day) == 0 {
            assert(answered.phase == DispatchPhase::Halted);
            assert(counted == counter);
            assert(state.outcomes.subrange(0, state.outcomes.len() as int) =~= state.outcomes);
        } else {
            assert(answered.phase == DispatchPhase::Reserved);
            assert(answered.action() == (DispatchAction::Send { index }));
            let next = answered.after_send(delivers(index));
            assert(next.outcomes == state.outcomes.push(
                SendOutcome { index, delivered: delivers(index) },
            ));
            assert(slots_left(counted, max_per_day) == slots_left(counter, max_per_day) - 1);
            assert(count_of(counted) == count_of(counter) + 1);
            lemma_pass_sends_up_to_quota(next, counted, max_per_day, delivers);
            let end = run_pass(next, counted, max_per_day, delivers);
            assert(answered.well_formed());
            assert(run_pass(state, counter, max_per_day, delivers) == run_pass(
                answered,
                counted,
                max_per_day,
                delivers,
            ));
            assert(run_pass(answered, counted, max_per_day, delivers) == end);
            assert(state.outcomes.is_prefix_of(end.state.outcomes)) by {
                assert(next.outcomes.subrange(0, state.outcomes.len() as int) =~= state.outcomes);
                assert(end.state.outcomes.subrange(0, next.outcomes.len() as int)
                    == next.outcomes);
                assert(end.state.outcomes.subrange(0, state.outcomes.len() as int)
                    =~= next.outcomes.subrange(0, state.outcomes.len() as int));
            }
        }
    }
}

/// On a day that starts without a counter, or with one that reads 0, a
/// pass over `records` under a maximum of at least 1 attempts exactly
/// `max_per_day` sends if that many records have a valid recipient, and
/// then halts before the next one; else it attempts one send for each of
/// them and reaches the end. The counter ends at the number of sends.
pub proof fn lemma_fresh_day_pass(
    records: Seq<ContactRecordView>,
    counter: Option<DailyCounter>,
    max_per_day: u64,
    delivers: spec_fn(usize) -> bool,
)
    requires
        records.len() <= usize::MAX,
        1 <= max_per_day <= i64::MAX,
        counter matches Some(c) ==> c.value == 0,
    ensures
        ({
            let end = run_pass(DispatcherView::start(records), counter, max_per_day, delivers);
            let valid = valid_from(records, 0);
            &&& end.state.outcomes.len() == smaller(max_per_day as nat, valid)
            &&& count_of(end.counter) == end.state.outcomes.len()
            &&& valid > max_per_day ==> end.state.phase == DispatchPhase::Halted
            &&& valid <= max_per_day ==> end.state.phase == DispatchPhase::Ready
                && end.state.cursor == records.len()
        }),
{
    lemma_pass_sends_up_to_quota(DispatcherView::start(records), counter, max_per_day, delivers);
}

} // verus!
