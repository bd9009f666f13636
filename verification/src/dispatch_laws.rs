//! What holds of the dispatch pass over whole runs of answers.

use crate::dispatch::{DispatchAction, DispatchPhase, DispatcherView, SendOutcome};
use crate::record::{is_valid_recipient, ContactRecordView};
use vstd::prelude::*;

verus! {

/// What can come back to a dispatch pass.
pub enum DispatchEvent {
    /// The skip asked for was reported.
    Skipped,
    /// The reservation was answered: granted, refused, or (`None`) failed
    /// for good.
    Reservation { granted: Option<bool> },
    /// The send was attempted.
    SendResult { delivered: bool },
}

/// The state after one event.
pub open spec fn after_event(state: DispatcherView, event: DispatchEvent) -> DispatcherView {
    match event {
        DispatchEvent::Skipped => state.after_skip(),
        DispatchEvent::Reservation { granted } => state.after_reservation(granted),
        DispatchEvent::SendResult { delivered } => state.after_send(delivered),
    }
}

/// The state after a run of events, in order.
pub open spec fn after_events(state: DispatcherView, events: Seq<DispatchEvent>) -> DispatcherView
    decreases events.len(),
{
    if events.len() == 0 {
        state
    } else {
        after_event(after_events(state, events.drop_last()), events.last())
    }
}

/// Whether the pass has stopped before its last record.
pub open spec fn has_stopped(state: DispatcherView) -> bool {
    state.phase == DispatchPhase::Halted || state.phase == DispatchPhase::Aborted
}

/// A pass starts in a well-formed state.
pub proof fn lemma_start_is_well_formed(records: Seq<ContactRecordView>)
    requires
        records.len() <= usize::MAX,
    ensures
        DispatcherView::start(records).well_formed(),
{
}

/// Every event leaves a well-formed state well formed.
pub proof fn lemma_event_keeps_well_formed(state: DispatcherView, event: DispatchEvent)
    requires
        state.well_formed(),
    ensures
        after_event(state, event).well_formed(),
{
}

/// Every run of events leaves a well-formed state well formed.
pub proof fn lemma_events_keep_well_formed(state: DispatcherView, events: Seq<DispatchEvent>)
    requires
        state.well_formed(),
    ensures
        after_events(state, events).well_formed(),
    decreases events.len(),
{
    if events.len() > 0 {
        lemma_events_keep_well_formed(state, events.drop_last());
        lemma_event_keeps_well_formed(after_events(state, events.drop_last()), events.last());
    }
}

/// A record without valid recipient is never sent to and never costs a
/// slot: no reservation and no send is ever asked for it, no attempted
/// send names it, and skipping it leaves the count of slots as it was.
pub proof fn lemma_invalid_recipient_is_never_served(state: DispatcherView, index: int)
    requires
        state.well_formed(),
        0 <= index < state.records.len(),
        !is_valid_recipient(state.records[index]),
    ensures
        state.action() != (DispatchAction::Reserve { index: index as usize }),
        state.action() != (DispatchAction::Send { index: index as usize }),
        forall|k: int| 0 <= k < state.outcomes.len() ==> state.outcomes[k].index != index,
        state.after_skip().slots_used() == state.slots_used(),
{
}

/// The same over a whole run: whatever comes back, in whatever order, a
/// record without valid recipient is in no attempted send.
pub proof fn lemma_invalid_recipient_is_never_sent_to(
    records: Seq<ContactRecordView>,
    events: Seq<DispatchEvent>,
    index: int,
)
    requires
        records.len() <= usize::MAX,
        0 <= index < records.len(),
        !is_valid_recipient(records[index]),
    ensures
        forall|k: int|
            0 <= k < after_events(DispatcherView::start(records), events).outcomes.len()
                ==> after_events(DispatcherView::start(records), events).outcomes[k].index
                != index,
{
    lemma_events_keep_well_formed(DispatcherView::start(records), events);
    lemma_records_stay(DispatcherView::start(records), events);
    lemma_invalid_recipient_is_never_served(
        after_events(DispatcherView::start(records), events),
        index,
    );
}

/// The records of a pass never change.
pub proof fn lemma_records_stay(state: DispatcherView, events: Seq<DispatchEvent>)
    ensures
        after_events(state, events).records == state.records,
    decreases events.len(),
{
    if events.len() > 0 {
        lemma_records_stay(state, events.drop_last());
    }
}

/// A refused reservation halts the whole pass: the record in turn is not
/// sent to, and nothing more is asked for.
pub proof fn lemma_refusal_halts_pass(state: DispatcherView)
    requires
        state.action() is Reserve,
    ensures
        state.after_reservation(Some(false)).phase == DispatchPhase::Halted,
        state.after_reservation(Some(false)).action() == DispatchAction::Nothing,
        state.after_reservation(Some(false)).outcomes == state.outcomes,
        state.after_reservation(Some(false)).slots_used() == state.slots_used(),
{
}

/// A pass that has stopped takes no notice of anything that comes back:
/// the records that were left are never attempted.
pub proof fn lemma_stopped_pass_stays(state: DispatcherView, events: Seq<DispatchEvent>)
    requires
        has_stopped(state),
    ensures
        after_events(state, events) == state,
        state.action() == DispatchAction::Nothing,
    decreases events.len(),
{
    if events.len() > 0 {
        lemma_stopped_pass_stays(state, events.drop_last());
    }
}

/// A granted reservation costs exactly one slot, and the send that follows
/// costs none and gives none back, delivered or not; the pass then goes on
/// with the next record.
pub proof fn lemma_slot_is_spent_on_grant_only(state: DispatcherView, delivered: bool)
    requires
        state.well_formed(),
    ensures
        state.action() is Reserve ==> state.after_reservation(Some(true)).slots_used()
            == state.slots_used() + 1,
        state.action() is Send ==> {
            &&& state.after_send(delivered).slots_used() == state.slots_used()
            &&& state.after_send(delivered).phase == DispatchPhase::Ready
            &&& state.after_send(delivered).cursor == state.cursor + 1
            &&& state.after_send(delivered).outcomes == state.outcomes.push(
                SendOutcome { index: state.cursor as usize, delivered },
            )
        },
{
}

/// Records are served in their order: the attempted sends name strictly
/// increasing positions, all before the record in turn.
pub proof fn lemma_sends_follow_record_order(state: DispatcherView, k: int, l: int)
    requires
        state.well_formed(),
        0 <= k < l < state.outcomes.len(),
    ensures
        state.outcomes[k].index < state.outcomes[l].index < state.cursor,
{
}

} // verus!
