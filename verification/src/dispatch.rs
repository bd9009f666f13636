//! The dispatch pass as a machine: it walks the records in order, says what
//! to do for each, and takes what came of it.

use crate::error::BotError;
use crate::record::{is_valid_recipient, records_view, ContactRecord, ContactRecordView};
use vstd::prelude::*;

verus! {

/// Milliseconds to wait after every send that was attempted.
pub const SEND_PAUSE_MILLIS: u64 = 1000;

/// Where the pass stands.
#[derive(Clone, Copy, Debug, PartialEq, Eq, Structural)]
pub enum DispatchPhase {
    /// The record in turn is yet to be looked at, or none is left.
    Ready,
    /// A slot was reserved for the record in turn, which is yet to be sent.
    Reserved,
    /// The quota was used up: the pass stopped before the record in turn.
    Halted,
    /// The counter store failed for good: the pass was given up.
    Aborted,
}

/// What the pass asks for next.
#[derive(Clone, Copy, Debug, PartialEq, Eq, Structural)]
pub enum DispatchAction {
    /// The record at `index` has no valid recipient: report it and go on.
    SkipInvalid { index: usize },
    /// Ask the quota gate for a slot for the record at `index`.
    Reserve { index: usize },
    /// Render and send the notification to the record at `index`.
    Send { index: usize },
    /// Nothing is left to do.
    Nothing,
}

/// One attempted send: to which record, and whether it was delivered.
#[derive(Clone, Copy, Debug, PartialEq, Eq, Structural)]
pub struct SendOutcome {
    pub index: usize,
    pub delivered: bool,
}

/// The state of a dispatch pass.
pub struct DispatcherView {
    /// The records to walk, in the order of discovery.
    pub records: Seq<ContactRecordView>,
    /// The position of the record in turn.
    pub cursor: nat,
    pub phase: DispatchPhase,
    /// The positions of the records skipped for want of a valid recipient.
    pub skipped: Seq<usize>,
    /// The sends attempted so far, in order.
    pub outcomes: Seq<SendOutcome>,
}

impl DispatcherView {
    /// A pass over `records` before its first step.
    pub open spec fn start(records: Seq<ContactRecordView>) -> DispatcherView {
        DispatcherView {
            records,
            cursor: 0,
            phase: DispatchPhase::Ready,
            skipped: Seq::empty(),
            outcomes: Seq::empty(),
        }
    }

    /// What the pass asks for in this state.
    pub open spec fn action(self) -> DispatchAction {
        match self.phase {
            DispatchPhase::Ready => if self.cursor >= self.records.len() {
                DispatchAction::Nothing
            } else if is_valid_recipient(self.records[self.cursor as int]) {
                DispatchAction::Reserve { index: self.cursor as usize }
            } else {
                DispatchAction::SkipInvalid { index: self.cursor as usize }
            },
            DispatchPhase::Reserved => DispatchAction::Send { index: self.cursor as usize },
            _ => DispatchAction::Nothing,
        }
    }

    /// The quota slots that the pass has consumed: one for every granted
    /// reservation, whatever became of the send.
    pub open spec fn slots_used(self) -> nat {
        if self.phase == DispatchPhase::Reserved {
            self.outcomes.len() + 1
        } else {
            self.outcomes.len()
        }
    }

    /// The state after the skip that was asked for has been reported.
    pub open spec fn after_skip(self) -> DispatcherView {
        if self.action() is SkipInvalid {
            DispatcherView {
                cursor: self.cursor + 1,
                skipped: self.skipped.push(self.cursor as usize),
                ..self
            }
        } else {
            self
        }
    }

    /// The state after an answer came to the reservation that was asked
    /// for: granted, refused, or failed for good.
    pub open spec fn after_reservation(self, granted: Option<bool>) -> DispatcherView {
        if self.action() is Reserve {
            DispatcherView {
                phase: match granted {
                    Some(true) => DispatchPhase::Reserved,
                    Some(false) => DispatchPhase::Halted,
                    None => DispatchPhase::Aborted,
                },
                ..self
            }
        } else {
            self
        }
    }

    /// The state after the send that was asked for has been attempted.
    /// Delivered or not, the slot stays consumed and the pass goes on.
    pub open spec fn after_send(self, delivered: bool) -> DispatcherView {
        if self.action() is Send {
            DispatcherView {
                cursor: self.cursor + 1,
                phase: DispatchPhase::Ready,
                outcomes: self.outcomes.push(
                    SendOutcome { index: self.cursor as usize, delivered },
                ),
                ..self
            }
        } else {
            self
        }
    }

    /// What every state of a pass satisfies.
    pub open spec fn well_formed(self) -> bool {
        &&& self.cursor <= self.records.len()
        &&& self.records.len() <= usize::MAX
        &&& self.phase == DispatchPhase::Reserved ==> self.cursor < self.records.len()
            && is_valid_recipient(self.records[self.cursor as int])
        &&& forall|k: int|
            0 <= k < self.outcomes.len() ==> (#[trigger] self.outcomes[k]).index < self.cursor
                && is_valid_recipient(self.records[self.outcomes[k].index as int])
        &&& forall|k: int, l: int|
            0 <= k < l < self.outcomes.len() ==> (#[trigger] self.outcomes[k]).index < (
            #[trigger] self.outcomes[l]).index
        &&& forall|k: int|
            0 <= k < self.skipped.len() ==> (#[trigger] self.skipped[k]) < self.cursor
                && !is_valid_recipient(self.records[self.skipped[k] as int])
    }
}

/// The answer to a reservation as the state machine reads it.
pub open spec fn reservation_view(reserved: Result<bool, BotError>) -> Option<bool> {
    match reserved {
        Ok(granted) => Some(granted),
        Err(_) => None,
    }
}

/// A dispatch pass in progress.
pub struct Dispatcher {
    records: Vec<ContactRecord>,
    cursor: usize,
    phase: DispatchPhase,
    skipped: Vec<usize>,
    outcomes: Vec<SendOutcome>,
}

impl View for Dispatcher {
    type V = DispatcherView;

    closed spec fn view(&self) -> DispatcherView {
        DispatcherView {
            records: records_view(self.records@),
            cursor: self.cursor as nat,
            phase: self.phase,
            skipped: self.skipped@,
            outcomes: self.outcomes@,
        }
    }
}

impl Dispatcher {
    /// What every pass satisfies: its state is well formed.
    pub closed spec fn wf(&self) -> bool {
        self@.well_formed()
    }

    /// A pass's state is well formed.
    pub proof fn lemma_state_well_formed(&self)
        requires
            self.wf(),
        ensures
            self@.well_formed(),
    {
    }

    /// A pass over `records`, in their order, before its first step.
    pub fn new(records: Vec<ContactRecord>) -> (dispatcher: Dispatcher)
        ensures
            dispatcher.wf(),
            dispatcher@ == DispatcherView::start(records_view(records@)),
    {
        assert(records.len() <= usize::MAX);
        Dispatcher {
            records,
            cursor: 0,
            phase: DispatchPhase::Ready,
            skipped: Vec::new(),
            outcomes: Vec::new(),
        }
    }

    /// The records of the pass.
    pub fn records(&self) -> (records: &Vec<ContactRecord>)
        ensures
            records_view(records@) == self@.records,
    {
        &self.records
    }

    /// Where the pass stands.
    pub fn phase(&self) -> (phase: DispatchPhase)
        ensures
            phase == self@.phase,
    {
        self.phase
    }

    /// The sends attempted so far, in order.
    pub fn outcomes(&self) -> (outcomes: &Vec<SendOutcome>)
        ensures
            outcomes@ == self@.outcomes,
    {
        &self.outcomes
    }

    /// The positions of the records skipped so far.
    pub fn skipped(&self) -> (skipped: &Vec<usize>)
        ensures
            skipped@ == self@.skipped,
    {
        &self.skipped
    }

    /// The quota slots that the pass has consumed.
    pub fn slots_used(&self) -> (slots: usize)
        requires
            self.wf(),
        ensures
            slots == self@.slots_used(),
    {
        proof {
            lemma_strictly_increasing_fits(self@.outcomes, self@.cursor);
        }
        if self.phase == DispatchPhase::Reserved {
            self.outcomes.len() + 1
        } else {
            self.outcomes.len()
        }
    }

    /// What to do next.
    pub fn next_action(&self) -> (action: DispatchAction)
        requires
            self.wf(),
        ensures
            action == self@.action(),
    {
        match self.phase {
            DispatchPhase::Ready => {
                if self.cursor >= self.records.len() {
                    DispatchAction::Nothing
                } else if self.records[self.cursor].has_valid_recipient() {
                    DispatchAction::Reserve { index: self.cursor }
                } else {
                    DispatchAction::SkipInvalid { index: self.cursor }
                }
            },
            DispatchPhase::Reserved => DispatchAction::Send { index: self.cursor },
            _ => DispatchAction::Nothing,
        }
    }

    /// Takes note that the skip asked for was reported, and moves on.
    /// Returns whether a skip was asked for; if not, nothing changes.
    pub fn on_skipped(&mut self) -> (expected: bool)
        requires
            old(self).wf(),
        ensures
            final(self).wf(),
            expected == (old(self)@.action() is SkipInvalid),
            final(self)@ == old(self)@.after_skip(),
    {
        match self.next_action() {
            DispatchAction::SkipInvalid { index } => {
                self.skipped.push(index);
                self.cursor = self.cursor + 1;
                true
            },
            _ => false,
        }
    }

    /// Takes the answer to the reservation asked for. A grant leads
    /// to the send; a refusal halts the whole pass; a failure gives the pass
    /// up and is handed back. If no reservation was asked for, nothing
    /// changes and nothing is handed back.
    pub fn on_reservation(&mut self, reserved: Result<bool, BotError>) -> (handed_back: Option<
        BotError,
    >)
        requires
            old(self).wf(),
        ensures
            final(self).wf(),
            final(self)@ == old(self)@.after_reservation(reservation_view(reserved)),
            handed_back == match reserved {
                Err(e) => if old(self)@.action() is Reserve {
                    Some(e)
                } else {
                    None
                },
                Ok(_) => None,
            },
    {
        match self.next_action() {
            DispatchAction::Reserve { index } => {
                match reserved {
                    Ok(true) => {
                        self.phase = DispatchPhase::Reserved;
                        None
                    },
                    Ok(false) => {
                        self.phase = DispatchPhase::Halted;
                        None
                    },
                    Err(e) => {
                        self.phase = DispatchPhase::Aborted;
                        Some(e)
                    },
                }
            },
            _ => None,
        }
    }

    /// Takes the result of the send asked for and moves on to the next
    /// record. Returns the pause to make before the next step: the fixed
    /// delay if a send was asked for, else 0 with nothing changed.
    pub fn on_send_result(&mut self, delivered: bool) -> (pause_millis: u64)
        requires
            old(self).wf(),
        ensures
            final(self).wf(),
            final(self)@ == old(self)@.after_send(delivered),
            pause_millis == if old(self)@.action() is Send {
                SEND_PAUSE_MILLIS
            } else {
                0
            },
    {
        match self.next_action() {
            DispatchAction::Send { index } => {
                self.outcomes.push(SendOutcome { index, delivered });
                self.cursor = self.cursor + 1;
                self.phase = DispatchPhase::Ready;
                SEND_PAUSE_MILLIS
            },
            _ => 0,
        }
    }
}

/// Strictly increasing positions below a bound are at most as many as the
/// bound.
pub proof fn lemma_strictly_increasing_fits(outcomes: Seq<SendOutcome>, bound: nat)
    requires
        forall|k: int| 0 <= k < outcomes.len() ==> (#[trigger] outcomes[k]).index < bound,
        forall|k: int, l: int|
            0 <= k < l < outcomes.len() ==> (#[trigger] outcomes[k]).index < (
            #[trigger] outcomes[l]).index,
    ensures
        outcomes.len() <= bound,
    decreases outcomes.len(),
{
    if outcomes.len() > 0 {
        let last = outcomes.last();
        let front = outcomes.drop_last();
        assert forall|k: int| 0 <= k < front.len() implies (#[trigger] front[k]).index
            < last.index by {
            assert(front[k] == outcomes[k]);
            assert(outcomes[k].index < outcomes[outcomes.len() - 1].index);
        }
        assert forall|k: int, l: int| 0 <= k < l < front.len() implies (#[trigger] front[k]).index
            < (#[trigger] front[l]).index by {
            assert(front[k] == outcomes[k]);
            assert(front[l] == outcomes[l]);
        }
        lemma_strictly_increasing_fits(front, last.index as nat);
    }
}

} // verus!
