//! What holds of the crawl over whole runs of responses.

use crate::crawl::{CrawlPhase, CrawlRequestView, CrawlerView, SearchParamsView};
use crate::record::{distinct_identities, ContactRecordView};
use vstd::prelude::*;

verus! {

/// What can come back to a crawl.
pub enum CrawlEvent {
    /// A listing page, with the targets of its links.
    Listing { targets: Seq<Option<Seq<char>>> },
    /// A detail page, with the contact it yielded.
    Detail { contact: Option<ContactRecordView> },
    /// A fetch that failed.
    FetchFailed,
}

/// The state after one event.
pub open spec fn after_event(state: CrawlerView, event: CrawlEvent) -> CrawlerView {
    match event {
        CrawlEvent::Listing { targets } => state.after_listing(targets),
        CrawlEvent::Detail { contact } => state.after_detail(contact),
        CrawlEvent::FetchFailed => state.after_failure(),
    }
}

/// The state after a run of events, in order.
pub open spec fn after_events(state: CrawlerView, events: Seq<CrawlEvent>) -> CrawlerView
    decreases events.len(),
{
    if events.len() == 0 {
        state
    } else {
        after_event(after_events(state, events.drop_last()), events.last())
    }
}

/// Whether the crawl has ended, for whatever reason.
pub open spec fn has_ended(state: CrawlerView) -> bool {
    state.phase == CrawlPhase::Finished || state.phase == CrawlPhase::Aborted
}

/// A crawl starts in a well-formed state.
pub proof fn lemma_start_is_well_formed(params: SearchParamsView, page_limit: nat)
    ensures
        CrawlerView::start(params, page_limit).well_formed(),
{
}

/// Every event leaves a well-formed state well formed: in particular no
/// two recorded contacts ever share an identity.
pub proof fn lemma_event_keeps_well_formed(state: CrawlerView, event: CrawlEvent)
    requires
        state.well_formed(),
    ensures
        after_event(state, event).well_formed(),
        distinct_identities(after_event(state, event).records),
{
}

/// Every run of events leaves a well-formed state well formed.
pub proof fn lemma_events_keep_well_formed(state: CrawlerView, events: Seq<CrawlEvent>)
    requires
        state.well_formed(),
    ensures
        after_events(state, events).well_formed(),
    decreases events.len(),
{
    if events.len() > 0 {
        lemma_events_keep_well_formed(state, events.drop_last());
        lemma_event_keeps_well_formed(after_events(state, events.drop_last()), events.last());
    }
}

/// A listing page without any link ends the crawl on the spot: nothing
/// more is asked for, and the page number and the records stay.
pub proof fn lemma_empty_listing_ends_crawl(state: CrawlerView)
    requires
        state.phase == CrawlPhase::AwaitListing,
    ensures
        state.after_listing(Seq::empty()).phase == CrawlPhase::Finished,
        state.after_listing(Seq::empty()).request() == CrawlRequestView::Nothing,
        state.after_listing(Seq::empty()).page == state.page,
        state.after_listing(Seq::empty()).records == state.records,
{
}

/// A crawl that has ended takes no notice of anything that comes back.
pub proof fn lemma_ended_crawl_stays(state: CrawlerView, events: Seq<CrawlEvent>)
    requires
        has_ended(state),
    ensures
        after_events(state, events) == state,
        state.request() == CrawlRequestView::Nothing,
    decreases events.len(),
{
    if events.len() > 0 {
        lemma_ended_crawl_stays(state, events.drop_last());
    }
}

/// A run of events can be cut in two.
pub proof fn lemma_events_split(state: CrawlerView, events: Seq<CrawlEvent>, k: int)
    requires
        0 <= k <= events.len(),
    ensures
        after_events(state, events) == after_events(
            after_events(state, events.take(k)),
            events.skip(k),
        ),
    decreases events.len(),
{
    if k == events.len() {
        assert(events.take(k) =~= events);
        assert(events.skip(k) =~= Seq::<CrawlEvent>::empty());
    } else {
        lemma_events_split(state, events.drop_last(), k);
        assert(events.drop_last().take(k) =~= events.take(k));
        assert(events.drop_last().skip(k) =~= events.skip(k).drop_last());
        assert(events.skip(k).last() == events.last());
    }
}

/// Termination: once an awaited listing page comes back without any link,
/// the crawl has finished on that page, whatever comes back afterwards.
pub proof fn lemma_crawl_terminates_at_empty_listing(
    state: CrawlerView,
    events: Seq<CrawlEvent>,
    k: int,
)
    requires
        0 <= k < events.len(),
        events[k] matches CrawlEvent::Listing { targets } && targets.len() == 0,
        after_events(state, events.take(k)).phase == CrawlPhase::AwaitListing,
    ensures
        after_events(state, events).phase == CrawlPhase::Finished,
        after_events(state, events).request() == CrawlRequestView::Nothing,
        after_events(state, events).page == after_events(state, events.take(k)).page,
        after_events(state, events).records == after_events(state, events.take(k)).records,
{
    let before = after_events(state, events.take(k));
    let upto = events.take(k + 1);
    assert(upto.drop_last() =~= events.take(k));
    assert(upto.last() == events[k]);
    let ended = after_events(state, upto);
    assert(ended == after_event(before, events[k]));
    lemma_events_split(state, events, k + 1);
    lemma_ended_crawl_stays(ended, events.skip(k + 1));
}

/// Pages are taken in order: an event leaves the page number as it is or
/// moves it up by one, never beyond the limit while the crawl goes on.
pub proof fn lemma_pages_advance_in_order(state: CrawlerView, event: CrawlEvent)
    requires
        state.well_formed(),
    ensures
        state.page <= after_event(state, event).page <= state.page + 1,
        after_event(state, event).page <= state.page_limit || after_event(state, event).page
            == state.page,
        after_event(state, event).page_limit == state.page_limit,
{
}

/// Records are kept in the order of discovery: an event appends at most
/// one record and touches none that was there.
pub proof fn lemma_records_only_grow(state: CrawlerView, event: CrawlEvent)
    ensures
        state.records.is_prefix_of(after_event(state, event).records),
        after_event(state, event).records.len() <= state.records.len() + 1,
{
    let after = after_event(state, event);
    assert(after.records.len() >= state.records.len());
    assert(after.records.subrange(0, state.records.len() as int) =~= state.records);
}

} // verus!
