//! The paginated crawl as a machine: it says which page to fetch next, and
//! takes what came back.

use crate::dedup::Deduplicator;
use crate::error::{BotError, BotErrorView, ErrorKind};
use crate::extract::{
    contact_view, extract_contact, extracted_contact_of, listing_targets, listing_targets_of,
    targets_view,
};
use crate::record::{distinct_identities, records_view, ContactRecord, ContactRecordView};
use crate::text::{decimal, push_decimal};
use vstd::prelude::*;
use vstd::string::StringExecFns;

verus! {

/// Milliseconds to wait after every detail page that was fetched.
pub const CRAWL_PAUSE_MILLIS: u64 = 1000;

/// Where to search: the directory's base address and the two search terms,
/// each written as it stands in a query string.
#[derive(Debug, PartialEq, Eq)]
pub struct SearchParams {
    pub base_url: String,
    pub search_terms: String,
    pub geo_location_terms: String,
}

/// The mathematical value of [`SearchParams`].
pub struct SearchParamsView {
    pub base_url: Seq<char>,
    pub search_terms: Seq<char>,
    pub geo_location_terms: Seq<char>,
}

impl View for SearchParams {
    type V = SearchParamsView;

    open spec fn view(&self) -> SearchParamsView {
        SearchParamsView {
            base_url: self.base_url@,
            search_terms: self.search_terms@,
            geo_location_terms: self.geo_location_terms@,
        }
    }
}

/// The address of listing page `page`.
pub open spec fn listing_url(params: SearchParamsView, page: nat) -> Seq<char> {
    params.base_url + "/search?search_terms="@ + params.search_terms + "&geo_location_terms="@
        + params.geo_location_terms + "&page="@ + decimal(page)
}

/// The address of the detail page that a listing link with the target
/// `target` leads to.
pub open spec fn detail_url(params: SearchParamsView, target: Seq<char>) -> Seq<char> {
    params.base_url + target
}

/// The address of listing page `page`.
pub fn listing_url_for(params: &SearchParams, page: u64) -> (url: String)
    ensures
        url@ == listing_url(params@, page as nat),
{
    let mut url: String = params.base_url.clone();
    url.append("/search?search_terms=");
    url.append(params.search_terms.as_str());
    url.append("&geo_location_terms=");
    url.append(params.geo_location_terms.as_str());
    url.append("&page=");
    push_decimal(&mut url, page);
    url
}

/// The address of the detail page that a listing link with the target
/// `target` leads to.
pub fn detail_url_for(params: &SearchParams, target: &str) -> (url: String)
    ensures
        url@ == detail_url(params@, target@),
{
    params.base_url.clone().concat(target)
}

/// What the crawl is waiting for.
#[derive(Clone, Copy, Debug, PartialEq, Eq, Structural)]
pub enum CrawlPhase {
    /// The listing page with the current number.
    AwaitListing,
    /// The detail page of the first pending target.
    AwaitDetail,
    /// Nothing: the crawl ended on an empty listing or at the page limit.
    Finished,
    /// Nothing: a fetch failed and the crawl was given up.
    Aborted,
}

/// What the crawl asks for next.
#[derive(Debug, PartialEq, Eq)]
pub enum CrawlRequest {
    /// Fetch the listing page `page` at `url`.
    Listing { url: String, page: u64 },
    /// Fetch the detail page at `url`.
    Detail { url: String },
    /// Nothing is left to fetch.
    Nothing,
}

/// The mathematical value of a [`CrawlRequest`].
pub enum CrawlRequestView {
    Listing { url: Seq<char>, page: nat },
    Detail { url: Seq<char> },
    Nothing,
}

impl View for CrawlRequest {
    type V = CrawlRequestView;

    open spec fn view(&self) -> CrawlRequestView {
        match *self {
            CrawlRequest::Listing { url, page } => CrawlRequestView::Listing {
                url: url@,
                page: page as nat,
            },
            CrawlRequest::Detail { url } => CrawlRequestView::Detail { url: url@ },
            CrawlRequest::Nothing => CrawlRequestView::Nothing,
        }
    }
}

/// What became of one detail page.
#[derive(Clone, Copy, Debug, PartialEq, Eq, Structural)]
pub enum DetailOutcome {
    /// It held a contact with a new identity, which was recorded.
    Admitted,
    /// It held a contact whose identity was seen before.
    Duplicate,
    /// It held no contact.
    NoContact,
    /// No detail page was awaited: nothing changed.
    Unexpected,
}

/// What became of one detail page, and how long to wait before the next
/// request.
#[derive(Clone, Copy, Debug, PartialEq, Eq, Structural)]
pub struct DetailReport {
    pub outcome: DetailOutcome,
    pub pause_millis: u64,
}

/// The targets that are present, in order.
pub open spec fn present_targets(targets: Seq<Option<Seq<char>>>) -> Seq<Seq<char>>
    decreases targets.len(),
{
    if targets.len() == 0 {
        Seq::empty()
    } else {
        let front = present_targets(targets.drop_last());
        match targets.last() {
            Some(target) => front.push(target),
            None => front,
        }
    }
}

/// The values of a list of texts.
pub open spec fn texts_view(texts: Seq<String>) -> Seq<Seq<char>> {
    Seq::new(texts.len(), |i: int| texts[i]@)
}

/// The state of a crawl.
pub struct CrawlerView {
    pub params: SearchParamsView,
    /// The last page number the crawl may ask for.
    pub page_limit: nat,
    /// The number of the listing page in work.
    pub page: nat,
    /// The targets of the page in work whose detail pages were not taken
    /// yet, the awaited one first.
    pub pending: Seq<Seq<char>>,
    pub phase: CrawlPhase,
    /// The identities presented so far.
    pub seen: Set<Seq<char>>,
    /// The records admitted so far, in the order of discovery.
    pub records: Seq<ContactRecordView>,
}

impl CrawlerView {
    /// A crawl before its first request.
    pub open spec fn start(params: SearchParamsView, page_limit: nat) -> CrawlerView {
        CrawlerView {
            params,
            page_limit,
            page: 1,
            pending: Seq::empty(),
            phase: if page_limit >= 1 {
                CrawlPhase::AwaitListing
            } else {
                CrawlPhase::Finished
            },
            seen: Set::empty(),
            records: Seq::empty(),
        }
    }

    /// What the crawl asks for in this state.
    pub open spec fn request(self) -> CrawlRequestView {
        match self.phase {
            CrawlPhase::AwaitListing => CrawlRequestView::Listing {
                url: listing_url(self.params, self.page),
                page: self.page,
            },
            CrawlPhase::AwaitDetail => CrawlRequestView::Detail {
                url: detail_url(self.params, self.pending[0]),
            },
            _ => CrawlRequestView::Nothing,
        }
    }

    /// The state once the page in work is done: on to the next listing
    /// page, or finished at the page limit.
    pub open spec fn next_page(self) -> CrawlerView {
        if self.page < self.page_limit {
            CrawlerView {
                page: self.page + 1,
                pending: Seq::empty(),
                phase: CrawlPhase::AwaitListing,
                ..self
            }
        } else {
            CrawlerView { pending: Seq::empty(), phase: CrawlPhase::Finished, ..self }
        }
    }

    /// The state after a listing page with the link targets `targets` came
    /// back. A page without any link ends the crawl; otherwise the targets
    /// that are present are queued, and a page whose links all lack a
    /// target is done at once.
    pub open spec fn after_listing(self, targets: Seq<Option<Seq<char>>>) -> CrawlerView {
        if self.phase != CrawlPhase::AwaitListing {
            self
        } else if targets.len() == 0 {
            CrawlerView { pending: Seq::empty(), phase: CrawlPhase::Finished, ..self }
        } else if present_targets(targets).len() == 0 {
            self.next_page()
        } else {
            CrawlerView {
                pending: present_targets(targets),
                phase: CrawlPhase::AwaitDetail,
                ..self
            }
        }
    }

    /// What is reported of a detail page that yielded `contact`.
    pub open spec fn detail_outcome(self, contact: Option<ContactRecordView>) -> DetailOutcome {
        if self.phase != CrawlPhase::AwaitDetail {
            DetailOutcome::Unexpected
        } else {
            match contact {
                None => DetailOutcome::NoContact,
                Some(record) => if self.seen.contains(record.email) {
                    DetailOutcome::Duplicate
                } else {
                    DetailOutcome::Admitted
                },
            }
        }
    }

    /// The state after the awaited detail page yielded `contact`: a
    /// contact with a new identity is recorded, any contact's identity
    /// counts as seen, and the crawl moves to the next target or page.
    pub open spec fn after_detail(self, contact: Option<ContactRecordView>) -> CrawlerView {
        if self.phase != CrawlPhase::AwaitDetail {
            self
        } else {
            let taken = CrawlerView {
                pending: self.pending.drop_first(),
                seen: match contact {
                    Some(record) => self.seen.insert(record.email),
                    None => self.seen,
                },
                records: match contact {
                    Some(record) => if self.seen.contains(record.email) {
                        self.records
                    } else {
                        self.records.push(record)
                    },
                    None => self.records,
                },
                ..self
            };
            if taken.pending.len() == 0 {
                taken.next_page()
            } else {
                taken
            }
        }
    }

    /// The state after a fetch failed: a crawl that was waiting for a page
    /// is given up, with what it had recorded.
    pub open spec fn after_failure(self) -> CrawlerView {
        if self.phase == CrawlPhase::AwaitListing || self.phase == CrawlPhase::AwaitDetail {
            CrawlerView { pending: Seq::empty(), phase: CrawlPhase::Aborted, ..self }
        } else {
            self
        }
    }

    /// What every state of a crawl satisfies.
    pub open spec fn well_formed(self) -> bool {
        &&& self.page >= 1
        &&& self.phase == CrawlPhase::AwaitDetail <==> self.pending.len() > 0
        &&& self.phase == CrawlPhase::AwaitListing || self.phase == CrawlPhase::AwaitDetail
            ==> self.page <= self.page_limit
        &&& distinct_identities(self.records)
        &&& forall|i: int| 0 <= i < self.records.len() ==> self.seen.contains(self.records[i].email)
    }
}

/// A crawl in progress.
pub struct Crawler {
    params: SearchParams,
    page_limit: u64,
    page: u64,
    targets: Vec<String>,
    cursor: usize,
    phase: CrawlPhase,
    seen: Deduplicator,
    records: Vec<ContactRecord>,
}

impl View for Crawler {
    type V = CrawlerView;

    closed spec fn view(&self) -> CrawlerView {
        CrawlerView {
            params: self.params@,
            page_limit: self.page_limit as nat,
            page: self.page as nat,
            pending: if self.phase == CrawlPhase::AwaitDetail {
                texts_view(self.targets@).subrange(self.cursor as int, self.targets.len() as int)
            } else {
                Seq::empty()
            },
            phase: self.phase,
            seen: self.seen@,
            records: records_view(self.records@),
        }
    }
}

/// The targets that are present, in the order of `targets`.
fn collect_present(targets: &Vec<Option<String>>) -> (present: Vec<String>)
    ensures
        texts_view(present@) == present_targets(targets_view(targets@)),
{
    let mut present: Vec<String> = Vec::new();
    let mut i: usize = 0;
    assert(targets_view(targets@).take(0) =~= Seq::empty());
    while i < targets.len()
        invariant
            i <= targets.len(),
            texts_view(present@) == present_targets(targets_view(targets@).take(i as int)),
        decreases targets.len() - i,
    {
        let ghost before = texts_view(present@);
        let ghost all = targets_view(targets@);
        assert(all.take(i + 1).drop_last() =~= all.take(i as int));
        assert(all.take(i + 1).last() == all[i as int]);
        match &targets[i] {
            Some(target) => {
                present.push(target.clone());
                assert(texts_view(present@) =~= before.push(target@));
            },
            None => {},
        }
        i += 1;
    }
    assert(targets_view(targets@).take(targets.len() as int) =~= targets_view(targets@));
    present
}

impl Crawler {
    /// What every crawl satisfies: its state is well formed, and so is the
    /// way it is held.
    pub closed spec fn wf(&self) -> bool {
        &&& self.cursor <= self.targets.len()
        &&& self.phase == CrawlPhase::AwaitDetail ==> self.cursor < self.targets.len()
        &&& self@.well_formed()
    }

    /// A crawl's state is well formed: in particular no two recorded
    /// contacts share an identity.
    pub proof fn lemma_state_well_formed(&self)
        requires
            self.wf(),
        ensures
            self@.well_formed(),
    {
    }

    /// A crawl of the pages 1 to `page_limit`, before its first request.
    pub fn new(params: SearchParams, page_limit: u64) -> (crawler: Crawler)
        ensures
            crawler@ == CrawlerView::start(params@, page_limit as nat),
            crawler.wf(),
    {
        let phase: CrawlPhase = if page_limit >= 1 {
            CrawlPhase::AwaitListing
        } else {
            CrawlPhase::Finished
        };
        let crawler = Crawler {
            params,
            page_limit,
            page: 1,
            targets: Vec::new(),
            cursor: 0,
            phase,
            seen: Deduplicator::new(),
            records: Vec::new(),
        };
        assert(crawler@.records =~= Seq::empty());
        crawler
    }

    /// A crawl that only an empty listing page ends (or the largest page
    /// number the machine can count to).
    pub fn unbounded(params: SearchParams) -> (crawler: Crawler)
        ensures
            crawler@ == CrawlerView::start(params@, u64::MAX as nat),
            crawler.wf(),
    {
        Crawler::new(params, u64::MAX)
    }

    /// What the crawl is waiting for.
    pub fn phase(&self) -> (phase: CrawlPhase)
        ensures
            phase == self@.phase,
    {
        self.phase
    }

    /// The number of the listing page in work.
    pub fn page(&self) -> (page: u64)
        ensures
            page == self@.page,
    {
        self.page
    }

    /// The records admitted so far, in the order of discovery.
    pub fn records(&self) -> (records: &Vec<ContactRecord>)
        ensures
            records_view(records@) == self@.records,
    {
        &self.records
    }

    /// Ends the crawl and hands out its records, in the order of
    /// discovery.
    pub fn into_records(self) -> (records: Vec<ContactRecord>)
        ensures
            records_view(records@) == self@.records,
    {
        self.records
    }

    /// What to fetch next.
    pub fn next_request(&self) -> (request: CrawlRequest)
        requires
            self.wf(),
        ensures
            request@ == self@.request(),
    {
        match self.phase {
            CrawlPhase::AwaitListing => CrawlRequest::Listing {
                url: listing_url_for(&self.params, self.page),
                page: self.page,
            },
            CrawlPhase::AwaitDetail => CrawlRequest::Detail {
                url: detail_url_for(&self.params, self.targets[self.cursor].as_str()),
            },
            _ => CrawlRequest::Nothing,
        }
    }

    /// Moves on from the page in work.
    fn go_to_next_page(&mut self)
        requires
            old(self).wf(),
            old(self).phase == CrawlPhase::AwaitListing || old(self).phase
                == CrawlPhase::AwaitDetail,
        ensures
            final(self)@ == old(self)@.next_page(),
            final(self).wf(),
            final(self).seen == old(self).seen,
            final(self).records == old(self).records,
    {
        if self.page < self.page_limit {
            self.phase = CrawlPhase::AwaitListing;
            self.page = self.page + 1;
        } else {
            self.phase = CrawlPhase::Finished;
        }
    }

    /// Takes the link targets of the awaited listing page, one entry for
    /// each link, in the order in which the selection yielded the links.
    /// Returns whether a listing page was awaited; if none was, nothing
    /// changes.
    pub fn on_listing(&mut self, targets: &Vec<Option<String>>) -> (expected: bool)
        requires
            old(self).wf(),
        ensures
            final(self).wf(),
            expected == (old(self)@.phase == CrawlPhase::AwaitListing),
            final(self)@ == old(self)@.after_listing(targets_view(targets@)),
    {
        if self.phase != CrawlPhase::AwaitListing {
            return false;
        }
        if targets.len() == 0 {
            self.phase = CrawlPhase::Finished;
            return true;
        }
        let present: Vec<String> = collect_present(targets);
        if present.len() == 0 {
            self.go_to_next_page();
        } else {
            self.cursor = 0;
            self.targets = present;
            self.phase = CrawlPhase::AwaitDetail;
            assert(self@.pending =~= present_targets(targets_view(targets@)));
        }
        true
    }

    /// Takes what the awaited detail page yielded. Reports what became of
    /// it and asks for the pause that follows every detail page. If no
    /// detail page was awaited, nothing changes and no pause is asked for.
    pub fn on_detail(&mut self, contact: Option<ContactRecord>) -> (report: DetailReport)
        requires
            old(self).wf(),
        ensures
            final(self).wf(),
            final(self)@ == old(self)@.after_detail(contact_view(contact)),
            report.outcome == old(self)@.detail_outcome(contact_view(contact)),
            report.pause_millis == if old(self)@.phase == CrawlPhase::AwaitDetail {
                CRAWL_PAUSE_MILLIS
            } else {
                0
            },
    {
        if self.phase != CrawlPhase::AwaitDetail {
            return DetailReport { outcome: DetailOutcome::Unexpected, pause_millis: 0 };
        }
        let ghost before = self@;
        let outcome: DetailOutcome = match contact {
            None => DetailOutcome::NoContact,
            Some(record) => {
                if self.seen.admit_identity(record.identity()) {
                    let ghost earlier = records_view(self.records@);
                    self.records.push(record);
                    assert(records_view(self.records@) =~= earlier.push(record@));
                    DetailOutcome::Admitted
                } else {
                    DetailOutcome::Duplicate
                }
            },
        };
        let ghost rest = before.pending.drop_first();
        if self.cursor + 1 < self.targets.len() {
            self.cursor = self.cursor + 1;
            assert(self@.pending =~= rest);
        } else {
            assert(rest.len() == 0);
            self.go_to_next_page();
        }
        DetailReport { outcome, pause_millis: CRAWL_PAUSE_MILLIS }
    }

    /// Takes the report of a fetch that failed: the crawl is given up, and
    /// the failure comes back as a network error to hand on.
    pub fn on_fetch_failure(&mut self, report: String) -> (error: BotError)
        requires
            old(self).wf(),
        ensures
            final(self).wf(),
            final(self)@ == old(self)@.after_failure(),
            error@ == (BotErrorView { kind: ErrorKind::Network, detail: report@ }),
    {
        if self.phase == CrawlPhase::AwaitListing || self.phase == CrawlPhase::AwaitDetail {
            self.phase = CrawlPhase::Aborted;
        }
        BotError::NetworkError(report)
    }

    /// Takes the text of the awaited listing page: reads its link targets
    /// and hands them to [`Crawler::on_listing`]. Fails with `InvalidData`,
    /// changing nothing, exactly where the page is too long to be read or
    /// the link selector is refused.
    pub fn on_listing_body(&mut self, body: &str) -> (taken: Result<bool, BotError>)
        requires
            old(self).wf(),
        ensures
            final(self).wf(),
            match listing_targets_of(body@) {
                Ok(targets) => taken == Ok::<bool, BotError>(
                    old(self)@.phase == CrawlPhase::AwaitListing,
                ) && final(self)@ == old(self)@.after_listing(targets),
                Err(detail) => taken matches Err(e) && e@ == (BotErrorView {
                    kind: ErrorKind::InvalidData,
                    detail,
                }) && final(self)@ == old(self)@,
            },
    {
        match listing_targets(body) {
            Ok(targets) => Ok(self.on_listing(&targets)),
            Err(e) => Err(e),
        }
    }

    /// Takes the text of the awaited detail page: reads its contact and
    /// hands it to [`Crawler::on_detail`]. If no detail page was awaited,
    /// nothing changes. Fails with `InvalidData`, changing nothing, exactly
    /// where a detail page was awaited and the page is too long to be read
    /// or the link selector is refused.
    pub fn on_detail_body(&mut self, body: &str) -> (taken: Result<DetailReport, BotError>)
        requires
            old(self).wf(),
        ensures
            final(self).wf(),
            old(self)@.phase != CrawlPhase::AwaitDetail ==> final(self)@ == old(self)@ && taken
                == Ok::<DetailReport, BotError>(
                DetailReport { outcome: DetailOutcome::Unexpected, pause_millis: 0 },
            ),
            old(self)@.phase == CrawlPhase::AwaitDetail ==> match extracted_contact_of(
                detail_url(old(self)@.params, old(self)@.pending[0]),
                body@,
            ) {
                Ok(contact) => final(self)@ == old(self)@.after_detail(contact) && taken
                    == Ok::<DetailReport, BotError>(
                    DetailReport {
                        outcome: old(self)@.detail_outcome(contact),
                        pause_millis: CRAWL_PAUSE_MILLIS,
                    },
                ),
                Err(detail) => taken matches Err(e) && e@ == (BotErrorView {
                    kind: ErrorKind::InvalidData,
                    detail,
                }) && final(self)@ == old(self)@,
            },
    {
        if self.phase != CrawlPhase::AwaitDetail {
            return Ok(DetailReport { outcome: DetailOutcome::Unexpected, pause_millis: 0 });
        }
        let url: String = detail_url_for(&self.params, self.targets[self.cursor].as_str());
        match extract_contact(url.as_str(), body) {
            Ok(contact) => Ok(self.on_detail(contact)),
            Err(e) => Err(e),
        }
    }
}

} // verus!
