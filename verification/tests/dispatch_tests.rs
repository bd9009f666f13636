use outreach_bot::crawl::{CrawlRequest, Crawler, DetailOutcome, SearchParams};
use outreach_bot::dispatch::{
    DispatchAction, DispatchPhase, Dispatcher, SendOutcome, SEND_PAUSE_MILLIS,
};
use outreach_bot::error::BotError;
use outreach_bot::quota::{CounterStore, QuotaGate};
use outreach_bot::record::ContactRecord;

const DAY: &str = "2024-05-01";

fn record(url: &str, email: &str) -> ContactRecord {
    ContactRecord { source_url: url.to_string(), email: email.to_string() }
}

/// Runs a pass to its end against the in-process store; `delivers` says
/// for each recipient whether the send succeeds. Returns the recipients
/// sent to and the notices given.
fn run_pass(
    dispatcher: &mut Dispatcher,
    gate: &QuotaGate,
    store: &mut CounterStore,
    delivers: &dyn Fn(&str) -> bool,
) -> (Vec<String>, Vec<String>) {
    let mut sent = Vec::new();
    let mut notices = Vec::new();
    loop {
        match dispatcher.next_action() {
            DispatchAction::SkipInvalid { index } => {
                notices.push(format!("invalid:{}", dispatcher.records()[index].email));
                assert!(dispatcher.on_skipped());
            }
            DispatchAction::Reserve { .. } => {
                let reserved = gate.try_reserve(store, DAY);
                if reserved == Ok(false) {
                    notices.push("limit".to_string());
                }
                assert_eq!(dispatcher.on_reservation(reserved), None);
            }
            DispatchAction::Send { index } => {
                let recipient = dispatcher.records()[index].email.clone();
                let delivered = delivers(&recipient);
                sent.push(recipient);
                assert_eq!(dispatcher.on_send_result(delivered), SEND_PAUSE_MILLIS);
            }
            DispatchAction::Nothing => break,
        }
    }
    (sent, notices)
}

#[test]
fn dispatch_halts_when_the_quota_is_used_up() {
    let records: Vec<ContactRecord> =
        (1..=5).map(|i| record(&format!("u{}", i), &format!("r{}@x.com", i))).collect();
    let gate = QuotaGate::with_standard_retry(2);
    let mut store = CounterStore::new();
    let mut dispatcher = Dispatcher::new(records);
    let (sent, notices) = run_pass(&mut dispatcher, &gate, &mut store, &|_| true);
    assert_eq!(sent, vec!["r1@x.com", "r2@x.com"]);
    assert_eq!(notices, vec!["limit"]);
    assert_eq!(dispatcher.phase(), DispatchPhase::Halted);
    assert_eq!(
        dispatcher.outcomes(),
        &vec![
            SendOutcome { index: 0, delivered: true },
            SendOutcome { index: 1, delivered: true }
        ]
    );
    assert_eq!(dispatcher.slots_used(), 2);
    assert_eq!(store.read("emails_sent:2024-05-01"), Some(2));
    assert_eq!(dispatcher.next_action(), DispatchAction::Nothing);
}

#[test]
fn invalid_recipient_is_skipped_and_costs_no_slot() {
    let records = vec![
        record("u1", "not-an-email"),
        record("u2", "a@x.com"),
        record("u3", ""),
        record("u4", "b@x.com"),
    ];
    let gate = QuotaGate::with_standard_retry(10);
    let mut store = CounterStore::new();
    let mut dispatcher = Dispatcher::new(records);
    let (sent, notices) = run_pass(&mut dispatcher, &gate, &mut store, &|_| true);
    assert_eq!(sent, vec!["a@x.com", "b@x.com"]);
    assert_eq!(notices, vec!["invalid:not-an-email", "invalid:"]);
    assert_eq!(dispatcher.skipped(), &vec![0, 2]);
    assert_eq!(dispatcher.slots_used(), 2);
    assert_eq!(store.read("emails_sent:2024-05-01"), Some(2));
    assert_eq!(dispatcher.phase(), DispatchPhase::Ready);
}

#[test]
fn invalid_recipient_alone_leaves_the_store_untouched() {
    let gate = QuotaGate::with_standard_retry(10);
    let mut store = CounterStore::new();
    let mut dispatcher = Dispatcher::new(vec![record("u", "not-an-email")]);
    assert_eq!(dispatcher.next_action(), DispatchAction::SkipInvalid { index: 0 });
    let (sent, _) = run_pass(&mut dispatcher, &gate, &mut store, &|_| true);
    assert!(sent.is_empty());
    assert_eq!(store.read("emails_sent:2024-05-01"), None);
    assert_eq!(dispatcher.slots_used(), 0);
}

#[test]
fn a_failed_send_keeps_its_slot_and_the_pass_goes_on() {
    let records = vec![record("u1", "a@x.com"), record("u2", "b@x.com"), record("u3", "c@x.com")];
    let gate = QuotaGate::with_standard_retry(2);
    let mut store = CounterStore::new();
    let mut dispatcher = Dispatcher::new(records);
    let (sent, notices) = run_pass(&mut dispatcher, &gate, &mut store, &|to| to != "a@x.com");
    assert_eq!(sent, vec!["a@x.com", "b@x.com"]);
    assert_eq!(notices, vec!["limit"]);
    assert_eq!(
        dispatcher.outcomes(),
        &vec![
            SendOutcome { index: 0, delivered: false },
            SendOutcome { index: 1, delivered: true }
        ]
    );
    assert_eq!(store.read("emails_sent:2024-05-01"), Some(2));
}

#[test]
fn a_store_failure_gives_the_pass_up() {
    let mut dispatcher = Dispatcher::new(vec![record("u1", "a@x.com"), record("u2", "b@x.com")]);
    assert_eq!(dispatcher.next_action(), DispatchAction::Reserve { index: 0 });
    let failure = BotError::RedisError("connection refused".to_string());
    assert_eq!(dispatcher.on_reservation(Err(failure.clone())), Some(failure));
    assert_eq!(dispatcher.phase(), DispatchPhase::Aborted);
    assert_eq!(dispatcher.next_action(), DispatchAction::Nothing);
    assert!(dispatcher.outcomes().is_empty());
    assert_eq!(dispatcher.on_send_result(true), 0);
    assert!(!dispatcher.on_skipped());
}

#[test]
fn answers_out_of_turn_change_nothing() {
    let mut dispatcher = Dispatcher::new(vec![record("u1", "a@x.com")]);
    assert!(!dispatcher.on_skipped());
    assert_eq!(dispatcher.on_send_result(true), 0);
    assert_eq!(dispatcher.next_action(), DispatchAction::Reserve { index: 0 });
    assert_eq!(dispatcher.on_reservation(Ok(true)), None);
    assert_eq!(dispatcher.phase(), DispatchPhase::Reserved);
    assert_eq!(dispatcher.slots_used(), 1);
    assert_eq!(dispatcher.on_reservation(Ok(false)), None);
    assert_eq!(
        dispatcher.on_reservation(Err(BotError::RedisError("late".to_string()))),
        None
    );
    assert_eq!(dispatcher.next_action(), DispatchAction::Send { index: 0 });
    assert_eq!(dispatcher.on_send_result(true), 1000);
    assert_eq!(dispatcher.next_action(), DispatchAction::Nothing);
    assert_eq!(dispatcher.phase(), DispatchPhase::Ready);
}

#[test]
fn an_empty_pass_has_nothing_to_do() {
    let dispatcher = Dispatcher::new(Vec::new());
    assert_eq!(dispatcher.next_action(), DispatchAction::Nothing);
    assert_eq!(dispatcher.slots_used(), 0);
}

#[test]
fn crawl_dedup_and_dispatch_end_to_end() {
    let found = vec![record("a", "x@y.com"), record("a", "x@y.com"), record("b", "bad")];
    let params = SearchParams {
        base_url: String::new(),
        search_terms: "t".to_string(),
        geo_location_terms: "g".to_string(),
    };
    let mut crawler = Crawler::unbounded(params);
    let mut listings = vec![
        vec![Some("a".to_string()), Some("a".to_string()), Some("b".to_string())],
        Vec::new(),
    ]
    .into_iter();
    let mut yields = found.into_iter();
    let mut duplicates = 0;
    loop {
        match crawler.next_request() {
            CrawlRequest::Listing { .. } => {
                assert!(crawler.on_listing(&listings.next().unwrap()));
            }
            CrawlRequest::Detail { url } => {
                let contact = yields.next().unwrap();
                assert_eq!(contact.source_url, url);
                if crawler.on_detail(Some(contact)).outcome == DetailOutcome::Duplicate {
                    duplicates += 1;
                }
            }
            CrawlRequest::Nothing => break,
        }
    }
    assert_eq!(duplicates, 1);
    let records = crawler.into_records();
    assert_eq!(records, vec![record("a", "x@y.com"), record("b", "bad")]);

    let gate = QuotaGate::with_standard_retry(10);
    let mut store = CounterStore::new();
    let mut dispatcher = Dispatcher::new(records);
    let (sent, notices) = run_pass(&mut dispatcher, &gate, &mut store, &|_| true);
    assert_eq!(sent, vec!["x@y.com"]);
    assert_eq!(notices, vec!["invalid:bad"]);
    assert_eq!(dispatcher.outcomes(), &vec![SendOutcome { index: 0, delivered: true }]);
    assert_eq!(dispatcher.skipped(), &vec![1]);
    assert_eq!(store.read("emails_sent:2024-05-01"), Some(1));
}
