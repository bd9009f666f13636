use outreach_bot::error::{BotError, ErrorKind};
use outreach_bot::quota::{
    day_of, key_for_day, key_for_instant, CounterStore, DailyCounter, GateDecision, QuotaGate,
    ReserveStep, Retry, RetryPolicy, RetryStep, COUNTER_TTL_SECONDS,
};

#[test]
fn decide_follows_the_protocol() {
    let gate = QuotaGate::with_standard_retry(5);
    assert_eq!(gate.daily_maximum(), 5);
    assert_eq!(gate.decide(None), GateDecision::StartFresh);
    assert_eq!(gate.decide(Some(0)), GateDecision::Increment { refresh_expiry: true });
    assert_eq!(gate.decide(Some(3)), GateDecision::Increment { refresh_expiry: false });
    assert_eq!(gate.decide(Some(4)), GateDecision::Increment { refresh_expiry: false });
    assert_eq!(gate.decide(Some(5)), GateDecision::Exhausted);
    assert_eq!(gate.decide(Some(7)), GateDecision::Exhausted);
    assert_eq!(gate.decide(Some(-2)), GateDecision::Increment { refresh_expiry: false });
    assert!(GateDecision::StartFresh.is_grant());
    assert!(GateDecision::Increment { refresh_expiry: false }.is_grant());
    assert!(!GateDecision::Exhausted.is_grant());
}

#[test]
fn decide_compares_beyond_the_signed_range() {
    let gate = QuotaGate::with_standard_retry(u64::MAX);
    assert_eq!(gate.decide(Some(i64::MAX)), GateDecision::Increment { refresh_expiry: false });
    let none = QuotaGate::with_standard_retry(0);
    assert_eq!(none.decide(Some(0)), GateDecision::Exhausted);
    assert_eq!(none.decide(None), GateDecision::StartFresh);
}

#[test]
fn grants_never_exceed_the_daily_maximum() {
    let gate = QuotaGate::with_standard_retry(3);
    let mut store = CounterStore::new();
    let mut answers = Vec::new();
    for _ in 0..6 {
        answers.push(gate.try_reserve(&mut store, "2024-05-01").unwrap());
    }
    assert_eq!(answers, vec![true, true, true, false, false, false]);
    assert_eq!(
        store.counter("emails_sent:2024-05-01"),
        Some(DailyCounter { value: 3, ttl_seconds: Some(COUNTER_TTL_SECONDS) })
    );
}

#[test]
fn first_reservation_creates_the_counter_with_a_day_of_life() {
    let gate = QuotaGate::with_standard_retry(400);
    let mut store = CounterStore::new();
    assert_eq!(store.read("emails_sent:2030-01-31"), None);
    assert_eq!(gate.try_reserve(&mut store, "2030-01-31"), Ok(true));
    assert_eq!(store.read("emails_sent:2030-01-31"), Some(1));
    assert_eq!(
        store.counter("emails_sent:2030-01-31"),
        Some(DailyCounter { value: 1, ttl_seconds: Some(86400) })
    );
}

#[test]
fn a_counter_at_zero_gets_its_expiry_set_again() {
    let gate = QuotaGate::with_standard_retry(2);
    let mut store = CounterStore::new();
    let key = key_for_day("2024-02-29");
    store.put(&key, DailyCounter { value: 0, ttl_seconds: None });
    assert_eq!(gate.try_reserve(&mut store, "2024-02-29"), Ok(true));
    assert_eq!(store.counter(&key), Some(DailyCounter { value: 1, ttl_seconds: Some(86400) }));
}

#[test]
fn an_increment_above_zero_leaves_the_expiry_alone() {
    let gate = QuotaGate::with_standard_retry(10);
    let mut store = CounterStore::new();
    let key = key_for_day("2024-02-29");
    store.put(&key, DailyCounter { value: 4, ttl_seconds: Some(120) });
    assert_eq!(gate.try_reserve(&mut store, "2024-02-29"), Ok(true));
    assert_eq!(store.counter(&key), Some(DailyCounter { value: 5, ttl_seconds: Some(120) }));
}

#[test]
fn a_counter_above_the_maximum_is_left_alone() {
    let gate = QuotaGate::with_standard_retry(3);
    let mut store = CounterStore::new();
    let key = key_for_day("2024-02-29");
    store.put(&key, DailyCounter { value: 9, ttl_seconds: Some(5) });
    assert_eq!(gate.try_reserve(&mut store, "2024-02-29"), Ok(false));
    assert_eq!(store.counter(&key), Some(DailyCounter { value: 9, ttl_seconds: Some(5) }));
}

#[test]
fn a_missing_counter_is_started_even_under_a_maximum_of_zero() {
    let gate = QuotaGate::with_standard_retry(0);
    let mut store = CounterStore::new();
    assert_eq!(gate.try_reserve(&mut store, "2024-05-01"), Ok(true));
    assert_eq!(gate.try_reserve(&mut store, "2024-05-01"), Ok(false));
    assert_eq!(store.read("emails_sent:2024-05-01"), Some(1));
}

#[test]
fn an_increment_of_the_largest_value_is_refused_by_the_store() {
    let gate = QuotaGate::with_standard_retry(u64::MAX);
    let mut store = CounterStore::new();
    let key = key_for_day("2024-05-01");
    store.put(&key, DailyCounter { value: i64::MAX, ttl_seconds: None });
    let refused = gate.try_reserve(&mut store, "2024-05-01");
    assert_eq!(
        refused,
        Err(BotError::RedisError("increment or decrement would overflow".to_string()))
    );
    assert_eq!(store.counter(&key), Some(DailyCounter { value: i64::MAX, ttl_seconds: None }));
}

#[test]
fn apply_carries_out_each_decision() {
    let mut store = CounterStore::new();
    assert_eq!(store.apply("k", GateDecision::Exhausted), Ok(()));
    assert_eq!(store.counter("k"), None);
    assert_eq!(store.apply("k", GateDecision::Increment { refresh_expiry: false }), Ok(()));
    assert_eq!(store.counter("k"), Some(DailyCounter { value: 1, ttl_seconds: None }));
    assert_eq!(store.apply("k", GateDecision::Increment { refresh_expiry: true }), Ok(()));
    assert_eq!(store.counter("k"), Some(DailyCounter { value: 2, ttl_seconds: Some(86400) }));
    assert_eq!(store.apply("k", GateDecision::StartFresh), Ok(()));
    assert_eq!(store.counter("k"), Some(DailyCounter { value: 1, ttl_seconds: Some(86400) }));
    assert_eq!(store.counter("other"), None);
}

#[test]
fn one_day_does_not_touch_the_next() {
    let gate = QuotaGate::with_standard_retry(2);
    let mut store = CounterStore::new();
    assert_eq!(gate.try_reserve(&mut store, "2024-12-31"), Ok(true));
    assert_eq!(gate.try_reserve(&mut store, "2024-12-31"), Ok(true));
    assert_eq!(gate.try_reserve(&mut store, "2024-12-31"), Ok(false));
    assert_eq!(gate.try_reserve(&mut store, "2025-01-01"), Ok(true));
    assert_eq!(gate.try_reserve(&mut store, "2025-01-01"), Ok(true));
    assert_eq!(gate.try_reserve(&mut store, "2025-01-01"), Ok(false));
    assert_eq!(store.read("emails_sent:2024-12-31"), Some(2));
    assert_eq!(store.read("emails_sent:2025-01-01"), Some(2));
}

#[test]
fn keys_hold_the_prefix_and_the_day() {
    assert_eq!(key_for_day("2024-05-01"), "emails_sent:2024-05-01");
    assert_eq!(key_for_day(""), "emails_sent:");
}

#[test]
fn days_are_read_off_the_utc_calendar() {
    assert_eq!(day_of(0), Some("1970-01-01".to_string()));
    assert_eq!(day_of(86399), Some("1970-01-01".to_string()));
    assert_eq!(day_of(86400), Some("1970-01-02".to_string()));
    assert_eq!(day_of(1431648000), Some("2015-05-15".to_string()));
    assert_eq!(day_of(1709251199), Some("2024-02-29".to_string()));
    assert_eq!(day_of(-1), Some("1969-12-31".to_string()));
    assert_eq!(day_of(253402300799), Some("9999-12-31".to_string()));
    assert_eq!(day_of(253402300800), Some("+10000-01-01".to_string()));
    assert_eq!(day_of(i64::MAX), None);
}

#[test]
fn instants_of_consecutive_days_get_different_keys() {
    let today = key_for_instant(1735689599).unwrap();
    let tomorrow = key_for_instant(1735689600).unwrap();
    assert_eq!(today, "emails_sent:2024-12-31");
    assert_eq!(tomorrow, "emails_sent:2025-01-01");
    assert_eq!(key_for_instant(i64::MIN), None);
}

#[test]
fn the_key_for_now_has_the_shape_of_a_day_key() {
    let since_epoch = std::time::SystemTime::now()
        .duration_since(std::time::UNIX_EPOCH)
        .expect("clock at or after 1970");
    let key = key_for_instant(since_epoch.as_secs() as i64).unwrap();
    assert!(key.starts_with("emails_sent:"));
    let day = &key["emails_sent:".len()..];
    assert_eq!(day.len(), 10);
    let bytes = day.as_bytes();
    assert_eq!(bytes[4], b'-');
    assert_eq!(bytes[7], b'-');
}

#[test]
fn standard_policy_is_five_attempts_half_a_second_apart() {
    let policy = RetryPolicy::standard();
    assert_eq!(policy, RetryPolicy { max_attempts: 5, delay_millis: 500 });
    let retry = QuotaGate::with_standard_retry(1).begin();
    assert_eq!(retry, Retry::new(policy));
    assert_eq!(retry.failed_attempts(), 0);
}

#[test]
fn four_failures_then_success_settles_on_the_fifth_attempt() {
    let gate = QuotaGate::with_standard_retry(400);
    let mut store = CounterStore::new();
    let mut retry = gate.begin();
    let mut attempts = 0;
    let mut script = vec![true, true, true, true, false].into_iter();
    let step = loop {
        attempts += 1;
        let fails = script.next().unwrap();
        let outcome = if fails {
            Err("connection refused".to_string())
        } else {
            gate.try_reserve(&mut store, "2024-05-01").map_err(|e| e.message())
        };
        match gate.settle(&mut retry, outcome) {
            ReserveStep::RetryAfter { millis } => assert_eq!(millis, 500),
            settled => break settled,
        }
    };
    assert_eq!(step, ReserveStep::Granted);
    assert_eq!(attempts, 5);
    assert_eq!(retry.failed_attempts(), 4);
    assert_eq!(store.read("emails_sent:2024-05-01"), Some(1));
}

#[test]
fn six_failures_give_up_after_exactly_five_attempts() {
    let gate = QuotaGate::with_standard_retry(400);
    let mut retry = gate.begin();
    let mut attempts = 0;
    let mut script = vec![true; 6].into_iter();
    let step = loop {
        attempts += 1;
        assert!(script.next().unwrap());
        let outcome = Err(format!("timeout {}", attempts));
        match gate.settle(&mut retry, outcome) {
            ReserveStep::RetryAfter { millis } => assert_eq!(millis, 500),
            settled => break settled,
        }
    };
    assert_eq!(attempts, 5);
    assert_eq!(step, ReserveStep::Failed(BotError::RedisError("timeout 5".to_string())));
    assert_eq!(script.count(), 1);
    match step {
        ReserveStep::Failed(error) => assert_eq!(error.kind(), ErrorKind::Redis),
        _ => unreachable!(),
    }
}

#[test]
fn a_refusal_settles_at_once_as_exhausted() {
    let gate = QuotaGate::with_standard_retry(1);
    let mut retry = gate.begin();
    assert_eq!(gate.settle(&mut retry, Ok(false)), ReserveStep::Exhausted);
    assert_eq!(retry.failed_attempts(), 0);
}

#[test]
fn retry_helper_follows_its_policy() {
    let mut retry = Retry::new(RetryPolicy { max_attempts: 2, delay_millis: 30 });
    let first: RetryStep<u8> = retry.on_outcome(Err("a".to_string()));
    assert_eq!(first, RetryStep::RetryAfter { millis: 30 });
    let second: RetryStep<u8> = retry.on_outcome(Err("b".to_string()));
    assert_eq!(second, RetryStep::GiveUp("b".to_string()));
    assert_eq!(retry.failed_attempts(), 2);

    let mut lucky = Retry::new(RetryPolicy { max_attempts: 2, delay_millis: 30 });
    let _: RetryStep<u8> = lucky.on_outcome(Err("a".to_string()));
    assert_eq!(lucky.on_outcome(Ok(9u8)), RetryStep::Done(9));
    assert_eq!(lucky.failed_attempts(), 1);
}

#[test]
fn a_policy_without_attempts_gives_up_on_the_first_failure() {
    let mut retry = Retry::new(RetryPolicy { max_attempts: 0, delay_millis: 1 });
    let step: RetryStep<bool> = retry.on_outcome(Err("down".to_string()));
    assert_eq!(step, RetryStep::GiveUp("down".to_string()));
    assert_eq!(retry.failed_attempts(), 0);
    let mut single = Retry::new(RetryPolicy { max_attempts: 1, delay_millis: 1 });
    let step: RetryStep<bool> = single.on_outcome(Err("down".to_string()));
    assert_eq!(step, RetryStep::GiveUp("down".to_string()));
}
