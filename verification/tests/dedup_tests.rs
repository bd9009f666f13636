use outreach_bot::dedup::Deduplicator;

#[test]
fn admitting_one_identity_many_times_admits_it_once() {
    let mut dedup = Deduplicator::new();
    let mut admitted = 0;
    for _ in 0..7 {
        if dedup.admit_identity("x@y.com") {
            admitted += 1;
        }
    }
    assert_eq!(admitted, 1);
    assert!(dedup.has_seen("x@y.com"));
}

#[test]
fn first_presentation_is_admitted_second_is_not() {
    let mut dedup = Deduplicator::new();
    assert!(!dedup.has_seen("a@b.org"));
    assert!(dedup.admit_identity("a@b.org"));
    assert!(!dedup.admit_identity("a@b.org"));
    assert!(dedup.has_seen("a@b.org"));
}

#[test]
fn each_distinct_identity_is_admitted_exactly_once() {
    let mut dedup = Deduplicator::new();
    let presented = ["a@x.com", "b@x.com", "a@x.com", "c@x.com", "b@x.com", "a@x.com"];
    let answers: Vec<bool> = presented.iter().map(|id| dedup.admit_identity(id)).collect();
    assert_eq!(answers, vec![true, true, false, true, false, false]);
}

#[test]
fn identities_are_compared_as_written() {
    let mut dedup = Deduplicator::new();
    assert!(dedup.admit_identity("X@Y.com"));
    assert!(dedup.admit_identity("x@y.com"));
    assert!(dedup.admit_identity(""));
    assert!(!dedup.admit_identity(""));
}
