use rust_fc::io::SequenceError;
use rust_fc::sequence::{classify, Arrival, Observation, SequenceTracker};

#[test]
fn classify_in_order() {
    assert_eq!(classify(5, 5), (Arrival::InOrder, 6));
}

#[test]
fn classify_stale() {
    assert_eq!(classify(5, 3), (Arrival::Stale, 5));
}

#[test]
fn classify_gapped() {
    assert_eq!(classify(5, 9), (Arrival::Gapped, 10));
}

#[test]
fn classify_first_packet() {
    assert_eq!(classify(0, 0), (Arrival::InOrder, 1));
    assert_eq!(classify(0, 1), (Arrival::Gapped, 2));
}

#[test]
fn classify_neighbours_of_expected() {
    assert_eq!(classify(100, 99), (Arrival::Stale, 100));
    assert_eq!(classify(100, 100), (Arrival::InOrder, 101));
    assert_eq!(classify(100, 101), (Arrival::Gapped, 102));
}

#[test]
fn classify_at_the_end_of_the_range() {
    assert_eq!(classify(u32::MAX, 0), (Arrival::Stale, u32::MAX));
    assert_eq!(classify(u32::MAX, u32::MAX - 1), (Arrival::Stale, u32::MAX));
    assert_eq!(classify(u32::MAX - 1, u32::MAX - 1), (Arrival::InOrder, u32::MAX));
    assert_eq!(classify(0, u32::MAX - 1), (Arrival::Gapped, u32::MAX));
}

#[test]
fn stale_is_dropped_and_the_rest_accepted() {
    assert!(Arrival::InOrder.is_accepted());
    assert!(Arrival::Gapped.is_accepted());
    assert!(!Arrival::Stale.is_accepted());
}

#[test]
fn expected_never_goes_back() {
    let mut expected = 0;
    for received in [0u32, 1, 1, 0, 7, 3, 8, 8, 2, 20] {
        let (arrival, next) = classify(expected, received);
        assert!(next >= expected);
        if arrival.is_accepted() {
            assert_eq!(next, received + 1);
            assert_eq!(classify(next, received).0, Arrival::Stale);
        } else {
            assert_eq!(next, expected);
        }
        expected = next;
    }
    assert_eq!(expected, 21);
}

#[test]
fn tracker_starts_at_zero() {
    let tracker = SequenceTracker::new(35020);
    assert_eq!(tracker.port, 35020);
    assert_eq!(tracker.expected, 0);
}

#[test]
fn tracker_in_order_raises_no_error() {
    let mut tracker = SequenceTracker::new(35020);
    for seqn in 0..3 {
        let seen = tracker.observe(seqn);
        assert_eq!(seen, Observation { arrival: Arrival::InOrder, error: None });
    }
    assert_eq!(tracker.expected, 3);
}

#[test]
fn tracker_gap_raises_one_error_and_moves_on() {
    let mut tracker = SequenceTracker::new(35020);
    assert_eq!(tracker.observe(0).error, None);
    assert_eq!(tracker.observe(1).error, None);
    let seen = tracker.observe(5);
    assert_eq!(seen.arrival, Arrival::Gapped);
    assert_eq!(
        seen.error,
        Some(SequenceError { port: 35020, expected: 2, received: 5 })
    );
    assert_eq!(tracker.expected, 6);
    assert_eq!(tracker.observe(6).error, None);
}

#[test]
fn tracker_stale_raises_an_error_and_stays() {
    let mut tracker = SequenceTracker { port: 7, expected: 5 };
    let seen = tracker.observe(3);
    assert_eq!(seen.arrival, Arrival::Stale);
    assert_eq!(seen.error, Some(SequenceError { port: 7, expected: 5, received: 3 }));
    assert_eq!(tracker, SequenceTracker { port: 7, expected: 5 });
}

#[test]
fn tracker_duplicate_is_stale() {
    let mut tracker = SequenceTracker::new(1);
    assert_eq!(tracker.observe(4).arrival, Arrival::Gapped);
    assert_eq!(tracker.observe(4).arrival, Arrival::Stale);
    assert_eq!(tracker.expected, 5);
}
