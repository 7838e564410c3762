use block_sync::state::State;
use block_sync::types::HeightRange;

#[test]
fn process_range_offers_the_gap() {
    let mut s = State::new(Some(0), Some(3));
    let r = s.process_range();
    assert_eq!(r, Some(HeightRange { start: 1, end: 3 }));
    assert_eq!(s.in_progress(), Some(HeightRange { start: 1, end: 3 }));
    assert_eq!(s.committed_tip(), Some(0));
    assert_eq!(s.observed_tip(), Some(3));
}

#[test]
fn process_range_empty_when_synced() {
    let mut s = State::new(Some(3), Some(3));
    assert_eq!(s.process_range(), None);
    assert_eq!(s.in_progress(), None);

    let mut s = State::new(None, None);
    assert_eq!(s.process_range(), None);
}

#[test]
fn process_range_with_nothing_committed() {
    let mut s = State::new(None, Some(2));
    assert_eq!(s.process_range(), Some(HeightRange { start: 0, end: 2 }));
}

#[test]
fn commit_advances_tip_by_one() {
    let mut s = State::new(Some(0), Some(3));
    s.commit(1);
    assert_eq!(s.committed_tip(), Some(1));
    s.commit(2);
    assert_eq!(s.committed_tip(), Some(2));
    s.commit(3);
    assert_eq!(s.committed_tip(), Some(3));
    assert_eq!(s.observed_tip(), Some(3));
}

#[test]
fn failed_to_process_records_the_range() {
    let mut s = State::new(Some(1), Some(5));
    s.failed_to_process(HeightRange { start: 2, end: 5 });
    assert!(!s.is_failed(1));
    assert!(s.is_failed(2));
    assert!(s.is_failed(5));
    assert!(!s.is_failed(6));
    assert_eq!(s.committed_tip(), Some(1));
}

#[test]
fn commit_clears_the_height_from_failed() {
    let mut s = State::new(Some(1), Some(5));
    s.failed_to_process(HeightRange { start: 2, end: 5 });
    s.commit(2);
    assert!(!s.is_failed(2));
    assert!(s.is_failed(3));
    assert!(s.is_failed(4));
    assert!(s.is_failed(5));
}

#[test]
fn commit_splits_a_covering_failed_range() {
    let mut s = State::new(Some(2), Some(6));
    s.failed_to_process(HeightRange { start: 2, end: 6 });
    s.commit(3);
    assert!(s.is_failed(2));
    assert!(!s.is_failed(3));
    assert!(s.is_failed(4));
    assert!(s.is_failed(6));
    assert_eq!(
        s.failed_ranges().as_slice(),
        &[HeightRange { start: 2, end: 2 }, HeightRange { start: 4, end: 6 }]
    );
}

#[test]
fn observe_only_raises_the_tip() {
    let mut s = State::new(Some(1), Some(3));
    assert!(!s.observe(2));
    assert_eq!(s.observed_tip(), Some(3));
    assert!(s.observe(5));
    assert_eq!(s.observed_tip(), Some(5));
    assert_eq!(s.committed_tip(), Some(1));
    assert_eq!(s.process_range(), Some(HeightRange { start: 2, end: 5 }));

    let mut s = State::new(None, None);
    assert!(s.observe(0));
    assert_eq!(s.observed_tip(), Some(0));
}

#[test]
fn committed_tip_never_decreases() {
    let mut s = State::new(Some(0), Some(4));
    let mut last = s.committed_tip();
    let _ = s.process_range();
    assert!(s.committed_tip() >= last);
    last = s.committed_tip();
    s.commit(1);
    assert!(s.committed_tip() >= last);
    last = s.committed_tip();
    s.failed_to_process(HeightRange { start: 2, end: 4 });
    assert!(s.committed_tip() >= last);
    last = s.committed_tip();
    s.commit(2);
    assert!(s.committed_tip() >= last);
}
