use ashframe_sim::targeting::{cycle_index, LockChange, LockTrack, TargetLock};

#[test]
fn locking_reports_the_previous_lock_lost() {
    let mut lock = TargetLock::new();
    assert_eq!(lock.locked_id(), None);
    let first = lock.lock_on(1001, true);
    assert_eq!(first, LockChange { lost: None, acquired: Some(1001) });
    let second = lock.lock_on(1002, true);
    assert_eq!(second, LockChange { lost: Some(1001), acquired: Some(1002) });
    assert_eq!(lock.locked_id(), Some(1002));
}

#[test]
fn relocking_the_same_target_says_nothing() {
    let mut lock = TargetLock::new();
    lock.lock_on(1001, true);
    assert_eq!(lock.track(true, false, false), LockTrack::Holding);
    assert_eq!(lock.lock_on(1001, true), LockChange { lost: None, acquired: None });
    assert!(lock.holding());
}

#[test]
fn a_target_that_is_not_there_cannot_be_locked() {
    let mut lock = TargetLock::new();
    lock.lock_on(1001, true);
    assert_eq!(lock.lock_on(1005, false), LockChange { lost: None, acquired: None });
    assert_eq!(lock.locked_id(), Some(1001));
}

#[test]
fn releasing_reports_once() {
    let mut lock = TargetLock::new();
    lock.lock_on(1003, true);
    assert_eq!(lock.track(true, false, false), LockTrack::Holding);
    assert_eq!(lock.release(), Some(1003));
    assert!(!lock.holding());
    assert_eq!(lock.release(), None);
}

#[test]
fn the_wheel_wraps_at_both_ends() {
    let ids = vec![10, 20, 30];
    assert_eq!(cycle_index(&ids, None, true), 0);
    assert_eq!(cycle_index(&ids, None, false), 0);
    assert_eq!(cycle_index(&ids, Some(10), true), 1);
    assert_eq!(cycle_index(&ids, Some(30), true), 0);
    assert_eq!(cycle_index(&ids, Some(10), false), 2);
    assert_eq!(cycle_index(&ids, Some(20), false), 0);
    // A lock on something no longer offered starts from the top.
    assert_eq!(cycle_index(&ids, Some(99), false), 0);
}

#[test]
fn a_lock_out_of_reach_holds_through_its_grace() {
    let mut lock = TargetLock::new();
    assert_eq!(lock.track(true, true, false), LockTrack::Idle);
    lock.lock_on(1004, true);
    assert_eq!(lock.track(true, true, true), LockTrack::Steady);
    assert!(!lock.holding());
    assert_eq!(lock.track(true, false, false), LockTrack::Holding);
    assert!(lock.holding());
    assert_eq!(lock.locked_id(), Some(1004));
    assert_eq!(lock.track(true, true, false), LockTrack::Steady, "back in reach");
    assert!(!lock.holding());
    assert_eq!(lock.track(true, false, true), LockTrack::Lost(1004));
    assert_eq!(lock.locked_id(), None);
    assert!(!lock.holding());
}

#[test]
fn a_dead_target_loses_the_lock_at_once() {
    let mut lock = TargetLock::new();
    lock.lock_on(1006, true);
    assert_eq!(lock.track(false, true, false), LockTrack::Lost(1006));
    assert_eq!(lock.locked_id(), None);
    assert_eq!(lock.track(false, true, false), LockTrack::Idle);
}
