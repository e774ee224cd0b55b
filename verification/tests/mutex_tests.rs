use pros_simulator::mutex::{take_deadline, LockPoll, MutexTable, MUTEX_TIMEOUT_INFINITE};

#[test]
fn identifiers_are_reused_only_after_deletion() {
    let mut m = MutexTable::new();
    let a = m.create_mutex();
    let b = m.create_mutex();
    assert_eq!(a, 0);
    assert_eq!(b, 1);
    m.delete_mutex(a);
    let c = m.create_mutex();
    assert_eq!(c, 0);
    let d = m.create_mutex();
    assert_eq!(d, 2);
}

#[test]
fn no_simultaneous_acquisition() {
    let mut m = MutexTable::new();
    let id = m.create_mutex();
    let first = m.lock_request(id, 1);
    let second = m.lock_request(id, 2);
    assert!(first);
    assert!(!second);
    assert_eq!(m.slots[id].holder, Some(1));
}

#[test]
fn unlock_hands_over_in_fifo_order() {
    let mut m = MutexTable::new();
    let id = m.create_mutex();
    assert!(m.lock_request(id, 1));
    assert!(!m.lock_request(id, 2));
    assert!(!m.lock_request(id, 3));

    assert_eq!(m.unlock(id), Some(2));
    assert_eq!(m.slots[id].holder, Some(2));
    assert_eq!(m.unlock(id), Some(3));
    assert_eq!(m.slots[id].holder, Some(3));
    assert_eq!(m.unlock(id), None);
    assert_eq!(m.slots[id].holder, None);
}

#[test]
fn poll_reports_acquisition_after_handover() {
    let mut m = MutexTable::new();
    let id = m.create_mutex();
    assert!(m.lock_request(id, 1));
    assert!(!m.lock_request(id, 2));

    assert_eq!(m.poll_lock(id, 2, 10, Some(100)), LockPoll::Waiting);
    m.unlock(id);
    assert_eq!(m.poll_lock(id, 2, 10, Some(100)), LockPoll::Acquired);
}

#[test]
fn poll_times_out_exactly_at_the_deadline() {
    let mut m = MutexTable::new();
    let id = m.create_mutex();
    assert!(m.lock_request(id, 1));
    assert!(!m.lock_request(id, 2));

    assert_eq!(m.poll_lock(id, 2, 99, Some(100)), LockPoll::Waiting);
    assert_eq!(m.poll_lock(id, 2, 100, Some(100)), LockPoll::TimedOut);
    assert_eq!(m.poll_lock(id, 2, 101, Some(100)), LockPoll::TimedOut);
}

#[test]
fn poll_without_deadline_waits_indefinitely() {
    let mut m = MutexTable::new();
    let id = m.create_mutex();
    assert!(m.lock_request(id, 1));
    assert!(!m.lock_request(id, 2));
    assert_eq!(m.poll_lock(id, 2, u64::MAX, None), LockPoll::Waiting);
}

#[test]
fn cancel_wait_withdraws_only_the_timed_out_task() {
    let mut m = MutexTable::new();
    let id = m.create_mutex();
    assert!(m.lock_request(id, 1));
    assert!(!m.lock_request(id, 2));
    assert!(!m.lock_request(id, 3));

    m.cancel_wait(id, 2);
    assert_eq!(m.slots[id].waiters, vec![3]);
    assert_eq!(m.unlock(id), Some(3));
}

#[test]
fn deleting_a_held_mutex_abandons_its_waiters() {
    let mut m = MutexTable::new();
    let id = m.create_mutex();
    assert!(m.lock_request(id, 1));
    assert!(!m.lock_request(id, 2));
    m.delete_mutex(id);
    assert!(!m.slots[id].exists);
    assert_eq!(m.slots[id].holder, None);
    assert_eq!(m.slots[id].waiters.len(), 0);
}

#[test]
fn take_deadline_treats_the_sentinel_as_infinite() {
    assert_eq!(take_deadline(500, MUTEX_TIMEOUT_INFINITE), None);
    assert_eq!(take_deadline(500, 0), Some(500));
    assert_eq!(take_deadline(500, 250), Some(750));
}
