use pros_simulator::errno::Errno;
use pros_simulator::tasks::{
    delay_deadline, delay_should_wait, delay_until_deadline, millis_now, TaskPool,
    TASK_LOCAL_SLOTS,
};

#[test]
fn spawn_assigns_fresh_monotone_identifiers() {
    let mut pool = TaskPool::new();
    let a = pool.spawn(true, 7, 0, 8).unwrap();
    let b = pool.spawn(true, 9, 0, 8).unwrap();
    assert_eq!(a, 1);
    assert_eq!(b, 2);
    assert_ne!(a, b);
}

#[test]
fn identifiers_are_not_reused_after_tasks_finish() {
    let mut pool = TaskPool::new();
    let mut seen: Vec<u32> = Vec::new();
    for round in 0..10u32 {
        let id = pool.spawn(true, round, 0, 8).unwrap();
        assert!(!seen.contains(&id));
        seen.push(id);
        pool.task_finished(id);
        assert_eq!(pool.tasks.len(), 0);
    }
}

#[test]
fn spawn_rejects_an_invalid_entry_point() {
    let mut pool = TaskPool::new();
    assert_eq!(pool.spawn(false, 7, 0, 8), Err(Errno::EINVAL));
    assert_eq!(pool.tasks.len(), 0);
}

#[test]
fn spawned_tasks_start_running() {
    let mut pool = TaskPool::new();
    let id = pool.spawn(true, 7, 123, 4).unwrap();
    assert_eq!(pool.tasks.len(), 1);
    assert_eq!(pool.tasks[0].id, id);
    assert_eq!(pool.tasks[0].entry, 7);
    assert_eq!(pool.tasks[0].param, 123);
    assert_eq!(pool.tasks[0].priority, 4);
    assert!(!pool.tasks[0].suspended);
}

#[test]
fn resume_reports_success_after_a_suspend() {
    let mut pool = TaskPool::new();
    pool.spawn(true, 1, 0, 8).unwrap();
    pool.spawn(true, 2, 0, 8).unwrap();

    assert!(!pool.resume_all());

    pool.suspend_all();
    assert!(pool.tasks.iter().all(|t| t.suspended));

    assert!(pool.resume_all());
    assert!(pool.tasks.iter().all(|t| !t.suspended));
}

#[test]
fn next_ready_prefers_the_lowest_priority_number() {
    let mut pool = TaskPool::new();
    let low = pool.spawn(true, 1, 0, 9).unwrap();
    let high = pool.spawn(true, 2, 0, 2).unwrap();
    let _mid = pool.spawn(true, 3, 0, 5).unwrap();

    assert_eq!(pool.next_ready(), Some(high));

    pool.suspend_all();
    assert_eq!(pool.next_ready(), None);

    pool.resume_all();
    pool.task_finished(high);
    assert_ne!(pool.next_ready(), Some(high));
    assert_ne!(pool.next_ready(), Some(low));
}

#[test]
fn current_task_follows_the_executor() {
    let mut pool = TaskPool::new();
    assert_eq!(pool.current_task(), 0);
    let id = pool.spawn(true, 1, 0, 8).unwrap();
    pool.set_current(id);
    assert_eq!(pool.current_task(), id);
}

#[test]
fn local_slots_read_zero_until_set() {
    let mut pool = TaskPool::new();
    let id = pool.spawn(true, 1, 0, 8).unwrap();
    for slot in 0..TASK_LOCAL_SLOTS {
        assert_eq!(pool.get_local(id, slot), 0);
    }
    pool.set_local(id, 2, 0xDEAD);
    assert_eq!(pool.get_local(id, 2), 0xDEAD);
    assert_eq!(pool.get_local(id, 0), 0);

    // another task's slots are independent
    let other = pool.spawn(true, 2, 0, 8).unwrap();
    assert_eq!(pool.get_local(other, 2), 0);
}

#[test]
fn delay_arithmetic() {
    assert_eq!(delay_deadline(1000, 250), 1250);
    assert!(delay_should_wait(1249, 1250));
    assert!(!delay_should_wait(1250, 1250));
    assert_eq!(delay_until_deadline(400, 100), 500);
}

#[test]
fn millis_wraps_to_the_guest_register_width() {
    assert_eq!(millis_now(5), 5);
    assert_eq!(millis_now(0x1_0000_0005), 5);
    assert_eq!(millis_now(u32::MAX as u64 + 1), 0);
}
