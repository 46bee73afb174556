use robotrs::subsystem::{LockPoll, LockQueue};

#[test]
fn highest_priority_takes_the_lock() {
    let mut q = LockQueue::new();
    let low = q.request(1);
    let high = q.request(5);
    assert_eq!(q.head(), Some(high));
    assert_eq!(q.poll(low, false, true), LockPoll::Wait);
    assert_eq!(q.poll(high, false, true), LockPoll::Acquire);
    assert_eq!(q.head(), Some(low));
}

#[test]
fn equal_priorities_go_in_arrival_order() {
    let mut q = LockQueue::new();
    let first = q.request(3);
    let second = q.request(3);
    assert_eq!(q.head(), Some(first));
    assert_eq!(q.poll(second, false, true), LockPoll::Wait);
    assert_eq!(q.poll(first, false, true), LockPoll::Acquire);
    assert_eq!(q.head(), Some(second));
}

#[test]
fn held_lock_is_preempted_by_higher_priority_only() {
    let mut q = LockQueue::new();
    let holder = q.request(2);
    assert_eq!(q.poll(holder, false, true), LockPoll::Acquire);
    let lower = q.request(1);
    assert_eq!(q.poll(lower, false, false), LockPoll::Wait);
    q.withdraw(lower);
    let same = q.request(2);
    assert_eq!(q.poll(same, false, false), LockPoll::Wait);
    q.withdraw(same);
    let higher = q.request(3);
    assert_eq!(q.poll(higher, false, false), LockPoll::PreemptAndWait);
}

#[test]
fn disabled_robot_waits_for_enable() {
    let mut q = LockQueue::new();
    let id = q.request(9);
    assert_eq!(q.poll(id, true, true), LockPoll::WaitForEnable);
    assert_eq!(q.head(), Some(id));
}

#[test]
fn withdrawn_request_leaves_the_line() {
    let mut q = LockQueue::new();
    let a = q.request(7);
    let b = q.request(4);
    q.withdraw(a);
    assert_eq!(q.head(), Some(b));
    q.withdraw(b);
    assert_eq!(q.head(), None);
}
