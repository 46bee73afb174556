use robotrs::time::{Alarm, Periodic, TimeQueue};

#[test]
fn alarm_sets_end_on_first_poll() {
    let mut a = Alarm::new(100);
    assert_eq!(a.poll(1_000, 1_000), Some(1_100));
    // The end time stays fixed on later polls.
    assert_eq!(a.poll(1_050, 1_050), Some(1_100));
    assert_eq!(a.poll(1_100, 1_100), Some(1_100));
    assert_eq!(a.poll(1_101, 1_101), None);
}

#[test]
fn alarm_with_zero_duration() {
    let mut a = Alarm::new(0);
    assert_eq!(a.poll(5, 5), Some(5));
    assert_eq!(a.poll(5, 6), None);
}

#[test]
fn periodic_keeps_phase() {
    let mut p = Periodic::new(20, 1_000);
    let mut alarm = p.alarm();
    assert_eq!(alarm.poll(1_005, 1_005), Some(1_020));
    assert_eq!(alarm.poll(1_021, 1_021), None);
    p.advance();
    let mut next = p.alarm();
    // The next wait ends one period after the previous end, not after now.
    assert_eq!(next.poll(1_030, 1_030), Some(1_040));
}

#[test]
fn queue_pops_due_in_time_order() {
    let mut q: TimeQueue<&str> = TimeQueue::new();
    q.add_time(30, "c");
    q.add_time(10, "a");
    q.add_time(20, "b");
    q.add_time(50, "e");
    assert_eq!(q.len(), 4);
    let due = q.pop_due(30);
    assert_eq!(due, vec![(10, "a"), (20, "b"), (30, "c")]);
    assert_eq!(q.len(), 1);
    assert!(q.pop_due(49).is_empty());
    assert_eq!(q.pop_due(50), vec![(50, "e")]);
    assert_eq!(q.len(), 0);
}

#[test]
fn queue_keeps_equal_times_in_arrival_order() {
    let mut q: TimeQueue<u8> = TimeQueue::new();
    q.add_time(7, 1);
    q.add_time(7, 2);
    q.add_time(3, 0);
    assert_eq!(q.pop_due(7), vec![(3, 0), (7, 1), (7, 2)]);
}

#[test]
fn alarm_fits_the_clock() {
    let a = Alarm::new(100);
    assert!(a.fits_at(5));
    assert!(!a.fits_at(u64::MAX - 50));
    let b = Alarm::until(7, u64::MAX);
    assert!(b.fits_at(u64::MAX));
}
