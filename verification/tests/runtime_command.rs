use robotrs::runtime::{mechanism_step, MechanismTick};
use robotrs::command::{
    end_outcome, finished_or_failed, parallel_combine, Command, CommandExt, CommandFuture,
};
use robotrs::runtime::{
    after_failure, scope_poll, RetryStep, FailableDefault, yield_now, CancellationState, MechanismState, ScopePoll, WakerQueue, Yield,
};

#[test]
fn yield_is_pending_once() {
    let mut y = yield_now();
    assert!(!y.step());
    assert!(y.step());
    assert!(y.step());
    let mut d = Yield::default();
    assert!(!d.step());
}

#[test]
fn mechanism_state_values() {
    let s: MechanismState<i32> = MechanismState::Value(3);
    assert_ne!(s, MechanismState::Stop);
}

/// Counts the calls of each phase and finishes after `ticks` calls of `is_finished`.
struct Counter {
    starts: u32,
    executes: u32,
    ends: u32,
    checks: u32,
    ticks: u32,
    fail_start: bool,
}

fn counter(ticks: u32) -> Counter {
    Counter { starts: 0, executes: 0, ends: 0, checks: 0, ticks, fail_start: false }
}

impl Command for Counter {
    fn start(&mut self) -> Result<(), anyhow::Error> {
        self.starts += 1;
        if self.fail_start {
            Err(anyhow::Error::msg("start failed"))
        } else {
            Ok(())
        }
    }
    fn execute(&mut self) -> Result<(), anyhow::Error> {
        self.executes += 1;
        Ok(())
    }
    fn end(&mut self) -> Result<(), anyhow::Error> {
        self.ends += 1;
        Ok(())
    }
    fn is_finished(&mut self) -> Result<bool, anyhow::Error> {
        self.checks += 1;
        Ok(self.checks >= self.ticks)
    }
}

#[test]
fn parallel_decisions() {
    let (d1, d2, r) = parallel_combine::<u8>(Err(1), Ok(()));
    assert!(d1 && !d2 && r.is_ok());
    let (d1, d2, r) = parallel_combine::<u8>(Ok(()), Err(2));
    assert!(!d1 && d2 && r.is_ok());
    let (d1, d2, r) = parallel_combine::<u8>(Err(1), Err(2));
    assert!(!d1 && !d2);
    assert_eq!(r, Err(2));
    let (d1, d2, r) = parallel_combine::<u8>(Ok(()), Ok(()));
    assert!(!d1 && !d2 && r.is_ok());
    assert!(finished_or_failed::<u8>(Err(0)));
    assert!(!finished_or_failed::<u8>(Ok(false)));
    assert_eq!(end_outcome::<u8>(true, Err(5)), Err(5));
    assert_eq!(end_outcome::<u8>(false, Err(5)), Ok(false));
    assert_eq!(end_outcome::<u8>(true, Ok(())), Ok(true));
}

#[test]
fn fused_command_stops_after_end() {
    let mut f = counter(10).fuse();
    f.start().unwrap();
    f.execute().unwrap();
    f.end().unwrap();
    f.end().unwrap();
    f.execute().unwrap();
    assert!(f.is_finished().unwrap());
}

#[test]
fn race_finishes_with_first() {
    let mut r = counter(1).race(counter(100));
    r.start().unwrap();
    r.execute().unwrap();
    assert!(r.is_finished().unwrap());
}

#[test]
fn parallel_waits_for_both() {
    let mut p = counter(1).parallel(counter(2));
    p.start().unwrap();
    p.execute().unwrap();
    // The first part finishes and is ended; the second is not done yet.
    assert!(!p.is_finished().unwrap());
    // The second part reports finished on its second check.
    assert!(!p.is_finished().unwrap());
    assert!(p.is_finished().unwrap());
    // Both done: phases now fail.
    assert!(p.execute().is_err());
}

#[test]
fn chain_runs_in_order() {
    let mut c = counter(1).chain(counter(5));
    c.start().unwrap();
    c.execute().unwrap();
    c.execute().unwrap();
    c.end().unwrap();
}

#[test]
fn until_stops_on_predicate() {
    let mut calls = 0;
    let mut u = counter(100).until(move || {
        calls += 1;
        Ok(calls >= 2)
    });
    u.start().unwrap();
    assert!(!u.is_finished().unwrap());
    assert!(u.is_finished().unwrap());
}

#[test]
fn command_future_finishes() {
    let mut f = CommandFuture::new(counter(2));
    assert!(!f.needs_end());
    assert!(!f.failable_poll().unwrap());
    assert!(f.failable_poll().unwrap());
    assert!(!f.needs_end());
    assert!(f.end_if_running().is_ok());
}

#[test]
fn command_future_reports_errors() {
    let mut c = counter(2);
    c.fail_start = true;
    let mut f = CommandFuture::new(c);
    assert!(f.failable_poll().is_err());
}

#[test]
fn waker_queue_takes_all_in_order() {
    let mut q = WakerQueue::new();
    q.queue_waker('a');
    q.queue_waker('b');
    assert_eq!(q.take_all(), vec!['a', 'b']);
    assert!(q.take_all().is_empty());
}

#[test]
fn cancellation_scope_decisions() {
    let mut s: CancellationState<u8> = CancellationState::new();
    assert!(!s.is_canceled());
    s.register_waker(4);
    assert_eq!(s.cancel(), Some(4));
    assert!(s.is_canceled());
    assert_eq!(s.cancel(), None);
    assert_eq!(scope_poll(true, true), ScopePoll::Done);
    assert_eq!(scope_poll(false, true), ScopePoll::Canceled);
    assert_eq!(scope_poll(false, false), ScopePoll::Pending);
}

#[test]
fn failable_default_uses_default() {
    assert_eq!(u8::failable_default().unwrap(), 0);
    assert_eq!(<Vec<u8>>::failable_default().unwrap(), Vec::<u8>::new());
    assert_eq!(<Option<bool>>::failable_default().unwrap(), None);
}

#[test]
fn retry_backs_off_exponentially() {
    use_step(1, 3, RetryStep::WaitMillis(50));
    use_step(2, 3, RetryStep::WaitMillis(100));
    use_step(3, 3, RetryStep::WaitMillis(200));
    use_step(4, 3, RetryStep::GiveUp);
    use_step(32, 32, RetryStep::WaitMillis(50 * (1u64 << 31)));
    use_step(1, 0, RetryStep::GiveUp);
}

fn use_step(failures: u32, retries: u32, expected: RetryStep) {
    assert_eq!(after_failure(failures, retries), expected);
}

#[test]
fn chain_is_finished_with_its_second_command() {
    let mut c = counter(1).chain(counter(2));
    c.start().unwrap();
    assert!(!c.is_finished().unwrap());
    c.execute().unwrap();
    assert!(!c.is_finished().unwrap());
    assert!(c.is_finished().unwrap());
}

#[test]
fn command_future_starts_once() {
    let mut f = CommandFuture::new(counter(3));
    assert!(!f.failable_poll().unwrap());
    assert!(f.needs_end());
    assert!(!f.failable_poll().unwrap());
    assert!(f.failable_poll().unwrap());
    assert!(!f.needs_end());
}

#[test]
fn command_future_running_is_ended_on_drop() {
    let mut f = CommandFuture::new(counter(5));
    assert!(!f.failable_poll().unwrap());
    assert!(f.needs_end());
    assert!(f.end_if_running().is_ok());
}

#[test]
fn mechanism_answers_once_at_setpoint() {
    let mut pending = true;
    let s = mechanism_step(&mut pending, MechanismTick::Ran { at_setpoint: false });
    assert!(!s.respond && !s.report_error && pending);
    let s = mechanism_step(&mut pending, MechanismTick::SupplyFailed);
    assert!(!s.respond && s.report_error && pending);
    let s = mechanism_step(&mut pending, MechanismTick::Ran { at_setpoint: true });
    assert!(s.respond && !pending);
    let s = mechanism_step(&mut pending, MechanismTick::Ran { at_setpoint: true });
    assert!(!s.respond);
    let s = mechanism_step(&mut pending, MechanismTick::ConsumeFailed);
    assert!(s.report_error);
}
