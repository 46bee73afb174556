//! Cooperative scheduling primitives and the motor-safety trait.
use vstd::prelude::*;

verus! {

/// A future that is pending once and ready on its next poll, letting other tasks run.
pub struct Yield {
    yielded: bool,
}

impl Yield {
    /// Whether the future has already given way once.
    pub closed spec fn has_yielded(&self) -> bool {
        self.yielded
    }

    /// One poll: ready if it has already given way, otherwise gives way now (the caller then
    /// queues its waker for the next tick) and stays pending.
    pub fn step(&mut self) -> (ready: bool)
        ensures
            ready == old(self).has_yielded(),
            final(self).has_yielded(),
    {
        if self.yielded {
            true
        } else {
            self.yielded = true;
            false
        }
    }
}

impl Default for Yield {
    fn default() -> (r: Self)
        ensures
            !r.has_yielded(),
    {
        Self { yielded: false }
    }
}

/// A future that lets other tasks run once before completing.
pub fn yield_now() -> (y: Yield)
    ensures
        !y.has_yielded(),
{
    Yield { yielded: false }
}

/// Construction that may fail; every type with a default value has it, and never fails.
pub trait FailableDefault: Sized {
    /// A new value, or the error that prevented making one.
    fn failable_default() -> Result<Self, anyhow::Error>;
}

impl<D: Default> FailableDefault for D {
    fn failable_default() -> (r: Result<Self, anyhow::Error>)
        ensures
            r is Ok,
    {
        Ok(D::default())
    }
}

/// Something that drives actuators and can stop them all. A control guard calls `stop` when it
/// goes out of scope.
pub trait ControlSafe {
    /// Stops all motors and actuators.
    fn stop(&mut self);
}

/// What a mechanism is told to do: drive with a controller output, or stop.
#[derive(Debug, Clone, Copy, PartialEq, Eq)]
pub enum MechanismState<O> {
    Value(O),
    Stop,
}


/// How one tick of a mechanism's control loop went: reading the current state failed, handing
/// the controller output to the actuator failed, or both worked and the state was (or was not)
/// at the requested setpoint.
#[derive(Debug, Clone, Copy, PartialEq, Eq)]
pub enum MechanismTick {
    SupplyFailed,
    ConsumeFailed,
    Ran { at_setpoint: bool },
}

/// What a mechanism's loop does after a tick: answer the waiting request, and report an error.
#[derive(Debug, Clone, Copy, PartialEq, Eq)]
pub struct MechanismStep {
    pub respond: bool,
    pub report_error: bool,
}

/// The decision after one tick of a mechanism's loop. A request is answered once, on the first
/// tick that reaches its setpoint while it is still waiting (`response_pending`); a failed
/// supply or consume is reported, and then nothing is answered on that tick.
pub fn mechanism_step(response_pending: &mut bool, tick: MechanismTick) -> (s: MechanismStep)
    ensures
        s.report_error == !(tick is Ran),
        s.respond == (*old(response_pending) && tick == (MechanismTick::Ran { at_setpoint: true })),
        *final(response_pending) == (*old(response_pending) && !s.respond),
{
    match tick {
        MechanismTick::SupplyFailed | MechanismTick::ConsumeFailed => MechanismStep { respond: false, report_error: true },
        MechanismTick::Ran { at_setpoint } => {
            let respond = *response_pending && at_setpoint;
            if respond {
                *response_pending = false;
            }
            MechanismStep { respond, report_error: false }
        },
    }
}

/// Wakers waiting for the next tick of the scheduler.
pub struct WakerQueue<W> {
    wakers: Vec<W>,
}

impl<W> View for WakerQueue<W> {
    type V = Seq<W>;

    closed spec fn view(&self) -> Seq<W> {
        self.wakers@
    }
}

impl<W> WakerQueue<W> {
    /// An empty queue.
    pub fn new() -> (q: Self)
        ensures
            q@ == Seq::<W>::empty(),
    {
        WakerQueue { wakers: Vec::new() }
    }

    /// Queues `waker` to be woken on the next tick.
    pub fn queue_waker(&mut self, waker: W)
        ensures
            final(self)@ == old(self)@.push(waker),
    {
        self.wakers.push(waker);
    }

    /// Takes every queued waker, in the order queued, leaving the queue empty.
    pub fn take_all(&mut self) -> (all: Vec<W>)
        ensures
            all@ == old(self)@,
            final(self)@ == Seq::<W>::empty(),
    {
        let mut all = Vec::new();
        std::mem::swap(&mut all, &mut self.wakers);
        all
    }
}

// ---------------------------------------------------------------------------------------------
// Cancellation scopes
// ---------------------------------------------------------------------------------------------

/// The shared state of a cancellation scope: whether it was canceled, and the waker of the task
/// running in it.
pub struct CancellationState<W> {
    canceled: bool,
    waker: Option<W>,
}

/// What polling a future inside a cancellation scope yields.
#[derive(Debug, Clone, Copy, PartialEq, Eq)]
pub enum ScopePoll {
    /// The inner future completed.
    Done,
    /// The scope was canceled before the inner future completed.
    Canceled,
    /// Still running: the task's waker is to be registered with the scope.
    Pending,
}

impl<W> CancellationState<W> {
    /// Whether the scope was canceled.
    pub closed spec fn canceled(&self) -> bool {
        self.canceled
    }

    /// The waker registered with the scope.
    pub closed spec fn waker(&self) -> Option<W> {
        self.waker
    }

    /// A scope that is running and has no waker.
    pub fn new() -> (s: Self)
        ensures
            !s.canceled(),
            s.waker() is None,
    {
        CancellationState { canceled: false, waker: None }
    }

    /// Cancels the scope for good. Returns the registered waker, if any, to be woken.
    pub fn cancel(&mut self) -> (w: Option<W>)
        ensures
            final(self).canceled(),
            final(self).waker() is None,
            w == old(self).waker(),
    {
        self.canceled = true;
        self.waker.take()
    }

    /// Registers the waker of the task running in the scope, replacing any earlier one.
    pub fn register_waker(&mut self, waker: W)
        ensures
            final(self).canceled() == old(self).canceled(),
            final(self).waker() == Some(waker),
    {
        self.waker = Some(waker);
    }

    /// Whether the scope was canceled.
    pub fn is_canceled(&self) -> (r: bool)
        ensures
            r == self.canceled(),
    {
        self.canceled
    }
}

/// The outcome of one poll inside a scope: the inner future's completion wins over a
/// cancellation, which wins over waiting.
pub fn scope_poll(inner_ready: bool, canceled: bool) -> (p: ScopePoll)
    ensures
        p == scope_poll_spec(inner_ready, canceled),
{
    if inner_ready {
        ScopePoll::Done
    } else if canceled {
        ScopePoll::Canceled
    } else {
        ScopePoll::Pending
    }
}

/// The outcome `scope_poll` computes.
pub open spec fn scope_poll_spec(inner_ready: bool, canceled: bool) -> ScopePoll {
    if inner_ready {
        ScopePoll::Done
    } else if canceled {
        ScopePoll::Canceled
    } else {
        ScopePoll::Pending
    }
}


// ---------------------------------------------------------------------------------------------
// Retrying with exponential backoff
// ---------------------------------------------------------------------------------------------

/// What to do after a failed attempt.
#[derive(Debug, Clone, Copy, PartialEq, Eq)]
pub enum RetryStep {
    /// No retries are left: report the error.
    GiveUp,
    /// Wait this many milliseconds, then try again.
    WaitMillis(u64),
}

/// The wait after the `failures`-th failure: 50 ms, doubled for each earlier failure.
pub open spec fn backoff_millis(failures: nat) -> int {
    (50 * vstd::arithmetic::power2::pow2((failures - 1) as nat)) as int
}

/// The retry back-off starts at 50 ms after the first failure and doubles with every further
/// failure.
pub proof fn lemma_backoff_doubles(failures: nat)
    requires
        failures >= 1,
    ensures
        backoff_millis(1) == 50,
        backoff_millis(failures + 1) == 2 * backoff_millis(failures),
{
    vstd::arithmetic::power2::lemma2_to64();
    vstd::arithmetic::power2::lemma_pow2_unfold(failures);
    assert((failures + 1 - 1) as nat == failures);
}

/// The step after the `failures`-th failed attempt when `retries` retries are allowed: give up
/// once the failures outnumber the retries, otherwise back off exponentially.
pub fn after_failure(failures: u32, retries: u32) -> (step: RetryStep)
    requires
        failures >= 1,
        failures <= retries ==> failures <= 32,
    ensures
        failures > retries ==> step is GiveUp,
        failures <= retries ==> step == RetryStep::WaitMillis(backoff_millis(failures as nat) as u64),
        failures <= retries ==> backoff_millis(failures as nat) <= 50 * 0x8000_0000,
{
    if failures > retries {
        return RetryStep::GiveUp;
    }
    let shift = (failures - 1) as u64;
    proof {
        vstd::bits::lemma_u64_pow2_no_overflow(shift as nat);
        vstd::arithmetic::power2::lemma2_to64();
        if shift < 31 {
            vstd::arithmetic::power2::lemma_pow2_strictly_increases(shift as nat, 31);
        }
        vstd::bits::lemma_u64_shl_is_mul(1, shift);
    }
    let factor: u64 = 1u64 << shift;
    RetryStep::WaitMillis(50 * factor)
}

} // verus!
