//! Waiting on the clock: one-shot alarms, fixed-rate loops, and the queue of pending wake-up
//! times. Times are microseconds of the robot clock.
use vstd::prelude::*;

verus! {

// ---------------------------------------------------------------------------------------------
// Alarm
// ---------------------------------------------------------------------------------------------

/// A wait that ends `duration` microseconds after it is first polled, or at a fixed end time.
pub struct Alarm {
    end_time: Option<u64>,
    duration: u64,
}

/// The end time an alarm settles on when polled at `now`: its fixed end time, or `now` plus its
/// duration on the first poll.
pub open spec fn alarm_end(end_time: Option<u64>, duration: u64, now: u64) -> int {
    match end_time {
        Some(end) => end as int,
        None => now + duration,
    }
}

impl Alarm {
    /// The end time, once known.
    pub closed spec fn end_time(&self) -> Option<u64> {
        self.end_time
    }

    /// The length of the wait.
    pub closed spec fn duration(&self) -> u64 {
        self.duration
    }

    /// An alarm that ends `duration` microseconds after its first poll.
    pub fn new(duration: u64) -> (a: Self)
        ensures
            a.end_time() is None,
            a.duration() == duration,
    {
        Self { end_time: None, duration }
    }

    /// An alarm that ends at `end_time`; `duration` is kept but not used.
    pub fn until(end_time: u64, duration: u64) -> (a: Self)
        ensures
            a.end_time() == Some(end_time),
            a.duration() == duration,
    {
        Self { end_time: Some(end_time), duration }
    }

    /// Whether a poll at `now` can settle the end time: it is fixed already, or `now` plus the
    /// duration fits the clock.
    pub fn fits_at(&self, now: u64) -> (r: bool)
        ensures
            r == (self.end_time() is None ==> now + self.duration() <= u64::MAX),
    {
        match self.end_time {
            Some(_) => true,
            None => now.checked_add(self.duration).is_some(),
        }
    }

    /// One poll. `now` is the clock when the poll begins, `later` the clock read afterwards.
    /// On the first poll the end time becomes `now + duration`. Returns `None` once `later` is
    /// past the end time (the wait is over), else the end time to be woken at.
    pub fn poll(&mut self, now: u64, later: u64) -> (r: Option<u64>)
        requires
            old(self).end_time() is None ==> now + old(self).duration() <= u64::MAX,
        ensures
            final(self).duration() == old(self).duration(),
            final(self).end_time() == Some(
                alarm_end(old(self).end_time(), old(self).duration(), now) as u64,
            ),
            r == (if later > alarm_end(old(self).end_time(), old(self).duration(), now) {
                None
            } else {
                Some(alarm_end(old(self).end_time(), old(self).duration(), now) as u64)
            }),
    {
        let end_time = match self.end_time {
            Some(end_time) => end_time,
            None => {
                let time = now + self.duration;
                self.end_time = Some(time);
                time
            },
        };
        if later > end_time {
            None
        } else {
            Some(end_time)
        }
    }
}

// ---------------------------------------------------------------------------------------------
// Periodic
// ---------------------------------------------------------------------------------------------

/// A loop that runs once every `period` microseconds, keeping its phase: each wait ends one
/// period after the previous end, however long the work in between took.
pub struct Periodic {
    period: u64,
    end_time: u64,
}

impl Periodic {
    /// The period.
    pub closed spec fn period(&self) -> u64 {
        self.period
    }

    /// The end of the current wait.
    pub closed spec fn end_time(&self) -> u64 {
        self.end_time
    }

    /// A loop with the given period whose first wait ends one period after `now`.
    pub fn new(period: u64, now: u64) -> (p: Self)
        requires
            now + period <= u64::MAX,
        ensures
            p.period() == period,
            p.end_time() == now + period,
    {
        Self { period, end_time: now + period }
    }

    /// The alarm of the current wait: it ends at the current end time.
    pub fn alarm(&self) -> (a: Alarm)
        ensures
            a.end_time() == Some(self.end_time()),
            a.duration() == self.period(),
    {
        Alarm::until(self.end_time, self.period)
    }

    /// Moves on after a wait: the next one ends one period later.
    pub fn advance(&mut self)
        requires
            old(self).end_time() + old(self).period() <= u64::MAX,
        ensures
            final(self).period() == old(self).period(),
            final(self).end_time() == old(self).end_time() + old(self).period(),
    {
        self.end_time = self.end_time + self.period;
    }
}

// ---------------------------------------------------------------------------------------------
// Wake-up queue
// ---------------------------------------------------------------------------------------------

/// Whether the times of `s` never decrease.
pub open spec fn times_sorted<W>(s: Seq<(u64, W)>) -> bool {
    forall|i: int, j: int| 0 <= i <= j < s.len() ==> s[i].0 <= s[j].0
}

/// Whether `pos` is where an entry at `time` goes in `s`: after every entry due no later, before
/// every entry due later.
pub open spec fn slot_for<W>(s: Seq<(u64, W)>, time: u64, pos: int) -> bool {
    &&& 0 <= pos <= s.len()
    &&& forall|j: int| 0 <= j < pos ==> s[j].0 <= time
    &&& forall|j: int| pos <= j < s.len() ==> s[j].0 > time
}

/// Pending wake-ups: each entry is a time and what to wake then. Entries are kept in order of
/// time, so the due ones are always at the front.
pub struct TimeQueue<W> {
    items: Vec<(u64, W)>,
}

impl<W> View for TimeQueue<W> {
    type V = Seq<(u64, W)>;

    closed spec fn view(&self) -> Seq<(u64, W)> {
        self.items@
    }
}

impl<W> TimeQueue<W> {
    /// The entries are in order of time.
    pub closed spec fn wf(&self) -> bool {
        times_sorted(self.items@)
    }

    /// An empty queue.
    pub fn new() -> (q: Self)
        ensures
            q.wf(),
            q@ == Seq::<(u64, W)>::empty(),
    {
        TimeQueue { items: Vec::new() }
    }

    /// The number of pending entries.
    pub fn len(&self) -> (n: usize)
        ensures
            n == self@.len(),
    {
        self.items.len()
    }

    /// Adds a wake-up at `time`. It goes after every entry due no later and before every entry
    /// due later, so the queue stays in order of time.
    pub fn add_time(&mut self, time: u64, waker: W)
        requires
            old(self).wf(),
        ensures
            final(self).wf(),
            exists|pos: int|
                slot_for(old(self)@, time, pos) && final(self)@ == old(self)@.insert(
                    pos,
                    (time, waker),
                ),
    {
        let mut i: usize = 0;
        while i < self.items.len() && self.items[i].0 <= time
            invariant
                self.items@ == old(self).items@,
                i <= self.items@.len(),
                forall|j: int| 0 <= j < i ==> self.items@[j].0 <= time,
            decreases self.items@.len() - i,
        {
            i += 1;
        }
        let ghost before = self.items@;
        assert(slot_for(before, time, i as int));
        self.items.insert(i, (time, waker));
        assert(slot_for(old(self)@, time, i as int) && self@ =~= old(self)@.insert(
            i as int,
            (time, waker),
        ));
        assert(times_sorted(self.items@)) by {
            assert forall|a: int, b: int| 0 <= a <= b < self.items@.len() implies self.items@[a].0
                <= self.items@[b].0 by {
                if a < i && b > i {
                    assert(self.items@[a] == before[a]);
                    assert(self.items@[b] == before[b - 1]);
                }
            }
        }
    }

    /// Removes and returns, in order of time, every entry due at `now` (its time is not after
    /// `now`); the entries due later stay.
    pub fn pop_due(&mut self, now: u64) -> (due: Vec<(u64, W)>)
        requires
            old(self).wf(),
        ensures
            final(self).wf(),
            old(self)@ == due@ + final(self)@,
            forall|i: int| 0 <= i < due@.len() ==> due@[i].0 <= now,
            forall|i: int| 0 <= i < final(self)@.len() ==> final(self)@[i].0 > now,
            times_sorted(due@),
    {
        let mut k: usize = 0;
        while k < self.items.len() && self.items[k].0 <= now
            invariant
                self.items@ == old(self).items@,
                k <= self.items@.len(),
                forall|j: int| 0 <= j < k ==> self.items@[j].0 <= now,
            decreases self.items@.len() - k,
        {
            k += 1;
        }
        let ghost before = self.items@;
        let mut due = self.items.split_off(k);
        std::mem::swap(&mut due, &mut self.items);
        assert(before =~= due@ + self.items@);
        due
    }
}

/// A wake-up can go in only one place: the slot for a time is unique.
pub proof fn lemma_slot_unique<W>(s: Seq<(u64, W)>, time: u64, p: int, q: int)
    requires
        slot_for(s, time, p),
        slot_for(s, time, q),
    ensures
        p == q,
{
    if p < q {
        assert(s[p].0 > time);
    } else if q < p {
        assert(s[q].0 > time);
    }
}

/// Taking the due entries splits the queue: an entry whose time has come is among those taken,
/// at the same place, and an entry whose time has not come stays, in the same order.
pub proof fn lemma_pop_due_partitions<W>(
    before: Seq<(u64, W)>,
    due: Seq<(u64, W)>,
    after: Seq<(u64, W)>,
    now: u64,
    i: int,
)
    requires
        before == due + after,
        forall|j: int| 0 <= j < due.len() ==> due[j].0 <= now,
        forall|j: int| 0 <= j < after.len() ==> after[j].0 > now,
        0 <= i < before.len(),
    ensures
        before[i].0 <= now ==> i < due.len() && due[i] == before[i],
        before[i].0 > now ==> i >= due.len() && after[i - due.len()] == before[i],
{
    if i < due.len() {
        assert(before[i] == due[i]);
    } else {
        assert(before[i] == after[i - due.len()]);
    }
}

} // verus!
