//! Priority locking of a subsystem: requests wait in a queue, the request of highest priority
//! takes the subsystem when it is free, and a request that outranks the holder cancels the
//! holder's scope.
use vstd::prelude::*;

verus! {

/// What a lock request does when polled.
#[derive(Debug, Clone, Copy, PartialEq, Eq)]
pub enum LockPoll {
    /// The robot is disabled: wait for the mode to change.
    WaitForEnable,
    /// The request is first in line and the subsystem is free: it takes the subsystem.
    Acquire,
    /// The request is first in line but the subsystem is held by a request of lower priority:
    /// cancel the holder's scope and wait.
    PreemptAndWait,
    /// Wait to be woken.
    Wait,
}

/// Whether entry `i` of `s` is first in line: no entry has a higher priority, and every
/// earlier entry has a lower one.
pub open spec fn first_in_line(s: Seq<(u32, u64)>, i: int) -> bool {
    &&& 0 <= i < s.len()
    &&& forall|j: int| 0 <= j < s.len() ==> s[j].0 <= s[i].0
    &&& forall|j: int| 0 <= j < i ==> s[j].0 < s[i].0
}

/// Whether the request `id` is waiting in `s`.
pub open spec fn waiting(s: Seq<(u32, u64)>, id: u64) -> bool {
    exists|i: int| 0 <= i < s.len() && s[i].1 == id
}

/// The waiting requests of a subsystem, each a priority and an identifier, and the priority of
/// the request that holds it.
pub struct LockQueue {
    requests: Vec<(u32, u64)>,
    next_id: u64,
    current_priority: u32,
}

impl View for LockQueue {
    type V = Seq<(u32, u64)>;

    closed spec fn view(&self) -> Seq<(u32, u64)> {
        self.requests@
    }
}

impl LockQueue {
    /// Every identifier is below the next one to hand out, and no two requests share one.
    pub closed spec fn wf(&self) -> bool {
        &&& forall|i: int| 0 <= i < self.requests@.len() ==> self.requests@[i].1 < self.next_id
        &&& forall|i: int, j: int|
            0 <= i < j < self.requests@.len() ==> self.requests@[i].1 != self.requests@[j].1
    }

    /// The identifier the next request gets.
    pub closed spec fn next_id(&self) -> u64 {
        self.next_id
    }

    /// The priority of the request that last took the subsystem.
    pub closed spec fn current_priority(&self) -> u32 {
        self.current_priority
    }

    /// A subsystem nobody has asked for.
    pub fn new() -> (q: Self)
        ensures
            q.wf(),
            q@ == Seq::<(u32, u64)>::empty(),
            q.current_priority() == 0,
    {
        LockQueue { requests: Vec::new(), next_id: 0, current_priority: 0 }
    }

    /// Queues a request with `priority` and returns its identifier.
    pub fn request(&mut self, priority: u32) -> (id: u64)
        requires
            old(self).wf(),
            old(self).next_id() < u64::MAX,
        ensures
            final(self).wf(),
            id == old(self).next_id(),
            !waiting(old(self)@, id),
            final(self)@ == old(self)@.push((priority, id)),
            final(self).next_id() == old(self).next_id() + 1,
            final(self).current_priority() == old(self).current_priority(),
    {
        let id = self.next_id;
        self.requests.push((priority, id));
        self.next_id = self.next_id + 1;
        id
    }

    /// The index of the request first in line, if any request waits.
    fn head_index(&self) -> (r: Option<usize>)
        ensures
            r is None <==> self@.len() == 0,
            r matches Some(i) ==> first_in_line(self@, i as int),
    {
        if self.requests.len() == 0 {
            return None;
        }
        let mut best: usize = 0;
        let mut i: usize = 1;
        while i < self.requests.len()
            invariant
                1 <= i <= self.requests@.len(),
                best < i,
                forall|j: int| 0 <= j < i ==> self.requests@[j].0 <= self.requests@[best as int].0,
                forall|j: int| 0 <= j < best ==> self.requests@[j].0 < self.requests@[best as int].0,
            decreases self.requests@.len() - i,
        {
            if self.requests[i].0 > self.requests[best].0 {
                best = i;
            }
            i += 1;
        }
        Some(best)
    }

    /// The identifier of the request first in line, if any: the one to wake when the
    /// subsystem is released.
    pub fn head(&self) -> (r: Option<u64>)
        ensures
            r is None <==> self@.len() == 0,
            r matches Some(id) ==> exists|i: int| first_in_line(self@, i) && self@[i].1 == id,
    {
        match self.head_index() {
            Some(i) => Some(self.requests[i].1),
            None => None,
        }
    }

    /// Withdraws request `id`, whose future was dropped before it took the subsystem.
    pub fn withdraw(&mut self, id: u64)
        requires
            old(self).wf(),
        ensures
            final(self).wf(),
            final(self).next_id() == old(self).next_id(),
            final(self).current_priority() == old(self).current_priority(),
            !waiting(final(self)@, id),
            forall|other: u64| other != id ==> (waiting(final(self)@, other) <==> waiting(old(self)@, other)),
    {
        let mut i: usize = 0;
        while i < self.requests.len()
            invariant
                i <= self.requests@.len(),
                self.requests@ == old(self).requests@,
                self.next_id == old(self).next_id,
                self.current_priority == old(self).current_priority,
                self.wf(),
                forall|j: int| 0 <= j < i ==> self.requests@[j].1 != id,
            decreases self.requests@.len() - i,
        {
            if self.requests[i].1 == id {
                let ghost before = self.requests@;
                self.requests.remove(i);
                assert forall|other: u64| other != id implies (waiting(self.requests@, other)
                    <==> waiting(before, other)) by {
                    if waiting(before, other) {
                        let k = choose|k: int| 0 <= k < before.len() && before[k].1 == other;
                        if k < i {
                            assert(self.requests@[k] == before[k]);
                        } else {
                            assert(self.requests@[k - 1] == before[k]);
                        }
                    }
                    if waiting(self.requests@, other) {
                        let k = choose|k: int| 0 <= k < self.requests@.len() && self.requests@[k].1 == other;
                        if k < i {
                            assert(self.requests@[k] == before[k]);
                        } else {
                            assert(self.requests@[k] == before[k + 1]);
                        }
                    }
                }
                assert(!waiting(self.requests@, id)) by {
                    if waiting(self.requests@, id) {
                        let k = choose|k: int| 0 <= k < self.requests@.len() && self.requests@[k].1 == id;
                        if k < i {
                            assert(self.requests@[k] == before[k]);
                        } else {
                            assert(self.requests@[k] == before[k + 1]);
                            assert(before[i as int].1 != before[k + 1].1);
                        }
                    }
                }
                assert forall|a: int, b: int| 0 <= a < b < self.requests@.len() implies self.requests@[a].1
                    != self.requests@[b].1 by {
                    let a2 = if a < i { a } else { a + 1 };
                    let b2 = if b < i { b } else { b + 1 };
                    assert(self.requests@[a] == before[a2]);
                    assert(self.requests@[b] == before[b2]);
                }
                assert forall|a: int| 0 <= a < self.requests@.len() implies self.requests@[a].1
                    < self.next_id by {
                    let a2 = if a < i { a } else { a + 1 };
                    assert(self.requests@[a] == before[a2]);
                }
                return;
            }
            i += 1;
        }
    }

    /// One poll of request `id`. Disabled: wait for the mode to change. First in line and the
    /// subsystem free (`free`): the request leaves the queue and its priority becomes the
    /// holder's. First in line but held: preempt the holder when its priority is lower than this
    /// request's, and wait. Otherwise wait.
    pub fn poll(&mut self, id: u64, disabled: bool, free: bool) -> (p: LockPoll)
        requires
            old(self).wf(),
            waiting(old(self)@, id),
        ensures
            final(self).wf(),
            final(self).next_id() == old(self).next_id(),
            p is Acquire ==> exists|i: int| {
                &&& first_in_line(old(self)@, i)
                &&& old(self)@[i].1 == id
                &&& final(self)@ == old(self)@.remove(i)
                &&& final(self).current_priority() == old(self)@[i].0
            },
            !(p is Acquire) ==> final(self)@ == old(self)@ && final(self).current_priority()
                == old(self).current_priority(),
            disabled <==> p is WaitForEnable,
            !disabled && (exists|i: int| first_in_line(old(self)@, i) && old(self)@[i].1 == id)
                ==> (free <==> p is Acquire),
            forall|i: int|
                #![trigger first_in_line(old(self)@, i)]
                first_in_line(old(self)@, i) && old(self)@[i].1 == id && !disabled && !free ==> (
                p is PreemptAndWait <==> old(self).current_priority() < old(self)@[i].0),
            !disabled && !(exists|i: int| first_in_line(old(self)@, i) && old(self)@[i].1 == id)
                ==> p is Wait,
            p is PreemptAndWait ==> exists|i: int| {
                &&& first_in_line(old(self)@, i)
                &&& old(self)@[i].1 == id
                &&& old(self).current_priority() < old(self)@[i].0
            },
    {
        if disabled {
            return LockPoll::WaitForEnable;
        }
        let head = match self.head_index() {
            Some(i) => i,
            None => {
                assert(false) by {
                    let k = choose|k: int| 0 <= k < self@.len() && self@[k].1 == id;
                }
                return LockPoll::Wait;
            },
        };
        if self.requests[head].1 == id {
            let priority = self.requests[head].0;
            if free {
                let ghost before = self.requests@;
                self.requests.remove(head);
                self.current_priority = priority;
                assert(self.requests@ == before.remove(head as int));
                assert forall|a: int, b: int| 0 <= a < b < self.requests@.len() implies self.requests@[a].1
                    != self.requests@[b].1 by {
                    let a2 = if a < head { a } else { a + 1 };
                    let b2 = if b < head { b } else { b + 1 };
                    assert(self.requests@[a] == before[a2]);
                    assert(self.requests@[b] == before[b2]);
                }
                assert forall|a: int| 0 <= a < self.requests@.len() implies self.requests@[a].1
                    < self.next_id by {
                    let a2 = if a < head { a } else { a + 1 };
                    assert(self.requests@[a] == before[a2]);
                }
                LockPoll::Acquire
            } else if self.current_priority < priority {
                LockPoll::PreemptAndWait
            } else {
                LockPoll::Wait
            }
        } else {
            proof {
                assert forall|i: int| first_in_line(self@, i) implies self@[i].1 != id by {
                    if i != head {
                        if i < head {
                            assert(self@[i].0 < self@[head as int].0);
                        } else {
                            assert(self@[head as int].0 < self@[i].0);
                        }
                    }
                }
            }
            LockPoll::Wait
        }
    }
}

/// Only one request can be first in line.
pub proof fn lemma_first_in_line_unique(s: Seq<(u32, u64)>, i: int, j: int)
    requires
        first_in_line(s, i),
        first_in_line(s, j),
    ensures
        i == j,
{
    if i < j {
        assert(s[i].0 < s[j].0);
    } else if j < i {
        assert(s[j].0 < s[i].0);
    }
}

} // verus!
