//! Trigger combinators: the decisions of a trigger that fires when all of its inner triggers are
//! held, of one that fires when any of them is pressed, and of a double click. The waiting
//! itself is asynchronous and lies with the caller, which reports each edge it saw.
use vstd::prelude::*;

verus! {

/// The default window of a double click, in milliseconds.
pub const DOUBLE_CLICK_MILLIS: u64 = 500;

/// Whether every entry of `held` is set.
pub open spec fn all_held(held: Seq<bool>) -> bool {
    forall|j: int| 0 <= j < held.len() ==> held[j]
}

/// A trigger that activates when all of its inner triggers are held, and releases when any of
/// them is released. While it waits to activate, it knows which inner triggers are held: for
/// one that is not, the next edge awaited is its press; for one that is, its release.
pub struct AllTrigger {
    held: Vec<bool>,
}

impl AllTrigger {
    /// Which inner triggers are held.
    pub closed spec fn held(&self) -> Seq<bool> {
        self.held@
    }

    /// A trigger over `count` inner triggers, none of them held.
    pub fn new(count: usize) -> (t: Self)
        ensures
            t.held() == Seq::new(count as nat, |i: int| false),
    {
        let mut held: Vec<bool> = Vec::new();
        let mut i: usize = 0;
        while i < count
            invariant
                i <= count,
                held@ == Seq::new(i as nat, |k: int| false),
            decreases count - i,
        {
            held.push(false);
            i += 1;
            assert(held@ =~= Seq::new(i as nat, |k: int| false));
        }
        AllTrigger { held }
    }

    /// The number of inner triggers.
    pub fn count(&self) -> (n: usize)
        ensures
            n == self.held().len(),
    {
        self.held.len()
    }

    /// Whether the edge to await from inner trigger `i` is its release (else its press).
    pub fn awaits_release(&self, i: usize) -> (r: bool)
        requires
            i < self.held().len(),
        ensures
            r == self.held()[i as int],
    {
        self.held[i]
    }

    /// A new wait begins: no inner trigger counts as held.
    pub fn restart(&mut self)
        ensures
            final(self).held() == Seq::new(old(self).held().len(), |i: int| false),
    {
        let n = self.held.len();
        *self = AllTrigger::new(n);
    }

    /// Inner trigger `i` reached the edge it was awaited for; the result says whether all inner
    /// triggers are now held, which is when the combined trigger activates.
    pub fn edge(&mut self, i: usize) -> (fired: bool)
        requires
            i < old(self).held().len(),
        ensures
            final(self).held() == old(self).held().update(i as int, !old(self).held()[i as int]),
            fired == all_held(final(self).held()),
    {
        let now = !self.held[i];
        self.held.set(i, now);
        all_set(&self.held)
    }
}

/// Whether every entry of `v` is set.
fn all_set(v: &Vec<bool>) -> (r: bool)
    ensures
        r == all_held(v@),
{
    let mut j: usize = 0;
    while j < v.len()
        invariant
            j <= v@.len(),
            forall|k: int| 0 <= k < j ==> v@[k],
        decreases v@.len() - j,
    {
        if !v[j] {
            return false;
        }
        j += 1;
    }
    true
}

/// A trigger that activates when any of its inner triggers is pressed; it releases when the
/// one that was pressed last is released.
pub struct AnyTrigger {
    pub last_pressed: usize,
}

impl AnyTrigger {
    /// A trigger that has seen no press; its release is that of the first inner trigger.
    pub fn new() -> (t: Self)
        ensures
            t.last_pressed == 0,
    {
        AnyTrigger { last_pressed: 0 }
    }

    /// Inner trigger `i` was pressed first.
    pub fn pressed(&mut self, i: usize)
        ensures
            final(self).last_pressed == i,
    {
        self.last_pressed = i;
    }

    /// The inner trigger, out of `count`, whose release is the release of this trigger: the one
    /// pressed last, or the first where that index is out of range.
    pub fn release_index(&self, count: usize) -> (i: usize)
        ensures
            i == (if self.last_pressed < count {
                self.last_pressed
            } else {
                0
            }),
    {
        if self.last_pressed < count {
            self.last_pressed
        } else {
            0
        }
    }
}

/// Where a double click stands: before its first press, or between its first press and the
/// end of its window.
#[derive(Debug, Clone, Copy, PartialEq, Eq, Structural)]
pub enum ClickPhase {
    AwaitFirst,
    AwaitSecond,
}

/// What ended a wait of a double click.
#[derive(Debug, Clone, Copy, PartialEq, Eq, Structural)]
pub enum ClickEvent {
    /// The inner trigger activated.
    Click,
    /// The window after the first press ran out.
    Timeout,
}

/// A trigger that activates when its inner trigger activates twice within a window.
pub struct DoubleClick {
    pub window_millis: u64,
    pub phase: ClickPhase,
}

/// The phase after `event` in `phase`, and whether the double click activated.
pub open spec fn click_step(phase: ClickPhase, event: ClickEvent) -> (ClickPhase, bool) {
    match (phase, event) {
        (ClickPhase::AwaitFirst, ClickEvent::Click) => (ClickPhase::AwaitSecond, false),
        (ClickPhase::AwaitSecond, ClickEvent::Click) => (ClickPhase::AwaitFirst, true),
        (_, ClickEvent::Timeout) => (ClickPhase::AwaitFirst, false),
    }
}

impl DoubleClick {
    /// A double click with the default window.
    pub fn double_click() -> (d: Self)
        ensures
            d.window_millis == DOUBLE_CLICK_MILLIS,
            d.phase == ClickPhase::AwaitFirst,
    {
        DoubleClick { window_millis: DOUBLE_CLICK_MILLIS, phase: ClickPhase::AwaitFirst }
    }

    /// A double click with a window of `window_millis` milliseconds.
    pub fn double_click_with_duration(window_millis: u64) -> (d: Self)
        ensures
            d.window_millis == window_millis,
            d.phase == ClickPhase::AwaitFirst,
    {
        DoubleClick { window_millis, phase: ClickPhase::AwaitFirst }
    }

    /// Whether the current wait races the inner trigger against the window.
    pub fn timed(&self) -> (r: bool)
        ensures
            r == (self.phase == ClickPhase::AwaitSecond),
    {
        match self.phase {
            ClickPhase::AwaitFirst => false,
            ClickPhase::AwaitSecond => true,
        }
    }

    /// The wait ended with `event`; the result says whether the double click activated.
    pub fn step(&mut self, event: ClickEvent) -> (fired: bool)
        ensures
            (final(self).phase, fired) == click_step(old(self).phase, event),
            final(self).window_millis == old(self).window_millis,
    {
        let (next, fired) = match (self.phase, event) {
            (ClickPhase::AwaitFirst, ClickEvent::Click) => (ClickPhase::AwaitSecond, false),
            (ClickPhase::AwaitSecond, ClickEvent::Click) => (ClickPhase::AwaitFirst, true),
            (_, ClickEvent::Timeout) => (ClickPhase::AwaitFirst, false),
        };
        self.phase = next;
        fired
    }
}

/// A double click activates exactly on a press that comes while the window of an earlier press
/// is open, and after activating it waits for a fresh first press.
pub proof fn lemma_click_fires_on_second(phase: ClickPhase, event: ClickEvent)
    ensures
        click_step(phase, event).1 <==> (phase == ClickPhase::AwaitSecond && event
            == ClickEvent::Click),
        click_step(phase, event).1 ==> click_step(phase, event).0 == ClickPhase::AwaitFirst,
        event == ClickEvent::Timeout ==> click_step(phase, event).0 == ClickPhase::AwaitFirst,
{
}

/// Two edges of the same inner trigger of an all-trigger leave the set of held triggers as it
/// was.
pub proof fn lemma_edge_twice_restores(held: Seq<bool>, i: int)
    requires
        0 <= i < held.len(),
    ensures
        held.update(i, !held[i]).update(i, !held.update(i, !held[i])[i]) == held,
{
    assert(held.update(i, !held[i]).update(i, !held.update(i, !held[i])[i]) =~= held);
}

} // verus!
