//! The registry of joystick triggers: every button, axis or POV trigger in use has an entry,
//! kept in a slab, that the periodic joystick poll updates and trigger futures consult.
use std::task::Waker;

use slab::Slab;
use vstd::prelude::*;

use crate::hid::{
    apply_state, button_state, new_reactor_item, pov_state, reactor_future_step,
    state_from_reading, ButtonTarget, Joystick, JoystickButtons, JoystickPovs, PovTarget,
    ReactorItem, ReactorPoll, TriggerState,
};

verus! {

#[verifier::external_type_specification]
#[verifier::external_body]
pub struct ExWaker(Waker);

#[verifier::external_type_specification]
#[verifier::external_body]
#[verifier::reject_recursive_types(T)]
pub struct ExSlab<T>(Slab<T>);

/// When an axis trigger activates. Each threshold is held as the bit pattern of an `f32`; the
/// comparison itself is made by the caller of `TriggerRegistry::poll`.
#[derive(Copy, Clone, Debug, PartialEq, Eq)]
pub enum AxisTarget {
    /// The axis is farther than the threshold from zero.
    Away(u32),
    /// The axis is closer than the threshold to zero.
    Within(u32),
    /// The axis is above the threshold.
    Up(u32),
    /// The axis is below the threshold.
    Down(u32),
}

/// What a trigger watches for.
#[derive(Copy, Clone, Debug, PartialEq, Eq)]
pub enum Target {
    Button(ButtonTarget),
    Axis(AxisTarget),
    Pov(PovTarget),
}

impl From<ButtonTarget> for Target {
    fn from(value: ButtonTarget) -> (r: Self) {
        Target::Button(value)
    }
}

impl vstd::std_specs::convert::FromSpecImpl<ButtonTarget> for Target {
    open spec fn obeys_from_spec() -> bool {
        true
    }

    open spec fn from_spec(value: ButtonTarget) -> Self {
        Target::Button(value)
    }
}

impl From<AxisTarget> for Target {
    fn from(value: AxisTarget) -> (r: Self) {
        Target::Axis(value)
    }
}

impl vstd::std_specs::convert::FromSpecImpl<AxisTarget> for Target {
    open spec fn obeys_from_spec() -> bool {
        true
    }

    open spec fn from_spec(value: AxisTarget) -> Self {
        Target::Axis(value)
    }
}

impl From<PovTarget> for Target {
    fn from(value: PovTarget) -> (r: Self) {
        Target::Pov(value)
    }
}

impl vstd::std_specs::convert::FromSpecImpl<PovTarget> for Target {
    open spec fn obeys_from_spec() -> bool {
        true
    }

    open spec fn from_spec(value: PovTarget) -> Self {
        Target::Pov(value)
    }
}

/// The kind of input a target watches, as a word for diagnostics.
pub fn type_from_target(target: &Target) -> (r: &'static str)
    ensures
        r@ == (match *target {
            Target::Button(_) => "button"@,
            Target::Axis(_) => "axis"@,
            Target::Pov(_) => "pov"@,
        }),
{
    match target {
        Target::Button(_) => "button",
        Target::Axis(_) => "axis",
        Target::Pov(_) => "pov",
    }
}

/// One registered trigger: which input of which joystick it watches, its target, the waker of
/// the future waiting on it, and its edge-tracking state.
pub struct TriggerEntry {
    pub joystick: Joystick,
    pub idx: u32,
    pub target: Target,
    pub waker: Option<Waker>,
    pub item: ReactorItem,
}

/// The entries of a slab of triggers, by key.
pub uninterp spec fn trigger_entries(slab: Slab<TriggerEntry>) -> Map<usize, TriggerEntry>;

/// `Slab::new`: a slab with no entries.
#[verifier::external_body]
fn slab_new() -> (fresh: Slab<TriggerEntry>)
    ensures
        trigger_entries(fresh) =~= Map::empty(),
{
    Slab::new()
}

/// `Slab::insert`: stores `entry` under a key that was vacant and returns that key; the other
/// entries stay.
#[verifier::external_body]
fn slab_insert(slab: &mut Slab<TriggerEntry>, entry: TriggerEntry) -> (key: usize)
    ensures
        !trigger_entries(*old(slab)).dom().contains(key),
        trigger_entries(*final(slab)) == trigger_entries(*old(slab)).insert(key, entry),
{
    slab.insert(entry)
}

/// `Slab::remove`: takes out the entry under `key`, which must be occupied (the slab panics
/// otherwise); the other entries stay.
#[verifier::external_body]
fn slab_remove(slab: &mut Slab<TriggerEntry>, key: usize) -> (entry: TriggerEntry)
    requires
        trigger_entries(*old(slab)).dom().contains(key),
    ensures
        entry == trigger_entries(*old(slab))[key],
        trigger_entries(*final(slab)) == trigger_entries(*old(slab)).remove(key),
{
    slab.remove(key)
}

/// Indexing a slab: the entry under `key`, which must be occupied (the slab panics otherwise).
#[verifier::external_body]
fn slab_get(slab: &Slab<TriggerEntry>, key: usize) -> (entry: &TriggerEntry)
    requires
        trigger_entries(*slab).dom().contains(key),
    ensures
        *entry == trigger_entries(*slab)[key],
{
    &slab[key]
}

/// Mutable indexing of a slab: the entry under `key`, which must be occupied (the slab panics
/// otherwise). What is written through the reference becomes the entry under `key`; the other
/// entries stay.
#[verifier::external_body]
fn slab_get_mut(slab: &mut Slab<TriggerEntry>, key: usize) -> (entry: &mut TriggerEntry)
    requires
        trigger_entries(*old(slab)).dom().contains(key),
    ensures
        *entry == trigger_entries(*old(slab))[key],
        trigger_entries(*final(slab)) == trigger_entries(*old(slab)).insert(key, *final(entry)),
{
    &mut slab[key]
}

/// `Slab::contains`: whether `key` is occupied.
#[verifier::external_body]
fn slab_contains(slab: &Slab<TriggerEntry>, key: usize) -> (r: bool)
    ensures
        r == trigger_entries(*slab).dom().contains(key),
{
    slab.contains(key)
}

/// `Slab::iter`, keys only: every occupied key, once, in increasing order.
#[verifier::external_body]
fn slab_keys(slab: &Slab<TriggerEntry>) -> (keys: Vec<usize>)
    ensures
        forall|i: int, j: int| 0 <= i < j < keys@.len() ==> keys@[i] < keys@[j],
        forall|k: usize| trigger_entries(*slab).dom().contains(k) <==> keys@.contains(k),
{
    slab.iter().map(|(key, _)| key).collect()
}

/// The entry a new trigger starts with.
pub open spec fn fresh_entry(joystick: Joystick, idx: u32, target: Target) -> TriggerEntry {
    TriggerEntry {
        joystick,
        idx,
        target,
        waker: None,
        item: ReactorItem { state: TriggerState::Unknown, triggered: false, released: false },
    }
}

/// The joystick port of an entry.
pub open spec fn entry_port(e: TriggerEntry) -> int {
    e.joystick.num() as int
}

/// Whether the joystick data can be read for entry `e` without going out of bounds: a button
/// index below the reported count is below 32, a POV index below the reported count is below 12.
pub open spec fn readable(e: TriggerEntry, buttons: Seq<JoystickButtons>, povs: Seq<JoystickPovs>) -> bool {
    match e.target {
        Target::Button(_) => e.idx < buttons[entry_port(e)].count ==> e.idx < 32,
        Target::Pov(_) => (e.idx as i16) < povs[entry_port(e)].count ==> e.idx < 12,
        Target::Axis(_) => true,
    }
}

/// The state of a reading: active, inactive, or no such input.
pub open spec fn state_of_reading(active: Option<bool>) -> TriggerState {
    match active {
        Some(true) => TriggerState::Triggered,
        Some(false) => TriggerState::Release,
        None => TriggerState::OutOfRange,
    }
}

/// Whether `s` is the state entry `e` reads as: buttons and POVs from the joystick data, axes
/// from a reading that `axis_active` may return for them.
pub open spec fn polled_state<F: Fn(u32, u32, AxisTarget) -> Option<bool>>(
    e: TriggerEntry,
    s: TriggerState,
    buttons: Seq<JoystickButtons>,
    povs: Seq<JoystickPovs>,
    axis_active: F,
) -> bool {
    match e.target {
        Target::Button(t) => s == crate::hid::button_state_of(t, buttons[entry_port(e)], e.idx),
        Target::Pov(t) => s == crate::hid::pov_state_of(t, povs[entry_port(e)], e.idx),
        Target::Axis(t) => exists|r: Option<bool>|
            call_ensures(axis_active, (e.joystick.num(), e.idx, t), r) && s == state_of_reading(r),
    }
}

/// Entry `e` after a poll read state `s`: the item records the state, and on a change the
/// waker is taken out to be woken.
pub open spec fn polled(e: TriggerEntry, s: TriggerState) -> TriggerEntry {
    TriggerEntry {
        item: crate::hid::applied(e.item, s),
        waker: if s != e.item.state {
            None
        } else {
            e.waker
        },
        ..e
    }
}

/// Whether `f` is what a poll makes of entry `e`.
pub open spec fn poll_outcome<F: Fn(u32, u32, AxisTarget) -> Option<bool>>(
    e: TriggerEntry,
    f: TriggerEntry,
    buttons: Seq<JoystickButtons>,
    povs: Seq<JoystickPovs>,
    axis_active: F,
) -> bool {
    exists|s: TriggerState| #[trigger] polled(e, s) == f && polled_state(e, s, buttons, povs, axis_active)
}

/// Whether a poll that turned entry `before` into `after` owes a wake-up: the state changed and
/// a waker was waiting.
pub open spec fn owes_wake(before: TriggerEntry, after: TriggerEntry) -> bool {
    after.item.state != before.item.state && before.waker is Some
}

/// Whether the wake-ups in `woken` include one for `key`.
pub open spec fn wakes(woken: Seq<(usize, Waker)>, key: usize) -> bool {
    exists|a: int| 0 <= a < woken.len() && woken[a].0 == key
}

/// The registry of triggers.
pub struct TriggerRegistry {
    entries: Slab<TriggerEntry>,
}

impl View for TriggerRegistry {
    type V = Map<usize, TriggerEntry>;

    closed spec fn view(&self) -> Map<usize, TriggerEntry> {
        trigger_entries(self.entries)
    }
}

impl TriggerRegistry {
    /// A registry with no triggers.
    pub fn new() -> (r: Self)
        ensures
            r@ == Map::<usize, TriggerEntry>::empty(),
    {
        TriggerRegistry { entries: slab_new() }
    }

    /// Whether a trigger is registered under `key`.
    pub fn contains(&self, key: usize) -> (r: bool)
        ensures
            r == self@.dom().contains(key),
    {
        slab_contains(&self.entries, key)
    }

    /// Whether every trigger can read its input from this joystick data without going out of
    /// bounds (see `readable`). `poll` needs this.
    pub fn readable_all(&self, buttons: &[JoystickButtons], povs: &[JoystickPovs]) -> (r: bool)
        requires
            buttons@.len() == crate::hid::JOYSTICK_PORTS,
            povs@.len() == crate::hid::JOYSTICK_PORTS,
        ensures
            r == forall|k: usize| self@.dom().contains(k) ==> readable(self@[k], buttons@, povs@),
    {
        let keys = slab_keys(&self.entries);
        let mut i: usize = 0;
        while i < keys.len()
            invariant
                i <= keys@.len(),
                buttons@.len() == crate::hid::JOYSTICK_PORTS,
                povs@.len() == crate::hid::JOYSTICK_PORTS,
                forall|k: usize| self@.dom().contains(k) <==> keys@.contains(k),
                forall|a: int| 0 <= a < i ==> readable(self@[#[trigger] keys@[a]], buttons@, povs@),
            decreases keys@.len() - i,
        {
            let key = keys[i];
            assert(keys@.contains(key));
            let entry = slab_get(&self.entries, key);
            let port = entry.joystick.get_num() as usize;
            let ok = match entry.target {
                Target::Button(_) => !(entry.idx < buttons[port].count as u32) || entry.idx < 32,
                Target::Pov(_) => !((entry.idx as i16) < povs[port].count) || entry.idx < 12,
                Target::Axis(_) => true,
            };
            if !ok {
                return false;
            }
            i += 1;
        }
        assert forall|k: usize| self@.dom().contains(k) implies readable(self@[k], buttons@, povs@) by {
            assert(keys@.contains(k));
            let a = choose|a: int| 0 <= a < keys@.len() && keys@[a] == k;
            assert(readable(self@[keys@[a]], buttons@, povs@));
        }
        true
    }

    /// Registers a trigger on input `index` of `joystick` and returns its key. The new entry
    /// has no waker and an unknown state.
    pub fn add_trigger(&mut self, joystick: &Joystick, index: u32, target: Target) -> (key: usize)
        ensures
            !old(self)@.dom().contains(key),
            final(self)@ == old(self)@.insert(key, fresh_entry(*joystick, index, target)),
    {
        let entry = TriggerEntry {
            joystick: *joystick,
            idx: index,
            target,
            waker: None,
            item: new_reactor_item(),
        };
        slab_insert(&mut self.entries, entry)
    }

    /// Removes the trigger under `key`, which must be registered.
    pub fn remove_trigger(&mut self, key: usize)
        requires
            old(self)@.dom().contains(key),
        ensures
            final(self)@ == old(self)@.remove(key),
    {
        let _ = slab_remove(&mut self.entries, key);
    }

    /// Gives the trigger under `key` a new target; its state becomes unknown until the next
    /// poll. The edge flags stay.
    pub fn set_target(&mut self, key: usize, target: Target)
        requires
            old(self)@.dom().contains(key),
        ensures
            final(self)@ == old(self)@.insert(
                key,
                TriggerEntry {
                    target,
                    item: ReactorItem { state: TriggerState::Unknown, ..old(self)@[key].item },
                    ..old(self)@[key]
                },
            ),
    {
        let entry = slab_get_mut(&mut self.entries, key);
        entry.target = target;
        entry.item.state = TriggerState::Unknown;
    }

    /// Remembers `waker` as the one to wake when the trigger under `key` changes state.
    pub fn register_waker(&mut self, key: usize, waker: Waker)
        requires
            old(self)@.dom().contains(key),
        ensures
            final(self)@ == old(self)@.insert(
                key,
                TriggerEntry { waker: Some(waker), ..old(self)@[key] },
            ),
    {
        let entry = slab_get_mut(&mut self.entries, key);
        entry.waker = Some(waker);
    }

    /// One poll of a future waiting on the trigger under `key` for a rising edge (`on_release`
    /// false) or a falling edge; `first_run` is set on the future's first poll. The entry's item
    /// is stepped as `reactor_future_step` does.
    pub fn future_step(&mut self, key: usize, on_release: bool, first_run: bool) -> (p: ReactorPoll)
        requires
            old(self)@.dom().contains(key),
        ensures
            p == crate::hid::step_result(old(self)@[key].item, on_release, first_run),
            final(self)@ == old(self)@.insert(
                key,
                TriggerEntry {
                    item: crate::hid::stepped(old(self)@[key].item, on_release),
                    ..old(self)@[key]
                },
            ),
    {
        let entry = slab_get_mut(&mut self.entries, key);
        reactor_future_step(&mut entry.item, on_release, first_run)
    }

    /// The state entry `key` reads as in the current joystick data.
    fn read_state<F: Fn(u32, u32, AxisTarget) -> Option<bool>>(
        &self,
        key: usize,
        buttons: &[JoystickButtons],
        povs: &[JoystickPovs],
        axis_active: &F,
    ) -> (s: TriggerState)
        requires
            self@.dom().contains(key),
            buttons@.len() == crate::hid::JOYSTICK_PORTS,
            povs@.len() == crate::hid::JOYSTICK_PORTS,
            readable(self@[key], buttons@, povs@),
            forall|j: u32, i: u32, t: AxisTarget| call_requires(*axis_active, (j, i, t)),
        ensures
            polled_state(self@[key], s, buttons@, povs@, *axis_active),
    {
        let entry = slab_get(&self.entries, key);
        let port = entry.joystick.get_num() as usize;
        match entry.target {
            Target::Button(t) => button_state(t, &buttons[port], entry.idx),
            Target::Pov(t) => pov_state(t, &povs[port], entry.idx),
            Target::Axis(t) => {
                let r = axis_active(entry.joystick.get_num(), entry.idx, t);
                let st = state_from_reading(r);
                assert(call_ensures(*axis_active, (entry.joystick.num(), entry.idx, t), r)
                    && st == state_of_reading(r));
                st
            },
        }
    }

    /// Polls every trigger against the current joystick data: each entry records the state it
    /// reads as (see `poll_outcome`), and each entry whose state changed gives up its waker.
    /// Returns those wakers with their keys, in increasing order of key; the caller wakes them.
    /// `axis_active` tells whether axis `i` of joystick `j` meets an axis target, or `None` when
    /// the joystick has no such axis.
    pub fn poll<F: Fn(u32, u32, AxisTarget) -> Option<bool>>(
        &mut self,
        buttons: &[JoystickButtons],
        povs: &[JoystickPovs],
        axis_active: F,
    ) -> (woken: Vec<(usize, Waker)>)
        requires
            buttons@.len() == crate::hid::JOYSTICK_PORTS,
            povs@.len() == crate::hid::JOYSTICK_PORTS,
            forall|k: usize| old(self)@.dom().contains(k) ==> readable(old(self)@[k], buttons@, povs@),
            forall|j: u32, i: u32, t: AxisTarget| call_requires(axis_active, (j, i, t)),
        ensures
            final(self)@.dom() == old(self)@.dom(),
            forall|k: usize| #[trigger] old(self)@.dom().contains(k) ==> poll_outcome(
                old(self)@[k],
                final(self)@[k],
                buttons@,
                povs@,
                axis_active,
            ),
            forall|a: int, b: int| 0 <= a < b < woken@.len() ==> woken@[a].0 < woken@[b].0,
            forall|a: int| 0 <= a < woken@.len() ==> {
                let k = #[trigger] woken@[a].0;
                &&& old(self)@.dom().contains(k)
                &&& old(self)@[k].waker == Some(woken@[a].1)
                &&& final(self)@[k].item.state != old(self)@[k].item.state
            },
            forall|k: usize| #[trigger] old(self)@.dom().contains(k) && owes_wake(
                old(self)@[k],
                final(self)@[k],
            ) ==> wakes(woken@, k),
    {
        let keys = slab_keys(&self.entries);
        let mut woken: Vec<(usize, Waker)> = Vec::new();
        let mut i: usize = 0;
        while i < keys.len()
            invariant
                i <= keys@.len(),
                buttons@.len() == crate::hid::JOYSTICK_PORTS,
                povs@.len() == crate::hid::JOYSTICK_PORTS,
                forall|j: u32, i: u32, t: AxisTarget| call_requires(axis_active, (j, i, t)),
                forall|a: int, b: int| 0 <= a < b < keys@.len() ==> keys@[a] < keys@[b],
                forall|k: usize| old(self)@.dom().contains(k) <==> keys@.contains(k),
                self@.dom() == old(self)@.dom(),
                forall|k: usize| old(self)@.dom().contains(k) ==> readable(old(self)@[k], buttons@, povs@),
                forall|a: int| 0 <= a < i ==> poll_outcome(
                    old(self)@[keys@[a]],
                    self@[keys@[a]],
                    buttons@,
                    povs@,
                    axis_active,
                ),
                forall|a: int| i <= a < keys@.len() ==> self@[keys@[a]] == old(self)@[keys@[a]],
                forall|a: int, b: int| 0 <= a < b < woken@.len() ==> woken@[a].0 < woken@[b].0,
                forall|a: int| 0 <= a < woken@.len() ==> i < keys@.len() ==> woken@[a].0 < keys@[i as int],
                forall|a: int| 0 <= a < woken@.len() ==> {
                    let k = #[trigger] woken@[a].0;
                    &&& old(self)@.dom().contains(k)
                    &&& old(self)@[k].waker == Some(woken@[a].1)
                    &&& self@[k].item.state != old(self)@[k].item.state
                },
                forall|c: int| 0 <= c < i ==> owes_wake(old(self)@[keys@[c]], self@[keys@[c]]) ==> wakes(
                    woken@,
                    #[trigger] keys@[c],
                ),
            decreases keys@.len() - i,
        {
            let key = keys[i];
            assert(keys@.contains(key));
            let state = self.read_state(key, buttons, povs, &axis_active);
            let ghost before = self@;
            let ghost woken_before = woken@;
            let entry = slab_get_mut(&mut self.entries, key);
            let changed = apply_state(&mut entry.item, state);
            if changed {
                match entry.waker.take() {
                    Some(w) => woken.push((key, w)),
                    None => {},
                }
            }
            assert(self@[key] == polled(before[key], state));
            assert forall|c: int| 0 <= c <= i && owes_wake(old(self)@[keys@[c]], self@[keys@[c]])
                implies wakes(woken@, #[trigger] keys@[c]) by {
                if c < i {
                    assert(keys@[c] < keys@[i as int]);
                    assert(wakes(woken_before, keys@[c]));
                    let a = choose|a: int| 0 <= a < woken_before.len() && woken_before[a].0 == keys@[c];
                    assert(woken@[a] == woken_before[a]);
                } else {
                    assert(woken@[woken@.len() - 1].0 == key);
                }
            }
            i += 1;
        }
        assert forall|k: usize| #[trigger] old(self)@.dom().contains(k) implies poll_outcome(
            old(self)@[k],
            self@[k],
            buttons@,
            povs@,
            axis_active,
        ) && (owes_wake(old(self)@[k], self@[k]) ==> wakes(woken@, k)) by {
            assert(keys@.contains(k));
            let c = choose|c: int| 0 <= c < keys@.len() && keys@[c] == k;
            assert(keys@[c] == k);
        }
        woken
    }
}

/// Removing a trigger undoes adding it: the registry is as it was before.
pub proof fn lemma_add_then_remove(registry: Map<usize, TriggerEntry>, key: usize, entry: TriggerEntry)
    requires
        !registry.dom().contains(key),
    ensures
        registry.insert(key, entry).remove(key) == registry,
{
    assert(registry.insert(key, entry).remove(key) =~= registry);
}

/// Polling again with the same reading changes nothing: the entry keeps its state, flags and
/// waker, so nothing is woken twice for one change.
pub proof fn lemma_poll_settles(e: TriggerEntry, s: TriggerState)
    ensures
        polled(polled(e, s), s) == polled(e, s),
        !owes_wake(polled(e, s), polled(polled(e, s), s)),
{
}

// ---------------------------------------------------------------------------------------------
// Triggers on joystick inputs
// ---------------------------------------------------------------------------------------------

/// A trigger on a joystick button, registered under `key` in a trigger registry.
pub struct Button {
    joystick: Joystick,
    button_index: u32,
    target: ButtonTarget,
    reactor_idx: usize,
}

impl Button {
    /// The joystick.
    pub closed spec fn joystick(&self) -> Joystick {
        self.joystick
    }

    /// The button index.
    pub closed spec fn index(&self) -> u32 {
        self.button_index
    }

    /// The target.
    pub closed spec fn target(&self) -> ButtonTarget {
        self.target
    }

    /// The key of the trigger's registry entry.
    pub closed spec fn key(&self) -> usize {
        self.reactor_idx
    }

    /// Registers a trigger on button `button_index` of `joystick`.
    pub fn new(
        registry: &mut TriggerRegistry,
        joystick: Joystick,
        button_index: u32,
        target: ButtonTarget,
    ) -> (b: Self)
        ensures
            b.joystick() == joystick,
            b.index() == button_index,
            b.target() == target,
            !old(registry)@.dom().contains(b.key()),
            final(registry)@ == old(registry)@.insert(
                b.key(),
                fresh_entry(joystick, button_index, Target::Button(target)),
            ),
    {
        let reactor_idx = registry.add_trigger(&joystick, button_index, Target::Button(target));
        Button { joystick, button_index, target, reactor_idx }
    }

    /// A second trigger on the same button with the same target, registered anew.
    pub fn duplicate(&self, registry: &mut TriggerRegistry) -> (b: Self)
        ensures
            b.joystick() == self.joystick(),
            b.index() == self.index(),
            b.target() == self.target(),
            !old(registry)@.dom().contains(b.key()),
            final(registry)@ == old(registry)@.insert(
                b.key(),
                fresh_entry(self.joystick(), self.index(), Target::Button(self.target())),
            ),
    {
        Button::new(registry, self.joystick, self.button_index, self.target)
    }

    /// The key of the trigger's registry entry.
    pub fn reactor_key(&self) -> (k: usize)
        ensures
            k == self.key(),
    {
        self.reactor_idx
    }

    /// Changes the target; the registry entry takes it and forgets its state.
    pub fn set_target(&mut self, registry: &mut TriggerRegistry, target: ButtonTarget)
        requires
            old(registry)@.dom().contains(old(self).key()),
        ensures
            final(self).joystick() == old(self).joystick(),
            final(self).index() == old(self).index(),
            final(self).key() == old(self).key(),
            final(self).target() == target,
            final(registry)@ == old(registry)@.insert(
                old(self).key(),
                TriggerEntry {
                    target: Target::Button(target),
                    item: ReactorItem {
                        state: TriggerState::Unknown,
                        ..old(registry)@[old(self).key()].item
                    },
                    ..old(registry)@[old(self).key()]
                },
            ),
    {
        registry.set_target(self.reactor_idx, Target::Button(target));
        self.target = target;
    }

    /// The state of the button in `buttons`, or `None` when the joystick has fewer buttons.
    pub fn value(&self, buttons: &JoystickButtons) -> (r: Option<bool>)
        requires
            self.index() < buttons.count ==> self.index() < 32,
        ensures
            r == (if self.index() >= buttons.count {
                None
            } else {
                Some(buttons.buttons & (1u32 << self.index()) > 0)
            }),
    {
        crate::hid::get_button(buttons, self.button_index)
    }

    /// Removes the trigger's registry entry.
    pub fn remove(self, registry: &mut TriggerRegistry)
        requires
            old(registry)@.dom().contains(self.key()),
        ensures
            final(registry)@ == old(registry)@.remove(self.key()),
    {
        registry.remove_trigger(self.reactor_idx);
    }
}

/// A trigger on a joystick POV, registered under `key` in a trigger registry.
pub struct Pov {
    joystick: Joystick,
    pov_index: u32,
    target: PovTarget,
    reactor_idx: usize,
}

impl Pov {
    /// The joystick.
    pub closed spec fn joystick(&self) -> Joystick {
        self.joystick
    }

    /// The POV index.
    pub closed spec fn index(&self) -> u32 {
        self.pov_index
    }

    /// The target.
    pub closed spec fn target(&self) -> PovTarget {
        self.target
    }

    /// The key of the trigger's registry entry.
    pub closed spec fn key(&self) -> usize {
        self.reactor_idx
    }

    /// Registers a trigger on POV `pov_index` of `joystick`.
    pub fn new(registry: &mut TriggerRegistry, joystick: Joystick, pov_index: u32, target: PovTarget) -> (p: Self)
        ensures
            p.joystick() == joystick,
            p.index() == pov_index,
            p.target() == target,
            !old(registry)@.dom().contains(p.key()),
            final(registry)@ == old(registry)@.insert(
                p.key(),
                fresh_entry(joystick, pov_index, Target::Pov(target)),
            ),
    {
        let reactor_idx = registry.add_trigger(&joystick, pov_index, Target::Pov(target));
        Pov { joystick, pov_index, target, reactor_idx }
    }

    /// A second trigger on the same POV with the same target, registered anew.
    pub fn duplicate(&self, registry: &mut TriggerRegistry) -> (p: Self)
        ensures
            p.joystick() == self.joystick(),
            p.index() == self.index(),
            p.target() == self.target(),
            !old(registry)@.dom().contains(p.key()),
            final(registry)@ == old(registry)@.insert(
                p.key(),
                fresh_entry(self.joystick(), self.index(), Target::Pov(self.target())),
            ),
    {
        Pov::new(registry, self.joystick, self.pov_index, self.target)
    }

    /// The key of the trigger's registry entry.
    pub fn reactor_key(&self) -> (k: usize)
        ensures
            k == self.key(),
    {
        self.reactor_idx
    }

    /// Changes the target; the registry entry takes it and forgets its state.
    pub fn set_target(&mut self, registry: &mut TriggerRegistry, target: PovTarget)
        requires
            old(registry)@.dom().contains(old(self).key()),
        ensures
            final(self).joystick() == old(self).joystick(),
            final(self).index() == old(self).index(),
            final(self).key() == old(self).key(),
            final(self).target() == target,
            final(registry)@ == old(registry)@.insert(
                old(self).key(),
                TriggerEntry {
                    target: Target::Pov(target),
                    item: ReactorItem {
                        state: TriggerState::Unknown,
                        ..old(registry)@[old(self).key()].item
                    },
                    ..old(registry)@[old(self).key()]
                },
            ),
    {
        registry.set_target(self.reactor_idx, Target::Pov(target));
        self.target = target;
    }

    /// The angle of the POV in `povs`, or `None` when the joystick has fewer POVs.
    pub fn value(&self, povs: &JoystickPovs) -> (r: Option<i16>)
        requires
            (self.index() as i16) < povs.count ==> self.index() < 12,
        ensures
            r == (if (self.index() as i16) >= povs.count {
                None
            } else {
                Some(povs.povs[self.index() as int])
            }),
    {
        crate::hid::get_pov(povs, self.pov_index)
    }

    /// Removes the trigger's registry entry.
    pub fn remove(self, registry: &mut TriggerRegistry)
        requires
            old(registry)@.dom().contains(self.key()),
        ensures
            final(registry)@ == old(registry)@.remove(self.key()),
    {
        registry.remove_trigger(self.reactor_idx);
    }
}

/// A trigger on a joystick axis, registered under `key` in a trigger registry.
pub struct Axis {
    joystick: Joystick,
    axis_index: u32,
    target: AxisTarget,
    reactor_idx: usize,
}

impl Axis {
    /// The joystick.
    pub closed spec fn joystick(&self) -> Joystick {
        self.joystick
    }

    /// The axis index.
    pub closed spec fn index(&self) -> u32 {
        self.axis_index
    }

    /// The target.
    pub closed spec fn target(&self) -> AxisTarget {
        self.target
    }

    /// The key of the trigger's registry entry.
    pub closed spec fn key(&self) -> usize {
        self.reactor_idx
    }

    /// Registers a trigger on axis `axis_index` of `joystick`.
    pub fn new(registry: &mut TriggerRegistry, joystick: Joystick, axis_index: u32, target: AxisTarget) -> (a: Self)
        ensures
            a.joystick() == joystick,
            a.index() == axis_index,
            a.target() == target,
            !old(registry)@.dom().contains(a.key()),
            final(registry)@ == old(registry)@.insert(
                a.key(),
                fresh_entry(joystick, axis_index, Target::Axis(target)),
            ),
    {
        let reactor_idx = registry.add_trigger(&joystick, axis_index, Target::Axis(target));
        Axis { joystick, axis_index, target, reactor_idx }
    }

    /// A second trigger on the same axis with the same target, registered anew.
    pub fn duplicate(&self, registry: &mut TriggerRegistry) -> (a: Self)
        ensures
            a.joystick() == self.joystick(),
            a.index() == self.index(),
            a.target() == self.target(),
            !old(registry)@.dom().contains(a.key()),
            final(registry)@ == old(registry)@.insert(
                a.key(),
                fresh_entry(self.joystick(), self.index(), Target::Axis(self.target())),
            ),
    {
        Axis::new(registry, self.joystick, self.axis_index, self.target)
    }

    /// The key of the trigger's registry entry.
    pub fn reactor_key(&self) -> (k: usize)
        ensures
            k == self.key(),
    {
        self.reactor_idx
    }

    /// The axis index.
    pub fn axis_index(&self) -> (i: u32)
        ensures
            i == self.index(),
    {
        self.axis_index
    }

    /// Changes the target; the registry entry takes it and forgets its state.
    pub fn set_target(&mut self, registry: &mut TriggerRegistry, target: AxisTarget)
        requires
            old(registry)@.dom().contains(old(self).key()),
        ensures
            final(self).joystick() == old(self).joystick(),
            final(self).index() == old(self).index(),
            final(self).key() == old(self).key(),
            final(self).target() == target,
            final(registry)@ == old(registry)@.insert(
                old(self).key(),
                TriggerEntry {
                    target: Target::Axis(target),
                    item: ReactorItem {
                        state: TriggerState::Unknown,
                        ..old(registry)@[old(self).key()].item
                    },
                    ..old(registry)@[old(self).key()]
                },
            ),
    {
        registry.set_target(self.reactor_idx, Target::Axis(target));
        self.target = target;
    }

    /// Removes the trigger's registry entry.
    pub fn remove(self, registry: &mut TriggerRegistry)
        requires
            old(registry)@.dom().contains(self.key()),
        ensures
            final(registry)@ == old(registry)@.remove(self.key()),
    {
        registry.remove_trigger(self.reactor_idx);
    }
}

impl Joystick {
    /// A trigger on button `idx` that activates on press.
    pub fn get_button(&self, registry: &mut TriggerRegistry, idx: u32) -> (b: Button)
        ensures
            b.joystick() == *self,
            b.index() == idx,
            b.target() == ButtonTarget::Pressed,
            !old(registry)@.dom().contains(b.key()),
            final(registry)@ == old(registry)@.insert(
                b.key(),
                fresh_entry(*self, idx, Target::Button(ButtonTarget::Pressed)),
            ),
    {
        Button::new(registry, *self, idx, ButtonTarget::Pressed)
    }

    /// A trigger on axis `idx` with the given target.
    pub fn get_axis(&self, registry: &mut TriggerRegistry, idx: u32, target: AxisTarget) -> (a: Axis)
        ensures
            a.joystick() == *self,
            a.index() == idx,
            a.target() == target,
            !old(registry)@.dom().contains(a.key()),
            final(registry)@ == old(registry)@.insert(
                a.key(),
                fresh_entry(*self, idx, Target::Axis(target)),
            ),
    {
        Axis::new(registry, *self, idx, target)
    }

    /// A trigger on POV `idx` with the given target.
    pub fn get_pov(&self, registry: &mut TriggerRegistry, idx: u32, target: PovTarget) -> (p: Pov)
        ensures
            p.joystick() == *self,
            p.index() == idx,
            p.target() == target,
            !old(registry)@.dom().contains(p.key()),
            final(registry)@ == old(registry)@.insert(
                p.key(),
                fresh_entry(*self, idx, Target::Pov(target)),
            ),
    {
        Pov::new(registry, *self, idx, target)
    }
}

} // verus!
