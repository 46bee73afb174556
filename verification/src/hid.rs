//! Human interface devices: joystick data, trigger targets, controllers, and the state machine
//! that turns joystick readings into trigger edges.
use vstd::prelude::*;

use crate::error::RuntimeError;

verus! {

/// The number of joystick ports.
pub const JOYSTICK_PORTS: u32 = 6;

/// The button states of one joystick: bit `i` of `buttons` is button `i`.
#[derive(Debug, Clone, Copy, PartialEq, Eq, Default)]
pub struct JoystickButtons {
    pub buttons: u32,
    pub count: u8,
}

/// The POV (d-pad) angles of one joystick, in degrees, or -1 when not pressed.
#[derive(Debug, Clone, Copy, PartialEq, Eq, Default)]
pub struct JoystickPovs {
    pub count: i16,
    pub povs: [i16; 12],
}

/// The state of button `index`, or `None` when the joystick has fewer buttons.
pub fn get_button(buttons: &JoystickButtons, index: u32) -> (r: Option<bool>)
    requires
        index < buttons.count ==> index < 32,
    ensures
        r == (if index >= buttons.count {
            None
        } else {
            Some(buttons.buttons & (1u32 << index) > 0)
        }),
{
    if index >= buttons.count as u32 {
        None
    } else {
        Some(buttons.buttons & (1u32 << index) > 0)
    }
}

/// The angle of POV `index`, or `None` when the joystick has fewer POVs. The index is
/// compared as an `i16`.
pub fn get_pov(povs: &JoystickPovs, index: u32) -> (r: Option<i16>)
    requires
        (index as i16) < povs.count ==> index < 12,
    ensures
        r == (if (index as i16) >= povs.count {
            None
        } else {
            Some(povs.povs[index as int])
        }),
{
    if index as i16 >= povs.count {
        None
    } else {
        Some(povs.povs[index as usize])
    }
}

/// When a button trigger activates.
#[derive(Copy, Clone, Debug, PartialEq, Eq)]
pub enum ButtonTarget {
    /// Activate when pressed.
    Pressed,
    /// Activate when released.
    Released,
}

impl ButtonTarget {
    /// Whether a button reading `value` activates this target.
    pub fn is_active(&self, value: bool) -> (r: bool)
        ensures
            r == match *self {
                ButtonTarget::Pressed => value,
                ButtonTarget::Released => !value,
            },
    {
        match self {
            ButtonTarget::Pressed => value,
            ButtonTarget::Released => !value,
        }
    }
}

/// When a POV trigger activates.
#[derive(Copy, Clone, Debug, PartialEq, Eq)]
pub enum PovTarget {
    /// Activate when the POV reads exactly this angle.
    Raw(i16),
}

impl PovTarget {
    /// Whether a POV reading `value` activates this target.
    pub fn is_active(&self, value: i16) -> (r: bool)
        ensures
            r == match *self {
                PovTarget::Raw(desired) => value == desired,
            },
    {
        match self {
            PovTarget::Raw(desired) => value == *desired,
        }
    }
}

/// A joystick port of the driver station.
#[derive(PartialEq, Eq, Clone, Debug, Copy)]
pub struct Joystick {
    num: u32,
}

impl Joystick {
    #[verifier::type_invariant]
    spec fn port_in_range(self) -> bool {
        self.num < JOYSTICK_PORTS
    }

    /// The port number.
    pub closed spec fn num(&self) -> u32 {
        self.num
    }

    /// The joystick on port `num` (zero based). There are six ports.
    pub fn new(num: u32) -> (j: Self)
        requires
            num < JOYSTICK_PORTS,
        ensures
            j.num() == num,
    {
        Self { num }
    }

    /// The port number, which is always below the number of ports.
    pub fn get_num(&self) -> (n: u32)
        ensures
            n == self.num(),
            n < JOYSTICK_PORTS,
    {
        proof {
            use_type_invariant(self);
        }
        self.num
    }
}

/// An Xbox controller.
#[derive(Clone, Copy, Debug, PartialEq, Eq)]
pub struct XboxController {
    pub joystick: Joystick,
}

impl XboxController {
    /// The Xbox controller on port `num`; fails when there is no such port.
    pub fn new(num: u32) -> (r: Result<Self, RuntimeError>)
        ensures
            num < JOYSTICK_PORTS <==> r is Ok,
            r matches Ok(c) ==> c.joystick.num() == num,
            r matches Err(e) ==> e == RuntimeError::JoystickIndexOutOfRange(num),
    {
        if num >= JOYSTICK_PORTS {
            return Err(RuntimeError::JoystickIndexOutOfRange(num));
        }
        Ok(Self { joystick: Joystick::new(num) })
    }
}

/// A PS4 controller.
#[derive(Clone, Copy, Debug, PartialEq, Eq)]
pub struct PS4Controller {
    pub joystick: Joystick,
}

impl PS4Controller {
    /// The PS4 controller on port `num`; fails when there is no such port.
    pub fn new(num: u32) -> (r: Result<Self, RuntimeError>)
        ensures
            num < JOYSTICK_PORTS <==> r is Ok,
            r matches Ok(c) ==> c.joystick.num() == num,
            r matches Err(e) ==> e == RuntimeError::JoystickIndexOutOfRange(num),
    {
        if num >= JOYSTICK_PORTS {
            return Err(RuntimeError::JoystickIndexOutOfRange(num));
        }
        Ok(Self { joystick: Joystick::new(num) })
    }
}

// ---------------------------------------------------------------------------------------------
// Trigger reactor
// ---------------------------------------------------------------------------------------------

/// Where a trigger input stands as of the last poll.
#[derive(Clone, Copy, PartialEq, Eq, Debug, Structural)]
pub enum TriggerState {
    /// The target is active.
    Triggered,
    /// The target is inactive.
    Release,
    /// The input does not exist on the joystick.
    OutOfRange,
    /// Not polled since the trigger was added or its target changed.
    Unknown,
}

/// The edge-tracking state of one registered trigger. `triggered` records that a rising edge
/// has been handed to a waiting future, `released` the same for a falling edge.
#[derive(Clone, Copy, PartialEq, Eq, Debug)]
pub struct ReactorItem {
    pub state: TriggerState,
    pub triggered: bool,
    pub released: bool,
}

/// An edge flag is only ever set while the input stays in the state that produced it.
pub open spec fn reactor_item_wf(item: ReactorItem) -> bool {
    &&& item.triggered ==> item.state is Triggered
    &&& item.released ==> item.state is Release
}

/// What a trigger future does after inspecting its item.
#[derive(Clone, Copy, PartialEq, Eq, Debug)]
pub enum ReactorPoll {
    /// Complete with this result.
    Ready(Result<(), ()>),
    /// Stay pending and ask to be polled again on the next tick.
    QueueWaker,
    /// Stay pending and register to be woken when the state changes.
    RegisterWaker,
}

/// The item a newly registered trigger starts with.
pub fn new_reactor_item() -> (item: ReactorItem)
    ensures
        item == (ReactorItem { state: TriggerState::Unknown, triggered: false, released: false }),
        reactor_item_wf(item),
{
    ReactorItem { state: TriggerState::Unknown, triggered: false, released: false }
}

/// The state of an input given whether its target is active, or `None` when the input does
/// not exist.
pub fn state_from_reading(active: Option<bool>) -> (s: TriggerState)
    ensures
        s == match active {
            Some(true) => TriggerState::Triggered,
            Some(false) => TriggerState::Release,
            None => TriggerState::OutOfRange,
        },
{
    match active {
        Some(true) => TriggerState::Triggered,
        Some(false) => TriggerState::Release,
        None => TriggerState::OutOfRange,
    }
}

/// The state of a button trigger on button `index` of `buttons`.
pub open spec fn button_state_of(target: ButtonTarget, buttons: JoystickButtons, index: u32) -> TriggerState {
    if index >= buttons.count {
        TriggerState::OutOfRange
    } else if (match target {
        ButtonTarget::Pressed => buttons.buttons & (1u32 << index) > 0,
        ButtonTarget::Released => !(buttons.buttons & (1u32 << index) > 0),
    }) {
        TriggerState::Triggered
    } else {
        TriggerState::Release
    }
}

/// The state of a POV trigger on POV `index` of `povs`.
pub open spec fn pov_state_of(target: PovTarget, povs: JoystickPovs, index: u32) -> TriggerState {
    if (index as i16) >= povs.count {
        TriggerState::OutOfRange
    } else if (match target {
        PovTarget::Raw(desired) => povs.povs[index as int] == desired,
    }) {
        TriggerState::Triggered
    } else {
        TriggerState::Release
    }
}

/// The state of a button trigger for the current button data.
pub fn button_state(target: ButtonTarget, buttons: &JoystickButtons, index: u32) -> (s: TriggerState)
    requires
        index < buttons.count ==> index < 32,
    ensures
        s == button_state_of(target, *buttons, index),
{
    match get_button(buttons, index) {
        Some(value) => state_from_reading(Some(target.is_active(value))),
        None => TriggerState::OutOfRange,
    }
}

/// The state of a POV trigger for the current POV data.
pub fn pov_state(target: PovTarget, povs: &JoystickPovs, index: u32) -> (s: TriggerState)
    requires
        (index as i16) < povs.count ==> index < 12,
    ensures
        s == pov_state_of(target, *povs, index),
{
    match get_pov(povs, index) {
        Some(value) => state_from_reading(Some(target.is_active(value))),
        None => TriggerState::OutOfRange,
    }
}

/// Records a freshly polled state. When it differs from the stored one the item takes it, the
/// edge flags of the states left behind are cleared, and the waiting future is to be woken
/// (`true`); otherwise nothing changes.
pub fn apply_state(item: &mut ReactorItem, new_state: TriggerState) -> (wake: bool)
    ensures
        wake == (new_state != old(item).state),
        *final(item) == applied(*old(item), new_state),
{
    if new_state != item.state {
        item.state = new_state;
        if !matches!(item.state, TriggerState::Triggered) {
            item.triggered = false;
        }
        if !matches!(item.state, TriggerState::Release) {
            item.released = false;
        }
        true
    } else {
        false
    }
}

/// Forgets the state of a trigger whose target changed.
pub fn reset_for_new_target(item: &mut ReactorItem)
    ensures
        *final(item) == (ReactorItem { state: TriggerState::Unknown, ..*old(item) }),
{
    item.state = TriggerState::Unknown;
}

/// One poll of a future waiting for a rising edge (`on_release` false) or a falling edge
/// (`on_release` true). An edge not yet handed out completes the future and is marked handed
/// out; an input out of range is retried once, on the first poll, and then fails; otherwise
/// the future waits for the next state change.
pub fn reactor_future_step(item: &mut ReactorItem, on_release: bool, first_run: bool) -> (p:
    ReactorPoll)
    ensures
        p == step_result(*old(item), on_release, first_run),
        *final(item) == stepped(*old(item), on_release),
{
    if !item.triggered && matches!(item.state, TriggerState::Triggered) && !on_release {
        item.triggered = true;
        ReactorPoll::Ready(Ok(()))
    } else if !item.released && matches!(item.state, TriggerState::Release) && on_release {
        item.released = true;
        ReactorPoll::Ready(Ok(()))
    } else if matches!(item.state, TriggerState::OutOfRange) && first_run {
        ReactorPoll::QueueWaker
    } else if matches!(item.state, TriggerState::OutOfRange) {
        ReactorPoll::Ready(Err(()))
    } else {
        ReactorPoll::RegisterWaker
    }
}

/// What one poll of a waiting future decides: complete on an edge not yet handed out; on an
/// input out of range, retry once on the first poll and then fail; otherwise wait.
pub open spec fn step_result(item: ReactorItem, on_release: bool, first_run: bool) -> ReactorPoll {
    if !item.triggered && item.state is Triggered && !on_release {
        ReactorPoll::Ready(Ok(()))
    } else if !item.released && item.state is Release && on_release {
        ReactorPoll::Ready(Ok(()))
    } else if item.state is OutOfRange && first_run {
        ReactorPoll::QueueWaker
    } else if item.state is OutOfRange {
        ReactorPoll::Ready(Err(()))
    } else {
        ReactorPoll::RegisterWaker
    }
}

/// An item after recording the polled state `new_state`: on a change it takes the state and
/// keeps only the edge flag that matches it; otherwise it stays as it was.
pub open spec fn applied(item: ReactorItem, new_state: TriggerState) -> ReactorItem {
    if new_state != item.state {
        ReactorItem {
            state: new_state,
            triggered: item.triggered && new_state is Triggered,
            released: item.released && new_state is Release,
        }
    } else {
        item
    }
}

/// An item after a future waiting for a rising (`on_release` false) or falling edge polls it:
/// an edge not yet handed out is marked handed out.
pub open spec fn stepped(item: ReactorItem, on_release: bool) -> ReactorItem {
    if !item.triggered && item.state is Triggered && !on_release {
        ReactorItem { triggered: true, ..item }
    } else if !item.released && item.state is Release && on_release {
        ReactorItem { released: true, ..item }
    } else {
        item
    }
}

/// Whether a future step completes successfully.
pub open spec fn step_completes(item: ReactorItem, on_release: bool) -> bool {
    ||| !item.triggered && item.state is Triggered && !on_release
    ||| !item.released && item.state is Release && on_release
}

/// Polling, resetting and stepping keep the edge flags consistent with the state.
pub proof fn lemma_reactor_wf_preserved(item: ReactorItem, new_state: TriggerState, on_release: bool)
    requires
        reactor_item_wf(item),
    ensures
        reactor_item_wf(applied(item, new_state)),
        reactor_item_wf(stepped(item, on_release)),
        reactor_item_wf(ReactorItem { state: TriggerState::Unknown, ..item }) <== !item.triggered
            && !item.released,
{
}

/// An edge is handed out once: after a future completes, another future waiting for the same
/// edge does not complete until the state has changed.
pub proof fn lemma_edge_handed_out_once(item: ReactorItem, on_release: bool)
    requires
        step_completes(item, on_release),
    ensures
        !step_completes(stepped(item, on_release), on_release),
        applied(stepped(item, on_release), stepped(item, on_release).state) == stepped(
            item,
            on_release,
        ),
{
}

/// A new edge re-arms the trigger: after the input leaves the triggered state and comes back,
/// a waiting future completes again.
pub proof fn lemma_edge_rearms(item: ReactorItem, away: TriggerState)
    requires
        item.state is Triggered,
        !(away is Triggered),
    ensures
        step_completes(applied(applied(item, away), TriggerState::Triggered), false),
{
}

} // verus!
