use std::task::Waker;

use robotrs::hid::{
    ButtonTarget, Joystick, JoystickButtons, JoystickPovs, PovTarget, ReactorPoll, TriggerState,
};
use robotrs::reactor::{AxisTarget, Button, Pov, Target, TriggerRegistry};

fn waker() -> Waker {
    Waker::noop().clone()
}

fn data(buttons: u32) -> ([JoystickButtons; 6], [JoystickPovs; 6]) {
    let mut b = [JoystickButtons::default(); 6];
    b[0] = JoystickButtons { buttons, count: 4 };
    let mut p = [JoystickPovs::default(); 6];
    let mut angles = [-1i16; 12];
    angles[0] = 90;
    p[0] = JoystickPovs { count: 1, povs: angles };
    (b, p)
}

fn no_axes(_: u32, _: u32, _: AxisTarget) -> Option<bool> {
    None
}

#[test]
fn registry_keys_are_distinct() {
    let mut r = TriggerRegistry::new();
    let j = Joystick::new(0);
    let a = r.add_trigger(&j, 0, Target::Button(ButtonTarget::Pressed));
    let b = r.add_trigger(&j, 1, Target::Button(ButtonTarget::Pressed));
    assert_ne!(a, b);
    r.remove_trigger(a);
    let c = r.add_trigger(&j, 2, Target::Pov(PovTarget::Raw(0)));
    assert_ne!(c, b);
}

#[test]
fn poll_wakes_on_change_only() {
    let mut r = TriggerRegistry::new();
    let j = Joystick::new(0);
    let key = r.add_trigger(&j, 1, Target::Button(ButtonTarget::Pressed));
    r.register_waker(key, waker());
    let (b, p) = data(0b10);
    let woken = r.poll(&b, &p, no_axes);
    assert_eq!(woken.len(), 1);
    assert_eq!(woken[0].0, key);
    // Same data again: no change, nothing to wake.
    r.register_waker(key, waker());
    assert!(r.poll(&b, &p, no_axes).is_empty());
    // Released: the state changes and the waker is handed back.
    let (b, p) = data(0);
    assert_eq!(r.poll(&b, &p, no_axes).len(), 1);
}

#[test]
fn future_completes_on_edge() {
    let mut r = TriggerRegistry::new();
    let j = Joystick::new(0);
    let key = r.add_trigger(&j, 1, Target::Button(ButtonTarget::Pressed));
    assert_eq!(r.future_step(key, false, true), ReactorPoll::RegisterWaker);
    let (b, p) = data(0b10);
    r.poll(&b, &p, no_axes);
    assert_eq!(r.future_step(key, false, false), ReactorPoll::Ready(Ok(())));
    assert_eq!(r.future_step(key, false, false), ReactorPoll::RegisterWaker);
}

#[test]
fn out_of_range_input_fails_after_retry() {
    let mut r = TriggerRegistry::new();
    let j = Joystick::new(0);
    let key = r.add_trigger(&j, 9, Target::Button(ButtonTarget::Pressed));
    let (b, p) = data(0);
    assert!(r.poll(&b, &p, no_axes).is_empty());
    assert_eq!(r.future_step(key, false, true), ReactorPoll::QueueWaker);
    assert_eq!(r.future_step(key, false, false), ReactorPoll::Ready(Err(())));
}

#[test]
fn axis_triggers_use_the_reading() {
    let mut r = TriggerRegistry::new();
    let j = Joystick::new(0);
    let key = r.add_trigger(&j, 2, Target::Axis(AxisTarget::Away(0.5f32.to_bits())));
    let (b, p) = data(0);
    let active = |joystick: u32, idx: u32, target: AxisTarget| -> Option<bool> {
        assert_eq!((joystick, idx, target), (0, 2, AxisTarget::Away(0.5f32.to_bits())));
        Some(true)
    };
    r.poll(&b, &p, active);
    assert_eq!(r.future_step(key, false, false), ReactorPoll::Ready(Ok(())));
}

#[test]
fn new_target_resets_state() {
    let mut r = TriggerRegistry::new();
    let j = Joystick::new(0);
    let mut button = Button::new(&mut r, j, 1, ButtonTarget::Pressed);
    let (b, p) = data(0b10);
    r.poll(&b, &p, no_axes);
    button.set_target(&mut r, ButtonTarget::Released);
    // Unknown state: the future waits.
    assert_eq!(r.future_step(button.reactor_key(), true, true), ReactorPoll::RegisterWaker);
    r.poll(&b, &p, no_axes);
    // Pressed is not active for a release target.
    assert_eq!(r.future_step(button.reactor_key(), true, false), ReactorPoll::Ready(Ok(())));
    assert_eq!(button.value(&b[0]), Some(true));
    button.remove(&mut r);
}

#[test]
fn pov_trigger_reads_angle() {
    let mut r = TriggerRegistry::new();
    let j = Joystick::new(0);
    let pov = j.get_pov(&mut r, 0, PovTarget::Raw(90));
    let copy = pov.duplicate(&mut r);
    assert_ne!(pov.reactor_key(), copy.reactor_key());
    let (b, p) = data(0);
    assert_eq!(pov.value(&p[0]), Some(90));
    r.poll(&b, &p, no_axes);
    assert_eq!(r.future_step(copy.reactor_key(), false, false), ReactorPoll::Ready(Ok(())));
    let _ = TriggerState::Unknown;
    let _: Pov = copy;
}

#[test]
fn target_kinds_are_named() {
    use_kind(Target::Button(ButtonTarget::Pressed), "button");
    use_kind(Target::Axis(AxisTarget::Up(0)), "axis");
    use_kind(Target::Pov(PovTarget::Raw(90)), "pov");
}

fn use_kind(target: Target, word: &str) {
    assert_eq!(robotrs::reactor::type_from_target(&target), word);
}

#[test]
fn pov_set_target_moves_the_trigger() {
    let mut r = TriggerRegistry::new();
    let j = Joystick::new(0);
    let mut pov = j.get_pov(&mut r, 0, PovTarget::Raw(180));
    let (b, p) = data(0);
    r.poll(&b, &p, no_axes);
    assert_ne!(r.future_step(pov.reactor_key(), false, false), ReactorPoll::Ready(Ok(())));
    pov.set_target(&mut r, PovTarget::Raw(90));
    r.poll(&b, &p, no_axes);
    assert_eq!(r.future_step(pov.reactor_key(), false, false), ReactorPoll::Ready(Ok(())));
}
