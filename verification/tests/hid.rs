use robotrs::error::RuntimeError;
use robotrs::hid::{
    apply_state, button_state, get_button, get_pov, new_reactor_item, pov_state,
    reactor_future_step, reset_for_new_target, state_from_reading, ButtonTarget, Joystick,
    JoystickButtons, JoystickPovs, PS4Controller, PovTarget, ReactorItem, ReactorPoll,
    TriggerState, XboxController,
};

fn buttons() -> JoystickButtons {
    JoystickButtons { buttons: 0b1010, count: 4 }
}

fn povs() -> JoystickPovs {
    let mut p = [-1i16; 12];
    p[0] = 90;
    JoystickPovs { count: 2, povs: p }
}

#[test]
fn buttons_read_bits() {
    let b = buttons();
    assert_eq!(get_button(&b, 0), Some(false));
    assert_eq!(get_button(&b, 1), Some(true));
    assert_eq!(get_button(&b, 3), Some(true));
    assert_eq!(get_button(&b, 4), None);
}

#[test]
fn povs_read_angles() {
    let p = povs();
    assert_eq!(get_pov(&p, 0), Some(90));
    assert_eq!(get_pov(&p, 1), Some(-1));
    assert_eq!(get_pov(&p, 2), None);
}

#[test]
fn targets_activate() {
    assert!(ButtonTarget::Pressed.is_active(true));
    assert!(!ButtonTarget::Pressed.is_active(false));
    assert!(ButtonTarget::Released.is_active(false));
    assert!(PovTarget::Raw(90).is_active(90));
    assert!(!PovTarget::Raw(90).is_active(180));
}

#[test]
fn trigger_states_from_readings() {
    assert_eq!(state_from_reading(Some(true)), TriggerState::Triggered);
    assert_eq!(state_from_reading(Some(false)), TriggerState::Release);
    assert_eq!(state_from_reading(None), TriggerState::OutOfRange);
    let b = buttons();
    assert_eq!(button_state(ButtonTarget::Pressed, &b, 1), TriggerState::Triggered);
    assert_eq!(button_state(ButtonTarget::Released, &b, 1), TriggerState::Release);
    assert_eq!(button_state(ButtonTarget::Pressed, &b, 9), TriggerState::OutOfRange);
    let p = povs();
    assert_eq!(pov_state(PovTarget::Raw(90), &p, 0), TriggerState::Triggered);
    assert_eq!(pov_state(PovTarget::Raw(90), &p, 1), TriggerState::Release);
    assert_eq!(pov_state(PovTarget::Raw(90), &p, 5), TriggerState::OutOfRange);
}

#[test]
fn joystick_ports() {
    assert_eq!(Joystick::new(5).get_num(), 5);
    assert_eq!(XboxController::new(0).map(|c| c.joystick.get_num()), Ok(0));
    assert_eq!(XboxController::new(6).err(), Some(RuntimeError::JoystickIndexOutOfRange(6)));
    assert_eq!(PS4Controller::new(2).map(|c| c.joystick.get_num()), Ok(2));
    assert_eq!(PS4Controller::new(9).err(), Some(RuntimeError::JoystickIndexOutOfRange(9)));
}

#[test]
fn rising_edge_completes_once() {
    let mut item = new_reactor_item();
    assert_eq!(reactor_future_step(&mut item, false, true), ReactorPoll::RegisterWaker);
    assert!(apply_state(&mut item, TriggerState::Triggered));
    assert_eq!(reactor_future_step(&mut item, false, false), ReactorPoll::Ready(Ok(())));
    assert!(item.triggered);
    // Same reading again: no wake-up, and the edge is not handed out twice.
    assert!(!apply_state(&mut item, TriggerState::Triggered));
    assert_eq!(reactor_future_step(&mut item, false, true), ReactorPoll::RegisterWaker);
}

#[test]
fn edge_rearms_after_release() {
    let mut item = new_reactor_item();
    apply_state(&mut item, TriggerState::Triggered);
    reactor_future_step(&mut item, false, false);
    assert!(apply_state(&mut item, TriggerState::Release));
    assert!(!item.triggered);
    assert_eq!(reactor_future_step(&mut item, true, false), ReactorPoll::Ready(Ok(())));
    assert!(item.released);
    assert!(apply_state(&mut item, TriggerState::Triggered));
    assert!(!item.released);
    assert_eq!(reactor_future_step(&mut item, false, false), ReactorPoll::Ready(Ok(())));
}

#[test]
fn out_of_range_retries_once() {
    let mut item = new_reactor_item();
    apply_state(&mut item, TriggerState::OutOfRange);
    assert_eq!(reactor_future_step(&mut item, false, true), ReactorPoll::QueueWaker);
    assert_eq!(reactor_future_step(&mut item, false, false), ReactorPoll::Ready(Err(())));
}

#[test]
fn new_target_forgets_state() {
    let mut item = ReactorItem { state: TriggerState::Release, triggered: false, released: true };
    reset_for_new_target(&mut item);
    assert_eq!(
        item,
        ReactorItem { state: TriggerState::Unknown, triggered: false, released: true }
    );
}
