use robotrs::triggers::{AllTrigger, AnyTrigger, ClickEvent, ClickPhase, DoubleClick, DOUBLE_CLICK_MILLIS};

#[test]
fn all_trigger_fires_when_every_inner_is_held() {
    let mut t = AllTrigger::new(3);
    assert_eq!(t.count(), 3);
    assert!(!t.awaits_release(0));
    assert!(!t.edge(0));
    assert!(t.awaits_release(0));
    assert!(!t.edge(2));
    assert!(t.edge(1));
}

#[test]
fn all_trigger_release_before_all_held() {
    let mut t = AllTrigger::new(2);
    assert!(!t.edge(0));
    assert!(!t.edge(0));
    assert!(!t.awaits_release(0));
    assert!(!t.edge(1));
    assert!(t.edge(0));
}

#[test]
fn all_trigger_restart_clears() {
    let mut t = AllTrigger::new(2);
    assert!(!t.edge(0));
    t.restart();
    assert!(!t.awaits_release(0));
    assert!(!t.awaits_release(1));
    assert_eq!(t.count(), 2);
}

#[test]
fn any_trigger_releases_last_pressed() {
    let mut t = AnyTrigger::new();
    assert_eq!(t.release_index(2), 0);
    t.pressed(1);
    assert_eq!(t.last_pressed, 1);
    assert_eq!(t.release_index(2), 1);
    t.pressed(5);
    assert_eq!(t.release_index(3), 0);
}

#[test]
fn double_click_default_window() {
    let d = DoubleClick::double_click();
    assert_eq!(d.window_millis, DOUBLE_CLICK_MILLIS);
    assert_eq!(d.window_millis, 500);
    assert_eq!(d.phase, ClickPhase::AwaitFirst);
    let e = DoubleClick::double_click_with_duration(250);
    assert_eq!(e.window_millis, 250);
}

#[test]
fn double_click_fires_on_second_click() {
    let mut d = DoubleClick::double_click();
    assert!(!d.timed());
    assert!(!d.step(ClickEvent::Click));
    assert!(d.timed());
    assert!(d.step(ClickEvent::Click));
    assert_eq!(d.phase, ClickPhase::AwaitFirst);
}

#[test]
fn double_click_timeout_restarts() {
    let mut d = DoubleClick::double_click();
    assert!(!d.step(ClickEvent::Click));
    assert!(!d.step(ClickEvent::Timeout));
    assert_eq!(d.phase, ClickPhase::AwaitFirst);
    assert!(!d.step(ClickEvent::Click));
    assert!(d.step(ClickEvent::Click));
}
