use robotrs::ds::State;
use robotrs::scheduler::{ModeTasks, TickPlan};

const NOTHING: TickPlan = TickPlan {
    stop_auto: false,
    stop_teleop: false,
    stop_enabled: false,
    start_auto: false,
    start_teleop: false,
    start_enabled: false,
};

#[test]
fn enabling_into_auto_starts_auto_and_enabled() {
    let mut m = ModeTasks::new();
    let plan = m.tick(State::Auto);
    assert_eq!(plan, TickPlan { start_auto: true, start_enabled: true, ..NOTHING });
    assert!(m.auto && m.enabled && !m.teleop);
    assert_eq!(m.tick(State::Auto), NOTHING);
}

#[test]
fn auto_to_teleop_swaps_tasks() {
    let mut m = ModeTasks::new();
    m.tick(State::Auto);
    let plan = m.tick(State::Teleop);
    assert_eq!(plan, TickPlan { stop_auto: true, start_teleop: true, ..NOTHING });
    assert!(!m.auto && m.teleop && m.enabled);
}

#[test]
fn disabling_stops_everything() {
    let mut m = ModeTasks::new();
    m.tick(State::Teleop);
    let plan = m.tick(State::Disabled);
    assert_eq!(plan, TickPlan { stop_teleop: true, stop_enabled: true, ..NOTHING });
    assert!(!m.auto && !m.teleop && !m.enabled);
    assert_eq!(m.last_state, State::Disabled);
}

#[test]
fn test_mode_keeps_only_enabled() {
    let mut m = ModeTasks::new();
    let plan = m.tick(State::Test);
    assert_eq!(plan, TickPlan { start_enabled: true, ..NOTHING });
    m.tick(State::Teleop);
    let plan = m.tick(State::Test);
    assert_eq!(plan, TickPlan { stop_teleop: true, ..NOTHING });
    assert!(m.enabled && !m.teleop);
}
