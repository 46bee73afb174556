//! The decisions the robot scheduler makes on each tick: which mode tasks to start and which to
//! drop when the driver station changes the robot's mode.
use vstd::prelude::*;

use crate::ds::State;

verus! {

/// Which mode tasks are alive, and the mode of the previous tick.
#[derive(Debug, Clone, Copy, PartialEq, Eq)]
pub struct ModeTasks {
    pub last_state: State,
    /// The autonomous task.
    pub auto: bool,
    /// The teleoperated task.
    pub teleop: bool,
    /// The task that runs whenever the robot is enabled.
    pub enabled: bool,
}

/// What to do with the mode tasks on a tick. A task that is both stopped and started is
/// replaced by a new one.
#[derive(Debug, Clone, Copy, PartialEq, Eq)]
pub struct TickPlan {
    pub stop_auto: bool,
    pub stop_teleop: bool,
    pub stop_enabled: bool,
    pub start_auto: bool,
    pub start_teleop: bool,
    pub start_enabled: bool,
}

/// The tasks match the mode: the autonomous task lives exactly in autonomous mode, the
/// teleoperated task exactly in teleoperated mode, and the enabled task whenever the robot is
/// not disabled.
pub open spec fn tasks_match_mode(m: ModeTasks) -> bool {
    &&& m.auto == (m.last_state is Auto)
    &&& m.teleop == (m.last_state is Teleop)
    &&& m.enabled == !(m.last_state is Disabled)
}

/// The plan for a tick in mode `state`: nothing when the mode is unchanged; otherwise the
/// autonomous and teleoperated tasks are dropped and the one of the new mode started, the
/// enabled task is dropped on disabling and started on leaving the disabled mode.
pub open spec fn tick_plan(m: ModeTasks, state: State) -> TickPlan {
    if state == m.last_state {
        TickPlan {
            stop_auto: false,
            stop_teleop: false,
            stop_enabled: false,
            start_auto: false,
            start_teleop: false,
            start_enabled: false,
        }
    } else {
        TickPlan {
            stop_auto: m.auto,
            stop_teleop: m.teleop,
            stop_enabled: m.enabled && (state is Disabled || m.last_state is Disabled),
            start_auto: state is Auto,
            start_teleop: state is Teleop,
            start_enabled: m.last_state is Disabled,
        }
    }
}

/// The tasks after carrying out `plan`, in mode `state`.
pub open spec fn after_plan(m: ModeTasks, plan: TickPlan, state: State) -> ModeTasks {
    ModeTasks {
        last_state: state,
        auto: (m.auto && !plan.stop_auto) || plan.start_auto,
        teleop: (m.teleop && !plan.stop_teleop) || plan.start_teleop,
        enabled: (m.enabled && !plan.stop_enabled) || plan.start_enabled,
    }
}

impl ModeTasks {
    /// Before the first tick: disabled, no task alive.
    pub fn new() -> (m: Self)
        ensures
            m == (ModeTasks { last_state: State::Disabled, auto: false, teleop: false, enabled: false }),
            tasks_match_mode(m),
    {
        ModeTasks { last_state: State::Disabled, auto: false, teleop: false, enabled: false }
    }

    /// One tick in mode `state`: decides which tasks to stop and start, records them, and
    /// remembers the mode.
    pub fn tick(&mut self, state: State) -> (plan: TickPlan)
        ensures
            plan == tick_plan(*old(self), state),
            *final(self) == after_plan(*old(self), plan, state),
    {
        let mut plan = TickPlan {
            stop_auto: false,
            stop_teleop: false,
            stop_enabled: false,
            start_auto: false,
            start_teleop: false,
            start_enabled: false,
        };
        if state != self.last_state {
            plan.stop_auto = self.auto;
            plan.stop_teleop = self.teleop;
            match state {
                State::Auto => {
                    plan.start_auto = true;
                    self.auto = true;
                    self.teleop = false;
                },
                State::Teleop => {
                    plan.start_teleop = true;
                    self.teleop = true;
                    self.auto = false;
                },
                State::Test => {
                    self.teleop = false;
                    self.auto = false;
                },
                State::Disabled => {
                    plan.stop_enabled = self.enabled;
                    self.enabled = false;
                    self.teleop = false;
                    self.auto = false;
                },
            }
            if matches!(self.last_state, State::Disabled) {
                plan.stop_enabled = self.enabled;
                plan.start_enabled = true;
                self.enabled = true;
            }
        }
        self.last_state = state;
        plan
    }
}

/// Every tick keeps the tasks matched to the mode, whatever the new mode is.
pub proof fn lemma_tick_keeps_tasks_matched(m: ModeTasks, state: State)
    requires
        tasks_match_mode(m),
    ensures
        tasks_match_mode(after_plan(m, tick_plan(m, state), state)),
{
}

/// The autonomous and teleoperated tasks never run together.
pub proof fn lemma_one_driving_task(m: ModeTasks)
    requires
        tasks_match_mode(m),
    ensures
        !(m.auto && m.teleop),
{
}

} // verus!
