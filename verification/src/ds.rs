//! Driver station state: robot mode and alliance.
use vstd::prelude::*;

verus! {

/// The control word the driver station sends; each flag is 0 or 1.
#[derive(Debug, Clone, Copy, PartialEq, Eq, Default)]
pub struct ControlWord {
    pub enabled: u32,
    pub autonomous: u32,
    pub test: u32,
    pub e_stop: u32,
    pub fms_attached: u32,
    pub ds_attached: u32,
}

/// The mode the robot is in.
#[derive(Debug, PartialEq, Eq, Clone, Copy, Structural)]
pub enum State {
    Teleop,
    Auto,
    Test,
    Disabled,
}

/// The mode a control word selects: disabled unless enabled; then autonomous, test or teleop,
/// in that order of precedence.
pub open spec fn state_of_word(word: ControlWord) -> State {
    if word.enabled == 0 {
        State::Disabled
    } else if word.autonomous == 1 {
        State::Auto
    } else if word.test == 1 {
        State::Test
    } else {
        State::Teleop
    }
}

/// The mode a control word selects: disabled exactly when the robot is not enabled; when it is
/// enabled, autonomous exactly when the autonomous flag is set, whatever the test flag; test when
/// only the test flag is set; teleoperated when neither is.
pub proof fn lemma_mode_of_word(word: ControlWord)
    ensures
        (state_of_word(word) is Disabled) <==> word.enabled == 0,
        (state_of_word(word) is Auto) <==> (word.enabled != 0 && word.autonomous == 1),
        (state_of_word(word) is Test) <==> (word.enabled != 0 && word.autonomous != 1 && word.test == 1),
        (state_of_word(word) is Teleop) <==> (word.enabled != 0 && word.autonomous != 1 && word.test != 1),
{
}

impl State {
    /// The mode a control word selects.
    pub fn from_control_word(word: &ControlWord) -> (s: Self)
        ensures
            s == state_of_word(*word),
            (s is Disabled) <==> word.enabled == 0,
            (s is Auto) <==> (word.enabled != 0 && word.autonomous == 1),
            (s is Test) <==> (word.enabled != 0 && word.autonomous != 1 && word.test == 1),
            (s is Teleop) <==> (word.enabled != 0 && word.autonomous != 1 && word.test != 1),
    {
        proof {
            lemma_mode_of_word(*word);
        }
        if word.enabled == 0 {
            Self::Disabled
        } else if word.autonomous == 1 {
            Self::Auto
        } else if word.test == 1 {
            Self::Test
        } else {
            Self::Teleop
        }
    }

    /// Whether this is the disabled mode.
    pub fn disabled(&self) -> (r: bool)
        ensures
            r == (*self is Disabled),
    {
        matches!(self, State::Disabled)
    }
}

/// The alliance of the robot and its driver station number.
#[derive(Debug, PartialEq, Eq, Clone, Copy)]
pub enum Alliance {
    Blue(u8),
    Red(u8),
}

impl Alliance {
    /// Whether the robot is on the blue alliance.
    pub fn is_blue(&self) -> (r: bool)
        ensures
            r == (*self is Blue),
    {
        matches!(self, Alliance::Blue(_))
    }

    /// Whether the robot is on the red alliance.
    pub fn is_red(&self) -> (r: bool)
        ensures
            r == (*self is Red),
    {
        !self.is_blue()
    }
}

/// HAL alliance station identifiers.
pub const ALLIANCE_STATION_RED1: i32 = 1;
pub const ALLIANCE_STATION_RED2: i32 = 2;
pub const ALLIANCE_STATION_RED3: i32 = 3;
pub const ALLIANCE_STATION_BLUE1: i32 = 4;
pub const ALLIANCE_STATION_BLUE2: i32 = 5;
pub const ALLIANCE_STATION_BLUE3: i32 = 6;

/// The alliance a HAL station identifier names; `None` for an unknown station.
pub fn alliance_from_station(station: i32) -> (r: Option<Alliance>)
    ensures
        r == (if station == ALLIANCE_STATION_BLUE1 {
            Some(Alliance::Blue(1))
        } else if station == ALLIANCE_STATION_BLUE2 {
            Some(Alliance::Blue(2))
        } else if station == ALLIANCE_STATION_BLUE3 {
            Some(Alliance::Blue(3))
        } else if station == ALLIANCE_STATION_RED1 {
            Some(Alliance::Red(1))
        } else if station == ALLIANCE_STATION_RED2 {
            Some(Alliance::Red(2))
        } else if station == ALLIANCE_STATION_RED3 {
            Some(Alliance::Red(3))
        } else {
            None
        }),
{
    if station == ALLIANCE_STATION_BLUE1 {
        Some(Alliance::Blue(1))
    } else if station == ALLIANCE_STATION_BLUE2 {
        Some(Alliance::Blue(2))
    } else if station == ALLIANCE_STATION_BLUE3 {
        Some(Alliance::Blue(3))
    } else if station == ALLIANCE_STATION_RED1 {
        Some(Alliance::Red(1))
    } else if station == ALLIANCE_STATION_RED2 {
        Some(Alliance::Red(2))
    } else if station == ALLIANCE_STATION_RED3 {
        Some(Alliance::Red(3))
    } else {
        None
    }
}

/// Every alliance is either blue or red, never both.
pub proof fn lemma_alliance_sides(a: Alliance)
    ensures
        (a is Blue) != (a is Red),
{
}


/// The robot mode as last read from the driver station, and the wakers of the tasks waiting
/// for it to change. The mode starts out disabled.
pub struct StateWatch<W> {
    current: State,
    wakers: Vec<W>,
}

impl<W> StateWatch<W> {
    /// The mode as last read.
    pub closed spec fn current(&self) -> State {
        self.current
    }

    /// The waiting wakers, in the order they registered.
    pub closed spec fn waiting(&self) -> Seq<W> {
        self.wakers@
    }

    /// A watch that has read nothing yet: the robot counts as disabled.
    pub fn new() -> (w: Self)
        ensures
            w.current() == State::Disabled,
            w.waiting() == Seq::<W>::empty(),
    {
        StateWatch { current: State::Disabled, wakers: Vec::new() }
    }

    /// The mode as last read.
    pub fn get_state(&self) -> (s: State)
        ensures
            s == self.current(),
    {
        self.current
    }

    /// Registers a waker to be woken at the next change of mode.
    pub fn register_waker(&mut self, waker: W)
        ensures
            final(self).current() == old(self).current(),
            final(self).waiting() == old(self).waiting().push(waker),
    {
        self.wakers.push(waker);
    }

    /// Reads a new control word. When the mode it selects differs from the current one, the
    /// watch takes it and hands back every waiting waker to be woken; otherwise nothing changes
    /// and nothing is handed back.
    pub fn check_state(&mut self, word: &ControlWord) -> (woken: Vec<W>)
        ensures
            final(self).current() == state_of_word(*word),
            state_of_word(*word) != old(self).current() ==> {
                &&& woken@ == old(self).waiting()
                &&& final(self).waiting() == Seq::<W>::empty()
            },
            state_of_word(*word) == old(self).current() ==> {
                &&& woken@ == Seq::<W>::empty()
                &&& final(self).waiting() == old(self).waiting()
            },
    {
        let state = State::from_control_word(word);
        if state != self.current {
            self.current = state;
            let mut woken = Vec::new();
            std::mem::swap(&mut woken, &mut self.wakers);
            woken
        } else {
            Vec::new()
        }
    }

    /// The new mode, if it differs from `last`; `None` means the caller keeps waiting.
    pub fn changed_since(&self, last: State) -> (r: Option<State>)
        ensures
            r == (if self.current() != last {
                Some(self.current())
            } else {
                None
            }),
    {
        if self.current != last {
            Some(self.current)
        } else {
            None
        }
    }
}

} // verus!
