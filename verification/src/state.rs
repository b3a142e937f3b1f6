//! The play state of the game and how the keys change it.

use vstd::prelude::*;

verus! {

/// Whether the game runs, waits, advances frame by frame, or is about to
/// end.
#[derive(Debug, Clone, Copy, PartialEq, Eq, Structural)]
pub enum State {
    Init,
    Step,
    StepAdvance,
    Playing,
    Paused,
    Exit,
}

impl Default for State {
    fn default() -> (s: Self)
        ensures
            s == State::Init,
    {
        State::Init
    }
}

impl State {
    /// Whether time passes for the game in this state.
    pub open spec fn playing(self) -> bool {
        self == State::Playing || self == State::Step || self == State::StepAdvance
    }

    /// The state after the escape key: it leaves a running or stepping
    /// game and resumes a paused one.
    pub open spec fn escaped(self) -> State {
        match self {
            State::Playing => State::Exit,
            State::Paused => State::Playing,
            State::Step => State::Exit,
            _ => self,
        }
    }

    /// The state after the space key: it pauses a game for which time
    /// passes and starts any other.
    pub open spec fn toggled(self) -> State {
        if self.playing() {
            State::Paused
        } else {
            State::Playing
        }
    }

    /// The state after the stepping keys, which count only while the game is
    /// paused or stepping: holding the step key steps, releasing it pauses,
    /// and the go key plays. Where several apply, the later in this order
    /// wins.
    pub open spec fn stepped(self, step_down: bool, step_released: bool, go_pressed: bool) -> State {
        if self == State::Step || self == State::Paused {
            if go_pressed {
                State::Playing
            } else if step_released {
                State::Paused
            } else if step_down {
                State::Step
            } else {
                self
            }
        } else {
            self
        }
    }

    pub fn is_exit(&self) -> (r: bool)
        ensures
            r == (*self == State::Exit),
    {
        matches!(self, State::Exit)
    }

    pub fn is_playing(&self) -> (r: bool)
        ensures
            r == self.playing(),
    {
        matches!(self, State::Playing | State::Step | State::StepAdvance)
    }

    pub fn press_escape(self) -> (s: State)
        ensures
            s == self.escaped(),
    {
        match self {
            State::Playing => State::Exit,
            State::Paused => State::Playing,
            State::Step => State::Exit,
            _ => self,
        }
    }

    pub fn press_space(self) -> (s: State)
        ensures
            s == self.toggled(),
    {
        if self.is_playing() {
            State::Paused
        } else {
            State::Playing
        }
    }

    pub fn step(self, step_down: bool, step_released: bool, go_pressed: bool) -> (s: State)
        ensures
            s == self.stepped(step_down, step_released, go_pressed),
    {
        let mut state = self;
        if matches!(state, State::Step | State::Paused) {
            if step_down {
                state = State::Step;
            }
            if step_released {
                state = State::Paused;
            }
            if go_pressed {
                state = State::Playing;
            }
        }
        state
    }
}

} // verus!
