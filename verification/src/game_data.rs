//! The game's own state from frame to frame: the clock, the play state and
//! the switches that the keys flip.

use crate::fixed::plus;
use crate::state::State;
use vstd::prelude::*;

verus! {

/// What the keyboard reports for one frame.
#[derive(Debug, Clone, Copy, PartialEq, Eq, Structural)]
pub struct Keys {
    /// The step key is held down.
    pub step_down: bool,
    /// The step key was released in this frame.
    pub step_released: bool,
    /// The go key was pressed in this frame.
    pub go_pressed: bool,
    /// A key that shows or hides the gizmos was pressed.
    pub gizmos_pressed: bool,
    /// A key that shows or hides the editor was pressed.
    pub editor_pressed: bool,
    pub escape_pressed: bool,
    pub space_pressed: bool,
}

/// The text that is drawn over the game.
#[derive(Debug, Clone, Copy, PartialEq, Eq, Structural)]
pub enum Banner {
    Paused,
    Step,
}

/// What the game knows of itself between two frames.
#[derive(Debug, Clone, Copy, PartialEq, Eq, Structural)]
pub struct GameData {
    /// Frames per second, as last measured.
    pub fps: i32,
    /// Seconds for which the game has run.
    pub time: i32,
    pub state: State,
    pub show_gizmos: bool,
    pub show_editor: bool,
}

impl Default for GameData {
    fn default() -> (g: Self)
        ensures
            g == (GameData {
                fps: 0,
                time: 0,
                state: State::Init,
                show_gizmos: false,
                show_editor: false,
            }),
    {
        GameData { fps: 0, time: 0, state: State::Init, show_gizmos: false, show_editor: false }
    }
}

impl GameData {
    /// The game after the keys of one frame: first the stepping keys, then
    /// the two switches, then escape, then space.
    pub open spec fn after_input(self, keys: Keys) -> GameData {
        let stepped = self.state.stepped(keys.step_down, keys.step_released, keys.go_pressed);
        let escaped = if keys.escape_pressed {
            stepped.escaped()
        } else {
            stepped
        };
        let state = if keys.space_pressed {
            escaped.toggled()
        } else {
            escaped
        };
        GameData {
            state,
            show_gizmos: self.show_gizmos != keys.gizmos_pressed,
            show_editor: self.show_editor != keys.editor_pressed,
            ..self
        }
    }

    /// Whether a frame that starts in this state advances the world.
    pub open spec fn advances(self) -> bool {
        self.state.playing()
    }

    /// The game after one frame of `delta_time` seconds. A game that was
    /// just started pauses. A game for which time passes adds the frame to
    /// its clock and then reads the keys; a paused one only reads the keys;
    /// one that is about to exit does nothing.
    pub open spec fn after_frame(self, delta_time: i32, keys: Keys) -> GameData {
        match self.state {
            State::Init => GameData { state: State::Paused, ..self },
            State::Playing | State::Step | State::StepAdvance => GameData {
                time: plus(self.time, delta_time),
                ..self
            }.after_input(keys),
            State::Paused => self.after_input(keys),
            State::Exit => self,
        }
    }

    /// Whether the world is drawn in this state, and the banner over it.
    pub open spec fn scene(self) -> (bool, Option<Banner>) {
        match self.state {
            State::Init => (false, None),
            State::Paused => (true, Some(Banner::Paused)),
            State::Step => (true, Some(Banner::Step)),
            _ => (true, None),
        }
    }

    pub fn is_editor(&self) -> (r: bool)
        ensures
            r == self.show_editor,
    {
        self.show_editor
    }

    /// Applies the keys of one frame.
    pub fn handle_common_input(&mut self, keys: Keys)
        ensures
            *final(self) == old(self).after_input(keys),
    {
        self.state = self.state.step(keys.step_down, keys.step_released, keys.go_pressed);
        if keys.gizmos_pressed {
            self.show_gizmos = !self.show_gizmos;
        }
        if keys.editor_pressed {
            self.show_editor = !self.show_editor;
        }
        if keys.escape_pressed {
            self.state = self.state.press_escape();
        }
        if keys.space_pressed {
            self.state = self.state.press_space();
        }
    }

    /// Runs one frame and says whether the world is to advance by
    /// `delta_time` as well.
    pub fn update(&mut self, delta_time: i32, keys: Keys) -> (advance: bool)
        ensures
            *final(self) == old(self).after_frame(delta_time, keys),
            advance == old(self).advances(),
    {
        match self.state {
            State::Init => {
                self.state = State::Paused;
                false
            },
            State::Playing | State::Step | State::StepAdvance => {
                self.time = plus(self.time, delta_time);
                self.handle_common_input(keys);
                true
            },
            State::Paused => {
                self.handle_common_input(keys);
                false
            },
            State::Exit => false,
        }
    }

    /// Says whether to draw the world, and which banner over it.
    pub fn draw(&self) -> (r: (bool, Option<Banner>))
        ensures
            r == self.scene(),
    {
        match self.state {
            State::Init => (false, None),
            State::Paused => (true, Some(Banner::Paused)),
            State::Step => (true, Some(Banner::Step)),
            _ => (true, None),
        }
    }
}

} // verus!
