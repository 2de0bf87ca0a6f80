//! The commands an operator can give to a running game.

use vstd::prelude::*;
use crate::game::{requested, Game, GameView};
use crate::level::SpawnLevel;
use crate::state::{after_toggle_pause, flipped, DebugState, PausedState, States};

verus! {

/// What an operator can ask of a running game.
#[derive(Clone, Copy, PartialEq, Eq, Structural, Debug)]
pub enum Command {
    /// Jump to the level named.
    Level(usize),
    /// Flip the debug overlays.
    Debug,
    /// Flip the pause.
    Pause,
}

/// What the operator is told.
#[derive(Clone, Copy, PartialEq, Eq, Structural, Debug)]
pub enum Reply {
    LoadingLevel(usize),
    DebugEnabled,
    DebugDisabled,
    Resuming,
    Pausing,
}

/// The game after a command. A command changes the game through the same
/// requests as play does, so the game reacts to an operator as it reacts to
/// a trigger.
pub open spec fn after_command(g: GameView, command: Command) -> GameView {
    match command {
        Command::Level(level) => requested(g, SpawnLevel { level: level, restart: false }),
        Command::Debug => GameView {
            states: States { debug: flipped(g.states.debug), ..g.states },
            ..g
        },
        Command::Pause => GameView { states: after_toggle_pause(g.states), ..g },
    }
}

/// The answer to a command. It names what was asked for, given the state
/// the game was in.
pub open spec fn reply_to(g: GameView, command: Command) -> Reply {
    match command {
        Command::Level(level) => Reply::LoadingLevel(level),
        Command::Debug => match g.states.debug {
            DebugState::Disabled => Reply::DebugEnabled,
            DebugState::Enabled => Reply::DebugDisabled,
        },
        Command::Pause => match g.states.paused {
            PausedState::Paused => Reply::Resuming,
            PausedState::Running => Reply::Pausing,
        },
    }
}

impl Game {
    /// Carries out a command of the operator and returns the answer.
    pub fn run_command(&mut self, command: Command) -> (reply: Reply)
        ensures
            final(self)@ == after_command(old(self)@, command),
            reply == reply_to(old(self)@, command),
            final(self).scene@ == old(self).scene@,
    {
        match command {
            Command::Level(level) => {
                let _accepted: bool = self.request_level(SpawnLevel { level: level, restart: false });
                Reply::LoadingLevel(level)
            },
            Command::Debug => {
                match self.states.toggle_debug() {
                    DebugState::Enabled => Reply::DebugEnabled,
                    DebugState::Disabled => Reply::DebugDisabled,
                }
            },
            Command::Pause => {
                let was: PausedState = self.states.paused;
                let _now: PausedState = self.states.toggle_pause();
                match was {
                    PausedState::Paused => Reply::Resuming,
                    PausedState::Running => Reply::Pausing,
                }
            },
        }
    }
}

} // verus!
