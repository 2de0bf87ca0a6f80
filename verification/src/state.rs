//! The states of the application and the conditions under which each group
//! of systems runs.

use vstd::prelude::*;

verus! {

/// Top-level state of the application.
#[derive(Clone, Copy, PartialEq, Eq, Structural, Debug, Hash)]
pub enum AppState {
    MainMenu,
    InGame,
    GameOver,
    Loading,
}

/// Which kind of session is being played.
#[derive(Clone, Copy, PartialEq, Eq, Structural, Debug, Hash)]
pub enum GameModeState {
    NotInGame,
    Singleplayer,
    Multiplayer,
}

/// Whether the simulation is held.
#[derive(Clone, Copy, PartialEq, Eq, Structural, Debug, Hash)]
pub enum PausedState {
    Paused,
    Running,
}

/// Whether diagnostic overlays are shown. It gates no gameplay.
#[derive(Clone, Copy, PartialEq, Eq, Structural, Debug, Hash)]
pub enum DebugState {
    Disabled,
    Enabled,
}

impl Default for GameModeState {
    fn default() -> (s: Self)
        ensures
            s == GameModeState::NotInGame,
    {
        GameModeState::NotInGame
    }
}

impl Default for PausedState {
    fn default() -> (s: Self)
        ensures
            s == PausedState::Running,
    {
        PausedState::Running
    }
}

impl Default for DebugState {
    fn default() -> (s: Self)
        ensures
            s == DebugState::Disabled,
    {
        DebugState::Disabled
    }
}

/// The application state together with the three states orthogonal to it.
#[derive(Clone, Copy, PartialEq, Eq, Structural, Debug)]
pub struct States {
    pub app: AppState,
    pub mode: GameModeState,
    pub paused: PausedState,
    pub debug: DebugState,
}

/// The transitions the application state may take.
pub open spec fn allowed(from: AppState, to: AppState) -> bool {
    match (from, to) {
        (AppState::Loading, AppState::MainMenu) => true,
        (AppState::MainMenu, AppState::InGame) => true,
        (AppState::InGame, AppState::MainMenu) => true,
        (AppState::InGame, AppState::GameOver) => true,
        (AppState::GameOver, AppState::InGame) => true,
        (AppState::GameOver, AppState::MainMenu) => true,
        _ => false,
    }
}

/// The states after a request to move the application to `to`: an allowed
/// request is taken, and leaving a session releases the pause; any other
/// request changes nothing.
pub open spec fn after_transition(s: States, to: AppState) -> States {
    if allowed(s.app, to) {
        States {
            app: to,
            mode: s.mode,
            paused: if s.app == AppState::InGame {
                PausedState::Running
            } else {
                s.paused
            },
            debug: s.debug,
        }
    } else {
        s
    }
}

/// The states after a request to hold the simulation.
pub open spec fn after_pause(s: States) -> States {
    if s.app == AppState::InGame {
        States { paused: PausedState::Paused, ..s }
    } else {
        s
    }
}

/// The states after a request to flip the pause.
pub open spec fn after_toggle_pause(s: States) -> States {
    match s.paused {
        PausedState::Paused => States { paused: PausedState::Running, ..s },
        PausedState::Running => after_pause(s),
    }
}

/// The other debug state.
pub open spec fn flipped(d: DebugState) -> DebugState {
    match d {
        DebugState::Disabled => DebugState::Enabled,
        DebugState::Enabled => DebugState::Disabled,
    }
}

/// True when `to` may follow `from`.
pub fn is_allowed(from: AppState, to: AppState) -> (r: bool)
    ensures
        r == allowed(from, to),
{
    match (from, to) {
        (AppState::Loading, AppState::MainMenu) => true,
        (AppState::MainMenu, AppState::InGame) => true,
        (AppState::InGame, AppState::MainMenu) => true,
        (AppState::InGame, AppState::GameOver) => true,
        (AppState::GameOver, AppState::InGame) => true,
        (AppState::GameOver, AppState::MainMenu) => true,
        _ => false,
    }
}

impl States {
    /// The pause is only ever held inside a session.
    pub open spec fn wf(self) -> bool {
        self.paused == PausedState::Paused ==> self.app == AppState::InGame
    }

    /// True when the fixed-step gameplay systems may advance: in a session
    /// that is not held.
    pub open spec fn gameplay_active(self) -> bool {
        self.app == AppState::InGame && self.paused == PausedState::Running
    }

    /// The states at start-up: loading, not in a game, running, no overlays.
    pub fn new() -> (s: States)
        ensures
            s == (States {
                app: AppState::Loading,
                mode: GameModeState::NotInGame,
                paused: PausedState::Running,
                debug: DebugState::Disabled,
            }),
            s.wf(),
    {
        States {
            app: AppState::Loading,
            mode: GameModeState::NotInGame,
            paused: PausedState::Running,
            debug: DebugState::Disabled,
        }
    }

    /// Asks to move the application to `to`. Returns whether the move was
    /// taken. Leaving a session always releases the pause, so that none
    /// leaks into the next one.
    pub fn transition(&mut self, to: AppState) -> (taken: bool)
        ensures
            taken == allowed(old(self).app, to),
            *final(self) == after_transition(*old(self), to),
            old(self).wf() ==> final(self).wf(),
            old(self).app == AppState::InGame && taken ==> final(self).paused
                == PausedState::Running,
    {
        if is_allowed(self.app, to) {
            if self.app == AppState::InGame {
                self.paused = PausedState::Running;
            }
            self.app = to;
            true
        } else {
            false
        }
    }

    /// Holds the simulation. Outside a session there is nothing to hold and
    /// the request is dropped.
    pub fn pause(&mut self) -> (held: bool)
        ensures
            held == (old(self).app == AppState::InGame),
            *final(self) == after_pause(*old(self)),
            old(self).wf() ==> final(self).wf(),
    {
        if self.app == AppState::InGame {
            self.paused = PausedState::Paused;
            true
        } else {
            false
        }
    }

    /// Lets the simulation run again.
    pub fn resume(&mut self)
        ensures
            *final(self) == (States { paused: PausedState::Running, ..*old(self) }),
            final(self).wf(),
    {
        self.paused = PausedState::Running;
    }

    /// Flips the pause and returns the state it is left in.
    pub fn toggle_pause(&mut self) -> (now: PausedState)
        ensures
            *final(self) == after_toggle_pause(*old(self)),
            now == final(self).paused,
            old(self).wf() ==> final(self).wf(),
    {
        match self.paused {
            PausedState::Paused => {
                self.paused = PausedState::Running;
            },
            PausedState::Running => {
                if self.app == AppState::InGame {
                    self.paused = PausedState::Paused;
                }
            },
        }
        self.paused
    }

    /// Flips the debug overlays and returns the state they are left in.
    /// Nothing else changes.
    pub fn toggle_debug(&mut self) -> (now: DebugState)
        ensures
            *final(self) == (States { debug: flipped(old(self).debug), ..*old(self) }),
            now == flipped(old(self).debug),
    {
        let next: DebugState = match self.debug {
            DebugState::Disabled => DebugState::Enabled,
            DebugState::Enabled => DebugState::Disabled,
        };
        self.debug = next;
        next
    }

    /// Selects the kind of session. Nothing else changes.
    pub fn set_mode(&mut self, mode: GameModeState)
        ensures
            *final(self) == (States { mode: mode, ..*old(self) }),
    {
        self.mode = mode;
    }

    /// Tells whether the fixed-step gameplay systems may advance.
    pub fn gameplay_runs(&self) -> (r: bool)
        ensures
            r == self.gameplay_active(),
    {
        self.app == AppState::InGame && self.paused == PausedState::Running
    }

    /// Tells whether the physics clock is stopped. It stops with the pause,
    /// so that physics-driven timers freeze with the motion the player sees.
    pub fn physics_paused(&self) -> (r: bool)
        ensures
            r == (self.paused == PausedState::Paused),
    {
        self.paused == PausedState::Paused
    }

    /// Tells whether the physics debug drawing is switched on.
    pub fn physics_debug(&self) -> (r: bool)
        ensures
            r == (self.debug == DebugState::Enabled),
    {
        self.debug == DebugState::Enabled
    }
}

/// The systems of the main menu.
#[derive(Clone, Copy, PartialEq, Eq, Structural, Debug, Hash)]
pub struct MainMenuSet;

/// The systems of the game in play.
#[derive(Clone, Copy, PartialEq, Eq, Structural, Debug, Hash)]
pub struct GameplaySet;

/// The systems that run in a single-player session.
#[derive(Clone, Copy, PartialEq, Eq, Structural, Debug, Hash)]
pub struct SingleplayerSet;

/// The systems that run in a multi-player session.
#[derive(Clone, Copy, PartialEq, Eq, Structural, Debug, Hash)]
pub struct MultiplayerSet;

impl MainMenuSet {
    /// The menu systems run while the main menu is shown.
    pub fn runs(states: &States) -> (r: bool)
        ensures
            r == (states.app == AppState::MainMenu),
    {
        states.app == AppState::MainMenu
    }
}

impl GameplaySet {
    /// The gameplay systems run in a session that is not held.
    pub fn runs(states: &States) -> (r: bool)
        ensures
            r == states.gameplay_active(),
    {
        states.gameplay_runs()
    }
}

impl SingleplayerSet {
    /// The single-player systems run whenever that mode is selected.
    pub fn runs(states: &States) -> (r: bool)
        ensures
            r == (states.mode == GameModeState::Singleplayer),
    {
        states.mode == GameModeState::Singleplayer
    }
}

impl MultiplayerSet {
    /// The multi-player systems are gameplay systems: they run in that mode,
    /// in a session that is not held.
    pub fn runs(states: &States) -> (r: bool)
        ensures
            r == (states.gameplay_active() && states.mode == GameModeState::Multiplayer),
    {
        states.gameplay_runs() && states.mode == GameModeState::Multiplayer
    }
}

/// A held simulation runs no gameplay system, and one that runs gameplay has
/// its physics clock running.
pub proof fn lemma_pause_gates_gameplay(s: States)
    ensures
        s.paused == PausedState::Paused ==> !s.gameplay_active(),
        s.gameplay_active() ==> s.paused == PausedState::Running && s.app == AppState::InGame,
{
}

/// Whatever path the application takes, it is never held outside a session:
/// each request keeps that, and leaving a session releases the pause.
pub proof fn lemma_pause_never_leaks(s: States, to: AppState)
    requires
        s.wf(),
    ensures
        after_transition(s, to).wf(),
        after_pause(s).wf(),
        after_toggle_pause(s).wf(),
        after_transition(s, to).app != AppState::InGame ==> after_transition(s, to).paused
            == PausedState::Running,
{
}

} // verus!
