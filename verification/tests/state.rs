use bevy_hop::state::{
    is_allowed, AppState, DebugState, GameModeState, GameplaySet, MainMenuSet, MultiplayerSet,
    PausedState, SingleplayerSet, States,
};

fn in_game() -> States {
    let mut s = States::new();
    assert!(s.transition(AppState::MainMenu));
    assert!(s.transition(AppState::InGame));
    s
}

#[test]
fn states_start_loading_and_running() {
    let s = States::new();
    assert_eq!(s.app, AppState::Loading);
    assert_eq!(s.mode, GameModeState::NotInGame);
    assert_eq!(s.paused, PausedState::Running);
    assert_eq!(s.debug, DebugState::Disabled);
}

#[test]
fn defaults_match_the_initial_states() {
    assert_eq!(GameModeState::default(), GameModeState::NotInGame);
    assert_eq!(PausedState::default(), PausedState::Running);
    assert_eq!(DebugState::default(), DebugState::Disabled);
}

#[test]
fn transition_table_is_exact() {
    let all = [AppState::Loading, AppState::MainMenu, AppState::InGame, AppState::GameOver];
    let allowed = [
        (AppState::Loading, AppState::MainMenu),
        (AppState::MainMenu, AppState::InGame),
        (AppState::InGame, AppState::MainMenu),
        (AppState::InGame, AppState::GameOver),
        (AppState::GameOver, AppState::InGame),
        (AppState::GameOver, AppState::MainMenu),
    ];
    for from in all {
        for to in all {
            assert_eq!(is_allowed(from, to), allowed.contains(&(from, to)), "{:?} -> {:?}", from, to);
        }
    }
}

#[test]
fn refused_transition_changes_nothing() {
    let mut s = States::new();
    assert!(!s.transition(AppState::InGame));
    assert!(!s.transition(AppState::GameOver));
    assert!(!s.transition(AppState::Loading));
    assert_eq!(s, States::new());
}

#[test]
fn leaving_a_session_releases_the_pause() {
    let mut s = in_game();
    assert!(s.pause());
    assert_eq!(s.paused, PausedState::Paused);
    assert!(s.transition(AppState::MainMenu));
    assert_eq!(s.paused, PausedState::Running);

    let mut s = in_game();
    assert!(s.pause());
    assert!(s.transition(AppState::GameOver));
    assert_eq!(s.paused, PausedState::Running);
    assert_eq!(s.app, AppState::GameOver);
}

#[test]
fn pause_is_dropped_outside_a_session() {
    let mut s = States::new();
    assert!(!s.pause());
    assert_eq!(s.paused, PausedState::Running);
    assert_eq!(s.toggle_pause(), PausedState::Running);
    s.transition(AppState::MainMenu);
    assert_eq!(s.toggle_pause(), PausedState::Running);
}

#[test]
fn toggle_pause_flips_inside_a_session() {
    let mut s = in_game();
    assert_eq!(s.toggle_pause(), PausedState::Paused);
    assert!(s.physics_paused());
    assert!(!s.gameplay_runs());
    assert_eq!(s.toggle_pause(), PausedState::Running);
    assert!(!s.physics_paused());
    assert!(s.gameplay_runs());
}

#[test]
fn resume_runs_again() {
    let mut s = in_game();
    s.pause();
    s.resume();
    assert_eq!(s.paused, PausedState::Running);
    assert_eq!(s.app, AppState::InGame);
}

#[test]
fn debug_toggles_independently() {
    let mut s = in_game();
    s.pause();
    let before = s;
    assert_eq!(s.toggle_debug(), DebugState::Enabled);
    assert!(s.physics_debug());
    assert_eq!(s.app, before.app);
    assert_eq!(s.paused, before.paused);
    // debug gates no gameplay
    s.resume();
    assert!(s.gameplay_runs());
    assert_eq!(s.toggle_debug(), DebugState::Disabled);
    assert!(!s.physics_debug());
    assert!(s.gameplay_runs());
}

#[test]
fn system_sets_follow_the_states() {
    let mut s = States::new();
    assert!(!MainMenuSet::runs(&s));
    assert!(!GameplaySet::runs(&s));
    s.transition(AppState::MainMenu);
    assert!(MainMenuSet::runs(&s));
    assert!(!GameplaySet::runs(&s));
    s.transition(AppState::InGame);
    assert!(!MainMenuSet::runs(&s));
    assert!(GameplaySet::runs(&s));
    assert!(!SingleplayerSet::runs(&s));
    assert!(!MultiplayerSet::runs(&s));
    s.set_mode(GameModeState::Multiplayer);
    assert!(MultiplayerSet::runs(&s));
    s.pause();
    assert!(!GameplaySet::runs(&s));
    assert!(!MultiplayerSet::runs(&s));
    s.set_mode(GameModeState::Singleplayer);
    assert!(SingleplayerSet::runs(&s));
}
