//! The game as a whole: its state, the phases of its loop, and the reactions
//! to what the engine reports. Each rule is a function on the mathematical
//! state, and each method is proved to carry that function out.

use vstd::prelude::*;
use crate::collider::CollisionEvent;
use crate::duration::{reset_run_duration, ticked, LevelDuration, Nanos, RunDuration};
use crate::history::{resolved_or, EntityId, History};
use crate::level::{
    level_in_range, theme_for, theme_of, AssetId, CurrentLevel, LevelTheme, MainScene, SpawnLevel,
    LEVEL_COUNT,
};
use crate::scene::{
    full_attachments, full_pass, lookup, settled, Attachment, Scene, SceneEntity,
};
use crate::input::startup_ready;
use crate::laws::coherent;
use crate::space::{boosted, spawn_point, water_level, Point, Velocity};
use crate::state::{after_pause, after_transition, allowed, AppState, PausedState, States};
use crate::trigger::{
    checkpoint_crossing, dispatch, end_outcome, end_zone_crossing, handler_of, EndOutcome, Trigger,
};

verus! {

/// The mathematical state of a game: what every rule below is stated over.
#[verifier::ext_equal]
pub struct GameView {
    pub states: States,
    /// The level being played, counting from 1.
    pub level: int,
    /// Whether the scene of that level is in the world.
    pub spawned: bool,
    /// Scene asset of each level.
    pub levels: Seq<AssetId>,
    /// Skybox asset of each level.
    pub skyboxes: Seq<AssetId>,
    /// Checkpoints crossed in this attempt, oldest first.
    pub history: Seq<EntityId>,
    /// Reading of the stopwatch.
    pub stopwatch: nat,
    /// Time recorded for each level.
    pub results: Seq<nat>,
    /// Content of the scene.
    pub entities: Seq<SceneEntity>,
    /// The request to change level that waits for the next fixed step.
    pub pending: Option<SpawnLevel>,
}

/// Order to move the player.
#[derive(Clone, Copy, PartialEq, Eq, Structural, Debug)]
pub struct Respawn {
    /// Where the player is put.
    pub target: Point,
    /// Whether the attempt started over, so that the stopwatch went back to
    /// zero.
    pub restart: bool,
}

/// What the world has to do after a change of level.
#[derive(Clone, Copy, PartialEq, Eq, Structural, Debug)]
pub struct LevelChange {
    /// The level that was left.
    pub from: usize,
    /// The level that is loaded next.
    pub to: usize,
    /// Where the player is put. It is the same point for every level.
    pub teleport: Point,
}

/// What the world has to do to bring in the scene of a level.
#[derive(Clone, Copy, PartialEq, Eq, Structural, Debug)]
pub struct SpawnPlan {
    pub level: usize,
    /// The scene whose root is instantiated, once.
    pub scene: AssetId,
    pub skybox: AssetId,
    pub theme: LevelTheme,
}

/// What one fixed step asks of the world.
#[derive(Debug)]
pub struct TickActions {
    /// Set when the step changed level: despawn the old scene, move the
    /// player.
    pub change: Option<LevelChange>,
    /// Set when the step brought in the scene of the level.
    pub spawn: Option<SpawnPlan>,
    /// The colliders to attach.
    pub attachments: Vec<Attachment>,
}

/// What the start of a collision with a trigger volume led to.
#[derive(Clone, Copy, PartialEq, Eq, Structural, Debug)]
pub enum StartOutcome {
    /// Nothing happened.
    Ignored,
    /// The checkpoint was recorded; acknowledge it at the player.
    CheckpointReached(EntityId),
    /// A change of level was requested and waits for the next fixed step.
    LevelAdvance(SpawnLevel),
    /// The last level was finished and the run is over.
    GameOver,
}

/// What leaving a boost pad gives.
#[derive(Clone, Copy, PartialEq, Eq, Structural, Debug)]
pub struct Boosted {
    /// The velocity to give to the body that left the pad.
    pub velocity: Velocity,
    /// Where the pad stands, for the effect shown there.
    pub pad: Point,
}

/// What to do with the mouse cursor.
#[derive(Clone, Copy, PartialEq, Eq, Structural, Debug)]
pub enum CursorAction {
    /// Leave it as it is.
    Keep,
    /// Lock and hide it, and let the controller read input.
    Capture,
    /// Free and show it, and stop the controller from reading input.
    Release,
}

/// Where the level stands between being asked for and being played.
#[derive(Clone, Copy, PartialEq, Eq, Structural, Debug)]
pub enum LifecyclePhase {
    /// A change of level was requested; the next fixed step unloads.
    Unloading,
    /// The scene of the level has not been brought in: its asset is awaited.
    AwaitingAssetReady,
    /// The scene is in the world and some entity still waits for its collider.
    AttachingColliders,
    /// The level is being played.
    Active,
}

/// A record with nothing in it: every level at zero.
pub open spec fn no_results() -> Seq<nat> {
    Seq::new(LEVEL_COUNT as nat, |i: int| 0nat)
}

/// Where a respawn puts the player: at the checkpoint crossed last, if there
/// is one and it is still in the scene, and at the global spawn point
/// otherwise.
pub open spec fn respawn_target(history: Seq<EntityId>, entities: Seq<SceneEntity>) -> Point {
    resolved_or(history, entities, spawn_point())
}

/// What the first phase of a fixed step asks of the world.
pub open spec fn change_of(g: GameView) -> Option<LevelChange> {
    if advances(g) {
        Some(
            LevelChange {
                from: g.level as usize,
                to: g.pending.unwrap().level,
                teleport: spawn_point(),
            },
        )
    } else {
        None
    }
}

/// What the second phase of a fixed step asks of the world.
pub open spec fn plan_of(g: GameView, asset_ready: bool) -> Option<SpawnPlan> {
    if spawns(g, asset_ready) {
        Some(
            SpawnPlan {
                level: g.level as usize,
                scene: g.levels[g.level - 1],
                skybox: g.skyboxes[g.level - 1],
                theme: theme_of(g.level),
            },
        )
    } else {
        None
    }
}

/// What the third phase of a fixed step asks of the world.
pub open spec fn colliders_of(g: GameView) -> Seq<Attachment> {
    if attaches(g) {
        full_attachments(g.entities)
    } else {
        Seq::empty()
    }
}

/// The game as a session starts: an empty record, the stopwatch at zero and
/// no checkpoint crossed.
pub open spec fn session_entered(g: GameView) -> GameView {
    GameView { results: no_results(), stopwatch: 0, history: Seq::empty(), ..g }
}

/// The game as a session ends: the scene is gone and the registry points at
/// the first level again.
pub open spec fn session_left(g: GameView) -> GameView {
    GameView { entities: Seq::empty(), spawned: false, level: 1, pending: None, ..g }
}

/// The game after a request to move the application to `to`.
pub open spec fn moved_to(g: GameView, to: AppState) -> GameView {
    if !allowed(g.states.app, to) {
        g
    } else {
        let moved = GameView { states: after_transition(g.states, to), ..g };
        if g.states.app == AppState::InGame {
            session_left(moved)
        } else if to == AppState::InGame {
            session_entered(moved)
        } else {
            moved
        }
    }
}

/// True when a request to change level is taken: in a session, with the
/// scene in the world, for a level of the run, and with no other request
/// waiting.
pub open spec fn accepts(g: GameView, request: SpawnLevel) -> bool {
    &&& g.states.app == AppState::InGame
    &&& g.spawned
    &&& level_in_range(request.level as int)
    &&& g.pending.is_none()
}

/// The game after a request to change level.
pub open spec fn requested(g: GameView, request: SpawnLevel) -> GameView {
    if accepts(g, request) {
        GameView { pending: Some(request), ..g }
    } else {
        g
    }
}

/// The game after the change of level that `request` asks for: the time of
/// the level that is left is on record, the history is empty, the scene is
/// gone, and the level asked for is awaited.
pub open spec fn advanced(g: GameView, request: SpawnLevel) -> GameView {
    GameView {
        results: g.results.update(g.level - 1, g.stopwatch),
        history: Seq::empty(),
        entities: Seq::empty(),
        level: request.level as int,
        spawned: false,
        stopwatch: if request.restart {
            0
        } else {
            g.stopwatch
        },
        pending: None,
        ..g
    }
}

/// True when the fixed step changes level.
pub open spec fn advances(g: GameView) -> bool {
    &&& g.states.gameplay_active()
    &&& g.spawned
    &&& g.pending matches Some(request)
    &&& level_in_range(request.level as int)
}

/// The game after the first phase of a fixed step, which serves the waiting
/// request. A request that finds no scene in the world is dropped. While the
/// game is held the request waits.
pub open spec fn after_advance(g: GameView) -> GameView {
    if advances(g) {
        advanced(g, g.pending.unwrap())
    } else if g.states.gameplay_active() {
        GameView { pending: None, ..g }
    } else {
        g
    }
}

/// True when the fixed step brings in the scene of the level.
pub open spec fn spawns(g: GameView, asset_ready: bool) -> bool {
    g.states.gameplay_active() && !g.spawned && asset_ready
}

/// The game after the second phase of a fixed step, which brings in the
/// scene once its asset has arrived.
pub open spec fn after_spawn(g: GameView, asset_ready: bool) -> GameView {
    if spawns(g, asset_ready) {
        GameView { spawned: true, ..g }
    } else {
        g
    }
}

/// True when the collider passes run: in a session, once the scene is in the
/// world.
pub open spec fn attaches(g: GameView) -> bool {
    g.states.app == AppState::InGame && g.spawned
}

/// The game after the third phase of a fixed step, the collider passes.
pub open spec fn after_attach(g: GameView) -> GameView {
    if attaches(g) {
        GameView { entities: full_pass(g.entities), ..g }
    } else {
        g
    }
}

/// The game after a whole fixed step.
pub open spec fn after_fixed_tick(g: GameView, asset_ready: bool) -> GameView {
    after_attach(after_spawn(after_advance(g), asset_ready))
}

/// The game after `delta` of frame time: the stopwatch runs only in a
/// session that is not held.
pub open spec fn after_clock(g: GameView, delta: nat) -> GameView {
    if g.states.gameplay_active() {
        GameView { stopwatch: ticked(g.stopwatch, delta), ..g }
    } else {
        g
    }
}

/// The trigger volume that reacts when a collision with `target` starts or
/// ends: an entity of the scene that is ready and whose role observes that
/// kind of event. Nothing reacts while the game is not being played.
pub open spec fn reacting(g: GameView, target: EntityId, event: CollisionEvent) -> Option<
    (SceneEntity, Trigger),
> {
    if !g.states.gameplay_active() {
        None
    } else {
        match lookup(g.entities, target) {
            Some(e) => if e.collider.is_some() {
                match handler_of(e.role, event) {
                    Some(t) => Some((e, t)),
                    None => None,
                }
            } else {
                None
            },
            None => None,
        }
    }
}

/// The game once the last level is finished: its time is on record and the
/// application has moved to the end of the run.
pub open spec fn finished(g: GameView) -> GameView {
    moved_to(
        GameView { results: g.results.update(g.level - 1, g.stopwatch), ..g },
        AppState::GameOver,
    )
}

/// What the start of a collision between the player, standing at `player`,
/// and `target` leads to.
pub open spec fn start_outcome(g: GameView, target: EntityId, player: Point) -> StartOutcome {
    match reacting(g, target, CollisionEvent::Start) {
        Some((e, Trigger::Checkpoint)) => if player.at_or_above(e.anchor) {
            StartOutcome::CheckpointReached(target)
        } else {
            StartOutcome::Ignored
        },
        Some((e, Trigger::EndZone)) => match end_outcome(g.level, player, e.anchor) {
            EndOutcome::Advance(request) => if accepts(g, request) {
                StartOutcome::LevelAdvance(request)
            } else {
                StartOutcome::Ignored
            },
            EndOutcome::Finished => StartOutcome::GameOver,
            EndOutcome::Ignored => StartOutcome::Ignored,
        },
        _ => StartOutcome::Ignored,
    }
}

/// The game after the start of a collision between the player and `target`.
pub open spec fn after_collision_start(g: GameView, target: EntityId, player: Point) -> GameView {
    match start_outcome(g, target, player) {
        StartOutcome::Ignored => g,
        StartOutcome::CheckpointReached(id) => GameView { history: g.history.push(id), ..g },
        StartOutcome::LevelAdvance(request) => GameView { pending: Some(request), ..g },
        StartOutcome::GameOver => finished(g),
    }
}

/// What a body moving at `velocity` gets when it leaves `target`. A body
/// without a velocity gets nothing.
pub open spec fn boost_outcome(g: GameView, target: EntityId, velocity: Option<Velocity>) -> Option<
    Boosted,
> {
    match (reacting(g, target, CollisionEvent::End), velocity) {
        (Some((e, Trigger::Boost)), Some(v)) => Some(
            Boosted { velocity: boosted(v), pad: e.anchor },
        ),
        _ => None,
    }
}

/// The history after a reset: forgotten when the modifier is held.
pub open spec fn history_after_reset(g: GameView, modifier: bool) -> Seq<EntityId> {
    if modifier {
        Seq::empty()
    } else {
        g.history
    }
}

/// The order a reset gives, if the game is being played.
pub open spec fn reset_outcome(g: GameView, modifier: bool) -> Option<Respawn> {
    if g.states.gameplay_active() {
        Some(
            Respawn {
                target: respawn_target(history_after_reset(g, modifier), g.entities),
                restart: history_after_reset(g, modifier).len() == 0,
            },
        )
    } else {
        None
    }
}

/// The game after a reset. The stopwatch goes back to zero only when no
/// checkpoint is on record, which makes the respawn a true restart.
pub open spec fn after_reset(g: GameView, modifier: bool) -> GameView {
    if g.states.gameplay_active() {
        GameView {
            history: history_after_reset(g, modifier),
            stopwatch: if history_after_reset(g, modifier).len() == 0 {
                0
            } else {
                g.stopwatch
            },
            ..g
        }
    } else {
        g
    }
}

/// What the cursor keys of a frame ask for. The key that frees the cursor
/// wins over the click that captures it.
pub open spec fn cursor_outcome(g: GameView, click: bool, escape: bool) -> CursorAction {
    if !g.states.gameplay_active() {
        CursorAction::Keep
    } else if escape {
        CursorAction::Release
    } else if click {
        CursorAction::Capture
    } else {
        CursorAction::Keep
    }
}

/// The game after the cursor keys of a frame: freeing the cursor holds the
/// game.
pub open spec fn after_cursor(g: GameView, click: bool, escape: bool) -> GameView {
    if g.states.gameplay_active() && escape {
        GameView { states: after_pause(g.states), ..g }
    } else {
        g
    }
}

/// The game after start-up reported what is in place: once everything is,
/// the application moves from loading to the main menu. The report means
/// nothing in any other state.
pub open spec fn after_loading(
    g: GameView,
    scene: bool,
    text: bool,
    effects: bool,
    pending: bool,
) -> GameView {
    if g.states.app == AppState::Loading && startup_ready(scene, text, effects, pending) {
        moved_to(g, AppState::MainMenu)
    } else {
        g
    }
}

/// The game after the resume button.
pub open spec fn resumed(g: GameView) -> GameView {
    GameView { states: States { paused: PausedState::Running, ..g.states }, ..g }
}

/// Where the level stands.
pub open spec fn phase_of(g: GameView) -> LifecyclePhase {
    if g.pending.is_some() {
        LifecyclePhase::Unloading
    } else if !g.spawned {
        LifecyclePhase::AwaitingAssetReady
    } else if !settled(g.entities) {
        LifecyclePhase::AttachingColliders
    } else {
        LifecyclePhase::Active
    }
}

/// The whole state of a game. The fields are the shared resources of the
/// game; each phase of the loop is a method that runs to completion.
#[derive(Debug)]
pub struct Game {
    pub states: States,
    pub current_level: CurrentLevel,
    pub main_scene: MainScene,
    pub history: History,
    pub level_duration: LevelDuration,
    pub run_duration: RunDuration,
    pub scene: Scene,
    pub pending: Option<SpawnLevel>,
}

impl View for Game {
    type V = GameView;

    open spec fn view(&self) -> GameView {
        GameView {
            states: self.states,
            level: self.current_level@,
            spawned: self.main_scene.is_spawned,
            levels: self.main_scene.levels@,
            skyboxes: self.main_scene.skyboxes@,
            history: self.history@,
            stopwatch: self.level_duration@,
            results: self.run_duration@,
            entities: self.scene@,
            pending: self.pending,
        }
    }
}

impl Game {
    /// A game that is still loading, with the assets of its levels.
    pub fn new(levels: [AssetId; LEVEL_COUNT], skyboxes: [AssetId; LEVEL_COUNT]) -> (g: Game)
        ensures
            g@ == (GameView {
                states: States {
                    app: AppState::Loading,
                    mode: crate::state::GameModeState::NotInGame,
                    paused: PausedState::Running,
                    debug: crate::state::DebugState::Disabled,
                },
                level: 1,
                spawned: false,
                levels: levels@,
                skyboxes: skyboxes@,
                history: Seq::empty(),
                stopwatch: 0,
                results: no_results(),
                entities: Seq::empty(),
                pending: None,
            }),
            g.scene.wf(),
            coherent(g@),
    {
        Game {
            states: States::new(),
            current_level: CurrentLevel::new(),
            main_scene: MainScene::new(levels, skyboxes),
            history: History::new(),
            level_duration: LevelDuration::new(),
            run_duration: RunDuration::new(),
            scene: Scene::new(),
            pending: None,
        }
    }

    /// Asks to move the application to `to` and says whether the move was
    /// taken. Entering a session clears the record of the run, the stopwatch
    /// and the history. Leaving one removes the scene, points the registry
    /// at the first level again and releases the pause.
    pub fn transition(&mut self, to: AppState) -> (taken: bool)
        ensures
            taken == allowed(old(self)@.states.app, to),
            final(self)@ == moved_to(old(self)@, to),
            old(self).scene.wf() ==> final(self).scene.wf(),
    {
        let from: AppState = self.states.app;
        let taken: bool = self.states.transition(to);
        if taken {
            if from == AppState::InGame {
                self.scene.clear();
                self.main_scene.is_spawned = false;
                self.current_level.reset();
                self.pending = None;
            } else if to == AppState::InGame {
                reset_run_duration(&mut self.run_duration);
                self.level_duration.reset();
                self.history.clear();
            }
        }
        taken
    }

    /// Asks for a change of level, as the end zone or an operator does. The
    /// request waits for the next fixed step. It is refused outside a
    /// session, while no scene is in the world, for a level the run does not
    /// have, and while another request waits.
    pub fn request_level(&mut self, request: SpawnLevel) -> (accepted: bool)
        ensures
            accepted == accepts(old(self)@, request),
            final(self)@ == requested(old(self)@, request),
            final(self).scene@ == old(self).scene@,
    {
        if self.states.app == AppState::InGame && self.main_scene.is_spawned && crate::level::is_level(
            request.level,
        ) && self.pending.is_none() {
            self.pending = Some(request);
            true
        } else {
            false
        }
    }

    /// First phase of a fixed step: serves the waiting request to change
    /// level. The time of the level that is left goes on record, the
    /// history is cleared, the scene is dropped and the level asked for is
    /// awaited. The stopwatch is put back to zero only if the request says
    /// so.
    pub fn spawn_level(&mut self) -> (change: Option<LevelChange>)
        ensures
            final(self)@ == after_advance(old(self)@),
            change == change_of(old(self)@),
            old(self).scene.wf() ==> final(self).scene.wf(),
    {
        if !self.states.gameplay_runs() {
            return None;
        }
        let pending: Option<SpawnLevel> = self.pending;
        self.pending = None;
        match pending {
            Some(request) => {
                if self.main_scene.is_spawned && crate::level::is_level(request.level) {
                    let from: usize = self.current_level.get();
                    self.run_duration.record(from, &self.level_duration);
                    self.history.clear();
                    self.scene.clear();
                    let _moved: bool = self.current_level.set(request.level);
                    self.main_scene.is_spawned = false;
                    if request.restart {
                        self.level_duration.reset();
                    }
                    Some(LevelChange { from: from, to: request.level, teleport: Point::spawn() })
                } else {
                    None
                }
            },
            None => None,
        }
    }

    /// Second phase of a fixed step: while the scene of the level is not in
    /// the world, looks whether its asset has arrived, and if so brings the
    /// scene in, once. An asset that never arrives leaves the level waiting.
    pub fn spawn_world(&mut self, asset_ready: bool) -> (plan: Option<SpawnPlan>)
        ensures
            final(self)@ == after_spawn(old(self)@, asset_ready),
            final(self).scene@ == old(self).scene@,
            plan == plan_of(old(self)@, asset_ready),
    {
        if !self.states.gameplay_runs() || self.main_scene.is_spawned || !asset_ready {
            return None;
        }
        let level: usize = self.current_level.get();
        self.main_scene.is_spawned = true;
        Some(
            SpawnPlan {
                level: level,
                scene: self.main_scene.level(level),
                skybox: self.main_scene.skybox(level),
                theme: theme_for(level),
            },
        )
    }

    /// Third phase of a fixed step: the collider passes for all roles. They
    /// run in a session once the scene is in the world, and do nothing when
    /// nothing is left to set up.
    pub fn attach_colliders(&mut self) -> (made: Vec<Attachment>)
        ensures
            final(self)@ == after_attach(old(self)@),
            made@ == colliders_of(old(self)@),
            old(self).scene.wf() ==> final(self).scene.wf(),
    {
        if self.states.app == AppState::InGame && self.main_scene.is_spawned {
            self.scene.attach_all()
        } else {
            Vec::new()
        }
    }

    /// One fixed step: change of level, then spawn, then colliders, in that
    /// order.
    pub fn fixed_tick(&mut self, asset_ready: bool) -> (actions: TickActions)
        ensures
            final(self)@ == after_fixed_tick(old(self)@, asset_ready),
            actions.change == change_of(old(self)@),
            actions.spawn == plan_of(after_advance(old(self)@), asset_ready),
            actions.attachments@ == colliders_of(
                after_spawn(after_advance(old(self)@), asset_ready),
            ),
            old(self).scene.wf() ==> final(self).scene.wf(),
    {
        let change: Option<LevelChange> = self.spawn_level();
        let spawn: Option<SpawnPlan> = self.spawn_world(asset_ready);
        let attachments: Vec<Attachment> = self.attach_colliders();
        TickActions { change, spawn, attachments }
    }

    /// Moves the stopwatch by the time of a frame. It stands still outside a
    /// session and while the game is held.
    pub fn tick_clock(&mut self, delta: Nanos)
        ensures
            final(self)@ == after_clock(old(self)@, delta as nat),
            final(self).scene@ == old(self).scene@,
    {
        if self.states.gameplay_runs() {
            self.level_duration.tick(delta);
        }
    }

    /// Where a respawn puts the player now.
    pub fn respawn_point(&self) -> (target: Point)
        ensures
            target == respawn_target(self@.history, self@.entities),
    {
        self.history.last_or(&self.scene, Point::spawn())
    }

    /// Reacts to the start of a collision between the player, standing at
    /// `player`, and `target`. A checkpoint touched from its anchor or above
    /// is recorded, every time it is touched. The end zone touched from its
    /// anchor or above asks for the next level, or, on the last level, puts
    /// the time of that level on record and ends the run.
    pub fn collision_start(&mut self, target: EntityId, player: &Point) -> (outcome: StartOutcome)
        ensures
            outcome == start_outcome(old(self)@, target, *player),
            final(self)@ == after_collision_start(old(self)@, target, *player),
            old(self).scene.wf() ==> final(self).scene.wf(),
    {
        if !self.states.gameplay_runs() {
            return StartOutcome::Ignored;
        }
        let entity: SceneEntity = match self.scene.get(target) {
            Some(e) => e,
            None => {
                return StartOutcome::Ignored;
            },
        };
        if entity.collider.is_none() {
            return StartOutcome::Ignored;
        }
        match dispatch(entity.role, CollisionEvent::Start) {
            Some(Trigger::Checkpoint) => {
                if checkpoint_crossing(player, &entity.anchor) {
                    self.history.push(target);
                    StartOutcome::CheckpointReached(target)
                } else {
                    StartOutcome::Ignored
                }
            },
            Some(Trigger::EndZone) => {
                match end_zone_crossing(&self.current_level, player, &entity.anchor) {
                    EndOutcome::Advance(request) => {
                        if self.request_level(request) {
                            StartOutcome::LevelAdvance(request)
                        } else {
                            StartOutcome::Ignored
                        }
                    },
                    EndOutcome::Finished => {
                        let level: usize = self.current_level.get();
                        self.run_duration.record(level, &self.level_duration);
                        let _taken: bool = self.transition(AppState::GameOver);
                        StartOutcome::GameOver
                    },
                    EndOutcome::Ignored => StartOutcome::Ignored,
                }
            },
            _ => StartOutcome::Ignored,
        }
    }

    /// Reacts to the end of a collision between a body and `target`: a body
    /// that leaves a boost pad gets its horizontal speed multiplied by the
    /// fixed gain. Each pad left is one application of the gain, whatever
    /// other pads are around. The game itself does not change.
    pub fn collision_end(&self, target: EntityId, velocity: Option<Velocity>) -> (boost: Option<
        Boosted,
    >)
        ensures
            boost == boost_outcome(self@, target, velocity),
            boost matches Some(b) ==> velocity matches Some(v) && b.velocity.y == v.y,
    {
        if !self.states.gameplay_runs() {
            return None;
        }
        let entity: SceneEntity = match self.scene.get(target) {
            Some(e) => e,
            None => {
                return None;
            },
        };
        if entity.collider.is_none() {
            return None;
        }
        match (dispatch(entity.role, CollisionEvent::End), velocity) {
            (Some(Trigger::Boost), Some(v)) => Some(
                Boosted { velocity: v.boost(), pad: entity.anchor },
            ),
            _ => None,
        }
    }

    /// Reacts to the reset key. With the modifier held the history is
    /// forgotten first. The player is sent to the checkpoint crossed last,
    /// or to the global spawn point when there is none or it is gone. The
    /// stopwatch goes back to zero exactly when no checkpoint is on record.
    pub fn handle_reset(&mut self, modifier: bool) -> (respawn: Option<Respawn>)
        ensures
            respawn == reset_outcome(old(self)@, modifier),
            final(self)@ == after_reset(old(self)@, modifier),
            final(self).scene@ == old(self).scene@,
    {
        if !self.states.gameplay_runs() {
            return None;
        }
        if modifier {
            self.history.clear();
        }
        let target: Point = self.respawn_point();
        let restart: bool = self.history.empty();
        crate::duration::reset_timer(1, &mut self.level_duration, &self.history);
        Some(Respawn { target: target, restart: restart })
    }

    /// Reacts to the cursor keys of a frame: a click captures the cursor,
    /// the escape key frees it and holds the game.
    pub fn manage_cursor(&mut self, click: bool, escape: bool) -> (action: CursorAction)
        ensures
            action == cursor_outcome(old(self)@, click, escape),
            final(self)@ == after_cursor(old(self)@, click, escape),
            final(self).scene@ == old(self).scene@,
    {
        if !self.states.gameplay_runs() {
            CursorAction::Keep
        } else if escape {
            let _held: bool = self.states.pause();
            CursorAction::Release
        } else if click {
            CursorAction::Capture
        } else {
            CursorAction::Keep
        }
    }

    /// Reacts to the report of start-up: leaves the loading state for the
    /// main menu once the level registry, the fonts and the effects are in
    /// place and no asset is still loading. Says whether it did.
    pub fn finish_loading(&mut self, scene: bool, text: bool, effects: bool, pending: bool) -> (done:
        bool)
        ensures
            final(self)@ == after_loading(old(self)@, scene, text, effects, pending),
            done == (startup_ready(scene, text, effects, pending) && old(self)@.states.app
                == AppState::Loading),
            old(self).scene.wf() ==> final(self).scene.wf(),
    {
        if self.states.app == AppState::Loading && crate::input::loading(
            scene,
            text,
            effects,
            pending,
        ) {
            self.transition(AppState::MainMenu)
        } else {
            false
        }
    }

    /// Starts a session from the main menu or from the end of a run, and
    /// captures the cursor if it did.
    pub fn enter_session(&mut self) -> (action: CursorAction)
        ensures
            final(self)@ == moved_to(old(self)@, AppState::InGame),
            action == if allowed(old(self)@.states.app, AppState::InGame) {
                CursorAction::Capture
            } else {
                CursorAction::Keep
            },
            old(self).scene.wf() ==> final(self).scene.wf(),
    {
        if self.transition(AppState::InGame) {
            CursorAction::Capture
        } else {
            CursorAction::Keep
        }
    }

    /// Lets a held game run again and captures the cursor.
    pub fn resume(&mut self) -> (action: CursorAction)
        ensures
            final(self)@ == resumed(old(self)@),
            action == CursorAction::Capture,
            final(self).scene@ == old(self).scene@,
    {
        self.states.resume();
        CursorAction::Capture
    }

    /// Height at which the water surface rides: it follows the point where a
    /// respawn would put the player.
    pub fn water_height(&self) -> (h: i64)
        ensures
            h as int == water_level(respawn_target(self@.history, self@.entities)),
    {
        let anchor: Point = self.respawn_point();
        crate::space::water_height(&anchor)
    }

    /// Where the level stands.
    pub fn phase(&self) -> (p: LifecyclePhase)
        ensures
            p == phase_of(self@),
    {
        if self.pending.is_some() {
            LifecyclePhase::Unloading
        } else if !self.main_scene.is_spawned {
            LifecyclePhase::AwaitingAssetReady
        } else if !self.scene.is_settled() {
            LifecyclePhase::AttachingColliders
        } else {
            LifecyclePhase::Active
        }
    }
}

} // verus!
