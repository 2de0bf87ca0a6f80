//! What holds of a game however it is played. Each statement is over the
//! mathematical state of the game and the functions that the methods of the
//! game are proved to compute.

use vstd::prelude::*;
use crate::collider::Role;
use crate::duration::{ticked, MAX_NANOS};
use crate::game::{
    advanced, advances, after_advance, after_attach, after_clock, after_collision_start,
    after_cursor, after_fixed_tick, after_reset, after_spawn, finished, moved_to,
    no_results, requested, reset_outcome, respawn_target, start_outcome, GameView, Respawn,
    StartOutcome,
};
use crate::history::EntityId;
use crate::level::{level_in_range, SpawnLevel, LEVEL_COUNT};
use crate::scene::{
    contains_id, distinct_ids, full_pass, lemma_full_pass_idempotent, lemma_full_pass_pointwise,
    lookup, SceneEntity,
};
use crate::space::{spawn_point, Point};
use crate::state::{allowed, AppState, PausedState};

verus! {

/// The state of a game makes sense: the level is one of the run, there is a
/// slot and an asset for every level, no time is longer than the longest
/// span, and the pause is held only inside a session.
pub open spec fn coherent(g: GameView) -> bool {
    &&& level_in_range(g.level)
    &&& g.results.len() == LEVEL_COUNT
    &&& g.levels.len() == LEVEL_COUNT
    &&& g.skyboxes.len() == LEVEL_COUNT
    &&& g.stopwatch <= MAX_NANOS
    &&& forall|i: int| 0 <= i < g.results.len() ==> #[trigger] g.results[i] <= MAX_NANOS
    &&& g.states.wf()
    &&& distinct_ids(g.entities)
    &&& g.pending matches Some(request) ==> level_in_range(request.level as int)
}

/// The game when the level being played is left through its end zone: the
/// next level is awaited, or, after the last level, the run is over.
#[verifier::opaque]
pub open spec fn level_exited(g: GameView) -> GameView {
    if g.level < LEVEL_COUNT {
        advanced(g, SpawnLevel { level: (g.level + 1) as usize, restart: false })
    } else {
        finished(g)
    }
}

/// True when `stops` is a run played from its start through the end zone of
/// one level after the other: `stops[k]` is the game at the moment level
/// `k + 1` is left. Between two such moments anything may happen that leaves
/// the level and the record alone.
pub open spec fn is_run(stops: Seq<GameView>) -> bool {
    &&& 1 <= stops.len() <= LEVEL_COUNT
    &&& stops[0].level == 1
    &&& stops[0].results == no_results()
    &&& forall|k: int| 1 <= k < stops.len() ==> #[trigger] follows(stops, k)
}

/// True when the game at stop `k` has the level and the record that leaving
/// the level at the stop before gave.
pub open spec fn follows(stops: Seq<GameView>, k: int) -> bool {
    &&& stops[k].level == level_exited(stops[k - 1]).level
    &&& stops[k].results == level_exited(stops[k - 1]).results
}

/// Every step keeps a coherent game coherent.
pub proof fn lemma_steps_keep_coherence(
    g: GameView,
    to: AppState,
    request: SpawnLevel,
    asset_ready: bool,
    delta: nat,
    target: EntityId,
    player: Point,
    flag: bool,
    other: bool,
)
    requires
        coherent(g),
    ensures
        coherent(moved_to(g, to)),
        coherent(requested(g, request)),
        coherent(after_advance(g)),
        coherent(after_spawn(g, asset_ready)),
        coherent(after_attach(g)),
        coherent(after_fixed_tick(g, asset_ready)),
        coherent(after_clock(g, delta)),
        coherent(after_collision_start(g, target, player)),
        coherent(after_reset(g, flag)),
        coherent(after_cursor(g, flag, other)),
{
    lemma_full_pass_pointwise(g.entities);
    lemma_full_pass_pointwise(after_advance(g).entities);
    assert(coherent(after_advance(g)));
    assert(coherent(after_spawn(after_advance(g), asset_ready)));
}

/// For every level, touching its end zone from the anchor or above asks for
/// exactly one change of level, to the level after it, and the next fixed
/// step makes the change; on the last level, and only there, it ends the run
/// instead. A second touch before the fixed step changes nothing more.
pub proof fn lemma_end_zone_advances_once(g: GameView, target: EntityId, player: Point)
    requires
        coherent(g),
        g.states.gameplay_active(),
        g.spawned,
        g.pending.is_none(),
        lookup(g.entities, target) matches Some(e) && e.role == Role::End && e.collider.is_some()
            && player.at_or_above(e.anchor),
    ensures
        g.level < LEVEL_COUNT ==> {
            let request = SpawnLevel { level: (g.level + 1) as usize, restart: false };
            let touched = after_collision_start(g, target, player);
            &&& start_outcome(g, target, player) == StartOutcome::LevelAdvance(request)
            &&& touched == (GameView { pending: Some(request), ..g })
            &&& after_collision_start(touched, target, player) == touched
            &&& after_advance(touched).level == g.level + 1
            &&& after_advance(touched).pending.is_none()
            &&& after_advance(touched).states.app == AppState::InGame
        },
        g.level == LEVEL_COUNT <==> start_outcome(g, target, player) == StartOutcome::GameOver,
        g.level == LEVEL_COUNT <==> after_collision_start(g, target, player).states.app
            == AppState::GameOver,
        g.level == LEVEL_COUNT ==> after_collision_start(g, target, player).pending.is_none(),
{
}

/// A touch from below the anchor of a checkpoint or of the end zone earns
/// nothing: the game stays as it was.
pub proof fn lemma_touch_from_below_ignored(g: GameView, target: EntityId, player: Point)
    requires
        lookup(g.entities, target) matches Some(e) && !player.at_or_above(e.anchor),
    ensures
        start_outcome(g, target, player) == StartOutcome::Ignored,
        after_collision_start(g, target, player) == g,
{
}

/// After a change of level the history is empty, whatever it held before.
pub proof fn lemma_history_empty_after_advance(g: GameView, asset_ready: bool)
    requires
        advances(g),
    ensures
        after_advance(g).history == Seq::<EntityId>::empty(),
        after_fixed_tick(g, asset_ready).history == Seq::<EntityId>::empty(),
        after_advance(g).entities == Seq::<SceneEntity>::empty(),
        !after_advance(g).spawned,
{
}

/// Leaving a level writes the reading of the stopwatch at that moment into
/// the slot of that level and into no other slot.
pub proof fn lemma_exit_records_stopwatch(g: GameView)
    requires
        coherent(g),
    ensures
        advances(g) ==> after_advance(g).results == g.results.update(g.level - 1, g.stopwatch),
        level_exited(g).results == g.results.update(g.level - 1, g.stopwatch),
        level_exited(g).results[g.level - 1] == g.stopwatch,
        forall|i: int|
            0 <= i < LEVEL_COUNT && i != g.level - 1 ==> #[trigger] level_exited(g).results[i]
                == g.results[i],
{
    reveal(level_exited);
}

/// No step but leaving a level, or starting a session, writes to the record
/// of the run.
pub proof fn lemma_record_written_only_on_exit(
    g: GameView,
    to: AppState,
    request: SpawnLevel,
    asset_ready: bool,
    delta: nat,
    target: EntityId,
    player: Point,
    flag: bool,
    other: bool,
)
    ensures
        to != AppState::InGame ==> moved_to(g, to).results == g.results,
        requested(g, request).results == g.results,
        !advances(g) ==> after_advance(g).results == g.results,
        after_spawn(g, asset_ready).results == g.results,
        after_attach(g).results == g.results,
        after_clock(g, delta).results == g.results,
        start_outcome(g, target, player) != StartOutcome::GameOver ==> after_collision_start(
            g,
            target,
            player,
        ).results == g.results,
        after_reset(g, flag).results == g.results,
        after_cursor(g, flag, other).results == g.results,
{
}

/// The record of a run in which the first `exited` levels have been left at
/// the moments `stops`: their slots hold the readings of the stopwatch at
/// those moments and every other slot is zero.
pub open spec fn record_after(stops: Seq<GameView>, exited: int) -> Seq<nat> {
    Seq::new(
        LEVEL_COUNT as nat,
        |i: int|
            if i < exited {
                stops[i].stopwatch
            } else {
                0nat
            },
    )
}

/// What leaving a level does to the level and to the record.
proof fn lemma_level_exited(g: GameView)
    requires
        coherent(g),
    ensures
        g.level < LEVEL_COUNT ==> level_exited(g).level == g.level + 1,
        level_exited(g).results == g.results.update(g.level - 1, g.stopwatch),
        g.level == LEVEL_COUNT && g.states.app == AppState::InGame ==> level_exited(g).states.app
            == AppState::GameOver,
{
    reveal(level_exited);
}

/// In a run, when a level is about to be left the levels before it have
/// been left, one each, and their slots are the only ones written.
proof fn lemma_run_prefix(stops: Seq<GameView>)
    requires
        is_run(stops),
        forall|k: int| 0 <= k < stops.len() ==> coherent(#[trigger] stops[k]),
    ensures
        stops.last().level == stops.len(),
        stops.last().results == record_after(stops, stops.len() - 1),
    decreases stops.len(),
{
    let n = stops.len() as int;
    if n > 1 {
        let before = stops.drop_last();
        assert forall|k: int| 0 <= k < before.len() implies coherent(#[trigger] before[k]) by {
            assert(before[k] == stops[k]);
        }
        assert(is_run(before)) by {
            assert(before[0] == stops[0]);
            assert forall|k: int| 1 <= k < before.len() implies #[trigger] follows(before, k) by {
                assert(follows(stops, k));
                assert(before[k] == stops[k]);
                assert(before[k - 1] == stops[k - 1]);
            }
        }
        lemma_run_prefix(before);
        let earlier = stops[n - 2];
        assert(before.last() == earlier);
        lemma_level_exited(earlier);
        assert(follows(stops, n - 1));
        assert(stops.last().results == earlier.results.update(n - 2, earlier.stopwatch));
        let written = record_after(before, n - 2).update(n - 2, earlier.stopwatch);
        assert forall|i: int| 0 <= i < LEVEL_COUNT implies #[trigger] written[i] == record_after(
            stops,
            n - 1,
        )[i] by {
            if i < n - 1 {
                assert(before[i] == stops[i]);
            }
        }
        assert(stops.last().results =~= record_after(stops, n - 1));
    } else {
        assert(stops.last() == stops[0]);
        assert(stops.last().results =~= record_after(stops, 0));
    }
}

/// In a run played through one end zone after the other, when a level has
/// just been left the slot of each level left so far holds the reading of
/// the stopwatch at the moment that level was left, and the slot of each
/// level still to come is zero: every slot is written once, on leaving its
/// level, and never again. Leaving the last level ends the run.
pub proof fn lemma_slots_written_once(stops: Seq<GameView>)
    requires
        is_run(stops),
        forall|k: int| 0 <= k < stops.len() ==> coherent(#[trigger] stops[k]),
    ensures
        stops.last().level == stops.len(),
        level_exited(stops.last()).results == record_after(stops, stops.len() as int),
        stops.len() == LEVEL_COUNT && stops.last().states.app == AppState::InGame
            ==> level_exited(stops.last()).states.app == AppState::GameOver,
{
    lemma_run_prefix(stops);
    lemma_level_exited(stops.last());
    assert(level_exited(stops.last()).results =~= record_after(stops, stops.len() as int));
}

/// The level being played changes only when a fixed step serves a request,
/// and goes back to the first level only when a session is left. Whenever
/// it changes, the scene of the new level is not in the world yet.
pub proof fn lemma_level_changes_only_on_advance(
    g: GameView,
    to: AppState,
    request: SpawnLevel,
    asset_ready: bool,
    delta: nat,
    target: EntityId,
    player: Point,
    flag: bool,
    other: bool,
)
    ensures
        requested(g, request).level == g.level,
        !advances(g) ==> after_advance(g).level == g.level,
        advances(g) ==> after_advance(g).level == g.pending.unwrap().level && !after_advance(
            g,
        ).spawned,
        after_spawn(g, asset_ready).level == g.level,
        after_attach(g).level == g.level,
        after_clock(g, delta).level == g.level,
        after_reset(g, flag).level == g.level,
        after_cursor(g, flag, other).level == g.level,
        moved_to(g, to).level != g.level ==> g.states.app == AppState::InGame && moved_to(
            g,
            to,
        ).level == 1 && !moved_to(g, to).spawned,
        after_collision_start(g, target, player).level != g.level ==> start_outcome(
            g,
            target,
            player,
        ) == StartOutcome::GameOver && !after_collision_start(g, target, player).spawned,
{
}

/// The history grows only by the checkpoint that was just crossed, and is
/// emptied only by a change of level, by a reset with the modifier, and by
/// the start of a session. Nothing else touches it and nothing reorders it.
pub proof fn lemma_history_mutations(
    g: GameView,
    to: AppState,
    request: SpawnLevel,
    asset_ready: bool,
    delta: nat,
    target: EntityId,
    player: Point,
    flag: bool,
    other: bool,
)
    ensures
        requested(g, request).history == g.history,
        after_advance(g).history == if advances(g) {
            Seq::<EntityId>::empty()
        } else {
            g.history
        },
        after_spawn(g, asset_ready).history == g.history,
        after_attach(g).history == g.history,
        after_clock(g, delta).history == g.history,
        after_cursor(g, flag, other).history == g.history,
        after_reset(g, flag).history == if flag && g.states.gameplay_active() {
            Seq::<EntityId>::empty()
        } else {
            g.history
        },
        moved_to(g, to).history == if allowed(g.states.app, to) && to == AppState::InGame {
            Seq::<EntityId>::empty()
        } else {
            g.history
        },
        after_collision_start(g, target, player).history == if start_outcome(g, target, player)
            == StartOutcome::CheckpointReached(target) {
            g.history.push(target)
        } else {
            g.history
        },
{
}

/// The stopwatch goes back to zero in three cases only: a respawn with no
/// checkpoint on record, a change of level that asks for a restart, and the
/// start of a session. A respawn at a checkpoint never resets it.
pub proof fn lemma_stopwatch_resets(
    g: GameView,
    to: AppState,
    request: SpawnLevel,
    asset_ready: bool,
    target: EntityId,
    player: Point,
    flag: bool,
    other: bool,
)
    ensures
        requested(g, request).stopwatch == g.stopwatch,
        after_advance(g).stopwatch == if advances(g) && g.pending.unwrap().restart {
            0
        } else {
            g.stopwatch
        },
        after_spawn(g, asset_ready).stopwatch == g.stopwatch,
        after_attach(g).stopwatch == g.stopwatch,
        after_cursor(g, flag, other).stopwatch == g.stopwatch,
        after_collision_start(g, target, player).stopwatch == g.stopwatch,
        after_reset(g, flag).stopwatch == if g.states.gameplay_active() && (flag
            || g.history.len() == 0) {
            0
        } else {
            g.stopwatch
        },
        moved_to(g, to).stopwatch == if allowed(g.states.app, to) && to == AppState::InGame {
            0
        } else {
            g.stopwatch
        },
{
}

/// A respawn puts the player at the checkpoint crossed last when there is
/// one and it is still in the scene, and at the global spawn point in every
/// other case.
pub proof fn lemma_respawn_target(history: Seq<EntityId>, entities: Seq<SceneEntity>)
    ensures
        history.len() > 0 && contains_id(entities, history.last()) ==> respawn_target(
            history,
            entities,
        ) == lookup(entities, history.last()).unwrap().anchor,
        history.len() == 0 || !contains_id(entities, history.last()) ==> respawn_target(
            history,
            entities,
        ) == spawn_point(),
{
}

/// A reset without the modifier leaves the history as it is and, with a
/// checkpoint on record, leaves the stopwatch alone. A reset with the
/// modifier clears the history, sends the player to the global spawn point
/// and puts the stopwatch back to zero.
pub proof fn lemma_reset(g: GameView)
    requires
        g.states.gameplay_active(),
    ensures
        after_reset(g, false).history == g.history,
        g.history.len() > 0 ==> after_reset(g, false).stopwatch == g.stopwatch && reset_outcome(
            g,
            false,
        ) == Some(Respawn { target: respawn_target(g.history, g.entities), restart: false }),
        g.history.len() == 0 ==> after_reset(g, false).stopwatch == 0,
        after_reset(g, true).history == Seq::<EntityId>::empty(),
        after_reset(g, true).stopwatch == 0,
        reset_outcome(g, true) == Some(Respawn { target: spawn_point(), restart: true }),
{
}

/// The collider passes of a fixed step never set an entity up twice: on a
/// game in which nothing else changes, running them again gives the same
/// game as running them once.
pub proof fn lemma_attach_idempotent(g: GameView)
    ensures
        after_attach(after_attach(g)) == after_attach(g),
{
    lemma_full_pass_idempotent(g.entities, 2);
    assert(crate::scene::full_passes(g.entities, 2) == full_pass(
        crate::scene::full_passes(g.entities, 1),
    ));
    assert(crate::scene::full_passes(g.entities, 1) == full_pass(
        crate::scene::full_passes(g.entities, 0),
    ));
}

/// While the game is held the stopwatch stands still however much time
/// passes, and the fixed step neither changes level nor brings in a scene.
pub proof fn lemma_pause_freezes(g: GameView, delta: nat, asset_ready: bool)
    requires
        g.states.paused == PausedState::Paused,
    ensures
        after_clock(g, delta) == g,
        after_clock(g, delta).stopwatch == g.stopwatch,
        after_advance(g) == g,
        after_spawn(g, asset_ready) == g,
{
}

/// While the game runs, the stopwatch only moves forward.
pub proof fn lemma_stopwatch_monotonic(g: GameView, delta: nat)
    requires
        g.stopwatch <= MAX_NANOS,
    ensures
        after_clock(g, delta).stopwatch >= g.stopwatch,
        g.states.gameplay_active() ==> after_clock(g, delta).stopwatch == ticked(
            g.stopwatch,
            delta,
        ),
{
}

/// Leaving a session always leaves the game running, with no scene and
/// nothing waiting, and finishing the last level leaves a complete record:
/// the slot of the last level holds the reading of the stopwatch.
pub proof fn lemma_finish_ends_run(g: GameView)
    requires
        coherent(g),
        g.states.app == AppState::InGame,
    ensures
        finished(g).states.app == AppState::GameOver,
        finished(g).states.paused == PausedState::Running,
        finished(g).results == g.results.update(g.level - 1, g.stopwatch),
        finished(g).entities == Seq::<SceneEntity>::empty(),
        !finished(g).spawned,
        finished(g).pending.is_none(),
        finished(g).level == 1,
{
}

} // verus!
