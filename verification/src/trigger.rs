//! The reactions of trigger volumes to collision events.

use vstd::prelude::*;
use crate::collider::{setup_of, CollisionEvent, Role};
use crate::level::{level_in_range, CurrentLevel, SpawnLevel, LEVEL_COUNT};
use crate::space::Point;

verus! {

/// The reactions a trigger volume can have to a collision event.
#[derive(Clone, Copy, PartialEq, Eq, Structural, Debug)]
pub enum Trigger {
    /// A checkpoint was touched.
    Checkpoint,
    /// A boost pad was left.
    Boost,
    /// The end zone was touched.
    EndZone,
}

/// What touching the end zone leads to.
#[derive(Clone, Copy, PartialEq, Eq, Structural, Debug)]
pub enum EndOutcome {
    /// The zone was touched from below its anchor: nothing happens.
    Ignored,
    /// The run goes on with the level named.
    Advance(SpawnLevel),
    /// The last level was finished: the run is over.
    Finished,
}

/// The dispatch table: which reaction an entity of a role has to a kind of
/// collision event.
pub open spec fn handler_of(role: Role, event: CollisionEvent) -> Option<Trigger> {
    match (role, event) {
        (Role::CheckPoint, CollisionEvent::Start) => Some(Trigger::Checkpoint),
        (Role::End, CollisionEvent::Start) => Some(Trigger::EndZone),
        (Role::SpeedBoost, CollisionEvent::End) => Some(Trigger::Boost),
        _ => None,
    }
}

/// What touching the end zone of `level` leads to, for a player at `player`
/// and a zone anchored at `anchor`.
pub open spec fn end_outcome(level: int, player: Point, anchor: Point) -> EndOutcome {
    if !player.at_or_above(anchor) {
        EndOutcome::Ignored
    } else if level < LEVEL_COUNT {
        EndOutcome::Advance(SpawnLevel { level: (level + 1) as usize, restart: false })
    } else {
        EndOutcome::Finished
    }
}

/// Looks up the reaction of an entity of `role` to `event`.
pub fn dispatch(role: Role, event: CollisionEvent) -> (r: Option<Trigger>)
    ensures
        r == handler_of(role, event),
{
    match (role, event) {
        (Role::CheckPoint, CollisionEvent::Start) => Some(Trigger::Checkpoint),
        (Role::End, CollisionEvent::Start) => Some(Trigger::EndZone),
        (Role::SpeedBoost, CollisionEvent::End) => Some(Trigger::Boost),
        _ => None,
    }
}

/// Tells whether touching a checkpoint counts: the player has to be level
/// with its anchor or above it. Level geometry lets a checkpoint be brushed
/// from below or from the side, and that earns nothing.
pub fn checkpoint_crossing(player: &Point, anchor: &Point) -> (valid: bool)
    ensures
        valid == player.at_or_above(*anchor),
{
    player.is_at_or_above(anchor)
}

/// Decides what touching the end zone of the level being played leads to.
/// A touch from below is ignored. Otherwise every level but the last hands over
/// to the next one, and the last one ends the run.
pub fn end_zone_crossing(level: &CurrentLevel, player: &Point, anchor: &Point) -> (outcome:
    EndOutcome)
    ensures
        outcome == end_outcome(level@, *player, *anchor),
        outcome == EndOutcome::Finished <==> player.at_or_above(*anchor) && level@ == LEVEL_COUNT,
        outcome matches EndOutcome::Advance(next) ==> next.level == level@ + 1 && level_in_range(
            next.level as int,
        ) && !next.restart,
{
    if !player.is_at_or_above(anchor) {
        EndOutcome::Ignored
    } else {
        match level.next() {
            Some(next) => EndOutcome::Advance(SpawnLevel { level: next, restart: false }),
            None => EndOutcome::Finished,
        }
    }
}

/// The dispatch table and the physics setup agree: a role reacts to a kind
/// of event exactly when its setup observes that kind.
pub proof fn lemma_dispatch_matches_setup(role: Role, event: CollisionEvent)
    ensures
        handler_of(role, event).is_some() <==> setup_of(role).observes == Some(event),
{
}

/// Touching the end zone of any level from its anchor or above hands over to
/// the level after it, or ends the run, and it ends the run exactly on the
/// last level.
pub proof fn lemma_end_zone_advances_or_finishes(level: int, player: Point, anchor: Point)
    requires
        level_in_range(level),
        player.at_or_above(anchor),
    ensures
        level < LEVEL_COUNT ==> end_outcome(level, player, anchor) == EndOutcome::Advance(
            SpawnLevel { level: (level + 1) as usize, restart: false },
        ),
        end_outcome(level, player, anchor) == EndOutcome::Finished <==> level == LEVEL_COUNT,
        end_outcome(level, player, anchor) != EndOutcome::Ignored,
{
}

} // verus!
