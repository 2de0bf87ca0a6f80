//! Small decisions taken on what the player and the engine report each
//! frame.

use vstd::prelude::*;

verus! {

/// What an actor does with the prop in front of it.
#[derive(Clone, Copy, PartialEq, Eq, Structural, Debug)]
pub enum PickupAction {
    Throw,
    Drop,
    Pull,
}

/// The actions the mouse buttons of a frame ask of an actor, in the order in
/// which they are sent: a throw when the left button went down, a drop when
/// the right button went down, a pull for as long as the right button is
/// held.
pub open spec fn pickup_plan(left_down: bool, right_down: bool, right_held: bool) -> Seq<
    PickupAction,
> {
    let throw = if left_down {
        seq![PickupAction::Throw]
    } else {
        Seq::<PickupAction>::empty()
    };
    let drop = if right_down {
        seq![PickupAction::Drop]
    } else {
        Seq::<PickupAction>::empty()
    };
    let pull = if right_held {
        seq![PickupAction::Pull]
    } else {
        Seq::<PickupAction>::empty()
    };
    throw + drop + pull
}

/// Maps the mouse buttons of a frame to the actions sent to one actor.
pub fn handle_input(left_down: bool, right_down: bool, right_held: bool) -> (actions: Vec<
    PickupAction,
>)
    ensures
        actions@ == pickup_plan(left_down, right_down, right_held),
{
    let mut actions: Vec<PickupAction> = Vec::new();
    if left_down {
        actions.push(PickupAction::Throw);
    }
    if right_down {
        actions.push(PickupAction::Drop);
    }
    if right_held {
        actions.push(PickupAction::Pull);
    }
    assert(actions@ =~= pickup_plan(left_down, right_down, right_held));
    actions
}

/// Tells whether an entity with a limited lifetime is removed now: its timer
/// has just run out and the entity is still there.
pub fn cleanup_timed(just_finished: bool, exists: bool) -> (despawn: bool)
    ensures
        despawn == (just_finished && exists),
{
    just_finished && exists
}

/// True when start-up is over: the level registry, the fonts and the effects
/// are in place and no asset is still loading.
pub open spec fn startup_ready(scene: bool, text: bool, effects: bool, pending: bool) -> bool {
    scene && text && effects && !pending
}

/// Tells whether start-up is over and the main menu can be shown.
pub fn loading(scene: bool, text: bool, effects: bool, pending: bool) -> (ready: bool)
    ensures
        ready == startup_ready(scene, text, effects, pending),
{
    if !scene {
        return false;
    }
    if !text {
        return false;
    }
    if !effects {
        return false;
    }
    !pending
}

} // verus!
