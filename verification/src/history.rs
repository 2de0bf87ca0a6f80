//! The checkpoints crossed in an attempt.

use vstd::prelude::*;
use crate::scene::{anchor_of, Scene, SceneEntity};
use crate::space::Point;

verus! {

/// Identifier of an entity of the scene. It stays the same for as long as the
/// entity lives and is not given to another entity afterwards.
pub type EntityId = u64;

/// The checkpoints crossed in the current attempt, oldest first. A checkpoint
/// crossed again is recorded again: only the last entry decides where the
/// player respawns.
#[derive(Debug)]
pub struct History(pub Vec<EntityId>);

impl View for History {
    type V = Seq<EntityId>;

    open spec fn view(&self) -> Seq<EntityId> {
        self.0@
    }
}

/// The checkpoint that decides the respawn: the one crossed last, if any.
pub open spec fn last_of(crossed: Seq<EntityId>) -> Option<EntityId> {
    if crossed.len() == 0 {
        None
    } else {
        Some(crossed.last())
    }
}

/// Where the checkpoint crossed last stands, if there is one and it is still
/// in the scene, and `default_point` otherwise.
pub open spec fn resolved_or(
    crossed: Seq<EntityId>,
    entities: Seq<SceneEntity>,
    default_point: Point,
) -> Point {
    match last_of(crossed) {
        Some(id) => match anchor_of(entities, id) {
            Some(anchor) => anchor,
            None => default_point,
        },
        None => default_point,
    }
}

impl History {
    /// An attempt with no checkpoint crossed yet.
    pub fn new() -> (h: History)
        ensures
            h@ == Seq::<EntityId>::empty(),
    {
        History(Vec::new())
    }

    /// Records a crossing at the end. Nothing is removed or reordered.
    pub fn push(&mut self, checkpoint: EntityId)
        ensures
            final(self)@ == old(self)@.push(checkpoint),
            last_of(final(self)@) == Some(checkpoint),
    {
        self.0.push(checkpoint);
    }

    /// Forgets every crossing.
    pub fn clear(&mut self)
        ensures
            final(self)@ == Seq::<EntityId>::empty(),
    {
        self.0.clear();
    }

    /// Tells whether no checkpoint has been crossed.
    pub fn empty(&self) -> (r: bool)
        ensures
            r == (self@.len() == 0),
    {
        self.0.len() == 0
    }

    /// Number of recorded crossings.
    pub fn len(&self) -> (n: usize)
        ensures
            n == self@.len(),
    {
        self.0.len()
    }

    /// Where the checkpoint crossed last stands. A checkpoint may have left
    /// the scene with its level; then, and when no checkpoint was crossed,
    /// the answer is `default_point`.
    pub fn last_or(&self, scene: &Scene, default_point: Point) -> (p: Point)
        ensures
            p == resolved_or(self@, scene@, default_point),
    {
        match self.last() {
            Some(id) => match scene.anchor(id) {
                Some(anchor) => anchor,
                None => default_point,
            },
            None => default_point,
        }
    }

    /// The checkpoint crossed last, if any.
    pub fn last(&self) -> (r: Option<EntityId>)
        ensures
            r == last_of(self@),
    {
        let n: usize = self.0.len();
        if n == 0 {
            None
        } else {
            Some(self.0[n - 1])
        }
    }
}

} // verus!
