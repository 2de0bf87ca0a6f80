//! The content of the level being played and the passes that attach its
//! colliders.

use vstd::prelude::*;
use crate::collider::{setup_of, setup_for, ColliderSetup, Role};
use crate::history::EntityId;
use crate::space::Point;

verus! {

/// What is known of the mesh of an entity. Meshes stream in on their own
/// schedule, so an entity may be in the scene before its mesh is usable.
#[derive(Clone, Copy, PartialEq, Eq, Structural, Debug)]
pub enum Geometry {
    /// The mesh has not arrived.
    Missing,
    /// The mesh arrived but no collider can be built from it.
    Degenerate,
    /// A collider can be built from the mesh.
    Ready,
}

/// Fewest vertices a mesh needs for a collider: one triangle.
pub const MIN_VERTICES: usize = 3;

/// What a mesh with this many vertices is good for; `None` stands for a mesh
/// that has not arrived.
pub open spec fn geometry_of(vertices: Option<usize>) -> Geometry {
    match vertices {
        None => Geometry::Missing,
        Some(n) => if n < MIN_VERTICES {
            Geometry::Degenerate
        } else {
            Geometry::Ready
        },
    }
}

impl Geometry {
    /// Judges a mesh by its number of vertices; `None` stands for a mesh
    /// that has not arrived.
    pub fn classify(vertices: Option<usize>) -> (g: Geometry)
        ensures
            g == geometry_of(vertices),
    {
        match vertices {
            None => Geometry::Missing,
            Some(n) => if n < MIN_VERTICES {
                Geometry::Degenerate
            } else {
                Geometry::Ready
            },
        }
    }
}

/// One piece of scene content with a role.
#[derive(Clone, Copy, PartialEq, Eq, Structural, Debug)]
pub struct SceneEntity {
    pub id: EntityId,
    pub role: Role,
    /// Where the entity stands in the world.
    pub anchor: Point,
    pub geometry: Geometry,
    /// The physics setup, once attached. An entity with one is ready and is
    /// never set up again.
    pub collider: Option<ColliderSetup>,
}

/// Instruction to the physics engine: give `entity` this setup.
#[derive(Clone, Copy, PartialEq, Eq, Structural, Debug)]
pub struct Attachment {
    pub entity: EntityId,
    pub setup: ColliderSetup,
}

/// No two entities share an identifier.
pub open spec fn distinct_ids(s: Seq<SceneEntity>) -> bool {
    forall|i: int, j: int| 0 <= i < j < s.len() ==> s[i].id != s[j].id
}

/// True when an entity with this identifier is in the scene.
pub open spec fn contains_id(s: Seq<SceneEntity>, id: EntityId) -> bool {
    exists|i: int| 0 <= i < s.len() && #[trigger] s[i].id == id
}

/// True when `i` is the first place in scene order that holds an entity with
/// this identifier.
pub open spec fn is_first(s: Seq<SceneEntity>, id: EntityId, i: int) -> bool {
    &&& 0 <= i < s.len()
    &&& s[i].id == id
    &&& forall|j: int| 0 <= j < i ==> (#[trigger] s[j]).id != id
}

/// The place in scene order of the entity with this identifier. It means
/// something only when the scene holds such an entity.
pub open spec fn position(s: Seq<SceneEntity>, id: EntityId) -> int {
    choose|i: int| is_first(s, id, i)
}

/// The entity with this identifier, if it is in the scene.
pub open spec fn lookup(s: Seq<SceneEntity>, id: EntityId) -> Option<SceneEntity> {
    if contains_id(s, id) {
        Some(s[position(s, id)])
    } else {
        None
    }
}

/// Where the entity with this identifier stands, if it is in the scene.
pub open spec fn anchor_of(s: Seq<SceneEntity>, id: EntityId) -> Option<Point> {
    match lookup(s, id) {
        Some(e) => Some(e.anchor),
        None => None,
    }
}

/// True when a pass for `role` sets this entity up: it has the role, it is
/// not ready yet, and its mesh is usable.
pub open spec fn attachable(e: SceneEntity, role: Role) -> bool {
    e.role == role && e.collider.is_none() && e.geometry == Geometry::Ready
}

/// One entity after a pass for `role`.
pub open spec fn attached(e: SceneEntity, role: Role) -> SceneEntity {
    if attachable(e, role) {
        SceneEntity { collider: Some(setup_of(role)), ..e }
    } else {
        e
    }
}

/// The scene after a pass for `role`: every entity the pass can set up has
/// its setup, and nothing else has changed.
pub open spec fn pass(s: Seq<SceneEntity>, role: Role) -> Seq<SceneEntity> {
    Seq::new(s.len(), |i: int| attached(s[i], role))
}

/// The instructions a pass for `role` gives, in scene order.
pub open spec fn attachments(s: Seq<SceneEntity>, role: Role) -> Seq<Attachment>
    decreases s.len(),
{
    if s.len() == 0 {
        Seq::empty()
    } else if attachable(s.last(), role) {
        attachments(s.drop_last(), role).push(
            Attachment { entity: s.last().id, setup: setup_of(role) },
        )
    } else {
        attachments(s.drop_last(), role)
    }
}

/// The scene after the passes for all roles.
pub open spec fn full_pass(s: Seq<SceneEntity>) -> Seq<SceneEntity> {
    pass(
        pass(pass(pass(pass(s, Role::Prop), Role::Ground), Role::SpeedBoost), Role::End),
        Role::CheckPoint,
    )
}

/// The instructions the passes for all roles give, pass by pass.
pub open spec fn full_attachments(s: Seq<SceneEntity>) -> Seq<Attachment> {
    attachments(s, Role::Prop) + attachments(s, Role::Ground) + attachments(s, Role::SpeedBoost)
        + attachments(s, Role::End) + attachments(s, Role::CheckPoint)
}

/// The scene after `n` rounds of passes for all roles.
pub open spec fn full_passes(s: Seq<SceneEntity>, n: nat) -> Seq<SceneEntity>
    decreases n,
{
    if n == 0 {
        s
    } else {
        full_pass(full_passes(s, (n - 1) as nat))
    }
}

/// True when nothing is left for any pass to do, as long as no mesh arrives.
pub open spec fn settled(s: Seq<SceneEntity>) -> bool {
    forall|i: int| 0 <= i < s.len() ==> !attachable(#[trigger] s[i], s[i].role)
}

/// The content of the level being played.
#[derive(Debug)]
pub struct Scene {
    entities: Vec<SceneEntity>,
}

impl View for Scene {
    type V = Seq<SceneEntity>;

    closed spec fn view(&self) -> Seq<SceneEntity> {
        self.entities@
    }
}

impl Scene {
    /// No two entities of the scene share an identifier. A new scene is well
    /// formed and every operation keeps it so.
    pub open spec fn wf(&self) -> bool {
        distinct_ids(self@)
    }

    /// A scene with nothing in it.
    pub fn new() -> (s: Scene)
        ensures
            s@ == Seq::<SceneEntity>::empty(),
            s.wf(),
    {
        Scene { entities: Vec::new() }
    }

    /// Number of entities in the scene.
    pub fn len(&self) -> (n: usize)
        ensures
            n == self@.len(),
    {
        self.entities.len()
    }

    /// Position of the entity with this identifier in scene order.
    fn find(&self, id: EntityId) -> (r: Option<usize>)
        ensures
            match r {
                Some(i) => is_first(self@, id, i as int) && position(self@, id) == i && lookup(
                    self@,
                    id,
                ) == Some(self@[i as int]),
                None => !contains_id(self@, id) && lookup(self@, id).is_none(),
            },
    {
        let mut i: usize = 0;
        while i < self.entities.len()
            invariant
                i <= self.entities@.len(),
                forall|j: int| 0 <= j < i ==> (#[trigger] self.entities@[j]).id != id,
            decreases self.entities@.len() - i,
        {
            if self.entities[i].id == id {
                proof {
                    lemma_first_is_lookup(self@, id, i as int);
                }
                return Some(i);
            }
            i = i + 1;
        }
        None
    }

    /// The entity with this identifier, if it is in the scene.
    pub fn get(&self, id: EntityId) -> (r: Option<SceneEntity>)
        ensures
            r == lookup(self@, id),
            r.is_some() == contains_id(self@, id),
            r matches Some(e) ==> e.id == id,
    {
        match self.find(id) {
            Some(i) => Some(self.entities[i]),
            None => None,
        }
    }

    /// Where the entity with this identifier stands, if it is in the scene.
    pub fn anchor(&self, id: EntityId) -> (r: Option<Point>)
        ensures
            r == anchor_of(self@, id),
    {
        match self.find(id) {
            Some(i) => Some(self.entities[i].anchor),
            None => None,
        }
    }

    /// Adds an entity without a collider. An identifier already in the scene
    /// is refused and the scene stays as it was.
    pub fn spawn(&mut self, id: EntityId, role: Role, anchor: Point, geometry: Geometry) -> (added:
        bool)
        ensures
            added == !contains_id(old(self)@, id),
            old(self).wf() ==> final(self).wf(),
            final(self)@ == if added {
                old(self)@.push(
                    SceneEntity { id: id, role: role, anchor: anchor, geometry: geometry, collider: None },
                )
            } else {
                old(self)@
            },
    {
        match self.find(id) {
            Some(_) => false,
            None => {
                self.entities.push(
                    SceneEntity { id: id, role: role, anchor: anchor, geometry: geometry, collider: None },
                );
                true
            },
        }
    }

    /// Records what is now known of the mesh of an entity. Returns false,
    /// and changes nothing, when the entity is not in the scene.
    pub fn set_geometry(&mut self, id: EntityId, geometry: Geometry) -> (found: bool)
        ensures
            found == contains_id(old(self)@, id),
            old(self).wf() ==> final(self).wf(),
            final(self)@ == match lookup(old(self)@, id) {
                Some(e) => old(self)@.update(
                    position(old(self)@, id),
                    SceneEntity { geometry: geometry, ..e },
                ),
                None => old(self)@,
            },
    {
        match self.find(id) {
            Some(i) => {
                let e: SceneEntity = self.entities[i];
                self.entities.set(i, SceneEntity { geometry: geometry, ..e });
                true
            },
            None => false,
        }
    }

    /// Removes every entity: the scene root was despawned.
    pub fn clear(&mut self)
        ensures
            final(self)@ == Seq::<SceneEntity>::empty(),
            final(self).wf(),
    {
        self.entities.clear();
    }

    /// Runs the pass for one role: every entity of that role that is not
    /// ready and has a usable mesh gets its setup and becomes ready. An
    /// entity whose mesh is missing or degenerate is skipped and will be
    /// tried again by the next pass. Returns the setups to hand to the
    /// physics engine, in scene order.
    pub fn attach_role(&mut self, role: Role) -> (made: Vec<Attachment>)
        ensures
            final(self)@ == pass(old(self)@, role),
            made@ == attachments(old(self)@, role),
            old(self).wf() ==> final(self).wf(),
    {
        let mut made: Vec<Attachment> = Vec::new();
        let setup: ColliderSetup = setup_for(role);
        let n: usize = self.entities.len();
        let mut i: usize = 0;
        while i < n
            invariant
                i <= n,
                n == old(self)@.len(),
                self.entities@.len() == n,
                setup == setup_of(role),
                forall|j: int| 0 <= j < i ==> #[trigger] self.entities@[j] == attached(old(self)@[j], role),
                forall|j: int| i <= j < n ==> #[trigger] self.entities@[j] == old(self)@[j],
                made@ == attachments(old(self)@.take(i as int), role),
            decreases n - i,
        {
            let e: SceneEntity = self.entities[i];
            proof {
                assert(old(self)@.take(i + 1).drop_last() =~= old(self)@.take(i as int));
                assert(old(self)@.take(i + 1).last() == old(self)@[i as int]);
            }
            if e.role == role && e.collider.is_none() && e.geometry == Geometry::Ready {
                self.entities.set(i, SceneEntity { collider: Some(setup), ..e });
                made.push(Attachment { entity: e.id, setup: setup });
            }
            i = i + 1;
        }
        proof {
            assert(old(self)@.take(n as int) =~= old(self)@);
            assert(self@ =~= pass(old(self)@, role));
        }
        made
    }

    /// Runs the passes for all roles, one after the other. Once every entity
    /// with a usable mesh is ready the passes do nothing.
    pub fn attach_all(&mut self) -> (made: Vec<Attachment>)
        ensures
            final(self)@ == full_pass(old(self)@),
            made@ == full_attachments(old(self)@),
            old(self).wf() ==> final(self).wf(),
    {
        let mut made: Vec<Attachment> = self.attach_role(Role::Prop);
        let mut ground: Vec<Attachment> = self.attach_role(Role::Ground);
        let mut boost: Vec<Attachment> = self.attach_role(Role::SpeedBoost);
        let mut end: Vec<Attachment> = self.attach_role(Role::End);
        let mut checkpoint: Vec<Attachment> = self.attach_role(Role::CheckPoint);
        proof {
            let s0 = old(self)@;
            let s1 = pass(s0, Role::Prop);
            let s2 = pass(s1, Role::Ground);
            let s3 = pass(s2, Role::SpeedBoost);
            let s4 = pass(s3, Role::End);
            lemma_attachments_after_other_pass(s0, Role::Prop, Role::Ground);
            lemma_attachments_after_other_pass(s0, Role::Prop, Role::SpeedBoost);
            lemma_attachments_after_other_pass(s1, Role::Ground, Role::SpeedBoost);
            lemma_attachments_after_other_pass(s0, Role::Prop, Role::End);
            lemma_attachments_after_other_pass(s1, Role::Ground, Role::End);
            lemma_attachments_after_other_pass(s2, Role::SpeedBoost, Role::End);
            lemma_attachments_after_other_pass(s0, Role::Prop, Role::CheckPoint);
            lemma_attachments_after_other_pass(s1, Role::Ground, Role::CheckPoint);
            lemma_attachments_after_other_pass(s2, Role::SpeedBoost, Role::CheckPoint);
            lemma_attachments_after_other_pass(s3, Role::End, Role::CheckPoint);
        }
        made.append(&mut ground);
        made.append(&mut boost);
        made.append(&mut end);
        made.append(&mut checkpoint);
        made
    }

    /// Tells whether the passes have nothing left to do: every entity is
    /// ready or waits for a usable mesh.
    pub fn is_settled(&self) -> (r: bool)
        ensures
            r == settled(self@),
    {
        let mut i: usize = 0;
        while i < self.entities.len()
            invariant
                i <= self.entities@.len(),
                forall|j: int|
                    0 <= j < i ==> !attachable(#[trigger] self.entities@[j], self.entities@[j].role),
            decreases self.entities@.len() - i,
        {
            let e: SceneEntity = self.entities[i];
            if e.collider.is_none() && e.geometry == Geometry::Ready {
                return false;
            }
            i = i + 1;
        }
        true
    }
}

/// The first entity with an identifier is the one a lookup gives.
pub proof fn lemma_first_is_lookup(s: Seq<SceneEntity>, id: EntityId, i: int)
    requires
        is_first(s, id, i),
    ensures
        contains_id(s, id),
        position(s, id) == i,
        lookup(s, id) == Some(s[i]),
{
    let k = choose|k: int| is_first(s, id, k);
    assert(is_first(s, id, k));
    if k < i {
        assert(s[k].id != id);
    } else if i < k {
        assert(s[i].id != id);
    }
}

/// A pass for one role does not change what a pass for another role does.
pub proof fn lemma_attachments_after_other_pass(s: Seq<SceneEntity>, first: Role, second: Role)
    requires
        first != second,
    ensures
        attachments(pass(s, first), second) == attachments(s, second),
    decreases s.len(),
{
    if s.len() > 0 {
        assert(pass(s, first).drop_last() =~= pass(s.drop_last(), first));
        lemma_attachments_after_other_pass(s.drop_last(), first, second);
    }
}

/// A pass keeps the entities, their order, their identifiers, roles, places
/// and meshes: it only ever adds a setup to an entity that had none.
pub proof fn lemma_pass_only_attaches(s: Seq<SceneEntity>, role: Role)
    ensures
        pass(s, role).len() == s.len(),
        distinct_ids(s) ==> distinct_ids(pass(s, role)),
        forall|i: int|
            0 <= i < s.len() ==> {
                let before = #[trigger] s[i];
                let after = pass(s, role)[i];
                &&& after.id == before.id
                &&& after.role == before.role
                &&& after.anchor == before.anchor
                &&& after.geometry == before.geometry
                &&& before.collider.is_some() ==> after == before
                &&& after.collider.is_some() ==> after.collider == Some(setup_of(after.role))
                    || after == before
            },
{
}

/// Running the pass for a role a second time changes nothing and gives no
/// instruction: no entity is set up twice.
pub proof fn lemma_pass_idempotent(s: Seq<SceneEntity>, role: Role)
    ensures
        pass(pass(s, role), role) == pass(s, role),
        attachments(pass(s, role), role) == Seq::<Attachment>::empty(),
    decreases s.len(),
{
    assert(pass(pass(s, role), role) =~= pass(s, role));
    if s.len() > 0 {
        assert(pass(s, role).drop_last() =~= pass(s.drop_last(), role));
        lemma_pass_idempotent(s.drop_last(), role);
    }
}

/// The passes for two roles give the same scene in either order.
pub proof fn lemma_pass_order_independent(s: Seq<SceneEntity>, a: Role, b: Role)
    ensures
        pass(pass(s, a), b) == pass(pass(s, b), a),
{
    assert(pass(pass(s, a), b) =~= pass(pass(s, b), a));
}

/// After the passes for all roles each entity that had no setup and a usable
/// mesh has the setup of its role, and every other entity is as it was.
pub proof fn lemma_full_pass_pointwise(s: Seq<SceneEntity>)
    ensures
        full_pass(s).len() == s.len(),
        forall|i: int| 0 <= i < s.len() ==> #[trigger] full_pass(s)[i] == attached(s[i], s[i].role),
        settled(full_pass(s)),
{
}

/// Running the passes for all roles any number of times, on a scene in which
/// no mesh changes, leaves the scene as one round leaves it, and every round
/// after the first gives no instruction.
pub proof fn lemma_full_pass_idempotent(s: Seq<SceneEntity>, n: nat)
    requires
        n >= 1,
    ensures
        full_passes(s, n) == full_pass(s),
        full_attachments(full_pass(s)) == Seq::<Attachment>::empty(),
    decreases n,
{
    lemma_full_pass_pointwise(s);
    lemma_full_pass_pointwise(full_pass(s));
    assert(full_pass(full_pass(s)) =~= full_pass(s));
    lemma_settled_gives_nothing(full_pass(s), Role::Prop);
    lemma_settled_gives_nothing(full_pass(s), Role::Ground);
    lemma_settled_gives_nothing(full_pass(s), Role::SpeedBoost);
    lemma_settled_gives_nothing(full_pass(s), Role::End);
    lemma_settled_gives_nothing(full_pass(s), Role::CheckPoint);
    if n > 1 {
        lemma_full_pass_idempotent(s, (n - 1) as nat);
    } else {
        assert(full_passes(s, 0) == s);
    }
}

/// On a settled scene a pass changes nothing and gives no instruction.
pub proof fn lemma_settled_gives_nothing(s: Seq<SceneEntity>, role: Role)
    requires
        settled(s),
    ensures
        pass(s, role) == s,
        attachments(s, role) == Seq::<Attachment>::empty(),
    decreases s.len(),
{
    assert(pass(s, role) =~= s);
    if s.len() > 0 {
        assert(forall|i: int| 0 <= i < s.drop_last().len() ==> s.drop_last()[i] == s[i]);
        assert(!attachable(s[s.len() - 1], s[s.len() - 1].role));
        lemma_settled_gives_nothing(s.drop_last(), role);
    }
}

} // verus!
