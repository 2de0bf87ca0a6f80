//! The physics setup of scene content: which layers, shape and body each
//! role gets, and which bodies meet.

use vstd::prelude::*;

verus! {

/// What a piece of scene content is for. The scene data assigns the role;
/// the physics setup follows from it.
#[derive(Clone, Copy, PartialEq, Eq, Structural, Debug, Hash)]
pub enum Role {
    Ground,
    Prop,
    CheckPoint,
    SpeedBoost,
    End,
}

/// The collision layers of the game. Each has one bit of a layer mask.
#[derive(Clone, Copy, PartialEq, Eq, Structural, Debug, Hash)]
pub enum CollisionLayer {
    Default,
    Player,
    Prop,
    Boost,
    Checkpoint,
    End,
}

/// A layer mask that holds every layer.
pub const ALL_LAYERS: u32 = 0xffff_ffff;

/// The layers the player is willing to meet: the world, boost pads,
/// checkpoints and end zones.
pub const PLAYER_FILTERS: u32 = 57;

/// The layers a boost pad is willing to meet: the player and props.
pub const BOOST_FILTERS: u32 = 6;

/// The layers a body belongs to and the layers it is willing to meet.
#[derive(Clone, Copy, PartialEq, Eq, Structural, Debug)]
pub struct CollisionLayers {
    pub memberships: u32,
    pub filters: u32,
}

/// The shape built from the mesh of an entity.
#[derive(Clone, Copy, PartialEq, Eq, Structural, Debug)]
pub enum ColliderShape {
    /// The convex hull of the mesh; for content that can move.
    ConvexHull,
    /// The triangles of the mesh; for content that stays put.
    Trimesh,
}

/// How the physics engine treats a body.
#[derive(Clone, Copy, PartialEq, Eq, Structural, Debug)]
pub enum RigidBody {
    Dynamic,
    Static,
}

/// The kind of collision event a trigger volume reacts to.
#[derive(Clone, Copy, PartialEq, Eq, Structural, Debug)]
pub enum CollisionEvent {
    /// Two colliders started to touch.
    Start,
    /// Two colliders stopped touching.
    End,
}

/// Everything the physics engine is told about an entity when its collider
/// is attached.
#[derive(Clone, Copy, PartialEq, Eq, Structural, Debug)]
pub struct ColliderSetup {
    pub layers: CollisionLayers,
    pub shape: ColliderShape,
    /// The rigid body, for content that is one. Trigger volumes are not.
    pub body: Option<RigidBody>,
    /// Whether the transform is interpolated between fixed steps.
    pub interpolated: bool,
    /// The collision event the entity observes, if it is a trigger volume.
    pub observes: Option<CollisionEvent>,
}

/// The bit of a layer: bit 0 for the default layer, then one bit each in the
/// order of declaration.
pub open spec fn layer_bit(layer: CollisionLayer) -> u32 {
    match layer {
        CollisionLayer::Default => 1,
        CollisionLayer::Player => 2,
        CollisionLayer::Prop => 4,
        CollisionLayer::Boost => 8,
        CollisionLayer::Checkpoint => 16,
        CollisionLayer::End => 32,
    }
}

/// Two bodies interact when each belongs to a layer the other is willing to
/// meet.
pub open spec fn interacts(a: CollisionLayers, b: CollisionLayers) -> bool {
    (a.memberships & b.filters) != 0 && (b.memberships & a.filters) != 0
}

/// The layers of the player.
pub open spec fn player_layers_of() -> CollisionLayers {
    CollisionLayers { memberships: 2, filters: PLAYER_FILTERS }
}

/// The physics setup of each role.
pub open spec fn setup_of(role: Role) -> ColliderSetup {
    match role {
        Role::Ground => ColliderSetup {
            layers: CollisionLayers { memberships: 1, filters: ALL_LAYERS },
            shape: ColliderShape::Trimesh,
            body: Some(RigidBody::Static),
            interpolated: false,
            observes: None,
        },
        Role::Prop => ColliderSetup {
            layers: CollisionLayers { memberships: 4, filters: ALL_LAYERS },
            shape: ColliderShape::ConvexHull,
            body: Some(RigidBody::Dynamic),
            interpolated: true,
            observes: None,
        },
        Role::CheckPoint => ColliderSetup {
            layers: CollisionLayers { memberships: 16, filters: 2 },
            shape: ColliderShape::Trimesh,
            body: None,
            interpolated: false,
            observes: Some(CollisionEvent::Start),
        },
        Role::SpeedBoost => ColliderSetup {
            layers: CollisionLayers { memberships: 8, filters: BOOST_FILTERS },
            shape: ColliderShape::ConvexHull,
            body: None,
            interpolated: false,
            observes: Some(CollisionEvent::End),
        },
        Role::End => ColliderSetup {
            layers: CollisionLayers { memberships: 32, filters: 2 },
            shape: ColliderShape::Trimesh,
            body: None,
            interpolated: false,
            observes: Some(CollisionEvent::Start),
        },
    }
}

impl CollisionLayer {
    /// The bit of this layer in a layer mask.
    pub fn to_bits(&self) -> (bits: u32)
        ensures
            bits == layer_bit(*self),
    {
        match self {
            CollisionLayer::Default => 1,
            CollisionLayer::Player => 2,
            CollisionLayer::Prop => 4,
            CollisionLayer::Boost => 8,
            CollisionLayer::Checkpoint => 16,
            CollisionLayer::End => 32,
        }
    }
}

impl CollisionLayers {
    /// Tells whether a body with these layers and one with `other` interact.
    pub fn interacts_with(&self, other: &CollisionLayers) -> (r: bool)
        ensures
            r == interacts(*self, *other),
    {
        (self.memberships & other.filters) != 0 && (other.memberships & self.filters) != 0
    }
}

/// The layers of the player.
pub fn player_layers() -> (layers: CollisionLayers)
    ensures
        layers == player_layers_of(),
{
    CollisionLayers { memberships: 2, filters: PLAYER_FILTERS }
}

/// The physics setup to attach to an entity of the given role.
pub fn setup_for(role: Role) -> (setup: ColliderSetup)
    ensures
        setup == setup_of(role),
{
    match role {
        Role::Ground => ColliderSetup {
            layers: CollisionLayers { memberships: 1, filters: ALL_LAYERS },
            shape: ColliderShape::Trimesh,
            body: Some(RigidBody::Static),
            interpolated: false,
            observes: None,
        },
        Role::Prop => ColliderSetup {
            layers: CollisionLayers { memberships: 4, filters: ALL_LAYERS },
            shape: ColliderShape::ConvexHull,
            body: Some(RigidBody::Dynamic),
            interpolated: true,
            observes: None,
        },
        Role::CheckPoint => ColliderSetup {
            layers: CollisionLayers { memberships: 16, filters: 2 },
            shape: ColliderShape::Trimesh,
            body: None,
            interpolated: false,
            observes: Some(CollisionEvent::Start),
        },
        Role::SpeedBoost => ColliderSetup {
            layers: CollisionLayers { memberships: 8, filters: BOOST_FILTERS },
            shape: ColliderShape::ConvexHull,
            body: None,
            interpolated: false,
            observes: Some(CollisionEvent::End),
        },
        Role::End => ColliderSetup {
            layers: CollisionLayers { memberships: 32, filters: 2 },
            shape: ColliderShape::Trimesh,
            body: None,
            interpolated: false,
            observes: Some(CollisionEvent::Start),
        },
    }
}

/// Each role belongs to the one layer named after it, and the two filters
/// that name several layers are the union of the bits of those layers.
pub proof fn lemma_masks_name_layers()
    ensures
        setup_of(Role::Ground).layers.memberships == layer_bit(CollisionLayer::Default),
        setup_of(Role::Prop).layers.memberships == layer_bit(CollisionLayer::Prop),
        setup_of(Role::CheckPoint).layers.memberships == layer_bit(CollisionLayer::Checkpoint),
        setup_of(Role::SpeedBoost).layers.memberships == layer_bit(CollisionLayer::Boost),
        setup_of(Role::End).layers.memberships == layer_bit(CollisionLayer::End),
        player_layers_of().memberships == layer_bit(CollisionLayer::Player),
        setup_of(Role::CheckPoint).layers.filters == layer_bit(CollisionLayer::Player),
        setup_of(Role::End).layers.filters == layer_bit(CollisionLayer::Player),
        BOOST_FILTERS == layer_bit(CollisionLayer::Player) | layer_bit(CollisionLayer::Prop),
        PLAYER_FILTERS == layer_bit(CollisionLayer::Default) | layer_bit(CollisionLayer::Boost)
            | layer_bit(CollisionLayer::Checkpoint) | layer_bit(CollisionLayer::End),
{
    assert(6u32 == 2u32 | 4u32 && 57u32 == 1u32 | 8u32 | 16u32 | 32u32) by (bit_vector);
}

/// The player meets the ground, boost pads, checkpoints and end zones, and
/// passes through props.
pub proof fn lemma_player_interactions()
    ensures
        interacts(player_layers_of(), setup_of(Role::Ground).layers),
        interacts(player_layers_of(), setup_of(Role::SpeedBoost).layers),
        interacts(player_layers_of(), setup_of(Role::CheckPoint).layers),
        interacts(player_layers_of(), setup_of(Role::End).layers),
        !interacts(player_layers_of(), setup_of(Role::Prop).layers),
{
    assert(2u32 & 0xffff_ffffu32 != 0 && 1u32 & 57u32 != 0 && 2u32 & 6u32 != 0 && 8u32 & 57u32
        != 0 && 2u32 & 2u32 != 0 && 16u32 & 57u32 != 0 && 32u32 & 57u32 != 0 && 4u32 & 57u32
        == 0) by (bit_vector);
}

/// Among scene content, a checkpoint or an end zone meets nothing: only the
/// player sets them off. A boost pad meets props and nothing else. Ground
/// and props meet each other and their own kind.
pub proof fn lemma_scene_interactions(a: Role, b: Role)
    ensures
        interacts(setup_of(a).layers, setup_of(b).layers) == interacts(
            setup_of(b).layers,
            setup_of(a).layers,
        ),
        a == Role::CheckPoint || a == Role::End ==> !interacts(
            setup_of(a).layers,
            setup_of(b).layers,
        ),
        a == Role::SpeedBoost ==> (interacts(setup_of(a).layers, setup_of(b).layers) <==> b
            == Role::Prop),
        a == Role::Ground ==> (interacts(setup_of(a).layers, setup_of(b).layers) <==> b
            == Role::Ground || b == Role::Prop),
        a == Role::Prop ==> (interacts(setup_of(a).layers, setup_of(b).layers) <==> b
            == Role::Ground || b == Role::Prop || b == Role::SpeedBoost),
{
    assert(1u32 & 0xffff_ffffu32 != 0 && 4u32 & 0xffff_ffffu32 != 0 && 8u32 & 0xffff_ffffu32 != 0
        && 16u32 & 0xffff_ffffu32 != 0 && 32u32 & 0xffff_ffffu32 != 0 && 1u32 & 2u32 == 0 && 4u32
        & 2u32 == 0 && 8u32 & 2u32 == 0 && 16u32 & 2u32 == 0 && 32u32 & 2u32 == 0 && 1u32 & 6u32
        == 0 && 4u32 & 6u32 != 0 && 8u32 & 6u32 == 0 && 16u32 & 6u32 == 0 && 32u32 & 6u32 == 0)
        by (bit_vector);
}

} // verus!
