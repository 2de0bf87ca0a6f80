use bevy_hop::collider::{
    player_layers, setup_for, ColliderShape, CollisionEvent, CollisionLayer, CollisionLayers,
    RigidBody, Role, ALL_LAYERS, BOOST_FILTERS, PLAYER_FILTERS,
};

const ROLES: [Role; 5] = [Role::Ground, Role::Prop, Role::CheckPoint, Role::SpeedBoost, Role::End];

#[test]
fn layer_bits_follow_declaration_order() {
    assert_eq!(CollisionLayer::Default.to_bits(), 1 << 0);
    assert_eq!(CollisionLayer::Player.to_bits(), 1 << 1);
    assert_eq!(CollisionLayer::Prop.to_bits(), 1 << 2);
    assert_eq!(CollisionLayer::Boost.to_bits(), 1 << 3);
    assert_eq!(CollisionLayer::Checkpoint.to_bits(), 1 << 4);
    assert_eq!(CollisionLayer::End.to_bits(), 1 << 5);
}

#[test]
fn filters_are_unions_of_layer_bits() {
    assert_eq!(BOOST_FILTERS, CollisionLayer::Player.to_bits() | CollisionLayer::Prop.to_bits());
    assert_eq!(
        PLAYER_FILTERS,
        CollisionLayer::Default.to_bits()
            | CollisionLayer::Boost.to_bits()
            | CollisionLayer::Checkpoint.to_bits()
            | CollisionLayer::End.to_bits()
    );
    assert_eq!(ALL_LAYERS, u32::MAX);
}

#[test]
fn ground_is_a_static_triangle_mesh() {
    let s = setup_for(Role::Ground);
    assert_eq!(s.layers, CollisionLayers { memberships: 1, filters: u32::MAX });
    assert_eq!(s.shape, ColliderShape::Trimesh);
    assert_eq!(s.body, Some(RigidBody::Static));
    assert!(!s.interpolated);
    assert_eq!(s.observes, None);
}

#[test]
fn prop_is_a_dynamic_convex_hull() {
    let s = setup_for(Role::Prop);
    assert_eq!(s.layers, CollisionLayers { memberships: 4, filters: u32::MAX });
    assert_eq!(s.shape, ColliderShape::ConvexHull);
    assert_eq!(s.body, Some(RigidBody::Dynamic));
    assert!(s.interpolated);
    assert_eq!(s.observes, None);
}

#[test]
fn boost_pad_observes_the_end_of_a_collision() {
    let s = setup_for(Role::SpeedBoost);
    assert_eq!(s.layers, CollisionLayers { memberships: 8, filters: 2 | 4 });
    assert_eq!(s.shape, ColliderShape::ConvexHull);
    assert_eq!(s.body, None);
    assert!(!s.interpolated);
    assert_eq!(s.observes, Some(CollisionEvent::End));
}

#[test]
fn checkpoint_and_end_observe_the_start_of_a_collision() {
    let c = setup_for(Role::CheckPoint);
    assert_eq!(c.layers, CollisionLayers { memberships: 16, filters: 2 });
    assert_eq!(c.shape, ColliderShape::Trimesh);
    assert_eq!(c.body, None);
    assert_eq!(c.observes, Some(CollisionEvent::Start));
    let e = setup_for(Role::End);
    assert_eq!(e.layers, CollisionLayers { memberships: 32, filters: 2 });
    assert_eq!(e.shape, ColliderShape::Trimesh);
    assert_eq!(e.body, None);
    assert_eq!(e.observes, Some(CollisionEvent::Start));
}

#[test]
fn player_meets_world_and_triggers_but_not_props() {
    let p = player_layers();
    assert_eq!(p, CollisionLayers { memberships: 2, filters: 1 | 8 | 16 | 32 });
    assert!(p.interacts_with(&setup_for(Role::Ground).layers));
    assert!(p.interacts_with(&setup_for(Role::SpeedBoost).layers));
    assert!(p.interacts_with(&setup_for(Role::CheckPoint).layers));
    assert!(p.interacts_with(&setup_for(Role::End).layers));
    assert!(!p.interacts_with(&setup_for(Role::Prop).layers));
}

#[test]
fn scene_interactions_table() {
    let meets = |a: Role, b: Role| setup_for(a).layers.interacts_with(&setup_for(b).layers);
    for a in ROLES {
        for b in ROLES {
            let expected = match (a, b) {
                (Role::Ground, Role::Ground) => true,
                (Role::Ground, Role::Prop) | (Role::Prop, Role::Ground) => true,
                (Role::Prop, Role::Prop) => true,
                (Role::Prop, Role::SpeedBoost) | (Role::SpeedBoost, Role::Prop) => true,
                _ => false,
            };
            assert_eq!(meets(a, b), expected, "{:?} / {:?}", a, b);
            assert_eq!(meets(a, b), meets(b, a));
        }
    }
}

#[test]
fn interaction_needs_both_directions() {
    let a = CollisionLayers { memberships: 0b01, filters: 0b10 };
    let b = CollisionLayers { memberships: 0b10, filters: 0b01 };
    let c = CollisionLayers { memberships: 0b10, filters: 0b10 };
    let none = CollisionLayers { memberships: 0, filters: 0 };
    assert!(a.interacts_with(&b));
    assert!(!a.interacts_with(&c));
    assert!(!c.interacts_with(&a));
    assert!(!a.interacts_with(&none));
    assert!(!a.interacts_with(&a));
}
