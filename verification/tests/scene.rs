use bevy_hop::collider::{setup_for, Role};
use bevy_hop::scene::{Attachment, Geometry, Scene, SceneEntity};
use bevy_hop::space::Point;

fn at(y: i64) -> Point {
    Point { x: 0, y, z: 0 }
}

fn sample() -> Scene {
    let mut s = Scene::new();
    assert!(s.spawn(1, Role::Ground, at(0), Geometry::Ready));
    assert!(s.spawn(2, Role::Prop, at(1), Geometry::Ready));
    assert!(s.spawn(3, Role::SpeedBoost, at(2), Geometry::Missing));
    assert!(s.spawn(4, Role::CheckPoint, at(3), Geometry::Ready));
    assert!(s.spawn(5, Role::End, at(4), Geometry::Degenerate));
    assert!(s.spawn(6, Role::Prop, at(5), Geometry::Ready));
    s
}

#[test]
fn spawn_refuses_a_known_identifier() {
    let mut s = Scene::new();
    assert!(s.spawn(1, Role::Ground, at(0), Geometry::Ready));
    assert!(!s.spawn(1, Role::Prop, at(9), Geometry::Missing));
    assert_eq!(s.len(), 1);
    let e = s.get(1).unwrap();
    assert_eq!(e.role, Role::Ground);
    assert_eq!(e.anchor, at(0));
    assert_eq!(e.collider, None);
}

#[test]
fn get_and_anchor_resolve_entities() {
    let s = sample();
    assert_eq!(s.len(), 6);
    assert_eq!(s.anchor(4), Some(at(3)));
    assert_eq!(s.anchor(40), None);
    assert_eq!(s.get(40), None);
    assert_eq!(
        s.get(3),
        Some(SceneEntity {
            id: 3,
            role: Role::SpeedBoost,
            anchor: at(2),
            geometry: Geometry::Missing,
            collider: None
        })
    );
}

#[test]
fn pass_attaches_one_role_only() {
    let mut s = sample();
    let made = s.attach_role(Role::Prop);
    assert_eq!(
        made,
        vec![
            Attachment { entity: 2, setup: setup_for(Role::Prop) },
            Attachment { entity: 6, setup: setup_for(Role::Prop) },
        ]
    );
    assert_eq!(s.get(2).unwrap().collider, Some(setup_for(Role::Prop)));
    assert_eq!(s.get(6).unwrap().collider, Some(setup_for(Role::Prop)));
    assert_eq!(s.get(1).unwrap().collider, None);
    assert_eq!(s.get(4).unwrap().collider, None);
}

#[test]
fn pass_is_idempotent() {
    let mut s = sample();
    assert_eq!(s.attach_role(Role::Prop).len(), 2);
    let snapshot: Vec<_> = (1..=6).map(|id| s.get(id)).collect();
    for _ in 0..5 {
        assert_eq!(s.attach_role(Role::Prop), vec![]);
        let again: Vec<_> = (1..=6).map(|id| s.get(id)).collect();
        assert_eq!(again, snapshot);
    }
}

#[test]
fn full_pass_skips_unusable_meshes_and_retries() {
    let mut s = sample();
    let made = s.attach_all();
    // passes run role by role: props, ground, boost pads, end zones, checkpoints
    assert_eq!(
        made,
        vec![
            Attachment { entity: 2, setup: setup_for(Role::Prop) },
            Attachment { entity: 6, setup: setup_for(Role::Prop) },
            Attachment { entity: 1, setup: setup_for(Role::Ground) },
            Attachment { entity: 4, setup: setup_for(Role::CheckPoint) },
        ]
    );
    assert!(s.is_settled());
    assert_eq!(s.get(3).unwrap().collider, None);
    assert_eq!(s.get(5).unwrap().collider, None);
    // nothing more to do until a mesh arrives
    assert_eq!(s.attach_all(), vec![]);
    assert!(s.set_geometry(3, Geometry::Ready));
    assert!(!s.is_settled());
    assert_eq!(s.attach_all(), vec![Attachment { entity: 3, setup: setup_for(Role::SpeedBoost) }]);
    assert!(s.set_geometry(5, Geometry::Ready));
    assert_eq!(s.attach_all(), vec![Attachment { entity: 5, setup: setup_for(Role::End) }]);
    assert!(s.is_settled());
    assert_eq!(s.attach_all(), vec![]);
}

#[test]
fn full_pass_n_times_equals_once() {
    let mut once = sample();
    once.attach_all();
    let mut many = sample();
    for _ in 0..7 {
        many.attach_all();
    }
    for id in 1..=6 {
        assert_eq!(once.get(id), many.get(id));
    }
}

#[test]
fn passes_commute_across_roles() {
    let mut a = sample();
    a.attach_role(Role::Ground);
    a.attach_role(Role::CheckPoint);
    let mut b = sample();
    b.attach_role(Role::CheckPoint);
    b.attach_role(Role::Ground);
    for id in 1..=6 {
        assert_eq!(a.get(id), b.get(id));
    }
}

#[test]
fn set_geometry_on_a_missing_entity() {
    let mut s = sample();
    assert!(!s.set_geometry(77, Geometry::Ready));
    assert_eq!(s.len(), 6);
    assert!(s.set_geometry(2, Geometry::Degenerate));
    assert_eq!(s.get(2).unwrap().geometry, Geometry::Degenerate);
    assert_eq!(s.attach_role(Role::Prop), vec![Attachment { entity: 6, setup: setup_for(Role::Prop) }]);
}

#[test]
fn clear_empties_the_scene() {
    let mut s = sample();
    s.attach_all();
    s.clear();
    assert_eq!(s.len(), 0);
    assert_eq!(s.get(1), None);
    assert!(s.is_settled());
    assert!(s.spawn(1, Role::End, at(1), Geometry::Ready));
}

#[test]
fn geometry_is_judged_by_vertex_count() {
    assert_eq!(Geometry::classify(None), Geometry::Missing);
    assert_eq!(Geometry::classify(Some(0)), Geometry::Degenerate);
    assert_eq!(Geometry::classify(Some(2)), Geometry::Degenerate);
    assert_eq!(Geometry::classify(Some(3)), Geometry::Ready);
    assert_eq!(Geometry::classify(Some(usize::MAX)), Geometry::Ready);
}
