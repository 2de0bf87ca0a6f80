use bevy_hop::collider::{CollisionEvent, Role};
use bevy_hop::level::{CurrentLevel, SpawnLevel, LEVEL_COUNT};
use bevy_hop::space::Point;
use bevy_hop::trigger::{checkpoint_crossing, dispatch, end_zone_crossing, EndOutcome, Trigger};

fn at(y: i64) -> Point {
    Point { x: 0, y, z: 0 }
}

#[test]
fn dispatch_table() {
    assert_eq!(dispatch(Role::CheckPoint, CollisionEvent::Start), Some(Trigger::Checkpoint));
    assert_eq!(dispatch(Role::End, CollisionEvent::Start), Some(Trigger::EndZone));
    assert_eq!(dispatch(Role::SpeedBoost, CollisionEvent::End), Some(Trigger::Boost));
    assert_eq!(dispatch(Role::CheckPoint, CollisionEvent::End), None);
    assert_eq!(dispatch(Role::End, CollisionEvent::End), None);
    assert_eq!(dispatch(Role::SpeedBoost, CollisionEvent::Start), None);
    for event in [CollisionEvent::Start, CollisionEvent::End] {
        assert_eq!(dispatch(Role::Ground, event), None);
        assert_eq!(dispatch(Role::Prop, event), None);
    }
}

#[test]
fn checkpoint_counts_from_the_anchor_up() {
    assert!(checkpoint_crossing(&at(10), &at(10)));
    assert!(checkpoint_crossing(&at(11), &at(10)));
    assert!(!checkpoint_crossing(&at(9), &at(10)));
}

#[test]
fn end_zone_advances_every_level_but_the_last() {
    let mut level = CurrentLevel::new();
    for l in 1..=LEVEL_COUNT {
        assert!(level.set(l));
        let outcome = end_zone_crossing(&level, &at(5), &at(5));
        if l < LEVEL_COUNT {
            assert_eq!(outcome, EndOutcome::Advance(SpawnLevel { level: l + 1, restart: false }));
        } else {
            assert_eq!(outcome, EndOutcome::Finished);
        }
        assert_eq!(end_zone_crossing(&level, &at(4), &at(5)), EndOutcome::Ignored);
    }
}
