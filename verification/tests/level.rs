use bevy_hop::color::Resurrect64;
use bevy_hop::level::{is_level, theme_for, CurrentLevel, LevelTheme, MainScene, LEVEL_COUNT};

#[test]
fn level_count_is_three() {
    assert_eq!(LEVEL_COUNT, 3);
    assert!(!is_level(0));
    assert!(is_level(1));
    assert!(is_level(3));
    assert!(!is_level(4));
    assert!(!is_level(usize::MAX));
}

#[test]
fn current_level_starts_at_one() {
    let l = CurrentLevel::new();
    assert_eq!(l.get(), 1);
    assert_eq!(l.next(), Some(2));
}

#[test]
fn current_level_refuses_levels_outside_the_run() {
    let mut l = CurrentLevel::new();
    assert!(l.set(3));
    assert_eq!(l.get(), 3);
    assert_eq!(l.next(), None);
    assert!(!l.set(0));
    assert_eq!(l.get(), 3);
    assert!(!l.set(4));
    assert_eq!(l.get(), 3);
    assert!(l.set(2));
    assert_eq!(l.next(), Some(3));
    l.reset();
    assert_eq!(l.get(), 1);
}

#[test]
fn registry_looks_up_by_level_number() {
    let s = MainScene::new([11, 12, 13], [21, 22, 23]);
    assert!(!s.is_spawned);
    assert_eq!(s.level(1), 11);
    assert_eq!(s.level(2), 12);
    assert_eq!(s.level(3), 13);
    assert_eq!(s.skybox(1), 21);
    assert_eq!(s.skybox(3), 23);
}

#[test]
fn themes_are_authored_per_level() {
    assert_eq!(
        theme_for(1),
        LevelTheme { skybox_brightness: 30000, water_color: Resurrect64::DEEP_PURPLE }
    );
    assert_eq!(
        theme_for(2),
        LevelTheme { skybox_brightness: 50000, water_color: Resurrect64::DARK_CYAN }
    );
    assert_eq!(
        theme_for(3),
        LevelTheme { skybox_brightness: 50000, water_color: Resurrect64::DARK_RED_1 }
    );
    for other in [0usize, 4, 99] {
        assert_eq!(
            theme_for(other),
            LevelTheme { skybox_brightness: 10000, water_color: Resurrect64::DARK_CYAN }
        );
    }
}
