use bevy_hop::color::{channels, result_color, Resurrect64};

#[test]
fn palette_values() {
    assert_eq!(Resurrect64::DARK_PURPLE_1, 0x2e222f);
    assert_eq!(Resurrect64::WHITE, 0xffffff);
    assert_eq!(Resurrect64::DEEP_PURPLE, 0x45293f);
    assert_eq!(Resurrect64::DARK_CYAN, 0x0b5e65);
    assert_eq!(Resurrect64::DARK_RED_1, 0x6e2727);
    assert_eq!(Resurrect64::GREEN, 0x91db69);
    assert_eq!(Resurrect64::PALE_PEACH, 0xfdcbb0);
}

#[test]
fn channels_split_a_colour() {
    assert_eq!(channels(Resurrect64::DARK_SLATE_BLUE), (0x32, 0x33, 0x53));
    assert_eq!(channels(0), (0, 0, 0));
    assert_eq!(channels(0xffffff), (255, 255, 255));
    assert_eq!(channels(0x010203), (1, 2, 3));
    // anything above the three channels is dropped
    assert_eq!(channels(0xff010203), (1, 2, 3));
}

#[test]
fn result_colours_by_index() {
    assert_eq!(result_color(0), Resurrect64::LIGHT_PURPLE);
    assert_eq!(result_color(1), Resurrect64::GREEN);
    assert_eq!(result_color(2), Resurrect64::SCARLET);
    assert_eq!(result_color(3), Resurrect64::LIGHT_PURPLE);
}
