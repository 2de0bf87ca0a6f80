//! The palette of the game.

use vstd::prelude::*;

verus! {

/// An sRGB colour packed as `0xRRGGBB`.
pub type Rgb = u32;

/// The Resurrect 64 palette, one constant per colour.
pub struct Resurrect64;

impl Resurrect64 {
    pub const DARK_PURPLE_1: Rgb = 0x2e222f;
    pub const DARK_PURPLE_2: Rgb = 0x3e3546;
    pub const GRAY_PURPLE_1: Rgb = 0x625565;
    pub const BROWN: Rgb = 0x966c6c;
    pub const BEIGE: Rgb = 0xab947a;
    pub const DUSTY_PURPLE: Rgb = 0x694f62;
    pub const GRAY_PURPLE_2: Rgb = 0x7f708a;
    pub const LIGHT_GRAY_PURPLE: Rgb = 0x9babb2;
    pub const MINT_GRAY: Rgb = 0xc7dcd0;
    pub const WHITE: Rgb = 0xffffff;
    pub const DARK_RED_1: Rgb = 0x6e2727;
    pub const CRIMSON: Rgb = 0xb33831;
    pub const VERMILION: Rgb = 0xea4f36;
    pub const ORANGE_RED: Rgb = 0xf57d4a;
    pub const DARK_SCARLET: Rgb = 0xae2334;
    pub const SCARLET: Rgb = 0xe83b3b;
    pub const ORANGE: Rgb = 0xfb6b1d;
    pub const BRIGHT_ORANGE: Rgb = 0xf79617;
    pub const GOLD: Rgb = 0xf9c22b;
    pub const DARK_BURGUNDY: Rgb = 0x7a3045;
    pub const RUST: Rgb = 0x9e4539;
    pub const DARK_ORANGE: Rgb = 0xcd683d;
    pub const LIGHT_ORANGE: Rgb = 0xe6904e;
    pub const PEACH: Rgb = 0xfbb954;
    pub const DARK_OLIVE: Rgb = 0x4c3e24;
    pub const OLIVE: Rgb = 0x676633;
    pub const LIGHT_OLIVE: Rgb = 0xa2a947;
    pub const LIME_GREEN: Rgb = 0xd5e04b;
    pub const BRIGHT_YELLOW: Rgb = 0xfbff86;
    pub const DARK_TEAL: Rgb = 0x165a4c;
    pub const FOREST_GREEN: Rgb = 0x239063;
    pub const BRIGHT_GREEN: Rgb = 0x1ebc73;
    pub const GREEN: Rgb = 0x91db69;
    pub const PASTEL_GREEN: Rgb = 0xcddf6c;
    pub const DARK_GRAY: Rgb = 0x313638;
    pub const SLATE_GRAY: Rgb = 0x374e4a;
    pub const GRAY_GREEN: Rgb = 0x547e64;
    pub const SAGE: Rgb = 0x92a984;
    pub const LIGHT_SAGE: Rgb = 0xb2ba90;
    pub const DARK_CYAN: Rgb = 0x0b5e65;
    pub const CYAN: Rgb = 0x0b8a8f;
    pub const BRIGHT_CYAN: Rgb = 0x0eaf9b;
    pub const TURQUOISE: Rgb = 0x30e1b9;
    pub const LIGHT_TURQUOISE: Rgb = 0x8ff8e2;
    pub const DARK_SLATE_BLUE: Rgb = 0x323353;
    pub const INDIGO: Rgb = 0x484a77;
    pub const BLUE_1: Rgb = 0x4d65b4;
    pub const BLUE_2: Rgb = 0x4d9be6;
    pub const LIGHT_BLUE: Rgb = 0x8fd3ff;
    pub const DEEP_PURPLE: Rgb = 0x45293f;
    pub const PURPLE: Rgb = 0x6b3e75;
    pub const LIGHT_PURPLE: Rgb = 0x905ea9;
    pub const LAVENDER: Rgb = 0xa884f3;
    pub const PALE_LAVENDER: Rgb = 0xeaeded;
    pub const ROSE: Rgb = 0x753c54;
    pub const DEEP_MAGENTA: Rgb = 0xa24b6f;
    pub const LIGHT_ROSE: Rgb = 0xcf657f;
    pub const BRIGHT_ROSE: Rgb = 0xed8099;
    pub const MAGENTA: Rgb = 0x831c5d;
    pub const BRIGHT_MAGENTA: Rgb = 0xc32454;
    pub const PINK: Rgb = 0xf04f78;
    pub const LIGHT_PINK: Rgb = 0xf68181;
    pub const LIGHT_PEACH: Rgb = 0xfca790;
    pub const PALE_PEACH: Rgb = 0xfdcbb0;
}

/// The red channel of a packed colour.
pub open spec fn red_of(color: Rgb) -> int {
    (color as int / 0x10000) % 0x100
}

/// The green channel of a packed colour.
pub open spec fn green_of(color: Rgb) -> int {
    (color as int / 0x100) % 0x100
}

/// The blue channel of a packed colour.
pub open spec fn blue_of(color: Rgb) -> int {
    color as int % 0x100
}

/// Splits a packed colour into its red, green and blue channels.
pub fn channels(color: Rgb) -> (rgb: (u8, u8, u8))
    ensures
        rgb.0 as int == red_of(color),
        rgb.1 as int == green_of(color),
        rgb.2 as int == blue_of(color),
{
    let r: u32 = (color / 0x10000) % 0x100;
    let g: u32 = (color / 0x100) % 0x100;
    let b: u32 = color % 0x100;
    (r as u8, g as u8, b as u8)
}

/// The colour in which the time of a level is listed at the end of a run.
/// `index` counts the levels from 0.
pub open spec fn result_color_of(index: int) -> Rgb {
    if index == 1 {
        Resurrect64::GREEN
    } else if index == 2 {
        Resurrect64::SCARLET
    } else {
        Resurrect64::LIGHT_PURPLE
    }
}

/// Looks up the colour in which the time of a level is listed.
pub fn result_color(index: usize) -> (color: Rgb)
    ensures
        color == result_color_of(index as int),
{
    match index {
        1 => Resurrect64::GREEN,
        2 => Resurrect64::SCARLET,
        _ => Resurrect64::LIGHT_PURPLE,
    }
}

} // verus!
