//! The levels of a run: which one is played, the assets of each, and the
//! look authored for each.

use vstd::prelude::*;
use crate::color::{Resurrect64, Rgb};

verus! {

/// Number of levels in a run.
pub const LEVEL_COUNT: usize = 3;

/// Reference to an asset held by the asset store.
pub type AssetId = u64;

/// True when `level` names one of the levels of a run. Levels count from 1.
pub open spec fn level_in_range(level: int) -> bool {
    1 <= level <= LEVEL_COUNT
}

/// The level that follows `level`, if the run has one.
pub open spec fn level_after(level: int) -> Option<int> {
    if level < LEVEL_COUNT {
        Some(level + 1)
    } else {
        None
    }
}

/// Tells whether `level` names one of the levels of a run.
pub fn is_level(level: usize) -> (r: bool)
    ensures
        r == level_in_range(level as int),
{
    1 <= level && level <= LEVEL_COUNT
}

/// Request to leave the current level and load the one named.
#[derive(Clone, Copy, PartialEq, Eq, Structural, Debug)]
pub struct SpawnLevel {
    /// The level to load, counting from 1.
    pub level: usize,
    /// Whether the attempt starts over: the stopwatch goes back to zero.
    pub restart: bool,
}

/// The level being played. It is always one of the levels of the run.
#[derive(Debug)]
pub struct CurrentLevel {
    index: usize,
}

impl View for CurrentLevel {
    type V = int;

    closed spec fn view(&self) -> int {
        self.index as int
    }
}

impl CurrentLevel {
    #[verifier::type_invariant]
    closed spec fn in_range(self) -> bool {
        level_in_range(self.index as int)
    }

    /// The first level.
    pub fn new() -> (l: CurrentLevel)
        ensures
            l@ == 1,
    {
        CurrentLevel { index: 1 }
    }

    /// The number of the level, counting from 1.
    pub fn get(&self) -> (n: usize)
        ensures
            n == self@,
            level_in_range(n as int),
    {
        proof {
            use_type_invariant(self);
        }
        self.index
    }

    /// The number of the level after this one, or `None` on the last level.
    pub fn next(&self) -> (n: Option<usize>)
        ensures
            match n {
                Some(k) => level_after(self@) == Some(k as int),
                None => level_after(self@).is_none(),
            },
            n.is_none() <==> self@ == LEVEL_COUNT,
            n matches Some(k) ==> level_in_range(k as int),
            level_in_range(self@),
    {
        proof {
            use_type_invariant(self);
        }
        if self.index < LEVEL_COUNT {
            Some(self.index + 1)
        } else {
            None
        }
    }

    /// Moves to `level` if the run has such a level, and says whether it
    /// does. A number outside the run changes nothing.
    pub fn set(&mut self, level: usize) -> (moved: bool)
        ensures
            moved == level_in_range(level as int),
            final(self)@ == if moved {
                level as int
            } else {
                old(self)@
            },
    {
        if is_level(level) {
            self.index = level;
            true
        } else {
            false
        }
    }

    /// Goes back to the first level.
    pub fn reset(&mut self)
        ensures
            final(self)@ == 1,
    {
        self.index = 1;
    }
}

/// The scene and the skybox of every level, and whether the scene of the
/// level being played has been put into the world.
#[derive(Debug)]
pub struct MainScene {
    pub levels: [AssetId; LEVEL_COUNT],
    pub is_spawned: bool,
    pub skyboxes: [AssetId; LEVEL_COUNT],
}

impl MainScene {
    /// A registry of the given assets with nothing spawned yet.
    pub fn new(levels: [AssetId; LEVEL_COUNT], skyboxes: [AssetId; LEVEL_COUNT]) -> (s: MainScene)
        ensures
            s.levels == levels,
            s.skyboxes == skyboxes,
            !s.is_spawned,
    {
        MainScene { levels, is_spawned: false, skyboxes }
    }

    /// The scene asset of `level`.
    pub fn level(&self, level: usize) -> (asset: AssetId)
        requires
            level_in_range(level as int),
        ensures
            asset == self.levels@[level - 1],
    {
        self.levels[level - 1]
    }

    /// The skybox asset of `level`.
    pub fn skybox(&self, level: usize) -> (asset: AssetId)
        requires
            level_in_range(level as int),
        ensures
            asset == self.skyboxes@[level - 1],
    {
        self.skyboxes[level - 1]
    }
}

/// The look authored for a level: how bright its skybox is, in lux, and the
/// colour of its deep water.
#[derive(Clone, Copy, PartialEq, Eq, Structural, Debug)]
pub struct LevelTheme {
    pub skybox_brightness: u32,
    pub water_color: Rgb,
}

/// The look of each level. A number outside the table gets the default look.
pub open spec fn theme_of(level: int) -> LevelTheme {
    if level == 1 {
        LevelTheme { skybox_brightness: 30000, water_color: Resurrect64::DEEP_PURPLE }
    } else if level == 2 {
        LevelTheme { skybox_brightness: 50000, water_color: Resurrect64::DARK_CYAN }
    } else if level == 3 {
        LevelTheme { skybox_brightness: 50000, water_color: Resurrect64::DARK_RED_1 }
    } else {
        LevelTheme { skybox_brightness: 10000, water_color: Resurrect64::DARK_CYAN }
    }
}

/// Looks up the look of `level`.
pub fn theme_for(level: usize) -> (theme: LevelTheme)
    ensures
        theme == theme_of(level as int),
{
    match level {
        1 => LevelTheme { skybox_brightness: 30000, water_color: Resurrect64::DEEP_PURPLE },
        2 => LevelTheme { skybox_brightness: 50000, water_color: Resurrect64::DARK_CYAN },
        3 => LevelTheme { skybox_brightness: 50000, water_color: Resurrect64::DARK_RED_1 },
        _ => LevelTheme { skybox_brightness: 10000, water_color: Resurrect64::DARK_CYAN },
    }
}

} // verus!
