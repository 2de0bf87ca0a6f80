//! Positions and velocities in fixed point, and the arithmetic of a boost.

use vstd::prelude::*;

verus! {

/// Fixed-point steps per world unit: every coordinate and speed is an
/// integer count of thousandths.
pub const UNIT: i64 = 1000;

/// Height of the global spawn point, in steps.
pub const SPAWN_HEIGHT: i64 = 8000;

/// How far below the respawn anchor the water surface rides, in steps.
pub const WATER_DROP: i64 = 170_000;

/// Numerator of the gain applied to horizontal speed by a boost pad.
pub const BOOST_NUMERATOR: i64 = 6;

/// Denominator of the gain applied to horizontal speed by a boost pad.
pub const BOOST_DENOMINATOR: i64 = 5;

/// A position in the world, in steps.
#[derive(Clone, Copy, PartialEq, Eq, Structural, Debug)]
pub struct Point {
    pub x: i64,
    pub y: i64,
    pub z: i64,
}

/// A linear velocity, in steps per second. `y` is the vertical component.
#[derive(Clone, Copy, PartialEq, Eq, Structural, Debug)]
pub struct Velocity {
    pub x: i64,
    pub y: i64,
    pub z: i64,
}

/// The fixed point, shared by all levels, where a run starts and where the
/// player lands after a level change.
pub open spec fn spawn_point() -> Point {
    Point { x: 0, y: SPAWN_HEIGHT, z: 0 }
}

/// Clamps an integer into the range of `i64`.
pub open spec fn clamp_i64(v: int) -> int {
    if v > i64::MAX {
        i64::MAX as int
    } else if v < i64::MIN {
        i64::MIN as int
    } else {
        v
    }
}

/// Quotient rounded toward zero, for a positive divisor.
pub open spec fn div_toward_zero(a: int, b: int) -> int {
    if a >= 0 {
        a / b
    } else {
        -((-a) / b)
    }
}

/// One horizontal speed component after a boost: the component times the
/// gain, rounded toward zero, and held inside `i64`.
pub open spec fn boosted_component(v: int) -> int {
    clamp_i64(div_toward_zero(v * BOOST_NUMERATOR as int, BOOST_DENOMINATOR as int))
}

/// A velocity after a boost: both horizontal components scaled, the vertical
/// one untouched.
pub open spec fn boosted(v: Velocity) -> Velocity {
    Velocity {
        x: boosted_component(v.x as int) as i64,
        y: v.y,
        z: boosted_component(v.z as int) as i64,
    }
}

/// Height of the water surface when the respawn anchor is `anchor`.
pub open spec fn water_level(anchor: Point) -> int {
    clamp_i64(anchor.y - WATER_DROP)
}

impl Point {
    /// The global spawn point.
    pub fn spawn() -> (p: Point)
        ensures
            p == spawn_point(),
    {
        Point { x: 0, y: SPAWN_HEIGHT, z: 0 }
    }

    /// True when `self` is level with `anchor` or higher.
    pub open spec fn at_or_above(self, anchor: Point) -> bool {
        self.y >= anchor.y
    }

    /// Tells whether `self` is level with `anchor` or higher. A trigger
    /// touched from underneath does not count as crossed.
    pub fn is_at_or_above(&self, anchor: &Point) -> (r: bool)
        ensures
            r == self.at_or_above(*anchor),
    {
        self.y >= anchor.y
    }
}

/// Scales one speed component by the boost gain.
pub fn boost_component(v: i64) -> (r: i64)
    ensures
        r as int == boosted_component(v as int),
{
    let wide: i128 = (v as i128) * (BOOST_NUMERATOR as i128);
    let scaled: i128 = wide / (BOOST_DENOMINATOR as i128);
    if scaled > i64::MAX as i128 {
        i64::MAX
    } else if scaled < i64::MIN as i128 {
        i64::MIN
    } else {
        scaled as i64
    }
}

impl Velocity {
    /// Applies one boost: a flat multiplicative gain on the horizontal
    /// components, whatever the direction or the speed of approach. The
    /// vertical component is left as it is.
    pub fn boost(&self) -> (out: Velocity)
        ensures
            out == boosted(*self),
            out.y == self.y,
    {
        Velocity { x: boost_component(self.x), y: self.y, z: boost_component(self.z) }
    }
}

/// Computes the height at which the water surface follows the respawn anchor.
pub fn water_height(anchor: &Point) -> (h: i64)
    ensures
        h as int == water_level(*anchor),
{
    if anchor.y < i64::MIN + WATER_DROP {
        i64::MIN
    } else {
        anchor.y - WATER_DROP
    }
}

/// A boost leaves the vertical component unchanged, and on a component that
/// is a whole multiple of the gain's denominator, and small enough not to
/// saturate, the gain is exact.
pub proof fn lemma_boost_exact(v: Velocity)
    requires
        v.x % 5 == 0,
        v.z % 5 == 0,
        i64::MIN <= v.x * 6 / 5 <= i64::MAX,
        i64::MIN <= v.z * 6 / 5 <= i64::MAX,
    ensures
        boosted(v).y == v.y,
        5 * boosted(v).x == 6 * v.x,
        5 * boosted(v).z == 6 * v.z,
{
    lemma_scale_exact(v.x as int);
    lemma_scale_exact(v.z as int);
}

/// On a multiple of five the scaled value is exactly six fifths.
proof fn lemma_scale_exact(v: int)
    requires
        v % 5 == 0,
    ensures
        5 * div_toward_zero(v * 6, 5) == 6 * v,
        div_toward_zero(v * 6, 5) == v * 6 / 5,
{
}

/// A boost never turns a component around, never slows it, and is off from
/// the exact gain by less than one step, unless the result saturates.
pub proof fn lemma_boost_component_bounds(v: int)
    requires
        i64::MIN <= v <= i64::MAX,
    ensures
        v >= 0 ==> boosted_component(v) >= v,
        v <= 0 ==> boosted_component(v) <= v,
        boosted_component(v) == div_toward_zero(v * 6, 5) ==> {
            &&& v >= 0 ==> 0 <= 6 * v - 5 * boosted_component(v) < 5
            &&& v <= 0 ==> 0 <= 5 * boosted_component(v) - 6 * v < 5
        },
{
}

} // verus!
