//! Parameter values as fixed-point integers, and the conversions between
//! the units of the two devices.

use vstd::prelude::*;

verus! {

/// Parameter values are fixed-point numbers: `SCALE` steps make one unit.
pub const SCALE: i64 = 1_000_000;

/// Changes of at most this many steps (0.01 units) are treated as noise.
pub const EPS: i64 = 10_000;

/// Two sides that disagree by more than this (1.0 units) are forced into agreement.
pub const FORCE_SYNC_EPS: i64 = 1_000_000;

/// Absolute difference of two values, as a mathematical integer.
pub open spec fn distance(a: int, b: int) -> int {
    if a >= b {
        a - b
    } else {
        b - a
    }
}

/// `v * num / den`, rounded toward zero (for `num >= 0`, `den > 0`).
pub open spec fn scaled(v: int, num: int, den: int) -> int {
    if v >= 0 {
        v * num / den
    } else {
        -((-v) * num / den)
    }
}

/// `x` limited to the range of `i64`.
pub open spec fn saturate(x: int) -> i64 {
    if x > i64::MAX {
        i64::MAX
    } else if x < i64::MIN {
        i64::MIN
    } else {
        x as i64
    }
}

pub open spec fn wing_to_ds100_level(v: int) -> i64 {
    if v > 0 {
        saturate(scaled(v, 24, 10))
    } else {
        saturate(scaled(v, 120, 144))
    }
}

pub open spec fn ds100_to_wing_level(v: int) -> i64 {
    if v > 0 {
        saturate(scaled(v, 10, 24))
    } else {
        saturate(scaled(v, 140, 120))
    }
}

/// Whether `a` and `b` differ by more than the noise threshold.
pub open spec fn differs(a: int, b: int) -> bool {
    distance(a, b) > EPS
}

fn scale_toward_zero(v: i64, num: i128, den: i128) -> (r: i64)
    requires
        0 <= num <= 1000,
        0 < den <= 1000,
    ensures
        r == saturate(scaled(v as int, num as int, den as int)),
{
    let wide = v as i128;
    let x: i128 = if wide >= 0 {
        assert(0 <= wide * num <= 1000 * 0x8000_0000_0000_0000) by (nonlinear_arith)
            requires
                0 <= wide <= 0x8000_0000_0000_0000,
                0 <= num <= 1000,
        ;
        wide * num / den
    } else {
        let m = -wide;
        assert(0 <= m * num <= 1000 * 0x8000_0000_0000_0000) by (nonlinear_arith)
            requires
                0 <= m <= 0x8000_0000_0000_0000,
                0 <= num <= 1000,
        ;
        assert(0 <= (m * num) as int / den as int <= m * num) by (nonlinear_arith)
            requires
                0 <= m * num,
                0 < den,
        ;
        -(m * num / den)
    };
    if x > i64::MAX as i128 {
        i64::MAX
    } else if x < i64::MIN as i128 {
        i64::MIN
    } else {
        x as i64
    }
}

/// Converts a send level of the mixing console to the processor's scale
/// (positive values stretched by 2.4, the rest by 120/144).
pub fn gain_wing_to_ds100(val: i64) -> (r: i64)
    ensures
        r == wing_to_ds100_level(val as int),
{
    if val > 0 {
        scale_toward_zero(val, 24, 10)
    } else {
        scale_toward_zero(val, 120, 144)
    }
}

/// Converts a send level of the processor to the mixing console's scale
/// (positive values shrunk by 10/24, the rest stretched by 140/120).
pub fn gain_ds100_to_wing(val: i64) -> (r: i64)
    ensures
        r == ds100_to_wing_level(val as int),
{
    if val > 0 {
        scale_toward_zero(val, 10, 24)
    } else {
        scale_toward_zero(val, 140, 120)
    }
}

/// A pure conversion between the units of the two sides.
#[derive(Clone, Copy, Debug, PartialEq, Eq, Structural)]
pub enum Transform {
    Identity,
    GainWingToDs100,
    GainDs100ToWing,
}

impl Transform {
    pub open spec fn spec_apply(self, v: i64) -> i64 {
        match self {
            Transform::Identity => v,
            Transform::GainWingToDs100 => wing_to_ds100_level(v as int),
            Transform::GainDs100ToWing => ds100_to_wing_level(v as int),
        }
    }

    pub fn apply(&self, v: i64) -> (r: i64)
        ensures
            r == self.spec_apply(v),
    {
        match self {
            Transform::Identity => v,
            Transform::GainWingToDs100 => gain_wing_to_ds100(v),
            Transform::GainDs100ToWing => gain_ds100_to_wing(v),
        }
    }
}

} // verus!
