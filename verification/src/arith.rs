//! Saturating 64-bit accumulation and the rational motion scale.
//!
//! Motion is accumulated in 64-bit numerators over a fixed denominator.
//! Accumulation saturates at the i64 range instead of wrapping or
//! panicking; within the range it is exact addition.

use vstd::prelude::*;

verus! {

/// Largest numerator or denominator a scale may carry; keeps every
/// per-report product comfortably inside the i64 range.
pub const SCALE_LIMIT: i64 = 1_000_000;

/// Default scale for absolute-to-relative conversion: 1/50 (= 0.02)
/// screen units per raw device unit.
pub const DEFAULT_SCALE_NUM: i64 = 1;

/// Denominator of the default 1/50 scale.
pub const DEFAULT_SCALE_DEN: i64 = 50;

/// The absolute value of a mathematical integer.
pub open spec fn spec_abs(a: int) -> int {
    if a < 0 {
        -a
    } else {
        a
    }
}

/// Addition on the mathematical integers, clipped to the i64 range.
pub open spec fn sat_add(a: int, b: int) -> int {
    if a + b > i64::MAX as int {
        i64::MAX as int
    } else if a + b < i64::MIN as int {
        i64::MIN as int
    } else {
        a + b
    }
}

/// Saturating addition, stated on i64 values.
pub open spec fn sat_add64(a: i64, b: i64) -> i64 {
    sat_add(a as int, b as int) as i64
}

/// Saturating i64 addition; exact whenever the true sum fits.
pub fn sat_add_i64(a: i64, b: i64) -> (r: i64)
    ensures
        r as int == sat_add(a as int, b as int),
        r == sat_add64(a, b),
{
    let wide: i128 = a as i128 + b as i128;
    if wide > i64::MAX as i128 {
        i64::MAX
    } else if wide < i64::MIN as i128 {
        i64::MIN
    } else {
        wide as i64
    }
}

/// Multiplies a small value by a scale part, exactly. The bounds admit
/// any raw i32 axis value and any difference of two such values.
pub fn mul_scale(a: i64, k: i64) -> (r: i64)
    requires
        -0x2_0000_0000 <= a <= 0x2_0000_0000,
        0 <= k <= SCALE_LIMIT,
    ensures
        r as int == a as int * k as int,
{
    proof {
        assert(a as int * k as int <= 0x2_0000_0000 * (SCALE_LIMIT as int)
            && a as int * k as int >= -0x2_0000_0000 * (SCALE_LIMIT as int)) by (nonlinear_arith)
            requires
                -0x2_0000_0000 <= a as int <= 0x2_0000_0000,
                0 <= k as int <= SCALE_LIMIT as int,
        ;
    }
    a * k
}

/// A positive rational scale factor `num / den` applied to absolute-axis
/// deltas. Both parts always lie in `1 ..= SCALE_LIMIT`.
#[derive(Clone, Copy, Debug, PartialEq, Eq, Structural)]
pub struct Scale {
    pub num: i64,
    pub den: i64,
}

impl Scale {
    /// Well-formedness: both parts positive and small enough that a raw
    /// i32 axis value times either part fits in an i64.
    pub open spec fn wf(self) -> bool {
        &&& 1 <= self.num <= SCALE_LIMIT
        &&& 1 <= self.den <= SCALE_LIMIT
    }

    /// The default 1/50 scale.
    pub open spec fn spec_default() -> Scale {
        Scale { num: DEFAULT_SCALE_NUM, den: DEFAULT_SCALE_DEN }
    }

    /// Builds a scale from a requested numerator and denominator.
    /// Non-positive (or oversized) requests are rejected in favor of the
    /// default scale, so the result is always well-formed.
    pub fn new(num: i64, den: i64) -> (s: Scale)
        ensures
            s.wf(),
            (1 <= num <= SCALE_LIMIT && 1 <= den <= SCALE_LIMIT) ==> s == (Scale { num, den }),
            !(1 <= num <= SCALE_LIMIT && 1 <= den <= SCALE_LIMIT) ==> s == Scale::spec_default(),
    {
        if 1 <= num && num <= SCALE_LIMIT && 1 <= den && den <= SCALE_LIMIT {
            Scale { num, den }
        } else {
            Scale { num: DEFAULT_SCALE_NUM, den: DEFAULT_SCALE_DEN }
        }
    }

    /// The default 1/50 scale, as a runtime value.
    pub fn default_scale() -> (s: Scale)
        ensures
            s == Scale::spec_default(),
            s.wf(),
    {
        Scale { num: DEFAULT_SCALE_NUM, den: DEFAULT_SCALE_DEN }
    }
}

} // verus!
