//! Fixed-point units and the small arithmetic helpers shared by the engine.
//!
//! - Coordinates are milli-units (`1000` = one unit of the camera frame).
//! - Confidences, fractions, weights and scores are per-mille
//!   (`1000` = `1.0`).
//! - Angles are centidegrees (`18000` = `180`°).
//! - Timestamps are milliseconds.

use vstd::prelude::*;

verus! {

/// One full turn in centidegrees.
pub const FULL_TURN_CD: i64 = 36000;

/// A straight angle in centidegrees.
pub const STRAIGHT_CD: i64 = 18000;

/// Per-mille scale: the fixed-point representation of `1.0`.
pub const PER_MILLE: i64 = 1000;

/// Keypoint coordinates are accepted up to this magnitude (milli-units).
pub const COORD_LIMIT: i64 = 10_000_000;

/// Stored angles are accepted up to one full turn in magnitude.
pub const ANGLE_LIMIT: i64 = 36000;

/// Timestamps are accepted up to this magnitude (milliseconds).
pub const TIME_LIMIT: i64 = 1_000_000_000_000_000;

/// Below this per-mille confidence a keypoint is treated as missing.
pub const CONFIDENCE_FLOOR: i64 = 100;

/// Truncating (round-toward-zero) division, the semantics used by all
/// fixed-point ratios of the engine.  `d` must be positive.
pub open spec fn div_trunc(n: int, d: int) -> int
    recommends
        d > 0,
{
    if n >= 0 {
        n / d
    } else {
        -((-n) / d)
    }
}

/// Clamp `v` into `[lo, hi]`.
pub open spec fn spec_clamp(v: int, lo: int, hi: int) -> int
    recommends
        lo <= hi,
{
    if v < lo {
        lo
    } else if v > hi {
        hi
    } else {
        v
    }
}

/// Truncating division of two machine integers; `d` must be positive and
/// the magnitude of `n` must leave room for negation.
pub fn div_trunc_i64(n: i64, d: i64) -> (r: i64)
    requires
        0 < d,
        -0x4000_0000_0000_0000 < n < 0x4000_0000_0000_0000,
    ensures
        r == div_trunc(n as int, d as int),
{
    if n >= 0 {
        let q: u64 = (n as u64) / (d as u64);
        q as i64
    } else {
        let m: i64 = -n;
        let q: u64 = (m as u64) / (d as u64);
        -(q as i64)
    }
}

} // verus!
