//! Pure 2D vector geometry: the angle at a vertex formed by two rays, a
//! signed frontal-plane variant, and the Euclidean distance between two
//! keypoints.
//!
//! Angles are produced by an integer arctangent: the octant of `(y, x)` is
//! found exactly, and within the first octant the ratio is mapped through a
//! fixed-point polynomial approximation.  Every result is pinned to the
//! spec-level mirror of that computation, so the contracts are exact.

use vstd::prelude::*;

use crate::units::COORD_LIMIT;
use crate::units::CONFIDENCE_FLOOR;
use crate::units::STRAIGHT_CD;
use crate::units::FULL_TURN_CD;

verus! {

/// One body joint observed in a frame: position in milli-units, detection
/// confidence in per-mille.
#[derive(Clone, Copy, Debug, PartialEq, Eq, Structural)]
pub struct Keypoint {
    pub x: i64,
    pub y: i64,
    pub confidence: i64,
}

/// The coordinates of `k` are small enough for the vector arithmetic of
/// this module.
pub open spec fn keypoint_bounded(k: Keypoint) -> bool {
    &&& -COORD_LIMIT <= k.x <= COORD_LIMIT
    &&& -COORD_LIMIT <= k.y <= COORD_LIMIT
}

/// First-octant arctangent in centidegrees of the ratio `num / den`,
/// for `0 <= num <= den`, `den > 0`: a linear term plus a bowed
/// correction, capped at `45`°.
pub open spec fn spec_atan_octant(num: int, den: int) -> int
    recommends
        0 <= num <= den,
        0 < den,
{
    let z = num * 1000 / den;
    let raw = 45 * z / 10 + 1564 * z * (1000 - z) / 1_000_000;
    if raw > 4500 {
        4500
    } else {
        raw
    }
}

/// Full-plane arctangent of `(y, x)` in centidegrees, in
/// `[-18000, 18000]`; `0` at the positive x-axis, positive counter-
/// clockwise, `18000` at the negative x-axis.
pub open spec fn spec_atan2(y: int, x: int) -> int {
    let ax = if x >= 0 { x } else { -x };
    let ay = if y >= 0 { y } else { -y };
    if ax == 0 && ay == 0 {
        0
    } else {
        let mag = if ay <= ax {
            if x >= 0 {
                spec_atan_octant(ay, ax)
            } else {
                18000 - spec_atan_octant(ay, ax)
            }
        } else {
            if x >= 0 {
                9000 - spec_atan_octant(ax, ay)
            } else {
                9000 + spec_atan_octant(ax, ay)
            }
        };
        if y >= 0 {
            mag
        } else {
            -mag
        }
    }
}

/// Does some keypoint of the triple fall below the confidence floor?
pub open spec fn spec_low_confidence(a: Keypoint, b: Keypoint, c: Keypoint) -> bool {
    a.confidence < CONFIDENCE_FLOOR || b.confidence < CONFIDENCE_FLOOR
        || c.confidence < CONFIDENCE_FLOOR
}

/// The angle at vertex `b` formed by the rays `b -> a` and `b -> c`, in
/// centidegrees: the absolute arctangent of the rays' cross and dot
/// products, reflected below a straight angle.  Low confidence in any
/// keypoint yields the neutral angle `0`.
pub open spec fn spec_angle(a: Keypoint, b: Keypoint, c: Keypoint) -> int {
    if spec_low_confidence(a, b, c) {
        0
    } else {
        let dot = (b.x - a.x) * (b.x - c.x) + (b.y - a.y) * (b.y - c.y);
        let cross = (b.x - a.x) * (b.y - c.y) - (b.y - a.y) * (b.x - c.x);
        let raw = spec_atan2(cross, dot);
        let mag = if raw >= 0 { raw } else { -raw };
        if mag > 18000 {
            36000 - mag
        } else {
            mag
        }
    }
}

/// The signed frontal-plane angle at vertex `b`: as `spec_angle` but
/// without the reflection into `[0, 18000]`, so lateral deviation keeps
/// its sign.
pub open spec fn spec_signed_angle(a: Keypoint, b: Keypoint, c: Keypoint) -> int {
    if spec_low_confidence(a, b, c) {
        0
    } else {
        let dot = (b.x - a.x) * (b.x - c.x) + (b.y - a.y) * (b.y - c.y);
        let cross = (b.x - a.x) * (b.y - c.y) - (b.y - a.y) * (b.x - c.x);
        spec_atan2(cross, dot)
    }
}

/// The first-octant arctangent, executable form.
fn atan_octant(num: i64, den: i64) -> (r: i64)
    requires
        0 <= num <= den,
        0 < den <= 0x20_0000_0000_0000,
    ensures
        r == spec_atan_octant(num as int, den as int),
        0 <= r <= 4500,
{
    let z: i64 = ((num as u64 * 1000u64) / (den as u64)) as i64;
    assert(z == num * 1000 / (den as int));
    assert(num * 1000 / (den as int) <= den * 1000 / (den as int)
        && den * 1000 / (den as int) == 1000) by (nonlinear_arith)
        requires
            0 <= num <= den,
            0 < den,
    ;
    assert(0 <= z <= 1000);
    let linear: i64 = 45 * z / 10;
    assert(1564 * z * (1000 - z) <= 391_000_000_000 && 0 <= 1564 * z * (1000 - z))
        by (nonlinear_arith)
        requires
            0 <= z <= 1000,
    ;
    let bow: i64 = 1564 * z * (1000 - z) / 1_000_000;
    let raw: i64 = linear + bow;
    if raw > 4500 {
        4500
    } else {
        raw
    }
}

/// Full-plane arctangent of `(y, x)` in centidegrees, executable form.
pub fn atan2_cd(y: i64, x: i64) -> (r: i64)
    requires
        -0x20_0000_0000_0000 <= y <= 0x20_0000_0000_0000,
        -0x20_0000_0000_0000 <= x <= 0x20_0000_0000_0000,
    ensures
        r == spec_atan2(y as int, x as int),
        -STRAIGHT_CD <= r <= STRAIGHT_CD,
{
    let ax: i64 = if x >= 0 { x } else { -x };
    let ay: i64 = if y >= 0 { y } else { -y };
    if ax == 0 && ay == 0 {
        return 0;
    }
    let mag: i64 = if ay <= ax {
        let base = atan_octant(ay, ax);
        if x >= 0 {
            base
        } else {
            18000 - base
        }
    } else {
        let base = atan_octant(ax, ay);
        if x >= 0 {
            9000 - base
        } else {
            9000 + base
        }
    };
    if y >= 0 {
        mag
    } else {
        -mag
    }
}

/// The angle at vertex `b` formed by the rays `b -> a` and `b -> c`,
/// in centidegrees.
///
/// For confident input the result lies in `[0`°`, 180`°`]`; if any of the
/// three keypoints falls below the confidence floor the angle is exactly
/// `0`, the deliberate "missing data means neutral angle" policy.
pub fn angle_between(a: Keypoint, b: Keypoint, c: Keypoint) -> (r: i64)
    requires
        keypoint_bounded(a),
        keypoint_bounded(b),
        keypoint_bounded(c),
    ensures
        r == spec_angle(a, b, c),
        0 <= r <= STRAIGHT_CD,
        spec_low_confidence(a, b, c) ==> r == 0,
{
    if a.confidence < CONFIDENCE_FLOOR || b.confidence < CONFIDENCE_FLOOR
        || c.confidence < CONFIDENCE_FLOOR {
        return 0;
    }
    let abx: i64 = b.x - a.x;
    let aby: i64 = b.y - a.y;
    let cbx: i64 = b.x - c.x;
    let cby: i64 = b.y - c.y;
    assert(-1_600_000_000_000_000 <= abx * cbx <= 1_600_000_000_000_000
        && -1_600_000_000_000_000 <= aby * cby <= 1_600_000_000_000_000
        && -1_600_000_000_000_000 <= abx * cby <= 1_600_000_000_000_000
        && -1_600_000_000_000_000 <= aby * cbx <= 1_600_000_000_000_000) by (nonlinear_arith)
        requires
            -40_000_000 <= abx <= 40_000_000,
            -40_000_000 <= aby <= 40_000_000,
            -40_000_000 <= cbx <= 40_000_000,
            -40_000_000 <= cby <= 40_000_000,
    ;
    let dot: i64 = abx * cbx + aby * cby;
    let cross: i64 = abx * cby - aby * cbx;
    let raw: i64 = atan2_cd(cross, dot);
    let mag: i64 = if raw >= 0 { raw } else { -raw };
    if mag > STRAIGHT_CD {
        FULL_TURN_CD - mag
    } else {
        mag
    }
}

/// The signed frontal-plane angle at vertex `b`, in `[-18000, 18000]`
/// centidegrees: positive and negative deviations (for example knee
/// valgus against varus) keep their sign.  Low confidence yields `0`.
pub fn signed_angle(a: Keypoint, b: Keypoint, c: Keypoint) -> (r: i64)
    requires
        keypoint_bounded(a),
        keypoint_bounded(b),
        keypoint_bounded(c),
    ensures
        r == spec_signed_angle(a, b, c),
        -STRAIGHT_CD <= r <= STRAIGHT_CD,
        spec_low_confidence(a, b, c) ==> r == 0,
{
    if a.confidence < CONFIDENCE_FLOOR || b.confidence < CONFIDENCE_FLOOR
        || c.confidence < CONFIDENCE_FLOOR {
        return 0;
    }
    let abx: i64 = b.x - a.x;
    let aby: i64 = b.y - a.y;
    let cbx: i64 = b.x - c.x;
    let cby: i64 = b.y - c.y;
    assert(-1_600_000_000_000_000 <= abx * cbx <= 1_600_000_000_000_000
        && -1_600_000_000_000_000 <= aby * cby <= 1_600_000_000_000_000
        && -1_600_000_000_000_000 <= abx * cby <= 1_600_000_000_000_000
        && -1_600_000_000_000_000 <= aby * cbx <= 1_600_000_000_000_000) by (nonlinear_arith)
        requires
            -40_000_000 <= abx <= 40_000_000,
            -40_000_000 <= aby <= 40_000_000,
            -40_000_000 <= cbx <= 40_000_000,
            -40_000_000 <= cby <= 40_000_000,
    ;
    let dot: i64 = abx * cbx + aby * cby;
    let cross: i64 = abx * cby - aby * cbx;
    atan2_cd(cross, dot)
}

/// Signed deviation of the line `a -> b -> c` from straight in the
/// frontal plane: zero when the three keypoints are aligned, positive
/// when `b` bows to one side (valgus), negative to the other (varus).
/// Low confidence in any keypoint yields the neutral deviation `0`.
pub open spec fn spec_frontal_deviation(a: Keypoint, b: Keypoint, c: Keypoint) -> int {
    if spec_low_confidence(a, b, c) {
        0
    } else {
        let raw = spec_signed_angle(a, b, c);
        if raw >= 0 {
            18000 - raw
        } else {
            -(18000 + raw)
        }
    }
}

/// The signed frontal-plane deviation from a straight line at vertex
/// `b`, in centidegrees: the complement of the signed angle, so an
/// aligned hip-knee-ankle line reads `0` and the sign tells which side
/// the vertex bows to.
pub fn frontal_deviation(a: Keypoint, b: Keypoint, c: Keypoint) -> (r: i64)
    requires
        keypoint_bounded(a),
        keypoint_bounded(b),
        keypoint_bounded(c),
    ensures
        r == spec_frontal_deviation(a, b, c),
        -STRAIGHT_CD <= r <= STRAIGHT_CD,
        spec_low_confidence(a, b, c) ==> r == 0,
{
    if a.confidence < CONFIDENCE_FLOOR || b.confidence < CONFIDENCE_FLOOR
        || c.confidence < CONFIDENCE_FLOOR {
        return 0;
    }
    let raw: i64 = signed_angle(a, b, c);
    if raw >= 0 {
        STRAIGHT_CD - raw
    } else {
        -(STRAIGHT_CD + raw)
    }
}

/// The Euclidean distance between `a` and `b` in milli-units, rounded
/// down: the integer square root of the squared distance.
pub fn distance(a: Keypoint, b: Keypoint) -> (r: i64)
    requires
        keypoint_bounded(a),
        keypoint_bounded(b),
    ensures
        r * r <= (a.x - b.x) * (a.x - b.x) + (a.y - b.y) * (a.y - b.y),
        (a.x - b.x) * (a.x - b.x) + (a.y - b.y) * (a.y - b.y) < (r + 1) * (r + 1),
        0 <= r <= 30_000_000,
{
    let dx: i64 = a.x - b.x;
    let dy: i64 = a.y - b.y;
    assert(dx * dx + dy * dy <= 800_000_000_000_000 && dx * dx >= 0 && dy * dy >= 0)
        by (nonlinear_arith)
        requires
            -20_000_000 <= dx <= 20_000_000,
            -20_000_000 <= dy <= 20_000_000,
    ;
    let sq: i64 = dx * dx + dy * dy;
    isqrt(sq)
}

/// Integer square root by bisection: the greatest `r` with `r * r <= v`.
fn isqrt(v: i64) -> (r: i64)
    requires
        0 <= v <= 800_000_000_000_000,
    ensures
        r * r <= v < (r + 1) * (r + 1),
        0 <= r <= 30_000_000,
{
    let mut lo: i64 = 0;
    let mut hi: i64 = 30_000_001;
    assert(30_000_001 * 30_000_001 > 800_000_000_000_000) by (nonlinear_arith);
    while lo + 1 < hi
        invariant
            0 <= lo < hi <= 30_000_001,
            lo * lo <= v,
            v < hi * hi,
        decreases hi - lo,
    {
        let mid: i64 = lo + (hi - lo) / 2;
        assert(lo < mid < hi);
        assert(mid * mid <= 900_000_060_000_001) by (nonlinear_arith)
            requires
                0 < mid <= 30_000_001,
        ;
        if mid * mid <= v {
            lo = mid;
        } else {
            hi = mid;
        }
    }
    lo
}

} // verus!
