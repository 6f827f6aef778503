//! Movement-phase detection: a pure function from smoothed angular
//! velocity and smoothed range-of-motion fraction to a phase tag,
//! parameterized by the profile's movement pattern and velocity
//! threshold.

use vstd::prelude::*;

use crate::profile::ExerciseProfile;
use crate::profile::MovementPattern;
use crate::profile::spec_concentric_scale;
use crate::profile::spec_eccentric_scale;
use crate::profile::spec_has_hold;
use crate::profile::spec_magnitude_only;
use crate::units::div_trunc;

verus! {

/// The instantaneous classification of joint motion.
#[derive(Clone, Copy, Debug, PartialEq, Eq, Structural)]
pub enum MovementPhase {
    /// The working (shortening) phase of the movement.
    Concentric,
    /// The returning (lengthening) phase of the movement.
    Eccentric,
    /// A deliberate still position at high range of motion.
    StaticHold,
    /// No deliberate motion detected.
    Idle,
}

/// The phase classified for pattern family of `p` at smoothed velocity
/// `velocity` (centidegrees per second) and smoothed ROM fraction `rom`
/// (per-mille).
///
/// - Isometric patterns hold whenever occupancy is cleared and never
///   classify direction.
/// - Eccentric-only patterns emit only the eccentric branch, at half the
///   threshold.
/// - Magnitude-only patterns split on the sign of the velocity and have
///   no hold state.
/// - The bidirectional families compare against the pattern-scaled
///   thresholds and fall back to a static hold at high occupancy.
/// - The isolation fallback never detects a phase.
pub open spec fn spec_detect_phase(p: &ExerciseProfile, velocity: int, rom: int) -> MovementPhase {
    if p.pattern == MovementPattern::Isolation {
        MovementPhase::Idle
    } else if p.pattern == MovementPattern::IsometricHold {
        if rom > p.hold_occupancy {
            MovementPhase::StaticHold
        } else {
            MovementPhase::Idle
        }
    } else if p.pattern == MovementPattern::EccentricOnly {
        if velocity < -div_trunc(p.velocity_threshold * 500, 1000) {
            MovementPhase::Eccentric
        } else {
            MovementPhase::Idle
        }
    } else if spec_magnitude_only(p.pattern) {
        if velocity > p.velocity_threshold {
            MovementPhase::Concentric
        } else if velocity < -p.velocity_threshold {
            MovementPhase::Eccentric
        } else {
            MovementPhase::Idle
        }
    } else {
        let con = div_trunc(p.velocity_threshold * spec_concentric_scale(p.pattern), 1000);
        let ecc = div_trunc(p.velocity_threshold * spec_eccentric_scale(p.pattern), 1000);
        if velocity > con {
            MovementPhase::Concentric
        } else if velocity < -ecc {
            MovementPhase::Eccentric
        } else if spec_has_hold(p.pattern) && rom > 900 {
            MovementPhase::StaticHold
        } else {
            MovementPhase::Idle
        }
    }
}

/// Per-mille concentric threshold scale, executable form.
fn concentric_scale(p: MovementPattern) -> (r: i64)
    ensures
        r == spec_concentric_scale(p),
        1000 <= r <= 1500,
{
    match p {
        MovementPattern::Lunge => 1200,
        MovementPattern::Pushup => 1200,
        MovementPattern::Plyometric => 1500,
        _ => 1000,
    }
}

/// Per-mille eccentric threshold scale, executable form.
fn eccentric_scale(p: MovementPattern) -> (r: i64)
    ensures
        r == spec_eccentric_scale(p),
        500 <= r <= 1000,
{
    match p {
        MovementPattern::Lunge => 800,
        MovementPattern::Pushup => 800,
        MovementPattern::Plyometric => 700,
        MovementPattern::EccentricOnly => 500,
        _ => 1000,
    }
}

/// Classify the instantaneous movement phase from the smoothed angular
/// velocity (centidegrees per second) and the smoothed ROM fraction
/// (per-mille), according to the profile's movement pattern and velocity
/// threshold.
pub fn detect_phase(p: &ExerciseProfile, velocity: i64, rom: i64) -> (r: MovementPhase)
    requires
        p.wf(),
        -0x1000_0000_0000_0000 <= velocity <= 0x1000_0000_0000_0000,
    ensures
        r == spec_detect_phase(p, velocity as int, rom as int),
{
    match p.pattern {
        MovementPattern::Isolation => MovementPhase::Idle,
        MovementPattern::IsometricHold => {
            if rom > p.hold_occupancy {
                MovementPhase::StaticHold
            } else {
                MovementPhase::Idle
            }
        },
        MovementPattern::EccentricOnly => {
            let half: i64 = ((p.velocity_threshold as u64 * 500u64) / 1000u64) as i64;
            assert(half == div_trunc(p.velocity_threshold * 500, 1000));
            if velocity < -half {
                MovementPhase::Eccentric
            } else {
                MovementPhase::Idle
            }
        },
        MovementPattern::Kickback | MovementPattern::Rotation | MovementPattern::StepUp => {
            if velocity > p.velocity_threshold {
                MovementPhase::Concentric
            } else if velocity < -p.velocity_threshold {
                MovementPhase::Eccentric
            } else {
                MovementPhase::Idle
            }
        },
        _ => {
            let cs: i64 = concentric_scale(p.pattern);
            let es: i64 = eccentric_scale(p.pattern);
            assert(0 <= p.velocity_threshold * cs <= 1_500_000_000_000 && 0
                <= p.velocity_threshold * es <= 1_500_000_000_000) by (nonlinear_arith)
                requires
                    0 <= p.velocity_threshold <= 1_000_000_000,
                    0 <= cs <= 1500,
                    0 <= es <= 1500,
            ;
            let con: i64 = ((p.velocity_threshold as u64 * cs as u64) / 1000u64) as i64;
            let ecc: i64 = ((p.velocity_threshold as u64 * es as u64) / 1000u64) as i64;
            assert(con == div_trunc(p.velocity_threshold * cs, 1000));
            assert(ecc == div_trunc(p.velocity_threshold * es, 1000));
            if velocity > con {
                MovementPhase::Concentric
            } else if velocity < -ecc {
                MovementPhase::Eccentric
            } else {
                let hold: bool = match p.pattern {
                    MovementPattern::Press => true,
                    MovementPattern::Squat => true,
                    MovementPattern::Hinge => true,
                    MovementPattern::Pull => true,
                    MovementPattern::Curl => true,
                    MovementPattern::LegRaise => true,
                    _ => false,
                };
                if hold && rom > 900 {
                    MovementPhase::StaticHold
                } else {
                    MovementPhase::Idle
                }
            }
        },
    }
}

} // verus!
