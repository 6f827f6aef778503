//! Engagement scoring: a weighted composite of normalized sub-scores,
//! scaled by the profile's strictness factor and clamped into
//! `[0.1, 1.0]` (per-mille `[100, 1000]`).
//!
//! Engagement is never reported as exactly zero nor above one; an
//! unknown exercise (no profile) scores the fixed neutral `0.5`.

use vstd::prelude::*;

use crate::angles::AngleSet;
use crate::angles::angle_of;
use crate::pose::PoseAnalyzer;
use crate::profile::ExerciseProfile;
use crate::rep_counter::spec_rom_fraction;
use crate::rep_counter::rom_fraction;
use crate::units::STRAIGHT_CD;
use crate::units::div_trunc;
use crate::units::div_trunc_i64;
use crate::units::spec_clamp;

verus! {

/// The neutral score reported for an unknown exercise, per-mille.
pub const NEUTRAL_ENGAGEMENT: i64 = 500;

/// The stabilization sub-score, per-mille: full marks at a straight
/// stabilizer angle, fading linearly to zero at `30`° of deviation.  An
/// absent stabilizer angle contributes nothing.
pub open spec fn spec_stability_subscore(
    p: &ExerciseProfile,
    angles: Seq<(crate::angles::JointRegion, i64)>,
) -> int {
    match angle_of(angles, p.stabilizer_joint) {
        Some(a) => {
            let dev = if a >= STRAIGHT_CD {
                a - STRAIGHT_CD
            } else {
                STRAIGHT_CD - a
            };
            let score = 1000 - div_trunc(dev, 3);
            if score < 0 {
                0
            } else {
                score
            }
        },
        None => 0,
    }
}

/// The lockout bonus sub-score, per-mille: full marks when the primary
/// joint has reached the profile's lockout angle, nothing otherwise or
/// when the profile defines no lockout.
pub open spec fn spec_bonus_subscore(
    p: &ExerciseProfile,
    angles: Seq<(crate::angles::JointRegion, i64)>,
) -> int {
    match (p.lockout_angle, angle_of(angles, p.primary_joint)) {
        (Some(lockout), Some(a)) => if a >= lockout {
            1000
        } else {
            0
        },
        _ => 0,
    }
}

/// The composite engagement score, per-mille: the profile-weighted sum
/// of the ROM, stabilization and bonus sub-scores, scaled by the
/// strictness factor and clamped into `[100, 1000]`.  No profile scores
/// the fixed neutral `500`.
pub open spec fn spec_engagement(
    p: Option<&ExerciseProfile>,
    angles: Seq<(crate::angles::JointRegion, i64)>,
) -> int {
    match p {
        Some(p) => {
            let rom = spec_rom_fraction(p, angle_of(angles, p.primary_joint));
            let stability = spec_stability_subscore(p, angles);
            let bonus = spec_bonus_subscore(p, angles);
            let raw = div_trunc(
                p.weight_rom * rom + p.weight_stability * stability + p.weight_bonus * bonus,
                1000,
            );
            let adjusted = div_trunc(raw * p.strictness, 1000);
            spec_clamp(adjusted, 100, 1000)
        },
        None => NEUTRAL_ENGAGEMENT as int,
    }
}

impl PoseAnalyzer {
    /// The engagement score of the frame, per-mille, always in
    /// `[100, 1000]` — for any profile and any angle set, the empty set
    /// included.  An unknown exercise (no profile) scores exactly the
    /// neutral `500`.
    pub fn calculate_engagement(
        &self,
        profile: Option<&ExerciseProfile>,
        angles: &AngleSet,
    ) -> (r: i64)
        requires
            match profile {
                Some(p) => p.wf(),
                None => true,
            },
            angles.wf(),
        ensures
            r == spec_engagement(profile, angles@),
            100 <= r <= 1000,
            profile is None ==> r == NEUTRAL_ENGAGEMENT,
    {
        let p: &ExerciseProfile = match profile {
            Some(p) => p,
            None => {
                return NEUTRAL_ENGAGEMENT;
            },
        };
        let rom: i64 = rom_fraction(p, angles);
        let stability: i64 = match angles.get(p.stabilizer_joint) {
            Some(a) => {
                proof {
                    crate::angles::lemma_angle_of_bounded(angles@, p.stabilizer_joint);
                }
                let dev: i64 = if a >= STRAIGHT_CD {
                    a - STRAIGHT_CD
                } else {
                    STRAIGHT_CD - a
                };
                let fade: i64 = div_trunc_i64(dev, 3);
                if fade > 1000 {
                    0
                } else {
                    1000 - fade
                }
            },
            None => 0,
        };
        let bonus: i64 = match (p.lockout_angle, angles.get(p.primary_joint)) {
            (Some(lockout), Some(a)) => if a >= lockout {
                1000
            } else {
                0
            },
            _ => 0,
        };
        assert(0 <= p.weight_rom * rom <= 1_000_000 && 0 <= p.weight_stability * stability
            <= 1_000_000 && 0 <= p.weight_bonus * bonus <= 1_000_000) by (nonlinear_arith)
            requires
                0 <= p.weight_rom <= 1000,
                0 <= p.weight_stability <= 1000,
                0 <= p.weight_bonus <= 1000,
                0 <= rom <= 1000,
                0 <= stability <= 1000,
                0 <= bonus <= 1000,
        ;
        let weighted: i64 = p.weight_rom * rom + p.weight_stability * stability + p.weight_bonus
            * bonus;
        let raw: i64 = ((weighted as u64) / 1000u64) as i64;
        assert(raw == div_trunc(weighted as int, 1000));
        assert(0 <= raw * p.strictness <= 3_000_000_000) by (nonlinear_arith)
            requires
                0 <= raw <= 3000,
                0 <= p.strictness <= 1000,
        ;
        let adjusted: i64 = ((raw * p.strictness) as u64 / 1000u64) as i64;
        assert(adjusted == div_trunc(raw * p.strictness, 1000));
        if adjusted < 100 {
            100
        } else if adjusted > 1000 {
            1000
        } else {
            adjusted
        }
    }
}

} // verus!
