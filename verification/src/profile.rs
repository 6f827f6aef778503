//! Exercise profiles: the per-exercise configuration the engine is
//! parameterized by.
//!
//! A profile carries one movement-pattern tag drawn from a closed
//! taxonomy, the primary-joint range of motion, threshold coefficients,
//! the form-check target table and the engagement weights.  Profiles are
//! configuration data: the library never hardcodes an exercise catalog,
//! the host loads one profile per session and hands it in.  An
//! unrecognized exercise identifier is represented by handing in no
//! profile at all, which the whole engine treats as a neutral no-op.

use vstd::prelude::*;

use crate::angles::JointRegion;
use crate::units::ANGLE_LIMIT;
use crate::units::PER_MILLE;

verus! {

/// The coarse biomechanical category of an exercise.  The tag decides
/// which phase-classification family and which repetition-completion rule
/// the engine applies.
#[derive(Clone, Copy, Debug, PartialEq, Eq, Structural)]
pub enum MovementPattern {
    /// Symmetric press: lockout-gated completion at full strictness.
    Press,
    /// Symmetric squat: lockout-gated completion at full strictness.
    Squat,
    /// Symmetric hip hinge: lockout-gated completion.
    Hinge,
    /// Symmetric pull: lockout-gated completion.
    Pull,
    /// Symmetric curl: lockout-gated completion at full strictness.
    Curl,
    /// Scaled bidirectional lunge: a more decisive push is demanded
    /// before a concentric phase is declared.
    Lunge,
    /// Scaled bidirectional push-up: lockout-gated, with a wrist
    /// straightness override in the form checker.
    Pushup,
    /// Explosive movement: strongly scaled thresholds, edge-gated.
    Plyometric,
    /// Magnitude-only kickback: no hold state, edge-gated.
    Kickback,
    /// Magnitude-only rotation: no hold state, edge-gated.
    Rotation,
    /// Magnitude-only step-up: no hold state, lockout-gated.
    StepUp,
    /// Raise measured from full extension: stretch-gated completion.
    LegRaise,
    /// Isometric hold: occupancy-driven static phase, hold-gated
    /// completion counted once per hold episode.
    IsometricHold,
    /// Eccentric-only movement: only the lowering phase is classified.
    EccentricOnly,
    /// Neutral fallback bucket: no phase is detected and no repetition
    /// is ever counted.
    Isolation,
}

/// Per-mille multiplier on the velocity threshold for the concentric
/// branch of phase detection.
pub open spec fn spec_concentric_scale(p: MovementPattern) -> int {
    match p {
        MovementPattern::Lunge => 1200,
        MovementPattern::Pushup => 1200,
        MovementPattern::Plyometric => 1500,
        _ => 1000,
    }
}

/// Per-mille multiplier on the velocity threshold for the eccentric
/// branch of phase detection.
pub open spec fn spec_eccentric_scale(p: MovementPattern) -> int {
    match p {
        MovementPattern::Lunge => 800,
        MovementPattern::Pushup => 800,
        MovementPattern::Plyometric => 700,
        MovementPattern::EccentricOnly => 500,
        _ => 1000,
    }
}

/// Patterns whose near-still top position classifies as a static hold.
pub open spec fn spec_has_hold(p: MovementPattern) -> bool {
    match p {
        MovementPattern::Press => true,
        MovementPattern::Squat => true,
        MovementPattern::Hinge => true,
        MovementPattern::Pull => true,
        MovementPattern::Curl => true,
        MovementPattern::LegRaise => true,
        _ => false,
    }
}

/// Patterns classified by velocity magnitude alone, without a hold state.
pub open spec fn spec_magnitude_only(p: MovementPattern) -> bool {
    match p {
        MovementPattern::Kickback => true,
        MovementPattern::Rotation => true,
        MovementPattern::StepUp => true,
        _ => false,
    }
}

/// The repetition-completion rule a pattern applies once phase and ROM
/// are known.
#[derive(Clone, Copy, Debug, PartialEq, Eq, Structural)]
pub enum CompletionRule {
    /// The previous frame reached the lockout angle and motion reversed
    /// into an eccentric phase.
    LockoutGated,
    /// The stored phase was concentric and the new phase is eccentric.
    EdgeGated,
    /// The previous frame had returned to the stretch angle and motion
    /// turned concentric.
    StretchGated,
    /// The frame enters a static hold; counted once per hold episode.
    HoldGated,
    /// The frame enters an eccentric phase; counted once per descent.
    EccentricEntry,
    /// No repetition is ever counted.
    NoRep,
}

/// Which completion rule governs pattern `p`.
pub open spec fn spec_completion_rule(p: MovementPattern) -> CompletionRule {
    match p {
        MovementPattern::Press => CompletionRule::LockoutGated,
        MovementPattern::Squat => CompletionRule::LockoutGated,
        MovementPattern::Hinge => CompletionRule::LockoutGated,
        MovementPattern::Pull => CompletionRule::LockoutGated,
        MovementPattern::Curl => CompletionRule::LockoutGated,
        MovementPattern::Lunge => CompletionRule::LockoutGated,
        MovementPattern::Pushup => CompletionRule::LockoutGated,
        MovementPattern::StepUp => CompletionRule::LockoutGated,
        MovementPattern::Plyometric => CompletionRule::EdgeGated,
        MovementPattern::Kickback => CompletionRule::EdgeGated,
        MovementPattern::Rotation => CompletionRule::EdgeGated,
        MovementPattern::LegRaise => CompletionRule::StretchGated,
        MovementPattern::IsometricHold => CompletionRule::HoldGated,
        MovementPattern::EccentricOnly => CompletionRule::EccentricEntry,
        MovementPattern::Isolation => CompletionRule::NoRep,
    }
}

/// Per-mille fraction of the profile's minimum-ROM requirement that the
/// smoothed ROM must clear before a repetition of pattern `p` counts.
pub open spec fn spec_rom_scale(p: MovementPattern) -> int {
    match p {
        MovementPattern::Press => 600,
        MovementPattern::Squat => 1000,
        MovementPattern::Hinge => 900,
        MovementPattern::Pull => 900,
        MovementPattern::Curl => 1000,
        MovementPattern::Lunge => 900,
        MovementPattern::Pushup => 750,
        MovementPattern::Plyometric => 800,
        MovementPattern::Kickback => 800,
        MovementPattern::Rotation => 600,
        MovementPattern::StepUp => 800,
        MovementPattern::LegRaise => 1000,
        MovementPattern::IsometricHold => 1000,
        MovementPattern::EccentricOnly => 700,
        MovementPattern::Isolation => 0,
    }
}

/// The configuration of one exercise.
///
/// Angles in centidegrees, fractions and coefficients in per-mille,
/// velocities in centidegrees per second.
#[derive(Debug)]
pub struct ExerciseProfile {
    /// The movement-pattern tag.
    pub pattern: MovementPattern,
    /// The joint whose angle drives ROM, velocity and phase.
    pub primary_joint: JointRegion,
    /// The joint whose deviation from a straight angle measures
    /// stabilization.
    pub stabilizer_joint: JointRegion,
    /// Primary-joint angle at zero range of motion.
    pub range_min: i64,
    /// Primary-joint angle at full range of motion.
    pub range_max: i64,
    /// Smoothed angular speed above which motion counts as deliberate.
    pub velocity_threshold: i64,
    /// Smoothed ROM fraction a repetition must clear, per-mille.
    pub min_rom_fraction: i64,
    /// Angle at which the primary joint counts as fully extended.
    pub lockout_angle: Option<i64>,
    /// Angle at which the primary joint counts as fully returned.
    pub stretch_angle: Option<i64>,
    /// ROM occupancy above which an isometric pattern holds, per-mille.
    pub hold_occupancy: i64,
    /// Target angle ranges checked by the form checker.
    pub target_ranges: Vec<(JointRegion, i64, i64)>,
    /// How strictly the stabilizer joint must stay near straight.
    pub stabilization: i64,
    /// Multiplicative strictness factor on the engagement score; also
    /// gates the incomplete-lockout form override.
    pub strictness: i64,
    /// Engagement weight of the primary ROM fraction.
    pub weight_rom: i64,
    /// Engagement weight of the stabilization fraction.
    pub weight_stability: i64,
    /// Engagement weight of the lockout bonus term.
    pub weight_bonus: i64,
}

/// Every target range is bounded and ordered.
pub open spec fn ranges_wf(s: Seq<(JointRegion, i64, i64)>) -> bool {
    forall|i: int|
        0 <= i < s.len() ==> {
            &&& -ANGLE_LIMIT <= (#[trigger] s[i]).1 <= ANGLE_LIMIT
            &&& -ANGLE_LIMIT <= s[i].2 <= ANGLE_LIMIT
            &&& s[i].1 <= s[i].2
        }
}

impl ExerciseProfile {
    /// Well-formedness of the configuration: ordered, bounded ranges and
    /// per-mille coefficients, with engagement weights summing to at most
    /// one.  Every session is expected to start from a well-formed
    /// profile; all engine entry points require it.
    pub open spec fn wf(&self) -> bool {
        &&& -ANGLE_LIMIT <= self.range_min <= ANGLE_LIMIT
        &&& -ANGLE_LIMIT <= self.range_max <= ANGLE_LIMIT
        &&& self.range_min < self.range_max
        &&& 0 <= self.velocity_threshold <= 1_000_000_000
        &&& 0 <= self.min_rom_fraction <= PER_MILLE
        &&& match self.lockout_angle {
            Some(a) => -ANGLE_LIMIT <= a <= ANGLE_LIMIT,
            None => true,
        }
        &&& match self.stretch_angle {
            Some(a) => -ANGLE_LIMIT <= a <= ANGLE_LIMIT,
            None => true,
        }
        &&& 0 <= self.hold_occupancy <= PER_MILLE
        &&& ranges_wf(self.target_ranges@)
        &&& 0 <= self.stabilization <= PER_MILLE
        &&& 0 <= self.strictness <= PER_MILLE
        &&& 0 <= self.weight_rom
        &&& 0 <= self.weight_stability
        &&& 0 <= self.weight_bonus
        &&& self.weight_rom + self.weight_stability + self.weight_bonus <= PER_MILLE
    }

    /// Executable form of [`ExerciseProfile::wf`], for hosts that load
    /// profiles from configuration and must validate them before a
    /// session starts.
    pub fn is_wf(&self) -> (b: bool)
        ensures
            b == self.wf(),
    {
        let coeffs_ok: bool = 0 <= self.velocity_threshold && self.velocity_threshold
            <= 1_000_000_000 && 0 <= self.min_rom_fraction && self.min_rom_fraction <= PER_MILLE
            && 0 <= self.hold_occupancy && self.hold_occupancy <= PER_MILLE && 0
            <= self.stabilization && self.stabilization <= PER_MILLE && 0 <= self.strictness
            && self.strictness <= PER_MILLE;
        let weights_ok: bool = 0 <= self.weight_rom && 0 <= self.weight_stability && 0
            <= self.weight_bonus && self.weight_rom <= PER_MILLE && self.weight_stability
            <= PER_MILLE && self.weight_bonus <= PER_MILLE && self.weight_rom
            + self.weight_stability + self.weight_bonus <= PER_MILLE;
        let range_ok: bool = -ANGLE_LIMIT <= self.range_min && self.range_min <= ANGLE_LIMIT
            && -ANGLE_LIMIT <= self.range_max && self.range_max <= ANGLE_LIMIT && self.range_min
            < self.range_max;
        let lockout_ok: bool = match self.lockout_angle {
            Some(a) => -ANGLE_LIMIT <= a && a <= ANGLE_LIMIT,
            None => true,
        };
        let stretch_ok: bool = match self.stretch_angle {
            Some(a) => -ANGLE_LIMIT <= a && a <= ANGLE_LIMIT,
            None => true,
        };
        let targets_ok: bool = self.targets_wf();
        coeffs_ok && weights_ok && range_ok && lockout_ok && stretch_ok && targets_ok
    }

    /// Executable check of the target-range table.
    fn targets_wf(&self) -> (b: bool)
        ensures
            b == ranges_wf(self.target_ranges@),
    {
        let n: usize = self.target_ranges.len();
        let mut i: usize = 0;
        while i < n
            invariant
                0 <= i <= n,
                n == self.target_ranges@.len(),
                forall|k: int|
                    0 <= k < i ==> {
                        &&& -ANGLE_LIMIT <= (#[trigger] self.target_ranges@[k]).1 <= ANGLE_LIMIT
                        &&& -ANGLE_LIMIT <= self.target_ranges@[k].2 <= ANGLE_LIMIT
                        &&& self.target_ranges@[k].1 <= self.target_ranges@[k].2
                    },
            decreases n - i,
        {
            let (_, lo, hi) = self.target_ranges[i];
            if !(-ANGLE_LIMIT <= lo && lo <= ANGLE_LIMIT && -ANGLE_LIMIT <= hi && hi <= ANGLE_LIMIT
                && lo <= hi) {
                return false;
            }
            i = i + 1;
        }
        true
    }
}

} // verus!
