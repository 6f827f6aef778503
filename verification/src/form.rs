//! Form checking: compare extracted angles against the profile's target
//! ranges and qualitative rules, and emit structured violation signals.
//!
//! Two layers run and their results concatenate: the generic range
//! checks over the profile's target table, then the qualitative checks
//! (stabilization deviation, pattern-specific overrides).  An unknown
//! exercise (no profile) yields the empty list.

use vstd::prelude::*;

use crate::angles::AngleSet;
use crate::angles::JointRegion;
use crate::angles::angle_of;
use crate::pose::PoseAnalyzer;
use crate::profile::CompletionRule;
use crate::profile::ExerciseProfile;
use crate::profile::MovementPattern;
use crate::profile::spec_completion_rule;
use crate::units::STRAIGHT_CD;
use crate::units::div_trunc;

verus! {

/// The straight-wrist floor demanded of push-up variants, centidegrees.
pub const WRIST_FLOOR_CD: i64 = 15000;

/// What a form violation signals.
#[derive(Clone, Copy, Debug, PartialEq, Eq, Structural)]
pub enum ViolationKind {
    /// The observed angle fell below the target range.
    TooLow,
    /// The observed angle exceeded the target range.
    TooHigh,
    /// The stabilizer joint strayed too far from a straight angle.
    Unstable,
    /// A lockout-gated pattern with high strictness never reached its
    /// lockout angle.
    IncompleteLockout,
    /// A push-up variant bent the wrist below the straightness floor.
    BentWrist,
}

/// One structured form violation: the kind, the joint it concerns, the
/// observed angle and the boundary it was held against (all angles in
/// centidegrees; for `Unstable` the boundary is the allowed deviation).
#[derive(Clone, Copy, Debug, PartialEq, Eq, Structural)]
pub struct Violation {
    pub kind: ViolationKind,
    pub joint: JointRegion,
    pub observed: i64,
    pub bound: i64,
}

/// The violations one target-range entry contributes: too low, too
/// high, or nothing; an absent angle cannot be evaluated and is silent.
pub open spec fn spec_entry_violations(
    entry: (JointRegion, i64, i64),
    angles: Seq<(JointRegion, i64)>,
) -> Seq<Violation> {
    match angle_of(angles, entry.0) {
        Some(a) => {
            let low: Seq<Violation> = if a < entry.1 {
                seq![Violation { kind: ViolationKind::TooLow, joint: entry.0, observed: a, bound: entry.1 }]
            } else {
                Seq::empty()
            };
            let high: Seq<Violation> = if a > entry.2 {
                seq![Violation { kind: ViolationKind::TooHigh, joint: entry.0, observed: a, bound: entry.2 }]
            } else {
                Seq::empty()
            };
            low + high
        },
        None => Seq::empty(),
    }
}

/// The concatenated range violations of the first `n` target entries.
pub open spec fn spec_range_violations_upto(
    ranges: Seq<(JointRegion, i64, i64)>,
    angles: Seq<(JointRegion, i64)>,
    n: int,
) -> Seq<Violation>
    decreases n,
{
    if n <= 0 {
        Seq::empty()
    } else {
        spec_range_violations_upto(ranges, angles, n - 1) + spec_entry_violations(
            ranges[n - 1],
            angles,
        )
    }
}

/// The generic layer: every target-range entry checked in table order.
pub open spec fn spec_range_violations(
    ranges: Seq<(JointRegion, i64, i64)>,
    angles: Seq<(JointRegion, i64)>,
) -> Seq<Violation> {
    spec_range_violations_upto(ranges, angles, ranges.len() as int)
}

/// The deviation from a straight angle the profile tolerates of its
/// stabilizer joint: a band of up to `30`° shrunk by the stabilization
/// coefficient.
pub open spec fn spec_allowed_deviation(p: &ExerciseProfile) -> int {
    div_trunc((1000 - p.stabilization) * 3000, 1000)
}

/// The stabilization check: the stabilizer joint must stay within the
/// allowed deviation of a straight angle.
pub open spec fn spec_stability_violations(
    p: &ExerciseProfile,
    angles: Seq<(JointRegion, i64)>,
) -> Seq<Violation> {
    match angle_of(angles, p.stabilizer_joint) {
        Some(a) => {
            let dev = if a >= STRAIGHT_CD {
                a - STRAIGHT_CD
            } else {
                STRAIGHT_CD - a
            };
            if dev > spec_allowed_deviation(p) {
                seq![
                    Violation {
                        kind: ViolationKind::Unstable,
                        joint: p.stabilizer_joint,
                        observed: a,
                        bound: spec_allowed_deviation(p) as i64,
                    },
                ]
            } else {
                Seq::empty()
            }
        },
        None => Seq::empty(),
    }
}

/// The pattern-specific overrides, a closed switch on the movement
/// pattern: strict lockout completeness for lockout-gated patterns with
/// high strictness, and wrist straightness for push-up variants.
pub open spec fn spec_override_violations(
    p: &ExerciseProfile,
    angles: Seq<(JointRegion, i64)>,
) -> Seq<Violation> {
    let lockout_part: Seq<Violation> = if spec_completion_rule(p.pattern)
        == CompletionRule::LockoutGated && p.strictness > 800 {
        match (p.lockout_angle, angle_of(angles, p.primary_joint)) {
            (Some(lockout), Some(a)) => {
                if a < lockout {
                    seq![
                        Violation {
                            kind: ViolationKind::IncompleteLockout,
                            joint: p.primary_joint,
                            observed: a,
                            bound: lockout,
                        },
                    ]
                } else {
                    Seq::empty()
                }
            },
            _ => Seq::empty(),
        }
    } else {
        Seq::empty()
    };
    let wrist_part: Seq<Violation> = if p.pattern == MovementPattern::Pushup {
        match angle_of(angles, JointRegion::WristAngle) {
            Some(w) => {
                if w < WRIST_FLOOR_CD {
                    seq![
                        Violation {
                            kind: ViolationKind::BentWrist,
                            joint: JointRegion::WristAngle,
                            observed: w,
                            bound: WRIST_FLOOR_CD,
                        },
                    ]
                } else {
                    Seq::empty()
                }
            },
            None => Seq::empty(),
        }
    } else {
        Seq::empty()
    };
    lockout_part + wrist_part
}

/// Every violation the frame's angles earn under the profile, in order:
/// the range layer, then the stabilization check, then the overrides.
/// No profile (an unknown exercise) yields no violations.
pub open spec fn spec_violations(
    p: Option<&ExerciseProfile>,
    angles: Seq<(JointRegion, i64)>,
) -> Seq<Violation> {
    match p {
        Some(p) => spec_range_violations(p.target_ranges@, angles) + spec_stability_violations(
            p,
            angles,
        ) + spec_override_violations(p, angles),
        None => Seq::empty(),
    }
}

impl PoseAnalyzer {
    /// Check the frame's angles against the profile: emit a structured
    /// violation for every target range missed, for a stabilizer joint
    /// out of its band, and for every pattern override tripped.  An
    /// unknown exercise (no profile) yields the empty list.
    pub fn check_form(
        &self,
        profile: Option<&ExerciseProfile>,
        angles: &AngleSet,
    ) -> (r: Vec<Violation>)
        requires
            match profile {
                Some(p) => p.wf(),
                None => true,
            },
            angles.wf(),
        ensures
            r@ == spec_violations(profile, angles@),
            profile is None ==> r@.len() == 0,
    {
        let mut out: Vec<Violation> = Vec::new();
        let p: &ExerciseProfile = match profile {
            Some(p) => p,
            None => {
                proof {
                    assert(out@ =~= spec_violations(profile, angles@));
                }
                return out;
            },
        };
        let n: usize = p.target_ranges.len();
        let mut i: usize = 0;
        while i < n
            invariant
                0 <= i <= n,
                n == p.target_ranges@.len(),
                angles.wf(),
                out@ == spec_range_violations_upto(p.target_ranges@, angles@, i as int),
            decreases n - i,
        {
            let (joint, lo, hi) = p.target_ranges[i];
            let ghost before = out@;
            match angles.get(joint) {
                Some(a) => {
                    if a < lo {
                        out.push(
                            Violation {
                                kind: ViolationKind::TooLow,
                                joint,
                                observed: a,
                                bound: lo,
                            },
                        );
                    }
                    if a > hi {
                        out.push(
                            Violation {
                                kind: ViolationKind::TooHigh,
                                joint,
                                observed: a,
                                bound: hi,
                            },
                        );
                    }
                },
                None => {},
            }
            proof {
                assert(out@ =~= before + spec_entry_violations(
                    p.target_ranges@[i as int],
                    angles@,
                ));
            }
            i = i + 1;
        }
        let ghost after_ranges = out@;
        match angles.get(p.stabilizer_joint) {
            Some(a) => {
                proof {
                    crate::angles::lemma_angle_of_bounded(angles@, p.stabilizer_joint);
                }
                let dev: i64 = if a >= STRAIGHT_CD {
                    a - STRAIGHT_CD
                } else {
                    STRAIGHT_CD - a
                };
                let allowed: i64 = (((1000 - p.stabilization) as u64 * 3000u64) / 1000u64) as i64;
                assert(allowed == spec_allowed_deviation(p));
                if dev > allowed {
                    out.push(
                        Violation {
                            kind: ViolationKind::Unstable,
                            joint: p.stabilizer_joint,
                            observed: a,
                            bound: allowed,
                        },
                    );
                }
            },
            None => {},
        }
        proof {
            assert(out@ =~= after_ranges + spec_stability_violations(p, angles@));
        }
        let ghost after_stability = out@;
        let rule: bool = match p.pattern {
            MovementPattern::Press => true,
            MovementPattern::Squat => true,
            MovementPattern::Hinge => true,
            MovementPattern::Pull => true,
            MovementPattern::Curl => true,
            MovementPattern::Lunge => true,
            MovementPattern::Pushup => true,
            MovementPattern::StepUp => true,
            _ => false,
        };
        proof {
            assert(rule == (spec_completion_rule(p.pattern) == CompletionRule::LockoutGated));
        }
        if rule && p.strictness > 800 {
            match (p.lockout_angle, angles.get(p.primary_joint)) {
                (Some(lockout), Some(a)) => {
                    if a < lockout {
                        out.push(
                            Violation {
                                kind: ViolationKind::IncompleteLockout,
                                joint: p.primary_joint,
                                observed: a,
                                bound: lockout,
                            },
                        );
                    }
                },
                _ => {},
            }
        }
        if matches!(p.pattern, MovementPattern::Pushup) {
            match angles.get(JointRegion::WristAngle) {
                Some(w) => {
                    if w < WRIST_FLOOR_CD {
                        out.push(
                            Violation {
                                kind: ViolationKind::BentWrist,
                                joint: JointRegion::WristAngle,
                                observed: w,
                                bound: WRIST_FLOOR_CD,
                            },
                        );
                    }
                },
                None => {},
            }
        }
        proof {
            assert(out@ =~= after_stability + spec_override_violations(p, angles@));
            assert(out@ =~= spec_violations(profile, angles@));
        }
        out
    }
}

} // verus!
