//! The angle extractor: from a flat keypoint buffer in the fixed
//! anatomical ordering to the named angle set of a targeted muscle
//! group.
//!
//! The buffer carries three values per keypoint: x and y in milli-units
//! and the confidence in per-mille, in the conventional seventeen-point
//! ordering (nose, eyes, ears, shoulders, elbows, wrists, hips, knees,
//! ankles).  Upper-body groups need the first eleven keypoints
//! (33 values); lower- and full-body groups need all seventeen
//! (51 values).  A shorter buffer yields the empty set: a missing key
//! means "cannot evaluate this metric now", never zero.

use vstd::prelude::*;

use crate::angles::AngleSet;
use crate::angles::JointRegion;
use crate::geometry::Keypoint;
use crate::geometry::angle_between;
use crate::geometry::frontal_deviation;
use crate::geometry::spec_angle;
use crate::geometry::spec_frontal_deviation;
use crate::units::COORD_LIMIT;

verus! {

/// The muscle group an extraction targets; decides which named angles
/// are produced and how many keypoints the buffer must carry.
#[derive(Clone, Copy, Debug, PartialEq, Eq, Structural)]
pub enum MuscleGroup {
    Triceps,
    Shoulders,
    Chest,
    Biceps,
    Back,
    Quadriceps,
    Hamstrings,
    Glutes,
    Calves,
    Abdominals,
}

/// Upper-body groups are served by the first eleven keypoints.
pub open spec fn spec_upper_body(g: MuscleGroup) -> bool {
    match g {
        MuscleGroup::Triceps => true,
        MuscleGroup::Shoulders => true,
        MuscleGroup::Chest => true,
        MuscleGroup::Biceps => true,
        MuscleGroup::Back => true,
        _ => false,
    }
}

/// The minimum buffer length (in values, three per keypoint) that an
/// extraction for group `g` needs.
pub open spec fn spec_required_len(g: MuscleGroup) -> int {
    if spec_upper_body(g) {
        33
    } else {
        51
    }
}

/// Every buffer value is within the coordinate limit.
pub open spec fn buffer_bounded(s: Seq<i64>) -> bool {
    forall|i: int| 0 <= i < s.len() ==> -COORD_LIMIT <= #[trigger] s[i] <= COORD_LIMIT
}

/// The keypoint stored at index `i` of the buffer.
pub open spec fn spec_kp(s: Seq<i64>, i: int) -> Keypoint {
    Keypoint { x: s[3 * i], y: s[3 * i + 1], confidence: s[3 * i + 2] }
}

/// The angle, as `spec_angle`, between buffer keypoints `a`, `b`, `c`,
/// narrowed to a machine integer.
pub open spec fn spec_kp_angle(s: Seq<i64>, a: int, b: int, c: int) -> i64 {
    spec_angle(spec_kp(s, a), spec_kp(s, b), spec_kp(s, c)) as i64
}

/// The signed frontal-plane deviation, as `spec_frontal_deviation`, at
/// buffer keypoint `b` between `a` and `c`, narrowed to a machine
/// integer.
pub open spec fn spec_kp_frontal(s: Seq<i64>, a: int, b: int, c: int) -> i64 {
    spec_frontal_deviation(spec_kp(s, a), spec_kp(s, b), spec_kp(s, c)) as i64
}

/// The named angles extracted for group `g` from buffer `s`: the
/// group's primary joint angle, its stabilization angle, and its
/// auxiliary angles, each the three-point angle of a fixed keypoint
/// triple.  A buffer below the group's required length yields the empty
/// set.
pub open spec fn spec_extracted(g: MuscleGroup, s: Seq<i64>) -> Seq<(JointRegion, i64)> {
    if s.len() < spec_required_len(g) {
        Seq::<(JointRegion, i64)>::empty()
    } else {
        match g {
            MuscleGroup::Triceps => seq![
                (JointRegion::ElbowFlexion, spec_kp_angle(s, 5, 7, 9)),
                (JointRegion::ShoulderPosition, spec_kp_angle(s, 0, 5, 7)),
                (JointRegion::TorsoStability, spec_kp_angle(s, 5, 0, 6)),
                (JointRegion::WristAngle, spec_kp_angle(s, 7, 9, 10)),
            ],
            MuscleGroup::Shoulders => seq![
                (JointRegion::ShoulderFlexion, spec_kp_angle(s, 0, 5, 7)),
                (JointRegion::ScapularMovement, spec_kp_angle(s, 5, 0, 6)),
                (JointRegion::ElbowFlexion, spec_kp_angle(s, 5, 7, 9)),
                (JointRegion::ShoulderRotation, spec_kp_angle(s, 7, 5, 9)),
            ],
            MuscleGroup::Chest => seq![
                (JointRegion::ElbowFlexion, spec_kp_angle(s, 5, 7, 9)),
                (JointRegion::ShoulderPosition, spec_kp_angle(s, 0, 5, 7)),
                (JointRegion::TorsoStability, spec_kp_angle(s, 5, 0, 6)),
                (JointRegion::WristAngle, spec_kp_angle(s, 7, 9, 10)),
            ],
            MuscleGroup::Biceps => seq![
                (JointRegion::ElbowFlexion, spec_kp_angle(s, 5, 7, 9)),
                (JointRegion::ShoulderPosition, spec_kp_angle(s, 0, 5, 7)),
                (JointRegion::TorsoStability, spec_kp_angle(s, 5, 0, 6)),
            ],
            MuscleGroup::Back => seq![
                (JointRegion::ElbowFlexion, spec_kp_angle(s, 5, 7, 9)),
                (JointRegion::ShoulderFlexion, spec_kp_angle(s, 0, 5, 7)),
                (JointRegion::TorsoStability, spec_kp_angle(s, 5, 0, 6)),
            ],
            MuscleGroup::Quadriceps => seq![
                (JointRegion::KneeFlexion, spec_kp_angle(s, 11, 13, 15)),
                (JointRegion::HipFlexion, spec_kp_angle(s, 5, 11, 13)),
                (JointRegion::TorsoAlignment, spec_kp_angle(s, 0, 5, 11)),
                (JointRegion::StanceAngle, spec_kp_angle(s, 15, 11, 16)),
                (JointRegion::FrontalAlignment, spec_kp_frontal(s, 11, 13, 15)),
            ],
            MuscleGroup::Hamstrings => seq![
                (JointRegion::HipExtension, spec_kp_angle(s, 5, 11, 13)),
                (JointRegion::KneeFlexion, spec_kp_angle(s, 11, 13, 15)),
                (JointRegion::TorsoAlignment, spec_kp_angle(s, 0, 5, 11)),
                (JointRegion::FrontalAlignment, spec_kp_frontal(s, 11, 13, 15)),
            ],
            MuscleGroup::Glutes => seq![
                (JointRegion::HipExtension, spec_kp_angle(s, 5, 11, 13)),
                (JointRegion::KneeFlexion, spec_kp_angle(s, 11, 13, 15)),
                (JointRegion::TorsoAlignment, spec_kp_angle(s, 0, 5, 11)),
                (JointRegion::FrontalAlignment, spec_kp_frontal(s, 11, 13, 15)),
            ],
            MuscleGroup::Calves => seq![
                (JointRegion::AnkleFlexion, spec_kp_angle(s, 13, 15, 16)),
                (JointRegion::KneeFlexion, spec_kp_angle(s, 11, 13, 15)),
                (JointRegion::TorsoAlignment, spec_kp_angle(s, 0, 5, 11)),
                (JointRegion::FrontalAlignment, spec_kp_frontal(s, 11, 13, 15)),
            ],
            MuscleGroup::Abdominals => seq![
                (JointRegion::SpineFlexion, spec_kp_angle(s, 0, 11, 13)),
                (JointRegion::HipFlexion, spec_kp_angle(s, 5, 11, 13)),
                (JointRegion::TorsoAlignment, spec_kp_angle(s, 0, 5, 11)),
            ],
        }
    }
}

/// Read the keypoint at index `i` out of the flat buffer.
fn kp(buf: &Vec<i64>, i: usize) -> (r: Keypoint)
    requires
        i <= 16,
        3 * i + 2 < buf@.len(),
        buffer_bounded(buf@),
    ensures
        r == spec_kp(buf@, i as int),
        crate::geometry::keypoint_bounded(r),
{
    Keypoint { x: buf[3 * i], y: buf[3 * i + 1], confidence: buf[3 * i + 2] }
}

/// The stateless pose analyzer: angle extraction, form checking and
/// engagement scoring over extracted angle sets.
#[derive(Debug)]
pub struct PoseAnalyzer {
}

impl PoseAnalyzer {
    /// A pose analyzer.  The analyzer holds no state: every product is a
    /// pure function of the frame and the profile handed in.
    pub fn new() -> (r: PoseAnalyzer)
        ensures
            true,
    {
        PoseAnalyzer {  }
    }

    /// Extract the named angle set of muscle group `group` from a flat
    /// keypoint buffer.  A buffer shorter than the group's requirement
    /// yields the empty set.
    pub fn calculate_angles(&self, keypoints: &Vec<i64>, group: MuscleGroup) -> (r: AngleSet)
        requires
            buffer_bounded(keypoints@),
        ensures
            r@ == spec_extracted(group, keypoints@),
            r.wf(),
    {
        let len: usize = keypoints.len();
        let upper: bool = match group {
            MuscleGroup::Triceps => true,
            MuscleGroup::Shoulders => true,
            MuscleGroup::Chest => true,
            MuscleGroup::Biceps => true,
            MuscleGroup::Back => true,
            _ => false,
        };
        let required: usize = if upper {
            33
        } else {
            51
        };
        if len < required {
            let r = AngleSet::new();
            proof {
                assert(r@ =~= spec_extracted(group, keypoints@));
            }
            return r;
        }
        let mut entries: Vec<(JointRegion, i64)> = Vec::new();
        match group {
            MuscleGroup::Triceps => {
                entries.push(
                    (
                        JointRegion::ElbowFlexion,
                        angle_between(kp(keypoints, 5), kp(keypoints, 7), kp(keypoints, 9)),
                    ),
                );
                entries.push(
                    (
                        JointRegion::ShoulderPosition,
                        angle_between(kp(keypoints, 0), kp(keypoints, 5), kp(keypoints, 7)),
                    ),
                );
                entries.push(
                    (
                        JointRegion::TorsoStability,
                        angle_between(kp(keypoints, 5), kp(keypoints, 0), kp(keypoints, 6)),
                    ),
                );
                entries.push(
                    (
                        JointRegion::WristAngle,
                        angle_between(kp(keypoints, 7), kp(keypoints, 9), kp(keypoints, 10)),
                    ),
                );
            },
            MuscleGroup::Shoulders => {
                entries.push(
                    (
                        JointRegion::ShoulderFlexion,
                        angle_between(kp(keypoints, 0), kp(keypoints, 5), kp(keypoints, 7)),
                    ),
                );
                entries.push(
                    (
                        JointRegion::ScapularMovement,
                        angle_between(kp(keypoints, 5), kp(keypoints, 0), kp(keypoints, 6)),
                    ),
                );
                entries.push(
                    (
                        JointRegion::ElbowFlexion,
                        angle_between(kp(keypoints, 5), kp(keypoints, 7), kp(keypoints, 9)),
                    ),
                );
                entries.push(
                    (
                        JointRegion::ShoulderRotation,
                        angle_between(kp(keypoints, 7), kp(keypoints, 5), kp(keypoints, 9)),
                    ),
                );
            },
            MuscleGroup::Chest => {
                entries.push(
                    (
                        JointRegion::ElbowFlexion,
                        angle_between(kp(keypoints, 5), kp(keypoints, 7), kp(keypoints, 9)),
                    ),
                );
                entries.push(
                    (
                        JointRegion::ShoulderPosition,
                        angle_between(kp(keypoints, 0), kp(keypoints, 5), kp(keypoints, 7)),
                    ),
                );
                entries.push(
                    (
                        JointRegion::TorsoStability,
                        angle_between(kp(keypoints, 5), kp(keypoints, 0), kp(keypoints, 6)),
                    ),
                );
                entries.push(
                    (
                        JointRegion::WristAngle,
                        angle_between(kp(keypoints, 7), kp(keypoints, 9), kp(keypoints, 10)),
                    ),
                );
            },
            MuscleGroup::Biceps => {
                entries.push(
                    (
                        JointRegion::ElbowFlexion,
                        angle_between(kp(keypoints, 5), kp(keypoints, 7), kp(keypoints, 9)),
                    ),
                );
                entries.push(
                    (
                        JointRegion::ShoulderPosition,
                        angle_between(kp(keypoints, 0), kp(keypoints, 5), kp(keypoints, 7)),
                    ),
                );
                entries.push(
                    (
                        JointRegion::TorsoStability,
                        angle_between(kp(keypoints, 5), kp(keypoints, 0), kp(keypoints, 6)),
                    ),
                );
            },
            MuscleGroup::Back => {
                entries.push(
                    (
                        JointRegion::ElbowFlexion,
                        angle_between(kp(keypoints, 5), kp(keypoints, 7), kp(keypoints, 9)),
                    ),
                );
                entries.push(
                    (
                        JointRegion::ShoulderFlexion,
                        angle_between(kp(keypoints, 0), kp(keypoints, 5), kp(keypoints, 7)),
                    ),
                );
                entries.push(
                    (
                        JointRegion::TorsoStability,
                        angle_between(kp(keypoints, 5), kp(keypoints, 0), kp(keypoints, 6)),
                    ),
                );
            },
            MuscleGroup::Quadriceps => {
                entries.push(
                    (
                        JointRegion::KneeFlexion,
                        angle_between(kp(keypoints, 11), kp(keypoints, 13), kp(keypoints, 15)),
                    ),
                );
                entries.push(
                    (
                        JointRegion::HipFlexion,
                        angle_between(kp(keypoints, 5), kp(keypoints, 11), kp(keypoints, 13)),
                    ),
                );
                entries.push(
                    (
                        JointRegion::TorsoAlignment,
                        angle_between(kp(keypoints, 0), kp(keypoints, 5), kp(keypoints, 11)),
                    ),
                );
                entries.push(
                    (
                        JointRegion::StanceAngle,
                        angle_between(kp(keypoints, 15), kp(keypoints, 11), kp(keypoints, 16)),
                    ),
                );
                entries.push(
                    (
                        JointRegion::FrontalAlignment,
                        frontal_deviation(kp(keypoints, 11), kp(keypoints, 13), kp(keypoints, 15)),
                    ),
                );
            },
            MuscleGroup::Hamstrings => {
                entries.push(
                    (
                        JointRegion::HipExtension,
                        angle_between(kp(keypoints, 5), kp(keypoints, 11), kp(keypoints, 13)),
                    ),
                );
                entries.push(
                    (
                        JointRegion::KneeFlexion,
                        angle_between(kp(keypoints, 11), kp(keypoints, 13), kp(keypoints, 15)),
                    ),
                );
                entries.push(
                    (
                        JointRegion::TorsoAlignment,
                        angle_between(kp(keypoints, 0), kp(keypoints, 5), kp(keypoints, 11)),
                    ),
                );
                entries.push(
                    (
                        JointRegion::FrontalAlignment,
                        frontal_deviation(kp(keypoints, 11), kp(keypoints, 13), kp(keypoints, 15)),
                    ),
                );
            },
            MuscleGroup::Glutes => {
                entries.push(
                    (
                        JointRegion::HipExtension,
                        angle_between(kp(keypoints, 5), kp(keypoints, 11), kp(keypoints, 13)),
                    ),
                );
                entries.push(
                    (
                        JointRegion::KneeFlexion,
                        angle_between(kp(keypoints, 11), kp(keypoints, 13), kp(keypoints, 15)),
                    ),
                );
                entries.push(
                    (
                        JointRegion::TorsoAlignment,
                        angle_between(kp(keypoints, 0), kp(keypoints, 5), kp(keypoints, 11)),
                    ),
                );
                entries.push(
                    (
                        JointRegion::FrontalAlignment,
                        frontal_deviation(kp(keypoints, 11), kp(keypoints, 13), kp(keypoints, 15)),
                    ),
                );
            },
            MuscleGroup::Calves => {
                entries.push(
                    (
                        JointRegion::AnkleFlexion,
                        angle_between(kp(keypoints, 13), kp(keypoints, 15), kp(keypoints, 16)),
                    ),
                );
                entries.push(
                    (
                        JointRegion::KneeFlexion,
                        angle_between(kp(keypoints, 11), kp(keypoints, 13), kp(keypoints, 15)),
                    ),
                );
                entries.push(
                    (
                        JointRegion::TorsoAlignment,
                        angle_between(kp(keypoints, 0), kp(keypoints, 5), kp(keypoints, 11)),
                    ),
                );
                entries.push(
                    (
                        JointRegion::FrontalAlignment,
                        frontal_deviation(kp(keypoints, 11), kp(keypoints, 13), kp(keypoints, 15)),
                    ),
                );
            },
            MuscleGroup::Abdominals => {
                entries.push(
                    (
                        JointRegion::SpineFlexion,
                        angle_between(kp(keypoints, 0), kp(keypoints, 11), kp(keypoints, 13)),
                    ),
                );
                entries.push(
                    (
                        JointRegion::HipFlexion,
                        angle_between(kp(keypoints, 5), kp(keypoints, 11), kp(keypoints, 13)),
                    ),
                );
                entries.push(
                    (
                        JointRegion::TorsoAlignment,
                        angle_between(kp(keypoints, 0), kp(keypoints, 5), kp(keypoints, 11)),
                    ),
                );
            },
        }
        let r = AngleSet::from_entries(entries);
        proof {
            assert(r@ =~= spec_extracted(group, keypoints@));
        }
        r
    }
}

} // verus!
