//! The per-frame pipeline: buffer shape checking, angle extraction per
//! muscle group, and the assembled frame results.

use repcore::angles::JointRegion;
use repcore::geometry::{angle_between, Keypoint};
use repcore::phase::MovementPhase;
use repcore::pose::{MuscleGroup, PoseAnalyzer};
use repcore::profile::{ExerciseProfile, MovementPattern};
use repcore::session::{ExerciseAnalyzer, InputShapeError};

/// A 17-keypoint frame (51 values) of a person standing with arms bent;
/// all confidences high.
fn standing_frame() -> Vec<i64> {
    let mut buffer = Vec::new();
    // (x, y) per keypoint in milli-units, image coordinates (y grows
    // downward): nose, eyes, ears, shoulders, elbows, wrists, hips,
    // knees, ankles.
    let points: [(i64, i64); 17] = [
        (5000, 1000),  // nose
        (4800, 900),   // left eye
        (5200, 900),   // right eye
        (4600, 1000),  // left ear
        (5400, 1000),  // right ear
        (4000, 2000),  // left shoulder
        (6000, 2000),  // right shoulder
        (3800, 3500),  // left elbow
        (6200, 3500),  // right elbow
        (4200, 4500),  // left wrist
        (5800, 4500),  // right wrist
        (4200, 5000),  // left hip
        (5800, 5000),  // right hip
        (4200, 7000),  // left knee
        (5800, 7000),  // right knee
        (4200, 9000),  // left ankle
        (5800, 9000),  // right ankle
    ];
    for &(x, y) in &points {
        buffer.push(x);
        buffer.push(y);
        buffer.push(1000);
    }
    buffer
}

fn kp_of(buffer: &[i64], i: usize) -> Keypoint {
    Keypoint { x: buffer[3 * i], y: buffer[3 * i + 1], confidence: buffer[3 * i + 2] }
}

fn press_profile() -> ExerciseProfile {
    ExerciseProfile {
        pattern: MovementPattern::Press,
        primary_joint: JointRegion::ElbowFlexion,
        stabilizer_joint: JointRegion::TorsoStability,
        range_min: 6000,
        range_max: 18000,
        velocity_threshold: 1000,
        min_rom_fraction: 900,
        lockout_angle: Some(17000),
        stretch_angle: Some(6000),
        hold_occupancy: 900,
        target_ranges: vec![(JointRegion::ElbowFlexion, 3000, 18000)],
        stabilization: 500,
        strictness: 900,
        weight_rom: 600,
        weight_stability: 300,
        weight_bonus: 100,
    }
}

#[test]
fn buffer_length_must_be_a_multiple_of_three() {
    let mut analyzer = ExerciseAnalyzer::new(Some(press_profile()), MuscleGroup::Triceps);
    let bad = vec![1, 2, 3, 4];
    let result = analyzer.process_frame(&bad, 0);
    assert_eq!(result.unwrap_err(), InputShapeError { length: 4 });
    // The frame left no trace.
    assert_eq!(analyzer.count(), 0);
    // A well-shaped buffer goes through.
    assert!(analyzer.process_frame(&standing_frame(), 0).is_ok());
}

#[test]
fn short_buffer_yields_the_empty_angle_set() {
    let pose = PoseAnalyzer::new();
    // 30 values: one keypoint short of the upper-body requirement.
    let short: Vec<i64> = standing_frame().into_iter().take(30).collect();
    let set = pose.calculate_angles(&short, MuscleGroup::Triceps);
    assert_eq!(set.len(), 0);
    assert_eq!(set.get(JointRegion::ElbowFlexion), None);
    // 33 values suffice for an upper-body group but not a lower one.
    let upper: Vec<i64> = standing_frame().into_iter().take(33).collect();
    assert_eq!(pose.calculate_angles(&upper, MuscleGroup::Triceps).len(), 4);
    assert_eq!(pose.calculate_angles(&upper, MuscleGroup::Quadriceps).len(), 0);
}

#[test]
fn triceps_extraction_names_the_elbow_angles() {
    let pose = PoseAnalyzer::new();
    let buffer = standing_frame();
    let set = pose.calculate_angles(&buffer, MuscleGroup::Triceps);
    // The primary elbow flexion is the shoulder-elbow-wrist angle.
    let expected = angle_between(kp_of(&buffer, 5), kp_of(&buffer, 7), kp_of(&buffer, 9));
    assert_eq!(set.get(JointRegion::ElbowFlexion), Some(expected));
    assert!(set.get(JointRegion::ShoulderPosition).is_some());
    assert!(set.get(JointRegion::TorsoStability).is_some());
    assert!(set.get(JointRegion::WristAngle).is_some());
    assert_eq!(set.get(JointRegion::KneeFlexion), None);
}

#[test]
fn quadriceps_extraction_names_the_knee_angles() {
    let pose = PoseAnalyzer::new();
    let buffer = standing_frame();
    let set = pose.calculate_angles(&buffer, MuscleGroup::Quadriceps);
    let expected = angle_between(kp_of(&buffer, 11), kp_of(&buffer, 13), kp_of(&buffer, 15));
    assert_eq!(set.get(JointRegion::KneeFlexion), Some(expected));
    // Standing straight: hip-knee-ankle is a straight line.
    assert_eq!(expected, 18000);
    assert!(set.get(JointRegion::HipFlexion).is_some());
    assert!(set.get(JointRegion::TorsoAlignment).is_some());
    assert!(set.get(JointRegion::StanceAngle).is_some());
}

#[test]
fn low_confidence_joints_extract_as_zero_angles() {
    let pose = PoseAnalyzer::new();
    let mut buffer = standing_frame();
    // Kill the left elbow's confidence: every angle that uses it is 0.
    buffer[3 * 7 + 2] = 50;
    let set = pose.calculate_angles(&buffer, MuscleGroup::Triceps);
    assert_eq!(set.get(JointRegion::ElbowFlexion), Some(0));
    assert_eq!(set.get(JointRegion::WristAngle), Some(0));
    // The torso angle does not involve the elbow.
    assert_ne!(set.get(JointRegion::TorsoStability), Some(0));
}

#[test]
fn frame_results_carry_count_phase_violations_and_engagement() {
    let mut analyzer = ExerciseAnalyzer::new(Some(press_profile()), MuscleGroup::Triceps);
    let result = analyzer.process_frame(&standing_frame(), 0).unwrap();
    assert_eq!(result.rep_count, 0);
    assert_eq!(result.rep_event, None);
    assert!((100..=1000).contains(&result.engagement));
    // The standing frame's bent elbow sits inside the target range but
    // short of lockout under this strict profile.
    assert!(result
        .violations
        .iter()
        .any(|v| v.kind == repcore::form::ViolationKind::IncompleteLockout));
}

#[test]
fn unknown_exercise_session_is_neutral_end_to_end() {
    let mut analyzer = ExerciseAnalyzer::new(None, MuscleGroup::Triceps);
    for step in 0..5i64 {
        let result = analyzer.process_frame(&standing_frame(), step * 100).unwrap();
        assert_eq!(result.rep_count, 0);
        assert_eq!(result.phase, MovementPhase::Idle);
        assert_eq!(result.engagement, 500);
        assert!(result.violations.is_empty());
        assert_eq!(result.rep_event, None);
    }
    assert_eq!(analyzer.count(), 0);
}

#[test]
fn session_reset_replays_identically() {
    let profile = press_profile();
    let mut analyzer = ExerciseAnalyzer::new(Some(profile), MuscleGroup::Triceps);
    let frames = [standing_frame(), standing_frame(), standing_frame()];
    let mut first = Vec::new();
    for (step, frame) in frames.iter().enumerate() {
        let result = analyzer.process_frame(frame, step as i64 * 100).unwrap();
        first.push((result.rep_count, result.phase, result.engagement));
    }
    analyzer.reset();
    let mut second = Vec::new();
    for (step, frame) in frames.iter().enumerate() {
        let result = analyzer.process_frame(frame, step as i64 * 100).unwrap();
        second.push((result.rep_count, result.phase, result.engagement));
    }
    assert_eq!(first, second);
}

#[test]
fn frontal_alignment_is_zero_when_straight_and_signed_by_side() {
    let pose = PoseAnalyzer::new();
    let straight = standing_frame();
    let set = pose.calculate_angles(&straight, MuscleGroup::Quadriceps);
    // Hip, knee and ankle are collinear in the standing frame.
    assert_eq!(set.get(JointRegion::FrontalAlignment), Some(0));
    // Bow the left knee inward: a positive deviation.
    let mut inward = standing_frame();
    inward[3 * 13] -= 400;
    let inward_set = pose.calculate_angles(&inward, MuscleGroup::Hamstrings);
    let dev_in = inward_set.get(JointRegion::FrontalAlignment).unwrap();
    assert!(dev_in > 0, "expected positive deviation, got {}", dev_in);
    // Bow it outward: the mirrored negative deviation.
    let mut outward = standing_frame();
    outward[3 * 13] += 400;
    let outward_set = pose.calculate_angles(&outward, MuscleGroup::Hamstrings);
    assert_eq!(outward_set.get(JointRegion::FrontalAlignment), Some(-dev_in));
}

#[test]
fn shoulder_extraction_names_the_rotation_arc() {
    let pose = PoseAnalyzer::new();
    let buffer = standing_frame();
    let set = pose.calculate_angles(&buffer, MuscleGroup::Shoulders);
    let expected = angle_between(kp_of(&buffer, 7), kp_of(&buffer, 5), kp_of(&buffer, 9));
    assert_eq!(set.get(JointRegion::ShoulderRotation), Some(expected));
}
