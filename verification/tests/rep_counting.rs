//! The repetition counter: ROM clamping, the completion scenarios, the
//! unknown-exercise fallback and replay determinism after a reset.

use repcore::angles::{AngleSet, JointRegion};
use repcore::phase::MovementPhase;
use repcore::profile::{ExerciseProfile, MovementPattern};
use repcore::rep_counter::{rom_fraction, RepCounter};

/// A lockout-gated press: range 60..180 degrees, lockout at 170, high
/// minimum-ROM requirement.
fn press_profile() -> ExerciseProfile {
    ExerciseProfile {
        pattern: MovementPattern::Press,
        primary_joint: JointRegion::ElbowFlexion,
        stabilizer_joint: JointRegion::TorsoStability,
        range_min: 6000,
        range_max: 18000,
        velocity_threshold: 1000,
        min_rom_fraction: 900,
        lockout_angle: Some(17000),
        stretch_angle: Some(6000),
        hold_occupancy: 900,
        target_ranges: vec![(JointRegion::ElbowFlexion, 3000, 18000)],
        stabilization: 800,
        strictness: 900,
        weight_rom: 600,
        weight_stability: 300,
        weight_bonus: 100,
    }
}

fn angles_with(joint: JointRegion, value: i64) -> AngleSet {
    let mut set = AngleSet::new();
    set.set_angle(joint, value);
    set
}

/// Drive one elbow-angle sample per frame; returns the per-frame outputs.
fn run(
    counter: &mut RepCounter,
    profile: &ExerciseProfile,
    frames: &[(i64, i64)],
) -> Vec<Option<(u32, MovementPhase)>> {
    let mut outputs = Vec::new();
    for &(angle_cd, timestamp) in frames {
        let angles = angles_with(profile.primary_joint, angle_cd);
        outputs.push(counter.update(Some(profile), &angles, timestamp));
    }
    outputs
}

#[test]
fn rom_fraction_is_clamped_to_the_unit_interval() {
    let profile = press_profile();
    // Far below range_min, at the edges, in between, far above range_max.
    assert_eq!(rom_fraction(&profile, &angles_with(JointRegion::ElbowFlexion, -30000)), 0);
    assert_eq!(rom_fraction(&profile, &angles_with(JointRegion::ElbowFlexion, 6000)), 0);
    assert_eq!(rom_fraction(&profile, &angles_with(JointRegion::ElbowFlexion, 12000)), 500);
    assert_eq!(rom_fraction(&profile, &angles_with(JointRegion::ElbowFlexion, 18000)), 1000);
    assert_eq!(rom_fraction(&profile, &angles_with(JointRegion::ElbowFlexion, 36000)), 1000);
    // The primary joint absent: neutral zero.
    assert_eq!(rom_fraction(&profile, &AngleSet::new()), 0);
}

#[test]
fn press_counts_exactly_one_rep_on_the_drop_after_lockout() {
    let profile = press_profile();
    let mut counter = RepCounter::new();
    // 60 -> 90 -> 170 -> 120 -> 65 degrees; the drop from 170 comes fast
    // enough that the smoothed velocity turns negative.
    let frames = [
        (6000, 0),
        (9000, 1000),
        (17000, 2000),
        (12000, 2100),
        (6500, 2200),
    ];
    let outputs = run(&mut counter, &profile, &frames);
    assert_eq!(outputs[0], None);
    assert_eq!(outputs[1], None);
    assert_eq!(outputs[2], None);
    // The rep registers on the frame where the angle drops from 170.
    assert_eq!(outputs[3], Some((1, MovementPhase::Eccentric)));
    assert_eq!(outputs[4], None);
    assert_eq!(counter.count(), 1);
}

#[test]
fn press_counts_nothing_when_lockout_is_never_reached() {
    let profile = press_profile();
    let mut counter = RepCounter::new();
    // The same motion but peaking at 150 degrees, short of the 170 lockout.
    let frames = [
        (6000, 0),
        (9000, 1000),
        (15000, 2000),
        (12000, 2100),
        (6500, 2200),
    ];
    let outputs = run(&mut counter, &profile, &frames);
    assert!(outputs.iter().all(|o| o.is_none()));
    assert_eq!(counter.count(), 0);
}

#[test]
fn isometric_hold_counts_once_per_hold_episode() {
    // Hold-gated completion is debounced on entry into the hold: three
    // consecutive frames above occupancy yield one repetition, not three.
    let profile = ExerciseProfile {
        pattern: MovementPattern::IsometricHold,
        primary_joint: JointRegion::TorsoAlignment,
        range_min: 0,
        range_max: 10000,
        min_rom_fraction: 900,
        hold_occupancy: 900,
        lockout_angle: None,
        stretch_angle: None,
        ..press_profile()
    };
    let mut counter = RepCounter::new();
    let frames = [(9900, 0), (9900, 1000), (9900, 2000)];
    let outputs = run(&mut counter, &profile, &frames);
    assert_eq!(outputs[0], Some((1, MovementPhase::StaticHold)));
    assert_eq!(outputs[1], None);
    assert_eq!(outputs[2], None);
    assert_eq!(counter.count(), 1);
}

#[test]
fn unknown_exercise_never_counts_and_never_reports() {
    let mut counter = RepCounter::new();
    let frames = [
        (6000, 0),
        (17000, 1000),
        (6000, 1100),
        (17000, 2000),
        (6000, 2100),
    ];
    for &(angle_cd, timestamp) in &frames {
        let angles = angles_with(JointRegion::ElbowFlexion, angle_cd);
        let out = counter.update(None, &angles, timestamp);
        assert_eq!(out, None);
    }
    assert_eq!(counter.count(), 0);
    assert_eq!(counter.current_phase(), MovementPhase::Idle);
}

#[test]
fn replay_after_reset_reproduces_the_same_outputs() {
    let profile = press_profile();
    let frames = [
        (6000, 0),
        (9000, 1000),
        (17000, 2000),
        (12000, 2100),
        (6500, 2200),
    ];
    let mut counter = RepCounter::new();
    let first = run(&mut counter, &profile, &frames);
    let count_first = counter.count();
    let phase_first = counter.current_phase();
    counter.reset();
    assert_eq!(counter.count(), 0);
    let second = run(&mut counter, &profile, &frames);
    assert_eq!(first, second);
    assert_eq!(counter.count(), count_first);
    assert_eq!(counter.current_phase(), phase_first);
}

#[test]
fn count_is_monotonic_across_mixed_frames() {
    let profile = press_profile();
    let mut counter = RepCounter::new();
    let mut last = 0u32;
    let frames = [
        (6000, 0),
        (17500, 500),
        (6000, 600),
        (17500, 1500),
        (6000, 1600),
        (17500, 2500),
        (6000, 2600),
    ];
    for &(angle_cd, timestamp) in &frames {
        let angles = angles_with(profile.primary_joint, angle_cd);
        counter.update(Some(&profile), &angles, timestamp);
        assert!(counter.count() >= last);
        last = counter.count();
    }
}

#[test]
fn non_positive_time_step_means_zero_velocity() {
    let profile = press_profile();
    let mut counter = RepCounter::new();
    // Two frames at the same timestamp: the second frame's velocity is
    // defensively zero, so no phase (and no rep) can fire from it.
    let angles_low = angles_with(JointRegion::ElbowFlexion, 6000);
    let angles_high = angles_with(JointRegion::ElbowFlexion, 17500);
    assert_eq!(counter.update(Some(&profile), &angles_low, 1000), None);
    assert_eq!(counter.update(Some(&profile), &angles_high, 1000), None);
    assert_eq!(counter.current_phase(), MovementPhase::Idle);
    assert_eq!(counter.count(), 0);
}

#[test]
fn edge_gated_pattern_counts_on_the_concentric_to_eccentric_edge() {
    let profile = ExerciseProfile {
        pattern: MovementPattern::Kickback,
        lockout_angle: None,
        stretch_angle: None,
        min_rom_fraction: 500,
        ..press_profile()
    };
    let mut counter = RepCounter::new();
    // Rise fast (concentric), then fall fast (eccentric) with enough ROM:
    // the edge between them registers the rep (threshold 500 * 0.8).
    let frames = [
        (6000, 0),
        (14000, 100),
        (17000, 200),
        (8000, 250),
        (6000, 300),
    ];
    let outputs = run(&mut counter, &profile, &frames);
    assert_eq!(counter.count(), 1);
    assert_eq!(outputs[3], Some((1, MovementPhase::Eccentric)));
}
