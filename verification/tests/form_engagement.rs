//! The form checker's violation kinds and the engagement score's range.

use repcore::angles::{AngleSet, JointRegion};
use repcore::form::{Violation, ViolationKind};
use repcore::pose::PoseAnalyzer;
use repcore::profile::{ExerciseProfile, MovementPattern};

fn press_profile() -> ExerciseProfile {
    ExerciseProfile {
        pattern: MovementPattern::Press,
        primary_joint: JointRegion::ElbowFlexion,
        stabilizer_joint: JointRegion::TorsoStability,
        range_min: 6000,
        range_max: 18000,
        velocity_threshold: 1000,
        min_rom_fraction: 900,
        lockout_angle: Some(17000),
        stretch_angle: Some(6000),
        hold_occupancy: 900,
        target_ranges: vec![(JointRegion::ElbowFlexion, 6000, 18000)],
        stabilization: 900,
        strictness: 900,
        weight_rom: 600,
        weight_stability: 300,
        weight_bonus: 100,
    }
}

fn angles(entries: &[(JointRegion, i64)]) -> AngleSet {
    let mut set = AngleSet::new();
    for &(joint, value) in entries {
        set.set_angle(joint, value);
    }
    set
}

#[test]
fn angle_below_the_target_range_is_too_low() {
    let analyzer = PoseAnalyzer::new();
    let profile = press_profile();
    let set = angles(&[(JointRegion::ElbowFlexion, 5000)]);
    let violations = analyzer.check_form(Some(&profile), &set);
    assert!(violations.contains(&Violation {
        kind: ViolationKind::TooLow,
        joint: JointRegion::ElbowFlexion,
        observed: 5000,
        bound: 6000,
    }));
}

#[test]
fn angle_above_the_target_range_is_too_high() {
    let analyzer = PoseAnalyzer::new();
    let profile = press_profile();
    let set = angles(&[(JointRegion::ElbowFlexion, 19000)]);
    let violations = analyzer.check_form(Some(&profile), &set);
    assert!(violations.contains(&Violation {
        kind: ViolationKind::TooHigh,
        joint: JointRegion::ElbowFlexion,
        observed: 19000,
        bound: 18000,
    }));
}

#[test]
fn stabilizer_deviation_beyond_the_band_is_unstable() {
    let analyzer = PoseAnalyzer::new();
    let profile = press_profile();
    // stabilization 0.9 allows (1 - 0.9) * 30 = 3 degrees of deviation;
    // 10 degrees away from straight trips it.
    let set = angles(&[(JointRegion::TorsoStability, 17000)]);
    let violations = analyzer.check_form(Some(&profile), &set);
    assert!(violations.contains(&Violation {
        kind: ViolationKind::Unstable,
        joint: JointRegion::TorsoStability,
        observed: 17000,
        bound: 300,
    }));
    // Within the band: silent.
    let ok = angles(&[(JointRegion::TorsoStability, 17800)]);
    assert!(analyzer.check_form(Some(&profile), &ok).is_empty());
}

#[test]
fn strict_press_short_of_lockout_is_incomplete() {
    let analyzer = PoseAnalyzer::new();
    let profile = press_profile();
    let set = angles(&[(JointRegion::ElbowFlexion, 12000)]);
    let violations = analyzer.check_form(Some(&profile), &set);
    assert!(violations.contains(&Violation {
        kind: ViolationKind::IncompleteLockout,
        joint: JointRegion::ElbowFlexion,
        observed: 12000,
        bound: 17000,
    }));
    // A lax profile (strictness at or below 0.8) does not demand lockout.
    let lax = ExerciseProfile { strictness: 800, ..press_profile() };
    let lax_violations = analyzer.check_form(Some(&lax), &set);
    assert!(!lax_violations
        .iter()
        .any(|v| v.kind == ViolationKind::IncompleteLockout));
}

#[test]
fn pushup_with_a_bent_wrist_is_flagged() {
    let analyzer = PoseAnalyzer::new();
    let profile = ExerciseProfile {
        pattern: MovementPattern::Pushup,
        strictness: 500,
        ..press_profile()
    };
    let set = angles(&[(JointRegion::WristAngle, 14000)]);
    let violations = analyzer.check_form(Some(&profile), &set);
    assert_eq!(
        violations,
        vec![Violation {
            kind: ViolationKind::BentWrist,
            joint: JointRegion::WristAngle,
            observed: 14000,
            bound: 15000,
        }]
    );
    // A press pattern does not check the wrist.
    let press = ExerciseProfile { strictness: 500, ..press_profile() };
    assert!(analyzer.check_form(Some(&press), &set).is_empty());
}

#[test]
fn both_layers_run_and_results_concatenate() {
    let analyzer = PoseAnalyzer::new();
    let profile = press_profile();
    let set = angles(&[
        (JointRegion::ElbowFlexion, 5000),
        (JointRegion::TorsoStability, 17000),
    ]);
    let violations = analyzer.check_form(Some(&profile), &set);
    // Range layer first (too low), qualitative layers after
    // (unstable stabilizer, then incomplete lockout).
    assert_eq!(violations.len(), 3);
    assert_eq!(violations[0].kind, ViolationKind::TooLow);
    assert_eq!(violations[1].kind, ViolationKind::Unstable);
    assert_eq!(violations[2].kind, ViolationKind::IncompleteLockout);
}

#[test]
fn unknown_exercise_yields_no_violations() {
    let analyzer = PoseAnalyzer::new();
    let set = angles(&[(JointRegion::ElbowFlexion, 1000)]);
    assert!(analyzer.check_form(None, &set).is_empty());
}

#[test]
fn engagement_of_a_perfect_frame_is_full_marks() {
    let analyzer = PoseAnalyzer::new();
    let profile = ExerciseProfile { strictness: 1000, ..press_profile() };
    // Primary at full range (ROM 1.0), stabilizer dead straight
    // (stability 1.0), lockout reached (bonus 1.0):
    // 0.6 + 0.3 + 0.1 = 1.0.
    let set = angles(&[
        (JointRegion::ElbowFlexion, 18000),
        (JointRegion::TorsoStability, 18000),
    ]);
    assert_eq!(analyzer.calculate_engagement(Some(&profile), &set), 1000);
}

#[test]
fn engagement_formula_with_partial_subscores() {
    let analyzer = PoseAnalyzer::new();
    let profile = ExerciseProfile { strictness: 1000, ..press_profile() };
    // ROM (12000 - 6000) / 12000 = 0.5; stabilizer 9 degrees off:
    // 1 - 900/3000 = 0.7; lockout not reached: bonus 0.
    // 0.6 * 500 + 0.3 * 700 = 510.
    let set = angles(&[
        (JointRegion::ElbowFlexion, 12000),
        (JointRegion::TorsoStability, 17100),
    ]);
    assert_eq!(analyzer.calculate_engagement(Some(&profile), &set), 510);
    // Strictness scales the composite: 510 * 0.9 = 459.
    let stricter = press_profile();
    assert_eq!(analyzer.calculate_engagement(Some(&stricter), &set), 459);
}

#[test]
fn engagement_is_always_within_the_tenth_to_one_band() {
    let analyzer = PoseAnalyzer::new();
    let profiles = [
        press_profile(),
        ExerciseProfile { strictness: 0, ..press_profile() },
        ExerciseProfile {
            pattern: MovementPattern::Isolation,
            weight_rom: 0,
            weight_stability: 0,
            weight_bonus: 0,
            ..press_profile()
        },
    ];
    let sets = [
        AngleSet::new(),
        angles(&[(JointRegion::ElbowFlexion, -36000)]),
        angles(&[
            (JointRegion::ElbowFlexion, 36000),
            (JointRegion::TorsoStability, 0),
        ]),
    ];
    for profile in &profiles {
        for set in &sets {
            let score = analyzer.calculate_engagement(Some(profile), set);
            assert!((100..=1000).contains(&score), "score {} out of band", score);
        }
    }
    // The empty angle set bottoms out at the floor, never zero.
    assert_eq!(analyzer.calculate_engagement(Some(&press_profile()), &AngleSet::new()), 100);
}

#[test]
fn unknown_exercise_scores_the_neutral_half() {
    let analyzer = PoseAnalyzer::new();
    assert_eq!(analyzer.calculate_engagement(None, &AngleSet::new()), 500);
    let set = angles(&[(JointRegion::ElbowFlexion, 18000)]);
    assert_eq!(analyzer.calculate_engagement(None, &set), 500);
}

#[test]
fn angle_set_lookup_and_overwrite() {
    let mut set = AngleSet::new();
    assert_eq!(set.get(JointRegion::KneeFlexion), None);
    set.set_angle(JointRegion::KneeFlexion, 9000);
    set.set_angle(JointRegion::HipFlexion, 12000);
    assert_eq!(set.get(JointRegion::KneeFlexion), Some(9000));
    assert_eq!(set.get(JointRegion::HipFlexion), Some(12000));
    set.set_angle(JointRegion::KneeFlexion, 9500);
    assert_eq!(set.get(JointRegion::KneeFlexion), Some(9500));
    assert_eq!(set.len(), 2);
}

#[test]
fn profile_validation_catches_malformed_configuration() {
    assert!(press_profile().is_wf());
    let empty_range = ExerciseProfile { range_max: 6000, ..press_profile() };
    assert!(!empty_range.is_wf());
    let heavy_weights = ExerciseProfile { weight_rom: 800, weight_stability: 800, ..press_profile() };
    assert!(!heavy_weights.is_wf());
    let inverted_target = ExerciseProfile {
        target_ranges: vec![(JointRegion::ElbowFlexion, 18000, 6000)],
        ..press_profile()
    };
    assert!(!inverted_target.is_wf());
}

#[test]
fn knee_alignment_outside_the_frontal_window_is_flagged() {
    let analyzer = PoseAnalyzer::new();
    // A squat-style profile whose target table carries the frontal
    // alignment window beside the primary range: the signed deviation
    // must stay within 15 degrees of neutral on either side.
    let profile = ExerciseProfile {
        primary_joint: JointRegion::KneeFlexion,
        stabilizer_joint: JointRegion::TorsoAlignment,
        target_ranges: vec![
            (JointRegion::KneeFlexion, 7000, 18000),
            (JointRegion::FrontalAlignment, -1500, 1500),
        ],
        // Lax lockout, so only the range layer speaks here.
        strictness: 800,
        ..press_profile()
    };
    let valgus = angles(&[
        (JointRegion::KneeFlexion, 12000),
        (JointRegion::FrontalAlignment, 2200),
    ]);
    let violations = analyzer.check_form(Some(&profile), &valgus);
    assert!(violations.contains(&Violation {
        kind: ViolationKind::TooHigh,
        joint: JointRegion::FrontalAlignment,
        observed: 2200,
        bound: 1500,
    }));
    let varus = angles(&[
        (JointRegion::KneeFlexion, 12000),
        (JointRegion::FrontalAlignment, -2200),
    ]);
    let violations = analyzer.check_form(Some(&profile), &varus);
    assert!(violations.contains(&Violation {
        kind: ViolationKind::TooLow,
        joint: JointRegion::FrontalAlignment,
        observed: -2200,
        bound: -1500,
    }));
    // Inside the window on either side: silent.
    let aligned = angles(&[
        (JointRegion::KneeFlexion, 12000),
        (JointRegion::FrontalAlignment, -1100),
    ]);
    assert!(analyzer.check_form(Some(&profile), &aligned).is_empty());
}
