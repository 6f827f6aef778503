//! Repetition counting: temporal smoothing windows over ROM and angular
//! velocity, phase tracking, and the pattern-specific completion rules.
//!
//! The whole per-frame transition is pinned to the spec-level
//! [`spec_update`], so callers reason about the counter purely through
//! its ghost model.

use vstd::prelude::*;

use crate::angles::AngleSet;
use crate::angles::JointRegion;
use crate::angles::angle_of;
use crate::angles::angles_bounded;
use crate::phase::MovementPhase;
use crate::phase::detect_phase;
use crate::phase::spec_detect_phase;
use crate::profile::CompletionRule;
use crate::profile::ExerciseProfile;
use crate::profile::spec_completion_rule;
use crate::profile::spec_rom_scale;
use crate::units::TIME_LIMIT;
use crate::units::div_trunc;
use crate::units::div_trunc_i64;

verus! {

/// The magnitude bound kept on every smoothing-window element.
pub const WINDOW_ELEMENT_LIMIT: i64 = 100_000_000;

/// The mathematical state of a repetition counter.
pub ghost struct RepModel {
    /// Completed repetitions, monotonically non-decreasing.
    pub count: u32,
    /// The phase stored on the previous frame.
    pub phase: MovementPhase,
    /// The angle snapshot of the previous frame.
    pub last_angles: Seq<(JointRegion, i64)>,
    /// The timestamp of the previous frame, milliseconds.
    pub last_timestamp: i64,
    /// Sliding window of instantaneous velocities, newest last, at most 5.
    pub velocity_window: Seq<i64>,
    /// Sliding window of instantaneous ROM fractions, newest last, at
    /// most 3.
    pub rom_window: Seq<i64>,
}

/// The sum of a window.
pub open spec fn spec_sum(s: Seq<i64>) -> int
    decreases s.len(),
{
    if s.len() == 0 {
        0
    } else {
        s[0] + spec_sum(s.drop_first())
    }
}

/// The truncated mean of a non-empty window.
pub open spec fn spec_avg(s: Seq<i64>) -> int
    recommends
        s.len() > 0,
{
    div_trunc(spec_sum(s), s.len() as int)
}

/// Append `v` and evict the oldest element beyond capacity `cap`.
pub open spec fn spec_push_window(w: Seq<i64>, v: i64, cap: int) -> Seq<i64> {
    let pushed = w.push(v);
    if pushed.len() > cap {
        pushed.drop_first()
    } else {
        pushed
    }
}

/// The instantaneous ROM fraction, per-mille: the primary-joint angle
/// normalized into the profile's range and clamped to `[0, 1000]`.  An
/// absent primary joint yields `0`.
pub open spec fn spec_rom_fraction(p: &ExerciseProfile, angle: Option<i64>) -> int {
    match angle {
        Some(a) => {
            if a <= p.range_min {
                0
            } else if a >= p.range_max {
                1000
            } else {
                (a - p.range_min) * 1000 / (p.range_max - p.range_min)
            }
        },
        None => 0,
    }
}

/// The instantaneous angular velocity of the primary joint in
/// centidegrees per second: the angle delta against the stored snapshot
/// over the elapsed time.  A missing angle on either side, or a
/// non-positive time step, yields `0`.
pub open spec fn spec_velocity(
    p: &ExerciseProfile,
    last_angles: Seq<(JointRegion, i64)>,
    last_timestamp: i64,
    angles: Seq<(JointRegion, i64)>,
    timestamp: i64,
) -> int {
    match (angle_of(angles, p.primary_joint), angle_of(last_angles, p.primary_joint)) {
        (Some(cur), Some(prev)) => {
            let dt = timestamp - last_timestamp;
            if dt > 0 {
                div_trunc((cur - prev) * 1000, dt)
            } else {
                0
            }
        },
        _ => 0,
    }
}

/// Does this frame complete a repetition?  The smoothed ROM must clear
/// the pattern-scaled fraction of the profile's minimum-ROM requirement,
/// and the pattern's gate must fire:
///
/// - lockout-gated: the previous frame had reached the lockout angle and
///   the new phase is eccentric;
/// - edge-gated: the stored phase was concentric and the new phase is
///   eccentric;
/// - stretch-gated: the previous frame had returned to the stretch angle
///   and the new phase is concentric;
/// - hold-gated: the frame enters a static hold, counted once per hold
///   episode (debounced on entry);
/// - eccentric-entry: the frame enters an eccentric phase, counted once
///   per descent.
pub open spec fn spec_completion(
    p: &ExerciseProfile,
    current_phase: MovementPhase,
    last_angles: Seq<(JointRegion, i64)>,
    new_phase: MovementPhase,
    avg_rom: int,
) -> bool {
    let threshold = div_trunc(p.min_rom_fraction * spec_rom_scale(p.pattern), 1000);
    match spec_completion_rule(p.pattern) {
        CompletionRule::LockoutGated => match (
            p.lockout_angle,
            angle_of(last_angles, p.primary_joint),
        ) {
            (Some(lockout), Some(a)) => a >= lockout && new_phase == MovementPhase::Eccentric
                && avg_rom >= threshold,
            _ => false,
        },
        CompletionRule::EdgeGated => current_phase == MovementPhase::Concentric && new_phase
            == MovementPhase::Eccentric && avg_rom >= threshold,
        CompletionRule::StretchGated => match (
            p.stretch_angle,
            angle_of(last_angles, p.primary_joint),
        ) {
            (Some(stretch), Some(a)) => a <= stretch && new_phase == MovementPhase::Concentric
                && avg_rom >= threshold,
            _ => false,
        },
        CompletionRule::HoldGated => current_phase != MovementPhase::StaticHold && new_phase
            == MovementPhase::StaticHold && avg_rom >= threshold,
        CompletionRule::EccentricEntry => current_phase != MovementPhase::Eccentric && new_phase
            == MovementPhase::Eccentric && avg_rom >= threshold,
        CompletionRule::NoRep => false,
    }
}

/// One frame of the counter under profile `p`: smooth, classify, apply
/// the completion rule, snapshot.  Returns the successor state and the
/// frame's output, which reports the new count and phase exactly when a
/// repetition was registered.
pub open spec fn spec_step(
    p: &ExerciseProfile,
    m: RepModel,
    angles: Seq<(JointRegion, i64)>,
    timestamp: i64,
) -> (RepModel, Option<(u32, MovementPhase)>) {
    let rom = spec_rom_fraction(p, angle_of(angles, p.primary_joint)) as i64;
    let rom_window = spec_push_window(m.rom_window, rom, 3);
    let avg_rom = spec_avg(rom_window);
    let vel = spec_velocity(p, m.last_angles, m.last_timestamp, angles, timestamp) as i64;
    let velocity_window = spec_push_window(m.velocity_window, vel, 5);
    let avg_vel = spec_avg(velocity_window);
    let new_phase = spec_detect_phase(p, avg_vel, avg_rom);
    let completed = spec_completion(p, m.phase, m.last_angles, new_phase, avg_rom);
    let count = if completed && m.count < u32::MAX {
        (m.count + 1) as u32
    } else {
        m.count
    };
    let next = RepModel {
        count,
        phase: new_phase,
        last_angles: angles,
        last_timestamp: timestamp,
        velocity_window,
        rom_window,
    };
    let out = if completed {
        Some((count, new_phase))
    } else {
        None
    };
    (next, out)
}

/// One frame of the counter: with no profile (an unknown exercise) the
/// state is untouched and nothing is reported.
pub open spec fn spec_update(
    p: Option<&ExerciseProfile>,
    m: RepModel,
    angles: Seq<(JointRegion, i64)>,
    timestamp: i64,
) -> (RepModel, Option<(u32, MovementPhase)>) {
    match p {
        Some(p) => spec_step(p, m, angles, timestamp),
        None => (m, None),
    }
}

/// Well-formedness of a counter state: window capacities and element
/// bounds, a bounded timestamp and a bounded snapshot.
pub open spec fn model_wf(m: RepModel) -> bool {
    &&& m.velocity_window.len() <= 5
    &&& m.rom_window.len() <= 3
    &&& forall|i: int|
        0 <= i < m.velocity_window.len() ==> -WINDOW_ELEMENT_LIMIT <= (
        #[trigger] m.velocity_window[i]) <= WINDOW_ELEMENT_LIMIT
    &&& forall|i: int| 0 <= i < m.rom_window.len() ==> 0 <= (#[trigger] m.rom_window[i]) <= 1000
    &&& -TIME_LIMIT <= m.last_timestamp <= TIME_LIMIT
    &&& angles_bounded(m.last_angles)
}

/// The state a counter starts in, and returns to on `reset`: nothing
/// counted, no phase, no history.  The stored timestamp is irrelevant
/// because an empty snapshot forces the first velocity to zero.
pub open spec fn is_reset(m: RepModel) -> bool {
    &&& m.count == 0
    &&& m.phase == MovementPhase::Idle
    &&& m.last_angles == Seq::<(JointRegion, i64)>::empty()
    &&& m.velocity_window == Seq::<i64>::empty()
    &&& m.rom_window == Seq::<i64>::empty()
}

/// Owns the temporal smoothing windows and the last-frame snapshot of
/// one analysis session, and counts completed repetitions.
#[derive(Debug)]
pub struct RepCounter {
    count: u32,
    current_phase: MovementPhase,
    last_angles: AngleSet,
    last_timestamp: i64,
    velocity_window: Vec<i64>,
    rom_window: Vec<i64>,
}

impl View for RepCounter {
    type V = RepModel;

    closed spec fn view(&self) -> RepModel {
        RepModel {
            count: self.count,
            phase: self.current_phase,
            last_angles: self.last_angles@,
            last_timestamp: self.last_timestamp,
            velocity_window: self.velocity_window@,
            rom_window: self.rom_window@,
        }
    }
}

impl RepCounter {
    /// The session invariant, established by `new` and kept by every
    /// method.
    pub open spec fn wf(&self) -> bool {
        model_wf(self@)
    }

    /// A fresh counter: zero repetitions, no phase, empty history.
    pub fn new() -> (r: RepCounter)
        ensures
            is_reset(r@),
            r@.last_timestamp == 0,
            r.wf(),
    {
        RepCounter {
            count: 0,
            current_phase: MovementPhase::Idle,
            last_angles: AngleSet::new(),
            last_timestamp: 0,
            velocity_window: Vec::new(),
            rom_window: Vec::new(),
        }
    }

    /// Completed repetitions so far.
    pub fn count(&self) -> (r: u32)
        ensures
            r == self@.count,
    {
        self.count
    }

    /// The phase stored on the last frame.
    pub fn current_phase(&self) -> (r: MovementPhase)
        ensures
            r == self@.phase,
    {
        self.current_phase
    }

    /// Zero the count, the phase and all history, for switching
    /// exercises or restarting a session.  Replaying the same frames
    /// after a reset reproduces the same outputs: see
    /// [`lemma_replay_after_reset`].
    pub fn reset(&mut self)
        requires
            old(self).wf(),
        ensures
            is_reset(final(self)@),
            final(self)@.last_timestamp == old(self)@.last_timestamp,
            final(self).wf(),
    {
        self.count = 0;
        self.current_phase = MovementPhase::Idle;
        self.last_angles = AngleSet::new();
        self.velocity_window = Vec::new();
        self.rom_window = Vec::new();
    }

    /// Advance the counter by one frame: push the frame's ROM fraction
    /// and angular velocity into their smoothing windows, classify the
    /// phase from the window means, apply the pattern's completion rule,
    /// then snapshot the frame.  Returns the new count and phase exactly
    /// on the frame where a repetition was registered.
    ///
    /// With no profile (an unknown exercise) the call is a no-op that
    /// reports nothing, so the count never moves.
    pub fn update(
        &mut self,
        profile: Option<&ExerciseProfile>,
        angles: &AngleSet,
        timestamp: i64,
    ) -> (r: Option<(u32, MovementPhase)>)
        requires
            old(self).wf(),
            match profile {
                Some(p) => p.wf(),
                None => true,
            },
            angles.wf(),
            -TIME_LIMIT <= timestamp <= TIME_LIMIT,
        ensures
            final(self).wf(),
            (final(self)@, r) == spec_update(profile, old(self)@, angles@, timestamp),
            final(self)@.count >= old(self)@.count,
            profile is None ==> final(self)@ == old(self)@ && r is None,
    {
        let p: &ExerciseProfile = match profile {
            Some(p) => p,
            None => {
                return None;
            },
        };
        let rom: i64 = rom_fraction(p, angles);
        self.rom_window.push(rom);
        if self.rom_window.len() > 3 {
            self.rom_window.remove(0);
        }
        proof {
            assert(self@.rom_window =~= spec_push_window(old(self)@.rom_window, rom, 3));
        }
        let avg_rom: i64 = avg_window(&self.rom_window);
        let vel: i64 = velocity(p, &self.last_angles, self.last_timestamp, angles, timestamp);
        self.velocity_window.push(vel);
        if self.velocity_window.len() > 5 {
            self.velocity_window.remove(0);
        }
        proof {
            assert(self@.velocity_window =~= spec_push_window(
                old(self)@.velocity_window,
                vel,
                5,
            ));
        }
        let avg_vel: i64 = avg_window(&self.velocity_window);
        let new_phase: MovementPhase = detect_phase(p, avg_vel, avg_rom);
        let completed: bool = check_rep_completion(
            p,
            self.current_phase,
            &self.last_angles,
            new_phase,
            avg_rom,
        );
        if completed && self.count < u32::MAX {
            self.count = self.count + 1;
        }
        self.current_phase = new_phase;
        self.last_angles = angles.clone();
        self.last_timestamp = timestamp;
        if completed {
            Some((self.count, self.current_phase))
        } else {
            None
        }
    }
}

/// The instantaneous ROM fraction of the frame, per-mille: the
/// primary-joint angle normalized against the profile's expected range
/// and clamped into `[0, 1000]`, whatever the raw angle's magnitude.
pub fn rom_fraction(p: &ExerciseProfile, angles: &AngleSet) -> (r: i64)
    requires
        p.wf(),
    ensures
        r == spec_rom_fraction(p, angle_of(angles@, p.primary_joint)),
        0 <= r <= 1000,
{
    let a: i64 = match angles.get(p.primary_joint) {
        Some(a) => a,
        None => {
            return 0;
        },
    };
    if a <= p.range_min {
        0
    } else if a >= p.range_max {
        1000
    } else {
        let num: u64 = ((a - p.range_min) as u64) * 1000u64;
        let den: u64 = (p.range_max - p.range_min) as u64;
        let q: u64 = num / den;
        proof {
            let numi = (a - p.range_min) * 1000;
            let deni = (p.range_max - p.range_min) as int;
            assert(0 <= numi && numi < deni * 1000);
            vstd::arithmetic::div_mod::lemma_div_pos_is_pos(numi, deni);
            vstd::arithmetic::div_mod::lemma_multiply_divide_lt(numi, deni, 1000);
        }
        q as i64
    }
}

/// The instantaneous angular velocity against the stored snapshot, in
/// centidegrees per second.
fn velocity(
    p: &ExerciseProfile,
    last_angles: &AngleSet,
    last_timestamp: i64,
    angles: &AngleSet,
    timestamp: i64,
) -> (r: i64)
    requires
        p.wf(),
        angles.wf(),
        last_angles.wf(),
        -TIME_LIMIT <= last_timestamp <= TIME_LIMIT,
        -TIME_LIMIT <= timestamp <= TIME_LIMIT,
    ensures
        r == spec_velocity(p, last_angles@, last_timestamp, angles@, timestamp),
        -WINDOW_ELEMENT_LIMIT <= r <= WINDOW_ELEMENT_LIMIT,
{
    let cur: i64 = match angles.get(p.primary_joint) {
        Some(a) => a,
        None => {
            return 0;
        },
    };
    let prev: i64 = match last_angles.get(p.primary_joint) {
        Some(a) => a,
        None => {
            return 0;
        },
    };
    proof {
        crate::angles::lemma_angle_of_bounded(angles@, p.primary_joint);
        crate::angles::lemma_angle_of_bounded(last_angles@, p.primary_joint);
    }
    let dt: i64 = timestamp - last_timestamp;
    if dt <= 0 {
        return 0;
    }
    let delta: i64 = cur - prev;
    let r: i64 = div_trunc_i64(delta * 1000, dt);
    proof {
        lemma_div_trunc_bound(delta * 1000, dt as int, 72_000_000);
    }
    r
}

/// Does this frame complete a repetition?  Executable form of
/// [`spec_completion`].
fn check_rep_completion(
    p: &ExerciseProfile,
    current_phase: MovementPhase,
    last_angles: &AngleSet,
    new_phase: MovementPhase,
    avg_rom: i64,
) -> (r: bool)
    requires
        p.wf(),
    ensures
        r == spec_completion(p, current_phase, last_angles@, new_phase, avg_rom as int),
{
    let scale: i64 = rom_scale(p);
    let threshold: i64 = ((p.min_rom_fraction as u64 * scale as u64) / 1000u64) as i64;
    assert(threshold == div_trunc(p.min_rom_fraction * scale, 1000));
    let rule: CompletionRule = completion_rule_of(p);
    match rule {
        CompletionRule::LockoutGated => {
            match (p.lockout_angle, last_angles.get(p.primary_joint)) {
                (Some(lockout), Some(a)) => a >= lockout && new_phase == MovementPhase::Eccentric
                    && avg_rom >= threshold,
                _ => false,
            }
        },
        CompletionRule::EdgeGated => current_phase == MovementPhase::Concentric && new_phase
            == MovementPhase::Eccentric && avg_rom >= threshold,
        CompletionRule::StretchGated => {
            match (p.stretch_angle, last_angles.get(p.primary_joint)) {
                (Some(stretch), Some(a)) => a <= stretch && new_phase == MovementPhase::Concentric
                    && avg_rom >= threshold,
                _ => false,
            }
        },
        CompletionRule::HoldGated => current_phase != MovementPhase::StaticHold && new_phase
            == MovementPhase::StaticHold && avg_rom >= threshold,
        CompletionRule::EccentricEntry => current_phase != MovementPhase::Eccentric && new_phase
            == MovementPhase::Eccentric && avg_rom >= threshold,
        CompletionRule::NoRep => false,
    }
}

/// Executable form of [`spec_completion_rule`].
fn completion_rule_of(p: &ExerciseProfile) -> (r: CompletionRule)
    ensures
        r == spec_completion_rule(p.pattern),
{
    match p.pattern {
        crate::profile::MovementPattern::Press => CompletionRule::LockoutGated,
        crate::profile::MovementPattern::Squat => CompletionRule::LockoutGated,
        crate::profile::MovementPattern::Hinge => CompletionRule::LockoutGated,
        crate::profile::MovementPattern::Pull => CompletionRule::LockoutGated,
        crate::profile::MovementPattern::Curl => CompletionRule::LockoutGated,
        crate::profile::MovementPattern::Lunge => CompletionRule::LockoutGated,
        crate::profile::MovementPattern::Pushup => CompletionRule::LockoutGated,
        crate::profile::MovementPattern::StepUp => CompletionRule::LockoutGated,
        crate::profile::MovementPattern::Plyometric => CompletionRule::EdgeGated,
        crate::profile::MovementPattern::Kickback => CompletionRule::EdgeGated,
        crate::profile::MovementPattern::Rotation => CompletionRule::EdgeGated,
        crate::profile::MovementPattern::LegRaise => CompletionRule::StretchGated,
        crate::profile::MovementPattern::IsometricHold => CompletionRule::HoldGated,
        crate::profile::MovementPattern::EccentricOnly => CompletionRule::EccentricEntry,
        crate::profile::MovementPattern::Isolation => CompletionRule::NoRep,
    }
}

/// Executable form of [`spec_rom_scale`].
fn rom_scale(p: &ExerciseProfile) -> (r: i64)
    ensures
        r == spec_rom_scale(p.pattern),
        0 <= r <= 1000,
{
    match p.pattern {
        crate::profile::MovementPattern::Press => 600,
        crate::profile::MovementPattern::Squat => 1000,
        crate::profile::MovementPattern::Hinge => 900,
        crate::profile::MovementPattern::Pull => 900,
        crate::profile::MovementPattern::Curl => 1000,
        crate::profile::MovementPattern::Lunge => 900,
        crate::profile::MovementPattern::Pushup => 750,
        crate::profile::MovementPattern::Plyometric => 800,
        crate::profile::MovementPattern::Kickback => 800,
        crate::profile::MovementPattern::Rotation => 600,
        crate::profile::MovementPattern::StepUp => 800,
        crate::profile::MovementPattern::LegRaise => 1000,
        crate::profile::MovementPattern::IsometricHold => 1000,
        crate::profile::MovementPattern::EccentricOnly => 700,
        crate::profile::MovementPattern::Isolation => 0,
    }
}

/// The truncated mean of a smoothing window.
fn avg_window(w: &Vec<i64>) -> (r: i64)
    requires
        1 <= w@.len() <= 5,
        forall|i: int|
            0 <= i < w@.len() ==> -WINDOW_ELEMENT_LIMIT <= (#[trigger] w@[i])
                <= WINDOW_ELEMENT_LIMIT,
    ensures
        r == spec_avg(w@),
        -WINDOW_ELEMENT_LIMIT <= r <= WINDOW_ELEMENT_LIMIT,
{
    let n: usize = w.len();
    let mut sum: i64 = 0;
    let mut i: usize = 0;
    proof {
        assert(w@.take(0) =~= Seq::<i64>::empty());
    }
    while i < n
        invariant
            0 <= i <= n,
            n == w@.len() <= 5,
            forall|k: int|
                0 <= k < w@.len() ==> -WINDOW_ELEMENT_LIMIT <= (#[trigger] w@[k])
                    <= WINDOW_ELEMENT_LIMIT,
            sum == spec_sum(w@.take(i as int)),
            -100_000_000 * (i as int) <= sum <= 100_000_000 * (i as int),
        decreases n - i,
    {
        proof {
            assert(w@.take(i as int + 1) =~= w@.take(i as int).push(w@[i as int]));
            lemma_sum_push(w@.take(i as int), w@[i as int]);
            assert(-WINDOW_ELEMENT_LIMIT <= w@[i as int] <= WINDOW_ELEMENT_LIMIT);
        }
        sum = sum + w[i];
        i = i + 1;
    }
    proof {
        assert(w@.take(n as int) =~= w@);
    }
    let r: i64 = div_trunc_i64(sum, n as i64);
    proof {
        let si = sum as int;
        let ni = n as int;
        assert(ni * WINDOW_ELEMENT_LIMIT == WINDOW_ELEMENT_LIMIT * ni) by (nonlinear_arith);
        if si >= 0 {
            vstd::arithmetic::div_mod::lemma_div_pos_is_pos(si, ni);
            vstd::arithmetic::div_mod::lemma_multiply_divide_le(si, ni, WINDOW_ELEMENT_LIMIT as int);
        } else {
            vstd::arithmetic::div_mod::lemma_div_pos_is_pos(-si, ni);
            vstd::arithmetic::div_mod::lemma_multiply_divide_le(-si, ni, WINDOW_ELEMENT_LIMIT as int);
        }
    }
    r
}

/// One frame as a replay sees it: the extracted angles and the frame
/// timestamp.
pub ghost struct Frame {
    pub angles: Seq<(JointRegion, i64)>,
    pub timestamp: i64,
}

/// The outputs of a counter fed the given frames in order, starting from
/// state `m`.
pub open spec fn spec_replay(
    p: Option<&ExerciseProfile>,
    m: RepModel,
    frames: Seq<Frame>,
) -> Seq<Option<(u32, MovementPhase)>>
    decreases frames.len(),
{
    if frames.len() == 0 {
        Seq::empty()
    } else {
        let stepped = spec_update(p, m, frames[0].angles, frames[0].timestamp);
        seq![stepped.1] + spec_replay(p, stepped.0, frames.drop_first())
    }
}

/// The running count and stored phase observed after each frame of a
/// replay.
pub open spec fn spec_replay_trace(
    p: Option<&ExerciseProfile>,
    m: RepModel,
    frames: Seq<Frame>,
) -> Seq<(u32, MovementPhase)>
    decreases frames.len(),
{
    if frames.len() == 0 {
        Seq::empty()
    } else {
        let stepped = spec_update(p, m, frames[0].angles, frames[0].timestamp);
        seq![(stepped.0.count, stepped.0.phase)] + spec_replay_trace(p, stepped.0, frames.drop_first())
    }
}

/// A replay produces one output per frame.
pub proof fn lemma_replay_len(p: Option<&ExerciseProfile>, m: RepModel, frames: Seq<Frame>)
    ensures
        spec_replay(p, m, frames).len() == frames.len(),
    decreases frames.len(),
{
    if frames.len() > 0 {
        let stepped = spec_update(p, m, frames[0].angles, frames[0].timestamp);
        lemma_replay_len(p, stepped.0, frames.drop_first());
    }
}

/// Replaying a frame sequence is deterministic from a reset state: two
/// counters that have both been reset produce identical output
/// sequences on the same frames, whatever history either had before.
/// The timestamp a reset leaves behind cannot matter, because the empty
/// snapshot forces the first frame's velocity to zero.
pub proof fn lemma_replay_after_reset(
    p: Option<&ExerciseProfile>,
    m1: RepModel,
    m2: RepModel,
    frames: Seq<Frame>,
)
    requires
        is_reset(m1),
        is_reset(m2),
    ensures
        spec_replay(p, m1, frames) == spec_replay(p, m2, frames),
        spec_replay_trace(p, m1, frames) == spec_replay_trace(p, m2, frames),
    decreases frames.len(),
{
    if frames.len() > 0 {
        let angles = frames[0].angles;
        let ts = frames[0].timestamp;
        match p {
            Some(pp) => {
                let s1 = spec_step(pp, m1, angles, ts);
                let s2 = spec_step(pp, m2, angles, ts);
                assert(angle_of(m1.last_angles, pp.primary_joint) is None);
                assert(angle_of(m2.last_angles, pp.primary_joint) is None);
                assert(spec_velocity(pp, m1.last_angles, m1.last_timestamp, angles, ts) == 0);
                assert(spec_velocity(pp, m2.last_angles, m2.last_timestamp, angles, ts) == 0);
                assert(s1.0 == s2.0);
                assert(s1.1 == s2.1);
                assert(spec_replay(p, s1.0, frames.drop_first()) == spec_replay(
                    p,
                    s2.0,
                    frames.drop_first(),
                ));
                assert(spec_replay_trace(p, s1.0, frames.drop_first()) == spec_replay_trace(
                    p,
                    s2.0,
                    frames.drop_first(),
                ));
            },
            None => {
                lemma_replay_after_reset(p, m1, m2, frames.drop_first());
                assert(m1.count == m2.count && m1.phase == m2.phase);
            },
        }
    }
}

/// With no profile (an unknown exercise) a counter is inert: every frame
/// of any replay reports nothing, so the count can never move.
pub proof fn lemma_unknown_exercise_is_inert(m: RepModel, frames: Seq<Frame>)
    ensures
        spec_replay(None, m, frames).len() == frames.len(),
        forall|i: int|
            0 <= i < frames.len() ==> #[trigger] spec_replay(None, m, frames)[i] is None,
    decreases frames.len(),
{
    if frames.len() > 0 {
        let stepped = spec_update(None, m, frames[0].angles, frames[0].timestamp);
        assert(stepped.0 == m);
        assert(stepped.1 is None);
        lemma_unknown_exercise_is_inert(m, frames.drop_first());
        assert forall|i: int|
            0 <= i < frames.len() implies #[trigger] spec_replay(None, m, frames)[i] is None by {
            if i > 0 {
                assert(spec_replay(None, m, frames)[i] == spec_replay(
                    None,
                    m,
                    frames.drop_first(),
                )[i - 1]);
            }
        }
    }
}

/// Appending to a window adds its element to the sum.
proof fn lemma_sum_push(s: Seq<i64>, v: i64)
    ensures
        spec_sum(s.push(v)) == spec_sum(s) + v,
    decreases s.len(),
{
    if s.len() == 0 {
        assert(s.push(v).drop_first() =~= Seq::<i64>::empty());
        assert(s.push(v)[0] == v);
        assert(spec_sum(Seq::<i64>::empty()) == 0);
        assert(spec_sum(s.push(v)) == v + spec_sum(s.push(v).drop_first()));
    } else {
        assert(s.push(v).drop_first() =~= s.drop_first().push(v));
        lemma_sum_push(s.drop_first(), v);
        assert(s.push(v)[0] == s[0]);
        assert(spec_sum(s.push(v)) == s[0] + spec_sum(s.push(v).drop_first()));
    }
}

/// Truncating division by a positive divisor cannot grow a magnitude
/// bound.
pub proof fn lemma_div_trunc_bound(n: int, d: int, b: int)
    requires
        1 <= d,
        0 <= b,
        -b <= n <= b,
    ensures
        -b <= div_trunc(n, d) <= b,
{
    if n >= 0 {
        vstd::arithmetic::div_mod::lemma_div_pos_is_pos(n, d);
        vstd::arithmetic::div_mod::lemma_div_nonincreasing(n, d);
    } else {
        vstd::arithmetic::div_mod::lemma_div_pos_is_pos(-n, d);
        vstd::arithmetic::div_mod::lemma_div_nonincreasing(-n, d);
    }
}

} // verus!
