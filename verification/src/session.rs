//! One analysis session: the per-frame pipeline from a flat keypoint
//! buffer to repetition count, phase, form violations and engagement.
//!
//! A session owns one exercise profile (or none, for an unrecognized
//! exercise identifier), the targeted muscle group and one repetition
//! counter.  The host creates a session per exercise, drives exactly one
//! frame at a time in non-decreasing timestamp order, and resets or
//! drops the session when the exercise ends.

use vstd::prelude::*;

use crate::angles::AngleSet;
use crate::form::Violation;
use crate::form::spec_violations;
use crate::engagement::spec_engagement;
use crate::phase::MovementPhase;
use crate::pose::MuscleGroup;
use crate::pose::PoseAnalyzer;
use crate::pose::buffer_bounded;
use crate::pose::spec_extracted;
use crate::profile::ExerciseProfile;
use crate::rep_counter::RepCounter;
use crate::rep_counter::spec_update;
use crate::units::TIME_LIMIT;

verus! {

/// The keypoint buffer's length was not a multiple of three: the frame
/// carries no result and the caller must fix its input.
#[derive(Clone, Copy, Debug, PartialEq, Eq, Structural)]
pub struct InputShapeError {
    /// The offending buffer length.
    pub length: usize,
}

/// Everything one frame produces.
#[derive(Debug)]
pub struct FrameResult {
    /// The running repetition count after this frame.
    pub rep_count: u32,
    /// The phase classified on this frame.
    pub phase: MovementPhase,
    /// The structured form violations of this frame.
    pub violations: Vec<Violation>,
    /// The engagement score, per-mille, in `[100, 1000]`.
    pub engagement: i64,
    /// The count and phase, reported exactly on a frame that completed a
    /// repetition.
    pub rep_event: Option<(u32, MovementPhase)>,
}

/// One exercise session: profile, muscle group, and repetition state.
#[derive(Debug)]
pub struct ExerciseAnalyzer {
    profile: Option<ExerciseProfile>,
    group: MuscleGroup,
    pose: PoseAnalyzer,
    counter: RepCounter,
}

impl ExerciseAnalyzer {
    /// The session invariant: a well-formed profile (when there is one)
    /// and a well-formed counter.
    pub closed spec fn wf(&self) -> bool {
        &&& match self.profile {
            Some(p) => p.wf(),
            None => true,
        }
        &&& self.counter.wf()
    }

    /// The profile this session runs under.
    pub closed spec fn spec_profile(&self) -> Option<ExerciseProfile> {
        self.profile
    }

    /// The muscle group this session extracts angles for.
    pub closed spec fn spec_group(&self) -> MuscleGroup {
        self.group
    }

    /// The model of the session's repetition counter.
    pub closed spec fn spec_counter(&self) -> crate::rep_counter::RepModel {
        self.counter@
    }

    /// Start a session for one exercise: its profile (none for an
    /// unrecognized exercise identifier, which makes the whole session a
    /// neutral no-op) and the muscle group whose angles are extracted.
    pub fn new(profile: Option<ExerciseProfile>, group: MuscleGroup) -> (r: ExerciseAnalyzer)
        requires
            match profile {
                Some(p) => p.wf(),
                None => true,
            },
        ensures
            r.wf(),
            r.spec_profile() == profile,
            r.spec_group() == group,
            crate::rep_counter::is_reset(r.spec_counter()),
    {
        ExerciseAnalyzer { profile, group, pose: PoseAnalyzer::new(), counter: RepCounter::new() }
    }

    /// Completed repetitions so far.
    pub fn count(&self) -> (r: u32)
        ensures
            r == self.spec_counter().count,
    {
        self.counter.count()
    }

    /// Zero the repetition state for a restart; the profile and group
    /// stay.
    pub fn reset(&mut self)
        requires
            old(self).wf(),
        ensures
            final(self).wf(),
            crate::rep_counter::is_reset(final(self).spec_counter()),
            final(self).spec_profile() == old(self).spec_profile(),
            final(self).spec_group() == old(self).spec_group(),
    {
        self.counter.reset();
    }

    /// Analyze one frame: extract the muscle group's angles from the
    /// flat keypoint buffer, advance the repetition counter, check form
    /// and score engagement.
    ///
    /// A buffer whose length is not a multiple of three is rejected with
    /// an [`InputShapeError`] and the session state is untouched; any
    /// other buffer (too short included) produces a full result.
    pub fn process_frame(&mut self, keypoints: &Vec<i64>, timestamp: i64) -> (r: Result<
        FrameResult,
        InputShapeError,
    >)
        requires
            old(self).wf(),
            buffer_bounded(keypoints@),
            -TIME_LIMIT <= timestamp <= TIME_LIMIT,
        ensures
            final(self).wf(),
            final(self).spec_profile() == old(self).spec_profile(),
            final(self).spec_group() == old(self).spec_group(),
            r is Err <==> keypoints@.len() % 3 != 0,
            keypoints@.len() % 3 != 0 <==> r == Err::<FrameResult, InputShapeError>(
                InputShapeError { length: keypoints@.len() as usize },
            ),
            r is Err ==> *final(self) == *old(self),
            r matches Ok(out) ==> {
                let prof = match old(self).spec_profile() {
                    Some(p) => Some(&p),
                    None => None,
                };
                let angles = spec_extracted(old(self).spec_group(), keypoints@);
                let stepped = spec_update(prof, old(self).spec_counter(), angles, timestamp);
                &&& final(self).spec_counter() == stepped.0
                &&& out.rep_event == stepped.1
                &&& out.rep_count == stepped.0.count
                &&& out.phase == stepped.0.phase
                &&& out.violations@ == spec_violations(prof, angles)
                &&& out.engagement == spec_engagement(prof, angles)
                &&& 100 <= out.engagement <= 1000
            },
    {
        if keypoints.len() % 3 != 0 {
            return Err(InputShapeError { length: keypoints.len() });
        }
        let angles: AngleSet = self.pose.calculate_angles(keypoints, self.group);
        let prof: Option<&ExerciseProfile> = match &self.profile {
            Some(p) => Some(p),
            None => None,
        };
        let rep_event: Option<(u32, MovementPhase)> = self.counter.update(
            prof,
            &angles,
            timestamp,
        );
        let violations: Vec<Violation> = self.pose.check_form(prof, &angles);
        let engagement: i64 = self.pose.calculate_engagement(prof, &angles);
        Ok(
            FrameResult {
                rep_count: self.counter.count(),
                phase: self.counter.current_phase(),
                violations,
                engagement,
                rep_event,
            },
        )
    }
}

} // verus!
