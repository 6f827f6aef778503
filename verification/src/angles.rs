//! Named joint-region angles extracted from one frame.
//!
//! An [`AngleSet`] maps joint regions to angles in centidegrees.  A key
//! that is absent means "this metric cannot be evaluated now", which
//! callers must distinguish from an angle of zero.

use vstd::prelude::*;

use crate::units::ANGLE_LIMIT;

verus! {

/// The joint regions an extractor can name.
#[derive(Clone, Copy, Debug, PartialEq, Eq, Structural)]
pub enum JointRegion {
    ElbowFlexion,
    ShoulderFlexion,
    ShoulderPosition,
    ScapularMovement,
    TorsoStability,
    WristAngle,
    ShoulderRotation,
    KneeFlexion,
    HipFlexion,
    HipExtension,
    AnkleFlexion,
    SpineFlexion,
    TorsoAlignment,
    StanceAngle,
    /// Signed frontal-plane knee alignment: negative and positive values
    /// tell valgus from varus.
    FrontalAlignment,
}

/// The angle stored for `j` in the association list `s`: the first entry
/// with that key, or `None` when the region was not extracted.
pub open spec fn angle_of(s: Seq<(JointRegion, i64)>, j: JointRegion) -> Option<i64>
    decreases s.len(),
{
    if s.len() == 0 {
        None
    } else if s[0].0 == j {
        Some(s[0].1)
    } else {
        angle_of(s.drop_first(), j)
    }
}

/// Replace the first entry for `j`, or append one when none exists.
pub open spec fn with_angle(
    s: Seq<(JointRegion, i64)>,
    j: JointRegion,
    v: i64,
) -> Seq<(JointRegion, i64)>
    decreases s.len(),
{
    if s.len() == 0 {
        seq![(j, v)]
    } else if s[0].0 == j {
        seq![(j, v)] + s.drop_first()
    } else {
        seq![s[0]] + with_angle(s.drop_first(), j, v)
    }
}

/// Every stored angle is at most one full turn in magnitude.
pub open spec fn angles_bounded(s: Seq<(JointRegion, i64)>) -> bool {
    forall|i: int| 0 <= i < s.len() ==> -ANGLE_LIMIT <= (#[trigger] s[i]).1 <= ANGLE_LIMIT
}

/// A per-frame mapping from joint region to angle in centidegrees.
#[derive(Debug)]
pub struct AngleSet {
    entries: Vec<(JointRegion, i64)>,
}

impl View for AngleSet {
    type V = Seq<(JointRegion, i64)>;

    closed spec fn view(&self) -> Seq<(JointRegion, i64)> {
        self.entries@
    }
}

impl AngleSet {
    /// Every angle held by this set is bounded; all constructors keep it.
    pub open spec fn wf(&self) -> bool {
        angles_bounded(self@)
    }

    /// The empty angle set: no metric can be evaluated.
    pub fn new() -> (r: AngleSet)
        ensures
            r@ == Seq::<(JointRegion, i64)>::empty(),
            r.wf(),
    {
        AngleSet { entries: Vec::new() }
    }

    /// How many joint regions carry an angle.
    pub fn len(&self) -> (n: usize)
        ensures
            n == self@.len(),
    {
        self.entries.len()
    }

    /// The angle extracted for `j`, or `None` when that region was not
    /// evaluated this frame.
    pub fn get(&self, j: JointRegion) -> (r: Option<i64>)
        ensures
            r == angle_of(self@, j),
    {
        let n: usize = self.entries.len();
        let mut i: usize = 0;
        proof {
            assert(self@.skip(0) =~= self@);
        }
        while i < n
            invariant
                0 <= i <= n,
                n == self@.len(),
                angle_of(self@, j) == angle_of(self@.skip(i as int), j),
            decreases n - i,
        {
            let (key, value) = self.entries[i];
            proof {
                assert(self@.skip(i as int)[0] == self@[i as int]);
                assert(self@.skip(i as int).drop_first() =~= self@.skip(i as int + 1));
            }
            if key == j {
                return Some(value);
            }
            i = i + 1;
        }
        proof {
            assert(self@.skip(n as int) =~= Seq::<(JointRegion, i64)>::empty());
        }
        None
    }

    /// Store `v` for `j`, replacing any earlier value for that region.
    pub fn set_angle(&mut self, j: JointRegion, v: i64)
        requires
            -ANGLE_LIMIT <= v <= ANGLE_LIMIT,
            old(self).wf(),
        ensures
            final(self)@ == with_angle(old(self)@, j, v),
            final(self).wf(),
    {
        let n: usize = self.entries.len();
        let mut i: usize = 0;
        while i < n
            invariant
                0 <= i <= n,
                n == self@.len(),
                self@ == old(self)@,
                angles_bounded(old(self)@),
                -ANGLE_LIMIT <= v <= ANGLE_LIMIT,
                forall|k: int| 0 <= k < i ==> (#[trigger] self@[k]).0 != j,
            decreases n - i,
        {
            let (key, _) = self.entries[i];
            if key == j {
                self.entries.set(i, (j, v));
                proof {
                    lemma_with_angle_at(old(self)@, j, v, i as int);
                    assert(self@ =~= old(self)@.update(i as int, (j, v)));
                    assert forall|k: int| 0 <= k < self@.len() implies -ANGLE_LIMIT <= (
                    #[trigger] self@[k]).1 <= ANGLE_LIMIT by {
                        if k != i {
                            assert(self@[k] == old(self)@[k]);
                        }
                    }
                }
                return ;
            }
            i = i + 1;
        }
        self.entries.push((j, v));
        proof {
            lemma_with_angle_absent(old(self)@, j, v);
            assert(self@ =~= old(self)@.push((j, v)));
        }
    }
}

impl AngleSet {
    /// Wrap a list of extracted entries as an angle set.
    pub(crate) fn from_entries(entries: Vec<(JointRegion, i64)>) -> (r: AngleSet)
        requires
            angles_bounded(entries@),
        ensures
            r@ == entries@,
            r.wf(),
    {
        AngleSet { entries }
    }
}

impl Clone for AngleSet {
    /// A clone carries exactly the same angles.
    fn clone(&self) -> (r: Self)
        ensures
            r@ == self@,
    {
        let n: usize = self.entries.len();
        let mut entries: Vec<(JointRegion, i64)> = Vec::new();
        let mut i: usize = 0;
        while i < n
            invariant
                0 <= i <= n,
                n == self@.len(),
                entries@ == self@.take(i as int),
            decreases n - i,
        {
            entries.push(self.entries[i]);
            proof {
                assert(self@.take(i as int).push(self@[i as int]) =~= self@.take(i as int + 1));
            }
            i = i + 1;
        }
        proof {
            assert(self@.take(n as int) =~= self@);
        }
        AngleSet { entries }
    }
}

/// An angle looked up in a bounded association list is itself bounded.
pub proof fn lemma_angle_of_bounded(s: Seq<(JointRegion, i64)>, j: JointRegion)
    requires
        angles_bounded(s),
        angle_of(s, j) is Some,
    ensures
        -ANGLE_LIMIT <= angle_of(s, j)->Some_0 <= ANGLE_LIMIT,
    decreases s.len(),
{
    if s.len() == 0 {
    } else if s[0].0 == j {
        assert(-ANGLE_LIMIT <= s[0].1 <= ANGLE_LIMIT);
    } else {
        assert(angles_bounded(s.drop_first())) by {
            assert forall|i: int|
                0 <= i < s.drop_first().len() implies -ANGLE_LIMIT <= (
            #[trigger] s.drop_first()[i]).1 <= ANGLE_LIMIT by {
                assert(s.drop_first()[i] == s[i + 1]);
            }
        }
        lemma_angle_of_bounded(s.drop_first(), j);
    }
}

/// When the first occurrence of `j` in `s` is at index `i`, replacing it
/// in place realizes `with_angle`.
proof fn lemma_with_angle_at(s: Seq<(JointRegion, i64)>, j: JointRegion, v: i64, i: int)
    requires
        0 <= i < s.len(),
        s[i].0 == j,
        forall|k: int| 0 <= k < i ==> (#[trigger] s[k]).0 != j,
    ensures
        with_angle(s, j, v) =~= s.update(i, (j, v)),
    decreases s.len(),
{
    if i == 0 {
        assert(with_angle(s, j, v) == seq![(j, v)] + s.drop_first());
        assert(seq![(j, v)] + s.drop_first() =~= s.update(0, (j, v)));
    } else {
        assert(s[0].0 != j);
        lemma_with_angle_at(s.drop_first(), j, v, i - 1);
        assert(with_angle(s, j, v) == seq![s[0]] + with_angle(s.drop_first(), j, v));
        assert(seq![s[0]] + s.drop_first().update(i - 1, (j, v)) =~= s.update(i, (j, v)));
    }
}

/// When `j` is absent from `s`, `with_angle` is a plain append.
proof fn lemma_with_angle_absent(s: Seq<(JointRegion, i64)>, j: JointRegion, v: i64)
    requires
        forall|k: int| 0 <= k < s.len() ==> (#[trigger] s[k]).0 != j,
    ensures
        with_angle(s, j, v) =~= s.push((j, v)),
    decreases s.len(),
{
    if s.len() == 0 {
        assert(with_angle(s, j, v) =~= s.push((j, v)));
    } else {
        assert(s[0].0 != j);
        lemma_with_angle_absent(s.drop_first(), j, v);
        assert(seq![s[0]] + s.drop_first().push((j, v)) =~= s.push((j, v)));
    }
}

} // verus!
