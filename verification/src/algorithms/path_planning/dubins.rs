//! Shortest forward-only paths between two poses, as one of six families of
//! a turn, a straight run or a turn the other way, and a turn.
use crate::path_planning::curved_paths::sampler::lemma_advance_keeps_wf;
use crate::path_planning::curved_paths::sampler::seek;
use crate::path_planning::curved_paths::sampler::stride_at;
use crate::path_planning::curved_paths::sampler::Sample;
use crate::path_planning::curved_paths::sampler::WalkView;
use crate::path_planning::curved_paths::shortest;
use crate::path_planning::curved_paths::spec_shortest;
use crate::prelude::Vec2;
use crate::scalar::Scalar;
use smallvec::SmallVec;
use vstd::prelude::*;

verus! {

/// What a vehicle does along one segment of a path.
#[derive(Debug, Copy, Clone, PartialEq, Eq, Structural)]
pub enum PathSegmentType {
    Right,
    Straight,
    Left,
}

/// The six families, named by their three segments.
#[derive(Debug, Copy, Clone, PartialEq, Eq, Structural)]
pub enum PathType {
    RSR,
    RSL,
    LSR,
    LSL,
    RLR,
    LRL,
}

impl PathType {
    /// Whether the middle segment of the family is a straight run.
    pub open spec fn has_straight(self) -> bool {
        match self {
            PathType::RSR | PathType::RSL | PathType::LSR | PathType::LSL => true,
            PathType::RLR | PathType::LRL => false,
        }
    }

    /// Whether the family has a solution, by its criterion: for a family with a
    /// straight run the square of that run, which must not be negative; for
    /// one of three turns the cosine of the middle turn, whose magnitude
    /// must not be above one.
    pub open spec fn admits(self, criterion: Scalar) -> bool {
        if self.has_straight() {
            !criterion.spec_lt(Scalar::spec_zero())
        } else {
            !Scalar::spec_one().spec_lt(criterion.spec_abs())
        }
    }

    pub open spec fn spec_get_distances(self, criterion: Scalar, d1: Scalar, d2: Scalar, d3: Scalar) -> Option<
        (Scalar, Scalar, Scalar, PathType),
    > {
        if self.admits(criterion) {
            Some((d1, d2, d3, self))
        } else {
            None
        }
    }

    pub open spec fn spec_get_path_segment_types(self) -> Seq<PathSegmentType> {
        match self {
            PathType::RSR => seq![
                PathSegmentType::Right,
                PathSegmentType::Straight,
                PathSegmentType::Right,
            ],
            PathType::RSL => seq![
                PathSegmentType::Right,
                PathSegmentType::Straight,
                PathSegmentType::Left,
            ],
            PathType::LSR => seq![
                PathSegmentType::Left,
                PathSegmentType::Straight,
                PathSegmentType::Right,
            ],
            PathType::LSL => seq![
                PathSegmentType::Left,
                PathSegmentType::Straight,
                PathSegmentType::Left,
            ],
            PathType::RLR => seq![
                PathSegmentType::Right,
                PathSegmentType::Left,
                PathSegmentType::Right,
            ],
            PathType::LRL => seq![
                PathSegmentType::Left,
                PathSegmentType::Right,
                PathSegmentType::Left,
            ],
        }
    }

    /// The six families, in the order in which a solver compares their
    /// solutions.
    pub fn all() -> (r: [PathType; 6])
        ensures
            r@ == seq![
                PathType::RSR,
                PathType::RSL,
                PathType::LSR,
                PathType::LSL,
                PathType::RLR,
                PathType::LRL,
            ],
    {
        let r = [
            PathType::RSR,
            PathType::RSL,
            PathType::LSR,
            PathType::LSL,
            PathType::RLR,
            PathType::LRL,
        ];
        assert(r@ =~= seq![
            PathType::RSR,
            PathType::RSL,
            PathType::LSR,
            PathType::LSL,
            PathType::RLR,
            PathType::LRL,
        ]);
        r
    }

    /// The solution of the family, if it has one. `criterion` is the quantity
    /// that decides whether it has, see [`PathType::admits`], and `d1`,
    /// `d2`, `d3` are the three lengths that the family's formula gives, in
    /// units of the turning radius.
    pub fn get_distances(&self, criterion: Scalar, d1: Scalar, d2: Scalar, d3: Scalar) -> (r: Option<
        (Scalar, Scalar, Scalar, PathType),
    >)
        ensures
            r == self.spec_get_distances(criterion, d1, d2, d3),
    {
        match *self {
            PathType::RSR | PathType::RSL | PathType::LSR | PathType::LSL => {
                if criterion.lt(Scalar::zero()) {
                    return None;
                }
            },
            PathType::RLR | PathType::LRL => {
                if criterion.abs().gt(Scalar::one()) {
                    return None;
                }
            },
        }
        Some((d1, d2, d3, *self))
    }

    /// The three segments of the family, in the order of travel.
    pub fn get_path_segment_types(&self) -> (r: [PathSegmentType; 3])
        ensures
            r@ == self.spec_get_path_segment_types(),
    {
        match self {
            PathType::RSR => {
                let r = [PathSegmentType::Right, PathSegmentType::Straight, PathSegmentType::Right];
                assert(r@ =~= self.spec_get_path_segment_types());
                r
            },
            PathType::RSL => {
                let r = [PathSegmentType::Right, PathSegmentType::Straight, PathSegmentType::Left];
                assert(r@ =~= self.spec_get_path_segment_types());
                r
            },
            PathType::LSR => {
                let r = [PathSegmentType::Left, PathSegmentType::Straight, PathSegmentType::Right];
                assert(r@ =~= self.spec_get_path_segment_types());
                r
            },
            PathType::LSL => {
                let r = [PathSegmentType::Left, PathSegmentType::Straight, PathSegmentType::Left];
                assert(r@ =~= self.spec_get_path_segment_types());
                r
            },
            PathType::RLR => {
                let r = [PathSegmentType::Right, PathSegmentType::Left, PathSegmentType::Right];
                assert(r@ =~= self.spec_get_path_segment_types());
                r
            },
            PathType::LRL => {
                let r = [PathSegmentType::Left, PathSegmentType::Right, PathSegmentType::Left];
                assert(r@ =~= self.spec_get_path_segment_types());
                r
            },
        }
    }
}

/// A family has a straight run exactly where its middle segment is one, and
/// its first and last segments are always turns.
pub proof fn lemma_family_shape(family: PathType)
    ensures
        family.spec_get_path_segment_types().len() == 3,
        family.has_straight() == (family.spec_get_path_segment_types()[1] == PathSegmentType::Straight),
        family.spec_get_path_segment_types()[0] != PathSegmentType::Straight,
        family.spec_get_path_segment_types()[2] != PathSegmentType::Straight,
        family.spec_get_path_segment_types()[0] != family.spec_get_path_segment_types()[1],
        family.spec_get_path_segment_types()[1] != family.spec_get_path_segment_types()[2],
{
}

/// Why the solver produced no path.
#[derive(Debug, Copy, Clone, PartialEq, Eq, Structural)]
pub enum Error {
    /// No family has a solution for the two poses and the curvature.
    PathNotFound,
    /// Every solution that a family has holds a length that is not a number.
    NaNInCalculation,
}

/// A solved path, with all that sampling it needs: the two poses as given,
/// the end pose as seen from the start pose, the family, its three lengths
/// in units of the turning radius, and the curvature of the turns.
#[derive(Debug, Copy, Clone, PartialEq)]
pub struct DubinsPath {
    pub path_type: PathType,
    pub start: (Vec2, Scalar),
    pub end: (Vec2, Scalar),
    pub relative_end: (Vec2, Scalar),
    pub distances: [Scalar; 3],
    pub max_curve: Scalar,
}

/// Whether the three lengths of a solution and their total are numbers.
pub open spec fn spec_is_defined(c: (Scalar, Scalar, Scalar, PathType), total: Scalar) -> bool {
    !c.0.spec_is_nan() && !c.1.spec_is_nan() && !c.2.spec_is_nan() && !total.spec_is_nan()
}

/// What each family's solution is compared by, place by place: its total,
/// or what is not a number as soon as one of its lengths is not.
pub open spec fn spec_keys(
    candidates: Seq<Option<(Scalar, Scalar, Scalar, PathType)>>,
    totals: Seq<Scalar>,
) -> Seq<Option<Scalar>> {
    Seq::new(
        candidates.len(),
        |i: int|
            match candidates[i] {
                Some(c) => Some(
                    if spec_is_defined(c, totals[i]) {
                        totals[i]
                    } else {
                        Scalar::spec_nan()
                    },
                ),
                None => None,
            },
    )
}

/// Whether the three lengths of a solution and their total are numbers.
#[verifier::when_used_as_spec(spec_is_defined)]
pub fn is_defined(c: (Scalar, Scalar, Scalar, PathType), total: Scalar) -> (r: bool)
    ensures
        r == spec_is_defined(c, total),
{
    !c.0.is_nan() && !c.1.is_nan() && !c.2.is_nan() && !total.is_nan()
}

impl DubinsPath {
    /// The shortest path from the pose `(x0, y0)` to the pose `(x1, y1)`,
    /// each a position and a heading, with turns of curvature `max_curve`.
    ///
    /// `relative_end` is the end pose as seen from the start pose.
    /// `candidates` holds what [`PathType::get_distances`] gave for each
    /// family, in the order of [`PathType::all`], and `totals` the sum of the
    /// three lengths of each. The path is that of the least total, and of
    /// equal totals the first.
    ///
    /// Fails with `PathNotFound` where no family has a solution, and with
    /// `NaNInCalculation` where every solution holds a length that is not a
    /// number.
    pub fn new(
        x0: Vec2,
        y0: Scalar,
        x1: Vec2,
        y1: Scalar,
        max_curve: Scalar,
        relative_end: (Vec2, Scalar),
        candidates: [Option<(Scalar, Scalar, Scalar, PathType)>; 6],
        totals: [Scalar; 6],
    ) -> (r: Result<Self, Error>)
        ensures
            match spec_shortest(spec_keys(candidates@, totals@)) {
                None => r == Err::<Self, Error>(Error::PathNotFound),
                Some(i) => {
                    let c = candidates@[i].unwrap();
                    if spec_is_defined(c, totals@[i]) {
                        &&& r is Ok
                        &&& r.unwrap().path_type == c.3
                        &&& r.unwrap().start == (x0, y0)
                        &&& r.unwrap().end == (x1, y1)
                        &&& r.unwrap().relative_end == relative_end
                        &&& r.unwrap().distances@ == seq![c.0, c.1, c.2]
                        &&& r.unwrap().max_curve == max_curve
                    } else {
                        r == Err::<Self, Error>(Error::NaNInCalculation)
                    }
                },
            },
            r == Err::<Self, Error>(Error::PathNotFound) <==> (forall|j: int|
                0 <= j < 6 ==> candidates@[j] is None),
    {
        let mut keys: Vec<Option<Scalar>> = Vec::new();
        let mut i: usize = 0;
        while i < 6
            invariant
                i <= 6,
                keys@.len() == i,
                forall|j: int| 0 <= j < i ==> keys@[j] == spec_keys(candidates@, totals@)[j],
            decreases 6 - i,
        {
            let key = match candidates[i] {
                Some(c) => Some(
                    if is_defined(c, totals[i]) {
                        totals[i]
                    } else {
                        Scalar::nan()
                    },
                ),
                None => None,
            };
            keys.push(key);
            i += 1;
        }
        assert(keys@ =~= spec_keys(candidates@, totals@));
        match shortest(keys.as_slice()) {
            Some(at) => {
                assert(keys@[at as int] is Some);
                let v = candidates[at].unwrap();
                if is_defined(v, totals[at]) {
                    let distances = [v.0, v.1, v.2];
                    assert(distances@ =~= seq![v.0, v.1, v.2]);
                    Ok(
                        Self {
                            path_type: v.3,
                            start: (x0, y0),
                            end: (x1, y1),
                            relative_end,
                            distances,
                            max_curve,
                        },
                    )
                } else {
                    Err(Error::NaNInCalculation)
                }
            },
            None => {
                assert forall|j: int| 0 <= j < 6 implies candidates@[j] is None by {
                    assert(keys@[j] is None);
                }
                Err(Error::PathNotFound)
            },
        }
    }
}

/// A run of samples: a vector of `smallvec`, which keeps up to 64 samples in
/// place and moves them to the heap when there are more.
#[verifier::external_body]
pub struct Samples {
    inner: SmallVec<[Sample; 64]>,
}

/// The samples that a run holds, in order.
pub uninterp spec fn samples_of(v: Samples) -> Seq<Sample>;

/// `SmallVec::new`: a run without samples.
#[verifier::external_body]
fn samples_new() -> (r: Samples)
    ensures
        samples_of(r) == Seq::<Sample>::empty(),
{
    Samples { inner: SmallVec::new() }
}

/// `SmallVec::push`: the run with `sample` after the samples that it held.
/// Like the vector of the standard library it gives up only where memory
/// does.
#[verifier::external_body]
fn samples_push(v: &mut Samples, sample: Sample)
    ensures
        samples_of(*final(v)) == samples_of(*old(v)).push(sample),
{
    v.inner.push(sample)
}

/// `SmallVec::len`: the number of samples in the run.
#[verifier::external_body]
fn samples_len(v: &Samples) -> (r: usize)
    ensures
        r == samples_of(*v).len(),
{
    v.inner.len()
}

/// `SmallVec::as_slice`: the samples of the run, in order.
#[verifier::external_body]
fn samples_as_slice(v: &Samples) -> (r: &[Sample])
    ensures
        r@ == samples_of(*v),
{
    v.inner.as_slice()
}

/// The walk along a solved path, which collects its samples in a run.
///
/// It is driven as [`crate::path_planning::curved_paths::sampler::Walk`]
/// is: the caller adds the two lengths that are pending and hands the sum to
/// [`DubinsWalk::advance`], until nothing is pending.
pub struct DubinsWalk {
    segments: Vec<crate::path_planning::curved_paths::PathSegmentType>,
    step_size: Scalar,
    index: usize,
    stride: Scalar,
    cursor: Scalar,
    origin: usize,
    samples: Samples,
}

impl View for DubinsWalk {
    type V = WalkView;

    closed spec fn view(&self) -> WalkView {
        WalkView {
            segments: self.segments@,
            step_size: self.step_size,
            index: self.index as int,
            stride: self.stride,
            cursor: self.cursor,
            origin: self.origin as int,
            samples: samples_of(self.samples),
        }
    }
}

impl DubinsWalk {
    /// Whether every sample has been decided.
    pub fn is_finished(&self) -> (r: bool)
        ensures
            r == self@.finished(),
    {
        self.index >= self.segments.len()
    }

    /// The two lengths that the caller is to add for the next call of
    /// [`DubinsWalk::advance`], the cursor and the stride, or `None` when the
    /// walk is over.
    pub fn pending(&self) -> (r: Option<(Scalar, Scalar)>)
        ensures
            r == self@.pending(),
    {
        if self.index >= self.segments.len() {
            None
        } else {
            Some((self.cursor, self.stride))
        }
    }

    /// Decides one more sample, `next` being the sum of the two lengths that
    /// are pending.
    pub fn advance(&mut self, next: Scalar)
        requires
            old(self)@.wf(),
        ensures
            final(self)@ == old(self)@.advance(next),
            final(self)@.wf(),
    {
        if self.index >= self.segments.len() {
            return ;
        }
        let segment = self.segments[self.index];
        let length = segment.length().unwrap();
        let ghost before = self@;
        if next.abs().le(length.abs()) {
            samples_push(&mut self.samples, Sample { segment, origin: self.origin, offset: self.cursor });
            self.cursor = next;
        } else {
            samples_push(&mut self.samples, Sample { segment, origin: self.origin, offset: length });
            self.index = seek(&self.segments, self.index + 1);
            self.stride = stride_at(&self.segments, self.step_size, self.index);
            self.cursor = self.stride;
            self.origin = samples_len(&self.samples);
        }
        let count = samples_len(&self.samples);
        proof {
            assert(before.samples.len() + 1 == count);
            lemma_advance_keeps_wf(before, next);
        }
    }

    /// The samples decided so far.
    pub fn samples(&self) -> (r: &[Sample])
        ensures
            r@ == self@.samples,
    {
        samples_as_slice(&self.samples)
    }
}

impl DubinsPath {
    /// The three slots of the path: each segment of the family with its
    /// length.
    pub open spec fn spec_segments(&self) -> Seq<crate::path_planning::curved_paths::PathSegmentType> {
        Seq::new(
            3,
            |i: int|
                match self.path_type.spec_get_path_segment_types()[i] {
                    PathSegmentType::Right => crate::path_planning::curved_paths::PathSegmentType::Right(
                        self.distances@[i],
                    ),
                    PathSegmentType::Straight => crate::path_planning::curved_paths::PathSegmentType::Straight(
                        self.distances@[i],
                    ),
                    PathSegmentType::Left => crate::path_planning::curved_paths::PathSegmentType::Left(
                        self.distances@[i],
                    ),
                },
        )
    }

    /// The walk along the path in steps of `step_size`, before its first
    /// sample. Its samples lay out the points in the frame of the start
    /// pose, lengths in units of the turning radius.
    pub fn get_points_local(&self, step_size: Scalar) -> (w: DubinsWalk)
        ensures
            w@ == WalkView::start(self.spec_segments(), step_size),
            w@.wf(),
    {
        let kinds = self.path_type.get_path_segment_types();
        let mut segments: Vec<crate::path_planning::curved_paths::PathSegmentType> = Vec::new();
        let mut i: usize = 0;
        while i < 3
            invariant
                i <= 3,
                kinds@ == self.path_type.spec_get_path_segment_types(),
                segments@.len() == i,
                forall|j: int| 0 <= j < i ==> segments@[j] == self.spec_segments()[j],
            decreases 3 - i,
        {
            let d = self.distances[i];
            let slot = match kinds[i] {
                PathSegmentType::Right => crate::path_planning::curved_paths::PathSegmentType::Right(d),
                PathSegmentType::Straight => crate::path_planning::curved_paths::PathSegmentType::Straight(d),
                PathSegmentType::Left => crate::path_planning::curved_paths::PathSegmentType::Left(d),
            };
            segments.push(slot);
            i += 1;
        }
        assert(segments@ =~= self.spec_segments());
        let index = seek(&segments, 0);
        let stride = stride_at(&segments, step_size, index);
        proof {
            crate::path_planning::curved_paths::sampler::lemma_seek(segments@, 0);
        }
        DubinsWalk {
            segments,
            step_size,
            index,
            stride,
            cursor: stride,
            origin: 0,
            samples: samples_new(),
        }
    }
}

} // verus!
