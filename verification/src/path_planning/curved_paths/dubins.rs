//! Shortest forward-only paths for a vehicle that turns no tighter than a
//! given curvature: a turn, a straight run or a turn the other way, and a
//! turn.
use crate::path_planning::curved_paths::PathSegmentType;
use crate::path_planning::curved_paths::all_numbers;
use crate::path_planning::curved_paths::holds_numbers;
use crate::path_planning::curved_paths::lemma_none_better_than_shortest;
use crate::path_planning::curved_paths::lemma_shortest_exists;
use crate::path_planning::curved_paths::sampler::Walk;
use crate::path_planning::curved_paths::sampler::WalkView;
use crate::path_planning::curved_paths::shortest;
use crate::path_planning::curved_paths::spec_better;
use crate::path_planning::curved_paths::spec_shortest;
use crate::prelude::Error;
use crate::prelude::Ray;
use crate::scalar::Scalar;
use vstd::prelude::*;

verus! {

/// The family right-straight-right. `p_sq` is the square of the straight run
/// between the two turning circles: there is no solution where it is
/// negative. `s1`, `s2`, `s3` are the three lengths.
pub fn rsr(p_sq: Scalar, s1: Scalar, s2: Scalar, s3: Scalar) -> (r: Option<[PathSegmentType; 3]>)
    ensures
        r is None <==> p_sq.spec_lt(Scalar::spec_zero()),
        r is Some ==> r.unwrap()@ == seq![
            PathSegmentType::Right(s1),
            PathSegmentType::Straight(s2),
            PathSegmentType::Right(s3),
        ],
{
    if p_sq.lt(Scalar::zero()) {
        return None;
    }
    let r = [
        PathSegmentType::Right(s1),
        PathSegmentType::Straight(s2),
        PathSegmentType::Right(s3),
    ];
    assert(r@ =~= seq![
        PathSegmentType::Right(s1),
        PathSegmentType::Straight(s2),
        PathSegmentType::Right(s3),
    ]);
    Some(r)
}

/// The family right-straight-left. `p_sq` is the square of the straight run
/// between the two turning circles: there is no solution where it is
/// negative. `s1`, `s2`, `s3` are the three lengths.
pub fn rsl(p_sq: Scalar, s1: Scalar, s2: Scalar, s3: Scalar) -> (r: Option<[PathSegmentType; 3]>)
    ensures
        r is None <==> p_sq.spec_lt(Scalar::spec_zero()),
        r is Some ==> r.unwrap()@ == seq![
            PathSegmentType::Right(s1),
            PathSegmentType::Straight(s2),
            PathSegmentType::Left(s3),
        ],
{
    if p_sq.lt(Scalar::zero()) {
        return None;
    }
    let r = [
        PathSegmentType::Right(s1),
        PathSegmentType::Straight(s2),
        PathSegmentType::Left(s3),
    ];
    assert(r@ =~= seq![
        PathSegmentType::Right(s1),
        PathSegmentType::Straight(s2),
        PathSegmentType::Left(s3),
    ]);
    Some(r)
}

/// The family left-straight-right. `p_sq` is the square of the straight run
/// between the two turning circles: there is no solution where it is
/// negative. `s1`, `s2`, `s3` are the three lengths.
pub fn lsr(p_sq: Scalar, s1: Scalar, s2: Scalar, s3: Scalar) -> (r: Option<[PathSegmentType; 3]>)
    ensures
        r is None <==> p_sq.spec_lt(Scalar::spec_zero()),
        r is Some ==> r.unwrap()@ == seq![
            PathSegmentType::Left(s1),
            PathSegmentType::Straight(s2),
            PathSegmentType::Right(s3),
        ],
{
    if p_sq.lt(Scalar::zero()) {
        return None;
    }
    let r = [
        PathSegmentType::Left(s1),
        PathSegmentType::Straight(s2),
        PathSegmentType::Right(s3),
    ];
    assert(r@ =~= seq![
        PathSegmentType::Left(s1),
        PathSegmentType::Straight(s2),
        PathSegmentType::Right(s3),
    ]);
    Some(r)
}

/// The family left-straight-left. `p_sq` is the square of the straight run
/// between the two turning circles: there is no solution where it is
/// negative. `s1`, `s2`, `s3` are the three lengths.
pub fn lsl(p_sq: Scalar, s1: Scalar, s2: Scalar, s3: Scalar) -> (r: Option<[PathSegmentType; 3]>)
    ensures
        r is None <==> p_sq.spec_lt(Scalar::spec_zero()),
        r is Some ==> r.unwrap()@ == seq![
            PathSegmentType::Left(s1),
            PathSegmentType::Straight(s2),
            PathSegmentType::Left(s3),
        ],
{
    if p_sq.lt(Scalar::zero()) {
        return None;
    }
    let r = [
        PathSegmentType::Left(s1),
        PathSegmentType::Straight(s2),
        PathSegmentType::Left(s3),
    ];
    assert(r@ =~= seq![
        PathSegmentType::Left(s1),
        PathSegmentType::Straight(s2),
        PathSegmentType::Left(s3),
    ]);
    Some(r)
}

/// The family right-left-right. `tmp` is the cosine of the middle turn: there is
/// no solution where its magnitude is above one. `s1`, `s2`, `s3` are the
/// three lengths.
pub fn rlr(tmp: Scalar, s1: Scalar, s2: Scalar, s3: Scalar) -> (r: Option<[PathSegmentType; 3]>)
    ensures
        r is None <==> Scalar::spec_one().spec_lt(tmp.spec_abs()),
        r is Some ==> r.unwrap()@ == seq![
            PathSegmentType::Right(s1),
            PathSegmentType::Left(s2),
            PathSegmentType::Right(s3),
        ],
{
    if tmp.abs().gt(Scalar::one()) {
        return None;
    }
    let r = [
        PathSegmentType::Right(s1),
        PathSegmentType::Left(s2),
        PathSegmentType::Right(s3),
    ];
    assert(r@ =~= seq![
        PathSegmentType::Right(s1),
        PathSegmentType::Left(s2),
        PathSegmentType::Right(s3),
    ]);
    Some(r)
}

/// The family left-right-left. `tmp` is the cosine of the middle turn: there is
/// no solution where its magnitude is above one. `s1`, `s2`, `s3` are the
/// three lengths.
pub fn lrl(tmp: Scalar, s1: Scalar, s2: Scalar, s3: Scalar) -> (r: Option<[PathSegmentType; 3]>)
    ensures
        r is None <==> Scalar::spec_one().spec_lt(tmp.spec_abs()),
        r is Some ==> r.unwrap()@ == seq![
            PathSegmentType::Left(s1),
            PathSegmentType::Right(s2),
            PathSegmentType::Left(s3),
        ],
{
    if tmp.abs().gt(Scalar::one()) {
        return None;
    }
    let r = [
        PathSegmentType::Left(s1),
        PathSegmentType::Right(s2),
        PathSegmentType::Left(s3),
    ];
    assert(r@ =~= seq![
        PathSegmentType::Left(s1),
        PathSegmentType::Right(s2),
        PathSegmentType::Left(s3),
    ]);
    Some(r)
}

/// A candidate path: three slots and the distance travelled along them, by
/// which candidates are compared.
#[derive(Debug, Copy, Clone, PartialEq)]
pub struct DubinsPath {
    distance: Scalar,
    segments: [PathSegmentType; 3],
}

impl DubinsPath {
    pub closed spec fn spec_distance(&self) -> Scalar {
        self.distance
    }

    pub closed spec fn spec_segments(&self) -> [PathSegmentType; 3] {
        self.segments
    }

    /// Whether the distance and every length are numbers.
    pub open spec fn spec_is_defined(&self) -> bool {
        !self.spec_distance().spec_is_nan() && all_numbers(self.spec_segments()@)
    }

    /// What the candidate is compared by: its distance, or what is not a
    /// number as soon as one of its lengths is not.
    pub open spec fn spec_key(&self) -> Scalar {
        if self.spec_is_defined() {
            self.spec_distance()
        } else {
            Scalar::spec_nan()
        }
    }

    /// The candidate of the given slots. `distance` is the sum of the
    /// magnitudes of their lengths, which the caller has added up.
    pub fn new(distance: Scalar, segments: [PathSegmentType; 3]) -> (r: Self)
        ensures
            r.spec_distance() == distance,
            r.spec_segments() == segments,
    {
        Self { distance, segments }
    }

    #[verifier::when_used_as_spec(spec_distance)]
    pub fn distance(&self) -> (r: Scalar)
        ensures
            r == self.spec_distance(),
    {
        self.distance
    }

    #[verifier::when_used_as_spec(spec_segments)]
    pub fn segments(&self) -> (r: [PathSegmentType; 3])
        ensures
            r == self.spec_segments(),
    {
        self.segments
    }

    #[verifier::when_used_as_spec(spec_is_defined)]
    pub fn is_defined(&self) -> (r: bool)
        ensures
            r == self.spec_is_defined(),
    {
        !self.distance.is_nan() && holds_numbers(&self.segments)
    }

    #[verifier::when_used_as_spec(spec_key)]
    pub fn key(&self) -> (r: Scalar)
        ensures
            r == self.spec_key(),
    {
        if self.is_defined() {
            self.distance
        } else {
            Scalar::nan()
        }
    }
}

/// What each candidate is compared by, place by place.
pub open spec fn spec_keys(c: Seq<Option<DubinsPath>>) -> Seq<Option<Scalar>> {
    Seq::new(
        c.len(),
        |i: int|
            match c[i] {
                Some(p) => Some(p.spec_key()),
                None => None,
            },
    )
}

/// The candidate to select: the first of those of least distance. One with a
/// length that is not a number is selected only where every candidate that
/// is there has one.
pub open spec fn spec_select(c: Seq<Option<DubinsPath>>) -> Option<DubinsPath> {
    match spec_shortest(spec_keys(c)) {
        Some(i) => c[i],
        None => None,
    }
}

/// No candidate is preferred to the selected one.
pub proof fn lemma_select_is_least(c: Seq<Option<DubinsPath>>, j: int)
    requires
        0 <= j < c.len(),
        c[j] is Some,
    ensures
        spec_select(c) is Some,
        !spec_better(c[j].unwrap().spec_key(), spec_select(c).unwrap().spec_key()),
{
    let keys = spec_keys(c);
    assert(keys[j] == Some(c[j].unwrap().spec_key()));
    lemma_none_better_than_shortest(keys, j);
    lemma_shortest_exists(keys, j);
    let i = spec_shortest(keys).unwrap();
    assert(keys[i] == Some(c[i].unwrap().spec_key()));
}

/// A solved path between two poses.
#[derive(Debug, Copy, Clone, PartialEq)]
pub struct Dubins {
    pub start: Ray,
    pub end: Ray,
    pub path: DubinsPath,
    pub max_curve: Scalar,
}

impl Dubins {
    /// The shortest path from `start` to `end` among `families`, which holds
    /// the solution of each family in the order right-straight-right,
    /// right-straight-left, left-straight-right, left-straight-left,
    /// right-left-right, left-right-left, absent where the family has none.
    /// Of equally short paths the first is taken.
    ///
    /// Fails with `PathNotFound` where no family has a solution, and with
    /// `NaNInCalculation` where every solution holds a length that is not a
    /// number.
    pub fn new(start: Ray, end: Ray, max_curve: Scalar, families: [Option<DubinsPath>; 6]) -> (r:
        Result<Self, Error>)
        ensures
            match spec_select(families@) {
                None => r == Err::<Self, Error>(Error::PathNotFound),
                Some(path) => if path.spec_is_defined() {
                    r == Ok::<Self, Error>(Dubins { start, end, path, max_curve })
                } else {
                    r == Err::<Self, Error>(Error::NaNInCalculation)
                },
            },
            r == Err::<Self, Error>(Error::PathNotFound) <==> (forall|j: int|
                0 <= j < 6 ==> families@[j] is None),
    {
        let mut keys: Vec<Option<Scalar>> = Vec::new();
        let mut i: usize = 0;
        while i < 6
            invariant
                i <= 6,
                keys@.len() == i,
                forall|j: int| 0 <= j < i ==> keys@[j] == spec_keys(families@)[j],
            decreases 6 - i,
        {
            let key = match &families[i] {
                Some(p) => Some(p.key()),
                None => None,
            };
            keys.push(key);
            i += 1;
        }
        assert(keys@ =~= spec_keys(families@));
        match shortest(keys.as_slice()) {
            Some(at) => {
                assert(keys@[at as int] is Some);
                let path = families[at].unwrap();
                if path.is_defined() {
                    Ok(Self { start, end, path, max_curve })
                } else {
                    Err(Error::NaNInCalculation)
                }
            },
            None => {
                assert forall|j: int| 0 <= j < 6 implies families@[j] is None by {
                    assert(keys@[j] is None);
                }
                Err(Error::PathNotFound)
            },
        }
    }

    /// The walk along the path in steps of `step_size`, before its first
    /// sample. Its samples lay out the poses as seen from `start`, lengths
    /// in units of the turning radius, which is one over `max_curve`.
    #[must_use]
    pub fn get_points(&self, step_size: Scalar) -> (w: Walk)
        ensures
            w@ == WalkView::start(self.path.spec_segments()@, step_size),
            w@.wf(),
    {
        let segments = self.path.segments();
        Walk::new(segments.as_slice(), step_size)
    }
}

} // verus!
