//! Paths made of arcs of the tightest turn and of straight runs.
pub mod dubins;
pub mod reeds_shepp;
pub mod sampler;

use crate::scalar::Scalar;
use vstd::prelude::*;

verus! {

/// One slot of a path: a turn or a straight run with its signed length, or
/// nothing. A negative length is travelled in reverse. The length of a turn is
/// the angle turned through, in radians; that of a straight run is in units of
/// the turning radius.
#[derive(Debug, Copy, Clone, PartialEq, Eq, Structural)]
pub enum PathSegmentType {
    Right(Scalar),
    Straight(Scalar),
    Left(Scalar),
    /// An unused slot.
    Nill,
}

impl PathSegmentType {
    /// The signed length of the slot, if it is used.
    pub open spec fn spec_length(self) -> Option<Scalar> {
        match self {
            PathSegmentType::Right(v) => Some(v),
            PathSegmentType::Straight(v) => Some(v),
            PathSegmentType::Left(v) => Some(v),
            PathSegmentType::Nill => None,
        }
    }

    /// The same slot travelled the other way: its length negated.
    pub open spec fn spec_timeflip(self) -> PathSegmentType {
        match self {
            PathSegmentType::Right(v) => PathSegmentType::Right(v.spec_neg()),
            PathSegmentType::Left(v) => PathSegmentType::Left(v.spec_neg()),
            PathSegmentType::Straight(v) => PathSegmentType::Straight(v.spec_neg()),
            PathSegmentType::Nill => PathSegmentType::Nill,
        }
    }

    /// The mirror image of the slot: left for right and right for left.
    pub open spec fn spec_reflect(self) -> PathSegmentType {
        match self {
            PathSegmentType::Right(v) => PathSegmentType::Left(v),
            PathSegmentType::Left(v) => PathSegmentType::Right(v),
            PathSegmentType::Straight(v) => PathSegmentType::Straight(v),
            PathSegmentType::Nill => PathSegmentType::Nill,
        }
    }

    /// The distance travelled in the slot: the magnitude of its length, and
    /// zero for an unused slot.
    pub open spec fn spec_distance(&self) -> Scalar {
        match self.spec_length() {
            Some(v) => v.spec_abs(),
            None => Scalar::spec_zero(),
        }
    }

    #[verifier::when_used_as_spec(spec_length)]
    pub fn length(self) -> (r: Option<Scalar>)
        ensures
            r == self.spec_length(),
    {
        match self {
            PathSegmentType::Right(v) => Some(v),
            PathSegmentType::Straight(v) => Some(v),
            PathSegmentType::Left(v) => Some(v),
            PathSegmentType::Nill => None,
        }
    }

    #[verifier::when_used_as_spec(spec_timeflip)]
    pub fn timeflip(self) -> (r: PathSegmentType)
        ensures
            r == self.spec_timeflip(),
    {
        match self {
            PathSegmentType::Right(v) => PathSegmentType::Right(v.neg()),
            PathSegmentType::Left(v) => PathSegmentType::Left(v.neg()),
            PathSegmentType::Straight(v) => PathSegmentType::Straight(v.neg()),
            PathSegmentType::Nill => self,
        }
    }

    #[verifier::when_used_as_spec(spec_reflect)]
    pub fn reflect(self) -> (r: PathSegmentType)
        ensures
            r == self.spec_reflect(),
    {
        match self {
            PathSegmentType::Right(v) => PathSegmentType::Left(v),
            PathSegmentType::Left(v) => PathSegmentType::Right(v),
            _ => self,
        }
    }

    #[verifier::when_used_as_spec(spec_distance)]
    pub fn distance(&self) -> (r: Scalar)
        ensures
            r == self.spec_distance(),
    {
        match self {
            PathSegmentType::Right(a) | PathSegmentType::Left(a) | PathSegmentType::Straight(a) => {
                a.abs()
            },
            PathSegmentType::Nill => Scalar::zero(),
        }
    }
}

/// Travelling a slot the other way twice, or mirroring it twice, gives the
/// slot back; the two commute; and neither changes the distance travelled.
pub proof fn lemma_segment_symmetries(s: PathSegmentType)
    ensures
        s.spec_timeflip().spec_timeflip() == s,
        s.spec_reflect().spec_reflect() == s,
        s.spec_timeflip().spec_reflect() == s.spec_reflect().spec_timeflip(),
        s.spec_timeflip().spec_distance() == s.spec_distance(),
        s.spec_reflect().spec_distance() == s.spec_distance(),
{
}

/// Whether no used slot of `s` holds a length that is not a number.
pub open spec fn all_numbers(s: Seq<PathSegmentType>) -> bool {
    forall|i: int|
        0 <= i < s.len() ==> match (#[trigger] s[i]).spec_length() {
            Some(v) => !v.spec_is_nan(),
            None => true,
        }
}

/// Whether no used slot of `segments` holds a length that is not a number.
pub fn holds_numbers<const N: usize>(segments: &[PathSegmentType; N]) -> (r: bool)
    ensures
        r == all_numbers(segments@),
{
    let mut i: usize = 0;
    while i < N
        invariant
            i <= N,
            forall|j: int|
                0 <= j < i ==> match (#[trigger] segments@[j]).spec_length() {
                    Some(v) => !v.spec_is_nan(),
                    None => true,
                },
        decreases N - i,
    {
        match segments[i].length() {
            Some(v) => {
                if v.is_nan() {
                    return false;
                }
            },
            None => {},
        }
        i += 1;
    }
    true
}

/// Whether a candidate of distance `a` is preferred to one of distance `b`:
/// a number to what is not a number, and of two numbers the smaller.
pub open spec fn spec_better(a: Scalar, b: Scalar) -> bool {
    !a.spec_is_nan() && (b.spec_is_nan() || a.rank() < b.rank())
}

/// Whether candidate `i` is the one to select among the first `n`: it is
/// there, it is preferred to every candidate before it, and no candidate
/// after it is preferred to it. Of several equally short candidates this
/// holds of the first alone.
pub open spec fn is_shortest_among(d: Seq<Option<Scalar>>, n: int, i: int) -> bool {
    &&& 0 <= i < n <= d.len()
    &&& d[i] is Some
    &&& forall|j: int| 0 <= j < i && d[j] is Some ==> spec_better(d[i].unwrap(), #[trigger] d[j].unwrap())
    &&& forall|j: int| i < j < n && d[j] is Some ==> !spec_better(#[trigger] d[j].unwrap(), d[i].unwrap())
}

/// Whether candidate `i` is the one to select among all of `d`.
pub open spec fn is_shortest(d: Seq<Option<Scalar>>, i: int) -> bool {
    is_shortest_among(d, d.len() as int, i)
}

/// The place of the candidate to select, if there is one.
pub open spec fn spec_shortest(d: Seq<Option<Scalar>>) -> Option<int> {
    if exists|i: int| is_shortest(d, i) {
        Some(choose|i: int| is_shortest(d, i))
    } else {
        None
    }
}

/// Whether a candidate of distance `a` is preferred to one of distance `b`.
#[verifier::when_used_as_spec(spec_better)]
pub fn better(a: Scalar, b: Scalar) -> (r: bool)
    ensures
        r == spec_better(a, b),
{
    !a.is_nan() && (b.is_nan() || a.lt(b))
}

/// The candidate to select, by its place in `distances`: the first of those
/// of least distance, where an absent candidate is passed over and a distance
/// that is not a number counts as greater than every number. `None` when
/// every candidate is absent.
pub fn shortest(distances: &[Option<Scalar>]) -> (r: Option<usize>)
    ensures
        r is None <==> (forall|j: int| 0 <= j < distances@.len() ==> distances@[j] is None),
        r is Some ==> is_shortest(distances@, r.unwrap() as int),
        match r {
            Some(i) => spec_shortest(distances@) == Some(i as int),
            None => spec_shortest(distances@) is None,
        },
{
    let mut best: Option<(usize, Scalar)> = None;
    let mut i: usize = 0;
    while i < distances.len()
        invariant
            i <= distances@.len(),
            best is None <==> (forall|j: int| 0 <= j < i ==> distances@[j] is None),
            best is Some ==> is_shortest_among(distances@, i as int, best.unwrap().0 as int),
            best is Some ==> distances@[best.unwrap().0 as int] == Some(best.unwrap().1),
        decreases distances@.len() - i,
    {
        match distances[i] {
            Some(d) => {
                match best {
                    Some((_, least)) => {
                        if better(d, least) {
                            best = Some((i, d));
                        }
                    },
                    None => {
                        best = Some((i, d));
                    },
                }
            },
            None => {},
        }
        i += 1;
    }
    match best {
        Some((at, _)) => {
            proof {
                let chosen = choose|k: int| is_shortest(distances@, k);
                lemma_shortest_unique(distances@, at as int, chosen);
            }
            Some(at)
        },
        None => None,
    }
}

/// At most one candidate is the one to select.
pub proof fn lemma_shortest_unique(d: Seq<Option<Scalar>>, i: int, j: int)
    requires
        is_shortest(d, i),
        is_shortest(d, j),
    ensures
        i == j,
{
    if i < j {
        assert(spec_better(d[j].unwrap(), d[i].unwrap()));
    } else if j < i {
        assert(spec_better(d[i].unwrap(), d[j].unwrap()));
    }
}

/// Among the first `n` candidates, of which one is there, one is the one to
/// select.
proof fn lemma_prefix_has_shortest(d: Seq<Option<Scalar>>, n: int) -> (i: int)
    requires
        0 <= n <= d.len(),
        exists|j: int| 0 <= j < n && d[j] is Some,
    ensures
        is_shortest_among(d, n, i),
    decreases n,
{
    if exists|j: int| 0 <= j < n - 1 && d[j] is Some {
        let b = lemma_prefix_has_shortest(d, n - 1);
        if d[n - 1] is Some && spec_better(d[n - 1].unwrap(), d[b].unwrap()) {
            assert forall|j: int| 0 <= j < n - 1 && d[j] is Some implies spec_better(
                d[n - 1].unwrap(),
                #[trigger] d[j].unwrap(),
            ) by {
                if j < b {
                    assert(spec_better(d[b].unwrap(), d[j].unwrap()));
                } else if j > b {
                    assert(!spec_better(d[j].unwrap(), d[b].unwrap()));
                }
            }
            n - 1
        } else {
            b
        }
    } else {
        let j = choose|j: int| 0 <= j < n && d[j] is Some;
        assert(j == n - 1);
        n - 1
    }
}

/// Where a candidate is there, one is selected.
pub proof fn lemma_shortest_exists(d: Seq<Option<Scalar>>, j: int)
    requires
        0 <= j < d.len(),
        d[j] is Some,
    ensures
        spec_shortest(d) is Some,
        is_shortest(d, spec_shortest(d).unwrap()),
{
    let i = lemma_prefix_has_shortest(d, d.len() as int);
    assert(is_shortest(d, i));
}

/// The selected candidate is a shortest one: no candidate is preferred to
/// it. So where its distance is a number, no candidate's distance is a
/// smaller number; and where it is not, no candidate's distance is a number.
pub proof fn lemma_none_better_than_shortest(d: Seq<Option<Scalar>>, j: int)
    requires
        0 <= j < d.len(),
        d[j] is Some,
    ensures
        spec_shortest(d) is Some,
        !spec_better(d[j].unwrap(), d[spec_shortest(d).unwrap()].unwrap()),
        !d[j].unwrap().spec_lt(d[spec_shortest(d).unwrap()].unwrap()),
        d[spec_shortest(d).unwrap()].unwrap().spec_is_nan() ==> d[j].unwrap().spec_is_nan(),
{
    lemma_shortest_exists(d, j);
    let i = spec_shortest(d).unwrap();
    if j < i {
        assert(spec_better(d[i].unwrap(), d[j].unwrap()));
    } else if i < j {
        assert(!spec_better(d[j].unwrap(), d[i].unwrap()));
    }
}

} // verus!
