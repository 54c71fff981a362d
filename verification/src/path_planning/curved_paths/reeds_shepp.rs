//! Shortest paths for a vehicle that turns no tighter than a given curvature
//! and drives both forwards and backwards.
//!
//! Every optimal path is one of nine words of turns and straight runs, or the
//! image of one under travelling it the other way, mirroring it, or both.
use crate::path_planning::curved_paths::all_numbers;
use crate::path_planning::curved_paths::lemma_none_better_than_shortest;
use crate::path_planning::curved_paths::lemma_segment_symmetries;
use crate::path_planning::curved_paths::lemma_shortest_exists;
use crate::path_planning::curved_paths::spec_better;
use crate::scalar::lemma_neg_involution;
use crate::path_planning::curved_paths::holds_numbers;
use crate::path_planning::curved_paths::sampler::Walk;
use crate::path_planning::curved_paths::sampler::WalkView;
use crate::path_planning::curved_paths::shortest;
use crate::path_planning::curved_paths::spec_shortest;
use crate::path_planning::curved_paths::PathSegmentType;
use crate::prelude::Error;
use crate::prelude::Ray;
use crate::scalar::Scalar;
use vstd::prelude::*;

verus! {

/// Every slot travelled the other way.
pub open spec fn spec_timeflip(s: Seq<PathSegmentType>) -> Seq<PathSegmentType> {
    Seq::new(s.len(), |i: int| s[i].spec_timeflip())
}

/// Every slot mirrored.
pub open spec fn spec_reflect(s: Seq<PathSegmentType>) -> Seq<PathSegmentType> {
    Seq::new(s.len(), |i: int| s[i].spec_reflect())
}

/// The first `n` slots in reverse order, the others in place.
pub open spec fn spec_reverse_prefix(s: Seq<PathSegmentType>, n: int) -> Seq<PathSegmentType> {
    Seq::new(
        s.len(),
        |i: int|
            if i < n {
                s[n - 1 - i]
            } else {
                s[i]
            },
    )
}

/// The path travelled the other way: every length negated.
pub fn timeflip<const N: usize>(segments: [PathSegmentType; N]) -> (r: [PathSegmentType; N])
    ensures
        r@ == spec_timeflip(segments@),
{
    let mut out = segments;
    let mut i: usize = 0;
    while i < N
        invariant
            i <= N,
            forall|j: int| 0 <= j < i ==> out@[j] == segments@[j].spec_timeflip(),
            forall|j: int| i <= j < N ==> out@[j] == segments@[j],
        decreases N - i,
    {
        out[i] = out[i].timeflip();
        i += 1;
    }
    assert(out@ =~= spec_timeflip(segments@));
    out
}

/// The mirror image of the path: every left turn a right turn and the
/// reverse.
pub fn reflect<const N: usize>(segments: [PathSegmentType; N]) -> (r: [PathSegmentType; N])
    ensures
        r@ == spec_reflect(segments@),
{
    let mut out = segments;
    let mut i: usize = 0;
    while i < N
        invariant
            i <= N,
            forall|j: int| 0 <= j < i ==> out@[j] == segments@[j].spec_reflect(),
            forall|j: int| i <= j < N ==> out@[j] == segments@[j],
        decreases N - i,
    {
        out[i] = out[i].reflect();
        i += 1;
    }
    assert(out@ =~= spec_reflect(segments@));
    out
}

/// The path with its first `n` slots in reverse order.
pub fn reverse_prefix<const N: usize>(segments: [PathSegmentType; N], n: usize) -> (r: [PathSegmentType; N])
    requires
        n <= N,
    ensures
        r@ == spec_reverse_prefix(segments@, n as int),
{
    let mut out = segments;
    let mut i: usize = 0;
    while i < n
        invariant
            i <= n <= N,
            forall|j: int| 0 <= j < i ==> out@[j] == segments@[n - 1 - j],
            forall|j: int| i <= j < N ==> out@[j] == segments@[j],
        decreases n - i,
    {
        out[i] = segments[n - 1 - i];
        i += 1;
    }
    assert(out@ =~= spec_reverse_prefix(segments@, n as int));
    out
}

/// The four symmetries of the family of paths. A word solved for the image
/// of the goal under a symmetry, and then carried back by it, is a path to
/// the goal itself.
#[derive(Debug, Copy, Clone, PartialEq, Eq, Structural)]
pub enum Symmetry {
    /// The word as it is.
    Identity,
    /// The word travelled the other way.
    TimeFlip,
    /// The mirror image of the word.
    Reflect,
    /// The mirror image travelled the other way.
    TimeFlipReflect,
}

impl Symmetry {
    /// The four symmetries, in the order in which a solver tries them.
    pub fn all() -> (r: [Symmetry; 4])
        ensures
            r@ == seq![
                Symmetry::Identity,
                Symmetry::TimeFlip,
                Symmetry::Reflect,
                Symmetry::TimeFlipReflect,
            ],
    {
        let r = [Symmetry::Identity, Symmetry::TimeFlip, Symmetry::Reflect, Symmetry::TimeFlipReflect];
        assert(r@ =~= seq![
            Symmetry::Identity,
            Symmetry::TimeFlip,
            Symmetry::Reflect,
            Symmetry::TimeFlipReflect,
        ]);
        r
    }

    pub open spec fn spec_input(self, x: Scalar, y: Scalar, phi: Scalar) -> (Scalar, Scalar, Scalar) {
        match self {
            Symmetry::Identity => (x, y, phi),
            Symmetry::TimeFlip => (x.spec_neg(), y, phi.spec_neg()),
            Symmetry::Reflect => (x, y.spec_neg(), phi.spec_neg()),
            Symmetry::TimeFlipReflect => (x.spec_neg(), y.spec_neg(), phi),
        }
    }

    pub open spec fn spec_image(self, s: Seq<PathSegmentType>, reversed_index: int) -> Seq<
        PathSegmentType,
    > {
        let v = spec_reverse_prefix(s, reversed_index);
        match self {
            Symmetry::Identity => v,
            Symmetry::TimeFlip => spec_timeflip(v),
            Symmetry::Reflect => spec_reflect(v),
            Symmetry::TimeFlipReflect => spec_reflect(spec_timeflip(v)),
        }
    }

    /// The goal `(x, y, phi)` as the word has to be solved for it under this
    /// symmetry: seen from behind, mirrored, or both.
    #[verifier::when_used_as_spec(spec_input)]
    pub fn input(self, x: Scalar, y: Scalar, phi: Scalar) -> (r: (Scalar, Scalar, Scalar))
        ensures
            r == self.spec_input(x, y, phi),
    {
        match self {
            Symmetry::Identity => (x, y, phi),
            Symmetry::TimeFlip => (x.neg(), y, phi.neg()),
            Symmetry::Reflect => (x, y.neg(), phi.neg()),
            Symmetry::TimeFlipReflect => (x.neg(), y.neg(), phi),
        }
    }

    /// What a word gave for [`Symmetry::input`], carried back to the goal:
    /// its first `reversed_index` slots in reverse order, and then every slot
    /// travelled the other way, mirrored, or both.
    pub fn image(self, segments: [PathSegmentType; 5], reversed_index: usize) -> (r: [PathSegmentType; 5])
        requires
            reversed_index <= 5,
        ensures
            r@ == self.spec_image(segments@, reversed_index as int),
    {
        let v = reverse_prefix(segments, reversed_index);
        match self {
            Symmetry::Identity => v,
            Symmetry::TimeFlip => timeflip(v),
            Symmetry::Reflect => reflect(v),
            Symmetry::TimeFlipReflect => reflect(timeflip(v)),
        }
    }
}

/// Travelling a path the other way twice, or mirroring it twice, gives the
/// path back, and the two commute.
pub proof fn lemma_symmetries_are_involutions(s: Seq<PathSegmentType>)
    ensures
        spec_timeflip(spec_timeflip(s)) == s,
        spec_reflect(spec_reflect(s)) == s,
        spec_timeflip(spec_reflect(s)) == spec_reflect(spec_timeflip(s)),
{
    assert forall|i: int| 0 <= i < s.len() implies spec_timeflip(spec_timeflip(s))[i] == s[i]
        && spec_reflect(spec_reflect(s))[i] == s[i] && spec_timeflip(spec_reflect(s))[i]
        == spec_reflect(spec_timeflip(s))[i] by {
        lemma_segment_symmetries(s[i]);
    }
    assert(spec_timeflip(spec_timeflip(s)) =~= s);
    assert(spec_reflect(spec_reflect(s)) =~= s);
    assert(spec_timeflip(spec_reflect(s)) =~= spec_reflect(spec_timeflip(s)));
}

/// Reversing the same leading slots twice gives the path back.
pub proof fn lemma_reverse_prefix_is_involution(s: Seq<PathSegmentType>, n: int)
    requires
        0 <= n <= s.len(),
    ensures
        spec_reverse_prefix(spec_reverse_prefix(s, n), n) == s,
{
    assert(spec_reverse_prefix(spec_reverse_prefix(s, n), n) =~= s);
}

/// A symmetry changes no distance: slot by slot, the image of a solution
/// travels as far as the solution with its leading slots reversed, and that
/// holds the slots of the solution in another order.
pub proof fn lemma_symmetry_keeps_distances(
    symmetry: Symmetry,
    s: Seq<PathSegmentType>,
    reversed_index: int,
    i: int,
)
    requires
        0 <= reversed_index <= s.len(),
        0 <= i < s.len(),
    ensures
        symmetry.spec_image(s, reversed_index).len() == s.len(),
        symmetry.spec_image(s, reversed_index)[i].spec_distance() == spec_reverse_prefix(
            s,
            reversed_index,
        )[i].spec_distance(),
        spec_reverse_prefix(s, reversed_index)[i] == if i < reversed_index {
            s[reversed_index - 1 - i]
        } else {
            s[i]
        },
{
    let v = spec_reverse_prefix(s, reversed_index);
    lemma_segment_symmetries(v[i]);
    lemma_segment_symmetries(v[i].spec_timeflip());
}

/// A symmetry applied twice to a goal gives the goal back.
pub proof fn lemma_symmetry_input_is_involution(symmetry: Symmetry, x: Scalar, y: Scalar, phi: Scalar)
    ensures
        ({
            let (x1, y1, phi1) = symmetry.spec_input(x, y, phi);
            symmetry.spec_input(x1, y1, phi1) == (x, y, phi)
        }),
{
    lemma_neg_involution(x);
    lemma_neg_involution(y);
    lemma_neg_involution(phi);
}

/// The nine words from which every optimal path derives. In the notation
/// `C` for a turn, `S` for a straight run and `|` for a change of gear:
/// `CSC` with both turns the same way (one) and opposite ways (two), `C|C|C`
/// (three), `C|CC` (four), `CC|CC` (five), `C|CC|C` (six), `C|CSC` ending
/// the way it began (seven) and the other way (eight), and `C|CSC|C` (nine).
#[derive(Debug, Copy, Clone, PartialEq, Eq, Structural)]
pub enum Word {
    One,
    Two,
    Three,
    Four,
    Five,
    Six,
    Seven,
    Eight,
    Nine,
}

/// One use of a word by the solver.
#[derive(Debug, Copy, Clone, PartialEq, Eq, Structural)]
pub struct WordUse {
    pub word: Word,
    /// Whether the word is solved for the goal as seen when the path is
    /// travelled from its end, which gives the word read backwards.
    pub backward: bool,
    /// How many leading slots of the solution are then put in reverse order.
    pub reversed_index: usize,
}

pub open spec fn spec_words() -> Seq<WordUse> {
    seq![
        WordUse { word: Word::One, backward: false, reversed_index: 0 },
        WordUse { word: Word::Two, backward: false, reversed_index: 0 },
        WordUse { word: Word::Three, backward: false, reversed_index: 0 },
        WordUse { word: Word::Four, backward: false, reversed_index: 0 },
        WordUse { word: Word::Four, backward: true, reversed_index: 3 },
        WordUse { word: Word::Five, backward: false, reversed_index: 0 },
        WordUse { word: Word::Six, backward: false, reversed_index: 0 },
        WordUse { word: Word::Seven, backward: false, reversed_index: 0 },
        WordUse { word: Word::Seven, backward: true, reversed_index: 4 },
        WordUse { word: Word::Eight, backward: false, reversed_index: 0 },
        WordUse { word: Word::Eight, backward: true, reversed_index: 4 },
        WordUse { word: Word::Nine, backward: false, reversed_index: 0 },
    ]
}

/// The twelve uses of the nine words, in the order in which the solver
/// compares their solutions: each word forwards, and words four, seven and
/// eight backwards as well, right after their forward use.
pub fn words() -> (r: [WordUse; 12])
    ensures
        r@ == spec_words(),
        forall|i: int| 0 <= i < 12 ==> (#[trigger] r@[i]).reversed_index <= 5,
{
    let r = [
        WordUse { word: Word::One, backward: false, reversed_index: 0 },
        WordUse { word: Word::Two, backward: false, reversed_index: 0 },
        WordUse { word: Word::Three, backward: false, reversed_index: 0 },
        WordUse { word: Word::Four, backward: false, reversed_index: 0 },
        WordUse { word: Word::Four, backward: true, reversed_index: 3 },
        WordUse { word: Word::Five, backward: false, reversed_index: 0 },
        WordUse { word: Word::Six, backward: false, reversed_index: 0 },
        WordUse { word: Word::Seven, backward: false, reversed_index: 0 },
        WordUse { word: Word::Seven, backward: true, reversed_index: 4 },
        WordUse { word: Word::Eight, backward: false, reversed_index: 0 },
        WordUse { word: Word::Eight, backward: true, reversed_index: 4 },
        WordUse { word: Word::Nine, backward: false, reversed_index: 0 },
    ];
    assert(r@ =~= spec_words());
    r
}

/// Minus a quarter turn: the middle turn of words seven, eight and nine.
pub open spec fn spec_neg_frac_pi_2() -> Scalar {
    Scalar::spec_frac_pi_2().spec_neg()
}

/// Word one, `L+ S+ L+`. `s1` is the bearing of the goal's turning centre,
/// `s2` its distance, `s3` the rest of the heading change. There is no
/// solution where either turn would be negative.
pub fn word_one(s1: Scalar, s2: Scalar, s3: Scalar) -> (r: Option<[PathSegmentType; 5]>)
    ensures
        r is None <==> (s1.spec_lt(Scalar::spec_zero()) || s3.spec_lt(Scalar::spec_zero())),
        r is Some ==> r.unwrap()@ == seq![
            PathSegmentType::Left(s1),
            PathSegmentType::Straight(s2),
            PathSegmentType::Left(s3),
            PathSegmentType::Nill,
            PathSegmentType::Nill,
        ],
{
    if s1.lt(Scalar::zero()) {
        return None;
    }
    if s3.lt(Scalar::zero()) {
        return None;
    }
    let r = [
        PathSegmentType::Left(s1),
        PathSegmentType::Straight(s2),
        PathSegmentType::Left(s3),
        PathSegmentType::Nill,
        PathSegmentType::Nill,
    ];
    assert(r@ =~= seq![
        PathSegmentType::Left(s1),
        PathSegmentType::Straight(s2),
        PathSegmentType::Left(s3),
        PathSegmentType::Nill,
        PathSegmentType::Nill,
    ]);
    Some(r)
}

/// Word two, `L+ S+ R+`. `u1_sq_minus_4` is the squared distance between the
/// two turning centres less four, the square of the straight run: there is
/// no solution where it is negative. The turns may come out negative.
pub fn word_two(u1_sq_minus_4: Scalar, s1: Scalar, s2: Scalar, s3: Scalar) -> (r: Option<
    [PathSegmentType; 5],
>)
    ensures
        r is None <==> u1_sq_minus_4.spec_lt(Scalar::spec_zero()),
        r is Some ==> r.unwrap()@ == seq![
            PathSegmentType::Left(s1),
            PathSegmentType::Straight(s2),
            PathSegmentType::Right(s3),
            PathSegmentType::Nill,
            PathSegmentType::Nill,
        ],
{
    if u1_sq_minus_4.lt(Scalar::zero()) {
        return None;
    }
    let r = [
        PathSegmentType::Left(s1),
        PathSegmentType::Straight(s2),
        PathSegmentType::Right(s3),
        PathSegmentType::Nill,
        PathSegmentType::Nill,
    ];
    assert(r@ =~= seq![
        PathSegmentType::Left(s1),
        PathSegmentType::Straight(s2),
        PathSegmentType::Right(s3),
        PathSegmentType::Nill,
        PathSegmentType::Nill,
    ]);
    Some(r)
}

/// Word three, `L+ R- L+`. `u1` is the distance between the two turning
/// centres: there is no solution where it is above four.
pub fn word_three(u1: Scalar, s1: Scalar, s2: Scalar, s3: Scalar) -> (r: Option<
    [PathSegmentType; 5],
>)
    ensures
        r is None <==> Scalar::spec_four().spec_lt(u1),
        r is Some ==> r.unwrap()@ == seq![
            PathSegmentType::Left(s1),
            PathSegmentType::Right(s2),
            PathSegmentType::Left(s3),
            PathSegmentType::Nill,
            PathSegmentType::Nill,
        ],
{
    if u1.gt(Scalar::four()) {
        return None;
    }
    let r = [
        PathSegmentType::Left(s1),
        PathSegmentType::Right(s2),
        PathSegmentType::Left(s3),
        PathSegmentType::Nill,
        PathSegmentType::Nill,
    ];
    assert(r@ =~= seq![
        PathSegmentType::Left(s1),
        PathSegmentType::Right(s2),
        PathSegmentType::Left(s3),
        PathSegmentType::Nill,
        PathSegmentType::Nill,
    ]);
    Some(r)
}

/// Word four, `L+ R- L-`: the formula of word three.
pub fn word_four(u1: Scalar, s1: Scalar, s2: Scalar, s3: Scalar) -> (r: Option<
    [PathSegmentType; 5],
>)
    ensures
        r is None <==> Scalar::spec_four().spec_lt(u1),
        r is Some ==> r.unwrap()@ == seq![
            PathSegmentType::Left(s1),
            PathSegmentType::Right(s2),
            PathSegmentType::Left(s3),
            PathSegmentType::Nill,
            PathSegmentType::Nill,
        ],
{
    word_three(u1, s1, s2, s3)
}

/// Word five, `L+ R+ L- R-`. `rho` is the cosine of the two middle turns,
/// `s2` the first of them; the second is its negation. There is no solution
/// where `rho` is above one, the first turn negative or the last positive.
pub fn word_five(rho: Scalar, s1: Scalar, s2: Scalar, s4: Scalar) -> (r: Option<
    [PathSegmentType; 5],
>)
    ensures
        r is None <==> (Scalar::spec_one().spec_lt(rho) || s1.spec_lt(Scalar::spec_zero())
            || Scalar::spec_neg_zero().spec_lt(s4)),
        r is Some ==> r.unwrap()@ == seq![
            PathSegmentType::Left(s1),
            PathSegmentType::Right(s2),
            PathSegmentType::Left(s2.spec_neg()),
            PathSegmentType::Right(s4),
            PathSegmentType::Nill,
        ],
{
    if rho.gt(Scalar::one()) {
        return None;
    }
    let s3 = s2.neg();
    if s1.lt(Scalar::zero()) || s4.gt(Scalar::neg_zero()) {
        return None;
    }
    let r = [
        PathSegmentType::Left(s1),
        PathSegmentType::Right(s2),
        PathSegmentType::Left(s3),
        PathSegmentType::Right(s4),
        PathSegmentType::Nill,
    ];
    assert(r@ =~= seq![
        PathSegmentType::Left(s1),
        PathSegmentType::Right(s2),
        PathSegmentType::Left(s2.spec_neg()),
        PathSegmentType::Right(s4),
        PathSegmentType::Nill,
    ]);
    Some(r)
}

/// Word six, `L+ R- L- R+`. `rho` is the cosine of the two middle turns and
/// `s2` each of them. There is no solution unless `rho` is at least zero and
/// below one, nor where `s2` is above a quarter turn.
pub fn word_six(rho: Scalar, s1: Scalar, s2: Scalar, s4: Scalar) -> (r: Option<
    [PathSegmentType; 5],
>)
    ensures
        r is None <==> (!(Scalar::spec_zero().spec_le(rho) && rho.spec_lt(Scalar::spec_one()))
            || Scalar::spec_frac_pi_2().spec_lt(s2)),
        r is Some ==> r.unwrap()@ == seq![
            PathSegmentType::Left(s1),
            PathSegmentType::Right(s2),
            PathSegmentType::Left(s2),
            PathSegmentType::Right(s4),
            PathSegmentType::Nill,
        ],
{
    if !(Scalar::zero().le(rho) && rho.lt(Scalar::one())) {
        return None;
    }
    if s2.gt(Scalar::frac_pi_2()) {
        return None;
    }
    let r = [
        PathSegmentType::Left(s1),
        PathSegmentType::Right(s2),
        PathSegmentType::Left(s2),
        PathSegmentType::Right(s4),
        PathSegmentType::Nill,
    ];
    assert(r@ =~= seq![
        PathSegmentType::Left(s1),
        PathSegmentType::Right(s2),
        PathSegmentType::Left(s2),
        PathSegmentType::Right(s4),
        PathSegmentType::Nill,
    ]);
    Some(r)
}

/// Word seven, `L+ R- S- L-`, the second turn minus a quarter turn. `rho` is
/// the distance between the two turning centres. There is no solution where
/// `rho` is below two, the first turn negative, or the straight run or the
/// last turn positive.
pub fn word_seven(rho: Scalar, s1: Scalar, s3: Scalar, s4: Scalar) -> (r: Option<
    [PathSegmentType; 5],
>)
    ensures
        r is None <==> (rho.spec_lt(Scalar::spec_two()) || s1.spec_lt(Scalar::spec_zero())
            || Scalar::spec_neg_zero().spec_lt(s3) || Scalar::spec_neg_zero().spec_lt(s4)),
        r is Some ==> r.unwrap()@ == seq![
            PathSegmentType::Left(s1),
            PathSegmentType::Right(spec_neg_frac_pi_2()),
            PathSegmentType::Straight(s3),
            PathSegmentType::Left(s4),
            PathSegmentType::Nill,
        ],
{
    if rho.lt(Scalar::two()) {
        return None;
    }
    let s2 = Scalar::frac_pi_2().neg();
    if s1.lt(Scalar::zero()) || s3.gt(Scalar::neg_zero()) || s4.gt(Scalar::neg_zero()) {
        return None;
    }
    let r = [
        PathSegmentType::Left(s1),
        PathSegmentType::Right(s2),
        PathSegmentType::Straight(s3),
        PathSegmentType::Left(s4),
        PathSegmentType::Nill,
    ];
    assert(r@ =~= seq![
        PathSegmentType::Left(s1),
        PathSegmentType::Right(spec_neg_frac_pi_2()),
        PathSegmentType::Straight(s3),
        PathSegmentType::Left(s4),
        PathSegmentType::Nill,
    ]);
    Some(r)
}

/// Word eight, `L+ R- S- R-`, the second turn minus a quarter turn. `rho` is
/// the distance between the two turning centres: there is no solution where
/// it is below two.
pub fn word_eight(rho: Scalar, s1: Scalar, s3: Scalar, s4: Scalar) -> (r: Option<
    [PathSegmentType; 5],
>)
    ensures
        r is None <==> rho.spec_lt(Scalar::spec_two()),
        r is Some ==> r.unwrap()@ == seq![
            PathSegmentType::Left(s1),
            PathSegmentType::Right(spec_neg_frac_pi_2()),
            PathSegmentType::Straight(s3),
            PathSegmentType::Right(s4),
            PathSegmentType::Nill,
        ],
{
    if rho.lt(Scalar::two()) {
        return None;
    }
    let s2 = Scalar::frac_pi_2().neg();
    let r = [
        PathSegmentType::Left(s1),
        PathSegmentType::Right(s2),
        PathSegmentType::Straight(s3),
        PathSegmentType::Right(s4),
        PathSegmentType::Nill,
    ];
    assert(r@ =~= seq![
        PathSegmentType::Left(s1),
        PathSegmentType::Right(spec_neg_frac_pi_2()),
        PathSegmentType::Straight(s3),
        PathSegmentType::Right(s4),
        PathSegmentType::Nill,
    ]);
    Some(r)
}

/// Word nine, `L+ R- S- L- R+`, both inner turns minus a quarter turn. `rho`
/// is the distance between the two turning centres. There is no solution
/// where `rho` is below two or the straight run positive.
pub fn word_nine(rho: Scalar, s1: Scalar, s3: Scalar, s5: Scalar) -> (r: Option<
    [PathSegmentType; 5],
>)
    ensures
        r is None <==> (rho.spec_lt(Scalar::spec_two()) || Scalar::spec_zero().spec_lt(s3)),
        r is Some ==> r.unwrap()@ == seq![
            PathSegmentType::Left(s1),
            PathSegmentType::Right(spec_neg_frac_pi_2()),
            PathSegmentType::Straight(s3),
            PathSegmentType::Left(spec_neg_frac_pi_2()),
            PathSegmentType::Right(s5),
        ],
{
    if rho.lt(Scalar::two()) {
        return None;
    }
    if s3.gt(Scalar::zero()) {
        return None;
    }
    let quarter = Scalar::frac_pi_2().neg();
    let r = [
        PathSegmentType::Left(s1),
        PathSegmentType::Right(quarter),
        PathSegmentType::Straight(s3),
        PathSegmentType::Left(quarter),
        PathSegmentType::Right(s5),
    ];
    assert(r@ =~= seq![
        PathSegmentType::Left(s1),
        PathSegmentType::Right(spec_neg_frac_pi_2()),
        PathSegmentType::Straight(s3),
        PathSegmentType::Left(spec_neg_frac_pi_2()),
        PathSegmentType::Right(s5),
    ]);
    Some(r)
}

/// A candidate path: five slots, the unused ones last, and the distance
/// travelled along them, by which candidates are compared.
#[derive(Debug, Copy, Clone, PartialEq)]
pub struct ReedsSheppPath {
    distance: Scalar,
    segments: [PathSegmentType; 5],
}

impl ReedsSheppPath {
    pub closed spec fn spec_distance(&self) -> Scalar {
        self.distance
    }

    pub closed spec fn spec_segments(&self) -> [PathSegmentType; 5] {
        self.segments
    }

    /// Whether the distance and every length are numbers.
    pub open spec fn spec_is_defined(&self) -> bool {
        !self.spec_distance().spec_is_nan() && all_numbers(self.spec_segments()@)
    }

    /// What the candidate is compared by: its distance, or what is not a
    /// number as soon as one of its lengths is not.
    pub open spec fn spec_key(&self) -> Scalar {
        if self.spec_is_defined() {
            self.spec_distance()
        } else {
            Scalar::spec_nan()
        }
    }

    /// The candidate of the given slots. `distance` is the sum of the
    /// magnitudes of their lengths, which the caller has added up.
    pub fn new(distance: Scalar, segments: [PathSegmentType; 5]) -> (r: Self)
        ensures
            r.spec_distance() == distance,
            r.spec_segments() == segments,
    {
        Self { distance, segments }
    }

    #[verifier::when_used_as_spec(spec_distance)]
    pub fn distance(&self) -> (r: Scalar)
        ensures
            r == self.spec_distance(),
    {
        self.distance
    }

    #[verifier::when_used_as_spec(spec_segments)]
    pub fn segments(&self) -> (r: [PathSegmentType; 5])
        ensures
            r == self.spec_segments(),
    {
        self.segments
    }

    #[verifier::when_used_as_spec(spec_is_defined)]
    pub fn is_defined(&self) -> (r: bool)
        ensures
            r == self.spec_is_defined(),
    {
        !self.distance.is_nan() && holds_numbers(&self.segments)
    }

    #[verifier::when_used_as_spec(spec_key)]
    pub fn key(&self) -> (r: Scalar)
        ensures
            r == self.spec_key(),
    {
        if self.is_defined() {
            self.distance
        } else {
            Scalar::nan()
        }
    }
}

/// What each candidate is compared by, place by place.
pub open spec fn spec_keys(c: Seq<Option<ReedsSheppPath>>) -> Seq<Option<Scalar>> {
    Seq::new(
        c.len(),
        |i: int|
            match c[i] {
                Some(p) => Some(p.spec_key()),
                None => None,
            },
    )
}

/// The candidate to select: the first of those of least distance. One with a
/// length that is not a number is selected only where every candidate that
/// is there has one.
pub open spec fn spec_select(c: Seq<Option<ReedsSheppPath>>) -> Option<ReedsSheppPath> {
    match spec_shortest(spec_keys(c)) {
        Some(i) => c[i],
        None => None,
    }
}

/// No candidate is preferred to the selected one.
pub proof fn lemma_select_is_least(c: Seq<Option<ReedsSheppPath>>, j: int)
    requires
        0 <= j < c.len(),
        c[j] is Some,
    ensures
        spec_select(c) is Some,
        !spec_better(c[j].unwrap().spec_key(), spec_select(c).unwrap().spec_key()),
{
    let keys = spec_keys(c);
    assert(keys[j] == Some(c[j].unwrap().spec_key()));
    lemma_none_better_than_shortest(keys, j);
    lemma_shortest_exists(keys, j);
    let i = spec_shortest(keys).unwrap();
    assert(keys[i] == Some(c[i].unwrap().spec_key()));
}

/// The solver takes the shortest of all images of all words: where `words`
/// holds what was selected among the images of each word, no image of any
/// word is preferred to what is selected among `words`.
pub proof fn lemma_solver_takes_the_shortest_of_all(
    images: Seq<Seq<Option<ReedsSheppPath>>>,
    words: Seq<Option<ReedsSheppPath>>,
    i: int,
    k: int,
)
    requires
        images.len() == words.len(),
        forall|w: int| 0 <= w < words.len() ==> words[w] == spec_select(#[trigger] images[w]),
        0 <= i < images.len(),
        0 <= k < images[i].len(),
        images[i][k] is Some,
    ensures
        spec_select(words) is Some,
        !spec_better(images[i][k].unwrap().spec_key(), spec_select(words).unwrap().spec_key()),
{
    lemma_select_is_least(images[i], k);
    assert(words[i] == spec_select(images[i]));
    lemma_select_is_least(words, i);
}

fn select<const N: usize>(candidates: &[Option<ReedsSheppPath>; N]) -> (r: Option<ReedsSheppPath>)
    ensures
        r == spec_select(candidates@),
        r is None <==> (forall|j: int| 0 <= j < N ==> candidates@[j] is None),
{
    let mut keys: Vec<Option<Scalar>> = Vec::new();
    let mut i: usize = 0;
    while i < N
        invariant
            i <= N,
            keys@.len() == i,
            forall|j: int| 0 <= j < i ==> keys@[j] == spec_keys(candidates@)[j],
        decreases N - i,
    {
        let key = match &candidates[i] {
            Some(p) => Some(p.key()),
            None => None,
        };
        keys.push(key);
        i += 1;
    }
    assert(keys@ =~= spec_keys(candidates@));
    match shortest(keys.as_slice()) {
        Some(at) => {
            assert(keys@[at as int] is Some);
            candidates[at]
        },
        None => {
            assert forall|j: int| 0 <= j < N implies candidates@[j] is None by {
                assert(keys@[j] is None);
            }
            None
        },
    }
}

/// The shortest of the four images of one word, `candidates` holding them in
/// the order of [`Symmetry::all`], each absent where the word has no solution
/// for that symmetry's input. Of equally short images the first is taken.
pub fn gen_paths(candidates: [Option<ReedsSheppPath>; 4]) -> (r: Option<ReedsSheppPath>)
    ensures
        r == spec_select(candidates@),
        r is None <==> (forall|j: int| 0 <= j < 4 ==> candidates@[j] is None),
{
    select(&candidates)
}

/// A solved path between two poses.
#[derive(Debug, Copy, Clone, PartialEq)]
pub struct ReedsShepp {
    pub start: Ray,
    pub end: Ray,
    pub path: ReedsSheppPath,
    pub max_curve: Scalar,
}

impl ReedsShepp {
    /// The shortest path from `start` to `end` among `words`, which holds
    /// what [`gen_paths`] selected for each of the twelve words, in the order
    /// of [`words`]. Of equally short paths the first is taken.
    ///
    /// Fails with `PathNotFound` where no word has a solution, and with
    /// `NaNInCalculation` where every solution holds a length that is not a
    /// number.
    pub fn new(start: Ray, end: Ray, max_curve: Scalar, words: [Option<ReedsSheppPath>; 12]) -> (r:
        Result<Self, Error>)
        ensures
            match spec_select(words@) {
                None => r == Err::<Self, Error>(Error::PathNotFound),
                Some(path) => if path.spec_is_defined() {
                    r == Ok::<Self, Error>(ReedsShepp { start, end, path, max_curve })
                } else {
                    r == Err::<Self, Error>(Error::NaNInCalculation)
                },
            },
    {
        match select(&words) {
            None => Err(Error::PathNotFound),
            Some(path) => {
                if path.is_defined() {
                    Ok(Self { start, end, path, max_curve })
                } else {
                    Err(Error::NaNInCalculation)
                }
            },
        }
    }

    /// The walk along the path in steps of `step_size`, before its first
    /// sample. Its samples lay out the poses as seen from `start`, lengths
    /// in units of the turning radius, which is one over `max_curve`.
    #[must_use]
    pub fn get_points(&self, step_size: Scalar) -> (w: Walk)
        ensures
            w@ == WalkView::start(self.path.spec_segments()@, step_size),
            w@.wf(),
    {
        let segments = self.path.segments();
        Walk::new(segments.as_slice(), step_size)
    }
}

} // verus!
