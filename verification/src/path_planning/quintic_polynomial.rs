//! Trajectories in time: a polynomial of degree five per axis, fixed by
//! position, velocity and acceleration at both ends, and the search for the
//! shortest duration whose trajectory a validator accepts.
use crate::prelude::Vec2;
use crate::scalar::Scalar;
use vstd::prelude::*;

verus! {

#[derive(Debug, Copy, Clone, PartialEq, Eq, Structural)]
pub enum QuinticError {
    /// The time lies before the start or after the end of the trajectory.
    OutOfRange,
    /// The duration is negative.
    InvalidStartTime,
    /// The time step is not positive, or the longest duration is below the
    /// shortest.
    InvalidTimeStep,
    /// The validator accepted no duration of the search.
    ValidPolynomialNotFound,
}

/// A trajectory from time zero to `max_t`: six coefficients per axis, the
/// constant one first.
#[derive(Debug, Copy, Clone, PartialEq)]
pub struct QuinticPolynomial {
    cx: [Scalar; 6],
    cy: [Scalar; 6],
    max_t: Scalar,
}

impl QuinticPolynomial {
    pub closed spec fn spec_cx(&self) -> [Scalar; 6] {
        self.cx
    }

    pub closed spec fn spec_cy(&self) -> [Scalar; 6] {
        self.cy
    }

    pub closed spec fn spec_max_t(&self) -> Scalar {
        self.max_t
    }

    /// Whether the trajectory is defined at time `t`: from zero to `max_t`,
    /// both included. What is not a number is not refused.
    pub open spec fn spec_in_range(&self, t: Scalar) -> bool {
        !t.spec_lt(Scalar::spec_zero()) && !self.spec_max_t().spec_lt(t)
    }

    /// The trajectory of duration `t1` with the coefficients `cx` along x
    /// and `cy` along y, which the caller has solved for. Fails with
    /// `InvalidStartTime` where, and only where, `t1` is below zero.
    pub fn new(cx: [Scalar; 6], cy: [Scalar; 6], t1: Scalar) -> (r: Result<Self, QuinticError>)
        ensures
            t1.spec_lt(Scalar::spec_zero()) ==> r == Err::<Self, QuinticError>(
                QuinticError::InvalidStartTime,
            ),
            !t1.spec_lt(Scalar::spec_zero()) ==> r is Ok && r.unwrap().spec_cx() == cx
                && r.unwrap().spec_cy() == cy && r.unwrap().spec_max_t() == t1,
    {
        if t1.lt(Scalar::zero()) {
            return Err(QuinticError::InvalidStartTime);
        }
        Ok(Self { cx, cy, max_t: t1 })
    }

    /// The coefficients along x, the constant one first.
    #[verifier::when_used_as_spec(spec_cx)]
    pub fn cx(&self) -> (r: [Scalar; 6])
        ensures
            r == self.spec_cx(),
    {
        self.cx
    }

    /// The coefficients along y, the constant one first.
    #[verifier::when_used_as_spec(spec_cy)]
    pub fn cy(&self) -> (r: [Scalar; 6])
        ensures
            r == self.spec_cy(),
    {
        self.cy
    }

    /// The duration.
    #[must_use]
    #[verifier::when_used_as_spec(spec_max_t)]
    pub fn max_t(&self) -> (r: Scalar)
        ensures
            r == self.spec_max_t(),
    {
        self.max_t
    }

    /// Whether the trajectory is defined at time `t`.
    #[verifier::when_used_as_spec(spec_in_range)]
    pub fn in_range(&self, t: Scalar) -> (r: bool)
        ensures
            r == self.spec_in_range(t),
    {
        !(t.lt(Scalar::zero()) || t.gt(self.max_t))
    }

    /// The position at time `t`, `value` being what the polynomial gives
    /// there. Fails with `OutOfRange` where, and only where, `t` is below
    /// zero or above the duration.
    pub fn evaluate(&self, t: Scalar, value: Vec2) -> (r: Result<Vec2, QuinticError>)
        ensures
            r == if self.spec_in_range(t) {
                Ok::<Vec2, QuinticError>(value)
            } else {
                Err::<Vec2, QuinticError>(QuinticError::OutOfRange)
            },
    {
        if t.lt(Scalar::zero()) || t.gt(self.max_t) {
            return Err(QuinticError::OutOfRange);
        }
        Ok(value)
    }
}

/// The later of two times; `a` where neither is below the other.
pub open spec fn spec_later(a: Scalar, b: Scalar) -> Scalar {
    if a.spec_lt(b) {
        b
    } else {
        a
    }
}

/// Whether a search from `min_time` to `max_time` in steps of `time_step`
/// can be made: the step is above zero and the longest duration not below
/// the shortest.
pub open spec fn spec_searchable(min_time: Scalar, max_time: Scalar, time_step: Scalar) -> bool {
    !time_step.spec_le(Scalar::spec_zero()) && !max_time.spec_lt(min_time)
}

/// What a search is, to its callers.
pub struct SearchView {
    /// The longest duration to try.
    pub max_time: Scalar,
    /// The step from one duration to the next.
    pub time_step: Scalar,
    /// The duration to try next.
    pub t: Scalar,
}

impl SearchView {
    /// The search before its first trial: it starts at the shortest
    /// duration, and at one step where that is later.
    pub open spec fn start(min_time: Scalar, max_time: Scalar, time_step: Scalar) -> SearchView {
        SearchView { max_time, time_step, t: spec_later(min_time, time_step) }
    }

    /// Whether every duration has been tried.
    pub open spec fn exhausted(self) -> bool {
        !self.t.spec_le(self.max_time)
    }

    /// How many codes of durations are left to try, the one to try next
    /// included.
    pub open spec fn left(self) -> int {
        if self.exhausted() {
            0
        } else {
            self.max_time.rank() - self.t.rank() + 1
        }
    }

    /// The duration to try and the step to add to it.
    pub open spec fn pending(self) -> Result<(Scalar, Scalar), QuinticError> {
        if self.exhausted() {
            Err(QuinticError::ValidPolynomialNotFound)
        } else {
            Ok((self.t, self.time_step))
        }
    }

    /// The search after a trial that the validator refused, `next` being
    /// the duration tried plus the step.
    pub open spec fn advance(self, next: Scalar) -> SearchView {
        if self.exhausted() {
            self
        } else {
            SearchView { t: next, ..self }
        }
    }
}

/// A search ends if the sums that it is handed make progress: where the sum
/// is later than the duration tried, or not a number, fewer durations are
/// left to try.
pub proof fn lemma_progress_ends_the_search(v: SearchView, next: Scalar)
    requires
        !v.exhausted(),
        next.spec_is_nan() || v.t.spec_lt(next),
    ensures
        0 <= v.advance(next).left() < v.left(),
{
}

/// The search for the shortest duration that a validator accepts: a scan
/// from the shortest duration up, one step at a time. The validator need not
/// be monotonic, so no duration is passed over.
///
/// The search decides which duration is tried next and when to give up; it
/// never adds two times itself. Its caller asks what is [`Search::pending`],
/// builds the trajectory of that duration and has it validated. If it is
/// accepted, that is the result. If not, the caller adds the step to the
/// duration, rounding as its arithmetic rounds, and hands the sum to
/// [`Search::advance`].
pub struct Search {
    max_time: Scalar,
    time_step: Scalar,
    t: Scalar,
}

impl View for Search {
    type V = SearchView;

    closed spec fn view(&self) -> SearchView {
        SearchView { max_time: self.max_time, time_step: self.time_step, t: self.t }
    }
}

impl Search {
    /// A search from `min_time` to `max_time` in steps of `time_step`,
    /// before its first trial. Fails with `InvalidTimeStep` where, and only
    /// where, `time_step` is zero or below, or `max_time` is below
    /// `min_time`: then there is no search, and nothing to try.
    pub fn new(min_time: Scalar, max_time: Scalar, time_step: Scalar) -> (r: Result<Search, QuinticError>)
        ensures
            time_step.spec_le(Scalar::spec_zero()) || max_time.spec_lt(min_time) ==> r is Err
                && r->Err_0 == QuinticError::InvalidTimeStep,
            spec_searchable(min_time, max_time, time_step) ==> r is Ok && r->Ok_0@
                == SearchView::start(min_time, max_time, time_step),
    {
        if time_step.le(Scalar::zero()) || max_time.lt(min_time) {
            return Err(QuinticError::InvalidTimeStep);
        }
        let t = if min_time.lt(time_step) {
            time_step
        } else {
            min_time
        };
        Ok(Search { max_time, time_step, t })
    }

    /// The duration to try next and the step to add to it, or
    /// `ValidPolynomialNotFound` once the duration would be above the
    /// longest.
    pub fn pending(&self) -> (r: Result<(Scalar, Scalar), QuinticError>)
        ensures
            r == self@.pending(),
    {
        if self.t.le(self.max_time) {
            Ok((self.t, self.time_step))
        } else {
            Err(QuinticError::ValidPolynomialNotFound)
        }
    }

    /// Moves on after a trial that the validator refused, `next` being the
    /// sum of the two times that were pending.
    pub fn advance(&mut self, next: Scalar)
        ensures
            final(self)@ == old(self)@.advance(next),
    {
        if self.t.le(self.max_time) {
            self.t = next;
        }
    }
}

/// What a search by halving is, to its callers.
pub struct BisectionView {
    /// How close the bounds are to come.
    pub time_step: Scalar,
    /// The longest duration known to be refused, or zero.
    pub low: Scalar,
    /// The duration to try next.
    pub high: Scalar,
    /// The shortest duration accepted so far.
    pub valid: Option<Scalar>,
    /// Whether the search is over.
    pub finished: bool,
}

impl BisectionView {
    /// The search before its first trial: it tries the duration one, with
    /// nothing refused below it.
    pub open spec fn start(time_step: Scalar) -> BisectionView {
        BisectionView {
            time_step,
            low: Scalar::spec_zero(),
            high: Scalar::spec_one(),
            valid: None,
            finished: false,
        }
    }

    /// The two bounds: the duration to try is the upper one.
    pub open spec fn pending(self) -> Option<(Scalar, Scalar)> {
        if self.finished {
            None
        } else {
            Some((self.low, self.high))
        }
    }

    /// The search after the trial of the upper bound. `range` is the upper
    /// bound less the lower, `midpoint` half their sum and `doubled` twice
    /// the upper bound. An accepted duration is kept, and the search goes on
    /// halfway down to the lower bound; a refused one becomes the lower
    /// bound, and the search goes on at twice the duration. Either way the
    /// search is over once the bounds were no farther apart than the step.
    pub open spec fn advance(self, accepted: bool, range: Scalar, midpoint: Scalar, doubled: Scalar) -> BisectionView {
        if self.finished {
            self
        } else if accepted {
            if range.spec_le(self.time_step) {
                BisectionView { valid: Some(self.high), finished: true, ..self }
            } else {
                BisectionView { valid: Some(self.high), high: midpoint, ..self }
            }
        } else {
            BisectionView {
                low: self.high,
                high: doubled,
                finished: range.spec_le(self.time_step),
                ..self
            }
        }
    }

    /// The duration found: the last one accepted.
    pub open spec fn outcome(self) -> Result<Scalar, QuinticError> {
        match self.valid {
            Some(t) => Ok(t),
            None => Err(QuinticError::ValidPolynomialNotFound),
        }
    }
}

/// The search for a short duration that a validator accepts, by halving. It
/// is faster than [`Search`] and finds the shortest duration only where the
/// validator accepts every duration above the shortest one that it accepts.
///
/// Its caller asks what is [`Bisection::pending`], builds the trajectory of
/// the upper bound and has it validated, and hands the verdict to
/// [`Bisection::advance`] together with the three numbers that the search
/// may go on with. When nothing is pending, [`Bisection::outcome`] is the
/// result.
pub struct Bisection {
    time_step: Scalar,
    low: Scalar,
    high: Scalar,
    valid: Option<Scalar>,
    finished: bool,
}

impl View for Bisection {
    type V = BisectionView;

    closed spec fn view(&self) -> BisectionView {
        BisectionView {
            time_step: self.time_step,
            low: self.low,
            high: self.high,
            valid: self.valid,
            finished: self.finished,
        }
    }
}

impl Bisection {
    /// A search that ends once its bounds are no farther apart than
    /// `time_step`. Fails with `InvalidTimeStep` where, and only where,
    /// `time_step` is below zero. A step of zero is accepted: the bounds
    /// meet after finitely many halvings.
    pub fn new(time_step: Scalar) -> (r: Result<Bisection, QuinticError>)
        ensures
            time_step.spec_lt(Scalar::spec_zero()) ==> r is Err && r->Err_0
                == QuinticError::InvalidTimeStep,
            !time_step.spec_lt(Scalar::spec_zero()) ==> r is Ok && r->Ok_0@ == BisectionView::start(
                time_step,
            ),
    {
        if time_step.lt(Scalar::zero()) {
            return Err(QuinticError::InvalidTimeStep);
        }
        Ok(
            Bisection {
                time_step,
                low: Scalar::zero(),
                high: Scalar::one(),
                valid: None,
                finished: false,
            },
        )
    }

    /// The lower bound and the upper bound, which is the duration to try
    /// next, or `None` when the search is over.
    pub fn pending(&self) -> (r: Option<(Scalar, Scalar)>)
        ensures
            r == self@.pending(),
    {
        if self.finished {
            None
        } else {
            Some((self.low, self.high))
        }
    }

    /// Moves on after the trial of the upper bound: `accepted` is the
    /// validator's verdict, `range` the upper bound less the lower,
    /// `midpoint` half their sum and `doubled` twice the upper bound.
    pub fn advance(&mut self, accepted: bool, range: Scalar, midpoint: Scalar, doubled: Scalar)
        ensures
            final(self)@ == old(self)@.advance(accepted, range, midpoint, doubled),
    {
        if self.finished {
            return ;
        }
        let close = range.le(self.time_step);
        if accepted {
            self.valid = Some(self.high);
            if close {
                self.finished = true;
                return ;
            }
            self.high = midpoint;
        } else {
            self.low = self.high;
            self.high = doubled;
        }
        if close {
            self.finished = true;
        }
    }

    /// The last duration that the validator accepted, or
    /// `ValidPolynomialNotFound` where it accepted none.
    pub fn outcome(&self) -> (r: Result<Scalar, QuinticError>)
        ensures
            r == self@.outcome(),
    {
        match self.valid {
            Some(t) => Ok(t),
            None => Err(QuinticError::ValidPolynomialNotFound),
        }
    }
}

} // verus!
