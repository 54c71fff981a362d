//! What every part of the library shares: the solvers' error, points, poses
//! and the three-way comparison of two quantities.
use crate::scalar::Scalar;
use core::cmp::Ordering;
use vstd::prelude::*;

verus! {

/// Why a curved-path solver produced no path.
#[derive(Debug, Copy, Clone, PartialEq, Eq, Structural)]
pub enum Error {
    /// No curve family admits a solution for the two poses and the curvature.
    PathNotFound,
    /// Every solution that a family admitted holds a length that is not a number.
    NaNInCalculation,
}

/// A point or a displacement in the plane.
#[derive(Debug, Copy, Clone, PartialEq, Eq, Structural)]
pub struct Vec2 {
    pub x: Scalar,
    pub y: Scalar,
}

impl Vec2 {
    pub fn new(x: Scalar, y: Scalar) -> (r: Vec2)
        ensures
            r == (Vec2 { x, y }),
    {
        Vec2 { x, y }
    }

    pub open spec fn spec_zero() -> Vec2 {
        Vec2 { x: Scalar::spec_zero(), y: Scalar::spec_zero() }
    }

    /// The origin.
    #[verifier::when_used_as_spec(spec_zero)]
    pub fn zero() -> (r: Vec2)
        ensures
            r == Vec2::spec_zero(),
    {
        Vec2 { x: Scalar::zero(), y: Scalar::zero() }
    }
}

/// An oriented pose: a position and a heading in radians. The heading has no
/// canonical range.
#[derive(Debug, Copy, Clone, PartialEq, Eq, Structural)]
#[must_use]
pub struct Ray {
    pub pos: Vec2,
    pub angle: Scalar,
}

impl Ray {
    pub fn new(pos: Vec2, angle: Scalar) -> (r: Ray)
        ensures
            r == (Ray { pos, angle }),
    {
        Ray { pos, angle }
    }

    pub open spec fn spec_zero() -> Ray {
        Ray { pos: Vec2::spec_zero(), angle: Scalar::spec_zero() }
    }

    /// The pose at the origin that heads along the x axis.
    #[verifier::when_used_as_spec(spec_zero)]
    pub fn zero() -> (r: Ray)
        ensures
            r == Ray::spec_zero(),
    {
        Ray { pos: Vec2::zero(), angle: Scalar::zero() }
    }
}

/// How `a` stands to `b`: `Less` where `a < b`, `Equal` where `a == b`, and
/// `Greater` otherwise, so also where either is not a number.
pub fn float_cmp(a: Scalar, b: Scalar) -> (r: Ordering)
    ensures
        (r == Ordering::Less) == a.spec_lt(b),
        (r == Ordering::Equal) == a.spec_same(b),
        (r == Ordering::Greater) == (!a.spec_lt(b) && !a.spec_same(b)),
{
    if a.lt(b) {
        Ordering::Less
    } else if a.same(b) {
        Ordering::Equal
    } else {
        Ordering::Greater
    }
}

} // verus!
