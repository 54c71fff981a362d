//! Pure pursuit: steer along the arc that leads to the point where the path
//! leaves the lookahead circle round the vehicle.
//!
//! One control tick takes three decisions, with the caller's geometry in
//! between. [`target`] picks the piece of the path to aim along, from the
//! squared distances of the path's points to the vehicle. The caller
//! intersects that piece with the lookahead circle, and
//! [`find_path_intersection`] picks the root of the intersection. The caller
//! turns the point of that root into the vehicle's frame, and
//! [`get_curvature`] accepts the curvature or finds the vehicle facing away.
use crate::scalar::Scalar;
use vstd::prelude::*;

verus! {

/// Why a control tick gives no curvature.
#[derive(Debug, Copy, Clone, PartialEq, Eq, Structural)]
pub enum TrackingError {
    /// No point of the path lies within the lookahead circle: the path is to
    /// be planned anew.
    RobotTooFar,
    /// The point to steer to lies behind the vehicle.
    WrongOrientation,
    /// The path has fewer than two points.
    InvalidPath,
    /// The intersection with the lookahead circle is not the one that the
    /// choice of the point guarantees: a defect, not an outcome.
    InvalidCodePath,
    /// The squared lookahead distance is not positive.
    InvalidInput,
}

/// Whether point `i` is the last one strictly within the lookahead circle:
/// the farthest along the path that the vehicle can still aim from.
pub open spec fn is_path_point(distances_sq: Seq<Scalar>, l_sq: Scalar, i: int) -> bool {
    &&& 0 <= i < distances_sq.len()
    &&& distances_sq[i].spec_lt(l_sq)
    &&& forall|j: int| i < j < distances_sq.len() ==> !(#[trigger] distances_sq[j]).spec_lt(l_sq)
}

/// Whether no point lies strictly within the lookahead circle.
pub open spec fn none_within(distances_sq: Seq<Scalar>, l_sq: Scalar) -> bool {
    forall|j: int| 0 <= j < distances_sq.len() ==> !(#[trigger] distances_sq[j]).spec_lt(l_sq)
}

/// The point of the path to aim from. `distances_sq` holds, for each point of
/// the path in order, its squared distance to the vehicle, and `l_sq` is the
/// squared lookahead distance.
///
/// A path of fewer than two points is refused with `InvalidPath`. Otherwise
/// the result is the last point strictly within the lookahead circle, or
/// `RobotTooFar` where there is none; so it is `RobotTooFar` for a vehicle
/// farther than the lookahead distance from every point.
pub fn get_path_point(distances_sq: &[Scalar], l_sq: Scalar) -> (r: Result<usize, TrackingError>)
    ensures
        distances_sq@.len() < 2 ==> r == Err::<usize, TrackingError>(TrackingError::InvalidPath),
        distances_sq@.len() >= 2 ==> match r {
            Ok(i) => is_path_point(distances_sq@, l_sq, i as int),
            Err(e) => e == TrackingError::RobotTooFar && none_within(distances_sq@, l_sq),
        },
        distances_sq@.len() >= 2 ==> (r is Ok <==> !none_within(distances_sq@, l_sq)),
        distances_sq@.len() >= 2 && (forall|j: int|
            0 <= j < distances_sq@.len() ==> l_sq.spec_lt(#[trigger] distances_sq@[j])) ==> r == Err::<
            usize,
            TrackingError,
        >(TrackingError::RobotTooFar),
{
    if distances_sq.len() < 2 {
        return Err(TrackingError::InvalidPath);
    }
    let mut closest: Option<usize> = None;
    let mut i: usize = 0;
    while i < distances_sq.len()
        invariant
            i <= distances_sq@.len(),
            match closest {
                Some(c) => c < i && distances_sq@[c as int].spec_lt(l_sq) && forall|j: int|
                    c < j < i ==> !(#[trigger] distances_sq@[j]).spec_lt(l_sq),
                None => forall|j: int| 0 <= j < i ==> !(#[trigger] distances_sq@[j]).spec_lt(l_sq),
            },
        decreases distances_sq@.len() - i,
    {
        if distances_sq[i].lt(l_sq) {
            closest = Some(i);
        }
        i += 1;
    }
    match closest {
        Some(v) => Ok(v),
        None => {
            Err(TrackingError::RobotTooFar)
        },
    }
}

/// The piece of the path to aim along: from point `from` towards point `to`,
/// starting at point `index`.
#[derive(Debug, Copy, Clone, PartialEq, Eq, Structural)]
pub struct Target {
    /// The point to aim from.
    pub index: usize,
    /// The direction to aim in leads from this point ...
    pub from: usize,
    /// ... to this one, the next.
    pub to: usize,
}

/// The piece that starts at point `index` of a path of `len` points: towards
/// the next point, or, from the last point, on in the direction in which the
/// path arrived there.
pub open spec fn spec_target(index: int, len: int) -> Target {
    if index + 1 == len {
        Target { index: index as usize, from: (index - 1) as usize, to: index as usize }
    } else {
        Target { index: index as usize, from: index as usize, to: (index + 1) as usize }
    }
}

/// The first decision of a control tick: the piece of the path to aim along.
/// `distances_sq` holds, for each point of the path in order, its squared
/// distance to the vehicle.
///
/// Fails with `InvalidInput` where `lookahead_sq` is zero or below, then
/// with `InvalidPath` for a path of fewer than two points, then with
/// `RobotTooFar` where no point lies strictly within the lookahead circle, as
/// for a vehicle farther than the lookahead distance from every point.
/// Otherwise the piece starts at the last point within the circle.
pub fn target(distances_sq: &[Scalar], lookahead_sq: Scalar) -> (r: Result<Target, TrackingError>)
    ensures
        lookahead_sq.spec_le(Scalar::spec_zero()) ==> r == Err::<Target, TrackingError>(
            TrackingError::InvalidInput,
        ),
        !lookahead_sq.spec_le(Scalar::spec_zero()) && distances_sq@.len() < 2 ==> r == Err::<
            Target,
            TrackingError,
        >(TrackingError::InvalidPath),
        !lookahead_sq.spec_le(Scalar::spec_zero()) && distances_sq@.len() >= 2 ==> match r {
            Ok(t) => is_path_point(distances_sq@, lookahead_sq, t.index as int) && t == spec_target(
                t.index as int,
                distances_sq@.len() as int,
            ) && t.from + 1 == t.to && t.to < distances_sq@.len(),
            Err(e) => e == TrackingError::RobotTooFar && none_within(distances_sq@, lookahead_sq),
        },
        !lookahead_sq.spec_le(Scalar::spec_zero()) && distances_sq@.len() >= 2 && (forall|j: int|
            0 <= j < distances_sq@.len() ==> lookahead_sq.spec_lt(#[trigger] distances_sq@[j])) ==> r
            == Err::<Target, TrackingError>(TrackingError::RobotTooFar),
{
    if lookahead_sq.le(Scalar::zero()) {
        return Err(TrackingError::InvalidInput);
    }
    match get_path_point(distances_sq, lookahead_sq) {
        Ok(c_i) => {
            let len = distances_sq.len();
            if c_i + 1 == len {
                Ok(Target { index: c_i, from: c_i - 1, to: c_i })
            } else {
                Ok(Target { index: c_i, from: c_i, to: c_i + 1 })
            }
        },
        Err(e) => Err(e),
    }
}

/// The smaller and the greater of the two roots. Where neither is below the
/// other, so also where one is not a number, they stay as they are.
pub open spec fn spec_ordered(t0: Scalar, t1: Scalar) -> (Scalar, Scalar) {
    if t1.spec_lt(t0) {
        (t1, t0)
    } else {
        (t0, t1)
    }
}

/// Whether the intersection is as the choice of the point to aim from
/// guarantees it: the discriminant is not negative, the smaller root is at
/// most zero and the greater root is above zero. It is not where any of the
/// three is not a number.
pub open spec fn spec_leaves_once(disc: Scalar, t0: Scalar, t1: Scalar) -> bool {
    let (near, far) = spec_ordered(t0, t1);
    Scalar::spec_zero().spec_le(disc) && near.spec_le(Scalar::spec_zero()) && Scalar::spec_zero().spec_lt(
        far,
    )
}

/// The root of the intersection to steer to, if the intersection is as it
/// has to be.
pub open spec fn spec_find_path_intersection(disc: Scalar, t0: Scalar, t1: Scalar) -> Result<
    Scalar,
    TrackingError,
> {
    if spec_leaves_once(disc, t0, t1) {
        Ok(spec_ordered(t0, t1).1)
    } else {
        Err(TrackingError::InvalidCodePath)
    }
}

/// The second decision of a control tick: where the ray from the point to
/// aim from, along the direction to aim in, leaves the lookahead circle.
/// `disc` is the discriminant of the quadratic for the ray's parameter at the
/// circle, and `t0`, `t1` are its two roots, in either order.
///
/// The ray starts inside the circle, so it leaves it once: one root is at
/// most zero and the other above zero, and the result is the latter.
/// Anything else is `InvalidCodePath`: a negative discriminant, both roots
/// above zero, neither, or a quantity that is not a number.
pub fn find_path_intersection(disc: Scalar, t0: Scalar, t1: Scalar) -> (r: Result<Scalar, TrackingError>)
    ensures
        r == spec_find_path_intersection(disc, t0, t1),
        r is Ok ==> Scalar::spec_zero().spec_lt(r.unwrap()) && (r.unwrap() == t0 || r.unwrap() == t1),
{
    if !disc.ge(Scalar::zero()) {
        Err(TrackingError::InvalidCodePath)
    } else {
        let mut near = t0;
        let mut far = t1;
        if far.lt(near) {
            near = t1;
            far = t0;
        }
        if !near.le(Scalar::zero()) {
            return Err(TrackingError::InvalidCodePath);
        }
        if !far.gt(Scalar::zero()) {
            return Err(TrackingError::InvalidCodePath);
        }
        Ok(far)
    }
}

/// The last decision of a control tick. `local_goal_x` is the coordinate of
/// the point to steer to along the vehicle's heading, and `curvature` the
/// signed curvature of the arc to it, negative for a turn to the left.
///
/// Fails with `WrongOrientation` where the point lies behind the vehicle,
/// and gives `curvature` otherwise.
pub fn get_curvature(local_goal_x: Scalar, curvature: Scalar) -> (r: Result<Scalar, TrackingError>)
    ensures
        r == if local_goal_x.spec_lt(Scalar::spec_zero()) {
            Err::<Scalar, TrackingError>(TrackingError::WrongOrientation)
        } else {
            Ok::<Scalar, TrackingError>(curvature)
        },
{
    if local_goal_x.lt(Scalar::zero()) {
        return Err(TrackingError::WrongOrientation);
    }
    Ok(curvature)
}

} // verus!
