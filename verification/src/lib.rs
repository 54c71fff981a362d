//! Decisions of curvature-bounded path planning and of path tracking.
//!
//! A planner of this kind does two things in turn. It computes: sines, square
//! roots, sums of lengths. And it decides on what it has computed: whether a
//! family of curves has a solution, which of the candidates is the shortest
//! and which of two equally short ones is taken, where along a path a pose is
//! sampled, which duration a search tries next and when it gives up, which
//! error is due. This library is the second half. Every decision is a
//! function from quantities to a result, with a contract that says which
//! result comes on which quantities, and a proof that it does.
//!
//! Quantities are carried by their binary code, see [`scalar::Scalar`], on
//! which comparing and negating are exact. The caller does the arithmetic
//! that rounds and hands the library the results. Where computing and
//! deciding alternate, as in a loop over arc lengths, the library keeps the
//! state of the loop and asks for one result at a time.
//!
//! - [`path_planning::curved_paths`]: paths of turns and straight runs, the
//!   forward-only solver, the forward-and-backward solver and the sampler.
//! - [`path_planning::quintic_polynomial`]: trajectories in time and the
//!   search for their duration.
//! - [`path_tracking::pure_pursuit`]: the steering decision of a control
//!   tick.
//! - [`algorithms`]: the forward-only solver by family, which collects its
//!   samples in a small vector.
pub mod algorithms;
pub mod path_planning;
pub mod path_tracking;
pub mod prelude;
pub mod scalar;
