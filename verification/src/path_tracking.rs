//! Tracking: steering a vehicle along a path that was planned before.
pub mod pure_pursuit;
