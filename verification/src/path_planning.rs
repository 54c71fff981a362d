//! Planning: curved paths between two poses, and trajectories in time.
pub mod curved_paths;
pub mod quintic_polynomial;
