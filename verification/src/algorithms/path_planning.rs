//! Forward-only shortest paths, by family.
pub mod dubins;
