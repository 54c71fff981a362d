//! The planners in their first form: a path is a family and three lengths.
pub mod path_planning;
