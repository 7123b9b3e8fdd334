//! The leaf value parsers for the measures of a workout: repetitions,
//! calories, distance, elapsed time, rest periods, and their dispatch.

pub mod cals;
pub mod distance;
pub mod rep_type;
pub mod reps;
pub mod rest_period;
pub mod time;

pub use crate::gender::split_gender_unit;
