//! The sub-grammars of the four workout kinds: timed rounds, as many
//! rounds as possible, intervals, and weightlifting.

pub mod amrap;
pub mod emom;
pub mod every;
pub mod for_time;
pub mod rest;
pub mod workout_type;
