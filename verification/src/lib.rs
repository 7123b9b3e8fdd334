//! A compiler for a compact workout notation: a lexer splits the notation
//! into typed tokens, leaf parsers validate and normalize each token's
//! payload, and an assembler and renderer turn the token sequence into a
//! structured workout and back into formatted markdown prose.

pub mod text;
pub mod gender;
pub mod edit;
pub mod movement;
pub mod rep_types;
pub mod rm;
pub mod weight;
pub mod workout_types;
pub mod lexer;
pub mod workout;
pub mod listing;
pub mod scratchd;

pub use crate::listing::{get_languages, run_create_list_movements};
pub use crate::movement::{Movement, MovementParseError};
pub use crate::rep_types::{
    cals::Cals, distance::Distance, rep_type::RepType, reps::Reps, rest_period::RestPeriod,
    time::Time,
};
pub use crate::rm::RM;
pub use crate::weight::Weight;
pub use crate::workout::{create_workout, Workout};
pub use crate::workout_types::{
    amrap::AMRAP, emom::EMOM, every::Every, for_time::ForTime, rest::Rest,
    workout_type::WorkoutType,
};
