//! The dispatch over the workout kinds: the first word of the notation is
//! read as an as-many-rounds header, an interval header, the weightlifting
//! keyword, or a timed-rounds header.

use vstd::prelude::*;
use crate::text::{chars_of, contains_seq, contains_sub, span_starts_with, starts_with, str_eq};
use crate::workout_types::amrap::{AMRAP, amrap_ok, amrap_minutes};
use crate::workout_types::emom::{EMOM, emom_ok, emom_parse};
use crate::workout_types::for_time::{ForTime, for_time_ok, for_time_rounds, for_time_name};
use vstd::string::StringExecFns;

verus! {

/// Whether the first word of a notation names a workout kind, following
/// the dispatch order of the grammar.
pub open spec fn workout_type_ok(s: Seq<char>) -> bool {
    if starts_with(s, "amrap"@) {
        amrap_ok(s)
    } else if starts_with(s, "emom"@) {
        emom_ok(s)
    } else if s == "wl"@ {
        true
    } else if s == "ft"@ || contains_seq(s, "rd"@) {
        for_time_ok(s)
    } else {
        false
    }
}

/// What kind a well-formed first word parses to.
pub open spec fn workout_type_matches(s: Seq<char>, wt: WorkoutType) -> bool {
    if starts_with(s, "amrap"@) {
        wt matches WorkoutType::AMRAP(a) && a.minutes as nat == amrap_minutes(s)
    } else if starts_with(s, "emom"@) {
        wt matches WorkoutType::EMOM(e) && {
            &&& e.rounds as nat == emom_parse(s).rounds
            &&& e.every.duration as nat == emom_parse(s).every_dur
            &&& e.every.unit@ == emom_parse(s).every_unit
            &&& e.every.rest == emom_parse(s).every_rest
            &&& e.alternating == emom_parse(s).alt
            &&& e.rest.duration as nat == emom_parse(s).rest_dur
            &&& e.rest.unit@ == emom_parse(s).rest_unit
            &&& e.rest.rest == emom_parse(s).rest_rest
        }
    } else if s == "wl"@ {
        wt matches WorkoutType::Weightlifting
    } else {
        wt matches WorkoutType::ForTime(ft) && ft.rounds as nat == for_time_rounds(s) && ft.name@
            == for_time_name(s)
    }
}

/// A workout kind: timed rounds, as many rounds as possible, intervals, or
/// weightlifting.
#[derive(Debug, PartialEq, Eq, Clone)]
pub enum WorkoutType {
    /// A workout completed as fast as possible, over one or more rounds.
    ForTime(ForTime),
    /// As many rounds as possible within a time cap.
    AMRAP(AMRAP),
    /// Work performed at fixed intervals.
    EMOM(EMOM),
    /// A weightlifting session.
    Weightlifting,
}

impl WorkoutType {
    /// The rendered header text of the kind.
    pub open spec fn text(&self) -> Seq<char> {
        match self {
            WorkoutType::ForTime(ft) => ft.text(),
            WorkoutType::AMRAP(a) => a.text(),
            WorkoutType::EMOM(e) => e.text(),
            WorkoutType::Weightlifting => "Weightlifting"@,
        }
    }

    /// Parses the first word of a notation into its workout kind.
    pub fn from_str(w: &str) -> (r: Result<WorkoutType, String>)
        ensures
            match r {
                Ok(wt) => workout_type_ok(w@) && workout_type_matches(w@, wt),
                Err(_) => !workout_type_ok(w@),
            },
    {
        let v = chars_of(w);
        let n = v.len();
        proof {
            assert(v@.subrange(0, n as int) =~= w@);
        }
        if span_starts_with(&v, 0, n, "amrap") {
            return match AMRAP::from_str(w) {
                Ok(a) => Ok(WorkoutType::AMRAP(a)),
                Err(e) => Err(e),
            };
        }
        if span_starts_with(&v, 0, n, "emom") {
            return match EMOM::from_str(w) {
                Ok(e) => Ok(WorkoutType::EMOM(e)),
                Err(e) => Err(e),
            };
        }
        if str_eq(w, "wl") {
            return Ok(WorkoutType::Weightlifting);
        }
        if str_eq(w, "ft") || contains_sub(&v, 0, n, "rd") {
            return match ForTime::from_str(w) {
                Ok(ft) => Ok(WorkoutType::ForTime(ft)),
                Err(e) => Err(e),
            };
        }
        let mut msg = String::from_str("Invalid workout type: ");
        msg.append(w);
        Err(msg)
    }

    /// Renders the kind's header back to text.
    pub fn render(&self) -> (r: String)
        ensures
            r@ == self.text(),
    {
        match self {
            WorkoutType::ForTime(ft) => ft.render(),
            WorkoutType::AMRAP(a) => a.render(),
            WorkoutType::EMOM(e) => e.render(),
            WorkoutType::Weightlifting => String::from_str("Weightlifting"),
        }
    }
}


/// The mathematical content of a workout kind.
pub ghost enum WorkoutTypeV {
    ForTime(crate::workout_types::for_time::ForTimeV),
    AMRAP(crate::workout_types::amrap::AMRAPV),
    EMOM(crate::workout_types::emom::EMOMV),
    Weightlifting,
}

impl View for WorkoutType {
    type V = WorkoutTypeV;

    open spec fn view(&self) -> WorkoutTypeV {
        match self {
            WorkoutType::ForTime(ft) => WorkoutTypeV::ForTime(ft@),
            WorkoutType::AMRAP(a) => WorkoutTypeV::AMRAP(a@),
            WorkoutType::EMOM(e) => WorkoutTypeV::EMOM(e@),
            WorkoutType::Weightlifting => WorkoutTypeV::Weightlifting,
        }
    }
}

/// The workout kind a well-formed first word parses to.
pub open spec fn workout_type_v(s: Seq<char>) -> WorkoutTypeV {
    if starts_with(s, "amrap"@) {
        WorkoutTypeV::AMRAP(crate::workout_types::amrap::AMRAPV { minutes: amrap_minutes(s) })
    } else if starts_with(s, "emom"@) {
        WorkoutTypeV::EMOM(crate::workout_types::emom::emom_v(s))
    } else if s == "wl"@ {
        WorkoutTypeV::Weightlifting
    } else {
        WorkoutTypeV::ForTime(crate::workout_types::for_time::ForTimeV {
            rounds: for_time_rounds(s),
            name: for_time_name(s),
        })
    }
}

/// For a well-formed first word, the parsed kind's content is exactly what
/// the dispatch names.
pub proof fn lemma_workout_type_view(s: Seq<char>, wt: WorkoutType)
    requires
        workout_type_matches(s, wt),
    ensures
        wt@ == workout_type_v(s),
{
}

} // verus!
