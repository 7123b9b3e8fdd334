//! The dispatch over the measure grammars: a captured substring is read as
//! a distance, calories, a time, the max-effort keyword, a rest period, or
//! a plain repetition count.

use vstd::prelude::*;
use crate::gender::{split_ok, split_men_val, split_women_val};
use crate::rep_types::cals::Cals;
use crate::rep_types::distance::{Distance, distance_ok};
use crate::rep_types::reps::Reps;
use crate::rep_types::rest_period::RestPeriod;
use crate::rep_types::time::Time;
use crate::text::{
    chars_of, contains_seq, contains_sub, digits_of, digits_val, ends_with, lower_char,
    non_digits_of, span_ends_with, str_eq,
};

verus! {

/// The string reads as a distance: it ends with `m` or (case-folded) `k`.
pub open spec fn is_distance_text(s: Seq<char>) -> bool {
    s.len() > 0 && (s.last() == 'm' || lower_char(s.last()) == 'k')
}

/// The string reads as calories: it contains the `cal` marker.
pub open spec fn is_cals_text(s: Seq<char>) -> bool {
    contains_seq(s, "cal"@)
}

/// The string reads as a time: it ends with `sec` or `min`.
pub open spec fn is_time_text(s: Seq<char>) -> bool {
    ends_with(s, "sec"@) || ends_with(s, "min"@)
}

/// The string is the max-effort keyword.
pub open spec fn is_max_text(s: Seq<char>) -> bool {
    s == "max"@
}

/// Whether the string parses as a measure, following the dispatch order:
/// distance, calories, time, max effort, repetitions.
pub open spec fn rep_type_ok(s: Seq<char>) -> bool {
    if is_distance_text(s) {
        distance_ok(s)
    } else if is_cals_text(s) {
        split_ok(s)
    } else if is_time_text(s) {
        time_ok_text(s)
    } else if is_max_text(s) {
        true
    } else {
        split_ok(s)
    }
}

/// The time grammar of the dispatch (re-exported to keep one name here).
pub open spec fn time_ok_text(s: Seq<char>) -> bool {
    crate::rep_types::time::time_ok(s)
}

/// What measure a well-formed string parses to.
pub open spec fn rep_type_matches(s: Seq<char>, rt: RepType) -> bool {
    if is_distance_text(s) {
        rt matches RepType::Distance(d) && d.num as nat == digits_val(digits_of(s)) && d.unit@
            == non_digits_of(s)
    } else if is_cals_text(s) {
        rt matches RepType::Cals(c) && c.cals_man as nat == split_men_val(s) && c.cals_woman as nat
            == split_women_val(s)
    } else if is_time_text(s) {
        rt matches RepType::Time(t) && t.num as nat == digits_val(digits_of(s)) && t.unit@
            == non_digits_of(s)
    } else if is_max_text(s) {
        rt matches RepType::Max
    } else {
        rt matches RepType::Reps(x) && x.reps_man as nat == split_men_val(s) && x.reps_woman as nat
            == split_women_val(s)
    }
}

/// A measure of work: what a number in the notation means in context.
#[derive(Debug, PartialEq, Eq, Clone)]
pub enum RepType {
    /// A plain repetition count (`21`, `20/15`).
    Reps(Reps),
    /// A distance (`100m`, `5k`).
    Distance(Distance),
    /// Calories (`10cal`, `100/80cal`).
    Cals(Cals),
    /// A time span (`90sec`, `1min`).
    Time(Time),
    /// A rest period substituted by the lexer (`r1m`).
    RestPeriod(RestPeriod),
    /// Max repetitions of a movement.
    Max,
}

impl RepType {
    /// The rendered text of the measure.
    pub open spec fn text(&self) -> Seq<char> {
        match self {
            RepType::Reps(x) => x.text(),
            RepType::Distance(x) => x.text(),
            RepType::Cals(x) => x.text(),
            RepType::Time(x) => x.text(),
            RepType::RestPeriod(x) => x.text(),
            RepType::Max => "Max reps of"@,
        }
    }

    /// Parses a measure, dispatching on the unit markers of the text.
    pub fn from_str(w: &str) -> (r: Result<RepType, String>)
        ensures
            match r {
                Ok(rt) => rep_type_ok(w@) && rep_type_matches(w@, rt),
                Err(_) => !rep_type_ok(w@),
            },
    {
        let v = chars_of(w);
        let n = v.len();
        let is_distance = if n > 0 {
            let c = v[n - 1];
            let lc: char = if 'A' <= c && c <= 'Z' {
                ((c as u8) + 32) as char
            } else {
                c
            };
            c == 'm' || lc == 'k'
        } else {
            false
        };
        if is_distance {
            return match Distance::from_str(w) {
                Ok(d) => Ok(RepType::Distance(d)),
                Err(e) => Err(e),
            };
        }
        if contains_sub(&v, 0, n, "cal") {
            proof {
                assert(v@.subrange(0, n as int) =~= w@);
            }
            return match Cals::from_str(w) {
                Ok(c) => Ok(RepType::Cals(c)),
                Err(e) => Err(e),
            };
        }
        proof {
            assert(v@.subrange(0, n as int) =~= w@);
        }
        if span_ends_with(&v, 0, n, "sec") || span_ends_with(&v, 0, n, "min") {
            return match Time::from_str(w) {
                Ok(t) => Ok(RepType::Time(t)),
                Err(e) => Err(e),
            };
        }
        if str_eq(w, "max") {
            return Ok(RepType::Max);
        }
        match Reps::from_str(w) {
            Ok(x) => Ok(RepType::Reps(x)),
            Err(e) => Err(e),
        }
    }

    /// Renders the measure back to text.
    pub fn render(&self) -> (r: String)
        ensures
            r@ == self.text(),
    {
        match self {
            RepType::Reps(x) => x.render(),
            RepType::Distance(x) => x.render(),
            RepType::Cals(x) => x.render(),
            RepType::Time(x) => x.render(),
            RepType::RestPeriod(x) => x.render(),
            RepType::Max => String::from_str("Max reps of"),
        }
    }
}


/// The mathematical content of a measure.
pub ghost enum RepTypeV {
    Reps(crate::rep_types::reps::RepsV),
    Distance(crate::rep_types::distance::DistanceV),
    Cals(crate::rep_types::cals::CalsV),
    Time(crate::rep_types::time::TimeV),
    RestPeriod(crate::rep_types::rest_period::RestPeriodV),
    Max,
}

impl View for RepType {
    type V = RepTypeV;

    open spec fn view(&self) -> RepTypeV {
        match self {
            RepType::Reps(x) => RepTypeV::Reps(x@),
            RepType::Distance(x) => RepTypeV::Distance(x@),
            RepType::Cals(x) => RepTypeV::Cals(x@),
            RepType::Time(x) => RepTypeV::Time(x@),
            RepType::RestPeriod(x) => RepTypeV::RestPeriod(x@),
            RepType::Max => RepTypeV::Max,
        }
    }
}

/// The measure a well-formed string parses to, following the dispatch.
pub open spec fn rep_type_v(s: Seq<char>) -> RepTypeV {
    if is_distance_text(s) {
        RepTypeV::Distance(crate::rep_types::distance::DistanceV {
            num: digits_val(digits_of(s)),
            unit: non_digits_of(s),
        })
    } else if is_cals_text(s) {
        RepTypeV::Cals(crate::rep_types::cals::CalsV {
            man: split_men_val(s),
            woman: split_women_val(s),
        })
    } else if is_time_text(s) {
        RepTypeV::Time(crate::rep_types::time::TimeV {
            num: digits_val(digits_of(s)),
            unit: non_digits_of(s),
        })
    } else if is_max_text(s) {
        RepTypeV::Max
    } else {
        RepTypeV::Reps(crate::rep_types::reps::RepsV {
            man: split_men_val(s),
            woman: split_women_val(s),
        })
    }
}

/// For a well-formed string, the parsed measure's content is exactly what
/// the dispatch names.
pub proof fn lemma_rep_type_view(s: Seq<char>, rt: RepType)
    requires
        rep_type_matches(s, rt),
    ensures
        rt@ == rep_type_v(s),
{
}

} // verus!
