//! A rest period written as a rest marker with a duration (`r1m`, `r90s`).

use vstd::prelude::*;
use crate::text::{
    chars_of, dec_rep, digits_of, digits_val, non_digits_non_r_of, parse_u32, split_digits_rest,
    str_eq, string_from_chars, u32_to_string, lemma_digits_of_all_digits,
};
use vstd::string::StringExecFns;

verus! {

/// The word for a duration unit: `m` means minutes (singular for one),
/// `s` means seconds, anything else is read as minutes.
pub open spec fn duration_unit_word(unit: Seq<char>, n: nat) -> Seq<char> {
    if unit == "m"@ {
        if n != 1 {
            "minutes"@
        } else {
            "minute"@
        }
    } else if unit == "s"@ {
        "seconds"@
    } else {
        "minutes"@
    }
}

/// Whether a string is a well-formed rest period: dropping the `r` marks,
/// it holds digits that fit an unsigned 16-bit number and a non-empty unit.
pub open spec fn rest_period_ok(s: Seq<char>) -> bool {
    &&& digits_of(s).len() > 0
    &&& digits_val(digits_of(s)) <= u16::MAX
    &&& non_digits_non_r_of(s).len() > 0
}

/// A rest period: a duration and its unit.
#[derive(Debug, PartialEq, Eq, Clone)]
pub struct RestPeriod {
    /// The length of the rest period.
    pub duration: u16,
    /// The unit of the duration (`m` for minutes, `s` for seconds).
    pub unit: String,
}

impl RestPeriod {
    /// The rendered text: `Rest` followed by the duration and its unit word.
    pub open spec fn text(&self) -> Seq<char> {
        "Rest "@ + dec_rep(self.duration as nat) + " "@ + duration_unit_word(
            self.unit@,
            self.duration as nat,
        )
    }

    /// Parses a rest period: `r` marks are skipped, digits feed the
    /// duration, everything else the unit; both must be present.
    pub fn from_str(w: &str) -> (r: Result<RestPeriod, String>)
        ensures
            match r {
                Ok(rp) => {
                    &&& rest_period_ok(w@)
                    &&& rp.duration as nat == digits_val(digits_of(w@))
                    &&& rp.unit@ == non_digits_non_r_of(w@)
                },
                Err(_) => !rest_period_ok(w@),
            },
    {
        let v = chars_of(w);
        proof {
            assert(v@.subrange(0, v@.len() as int) =~= w@);
        }
        let (dig, rest) = split_digits_rest(&v, 0, v.len(), true);
        proof {
            assert(dig@.subrange(0, dig@.len() as int) =~= dig@);
            lemma_digits_of_all_digits(w@);
        }
        if rest.len() == 0 {
            return Err(String::from_str("invalid rest period"));
        }
        match parse_u32(&dig, 0, dig.len()) {
            Some(n) => {
                if n > 65535 {
                    return Err(String::from_str("invalid rest period"));
                }
                let unit = string_from_chars(&rest, 0, rest.len());
                proof {
                    assert(rest@.subrange(0, rest@.len() as int) =~= rest@);
                }
                Ok(RestPeriod { duration: n as u16, unit })
            },
            None => Err(String::from_str("invalid rest period")),
        }
    }

    /// Renders the rest period back to text.
    pub fn render(&self) -> (r: String)
        ensures
            r@ == self.text(),
    {
        let mut s = String::from_str("Rest ");
        let d = u32_to_string(self.duration as u32);
        s.append(d.as_str());
        s.append(" ");
        if str_eq(self.unit.as_str(), "m") {
            if self.duration != 1 {
                s.append("minutes");
            } else {
                s.append("minute");
            }
        } else if str_eq(self.unit.as_str(), "s") {
            s.append("seconds");
        } else {
            s.append("minutes");
        }
        s
    }
}


/// The mathematical content of a rest period.
pub ghost struct RestPeriodV {
    pub duration: nat,
    pub unit: Seq<char>,
}

impl View for RestPeriod {
    type V = RestPeriodV;

    open spec fn view(&self) -> RestPeriodV {
        RestPeriodV { duration: self.duration as nat, unit: self.unit@ }
    }
}

} // verus!
