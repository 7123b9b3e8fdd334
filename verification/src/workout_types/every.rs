//! A work-interval or rest clause of an interval workout (`2m`, `30s`,
//! `r1m`): a duration with a unit and a flag telling the two apart.

use vstd::prelude::*;
use crate::rep_types::rest_period::duration_unit_word;
use crate::text::{
    chars_of, dec_rep, digits_of, digits_val, non_digits_non_r_of, non_digits_of, parse_u32,
    split_digits_rest, str_eq, string_from_chars, u32_to_string, lemma_digits_of_all_digits,
};
use vstd::string::StringExecFns;

verus! {

/// Whether a string is a well-formed interval clause: its digits are
/// non-empty and fit an unsigned 16-bit number.
pub open spec fn every_ok(s: Seq<char>) -> bool {
    digits_of(s).len() > 0 && digits_val(digits_of(s)) <= u16::MAX
}

/// The clause is a rest clause: it opens with the rest marker.
pub open spec fn every_is_rest(s: Seq<char>) -> bool {
    s.len() > 0 && s[0] == 'r'
}

/// The unit text of the clause; a rest clause drops its `r` marks.
pub open spec fn every_unit(s: Seq<char>) -> Seq<char> {
    if every_is_rest(s) {
        non_digits_non_r_of(s)
    } else {
        non_digits_of(s)
    }
}

/// A work-interval or rest clause: how long, in what unit, and whether it
/// stands for rest rather than work.
#[derive(Debug, PartialEq, Eq, Clone)]
pub struct Every {
    /// The length of the interval.
    pub duration: u16,
    /// The unit of the duration (`m` for minutes, `s` for seconds).
    pub unit: String,
    /// Whether the clause prescribes rest.
    pub rest: bool,
}

impl Every {
    /// The rendered text: `rest` or `work every`, the duration, and its
    /// unit word.
    pub open spec fn text(&self) -> Seq<char> {
        (if self.rest {
            "rest "@
        } else {
            "work every "@
        }) + dec_rep(self.duration as nat) + " "@ + duration_unit_word(
            self.unit@,
            self.duration as nat,
        )
    }

    /// Parses a clause: a leading `r` marks rest and is dropped, digits
    /// feed the duration, everything else the unit.
    pub fn from_str(w: &str) -> (r: Result<Every, String>)
        ensures
            match r {
                Ok(e) => {
                    &&& every_ok(w@)
                    &&& e.duration as nat == digits_val(digits_of(w@))
                    &&& e.unit@ == every_unit(w@)
                    &&& e.rest == every_is_rest(w@)
                },
                Err(_) => !every_ok(w@),
            },
    {
        let v = chars_of(w);
        proof {
            assert(v@.subrange(0, v@.len() as int) =~= w@);
        }
        let rest_flag = v.len() > 0 && v[0] == 'r';
        let (dig, unit_chars) = split_digits_rest(&v, 0, v.len(), rest_flag);
        proof {
            assert(dig@.subrange(0, dig@.len() as int) =~= dig@);
            lemma_digits_of_all_digits(w@);
        }
        match parse_u32(&dig, 0, dig.len()) {
            Some(n) => {
                if n > 65535 {
                    return Err(String::from_str("invalid interval clause"));
                }
                let unit = string_from_chars(&unit_chars, 0, unit_chars.len());
                proof {
                    assert(unit_chars@.subrange(0, unit_chars@.len() as int) =~= unit_chars@);
                }
                Ok(Every { duration: n as u16, unit, rest: rest_flag })
            },
            None => Err(String::from_str("invalid interval clause")),
        }
    }

    /// Renders the clause back to text.
    pub fn render(&self) -> (r: String)
        ensures
            r@ == self.text(),
    {
        let mut s = if self.rest {
            String::from_str("rest ")
        } else {
            String::from_str("work every ")
        };
        let d = u32_to_string(self.duration as u32);
        s.append(d.as_str());
        s.append(" ");
        if str_eq(self.unit.as_str(), "m") {
            if self.duration != 1 {
                s.append("minutes");
            } else {
                s.append("minute");
            }
        } else if str_eq(self.unit.as_str(), "s") {
            s.append("seconds");
        } else {
            s.append("minutes");
        }
        s
    }
}


/// The mathematical content of an interval clause.
pub ghost struct EveryV {
    pub duration: nat,
    pub unit: Seq<char>,
    pub rest: bool,
}

impl View for Every {
    type V = EveryV;

    open spec fn view(&self) -> EveryV {
        EveryV { duration: self.duration as nat, unit: self.unit@, rest: self.rest }
    }
}

} // verus!
