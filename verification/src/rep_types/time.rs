//! A stretch of time for a movement to be held (`90sec`, `1min`).

use vstd::prelude::*;
use crate::text::{
    chars_of, dec_rep, digits_of, digits_val, non_digits_of, parse_u32, split_digits_rest,
    string_from_chars, u32_to_string, lemma_digits_of_all_digits,
};
use vstd::string::StringExecFns;

verus! {

/// Whether a string is a well-formed time: it holds at least one digit and
/// the digits fit an unsigned 8-bit number.
pub open spec fn time_ok(s: Seq<char>) -> bool {
    digits_of(s).len() > 0 && digits_val(digits_of(s)) <= u8::MAX
}

/// A time span: the digits of the source text give the amount, the
/// remaining characters the unit.
#[derive(Debug, PartialEq, Eq, Clone)]
pub struct Time {
    /// The numeric amount.
    pub num: u8,
    /// The unit text (`sec`, `min`).
    pub unit: String,
}

impl Time {
    /// The rendered text: the amount, a space, and the unit.
    pub open spec fn text(&self) -> Seq<char> {
        dec_rep(self.num as nat) + " "@ + self.unit@
    }

    /// Parses a time: digits feed the amount, everything else the unit.
    pub fn from_str(w: &str) -> (r: Result<Time, String>)
        ensures
            match r {
                Ok(t) => {
                    &&& time_ok(w@)
                    &&& t.num as nat == digits_val(digits_of(w@))
                    &&& t.unit@ == non_digits_of(w@)
                },
                Err(_) => !time_ok(w@),
            },
    {
        let v = chars_of(w);
        proof {
            assert(v@.subrange(0, v@.len() as int) =~= w@);
        }
        let (dig, rest) = split_digits_rest(&v, 0, v.len(), false);
        proof {
            assert(dig@.subrange(0, dig@.len() as int) =~= dig@);
            lemma_digits_of_all_digits(w@);
        }
        match parse_u32(&dig, 0, dig.len()) {
            Some(n) => {
                if n > 255 {
                    return Err(String::from_str("invalid time"));
                }
                let unit = string_from_chars(&rest, 0, rest.len());
                proof {
                    assert(rest@.subrange(0, rest@.len() as int) =~= rest@);
                }
                Ok(Time { num: n as u8, unit })
            },
            None => Err(String::from_str("invalid time")),
        }
    }

    /// Renders the time back to text.
    pub fn render(&self) -> (r: String)
        ensures
            r@ == self.text(),
    {
        let mut s = u32_to_string(self.num as u32);
        s.append(" ");
        s.append(self.unit.as_str());
        s
    }
}


/// The mathematical content of a time span.
pub ghost struct TimeV {
    pub num: nat,
    pub unit: Seq<char>,
}

impl View for Time {
    type V = TimeV;

    open spec fn view(&self) -> TimeV {
        TimeV { num: self.num as nat, unit: self.unit@ }
    }
}

} // verus!
