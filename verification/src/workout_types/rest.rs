//! A plain rest span (`1m`, `90s`): a duration with its unit.

use vstd::prelude::*;
use crate::text::{
    chars_of, dec_rep, digits_of, digits_val, non_digits_of, parse_u32, split_digits_rest,
    str_eq, string_from_chars, u32_to_string, lemma_digits_of_all_digits,
};
use vstd::string::StringExecFns;

verus! {

/// Whether a string is a well-formed rest span: its digits are non-empty
/// and fit an unsigned 16-bit number.
pub open spec fn rest_ok(s: Seq<char>) -> bool {
    digits_of(s).len() > 0 && digits_val(digits_of(s)) <= u16::MAX
}

/// The word for a rest-span unit: `m` means minutes (singular for one),
/// `s` means seconds, anything else is unknown.
pub open spec fn rest_unit_word(unit: Seq<char>, n: nat) -> Seq<char> {
    if unit == "m"@ {
        if n != 1 {
            "minutes"@
        } else {
            "minute"@
        }
    } else if unit == "s"@ {
        "seconds"@
    } else {
        "unknown"@
    }
}

/// A rest span: a duration and its unit.
#[derive(Debug, PartialEq, Eq, Clone)]
pub struct Rest {
    /// The length of the rest.
    pub duration: u16,
    /// The unit of the duration (`m` for minutes, `s` for seconds).
    pub unit: String,
}

impl Rest {
    /// The rendered text: `rest` followed by the duration and its unit word.
    pub open spec fn text(&self) -> Seq<char> {
        "rest "@ + dec_rep(self.duration as nat) + " "@ + rest_unit_word(
            self.unit@,
            self.duration as nat,
        )
    }

    /// Parses a rest span: digits feed the duration, everything else the
    /// unit.
    pub fn from_str(w: &str) -> (r: Result<Rest, String>)
        ensures
            match r {
                Ok(rt) => {
                    &&& rest_ok(w@)
                    &&& rt.duration as nat == digits_val(digits_of(w@))
                    &&& rt.unit@ == non_digits_of(w@)
                },
                Err(_) => !rest_ok(w@),
            },
    {
        let v = chars_of(w);
        proof {
            assert(v@.subrange(0, v@.len() as int) =~= w@);
        }
        let (dig, unit_chars) = split_digits_rest(&v, 0, v.len(), false);
        proof {
            assert(dig@.subrange(0, dig@.len() as int) =~= dig@);
            lemma_digits_of_all_digits(w@);
        }
        match parse_u32(&dig, 0, dig.len()) {
            Some(n) => {
                if n > 65535 {
                    return Err(String::from_str("invalid rest span"));
                }
                let unit = string_from_chars(&unit_chars, 0, unit_chars.len());
                proof {
                    assert(unit_chars@.subrange(0, unit_chars@.len() as int) =~= unit_chars@);
                }
                Ok(Rest { duration: n as u16, unit })
            },
            None => Err(String::from_str("invalid rest span")),
        }
    }

    /// Renders the rest span back to text.
    pub fn render(&self) -> (r: String)
        ensures
            r@ == self.text(),
    {
        let mut s = String::from_str("rest ");
        let d = u32_to_string(self.duration as u32);
        s.append(d.as_str());
        s.append(" ");
        if str_eq(self.unit.as_str(), "m") {
            if self.duration != 1 {
                s.append("minutes");
            } else {
                s.append("minute");
            }
        } else if str_eq(self.unit.as_str(), "s") {
            s.append("seconds");
        } else {
            s.append("unknown");
        }
        s
    }
}

} // verus!
