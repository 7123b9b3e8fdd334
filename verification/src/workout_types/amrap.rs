//! The as-many-rounds-as-possible workout kind (`amrap-12`): the keyword,
//! one separator, and an optional minute count.

use vstd::prelude::*;
use crate::text::{
    all_digits, chars_of, contains_char, dec_rep, digits_val, parse_u32, span_starts_with,
    starts_with, u32_to_string,
};
use vstd::string::StringExecFns;

verus! {

/// The text after the keyword and its separator.
pub open spec fn amrap_rest(s: Seq<char>) -> Seq<char> {
    s.subrange("amrap-"@.len() as int, s.len() as int)
}

/// Whether a string is a well-formed as-many-rounds header: the keyword,
/// exactly one separator, and a minute count that is absent or fits an
/// unsigned 8-bit number.
pub open spec fn amrap_ok(s: Seq<char>) -> bool {
    &&& starts_with(s, "amrap-"@)
    &&& !amrap_rest(s).contains('-')
    &&& (amrap_rest(s).len() == 0 || (all_digits(amrap_rest(s)) && digits_val(amrap_rest(s))
        <= u8::MAX))
}

/// The minute count of a well-formed header; one when absent.
pub open spec fn amrap_minutes(s: Seq<char>) -> nat {
    if amrap_rest(s).len() == 0 {
        1
    } else {
        digits_val(amrap_rest(s))
    }
}

/// An as-many-rounds-as-possible workout: the time cap in minutes.
#[derive(Debug, PartialEq, Eq, Clone)]
pub struct AMRAP {
    /// The number of minutes allocated for the workout.
    pub minutes: u8,
}

impl AMRAP {
    /// The rendered text: `AMRAP` with the minute count.
    pub open spec fn text(&self) -> Seq<char> {
        "AMRAP "@ + dec_rep(self.minutes as nat) + " minutes"@
    }

    /// Parses an as-many-rounds header: the keyword, `-`, and an optional
    /// minute count defaulting to one.
    pub fn from_str(w: &str) -> (r: Result<AMRAP, String>)
        ensures
            match r {
                Ok(a) => amrap_ok(w@) && a.minutes as nat == amrap_minutes(w@),
                Err(_) => !amrap_ok(w@),
            },
    {
        let v = chars_of(w);
        let n = v.len();
        proof {
            assert(v@.subrange(0, n as int) =~= w@);
            reveal_strlit("amrap-");
        }
        if !span_starts_with(&v, 0, n, "amrap-") {
            return Err(String::from_str("invalid as-many-rounds format"));
        }
        proof {
            assert(v@.subrange(6, n as int) =~= amrap_rest(w@));
        }
        if contains_char(&v, 6, n, '-') {
            return Err(String::from_str("invalid as-many-rounds format"));
        }
        if n == 6 {
            return Ok(AMRAP { minutes: 1 });
        }
        match parse_u32(&v, 6, n) {
            Some(x) => {
                if x > 255 {
                    Err(String::from_str("invalid minute count"))
                } else {
                    Ok(AMRAP { minutes: x as u8 })
                }
            },
            None => Err(String::from_str("invalid minute count")),
        }
    }

    /// Renders the header back to text.
    pub fn render(&self) -> (r: String)
        ensures
            r@ == self.text(),
    {
        let mut s = String::from_str("AMRAP ");
        let m = u32_to_string(self.minutes as u32);
        s.append(m.as_str());
        s.append(" minutes");
        s
    }
}


/// The mathematical content of an as-many-rounds workout.
pub ghost struct AMRAPV {
    pub minutes: nat,
}

impl View for AMRAP {
    type V = AMRAPV;

    open spec fn view(&self) -> AMRAPV {
        AMRAPV { minutes: self.minutes as nat }
    }
}

} // verus!
