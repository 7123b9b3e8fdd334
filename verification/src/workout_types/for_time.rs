//! The timed-rounds workout kind (`ft`, `5rd`): an optional leading round
//! count followed by a label kept for display.

use vstd::prelude::*;
use crate::text::{
    all_digits, chars_of, dec_rep, digit_run_end, digit_run_end_exec, digits_val, parse_u32,
    string_from_chars, u32_to_string, lemma_digit_run_end,
};
use vstd::string::StringExecFns;

verus! {

/// The leading digit run of the text, which gives the round count.
pub open spec fn for_time_digits(s: Seq<char>) -> Seq<char> {
    s.subrange(0, digit_run_end(s, 0))
}

/// Whether a string is a well-formed timed-rounds header: its leading digit
/// run is absent (one round) or fits an unsigned 32-bit number.
pub open spec fn for_time_ok(s: Seq<char>) -> bool {
    digit_run_end(s, 0) == 0 || digits_val(for_time_digits(s)) <= u32::MAX
}

/// The round count of a timed-rounds header: one when no digits lead.
pub open spec fn for_time_rounds(s: Seq<char>) -> nat {
    if digit_run_end(s, 0) == 0 {
        1
    } else {
        digits_val(for_time_digits(s))
    }
}

/// The label after the leading digit run.
pub open spec fn for_time_name(s: Seq<char>) -> Seq<char> {
    s.subrange(digit_run_end(s, 0), s.len() as int)
}

/// A timed-rounds workout: how many rounds, and the label it was written
/// with (`ft`, `rd`).
#[derive(Debug, PartialEq, Eq, Clone)]
pub struct ForTime {
    /// The number of rounds; one when the notation names none.
    pub rounds: u32,
    /// The label kept for display decisions.
    pub name: String,
}

impl ForTime {
    /// The rendered text: the round count for more than one round, plain
    /// `For Time` otherwise.
    pub open spec fn text(&self) -> Seq<char> {
        if self.rounds > 1 {
            dec_rep(self.rounds as nat) + " rounds for time"@
        } else {
            "For Time"@
        }
    }

    /// Parses a timed-rounds header: a leading digit run gives the round
    /// count (default one), the remainder is the label.
    pub fn from_str(w: &str) -> (r: Result<ForTime, String>)
        ensures
            match r {
                Ok(ft) => {
                    &&& for_time_ok(w@)
                    &&& ft.rounds as nat == for_time_rounds(w@)
                    &&& ft.name@ == for_time_name(w@)
                },
                Err(_) => !for_time_ok(w@),
            },
    {
        let v = chars_of(w);
        let n = v.len();
        proof {
            assert(v@.subrange(0, n as int) =~= w@);
        }
        let e = digit_run_end_exec(&v, 0, n);
        let rounds: u32 = if e == 0 {
            1
        } else {
            proof {
                lemma_digit_run_end(w@, 0);
                assert(all_digits(v@.subrange(0, e as int)));
            }
            match parse_u32(&v, 0, e) {
                Some(x) => x,
                None => {
                    return Err(String::from_str("invalid round count"));
                },
            }
        };
        let name = string_from_chars(&v, e, n);
        Ok(ForTime { rounds, name })
    }

    /// Renders the timed-rounds header back to text.
    pub fn render(&self) -> (r: String)
        ensures
            r@ == self.text(),
    {
        if self.rounds > 1 {
            let mut s = u32_to_string(self.rounds);
            s.append(" rounds for time");
            s
        } else {
            String::from_str("For Time")
        }
    }
}


/// The mathematical content of a timed-rounds workout.
pub ghost struct ForTimeV {
    pub rounds: nat,
    pub name: Seq<char>,
}

impl View for ForTime {
    type V = ForTimeV;

    open spec fn view(&self) -> ForTimeV {
        ForTimeV { rounds: self.rounds as nat, name: self.name@ }
    }
}

} // verus!
