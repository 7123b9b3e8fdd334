//! A repetition maximum (`1rm`, `3rm`): the heaviest weight liftable for
//! the given number of repetitions.

use vstd::prelude::*;
use crate::text::{
    chars_of, dec_rep, digits_of, digits_val, parse_u32, split_digits_rest, u32_to_string,
    lemma_digits_of_all_digits,
};
use vstd::string::StringExecFns;

verus! {

/// Whether a string is a well-formed repetition maximum: its digits are
/// non-empty and fit an unsigned 8-bit number.
pub open spec fn rm_ok(s: Seq<char>) -> bool {
    digits_of(s).len() > 0 && digits_val(digits_of(s)) <= u8::MAX
}

/// A repetition maximum count.
#[derive(Debug, PartialEq, Eq, Clone)]
pub struct RM {
    /// The repetition count the maximum refers to.
    pub num: u8,
}

impl RM {
    /// The rendered text: the count followed by `rm`.
    pub open spec fn text(&self) -> Seq<char> {
        dec_rep(self.num as nat) + "rm"@
    }

    /// Parses a repetition maximum: all non-digit characters are stripped
    /// and the remaining digits give the count.
    pub fn from_str(w: &str) -> (r: Result<RM, String>)
        ensures
            match r {
                Ok(rm) => rm_ok(w@) && rm.num as nat == digits_val(digits_of(w@)),
                Err(_) => !rm_ok(w@),
            },
    {
        let v = chars_of(w);
        proof {
            assert(v@.subrange(0, v@.len() as int) =~= w@);
        }
        let (dig, _rest) = split_digits_rest(&v, 0, v.len(), false);
        proof {
            assert(dig@.subrange(0, dig@.len() as int) =~= dig@);
            lemma_digits_of_all_digits(w@);
        }
        match parse_u32(&dig, 0, dig.len()) {
            Some(n) => {
                if n > 255 {
                    return Err(String::from_str("invalid repetition maximum"));
                }
                Ok(RM { num: n as u8 })
            },
            None => Err(String::from_str("invalid repetition maximum")),
        }
    }

    /// Renders the repetition maximum back to text.
    pub fn render(&self) -> (r: String)
        ensures
            r@ == self.text(),
    {
        let mut s = u32_to_string(self.num as u32);
        s.append("rm");
        s
    }
}


/// The mathematical content of a repetition maximum.
pub ghost struct RMV {
    pub num: nat,
}

impl View for RM {
    type V = RMV;

    open spec fn view(&self) -> RMV {
        RMV { num: self.num as nat }
    }
}

} // verus!
