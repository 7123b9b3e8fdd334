//! A distance with a numeric amount and a unit (`100m`, `5k`, `1mile`).

use vstd::prelude::*;
use crate::text::{
    chars_of, dec_rep, digits_of, digits_val, non_digits_of, parse_u32, split_digits_rest,
    string_from_chars, u32_to_string, lemma_digits_of_all_digits,
};
use vstd::string::StringExecFns;

verus! {

/// Whether a string is a well-formed distance: it holds at least one digit
/// and the digits fit an unsigned 32-bit number.
pub open spec fn distance_ok(s: Seq<char>) -> bool {
    digits_of(s).len() > 0 && digits_val(digits_of(s)) <= u32::MAX
}

/// A distance: the digits of the source text give the amount, the
/// remaining characters the unit.
#[derive(Debug, PartialEq, Eq, Clone)]
pub struct Distance {
    /// The numeric amount.
    pub num: u32,
    /// The unit text (`m`, `k`, `mile`).
    pub unit: String,
}

impl Distance {
    /// The rendered text: the amount directly followed by the unit.
    pub open spec fn text(&self) -> Seq<char> {
        dec_rep(self.num as nat) + self.unit@
    }

    /// Parses a distance: digits feed the amount, everything else the unit.
    pub fn from_str(w: &str) -> (r: Result<Distance, String>)
        ensures
            match r {
                Ok(d) => {
                    &&& distance_ok(w@)
                    &&& d.num as nat == digits_val(digits_of(w@))
                    &&& d.unit@ == non_digits_of(w@)
                },
                Err(_) => !distance_ok(w@),
            },
    {
        let v = chars_of(w);
        proof {
            assert(v@.subrange(0, v@.len() as int) =~= w@);
        }
        let (dig, rest) = split_digits_rest(&v, 0, v.len(), false);
        proof {
            assert(dig@.subrange(0, dig@.len() as int) =~= dig@);
            lemma_digits_of_all_digits(w@);
        }
        match parse_u32(&dig, 0, dig.len()) {
            Some(n) => {
                let unit = string_from_chars(&rest, 0, rest.len());
                proof {
                    assert(rest@.subrange(0, rest@.len() as int) =~= rest@);
                }
                Ok(Distance { num: n, unit })
            },
            None => Err(String::from_str("invalid distance")),
        }
    }

    /// Renders the distance back to text.
    pub fn render(&self) -> (r: String)
        ensures
            r@ == self.text(),
    {
        let mut s = u32_to_string(self.num);
        s.append(self.unit.as_str());
        s
    }
}


/// The mathematical content of a distance.
pub ghost struct DistanceV {
    pub num: nat,
    pub unit: Seq<char>,
}

impl View for Distance {
    type V = DistanceV;

    open spec fn view(&self) -> DistanceV {
        DistanceV { num: self.num as nat, unit: self.unit@ }
    }
}

} // verus!
