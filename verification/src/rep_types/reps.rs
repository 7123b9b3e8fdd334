//! A repetition count, optionally split by gender (`20` or `20/15`).

use vstd::prelude::*;
use crate::gender::{split_gender_unit, split_ok, split_men_val, split_women_val};
use crate::text::{dec_rep, u32_to_string};
use vstd::string::StringExecFns;

verus! {

/// A number of repetitions for men and for women. Without a `/` in the
/// source notation both counts are equal.
#[derive(Debug, PartialEq, Eq, Clone)]
pub struct Reps {
    /// Repetitions for men.
    pub reps_man: u32,
    /// Repetitions for women.
    pub reps_woman: u32,
}

impl Reps {
    /// The rendered text: `men/women` when the counts differ, one number
    /// otherwise.
    pub open spec fn text(&self) -> Seq<char> {
        if self.reps_woman != self.reps_man {
            dec_rep(self.reps_man as nat) + "/"@ + dec_rep(self.reps_woman as nat)
        } else {
            dec_rep(self.reps_man as nat)
        }
    }

    /// Parses a repetition count with the gender-split scan; a unit suffix
    /// is tolerated and discarded.
    pub fn from_str(w: &str) -> (r: Result<Reps, String>)
        ensures
            match r {
                Ok(reps) => {
                    &&& split_ok(w@)
                    &&& reps.reps_man as nat == split_men_val(w@)
                    &&& reps.reps_woman as nat == split_women_val(w@)
                },
                Err(_) => !split_ok(w@),
            },
    {
        match split_gender_unit(w) {
            Ok(t) => Ok(Reps { reps_man: t.0, reps_woman: t.1 }),
            Err(e) => Err(e),
        }
    }

    /// Renders the count back to text.
    pub fn render(&self) -> (r: String)
        ensures
            r@ == self.text(),
    {
        let mut s = u32_to_string(self.reps_man);
        if self.reps_woman != self.reps_man {
            s.append("/");
            let w = u32_to_string(self.reps_woman);
            s.append(w.as_str());
        }
        s
    }
}


/// The mathematical content of a repetition count.
pub ghost struct RepsV {
    pub man: nat,
    pub woman: nat,
}

impl View for Reps {
    type V = RepsV;

    open spec fn view(&self) -> RepsV {
        RepsV { man: self.reps_man as nat, woman: self.reps_woman as nat }
    }
}

} // verus!
