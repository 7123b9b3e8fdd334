//! A calorie count, optionally split by gender (`15cal` or `20/15cal`).

use vstd::prelude::*;
use crate::gender::{split_gender_unit, split_ok, split_men_val, split_women_val};
use crate::text::{dec_rep, u32_to_string};
use vstd::string::StringExecFns;

verus! {

/// Calories for men and for women. Without a `/` in the source notation
/// both counts are equal.
#[derive(Debug, PartialEq, Eq, Clone)]
pub struct Cals {
    /// Calories for men.
    pub cals_man: u32,
    /// Calories for women.
    pub cals_woman: u32,
}

impl Cals {
    /// The rendered text: the count (split when the genders differ)
    /// followed by the word `calories`.
    pub open spec fn text(&self) -> Seq<char> {
        if self.cals_woman != self.cals_man {
            dec_rep(self.cals_man as nat) + "/"@ + dec_rep(self.cals_woman as nat) + " calories"@
        } else {
            dec_rep(self.cals_man as nat) + " calories"@
        }
    }

    /// Parses a calorie count with the gender-split scan; the unit suffix
    /// (`cal`) is discarded.
    pub fn from_str(w: &str) -> (r: Result<Cals, String>)
        ensures
            match r {
                Ok(cals) => {
                    &&& split_ok(w@)
                    &&& cals.cals_man as nat == split_men_val(w@)
                    &&& cals.cals_woman as nat == split_women_val(w@)
                },
                Err(_) => !split_ok(w@),
            },
    {
        match split_gender_unit(w) {
            Ok(t) => Ok(Cals { cals_man: t.0, cals_woman: t.1 }),
            Err(e) => Err(e),
        }
    }

    /// Renders the count back to text.
    pub fn render(&self) -> (r: String)
        ensures
            r@ == self.text(),
    {
        let mut s = u32_to_string(self.cals_man);
        if self.cals_woman != self.cals_man {
            s.append("/");
            let w = u32_to_string(self.cals_woman);
            s.append(w.as_str());
        }
        s.append(" calories");
        s
    }
}


/// The mathematical content of a calorie count.
pub ghost struct CalsV {
    pub man: nat,
    pub woman: nat,
}

impl View for Cals {
    type V = CalsV;

    open spec fn view(&self) -> CalsV {
        CalsV { man: self.cals_man as nat, woman: self.cals_woman as nat }
    }
}

} // verus!
