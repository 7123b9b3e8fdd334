//! A weight prescription, optionally split by gender, with a unit suffix
//! (`70kg`, `60/40kg`, `70%`).

use vstd::prelude::*;
use crate::gender::{split_gender_unit, split_ok, split_men_val, split_women_val, split_unit};
use crate::text::{dec_rep, u32_to_string};
use vstd::string::StringExecFns;

verus! {

/// A weight for men and for women with its unit. Without a `/` in the
/// source notation both weights are equal.
#[derive(Debug, PartialEq, Eq, Clone)]
pub struct Weight {
    /// Weight for men.
    pub weight_man: u32,
    /// Weight for women.
    pub weight_woman: u32,
    /// Unit of measurement (`kg`, `%`).
    pub unit: String,
}

impl Weight {
    /// The rendered text: the weight (split when the genders differ)
    /// directly followed by the unit.
    pub open spec fn text(&self) -> Seq<char> {
        if self.weight_woman != self.weight_man {
            dec_rep(self.weight_man as nat) + "/"@ + dec_rep(self.weight_woman as nat)
                + self.unit@
        } else {
            dec_rep(self.weight_man as nat) + self.unit@
        }
    }

    /// Parses a weight with the gender-split scan, keeping the unit.
    pub fn from_str(w: &str) -> (r: Result<Weight, String>)
        ensures
            match r {
                Ok(wt) => {
                    &&& split_ok(w@)
                    &&& wt.weight_man as nat == split_men_val(w@)
                    &&& wt.weight_woman as nat == split_women_val(w@)
                    &&& wt.unit@ == split_unit(w@)
                },
                Err(_) => !split_ok(w@),
            },
    {
        match split_gender_unit(w) {
            Ok(t) => Ok(Weight { weight_man: t.0, weight_woman: t.1, unit: t.2 }),
            Err(e) => Err(e),
        }
    }

    /// Renders the weight back to text.
    pub fn render(&self) -> (r: String)
        ensures
            r@ == self.text(),
    {
        let mut s = u32_to_string(self.weight_man);
        if self.weight_woman != self.weight_man {
            s.append("/");
            let w = u32_to_string(self.weight_woman);
            s.append(w.as_str());
        }
        s.append(self.unit.as_str());
        s
    }
}


/// The mathematical content of a weight.
pub ghost struct WeightV {
    pub man: nat,
    pub woman: nat,
    pub unit: Seq<char>,
}

impl View for Weight {
    type V = WeightV;

    open spec fn view(&self) -> WeightV {
        WeightV { man: self.weight_man as nat, woman: self.weight_woman as nat, unit: self.unit@ }
    }
}

} // verus!
