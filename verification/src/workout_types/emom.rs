//! The interval workout kind (`emom-12-3m-r1m-alt`): hyphen-delimited
//! parts assign, by position, the round count and the work interval, while
//! a rest part and the alternating flag are recognised wherever they stand.

use vstd::prelude::*;
use crate::text::{
    all_digits, chars_of, contains_char, dec_rep, digits_of, digits_val, parse_u32, span_eq_str,
    split_char, split_spans, string_from_chars, u32_to_string, lemma_digits_of_all_digits,
};
use crate::workout_types::every::{Every, every_ok, every_is_rest, every_unit};
use vstd::string::StringExecFns;

verus! {

/// The running state of the interval-header parse: the fields gathered so
/// far, how many positional parts were read, and whether a part failed.
pub ghost struct EmomParse {
    pub rounds: nat,
    pub every_dur: nat,
    pub every_unit: Seq<char>,
    pub every_rest: bool,
    pub alt: bool,
    pub rest_dur: nat,
    pub rest_unit: Seq<char>,
    pub rest_rest: bool,
    pub counter: nat,
    pub ok: bool,
}

/// The parse state before any part is read: one round, work every minute,
/// no rest, not alternating.
pub open spec fn emom_init() -> EmomParse {
    EmomParse {
        rounds: 1,
        every_dur: 1,
        every_unit: "m"@,
        every_rest: false,
        alt: false,
        rest_dur: 0,
        rest_unit: ""@,
        rest_rest: false,
        counter: 0,
        ok: true,
    }
}

/// One hyphen-delimited part of the interval header.
pub open spec fn emom_step(st: EmomParse, part: Seq<char>) -> EmomParse {
    if !st.ok {
        st
    } else if part == "emom"@ {
        st
    } else if part == "alt"@ {
        EmomParse { alt: true, ..st }
    } else if part.len() > 0 && part[0] == 'r' && (part.contains('m') || part.contains('s')) {
        if every_ok(part) {
            EmomParse {
                rest_dur: digits_val(digits_of(part)),
                rest_unit: every_unit(part),
                rest_rest: every_is_rest(part),
                ..st
            }
        } else {
            EmomParse { ok: false, ..st }
        }
    } else if st.counter == 0 {
        if part.len() > 0 && all_digits(part) && digits_val(part) <= u16::MAX {
            EmomParse { rounds: digits_val(part), counter: st.counter + 1, ..st }
        } else {
            EmomParse { ok: false, ..st }
        }
    } else if st.counter == 1 {
        if every_ok(part) {
            EmomParse {
                every_dur: digits_val(digits_of(part)),
                every_unit: every_unit(part),
                every_rest: every_is_rest(part),
                counter: st.counter + 1,
                ..st
            }
        } else {
            EmomParse { ok: false, ..st }
        }
    } else {
        EmomParse { counter: st.counter + 1, ..st }
    }
}

/// The parse state after a sequence of parts.
pub open spec fn emom_fold(st: EmomParse, parts: Seq<Seq<char>>) -> EmomParse
    decreases parts.len(),
{
    if parts.len() == 0 {
        st
    } else {
        emom_fold(emom_step(st, parts[0]), parts.drop_first())
    }
}

/// The parse of a whole interval header.
pub open spec fn emom_parse(s: Seq<char>) -> EmomParse {
    emom_fold(emom_init(), split_char(s, '-'))
}

/// Whether a string is a well-formed interval header.
pub open spec fn emom_ok(s: Seq<char>) -> bool {
    emom_parse(s).ok
}

/// An interval workout: round count, work interval, rest, and whether the
/// work alternates between movements.
#[derive(Debug, PartialEq, Eq, Clone)]
pub struct EMOM {
    /// The number of rounds.
    pub rounds: u16,
    /// The interval at which the work is performed; one minute by default.
    pub every: Every,
    /// Whether the work alternates between movements round by round.
    pub alternating: bool,
    /// The rest between intervals; zero when none was named.
    pub rest: Every,
}

impl EMOM {
    /// The rendered text: the header, then a work clause when the interval
    /// is not the one-minute default, a rest clause when rest is nonzero,
    /// and the alternating mark.
    pub open spec fn text(&self) -> Seq<char> {
        self.header_text() + self.clauses_text()
    }

    /// The header line of the rendered text, which never spans lines.
    pub open spec fn header_text(&self) -> Seq<char> {
        "EMOM "@ + dec_rep(self.rounds as nat) + " minutes"@
    }

    /// What follows the header in the rendered text: the work clause when
    /// the interval is not the one-minute default, the rest clause when
    /// rest is nonzero, and the alternating mark.
    pub open spec fn clauses_text(&self) -> Seq<char> {
        let with_every = if self.every.duration != 1 {
            "\n\n"@ + self.every.text()
        } else {
            Seq::empty()
        };
        let with_rest = if self.rest.duration != 0 {
            if self.every.duration == 1 {
                with_every + "\n\n"@ + self.rest.text()
            } else {
                with_every + ", "@ + self.rest.text()
            }
        } else {
            with_every
        };
        if self.alternating {
            with_rest + ", alternating"@
        } else {
            with_rest
        }
    }

    /// Renders the header line alone.
    pub fn render_header(&self) -> (r: String)
        ensures
            r@ == self.header_text(),
    {
        let mut s = String::from_str("EMOM ");
        let rd = u32_to_string(self.rounds as u32);
        s.append(rd.as_str());
        s.append(" minutes");
        s
    }

    /// Renders the clauses after the header.
    pub fn render_clauses(&self) -> (r: String)
        ensures
            r@ == self.clauses_text(),
    {
        let mut s = String::new();
        if self.every.duration != 1 {
            s.append("\n\n");
            let e = self.every.render();
            s.append(e.as_str());
        }
        if self.rest.duration != 0 {
            if self.every.duration == 1 {
                s.append("\n\n");
            } else {
                s.append(", ");
            }
            let rt = self.rest.render();
            s.append(rt.as_str());
        }
        if self.alternating {
            s.append(", alternating");
        }
        proof {
            assert(s@ =~= self.clauses_text());
        }
        s
    }

    /// Parses an interval header part by part.
    pub fn from_str(w: &str) -> (r: Result<EMOM, String>)
        ensures
            match r {
                Ok(e) => {
                    &&& emom_ok(w@)
                    &&& e.rounds as nat == emom_parse(w@).rounds
                    &&& e.every.duration as nat == emom_parse(w@).every_dur
                    &&& e.every.unit@ == emom_parse(w@).every_unit
                    &&& e.every.rest == emom_parse(w@).every_rest
                    &&& e.alternating == emom_parse(w@).alt
                    &&& e.rest.duration as nat == emom_parse(w@).rest_dur
                    &&& e.rest.unit@ == emom_parse(w@).rest_unit
                    &&& e.rest.rest == emom_parse(w@).rest_rest
                },
                Err(_) => !emom_ok(w@),
            },
    {
        let v = chars_of(w);
        let n = v.len();
        proof {
            assert(v@.subrange(0, n as int) =~= w@);
        }
        let spans = split_spans(&v, 0, n, '-');
        let ghost parts = split_char(w@, '-');
        let mut rounds: u16 = 1;
        let mut every = Every { duration: 1, unit: String::from_str("m"), rest: false };
        let mut alternating = false;
        let mut rest = Every { duration: 0, unit: String::new(), rest: false };
        let mut counter: usize = 0;
        let mut i: usize = 0;
        proof {
            reveal_strlit("");
            assert(""@ =~= Seq::<char>::empty());
            assert(parts.skip(0) =~= parts);
        }
        while i < spans.len()
            invariant
                n == v@.len(),
                v@.subrange(0, n as int) == w@,
                parts == split_char(w@, '-'),
                spans@.len() == parts.len(),
                forall|k: int|
                    0 <= k < spans@.len() ==> 0 <= #[trigger] spans@[k].0 <= spans@[k].1 <= n
                        && v@.subrange(spans@[k].0 as int, spans@[k].1 as int) == parts[k],
                i <= spans@.len(),
                counter <= i,
                emom_fold(emom_init(), parts) == emom_fold(
                    EmomParse {
                        rounds: rounds as nat,
                        every_dur: every.duration as nat,
                        every_unit: every.unit@,
                        every_rest: every.rest,
                        alt: alternating,
                        rest_dur: rest.duration as nat,
                        rest_unit: rest.unit@,
                        rest_rest: rest.rest,
                        counter: counter as nat,
                        ok: true,
                    },
                    parts.skip(i as int),
                ),
            decreases spans@.len() - i,
        {
            let (from, to) = (spans[i].0, spans[i].1);
            let ghost part = parts[i as int];
            let ghost st = EmomParse {
                rounds: rounds as nat,
                every_dur: every.duration as nat,
                every_unit: every.unit@,
                every_rest: every.rest,
                alt: alternating,
                rest_dur: rest.duration as nat,
                rest_unit: rest.unit@,
                rest_rest: rest.rest,
                counter: counter as nat,
                ok: true,
            };
            proof {
                assert(parts.skip(i as int)[0] == part);
                assert(parts.skip(i as int).drop_first() =~= parts.skip(i + 1));
            }
            if span_eq_str(&v, from, to, "emom") {
            } else if span_eq_str(&v, from, to, "alt") {
                alternating = true;
            } else {
                let mut is_rest_part = false;
                if from < to {
                    proof {
                        assert(part[0] == v@[from as int]);
                    }
                    if v[from] == 'r' {
                        if contains_char(&v, from, to, 'm') || contains_char(&v, from, to, 's') {
                            is_rest_part = true;
                        }
                    }
                }
                proof {
                    assert(is_rest_part == (part.len() > 0 && part[0] == 'r' && (part.contains('m')
                        || part.contains('s'))));
                }
                if is_rest_part {
                    let part_str = string_from_chars(&v, from, to);
                    match Every::from_str(part_str.as_str()) {
                        Ok(e) => {
                            rest = e;
                        },
                        Err(_) => {
                            proof {
                                assert(!emom_step(st, part).ok);
                                lemma_emom_fold_stuck(emom_step(st, part), parts.skip(i + 1));
                            }
                            return Err(String::from_str("invalid interval header"));
                        },
                    }
                } else if counter == 0 {
                    proof {
                        lemma_digits_of_all_digits(part);
                        if all_digits(part) {
                            crate::text::lemma_all_digits_digits_of(part);
                        }
                    }
                    match parse_u32(&v, from, to) {
                        Some(x) => {
                            if x > 65535 || to == from {
                                proof {
                                    assert(!emom_step(st, part).ok);
                                    lemma_emom_fold_stuck(emom_step(st, part), parts.skip(i + 1));
                                }
                                return Err(String::from_str("invalid round count"));
                            }
                            rounds = x as u16;
                            counter = counter + 1;
                        },
                        None => {
                            proof {
                                assert(!emom_step(st, part).ok);
                                lemma_emom_fold_stuck(emom_step(st, part), parts.skip(i + 1));
                            }
                            return Err(String::from_str("invalid round count"));
                        },
                    }
                } else if counter == 1 {
                    let part_str = string_from_chars(&v, from, to);
                    match Every::from_str(part_str.as_str()) {
                        Ok(e) => {
                            every = e;
                            counter = counter + 1;
                        },
                        Err(_) => {
                            proof {
                                assert(!emom_step(st, part).ok);
                                lemma_emom_fold_stuck(emom_step(st, part), parts.skip(i + 1));
                            }
                            return Err(String::from_str("invalid interval header"));
                        },
                    }
                } else {
                    counter = counter + 1;
                }
            }
            i = i + 1;
        }
        proof {
            assert(parts.skip(i as int) =~= Seq::<Seq<char>>::empty());
        }
        Ok(EMOM { rounds, every, alternating, rest })
    }

    /// Renders the interval header back to text.
    pub fn render(&self) -> (r: String)
        ensures
            r@ == self.text(),
    {
        let mut s = self.render_header();
        let c = self.render_clauses();
        s.append(c.as_str());
        s
    }
}

/// A failed parse stays failed over any further parts.
pub proof fn lemma_emom_fold_stuck(st: EmomParse, parts: Seq<Seq<char>>)
    requires
        !st.ok,
    ensures
        !emom_fold(st, parts).ok,
    decreases parts.len(),
{
    if parts.len() > 0 {
        lemma_emom_fold_stuck(st, parts.drop_first());
    }
}


/// The mathematical content of an interval workout.
pub ghost struct EMOMV {
    pub rounds: nat,
    pub every: crate::workout_types::every::EveryV,
    pub alternating: bool,
    pub rest: crate::workout_types::every::EveryV,
}

impl View for EMOM {
    type V = EMOMV;

    open spec fn view(&self) -> EMOMV {
        EMOMV { rounds: self.rounds as nat, every: self.every@, alternating: self.alternating, rest: self.rest@ }
    }
}

/// The interval workout a well-formed header parses to.
pub open spec fn emom_v(s: Seq<char>) -> EMOMV {
    EMOMV {
        rounds: emom_parse(s).rounds,
        every: crate::workout_types::every::EveryV {
            duration: emom_parse(s).every_dur,
            unit: emom_parse(s).every_unit,
            rest: emom_parse(s).every_rest,
        },
        alternating: emom_parse(s).alt,
        rest: crate::workout_types::every::EveryV {
            duration: emom_parse(s).rest_dur,
            unit: emom_parse(s).rest_unit,
            rest: emom_parse(s).rest_rest,
        },
    }
}

} // verus!
