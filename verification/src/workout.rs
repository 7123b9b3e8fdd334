//! The workout assembler and renderer: tokens are bucketed by kind while
//! their source order is retained, and the record is rendered back into
//! formatted prose, branching on the workout kind.

use vstd::prelude::*;
use crate::lexer::{Lexer, LexerError, Token, lex_spec, views_of, lex_err_matches};
use crate::movement::Movement;
use crate::rep_types::rep_type::RepType;
use crate::rm::RM;
use crate::text::{join_sep, split_char, split_spans, string_from_chars, lemma_join_sep_push};
use crate::weight::Weight;
use crate::workout_types::for_time::ForTime;
use crate::workout_types::workout_type::WorkoutType;
use vstd::string::StringExecFns;

verus! {

/// The movements among the tokens, in order.
pub open spec fn movements_of(toks: Seq<Token>) -> Seq<Movement>
    decreases toks.len(),
{
    if toks.len() == 0 {
        Seq::empty()
    } else {
        let rest = movements_of(toks.drop_last());
        match toks.last() {
            Token::Movement(m) => rest.push(m),
            _ => rest,
        }
    }
}

/// The measures among the tokens, in order.
pub open spec fn rep_types_of(toks: Seq<Token>) -> Seq<RepType>
    decreases toks.len(),
{
    if toks.len() == 0 {
        Seq::empty()
    } else {
        let rest = rep_types_of(toks.drop_last());
        match toks.last() {
            Token::RepType(rt) => rest.push(rt),
            _ => rest,
        }
    }
}

/// The weights among the tokens, in order.
pub open spec fn weights_of(toks: Seq<Token>) -> Seq<Weight>
    decreases toks.len(),
{
    if toks.len() == 0 {
        Seq::empty()
    } else {
        let rest = weights_of(toks.drop_last());
        match toks.last() {
            Token::Weight(w) => rest.push(w),
            _ => rest,
        }
    }
}

/// The repetition maxima among the tokens, in order.
pub open spec fn rms_of(toks: Seq<Token>) -> Seq<RM>
    decreases toks.len(),
{
    if toks.len() == 0 {
        Seq::empty()
    } else {
        let rest = rms_of(toks.drop_last());
        match toks.last() {
            Token::RM(rm) => rest.push(rm),
            _ => rest,
        }
    }
}

/// How many set markers the tokens hold.
pub open spec fn x_count(toks: Seq<Token>) -> nat
    decreases toks.len(),
{
    if toks.len() == 0 {
        0
    } else {
        x_count(toks.drop_last()) + (if toks.last() is X {
            1nat
        } else {
            0nat
        })
    }
}

/// How many at markers the tokens hold.
pub open spec fn at_count(toks: Seq<Token>) -> nat
    decreases toks.len(),
{
    if toks.len() == 0 {
        0
    } else {
        at_count(toks.drop_last()) + (if toks.last() is At {
            1nat
        } else {
            0nat
        })
    }
}

/// How many plus markers the tokens hold.
pub open spec fn plus_count(toks: Seq<Token>) -> nat
    decreases toks.len(),
{
    if toks.len() == 0 {
        0
    } else {
        plus_count(toks.drop_last()) + (if toks.last() is Plus {
            1nat
        } else {
            0nat
        })
    }
}

/// The workout-kind tokens among the tokens, in order.
pub open spec fn workout_types_of(toks: Seq<Token>) -> Seq<WorkoutType>
    decreases toks.len(),
{
    if toks.len() == 0 {
        Seq::empty()
    } else {
        let rest = workout_types_of(toks.drop_last());
        match toks.last() {
            Token::WorkoutType(wt) => rest.push(wt),
            _ => rest,
        }
    }
}

/// Two adjacent measures appear among the tokens: the mark of a shared
/// repetition scheme such as `21-15-9`.
pub open spec fn has_adjacent_rep_types(toks: Seq<Token>) -> bool {
    exists|i: int|
        0 <= i < toks.len() - 1 && (#[trigger] toks[i]) is RepType && toks[i + 1] is RepType
}

/// The rendered texts of the measures, in order.
pub open spec fn rep_texts(reps: Seq<RepType>) -> Seq<Seq<char>> {
    reps.map_values(|r: RepType| r.text())
}

/// The rendered display names of the movements, in order.
pub open spec fn movement_texts(ms: Seq<Movement>) -> Seq<Seq<char>> {
    ms.map_values(|m: Movement| m.display_name())
}

/// The shared-scheme walk over the tokens: each movement on its own line,
/// a weight rendered inline right after the movement it follows, and a
/// blank line between movements.
pub open spec fn ft_shared_walk(toks: Seq<Token>, i: int, was_movement: bool) -> Seq<char>
    decreases toks.len() - i when 0 <= i
{
    if i >= toks.len() {
        if was_movement {
            "\n\n"@
        } else {
            Seq::empty()
        }
    } else {
        match toks[i] {
            Token::Movement(m) => (if was_movement {
                "\n\n"@
            } else {
                Seq::empty()
            }) + "- "@ + m.display_name() + ft_shared_walk(toks, i + 1, true),
            Token::Weight(w) => " At "@ + w.text() + "\n\n"@ + ft_shared_walk(toks, i + 1, false),
            _ => ft_shared_walk(toks, i + 1, was_movement),
        }
    }
}

/// The general walk over the tokens from position one on: each measure
/// opens a line, its movement follows directly, and a weight is appended
/// inline.
pub open spec fn token_walk(toks: Seq<Token>, i: int, first_rep: bool) -> Seq<char>
    decreases toks.len() - i when 0 <= i
{
    if i >= toks.len() {
        "\n\n"@
    } else {
        match toks[i] {
            Token::RepType(rt) => (if first_rep {
                "- "@
            } else {
                "\n\n- "@
            }) + rt.text() + " "@ + token_walk(toks, i + 1, false),
            Token::Movement(m) => m.display_name() + token_walk(toks, i + 1, first_rep),
            Token::Weight(w) => " At "@ + w.text() + token_walk(toks, i + 1, first_rep),
            _ => token_walk(toks, i + 1, first_rep),
        }
    }
}

/// The middle of a hybrid repetition scheme: the measures after the first,
/// joined by `+`.
pub open spec fn hybrid_mid(texts: Seq<Seq<char>>, i: int) -> Seq<char>
    decreases texts.len() - i when 0 <= i <= texts.len()
{
    if i >= texts.len() {
        Seq::empty()
    } else if i == texts.len() - 1 {
        texts[i]
    } else {
        texts[i] + "+"@ + hybrid_mid(texts, i + 1)
    }
}

/// The rendered repetition scheme of a weightlifting workout: a plain `x`
/// join without plus markers, a `+` join without set markers, and the
/// parenthesized hybrid `a x (b+c)` otherwise.
pub open spec fn wl_scheme_text(reps: Seq<RepType>, has_x: bool, has_plus: bool) -> Seq<char> {
    if !has_plus {
        join_sep(rep_texts(reps), "x"@) + " "@
    } else if !has_x {
        join_sep(rep_texts(reps), "+"@) + " "@
    } else if reps.len() == 0 {
        ") "@
    } else {
        reps[0].text() + "x("@ + hybrid_mid(rep_texts(reps), 1) + ") "@
    }
}

/// The comment block: each line italicized, lines joined back together,
/// introduced by a label.
pub open spec fn comments_text(c: Seq<char>) -> Seq<char> {
    "Comments: "@ + join_sep(
        split_char(c, '\n').map_values(|p: Seq<char>| "*"@ + p + "*"@),
        "\n"@,
    ) + "\n\n"@
}

/// A structured workout: the kind, the token buckets in source order, the
/// retained raw token sequence, and the optional comment and name texts.
#[derive(Debug, PartialEq, Clone)]
pub struct Workout {
    /// The workout kind.
    pub workout_type: WorkoutType,
    /// The movements, in source order.
    pub movements: Vec<Movement>,
    /// The measures, in source order.
    pub rep_types: Vec<RepType>,
    /// The weights, in source order.
    pub weights: Vec<Weight>,
    /// The set markers, when any occurred.
    pub x: Option<Vec<Token>>,
    /// The at markers, when any occurred.
    pub at: Option<Vec<Token>>,
    /// The plus markers, when any occurred.
    pub plus: Option<Vec<Token>>,
    /// The repetition maxima, when any occurred.
    pub rm: Option<Vec<RM>>,
    /// The raw tokens, which retain the positional relationships the
    /// buckets lose.
    pub tokens: Vec<Token>,
    /// Free-text remarks rendered after the body.
    pub comments: Option<String>,
    /// The given name of the workout, if any.
    pub name: Option<String>,
}

impl Workout {
    /// The retained raw token sequence.
    pub open spec fn spec_tokens(&self) -> Seq<Token> {
        self.tokens@
    }

    /// The comment text, if any.
    pub open spec fn spec_comments(&self) -> Option<Seq<char>> {
        match self.comments {
            Some(ref c) => Some(c@),
            None => None,
        }
    }

    /// The name text, if any.
    pub open spec fn spec_name(&self) -> Option<Seq<char>> {
        match self.name {
            Some(ref n) => Some(n@),
            None => None,
        }
    }

    /// The buckets agree with the retained tokens: every token was routed
    /// into exactly one bucket, and the kind is the last one named.
    pub open spec fn parsed(&self) -> bool {
        let toks = self.spec_tokens();
        &&& self.movements@ == movements_of(toks)
        &&& self.rep_types@ == rep_types_of(toks)
        &&& self.weights@ == weights_of(toks)
        &&& (match self.x {
            Some(ref v) => v@.len() == x_count(toks) && x_count(toks) > 0 && (forall|i: int|
                0 <= i < v@.len() ==> v@[i] is X),
            None => x_count(toks) == 0,
        })
        &&& (match self.at {
            Some(ref v) => v@.len() == at_count(toks) && at_count(toks) > 0 && (forall|i: int|
                0 <= i < v@.len() ==> v@[i] is At),
            None => at_count(toks) == 0,
        })
        &&& (match self.plus {
            Some(ref v) => v@.len() == plus_count(toks) && plus_count(toks) > 0 && (forall|i: int|
                0 <= i < v@.len() ==> v@[i] is Plus),
            None => plus_count(toks) == 0,
        })
        &&& (match self.rm {
            Some(ref v) => v@ == rms_of(toks) && rms_of(toks).len() > 0,
            None => rms_of(toks).len() == 0,
        })
        &&& (if workout_types_of(toks).len() > 0 {
            self.workout_type == workout_types_of(toks).last()
        } else {
            self.workout_type matches WorkoutType::ForTime(ft) && ft.rounds == 1 && ft.name@
                == "ft"@
        })
    }

    /// The body of a timed-rounds workout: the shared-scheme layout when
    /// two measures stand adjacent, the general walk otherwise.
    pub open spec fn for_time_text(&self) -> Seq<char> {
        if has_adjacent_rep_types(self.spec_tokens()) {
            join_sep(rep_texts(self.rep_types@), "-"@) + "\n\n"@ + ft_shared_walk(
                self.spec_tokens(),
                0,
                false,
            )
        } else {
            token_walk(self.spec_tokens(), 1, true)
        }
    }

    /// The body of a weightlifting workout: the repetition scheme, the
    /// movements joined by `+`, and the first recorded weight.
    pub open spec fn weightlifting_text(&self) -> Seq<char> {
        wl_scheme_text(self.rep_types@, self.x is Some, self.plus is Some) + join_sep(
            movement_texts(self.movements@),
            " + "@,
        ) + " @ "@ + self.weights@[0].text() + "\n\n"@
    }

    /// The whole rendered text: the section separator, the italic name if
    /// present, the bolded kind header and kind-specific body, and the
    /// comment block last.
    pub open spec fn render_text(&self) -> Seq<char> {
        let head = "---"@ + (match self.spec_name() {
            Some(n) => "\n\n*"@ + n + "*"@,
            None => Seq::empty(),
        });
        let body = match self.workout_type {
            WorkoutType::ForTime(_) => "\n\n**"@ + self.workout_type.text() + "**\n\n"@
                + self.for_time_text(),
            WorkoutType::Weightlifting => "\n\n**"@ + self.workout_type.text() + "**\n\n"@
                + self.weightlifting_text(),
            WorkoutType::EMOM(ref e) => "\n\n**"@ + e.header_text() + "**"@ + e.clauses_text()
                + "\n\n"@ + token_walk(self.spec_tokens(), 1, true),
            WorkoutType::AMRAP(_) => Seq::empty(),
        };
        let tail = match self.spec_comments() {
            Some(c) => comments_text(c),
            None => Seq::empty(),
        };
        head + body + tail
    }
}

/// Rendering is deterministic: any two renderings of equal workout values
/// are the same text.
pub proof fn lemma_render_deterministic(w1: &Workout, w2: &Workout, r1: Seq<char>, r2: Seq<char>)
    requires
        w1 == w2,
        r1 == w1.render_text(),
        r2 == w2.render_text(),
    ensures
        r1 == r2,
{
}


/// The tokens of an optional marker list; empty when absent.
pub open spec fn opt_tokens_seq(o: Option<Vec<Token>>) -> Seq<Token> {
    match o {
        Some(v) => v@,
        None => Seq::empty(),
    }
}

/// The maxima of an optional list; empty when absent.
pub open spec fn opt_rms_seq(o: Option<Vec<RM>>) -> Seq<RM> {
    match o {
        Some(v) => v@,
        None => Seq::empty(),
    }
}

/// A copy of a measure, field by field.
fn clone_rep_type(rt: &RepType) -> (r: RepType)
    ensures
        r == *rt,
{
    match rt {
        RepType::Reps(x) => RepType::Reps(crate::rep_types::reps::Reps {
            reps_man: x.reps_man,
            reps_woman: x.reps_woman,
        }),
        RepType::Distance(x) => RepType::Distance(crate::rep_types::distance::Distance {
            num: x.num,
            unit: x.unit.clone(),
        }),
        RepType::Cals(x) => RepType::Cals(crate::rep_types::cals::Cals {
            cals_man: x.cals_man,
            cals_woman: x.cals_woman,
        }),
        RepType::Time(x) => RepType::Time(crate::rep_types::time::Time {
            num: x.num,
            unit: x.unit.clone(),
        }),
        RepType::RestPeriod(x) => RepType::RestPeriod(crate::rep_types::rest_period::RestPeriod {
            duration: x.duration,
            unit: x.unit.clone(),
        }),
        RepType::Max => RepType::Max,
    }
}

/// A copy of a weight, field by field.
fn clone_weight(w: &Weight) -> (r: Weight)
    ensures
        r == *w,
{
    Weight { weight_man: w.weight_man, weight_woman: w.weight_woman, unit: w.unit.clone() }
}

/// A copy of a workout kind, field by field.
fn clone_workout_type(wt: &WorkoutType) -> (r: WorkoutType)
    ensures
        r == *wt,
{
    match wt {
        WorkoutType::ForTime(ft) => WorkoutType::ForTime(ForTime {
            rounds: ft.rounds,
            name: ft.name.clone(),
        }),
        WorkoutType::AMRAP(a) => WorkoutType::AMRAP(crate::workout_types::amrap::AMRAP {
            minutes: a.minutes,
        }),
        WorkoutType::EMOM(e) => WorkoutType::EMOM(crate::workout_types::emom::EMOM {
            rounds: e.rounds,
            every: crate::workout_types::every::Every {
                duration: e.every.duration,
                unit: e.every.unit.clone(),
                rest: e.every.rest,
            },
            alternating: e.alternating,
            rest: crate::workout_types::every::Every {
                duration: e.rest.duration,
                unit: e.rest.unit.clone(),
                rest: e.rest.rest,
            },
        }),
        WorkoutType::Weightlifting => WorkoutType::Weightlifting,
    }
}

impl Default for Workout {
    /// The empty default: a one-round timed workout labelled `ft`, with
    /// every bucket empty.
    fn default() -> (d: Self)
        ensures
            d.parsed(),
            d.spec_tokens().len() == 0,
            d.spec_comments() is None,
            d.spec_name() is None,
    {
        Workout {
            workout_type: WorkoutType::ForTime(ForTime { rounds: 1, name: String::from_str("ft") }),
            movements: Vec::new(),
            rep_types: Vec::new(),
            weights: Vec::new(),
            x: None,
            at: None,
            plus: None,
            rm: None,
            tokens: Vec::new(),
            comments: None,
            name: None,
        }
    }
}

impl Workout {
    /// A workout holding the given tokens, comments and name, with every
    /// bucket still empty and the default kind.
    pub fn new(tokens: Vec<Token>, comments: Option<String>, name: Option<String>) -> (w: Workout)
        ensures
            w.spec_tokens() == tokens@,
            w.spec_comments() == (match comments {
                Some(c) => Some(c@),
                None => None::<Seq<char>>,
            }),
            w.spec_name() == (match name {
                Some(n) => Some(n@),
                None => None::<Seq<char>>,
            }),
            w.movements@.len() == 0,
            w.rep_types@.len() == 0,
            w.weights@.len() == 0,
            w.x is None,
            w.at is None,
            w.plus is None,
            w.rm is None,
            w.workout_type matches WorkoutType::ForTime(ft) && ft.rounds == 1 && ft.name@ == "ft"@,
    {
        let mut w = Workout::default();
        w.tokens = tokens;
        w.comments = comments;
        w.name = name;
        w
    }

    /// Routes every retained token into its bucket, appending to whatever
    /// the buckets already hold; the kind becomes the last one named among
    /// the tokens, and the tokens themselves stay unchanged.
    pub fn parse(&mut self)
        ensures
            final(self).spec_tokens() == old(self).spec_tokens(),
            final(self).spec_comments() == old(self).spec_comments(),
            final(self).spec_name() == old(self).spec_name(),
            final(self).movements@ == old(self).movements@ + movements_of(old(self).spec_tokens()),
            final(self).rep_types@ == old(self).rep_types@ + rep_types_of(old(self).spec_tokens()),
            final(self).weights@ == old(self).weights@ + weights_of(old(self).spec_tokens()),
            opt_tokens_seq(final(self).x) == opt_tokens_seq(old(self).x) + Seq::new(
                x_count(old(self).spec_tokens()),
                |i: int| Token::X,
            ),
            (final(self).x is None <==> (old(self).x is None && x_count(old(self).spec_tokens())
                == 0)),
            opt_tokens_seq(final(self).at) == opt_tokens_seq(old(self).at) + Seq::new(
                at_count(old(self).spec_tokens()),
                |i: int| Token::At,
            ),
            (final(self).at is None <==> (old(self).at is None && at_count(old(self).spec_tokens())
                == 0)),
            opt_tokens_seq(final(self).plus) == opt_tokens_seq(old(self).plus) + Seq::new(
                plus_count(old(self).spec_tokens()),
                |i: int| Token::Plus,
            ),
            (final(self).plus is None <==> (old(self).plus is None && plus_count(
                old(self).spec_tokens(),
            ) == 0)),
            opt_rms_seq(final(self).rm) == opt_rms_seq(old(self).rm) + rms_of(
                old(self).spec_tokens(),
            ),
            (final(self).rm is None <==> (old(self).rm is None && rms_of(old(self).spec_tokens())
                .len() == 0)),
            (if workout_types_of(old(self).spec_tokens()).len() > 0 {
                final(self).workout_type == workout_types_of(old(self).spec_tokens()).last()
            } else {
                final(self).workout_type == old(self).workout_type
            }),
    {
        let ghost toks = self.tokens@;
        let n = self.tokens.len();
        let mut movs: Vec<Movement> = Vec::new();
        let mut reps: Vec<RepType> = Vec::new();
        let mut wts: Vec<Weight> = Vec::new();
        let mut xs: Vec<Token> = Vec::new();
        let mut ats: Vec<Token> = Vec::new();
        let mut pluses: Vec<Token> = Vec::new();
        let mut rms_v: Vec<RM> = Vec::new();
        let mut wt_opt: Option<WorkoutType> = None;
        let mut i: usize = 0;
        while i < n
            invariant
                n == self.tokens@.len(),
                toks == self.tokens@,
                i <= n,
                movs@ == movements_of(toks.take(i as int)),
                reps@ == rep_types_of(toks.take(i as int)),
                wts@ == weights_of(toks.take(i as int)),
                xs@.len() == x_count(toks.take(i as int)),
                forall|k: int| 0 <= k < xs@.len() ==> xs@[k] == Token::X,
                ats@.len() == at_count(toks.take(i as int)),
                forall|k: int| 0 <= k < ats@.len() ==> ats@[k] == Token::At,
                pluses@.len() == plus_count(toks.take(i as int)),
                forall|k: int| 0 <= k < pluses@.len() ==> pluses@[k] == Token::Plus,
                rms_v@ == rms_of(toks.take(i as int)),
                (match wt_opt {
                    Some(w) => workout_types_of(toks.take(i as int)).len() > 0 && w
                        == workout_types_of(toks.take(i as int)).last(),
                    None => workout_types_of(toks.take(i as int)).len() == 0,
                }),
            decreases n - i,
        {
            proof {
                assert(toks.take(i + 1 as int).drop_last() =~= toks.take(i as int));
                assert(toks.take(i + 1 as int).last() == toks[i as int]);
            }
            let t = &self.tokens[i];
            match t {
                Token::WorkoutType(wt) => {
                    wt_opt = Some(clone_workout_type(wt));
                },
                Token::Movement(m) => {
                    movs.push(*m);
                },
                Token::RepType(rt) => {
                    reps.push(clone_rep_type(rt));
                },
                Token::Weight(w) => {
                    wts.push(clone_weight(w));
                },
                Token::X => {
                    xs.push(Token::X);
                },
                Token::At => {
                    ats.push(Token::At);
                },
                Token::Plus => {
                    pluses.push(Token::Plus);
                },
                Token::RM(rm) => {
                    rms_v.push(RM { num: rm.num });
                },
            }
            i = i + 1;
        }
        proof {
            assert(toks.take(n as int) =~= toks);
            assert(xs@ =~= Seq::new(x_count(toks), |k: int| Token::X));
            assert(ats@ =~= Seq::new(at_count(toks), |k: int| Token::At));
            assert(pluses@ =~= Seq::new(plus_count(toks), |k: int| Token::Plus));
        }
        self.movements.append(&mut movs);
        self.rep_types.append(&mut reps);
        self.weights.append(&mut wts);
        if xs.len() > 0 {
            let mut cur = match self.x.take() {
                Some(v) => v,
                None => Vec::new(),
            };
            cur.append(&mut xs);
            self.x = Some(cur);
        }
        if ats.len() > 0 {
            let mut cur = match self.at.take() {
                Some(v) => v,
                None => Vec::new(),
            };
            cur.append(&mut ats);
            self.at = Some(cur);
        }
        if pluses.len() > 0 {
            let mut cur = match self.plus.take() {
                Some(v) => v,
                None => Vec::new(),
            };
            cur.append(&mut pluses);
            self.plus = Some(cur);
        }
        if rms_v.len() > 0 {
            let mut cur = match self.rm.take() {
                Some(v) => v,
                None => Vec::new(),
            };
            cur.append(&mut rms_v);
            self.rm = Some(cur);
        }
        match wt_opt {
            Some(w) => {
                self.workout_type = w;
            },
            None => {},
        }
    }
}


/// Whether two adjacent measures occur among the tokens.
fn has_adjacent_reps_exec(tokens: &Vec<Token>) -> (r: bool)
    ensures
        r == has_adjacent_rep_types(tokens@),
{
    let n = tokens.len();
    if n < 2 {
        return false;
    }
    let mut i: usize = 0;
    while i < n - 1
        invariant
            n == tokens@.len(),
            2 <= n,
            i <= n - 1,
            forall|k: int| 0 <= k < i ==> !((#[trigger] tokens@[k]) is RepType && tokens@[k + 1] is RepType),
        decreases n - i,
    {
        let a = matches!(&tokens[i], Token::RepType(_));
        let b = matches!(&tokens[i + 1], Token::RepType(_));
        if a && b {
            proof {
                assert(tokens@[i as int] is RepType && tokens@[i + 1] is RepType);
            }
            return true;
        }
        i = i + 1;
    }
    false
}

impl Workout {
    /// Renders the measures joined by the separator.
    fn join_rep_texts(&self, sep: &str) -> (r: String)
        ensures
            r@ == join_sep(rep_texts(self.rep_types@), sep@),
    {
        let mut s = String::new();
        let n = self.rep_types.len();
        let mut j: usize = 0;
        proof {
            assert(rep_texts(self.rep_types@).take(0) =~= Seq::<Seq<char>>::empty());
        }
        while j < n
            invariant
                n == self.rep_types@.len(),
                j <= n,
                s@ == join_sep(rep_texts(self.rep_types@).take(j as int), sep@),
            decreases n - j,
        {
            let ghost texts = rep_texts(self.rep_types@);
            proof {
                assert(texts.take(j + 1 as int) =~= texts.take(j as int).push(texts[j as int]));
                lemma_join_sep_push(texts.take(j as int), texts[j as int], sep@);
            }
            if j > 0 {
                s.append(sep);
            }
            let t = self.rep_types[j].render();
            s.append(t.as_str());
            j = j + 1;
        }
        proof {
            assert(rep_texts(self.rep_types@).take(n as int) =~= rep_texts(self.rep_types@));
        }
        s
    }

    /// Renders the movements joined by ` + `.
    fn join_movement_texts(&self) -> (r: String)
        ensures
            r@ == join_sep(movement_texts(self.movements@), " + "@),
    {
        let mut s = String::new();
        let n = self.movements.len();
        let mut j: usize = 0;
        proof {
            assert(movement_texts(self.movements@).take(0) =~= Seq::<Seq<char>>::empty());
        }
        while j < n
            invariant
                n == self.movements@.len(),
                j <= n,
                s@ == join_sep(movement_texts(self.movements@).take(j as int), " + "@),
            decreases n - j,
        {
            let ghost texts = movement_texts(self.movements@);
            proof {
                assert(texts.take(j + 1 as int) =~= texts.take(j as int).push(texts[j as int]));
                lemma_join_sep_push(texts.take(j as int), texts[j as int], " + "@);
            }
            if j > 0 {
                s.append(" + ");
            }
            let t = self.movements[j].render();
            s.append(t.as_str());
            j = j + 1;
        }
        proof {
            assert(movement_texts(self.movements@).take(n as int) =~= movement_texts(
                self.movements@,
            ));
        }
        s
    }

    /// Renders the general token walk from position one on.
    fn render_walk(&self) -> (r: String)
        ensures
            r@ == token_walk(self.spec_tokens(), 1, true),
    {
        let ghost toks = self.spec_tokens();
        let n = self.tokens.len();
        let mut s = String::new();
        let mut first_rep = true;
        let mut i: usize = 1;
        while i < n
            invariant
                n == toks.len(),
                toks == self.spec_tokens(),
                1 <= i,
                i <= n || i == 1,
                token_walk(toks, 1, true) == s@ + token_walk(toks, i as int, first_rep),
            decreases n - i,
        {
            let ghost pre = s@;
            let ghost rest = token_walk(toks, i + 1, false);
            match &self.tokens[i] {
                Token::RepType(rt) => {
                    if first_rep {
                        s.append("- ");
                        first_rep = false;
                    } else {
                        s.append("\n\n- ");
                        first_rep = false;
                    }
                    let t = rt.render();
                    s.append(t.as_str());
                    s.append(" ");
                },
                Token::Movement(m) => {
                    let t = m.render();
                    s.append(t.as_str());
                },
                Token::Weight(w) => {
                    s.append(" At ");
                    let t = w.render();
                    s.append(t.as_str());
                },
                _ => {},
            }
            proof {
                assert(token_walk(toks, 1, true) =~= s@ + token_walk(toks, i + 1, first_rep));
            }
            i = i + 1;
        }
        s.append("\n\n");
        proof {
            assert(token_walk(toks, 1, true) =~= s@);
        }
        s
    }

    /// Renders the shared-scheme walk over all tokens.
    fn render_shared_walk(&self) -> (r: String)
        ensures
            r@ == ft_shared_walk(self.spec_tokens(), 0, false),
    {
        let ghost toks = self.spec_tokens();
        let n = self.tokens.len();
        let mut s = String::new();
        let mut was_movement = false;
        let mut i: usize = 0;
        while i < n
            invariant
                n == toks.len(),
                toks == self.spec_tokens(),
                i <= n,
                ft_shared_walk(toks, 0, false) == s@ + ft_shared_walk(
                    toks,
                    i as int,
                    was_movement,
                ),
            decreases n - i,
        {
            match &self.tokens[i] {
                Token::Movement(m) => {
                    if was_movement {
                        s.append("\n\n");
                    }
                    s.append("- ");
                    let t = m.render();
                    s.append(t.as_str());
                    was_movement = true;
                },
                Token::Weight(w) => {
                    s.append(" At ");
                    let t = w.render();
                    s.append(t.as_str());
                    s.append("\n\n");
                    was_movement = false;
                },
                _ => {},
            }
            proof {
                assert(ft_shared_walk(toks, 0, false) =~= s@ + ft_shared_walk(
                    toks,
                    i + 1,
                    was_movement,
                ));
            }
            i = i + 1;
        }
        if was_movement {
            s.append("\n\n");
        }
        proof {
            assert(ft_shared_walk(toks, 0, false) =~= s@);
        }
        s
    }

    /// Renders the body of a timed-rounds workout.
    fn render_for_time(&self) -> (r: String)
        ensures
            r@ == self.for_time_text(),
    {
        if has_adjacent_reps_exec(&self.tokens) {
            let mut s = self.join_rep_texts("-");
            s.append("\n\n");
            let w = self.render_shared_walk();
            s.append(w.as_str());
            proof {
                assert(s@ =~= self.for_time_text());
            }
            s
        } else {
            self.render_walk()
        }
    }

    /// Renders the body of a weightlifting workout.
    fn render_weightlifting(&self) -> (r: String)
        requires
            self.weights@.len() >= 1,
        ensures
            r@ == self.weightlifting_text(),
    {
        let mut s: String;
        if self.plus.is_none() {
            s = self.join_rep_texts("x");
            s.append(" ");
        } else if self.x.is_none() {
            s = self.join_rep_texts("+");
            s.append(" ");
        } else if self.rep_types.len() == 0 {
            s = String::from_str(") ");
        } else {
            let ghost texts = rep_texts(self.rep_types@);
            s = self.rep_types[0].render();
            s.append("x(");
            let ghost mut mid: Seq<char> = Seq::empty();
            proof {
                assert(s@ =~= texts[0] + "x("@ + mid);
                assert(hybrid_mid(texts, 1) =~= mid + hybrid_mid(texts, 1));
            }
            let n = self.rep_types.len();
            let mut j: usize = 1;
            while j < n
                invariant
                    n == self.rep_types@.len(),
                    texts == rep_texts(self.rep_types@),
                    1 <= j <= n,
                    s@ == texts[0] + "x("@ + mid,
                    hybrid_mid(texts, 1) == mid + hybrid_mid(texts, j as int),
                decreases n - j,
            {
                let t = self.rep_types[j].render();
                s.append(t.as_str());
                if j != n - 1 {
                    s.append("+");
                    proof {
                        mid = mid + texts[j as int] + "+"@;
                    }
                } else {
                    proof {
                        mid = mid + texts[j as int];
                    }
                }
                proof {
                    assert(s@ =~= texts[0] + "x("@ + mid);
                    assert(hybrid_mid(texts, 1) =~= mid + hybrid_mid(texts, j + 1));
                }
                j = j + 1;
            }
            s.append(") ");
            proof {
                assert(hybrid_mid(texts, n as int) =~= Seq::<char>::empty());
                assert(hybrid_mid(texts, 1) =~= mid);
                assert(s@ =~= texts[0] + "x("@ + hybrid_mid(texts, 1) + ") "@);
                assert(texts[0] == self.rep_types@[0].text());
            }
        }
        let ms = self.join_movement_texts();
        s.append(ms.as_str());
        s.append(" @ ");
        let wt = self.weights[0].render();
        s.append(wt.as_str());
        s.append("\n\n");
        proof {
            assert(s@ =~= self.weightlifting_text());
        }
        s
    }

    /// Renders the comment block.
    fn render_comments(c: &String) -> (r: String)
        ensures
            r@ == comments_text(c@),
    {
        let v = crate::text::chars_of(c.as_str());
        let n = v.len();
        proof {
            assert(v@.subrange(0, n as int) =~= c@);
        }
        let spans = split_spans(&v, 0, n, '\n');
        let ghost parts = split_char(c@, '\n');
        let ghost mapped = parts.map_values(|p: Seq<char>| "*"@ + p + "*"@);
        let mut s = String::from_str("Comments: ");
        let mut k: usize = 0;
        proof {
            assert(mapped.take(0) =~= Seq::<Seq<char>>::empty());
        }
        while k < spans.len()
            invariant
                n == v@.len(),
                v@.subrange(0, n as int) == c@,
                parts == split_char(c@, '\n'),
                mapped == parts.map_values(|p: Seq<char>| "*"@ + p + "*"@),
                spans@.len() == parts.len(),
                forall|t: int|
                    0 <= t < spans@.len() ==> 0 <= #[trigger] spans@[t].0 <= spans@[t].1 <= n
                        && v@.subrange(spans@[t].0 as int, spans@[t].1 as int) == parts[t],
                k <= spans@.len(),
                s@ == "Comments: "@ + join_sep(mapped.take(k as int), "\n"@),
            decreases spans@.len() - k,
        {
            proof {
                assert(mapped.take(k + 1 as int) =~= mapped.take(k as int).push(
                    mapped[k as int],
                ));
                lemma_join_sep_push(mapped.take(k as int), mapped[k as int], "\n"@);
            }
            if k > 0 {
                s.append("\n");
            }
            s.append("*");
            let part = string_from_chars(&v, spans[k].0, spans[k].1);
            s.append(part.as_str());
            s.append("*");
            proof {
                assert(s@ =~= "Comments: "@ + join_sep(mapped.take(k + 1 as int), "\n"@));
            }
            k = k + 1;
        }
        proof {
            assert(mapped.take(spans@.len() as int) =~= mapped);
        }
        s.append("\n\n");
        s
    }

    /// Formats the workout into its prose: the section separator, the
    /// italic name if one was given, the bolded kind header, the body of
    /// the kind, and the comment block last.
    #[verifier::rlimit(100)]
    pub fn write(&self) -> (r: String)
        requires
            self.workout_type matches WorkoutType::Weightlifting ==> self.weights@.len() >= 1,
        ensures
            r@ == self.render_text(),
    {
        let mut out = String::from_str("---");
        match &self.name {
            Some(n) => {
                out.append("\n\n*");
                out.append(n.as_str());
                out.append("*");
            },
            None => {},
        }
        match &self.workout_type {
            WorkoutType::ForTime(_) => {
                out.append("\n\n**");
                let h = self.workout_type.render();
                out.append(h.as_str());
                out.append("**\n\n");
                let b = self.render_for_time();
                out.append(b.as_str());
            },
            WorkoutType::Weightlifting => {
                out.append("\n\n**");
                let h = self.workout_type.render();
                out.append(h.as_str());
                out.append("**\n\n");
                let b = self.render_weightlifting();
                out.append(b.as_str());
            },
            WorkoutType::EMOM(e) => {
                out.append("\n\n**");
                let h = e.render_header();
                out.append(h.as_str());
                out.append("**");
                let cl = e.render_clauses();
                out.append(cl.as_str());
                out.append("\n\n");
                let b = self.render_walk();
                out.append(b.as_str());
            },
            WorkoutType::AMRAP(_) => {},
        }
        match &self.comments {
            Some(c) => {
                let cm = Workout::render_comments(c);
                out.append(cm.as_str());
            },
            None => {},
        }
        proof {
            assert(out@ =~= self.render_text());
        }
        out
    }
}

/// Builds a workout from a notation string: the string is tokenized, the
/// tokens are kept raw and bucketed, and the optional comments and name
/// are attached.
pub fn create_workout(workout: &str, comments: Option<String>, name: Option<String>) -> (r: Result<
    Workout,
    LexerError,
>)
    ensures
        match r {
            Ok(w) => {
                &&& lex_spec(workout@) matches Ok(tvs) && views_of(w.spec_tokens()) == tvs
                &&& w.parsed()
                &&& w.spec_comments() == (match comments {
                    Some(c) => Some(c@),
                    None => None::<Seq<char>>,
                })
                &&& w.spec_name() == (match name {
                    Some(n) => Some(n@),
                    None => None::<Seq<char>>,
                })
            },
            Err(e) => lex_spec(workout@) matches Err(ev) && lex_err_matches(ev, e),
        },
{
    let mut lexer = Lexer::new(workout);
    match lexer.tokenize() {
        Ok(tokens) => {
            let mut w = Workout::new(tokens, comments, name);
            w.parse();
            proof {
                assert(w.movements@ =~= movements_of(w.spec_tokens()));
                assert(w.rep_types@ =~= rep_types_of(w.spec_tokens()));
                assert(w.weights@ =~= weights_of(w.spec_tokens()));
                assert(opt_rms_seq(w.rm) =~= rms_of(w.spec_tokens()));
                assert(opt_tokens_seq(w.x) =~= Seq::new(
                    x_count(w.spec_tokens()),
                    |i: int| Token::X,
                ));
                assert(opt_tokens_seq(w.at) =~= Seq::new(
                    at_count(w.spec_tokens()),
                    |i: int| Token::At,
                ));
                assert(opt_tokens_seq(w.plus) =~= Seq::new(
                    plus_count(w.spec_tokens()),
                    |i: int| Token::Plus,
                ));
                assert(w.parsed());
            }
            Ok(w)
        },
        Err(e) => Err(e),
    }
}

} // verus!
