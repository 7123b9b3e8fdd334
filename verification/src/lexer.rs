//! The notation lexer: one left-to-right scan over the input. The first
//! word is the workout kind; after it, digit-led runs become measures,
//! weights, set markers or repetition maxima, letter-led runs become
//! movements, `@` becomes a marker of its own, and other characters are
//! skipped. The notation is ASCII.

use vstd::prelude::*;
use crate::gender::{split_ok, split_men_val, split_women_val, split_unit};
use crate::movement::{Movement, movement_lookup, normalized, suggestion_of};
use crate::rep_types::rep_type::{RepType, RepTypeV, rep_type_ok, rep_type_v, lemma_rep_type_view};
use crate::rep_types::rest_period::{RestPeriod, rest_period_ok};
use crate::rm::{RM, RMV, rm_ok};
use crate::text::{
    contains_seq, contains_sub, contains_char, chars_of, digits_of, digits_val, is_alpha,
    is_digit, is_space, lower_char, split_char, split_spans, starts_with, span_starts_with,
    string_from_chars, trim, trim_span,
};
use crate::weight::{Weight, WeightV};
use crate::workout_types::workout_type::{
    WorkoutType, WorkoutTypeV, workout_type_ok, workout_type_v, lemma_workout_type_view,
};
use vstd::string::StringExecFns;

verus! {

/// A lexical unit of the notation.
#[derive(Debug, PartialEq, Eq, Clone)]
pub enum Token {
    /// The workout kind named by the first word.
    WorkoutType(WorkoutType),
    /// A measure: repetitions, distance, calories, time, rest, max effort.
    RepType(RepType),
    /// A movement resolved through the catalog.
    Movement(Movement),
    /// The set marker `x` of a scheme such as `5x5`.
    X,
    /// The `@` marker before a weight.
    At,
    /// The `+` marker of a scheme such as `3x(1+1)`.
    Plus,
    /// A repetition maximum such as `1rm`.
    RM(RM),
    /// A weight such as `60kg`, `60/40kg` or `70%`.
    Weight(Weight),
}

/// The mathematical content of a token.
pub ghost enum TokenV {
    WorkoutType(WorkoutTypeV),
    RepType(RepTypeV),
    Movement(Movement),
    X,
    At,
    Plus,
    RM(RMV),
    Weight(WeightV),
}

impl View for Token {
    type V = TokenV;

    open spec fn view(&self) -> TokenV {
        match self {
            Token::WorkoutType(wt) => TokenV::WorkoutType(wt@),
            Token::RepType(rt) => TokenV::RepType(rt@),
            Token::Movement(m) => TokenV::Movement(*m),
            Token::X => TokenV::X,
            Token::At => TokenV::At,
            Token::Plus => TokenV::Plus,
            Token::RM(rm) => TokenV::RM(rm@),
            Token::Weight(w) => TokenV::Weight(w@),
        }
    }
}

/// What the lexer rejected: the kind of sub-parser that failed, and for a
/// movement the offending text.
pub ghost enum LexErrV {
    InvalidWorkoutType,
    InvalidWeight,
    InvalidRepType,
    InvalidRM,
    InvalidMovement(Seq<char>),
}

/// Why tokenization failed, with the failing sub-parser's message.
#[derive(Debug, PartialEq, Eq, Clone)]
pub enum LexerError {
    /// The first word is no workout kind.
    InvalidWorkoutType(String),
    /// A weight did not parse.
    InvalidWeight(String),
    /// A measure did not parse.
    InvalidRepType(String),
    /// A repetition maximum did not parse.
    InvalidRM(String),
    /// A movement is not in the catalog; the message carries the nearest
    /// entry as a suggestion.
    InvalidMovement(String),
}

/// The message of a movement failure: it names the text and the nearest
/// catalog entry.
pub open spec fn movement_error_message(t: Seq<char>) -> Seq<char> {
    "Invalid movement: `"@ + t + "`, did you mean: `"@ + suggestion_of(normalized(t)) + "`?"@
}

/// The error value corresponds to the model: same kind, and for a movement
/// failure the message the catalog produces.
pub open spec fn lex_err_matches(ev: LexErrV, e: LexerError) -> bool {
    match ev {
        LexErrV::InvalidWorkoutType => e is InvalidWorkoutType,
        LexErrV::InvalidWeight => e is InvalidWeight,
        LexErrV::InvalidRepType => e is InvalidRepType,
        LexErrV::InvalidRM => e is InvalidRM,
        LexErrV::InvalidMovement(t) => e matches LexerError::InvalidMovement(m) && m@
            == movement_error_message(t),
    }
}

impl LexerError {
    /// The rendered message of the failure.
    pub open spec fn message_text(&self) -> Seq<char> {
        match self {
            LexerError::InvalidWorkoutType(s) => "Invalid WorkoutType: "@ + s@,
            LexerError::InvalidWeight(s) => "Invalid Weight: "@ + s@,
            LexerError::InvalidRepType(s) => "Invalid RepType: "@ + s@,
            LexerError::InvalidRM(s) => "Invalid RM: "@ + s@,
            LexerError::InvalidMovement(s) => "Invalid Movement: "@ + s@,
        }
    }

    /// Renders the failure message.
    pub fn message(&self) -> (r: String)
        ensures
            r@ == self.message_text(),
    {
        match self {
            LexerError::InvalidWorkoutType(s) => {
                let mut m = String::from_str("Invalid WorkoutType: ");
                m.append(s.as_str());
                m
            },
            LexerError::InvalidWeight(s) => {
                let mut m = String::from_str("Invalid Weight: ");
                m.append(s.as_str());
                m
            },
            LexerError::InvalidRepType(s) => {
                let mut m = String::from_str("Invalid RepType: ");
                m.append(s.as_str());
                m
            },
            LexerError::InvalidRM(s) => {
                let mut m = String::from_str("Invalid RM: ");
                m.append(s.as_str());
                m
            },
            LexerError::InvalidMovement(s) => {
                let mut m = String::from_str("Invalid Movement: ");
                m.append(s.as_str());
                m
            },
        }
    }
}

/// A character the number-scheme capture accepts: a digit or one of the
/// symbols used across the measure, weight and maximum grammars.
pub open spec fn is_num_char(c: char) -> bool {
    is_digit(c) || {
        let l = lower_char(c);
        l == '-' || l == '+' || l == '(' || l == ')' || l == 'x' || l == '/' || l == 'k' || l
            == 'g' || l == '%' || l == 'r' || l == 'm' || l == 'i' || l == 'l' || l == 'e' || l
            == 'c' || l == 'a' || l == 's'
    }
}

/// A character of the workout-kind word: alphanumeric or the hyphen of its
/// sub-grammar.
pub open spec fn is_wt_char(c: char) -> bool {
    is_digit(c) || is_alpha(c) || c == '-'
}

/// A character of a movement run: alphanumeric or a space.
pub open spec fn is_mov_char(c: char) -> bool {
    is_digit(c) || is_alpha(c) || c == ' '
}

/// The end of the workout-kind run starting at `i`.
pub open spec fn wt_run_end(s: Seq<char>, i: int) -> int
    decreases s.len() - i when 0 <= i <= s.len()
{
    if i >= s.len() || !is_wt_char(s[i]) {
        i
    } else {
        wt_run_end(s, i + 1)
    }
}

/// The end of the number-scheme run starting at `i`.
pub open spec fn num_run_end(s: Seq<char>, i: int) -> int
    decreases s.len() - i when 0 <= i <= s.len()
{
    if i >= s.len() || !is_num_char(s[i]) {
        i
    } else {
        num_run_end(s, i + 1)
    }
}

/// The end of the movement run starting at `i`.
pub open spec fn mov_run_end(s: Seq<char>, i: int) -> int
    decreases s.len() - i when 0 <= i <= s.len()
{
    if i >= s.len() || !is_mov_char(s[i]) {
        i
    } else {
        mov_run_end(s, i + 1)
    }
}

/// The run ends lie between their start and the end of the input.
pub proof fn lemma_run_end_bounds(s: Seq<char>, i: int)
    requires
        0 <= i <= s.len(),
    ensures
        i <= wt_run_end(s, i) <= s.len(),
        i <= num_run_end(s, i) <= s.len(),
        i <= mov_run_end(s, i) <= s.len(),
    decreases s.len() - i,
{
    if i < s.len() {
        lemma_run_end_bounds(s, i + 1);
    }
}

/// The weight a well-formed gender-split string parses to.
pub open spec fn weight_v(s: Seq<char>) -> WeightV {
    WeightV { man: split_men_val(s), woman: split_women_val(s), unit: split_unit(s) }
}

/// Flushing the number buffer of the set-scheme scan: an empty buffer adds
/// nothing, any other buffer must parse as a measure.
pub open spec fn xflush(acc: Seq<TokenV>, buf: Seq<char>) -> Result<Seq<TokenV>, LexErrV> {
    if buf.len() == 0 {
        Ok(acc)
    } else if rep_type_ok(buf) {
        Ok(acc.push(TokenV::RepType(rep_type_v(buf))))
    } else {
        Err(LexErrV::InvalidRepType)
    }
}

/// The set-scheme scan over a run containing `x`: buffers flush at the
/// separators, `x` and `+` leave markers, parentheses are structural only.
pub open spec fn xscan(run: Seq<char>, i: int, buf: Seq<char>, acc: Seq<TokenV>) -> Result<
    Seq<TokenV>,
    LexErrV,
>
    decreases run.len() - i when 0 <= i <= run.len()
{
    if i >= run.len() {
        xflush(acc, buf)
    } else if run[i] == 'x' {
        match xflush(acc, buf) {
            Ok(a) => xscan(run, i + 1, Seq::empty(), a.push(TokenV::X)),
            Err(e) => Err(e),
        }
    } else if run[i] == '+' {
        match xflush(acc, buf) {
            Ok(a) => xscan(run, i + 1, Seq::empty(), a.push(TokenV::Plus)),
            Err(e) => Err(e),
        }
    } else if run[i] == '(' || run[i] == ')' {
        match xflush(acc, buf) {
            Ok(a) => xscan(run, i + 1, Seq::empty(), a),
            Err(e) => Err(e),
        }
    } else {
        xscan(run, i + 1, buf.push(run[i]), acc)
    }
}

/// The measures of a hyphen-separated repetition scheme such as `21-15-9`,
/// one per part.
pub open spec fn reps_tokens(parts: Seq<Seq<char>>, k: int) -> Result<Seq<TokenV>, LexErrV>
    decreases parts.len() - k when 0 <= k <= parts.len()
{
    if k >= parts.len() {
        Ok(Seq::empty())
    } else if rep_type_ok(parts[k]) {
        match reps_tokens(parts, k + 1) {
            Ok(r) => Ok(seq![TokenV::RepType(rep_type_v(parts[k]))] + r),
            Err(e) => Err(e),
        }
    } else {
        Err(LexErrV::InvalidRepType)
    }
}

/// What a digit-led run becomes: a set scheme when it contains `x`, a
/// weight on a weight unit, a maximum on `rm`, a time on `sec`/`min`, one
/// measure on any other unit letter, and otherwise one repetition count per
/// hyphen-separated part.
pub open spec fn classify_numeric(run: Seq<char>) -> Result<Seq<TokenV>, LexErrV> {
    if run.contains('x') {
        xscan(run, 0, Seq::empty(), Seq::empty())
    } else if contains_seq(run, "kg"@) || run.contains('%') {
        if split_ok(run) {
            Ok(seq![TokenV::Weight(weight_v(run))])
        } else {
            Err(LexErrV::InvalidWeight)
        }
    } else if contains_seq(run, "rm"@) {
        if rm_ok(run) {
            Ok(seq![TokenV::RM(RMV { num: digits_val(digits_of(run)) })])
        } else {
            Err(LexErrV::InvalidRM)
        }
    } else if contains_seq(run, "sec"@) || contains_seq(run, "min"@) {
        if rep_type_ok(run) {
            Ok(seq![TokenV::RepType(rep_type_v(run))])
        } else {
            Err(LexErrV::InvalidRepType)
        }
    } else if run.contains('m') || run.contains('i') || run.contains('l') || run.contains('e')
        || run.contains('a') {
        if rep_type_ok(run) {
            Ok(seq![TokenV::RepType(rep_type_v(run))])
        } else {
            Err(LexErrV::InvalidRepType)
        }
    } else {
        reps_tokens(split_char(run, '-'), 0)
    }
}

/// A trimmed movement run that opens with the rest marker and parses as a
/// rest period.
pub open spec fn is_rest_run(t: Seq<char>) -> bool {
    t.len() > 0 && t[0] == 'r' && rest_period_ok(t)
}

/// What a letter-led run becomes, after trimming: a leading max-effort
/// keyword leaves a measure and is stripped; a rest period leaves its
/// measure and the placeholder movement text; what remains resolves through
/// the catalog.
pub open spec fn alpha_tokens(t: Seq<char>) -> Result<Seq<TokenV>, LexErrV> {
    let pre: Seq<TokenV> = if starts_with(t, "max"@) {
        seq![TokenV::RepType(RepTypeV::Max)]
    } else {
        Seq::empty()
    };
    let t2: Seq<char> = if starts_with(t, "max "@) {
        t.skip(4)
    } else {
        t
    };
    let pre2: Seq<TokenV> = if is_rest_run(t2) {
        pre.push(
            TokenV::RepType(
                RepTypeV::RestPeriod(
                    crate::rep_types::rest_period::RestPeriodV {
                        duration: digits_val(digits_of(t2)),
                        unit: crate::text::non_digits_non_r_of(t2),
                    },
                ),
            ),
        )
    } else {
        pre
    };
    let t3: Seq<char> = if is_rest_run(t2) {
        "rest"@
    } else {
        t2
    };
    if t3.len() == 0 {
        Ok(pre2)
    } else {
        match movement_lookup(normalized(t3), 0) {
            Some(m) => Ok(pre2.push(TokenV::Movement(m))),
            None => Err(LexErrV::InvalidMovement(t3)),
        }
    }
}

/// The token stream of the input from position `i` on. The flag says
/// whether the workout-kind word is still to come.
pub open spec fn lex_from(s: Seq<char>, i: int, first: bool) -> Result<Seq<TokenV>, LexErrV>
    decreases s.len() - i when 0 <= i <= s.len()
{
    if i >= s.len() {
        Ok(Seq::empty())
    } else if is_space(s[i]) {
        lex_from(s, i + 1, first)
    } else if first {
        let e = wt_run_end(s, i);
        if i < e <= s.len() && workout_type_ok(s.subrange(i, e)) {
            match lex_from(s, e, false) {
                Ok(rest) => Ok(seq![TokenV::WorkoutType(workout_type_v(s.subrange(i, e)))] + rest),
                Err(er) => Err(er),
            }
        } else {
            Err(LexErrV::InvalidWorkoutType)
        }
    } else if s[i] == '@' {
        match lex_from(s, i + 1, false) {
            Ok(rest) => Ok(seq![TokenV::At] + rest),
            Err(er) => Err(er),
        }
    } else if is_digit(s[i]) {
        let e = num_run_end(s, i);
        if i < e <= s.len() {
            match classify_numeric(s.subrange(i, e)) {
                Ok(toks) => match lex_from(s, e, false) {
                    Ok(rest) => Ok(toks + rest),
                    Err(er) => Err(er),
                },
                Err(er) => Err(er),
            }
        } else {
            Err(LexErrV::InvalidRepType)
        }
    } else if is_alpha(s[i]) {
        let e = mov_run_end(s, i);
        if i < e <= s.len() {
            match alpha_tokens(trim(s.subrange(i, e))) {
                Ok(toks) => match lex_from(s, e, false) {
                    Ok(rest) => Ok(toks + rest),
                    Err(er) => Err(er),
                },
                Err(er) => Err(er),
            }
        } else {
            Err(LexErrV::InvalidMovement(Seq::empty()))
        }
    } else {
        lex_from(s, i + 1, false)
    }
}

/// The token stream of a whole notation string, or the first failure.
pub open spec fn lex_spec(s: Seq<char>) -> Result<Seq<TokenV>, LexErrV> {
    lex_from(s, 0, true)
}

/// The contents of the tokens, in order.
pub open spec fn views_of(ts: Seq<Token>) -> Seq<TokenV> {
    ts.map_values(|t: Token| t@)
}

/// Appending a token appends its content.
proof fn lemma_views_of_push(ts: Seq<Token>, t: Token)
    ensures
        views_of(ts.push(t)) == views_of(ts).push(t@),
{
    assert(views_of(ts.push(t)) =~= views_of(ts).push(t@));
}

/// The end of the workout-kind run starting at `from`.
fn wt_run_end_exec(v: &Vec<char>, from: usize) -> (r: usize)
    requires
        from <= v@.len(),
    ensures
        from <= r <= v@.len(),
        r as int == wt_run_end(v@, from as int),
{
    let n = v.len();
    let mut i: usize = from;
    let mut done = false;
    while !done && i < n
        invariant
            from <= i <= n == v@.len(),
            wt_run_end(v@, from as int) == wt_run_end(v@, i as int),
            done ==> i < n && !is_wt_char(v@[i as int]),
        decreases n - i, (if done { 0int } else { 1int }),
    {
        let c = v[i];
        if ('0' <= c && c <= '9') || ('a' <= c && c <= 'z') || ('A' <= c && c <= 'Z') || c == '-' {
            i = i + 1;
        } else {
            done = true;
        }
    }
    i
}

/// The end of the number-scheme run starting at `from`.
fn num_run_end_exec(v: &Vec<char>, from: usize) -> (r: usize)
    requires
        from <= v@.len(),
    ensures
        from <= r <= v@.len(),
        r as int == num_run_end(v@, from as int),
{
    let n = v.len();
    let mut i: usize = from;
    let mut done = false;
    while !done && i < n
        invariant
            from <= i <= n == v@.len(),
            num_run_end(v@, from as int) == num_run_end(v@, i as int),
            done ==> i < n && !is_num_char(v@[i as int]),
        decreases n - i, (if done { 0int } else { 1int }),
    {
        let c = v[i];
        let l: char = if 'A' <= c && c <= 'Z' {
            ((c as u8) + 32) as char
        } else {
            c
        };
        if ('0' <= c && c <= '9') || l == '-' || l == '+' || l == '(' || l == ')' || l == 'x' || l
            == '/' || l == 'k' || l == 'g' || l == '%' || l == 'r' || l == 'm' || l == 'i' || l
            == 'l' || l == 'e' || l == 'c' || l == 'a' || l == 's' {
            i = i + 1;
        } else {
            done = true;
        }
    }
    i
}

/// The end of the movement run starting at `from`.
fn mov_run_end_exec(v: &Vec<char>, from: usize) -> (r: usize)
    requires
        from <= v@.len(),
    ensures
        from <= r <= v@.len(),
        r as int == mov_run_end(v@, from as int),
{
    let n = v.len();
    let mut i: usize = from;
    let mut done = false;
    while !done && i < n
        invariant
            from <= i <= n == v@.len(),
            mov_run_end(v@, from as int) == mov_run_end(v@, i as int),
            done ==> i < n && !is_mov_char(v@[i as int]),
        decreases n - i, (if done { 0int } else { 1int }),
    {
        let c = v[i];
        if ('0' <= c && c <= '9') || ('a' <= c && c <= 'z') || ('A' <= c && c <= 'Z') || c == ' ' {
            i = i + 1;
        } else {
            done = true;
        }
    }
    i
}

/// Flushes the number buffer of the set-scheme scan into the token list.
fn xflush_exec(buf: &Vec<char>, tokens: &mut Vec<Token>) -> (r: Result<(), LexerError>)
    ensures
        match r {
            Ok(_) => xflush(views_of(old(tokens)@), buf@) == Ok::<Seq<TokenV>, LexErrV>(views_of(final(tokens)@)),
            Err(e) => {
                &&& xflush(views_of(old(tokens)@), buf@) matches Err(ev) && lex_err_matches(ev, e)
                &&& final(tokens)@ == old(tokens)@
            },
        },
{
    if buf.len() == 0 {
        return Ok(());
    }
    let s = string_from_chars(buf, 0, buf.len());
    proof {
        assert(buf@.subrange(0, buf@.len() as int) =~= buf@);
    }
    match RepType::from_str(s.as_str()) {
        Ok(rt) => {
            proof {
                lemma_rep_type_view(buf@, rt);
                lemma_views_of_push(tokens@, Token::RepType(rt));
            }
            tokens.push(Token::RepType(rt));
            Ok(())
        },
        Err(e) => Err(LexerError::InvalidRepType(e)),
    }
}

/// Turns a digit-led run into its tokens.
fn lex_numeric(v: &Vec<char>, from: usize, to: usize) -> (r: Result<Vec<Token>, LexerError>)
    requires
        from <= to <= v@.len(),
    ensures
        match r {
            Ok(ts) => classify_numeric(v@.subrange(from as int, to as int)) == Ok::<Seq<TokenV>, LexErrV>(views_of(ts@)),
            Err(e) => classify_numeric(v@.subrange(from as int, to as int)) matches Err(ev)
                && lex_err_matches(ev, e),
        },
{
    let ghost run = v@.subrange(from as int, to as int);
    if contains_char(v, from, to, 'x') {
        let mut tokens: Vec<Token> = Vec::new();
        let mut buf: Vec<char> = Vec::new();
        let mut i: usize = from;
        proof {
            assert(views_of(Seq::<Token>::empty()) =~= Seq::<TokenV>::empty());
            assert(classify_numeric(run) == xscan(run, 0, Seq::empty(), Seq::empty()));
        }
        while i < to
            invariant
                from <= i <= to <= v@.len(),
                run == v@.subrange(from as int, to as int),
                run.contains('x'),
                classify_numeric(run) == xscan(run, i - from, buf@, views_of(tokens@)),
            decreases to - i,
        {
            let c = v[i];
            proof {
                assert(run[i - from] == c);
            }
            let ghost pre_views = views_of(tokens@);
            let ghost pre_buf = buf@;
            if c == 'x' {
                match xflush_exec(&buf, &mut tokens) {
                    Ok(_) => {},
                    Err(e) => {
                        proof {
                            assert(xscan(run, i - from, pre_buf, pre_views) == xflush(
                                pre_views,
                                pre_buf,
                            ));
                        }
                        return Err(e);
                    },
                }
                buf.clear();
                proof {
                    lemma_views_of_push(tokens@, Token::X);
                }
                tokens.push(Token::X);
            } else if c == '+' {
                match xflush_exec(&buf, &mut tokens) {
                    Ok(_) => {},
                    Err(e) => {
                        proof {
                            assert(xscan(run, i - from, pre_buf, pre_views) == xflush(
                                pre_views,
                                pre_buf,
                            ));
                        }
                        return Err(e);
                    },
                }
                buf.clear();
                proof {
                    lemma_views_of_push(tokens@, Token::Plus);
                }
                tokens.push(Token::Plus);
            } else if c == '(' || c == ')' {
                match xflush_exec(&buf, &mut tokens) {
                    Ok(_) => {},
                    Err(e) => {
                        proof {
                            assert(xscan(run, i - from, pre_buf, pre_views) == xflush(
                                pre_views,
                                pre_buf,
                            ));
                        }
                        return Err(e);
                    },
                }
                buf.clear();
            } else {
                buf.push(c);
            }
            i = i + 1;
        }
        proof {
            assert(xscan(run, i - from, buf@, views_of(tokens@)) == xflush(
                views_of(tokens@),
                buf@,
            ));
        }
        match xflush_exec(&buf, &mut tokens) {
            Ok(_) => Ok(tokens),
            Err(e) => Err(e),
        }
    } else if contains_sub(v, from, to, "kg") || contains_char(v, from, to, '%') {
        let s = string_from_chars(v, from, to);
        match Weight::from_str(s.as_str()) {
            Ok(w) => {
                let ghost expected = seq![TokenV::Weight(weight_v(run))];
                let mut tokens: Vec<Token> = Vec::new();
                tokens.push(Token::Weight(w));
                proof {
                    assert(views_of(tokens@) =~= expected);
                }
                Ok(tokens)
            },
            Err(e) => Err(LexerError::InvalidWeight(e)),
        }
    } else if contains_sub(v, from, to, "rm") {
        let s = string_from_chars(v, from, to);
        match RM::from_str(s.as_str()) {
            Ok(rm) => {
                let ghost expected = seq![
                    TokenV::RM(RMV { num: digits_val(digits_of(run)) }),
                ];
                let mut tokens: Vec<Token> = Vec::new();
                tokens.push(Token::RM(rm));
                proof {
                    assert(views_of(tokens@) =~= expected);
                }
                Ok(tokens)
            },
            Err(e) => Err(LexerError::InvalidRM(e)),
        }
    } else if contains_sub(v, from, to, "sec") || contains_sub(v, from, to, "min") || (contains_char(
        v,
        from,
        to,
        'm',
    ) || contains_char(v, from, to, 'i') || contains_char(v, from, to, 'l') || contains_char(
        v,
        from,
        to,
        'e',
    ) || contains_char(v, from, to, 'a')) {
        let s = string_from_chars(v, from, to);
        match RepType::from_str(s.as_str()) {
            Ok(rt) => {
                let mut tokens: Vec<Token> = Vec::new();
                tokens.push(Token::RepType(rt));
                proof {
                    lemma_rep_type_view(run, rt);
                    assert(views_of(tokens@) =~= seq![TokenV::RepType(rep_type_v(run))]);
                }
                Ok(tokens)
            },
            Err(e) => Err(LexerError::InvalidRepType(e)),
        }
    } else {
        let spans = split_spans(v, from, to, '-');
        let ghost parts = split_char(run, '-');
        let mut tokens: Vec<Token> = Vec::new();
        let mut k: usize = 0;
        proof {
            assert(views_of(Seq::<Token>::empty()) =~= Seq::<TokenV>::empty());
        }
        while k < spans.len()
            invariant
                from <= to <= v@.len(),
                run == v@.subrange(from as int, to as int),
                parts == split_char(run, '-'),
                spans@.len() == parts.len(),
                forall|j: int|
                    0 <= j < spans@.len() ==> from <= #[trigger] spans@[j].0 <= spans@[j].1 <= to
                        && v@.subrange(spans@[j].0 as int, spans@[j].1 as int) == parts[j],
                k <= spans@.len(),
                classify_numeric(run) == (match reps_tokens(parts, k as int) {
                    Ok(rest) => Ok::<Seq<TokenV>, LexErrV>(views_of(tokens@) + rest),
                    Err(ev) => Err::<Seq<TokenV>, LexErrV>(ev),
                }),
            decreases spans@.len() - k,
        {
            let (a, b) = (spans[k].0, spans[k].1);
            let s = string_from_chars(v, a, b);
            let ghost prev = views_of(tokens@);
            match RepType::from_str(s.as_str()) {
                Ok(rt) => {
                    proof {
                        lemma_rep_type_view(parts[k as int], rt);
                        lemma_views_of_push(tokens@, Token::RepType(rt));
                    }
                    tokens.push(Token::RepType(rt));
                    proof {
                        let tv = TokenV::RepType(rep_type_v(parts[k as int]));
                        match reps_tokens(parts, k + 1) {
                            Ok(rest) => {
                                assert(prev + (seq![tv] + rest) =~= prev.push(tv) + rest);
                            },
                            Err(_) => {},
                        }
                    }
                },
                Err(e) => {
                    return Err(LexerError::InvalidRepType(e));
                },
            }
            k = k + 1;
        }
        proof {
            assert(reps_tokens(parts, k as int) == Ok::<Seq<TokenV>, LexErrV>(Seq::empty()));
            assert(views_of(tokens@) + Seq::<TokenV>::empty() =~= views_of(tokens@));
        }
        Ok(tokens)
    }
}

/// Turns a letter-led run into its tokens.
fn lex_alpha(v: &Vec<char>, from: usize, to: usize) -> (r: Result<Vec<Token>, LexerError>)
    requires
        from <= to <= v@.len(),
    ensures
        match r {
            Ok(ts) => alpha_tokens(trim(v@.subrange(from as int, to as int))) == Ok::<Seq<TokenV>, LexErrV>(views_of(ts@)),
            Err(e) => alpha_tokens(trim(v@.subrange(from as int, to as int))) matches Err(ev)
                && lex_err_matches(ev, e),
        },
{
    let (a, b) = trim_span(v, from, to);
    let ghost t = trim(v@.subrange(from as int, to as int));
    proof {
        assert(v@.subrange(a as int, b as int) == t);
    }
    let mut tokens: Vec<Token> = Vec::new();
    let mut a2: usize = a;
    if span_starts_with(v, a, b, "max") {
        tokens.push(Token::RepType(RepType::Max));
        if span_starts_with(v, a, b, "max ") {
            proof {
                reveal_strlit("max ");
            }
            a2 = a + 4;
            proof {
                assert(v@.subrange(a2 as int, b as int) =~= t.skip(4));
            }
        }
    } else {
        proof {
            reveal_strlit("max");
            reveal_strlit("max ");
            if starts_with(t, "max "@) {
                assert(t.subrange(0, 3) =~= "max"@);
                assert(starts_with(t, "max"@));
            }
        }
    }
    let ghost pre: Seq<TokenV> = if starts_with(t, "max"@) {
        seq![TokenV::RepType(RepTypeV::Max)]
    } else {
        Seq::empty()
    };
    proof {
        assert(views_of(tokens@) =~= pre);
    }
    let ghost t2 = if starts_with(t, "max "@) {
        t.skip(4)
    } else {
        t
    };
    proof {
        assert(v@.subrange(a2 as int, b as int) == t2);
    }
    let mut is_rest = false;
    if a2 < b {
        proof {
            assert(t2[0] == v@[a2 as int]);
        }
        if v[a2] == 'r' {
            let t2s = string_from_chars(v, a2, b);
            match RestPeriod::from_str(t2s.as_str()) {
                Ok(rp) => {
                    proof {
                        lemma_views_of_push(tokens@, Token::RepType(RepType::RestPeriod(rp)));
                    }
                    tokens.push(Token::RepType(RepType::RestPeriod(rp)));
                    is_rest = true;
                },
                Err(_) => {},
            }
        }
    }
    proof {
        assert(is_rest == is_rest_run(t2));
    }
    let ghost pre2: Seq<TokenV> = if is_rest_run(t2) {
        pre.push(
            TokenV::RepType(
                RepTypeV::RestPeriod(
                    crate::rep_types::rest_period::RestPeriodV {
                        duration: digits_val(digits_of(t2)),
                        unit: crate::text::non_digits_non_r_of(t2),
                    },
                ),
            ),
        )
    } else {
        pre
    };
    proof {
        assert(views_of(tokens@) =~= pre2);
    }
    if is_rest {
        match Movement::from_str("rest") {
            Ok(m) => {
                proof {
                    lemma_views_of_push(tokens@, Token::Movement(m));
                    assert(views_of(tokens@.push(Token::Movement(m))) =~= pre2.push(
                        TokenV::Movement(m),
                    ));
                }
                tokens.push(Token::Movement(m));
                proof {
                    reveal_strlit("rest");
                    assert("rest"@.len() == 4);
                    assert(alpha_tokens(t) == Ok::<Seq<TokenV>, LexErrV>(pre2.push(
                        TokenV::Movement(m),
                    )));
                    assert(views_of(tokens@) == pre2.push(TokenV::Movement(m)));
                }
                Ok(tokens)
            },
            Err(err) => {
                proof {
                    reveal_strlit("rest");
                    assert("rest"@.len() == 4);
                }
                let msg = err.message();
                Err(LexerError::InvalidMovement(msg))
            },
        }
    } else if a2 == b {
        proof {
            assert(t2.len() == 0);
            assert(alpha_tokens(t) == Ok::<Seq<TokenV>, LexErrV>(pre2));
        }
        Ok(tokens)
    } else {
        let ms = string_from_chars(v, a2, b);
        match Movement::from_str(ms.as_str()) {
            Ok(m) => {
                proof {
                    lemma_views_of_push(tokens@, Token::Movement(m));
                    assert(views_of(tokens@.push(Token::Movement(m))) =~= pre2.push(
                        TokenV::Movement(m),
                    ));
                }
                tokens.push(Token::Movement(m));
                proof {
                    assert(t2.len() > 0);
                    assert(movement_lookup(normalized(t2), 0) == Some(m));
                    assert(alpha_tokens(t) == Ok::<Seq<TokenV>, LexErrV>(pre2.push(
                        TokenV::Movement(m),
                    )));
                    assert(views_of(tokens@) == pre2.push(TokenV::Movement(m)));
                }
                Ok(tokens)
            },
            Err(err) => {
                let msg = err.message();
                Err(LexerError::InvalidMovement(msg))
            },
        }
    }
}

/// The lexical analyzer: it owns the characters of one notation string and
/// a cursor over them.
pub struct Lexer {
    chars: Vec<char>,
    pos: usize,
}

impl Lexer {
    /// The characters the lexer was built over.
    pub closed spec fn input(&self) -> Seq<char> {
        self.chars@
    }

    /// The position of the cursor.
    pub closed spec fn position(&self) -> nat {
        self.pos as nat
    }

    /// The cursor lies within the input.
    pub open spec fn wf(&self) -> bool {
        self.position() <= self.input().len()
    }

    /// A lexer at the start of the given notation string.
    pub fn new(input: &str) -> (r: Lexer)
        ensures
            r.input() == input@,
            r.position() == 0,
            r.wf(),
    {
        Lexer { chars: chars_of(input), pos: 0 }
    }

    /// Scans the whole input into its token stream. Any sub-parser failure
    /// aborts the scan and surfaces that sub-parser's error; no partial
    /// token list is returned.
    #[verifier::rlimit(100)]
    pub fn tokenize(&mut self) -> (r: Result<Vec<Token>, LexerError>)
        requires
            old(self).wf(),
        ensures
            final(self).input() == old(self).input(),
            final(self).wf(),
            match r {
                Ok(tokens) => lex_from(old(self).input(), old(self).position() as int, true)
                    == Ok::<Seq<TokenV>, LexErrV>(views_of(tokens@)),
                Err(e) => lex_from(old(self).input(), old(self).position() as int, true) matches
                    Err(ev) && lex_err_matches(ev, e),
            },
    {
        let ghost input = self.chars@;
        let ghost start = self.pos as int;
        let n = self.chars.len();
        let mut tokens: Vec<Token> = Vec::new();
        let mut first = true;
        proof {
            assert(views_of(Seq::<Token>::empty()) =~= Seq::<TokenV>::empty());
        }
        while self.pos < n
            invariant
                input == old(self).input(),
                start == old(self).position() as int,
                self.chars@ == input,
                n == input.len(),
                self.pos <= n,
                start <= self.pos,
                0 <= start <= input.len(),
                lex_from(input, start, true) == (match lex_from(input, self.pos as int, first) {
                    Ok(rest) => Ok(views_of(tokens@) + rest),
                    Err(ev) => Err(ev),
                }),
            decreases n - self.pos,
        {
            let c = self.chars[self.pos];
            if c == ' ' || c == '\t' || c == '\n' || c == '\r' {
                self.pos = self.pos + 1;
                continue;
            }
            if first {
                let e = wt_run_end_exec(&self.chars, self.pos);
                if e == self.pos {
                    return Err(LexerError::InvalidWorkoutType(String::from_str(
                        "empty workout type",
                    )));
                }
                let run_str = string_from_chars(&self.chars, self.pos, e);
                match WorkoutType::from_str(run_str.as_str()) {
                    Ok(wt) => {
                        let ghost prev = views_of(tokens@);
                        let ghost wtv = TokenV::WorkoutType(
                            workout_type_v(input.subrange(self.pos as int, e as int)),
                        );
                        proof {
                            lemma_workout_type_view(input.subrange(self.pos as int, e as int), wt);
                            lemma_views_of_push(tokens@, Token::WorkoutType(wt));
                        }
                        tokens.push(Token::WorkoutType(wt));
                        proof {
                            assert(views_of(tokens@) == prev.push(wtv));
                            match lex_from(input, e as int, false) {
                                Ok(rest) => {
                                    assert(prev + (seq![wtv] + rest) =~= prev.push(wtv) + rest);
                                },
                                Err(_) => {},
                            }
                        }
                        self.pos = e;
                        first = false;
                    },
                    Err(msg) => {
                        return Err(LexerError::InvalidWorkoutType(msg));
                    },
                }
                continue;
            }
            if c == '@' {
                proof {
                    lemma_views_of_push(tokens@, Token::At);
                    match lex_from(input, self.pos + 1, false) {
                        Ok(rest) => {
                            assert(views_of(tokens@) + (seq![TokenV::At] + rest) =~= views_of(
                                tokens@.push(Token::At),
                            ) + rest);
                        },
                        Err(_) => {},
                    }
                }
                tokens.push(Token::At);
                self.pos = self.pos + 1;
                continue;
            }
            if '0' <= c && c <= '9' {
                let e = num_run_end_exec(&self.chars, self.pos);
                proof {
                    lemma_run_end_bounds(input, self.pos + 1);
                    assert(num_run_end(input, self.pos as int) == num_run_end(
                        input,
                        self.pos + 1,
                    ));
                }
                match lex_numeric(&self.chars, self.pos, e) {
                    Ok(mut ts) => {
                        let ghost toks = views_of(ts@);
                        proof {
                            match lex_from(input, e as int, false) {
                                Ok(rest) => {
                                    assert(views_of(tokens@ + ts@) =~= views_of(tokens@) + views_of(
                                        ts@,
                                    ));
                                    assert(views_of(tokens@) + (toks + rest) =~= (views_of(tokens@)
                                        + toks) + rest);
                                },
                                Err(_) => {},
                            }
                        }
                        tokens.append(&mut ts);
                        self.pos = e;
                    },
                    Err(e) => {
                        return Err(e);
                    },
                }
                continue;
            }
            if ('a' <= c && c <= 'z') || ('A' <= c && c <= 'Z') {
                let e = mov_run_end_exec(&self.chars, self.pos);
                proof {
                    lemma_run_end_bounds(input, self.pos + 1);
                    assert(mov_run_end(input, self.pos as int) == mov_run_end(
                        input,
                        self.pos + 1,
                    ));
                }
                match lex_alpha(&self.chars, self.pos, e) {
                    Ok(mut ts) => {
                        let ghost toks = views_of(ts@);
                        proof {
                            match lex_from(input, e as int, false) {
                                Ok(rest) => {
                                    assert(views_of(tokens@ + ts@) =~= views_of(tokens@) + views_of(
                                        ts@,
                                    ));
                                    assert(views_of(tokens@) + (toks + rest) =~= (views_of(tokens@)
                                        + toks) + rest);
                                },
                                Err(_) => {},
                            }
                        }
                        tokens.append(&mut ts);
                        self.pos = e;
                    },
                    Err(e) => {
                        return Err(e);
                    },
                }
                continue;
            }
            self.pos = self.pos + 1;
            first = false;
        }
        proof {
            assert(lex_from(input, self.pos as int, first) == Ok::<Seq<TokenV>, LexErrV>(
                Seq::empty(),
            ));
            assert(views_of(tokens@) + Seq::<TokenV>::empty() =~= views_of(tokens@));
        }
        Ok(tokens)
    }
}

} // verus!
