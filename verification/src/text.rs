//! Character-level helpers shared by the parsers and the renderer: ASCII
//! classification, decimal digit sequences, and verified string building.

use vstd::prelude::*;
use vstd::string::*;

verus! {

/// An ASCII decimal digit.
pub open spec fn is_digit(c: char) -> bool {
    '0' <= c && c <= '9'
}

/// An ASCII letter.
pub open spec fn is_alpha(c: char) -> bool {
    ('a' <= c && c <= 'z') || ('A' <= c && c <= 'Z')
}

/// Whitespace between tokens of the notation.
pub open spec fn is_space(c: char) -> bool {
    c == ' ' || c == '\t' || c == '\n' || c == '\r'
}

/// ASCII lower-casing of a single character.
pub open spec fn lower_char(c: char) -> char {
    if 'A' <= c && c <= 'Z' {
        ((c as u8) + 32) as char
    } else {
        c
    }
}

/// ASCII lower-casing of a character sequence.
pub open spec fn lower(s: Seq<char>) -> Seq<char> {
    s.map_values(|c: char| lower_char(c))
}

/// The numeric value of a digit character; zero on anything else.
pub open spec fn digit_val(c: char) -> nat {
    if c == '1' {
        1
    } else if c == '2' {
        2
    } else if c == '3' {
        3
    } else if c == '4' {
        4
    } else if c == '5' {
        5
    } else if c == '6' {
        6
    } else if c == '7' {
        7
    } else if c == '8' {
        8
    } else if c == '9' {
        9
    } else {
        0
    }
}

/// The digit character for a value below ten.
pub open spec fn digit_char(d: nat) -> char {
    if d == 0 {
        '0'
    } else if d == 1 {
        '1'
    } else if d == 2 {
        '2'
    } else if d == 3 {
        '3'
    } else if d == 4 {
        '4'
    } else if d == 5 {
        '5'
    } else if d == 6 {
        '6'
    } else if d == 7 {
        '7'
    } else if d == 8 {
        '8'
    } else {
        '9'
    }
}

/// The decimal representation of a number, most significant digit first.
pub open spec fn dec_rep(n: nat) -> Seq<char>
    decreases n,
{
    if n < 10 {
        seq![digit_char(n)]
    } else {
        dec_rep(n / 10).push(digit_char(n % 10))
    }
}

/// Every character of the sequence is a decimal digit.
pub open spec fn all_digits(s: Seq<char>) -> bool {
    forall|i: int| 0 <= i < s.len() ==> is_digit(#[trigger] s[i])
}

/// The number a digit sequence denotes, read left to right.
pub open spec fn digits_val(s: Seq<char>) -> nat
    decreases s.len(),
{
    if s.len() == 0 {
        0
    } else {
        digits_val(s.drop_last()) * 10 + digit_val(s.last())
    }
}

/// `dec_rep` yields at least one character, all of them digits.
pub proof fn lemma_dec_rep_digits(n: nat)
    ensures
        dec_rep(n).len() >= 1,
        all_digits(dec_rep(n)),
    decreases n,
{
    if n >= 10 {
        lemma_dec_rep_digits(n / 10);
        assert forall|i: int| 0 <= i < dec_rep(n).len() implies is_digit(#[trigger] dec_rep(n)[i]) by {
            if i < dec_rep(n / 10).len() {
                assert(dec_rep(n)[i] == dec_rep(n / 10)[i]);
            }
        }
    }
}

/// Reading back the decimal representation gives the number itself.
pub proof fn lemma_digits_val_dec_rep(n: nat)
    ensures
        digits_val(dec_rep(n)) == n,
    decreases n,
{
    if n < 10 {
        assert(dec_rep(n).drop_last() =~= Seq::<char>::empty());
        assert(dec_rep(n).last() == digit_char(n));
        assert(digit_val(digit_char(n)) == n);
        assert(digits_val(Seq::<char>::empty()) == 0);
        assert(digits_val(dec_rep(n)) == digits_val(dec_rep(n).drop_last()) * 10 + digit_val(dec_rep(n).last()));
    } else {
        lemma_digits_val_dec_rep(n / 10);
        assert(dec_rep(n).drop_last() =~= dec_rep(n / 10));
        assert(dec_rep(n).last() == digit_char(n % 10));
        assert(digit_val(digit_char(n % 10)) == n % 10);
        assert(digits_val(dec_rep(n)) == (n / 10) * 10 + n % 10);
        assert((n / 10) * 10 + n % 10 == n) by (nonlinear_arith);
    }
}

/// Relies on String::push: appends one character at the end of the string.
#[verifier::external_body]
pub(crate) fn push_char(s: &mut String, c: char)
    ensures
        final(s)@ == old(s)@.push(c),
{
    s.push(c);
}

/// The character for a digit value.
pub(crate) fn digit_to_char(d: u32) -> (c: char)
    requires
        d < 10,
    ensures
        c == digit_char(d as nat),
{
    if d == 0 {
        '0'
    } else if d == 1 {
        '1'
    } else if d == 2 {
        '2'
    } else if d == 3 {
        '3'
    } else if d == 4 {
        '4'
    } else if d == 5 {
        '5'
    } else if d == 6 {
        '6'
    } else if d == 7 {
        '7'
    } else if d == 8 {
        '8'
    } else {
        '9'
    }
}

/// Renders a number in decimal, most significant digit first.
pub fn u32_to_string(n: u32) -> (r: String)
    ensures
        r@ == dec_rep(n as nat),
    decreases n,
{
    if n < 10 {
        let mut s = String::new();
        let c = digit_to_char(n);
        push_char(&mut s, c);
        proof {
            assert(s@ =~= dec_rep(n as nat));
        }
        s
    } else {
        let mut s = u32_to_string(n / 10);
        let c = digit_to_char(n % 10);
        push_char(&mut s, c);
        s
    }
}

/// The characters of a string slice, in order.
pub fn chars_of(s: &str) -> (v: Vec<char>)
    ensures
        v@ == s@,
{
    let n = s.unicode_len();
    let mut v: Vec<char> = Vec::new();
    let mut i: usize = 0;
    while i < n
        invariant
            n == s@.len(),
            i <= n,
            v@ == s@.subrange(0, i as int),
        decreases n - i,
    {
        let c = s.get_char(i);
        v.push(c);
        i = i + 1;
        proof {
            assert(v@ =~= s@.subrange(0, i as int));
        }
    }
    proof {
        assert(v@ =~= s@);
    }
    v
}

/// A string holding the given span of a character vector.
pub fn string_from_chars(v: &Vec<char>, from: usize, to: usize) -> (r: String)
    requires
        from <= to <= v@.len(),
    ensures
        r@ == v@.subrange(from as int, to as int),
{
    let mut s = String::new();
    let mut i: usize = from;
    while i < to
        invariant
            from <= i <= to <= v@.len(),
            s@ == v@.subrange(from as int, i as int),
        decreases to - i,
    {
        push_char(&mut s, v[i]);
        i = i + 1;
        proof {
            assert(s@ =~= v@.subrange(from as int, i as int));
        }
    }
    s
}

/// Whether the two strings hold the same characters.
pub fn str_eq(a: &str, b: &str) -> (r: bool)
    ensures
        r == (a@ == b@),
{
    let na = a.unicode_len();
    let nb = b.unicode_len();
    if na != nb {
        return false;
    }
    let mut i: usize = 0;
    while i < na
        invariant
            na == a@.len(),
            na == b@.len(),
            i <= na,
            forall|j: int| 0 <= j < i ==> a@[j] == b@[j],
        decreases na - i,
    {
        if a.get_char(i) != b.get_char(i) {
            return false;
        }
        i = i + 1;
    }
    proof {
        assert(a@ =~= b@);
    }
    true
}

/// Parses a span of a character vector as an unsigned number; fails when the
/// span is empty, holds a non-digit, or overflows.
pub fn parse_u32(v: &Vec<char>, from: usize, to: usize) -> (r: Option<u32>)
    requires
        from <= to <= v@.len(),
    ensures
        match r {
            Some(n) => {
                &&& all_digits(v@.subrange(from as int, to as int))
                &&& from < to
                &&& n as nat == digits_val(v@.subrange(from as int, to as int))
            },
            None => !(from < to && all_digits(v@.subrange(from as int, to as int))
                && digits_val(v@.subrange(from as int, to as int)) <= u32::MAX),
        },
{
    if from >= to {
        return None;
    }
    let mut acc: u32 = 0;
    let mut i: usize = from;
    while i < to
        invariant
            from <= i <= to <= v@.len(),
            all_digits(v@.subrange(from as int, i as int)),
            acc as nat == digits_val(v@.subrange(from as int, i as int)),
        decreases to - i,
    {
        let c = v[i];
        let d: u32 = digit_value(c);
        if d == 10 {
            proof {
                assert(v@.subrange(from as int, to as int)[i - from] == c);
            }
            return None;
        }
        if acc > (u32::MAX - d) / 10 {
            proof {
                lemma_digits_val_prefix_monotone(v@.subrange(from as int, to as int), i - from + 1);
                assert(v@.subrange(from as int, to as int).subrange(0, i - from + 1)
                    =~= v@.subrange(from as int, i as int).push(c));
                assert(v@.subrange(from as int, i as int).push(c).drop_last()
                    =~= v@.subrange(from as int, i as int));
            }
            return None;
        }
        proof {
            assert(v@.subrange(from as int, i as int).push(c).drop_last()
                =~= v@.subrange(from as int, i as int));
            assert(v@.subrange(from as int, i + 1 as int)
                =~= v@.subrange(from as int, i as int).push(c));
        }
        acc = acc * 10 + d;
        i = i + 1;
    }
    proof {
        assert(v@.subrange(from as int, i as int) =~= v@.subrange(from as int, to as int));
    }
    Some(acc)
}

/// The value of a digit character, or ten on anything else.
pub(crate) fn digit_value(c: char) -> (d: u32)
    ensures
        is_digit(c) ==> d == digit_val(c) && d < 10,
        !is_digit(c) ==> d == 10,
{
    if c == '0' {
        0
    } else if c == '1' {
        1
    } else if c == '2' {
        2
    } else if c == '3' {
        3
    } else if c == '4' {
        4
    } else if c == '5' {
        5
    } else if c == '6' {
        6
    } else if c == '7' {
        7
    } else if c == '8' {
        8
    } else if c == '9' {
        9
    } else {
        10
    }
}

/// The pattern occurs in the sequence starting at position `i`.
pub open spec fn has_sub_at(s: Seq<char>, p: Seq<char>, i: int) -> bool {
    0 <= i && i + p.len() <= s.len() && s.subrange(i, i + p.len()) == p
}

/// The pattern occurs somewhere in the sequence.
pub open spec fn contains_seq(s: Seq<char>, p: Seq<char>) -> bool {
    exists|i: int| has_sub_at(s, p, i)
}

/// The sequence ends with the pattern.
pub open spec fn ends_with(s: Seq<char>, p: Seq<char>) -> bool {
    p.len() <= s.len() && s.subrange(s.len() - p.len(), s.len() as int) == p
}

/// Whether the pattern occurs in the span as a contiguous substring.
pub fn contains_sub(v: &Vec<char>, from: usize, to: usize, p: &str) -> (r: bool)
    requires
        from <= to <= v@.len(),
    ensures
        r == contains_seq(v@.subrange(from as int, to as int), p@),
{
    let ghost s = v@.subrange(from as int, to as int);
    let plen = p.unicode_len();
    let n = to - from;
    if plen > n {
        proof {
            assert(forall|i: int| !has_sub_at(s, p@, i));
        }
        return false;
    }
    if plen == 0 {
        proof {
            assert(s.subrange(0, 0) =~= p@);
            assert(has_sub_at(s, p@, 0));
        }
        return true;
    }
    let mut i: usize = 0;
    while i <= n - plen
        invariant
            from <= to <= v@.len(),
            s == v@.subrange(from as int, to as int),
            plen == p@.len(),
            n == to - from,
            plen <= n,
            i <= n - plen + 1,
            plen >= 1,
            forall|k: int| 0 <= k < i ==> !has_sub_at(s, p@, k),
        decreases n + 1 - plen - i,
    {
        let mut j: usize = 0;
        let mut hit = true;
        while hit && j < plen
            invariant
                from <= to <= v@.len(),
                s == v@.subrange(from as int, to as int),
                plen == p@.len(),
                n == to - from,
                i + plen <= n,
                j <= plen,
                hit ==> forall|k: int| 0 <= k < j ==> s[i + k] == p@[k],
                !hit ==> !has_sub_at(s, p@, i as int),
            decreases plen - j, (if hit { 1int } else { 0int }),
        {
            let idx = from + i + j;
            proof {
                assert(s[i + j] == v@[idx as int]);
            }
            if v[idx] != p.get_char(j) {
                hit = false;
                proof {
                    assert(s[i + j] != p@[j as int]);
                    assert(!has_sub_at(s, p@, i as int)) by {
                        if has_sub_at(s, p@, i as int) {
                            assert(s.subrange(i as int, i + p@.len())[j as int] == p@[j as int]);
                        }
                    }
                }
            } else {
                j = j + 1;
            }
        }
        if hit {
            proof {
                assert(s.subrange(i as int, i + p@.len()) =~= p@);
                assert(has_sub_at(s, p@, i as int));
            }
            return true;
        }
        i = i + 1;
    }
    proof {
        assert forall|k: int| !has_sub_at(s, p@, k) by {
            if has_sub_at(s, p@, k) {
                assert(0 <= k < i);
            }
        }
    }
    false
}

/// Whether the single character occurs in the span.
pub fn contains_char(v: &Vec<char>, from: usize, to: usize, c: char) -> (r: bool)
    requires
        from <= to <= v@.len(),
    ensures
        r == v@.subrange(from as int, to as int).contains(c),
{
    let ghost s = v@.subrange(from as int, to as int);
    let mut i: usize = from;
    while i < to
        invariant
            from <= i <= to <= v@.len(),
            s == v@.subrange(from as int, to as int),
            forall|k: int| 0 <= k < i - from ==> s[k] != c,
        decreases to - i,
    {
        if v[i] == c {
            proof {
                assert(s[i - from] == c);
            }
            return true;
        }
        i = i + 1;
    }
    false
}

/// Whether the span ends with the pattern.
pub fn span_ends_with(v: &Vec<char>, from: usize, to: usize, p: &str) -> (r: bool)
    requires
        from <= to <= v@.len(),
    ensures
        r == ends_with(v@.subrange(from as int, to as int), p@),
{
    let ghost s = v@.subrange(from as int, to as int);
    let plen = p.unicode_len();
    let n = to - from;
    if plen > n {
        return false;
    }
    let mut j: usize = 0;
    while j < plen
        invariant
            from <= to <= v@.len(),
            s == v@.subrange(from as int, to as int),
            plen == p@.len(),
            n == to - from,
            plen <= n,
            j <= plen,
            forall|k: int| 0 <= k < j ==> s[n - plen + k] == p@[k],
        decreases plen - j,
    {
        let idx = from + n - plen + j;
        proof {
            assert(s[n - plen + j] == v@[idx as int]);
        }
        if v[idx] != p.get_char(j) {
            proof {
                assert(s[n - plen + j] != p@[j as int]);
                assert(!ends_with(s, p@)) by {
                    if ends_with(s, p@) {
                        assert(s.subrange(n - plen, n as int)[j as int] == p@[j as int]);
                    }
                }
            }
            return false;
        }
        j = j + 1;
    }
    proof {
        assert(s.subrange(n - plen, n as int) =~= p@);
    }
    true
}

/// The digit characters of a sequence, in order.
pub open spec fn digits_of(s: Seq<char>) -> Seq<char> {
    s.filter(|c: char| is_digit(c))
}

/// The non-digit characters of a sequence, in order.
pub open spec fn non_digits_of(s: Seq<char>) -> Seq<char> {
    s.filter(|c: char| !is_digit(c))
}

/// The characters that are neither digits nor `r`, in order.
pub open spec fn non_digits_non_r_of(s: Seq<char>) -> Seq<char> {
    s.filter(|c: char| !is_digit(c) && c != 'r')
}

/// Splits a span into its digit characters and the rest; when `skip_r` is
/// set, `r` characters are dropped from the rest as well.
pub fn split_digits_rest(v: &Vec<char>, from: usize, to: usize, skip_r: bool) -> (r: (
    Vec<char>,
    Vec<char>,
))
    requires
        from <= to <= v@.len(),
    ensures
        r.0@ == digits_of(v@.subrange(from as int, to as int)),
        skip_r ==> r.1@ == non_digits_non_r_of(v@.subrange(from as int, to as int)),
        !skip_r ==> r.1@ == non_digits_of(v@.subrange(from as int, to as int)),
{
    let mut dig: Vec<char> = Vec::new();
    let mut rest: Vec<char> = Vec::new();
    let mut i: usize = from;
    while i < to
        invariant
            from <= i <= to <= v@.len(),
            dig@ == digits_of(v@.subrange(from as int, i as int)),
            skip_r ==> rest@ == non_digits_non_r_of(v@.subrange(from as int, i as int)),
            !skip_r ==> rest@ == non_digits_of(v@.subrange(from as int, i as int)),
        decreases to - i,
    {
        let c = v[i];
        proof {
            assert(v@.subrange(from as int, i + 1 as int).drop_last()
                =~= v@.subrange(from as int, i as int));
            assert(v@.subrange(from as int, i + 1 as int).last() == c);
            reveal(Seq::filter);
        }
        if '0' <= c && c <= '9' {
            dig.push(c);
        } else if !(skip_r && c == 'r') {
            rest.push(c);
        }
        i = i + 1;
    }
    (dig, rest)
}

/// The digit characters extracted from a sequence are all digits.
pub proof fn lemma_digits_of_all_digits(s: Seq<char>)
    ensures
        all_digits(digits_of(s)),
{
    assert forall|i: int| 0 <= i < digits_of(s).len() implies is_digit(#[trigger] digits_of(s)[i]) by {
        s.lemma_filter_pred(|c: char| is_digit(c), i);
    }
}

/// The first index at or after `i` holding the character, or the length of
/// the sequence when the character does not occur there.
pub open spec fn first_idx_from(s: Seq<char>, c: char, i: int) -> int
    decreases s.len() - i when 0 <= i <= s.len()
{
    if i >= s.len() {
        s.len() as int
    } else if s[i] == c {
        i
    } else {
        first_idx_from(s, c, i + 1)
    }
}

/// `first_idx_from` lands on the first occurrence at or after its start.
pub proof fn lemma_first_idx_from(s: Seq<char>, c: char, i: int)
    requires
        0 <= i <= s.len(),
    ensures
        i <= first_idx_from(s, c, i) <= s.len(),
        first_idx_from(s, c, i) < s.len() ==> s[first_idx_from(s, c, i)] == c,
        forall|k: int| i <= k < first_idx_from(s, c, i) ==> s[k] != c,
    decreases s.len() - i,
{
    if i < s.len() && s[i] != c {
        lemma_first_idx_from(s, c, i + 1);
    }
}

/// The end of the run of digits starting at `i`: the first index at or
/// after `i` holding a non-digit, or the length of the sequence.
pub open spec fn digit_run_end(s: Seq<char>, i: int) -> int
    decreases s.len() - i when 0 <= i <= s.len()
{
    if i >= s.len() {
        i
    } else if !is_digit(s[i]) {
        i
    } else {
        digit_run_end(s, i + 1)
    }
}

/// `digit_run_end` bounds the maximal digit run from its start.
pub proof fn lemma_digit_run_end(s: Seq<char>, i: int)
    requires
        0 <= i <= s.len(),
    ensures
        i <= digit_run_end(s, i) <= s.len(),
        forall|k: int| i <= k < digit_run_end(s, i) ==> is_digit(#[trigger] s[k]),
        digit_run_end(s, i) < s.len() ==> !is_digit(s[digit_run_end(s, i)]),
    decreases s.len() - i,
{
    if i < s.len() && is_digit(s[i]) {
        lemma_digit_run_end(s, i + 1);
    }
}

/// The end of the digit run starting at `from` within the span.
pub fn digit_run_end_exec(v: &Vec<char>, from: usize, to: usize) -> (r: usize)
    requires
        from <= to <= v@.len(),
    ensures
        from <= r <= to,
        r - from == digit_run_end(v@.subrange(from as int, to as int), 0),
{
    let ghost s = v@.subrange(from as int, to as int);
    let mut i: usize = from;
    let mut done = false;
    while !done && i < to
        invariant
            from <= i <= to <= v@.len(),
            s == v@.subrange(from as int, to as int),
            digit_run_end(s, 0) == digit_run_end(s, i - from),
            done ==> i < to && !is_digit(v@[i as int]),
        decreases to - i, (if done { 0int } else { 1int }),
    {
        let c = v[i];
        if '0' <= c && c <= '9' {
            proof {
                assert(s[i - from] == v@[i as int]);
            }
            i = i + 1;
        } else {
            proof {
                assert(s[i - from] == v@[i as int]);
            }
            done = true;
        }
    }
    i
}

/// The parts of a sequence split on a separator character. A separator at
/// the very end yields a trailing empty part, as does an empty input.
pub open spec fn split_char(s: Seq<char>, sep: char) -> Seq<Seq<char>>
    decreases s.len(),
{
    let i = first_idx_from(s, sep, 0);
    if 0 <= i && i < s.len() {
        seq![s.subrange(0, i)] + split_char(s.subrange(i + 1, s.len() as int), sep)
    } else {
        seq![s]
    }
}

/// The spans of the parts of a span split on a separator, in order.
pub fn split_spans(v: &Vec<char>, from: usize, to: usize, sep: char) -> (spans: Vec<(usize, usize)>)
    requires
        from <= to <= v@.len(),
    ensures
        spans@.len() == split_char(v@.subrange(from as int, to as int), sep).len(),
        forall|k: int|
            0 <= k < spans@.len() ==> from <= #[trigger] spans@[k].0 <= spans@[k].1 <= to
                && v@.subrange(spans@[k].0 as int, spans@[k].1 as int) == split_char(
                v@.subrange(from as int, to as int),
                sep,
            )[k],
{
    let ghost s = v@.subrange(from as int, to as int);
    let mut spans: Vec<(usize, usize)> = Vec::new();
    let mut start: usize = from;
    let mut i: usize = from;
    while i < to
        invariant
            from <= start <= i <= to <= v@.len(),
            s == v@.subrange(from as int, to as int),
            forall|k: int| start <= k < i ==> v@[k] != sep,
            split_char(s, sep) == spans@.map_values(
                |sp: (usize, usize)| v@.subrange(sp.0 as int, sp.1 as int),
            ) + split_char(v@.subrange(start as int, to as int), sep),
            forall|k: int|
                0 <= k < spans@.len() ==> from <= #[trigger] spans@[k].0 <= spans@[k].1 <= to,
        decreases to - i,
    {
        if v[i] == sep {
            proof {
                let rem = v@.subrange(start as int, to as int);
                lemma_first_idx_from(rem, sep, 0);
                assert(rem[i - start] == sep);
                assert forall|k: int| 0 <= k < i - start implies rem[k] != sep by {
                    assert(rem[k] == v@[start + k]);
                }
                assert(first_idx_from(rem, sep, 0) == i - start) by {
                    let f = first_idx_from(rem, sep, 0);
                    if f < i - start {
                        assert(rem[f] != sep);
                    }
                    if f > i - start {
                        assert(rem[i - start] != sep);
                    }
                }
                assert(rem.subrange(0, i - start) =~= v@.subrange(start as int, i as int));
                assert(rem.subrange(i - start + 1, rem.len() as int) =~= v@.subrange(
                    i + 1 as int,
                    to as int,
                ));
                assert(spans@.push((start, i)).map_values(
                    |sp: (usize, usize)| v@.subrange(sp.0 as int, sp.1 as int),
                ) =~= spans@.map_values(
                    |sp: (usize, usize)| v@.subrange(sp.0 as int, sp.1 as int),
                ).push(v@.subrange(start as int, i as int)));
            }
            spans.push((start, i));
            start = i + 1;
        }
        i = i + 1;
    }
    proof {
        let rem = v@.subrange(start as int, to as int);
        lemma_first_idx_from(rem, sep, 0);
        assert forall|k: int| 0 <= k < rem.len() implies rem[k] != sep by {
            assert(rem[k] == v@[start + k]);
        }
        assert(first_idx_from(rem, sep, 0) == rem.len());
        assert(spans@.push((start, to)).map_values(
            |sp: (usize, usize)| v@.subrange(sp.0 as int, sp.1 as int),
        ) =~= spans@.map_values(
            |sp: (usize, usize)| v@.subrange(sp.0 as int, sp.1 as int),
        ).push(v@.subrange(start as int, to as int)));
    }
    spans.push((start, to));
    proof {
        assert(split_char(s, sep) =~= spans@.map_values(
            |sp: (usize, usize)| v@.subrange(sp.0 as int, sp.1 as int),
        ));
        assert forall|k: int| 0 <= k < spans@.len() implies v@.subrange(
            #[trigger] spans@[k].0 as int,
            spans@[k].1 as int,
        ) == split_char(s, sep)[k] by {
            assert(split_char(s, sep)[k] == spans@.map_values(
                |sp: (usize, usize)| v@.subrange(sp.0 as int, sp.1 as int),
            )[k]);
        }
    }
    spans
}

/// The sequence starts with the pattern.
pub open spec fn starts_with(s: Seq<char>, p: Seq<char>) -> bool {
    p.len() <= s.len() && s.subrange(0, p.len() as int) == p
}

/// The span starts with the pattern.
pub fn span_starts_with(v: &Vec<char>, from: usize, to: usize, p: &str) -> (r: bool)
    requires
        from <= to <= v@.len(),
    ensures
        r == starts_with(v@.subrange(from as int, to as int), p@),
{
    let ghost s = v@.subrange(from as int, to as int);
    let plen = p.unicode_len();
    let n = to - from;
    if plen > n {
        return false;
    }
    let mut j: usize = 0;
    while j < plen
        invariant
            from <= to <= v@.len(),
            s == v@.subrange(from as int, to as int),
            plen == p@.len(),
            n == to - from,
            plen <= n,
            j <= plen,
            forall|k: int| 0 <= k < j ==> s[k] == p@[k],
        decreases plen - j,
    {
        let idx = from + j;
        proof {
            assert(s[j as int] == v@[idx as int]);
        }
        if v[idx] != p.get_char(j) {
            proof {
                assert(s[j as int] != p@[j as int]);
                if s.subrange(0, p@.len() as int) == p@ {
                    assert(s.subrange(0, p@.len() as int)[j as int] == p@[j as int]);
                }
            }
            return false;
        }
        j = j + 1;
    }
    proof {
        assert(s.subrange(0, plen as int) =~= p@);
    }
    true
}

/// Whether the span holds exactly the pattern.
pub fn span_eq_str(v: &Vec<char>, from: usize, to: usize, p: &str) -> (r: bool)
    requires
        from <= to <= v@.len(),
    ensures
        r == (v@.subrange(from as int, to as int) == p@),
{
    let ghost s = v@.subrange(from as int, to as int);
    let plen = p.unicode_len();
    if to - from != plen {
        return false;
    }
    let r = span_starts_with(v, from, to, p);
    proof {
        if starts_with(s, p@) {
            assert(s.subrange(0, p@.len() as int) =~= s);
        }
        if s == p@ {
            assert(s.subrange(0, p@.len() as int) =~= s);
        }
    }
    r
}

/// The pieces joined with the separator between consecutive pieces.
pub open spec fn join_sep(xs: Seq<Seq<char>>, sep: Seq<char>) -> Seq<char>
    decreases xs.len(),
{
    if xs.len() == 0 {
        Seq::empty()
    } else if xs.len() == 1 {
        xs[0]
    } else {
        xs[0] + sep + join_sep(xs.drop_first(), sep)
    }
}

/// Joining one more piece appends a separator and the piece.
pub proof fn lemma_join_sep_push(xs: Seq<Seq<char>>, x: Seq<char>, sep: Seq<char>)
    ensures
        xs.len() == 0 ==> join_sep(xs.push(x), sep) == x,
        xs.len() > 0 ==> join_sep(xs.push(x), sep) == join_sep(xs, sep) + sep + x,
    decreases xs.len(),
{
    if xs.len() == 0 {
        assert(xs.push(x)[0] == x);
    } else if xs.len() == 1 {
        assert(xs.push(x).drop_first() =~= seq![x]);
        assert(xs.push(x)[0] == xs[0]);
        assert(join_sep(seq![x], sep) == x);
        assert(join_sep(xs.push(x), sep) == xs[0] + sep + x);
    } else {
        assert(xs.push(x).drop_first() =~= xs.drop_first().push(x));
        lemma_join_sep_push(xs.drop_first(), x, sep);
        assert(join_sep(xs, sep) + sep + x =~= xs[0] + sep + (join_sep(xs.drop_first(), sep) + sep
            + x));
    }
}

/// Extracting the digits of an all-digit sequence changes nothing.
pub proof fn lemma_all_digits_digits_of(s: Seq<char>)
    requires
        all_digits(s),
    ensures
        digits_of(s) == s,
    decreases s.len(),
{
    reveal(Seq::filter);
    if s.len() > 0 {
        assert(forall|i: int| 0 <= i < s.len() - 1 ==> s.drop_last()[i] == s[i]);
        assert(all_digits(s.drop_last()));
        lemma_all_digits_digits_of(s.drop_last());
        assert(is_digit(s.last()));
        assert(digits_of(s) =~= digits_of(s.drop_last()).push(s.last()));
    } else {
        assert(digits_of(s) =~= s);
    }
}

/// The sequence without its leading whitespace.
pub open spec fn trim_front(s: Seq<char>) -> Seq<char>
    decreases s.len(),
{
    if s.len() > 0 && is_space(s[0]) {
        trim_front(s.drop_first())
    } else {
        s
    }
}

/// The sequence without its trailing whitespace.
pub open spec fn trim_back(s: Seq<char>) -> Seq<char>
    decreases s.len(),
{
    if s.len() > 0 && is_space(s.last()) {
        trim_back(s.drop_last())
    } else {
        s
    }
}

/// The sequence without leading and trailing whitespace.
pub open spec fn trim(s: Seq<char>) -> Seq<char> {
    trim_back(trim_front(s))
}

/// The bounds of the trimmed part of a span.
pub fn trim_span(v: &Vec<char>, from: usize, to: usize) -> (r: (usize, usize))
    requires
        from <= to <= v@.len(),
    ensures
        from <= r.0 <= r.1 <= to,
        v@.subrange(r.0 as int, r.1 as int) == trim(v@.subrange(from as int, to as int)),
{
    let mut a: usize = from;
    let mut front_done = false;
    while !front_done && a < to
        invariant
            from <= a <= to <= v@.len(),
            trim_front(v@.subrange(from as int, to as int)) == trim_front(
                v@.subrange(a as int, to as int),
            ),
            front_done ==> a < to && !is_space(v@[a as int]),
        decreases to - a, (if front_done { 0int } else { 1int }),
    {
        let c = v[a];
        if c == ' ' || c == '\t' || c == '\n' || c == '\r' {
            proof {
                assert(v@.subrange(a as int, to as int).drop_first()
                    =~= v@.subrange(a + 1 as int, to as int));
            }
            a = a + 1;
        } else {
            front_done = true;
        }
    }
    proof {
        assert(trim_front(v@.subrange(a as int, to as int)) == v@.subrange(a as int, to as int));
    }
    let mut b: usize = to;
    let mut back_done = false;
    while !back_done && b > a
        invariant
            from <= a <= b <= to <= v@.len(),
            trim_back(v@.subrange(a as int, to as int)) == trim_back(
                v@.subrange(a as int, b as int),
            ),
            back_done ==> b > a && !is_space(v@[b - 1]),
        decreases b, (if back_done { 0int } else { 1int }),
    {
        let c = v[b - 1];
        if c == ' ' || c == '\t' || c == '\n' || c == '\r' {
            proof {
                assert(v@.subrange(a as int, b as int).drop_last()
                    =~= v@.subrange(a as int, b - 1 as int));
            }
            b = b - 1;
        } else {
            back_done = true;
        }
    }
    proof {
        assert(trim_back(v@.subrange(a as int, b as int)) == v@.subrange(a as int, b as int));
    }
    (a, b)
}

/// ASCII lower-casing of a span.
pub fn lower_span(v: &Vec<char>, from: usize, to: usize) -> (r: Vec<char>)
    requires
        from <= to <= v@.len(),
    ensures
        r@ == lower(v@.subrange(from as int, to as int)),
{
    let mut out: Vec<char> = Vec::new();
    let mut i: usize = from;
    while i < to
        invariant
            from <= i <= to <= v@.len(),
            out@ == lower(v@.subrange(from as int, i as int)),
        decreases to - i,
    {
        let c = v[i];
        let lc: char = if 'A' <= c && c <= 'Z' {
            ((c as u8) + 32) as char
        } else {
            c
        };
        out.push(lc);
        i = i + 1;
        proof {
            assert(out@ =~= lower(v@.subrange(from as int, i as int)));
        }
    }
    out
}

/// A longer digit prefix never denotes a smaller number.
pub proof fn lemma_digits_val_prefix_monotone(s: Seq<char>, k: int)
    requires
        0 <= k <= s.len(),
    ensures
        digits_val(s.subrange(0, k)) <= digits_val(s),
    decreases s.len() - k,
{
    if k < s.len() {
        lemma_digits_val_prefix_monotone(s, k + 1);
        assert(s.subrange(0, k + 1).drop_last() =~= s.subrange(0, k));
        assert(digits_val(s.subrange(0, k)) <= digits_val(s.subrange(0, k + 1)));
    } else {
        assert(s.subrange(0, k) =~= s);
    }
}

} // verus!
