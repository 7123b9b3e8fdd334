//! The shared gender-split extraction: a left-to-right scan in which `/`
//! switches accumulation from the men's to the women's number, digits feed
//! the active number, and everything else feeds the unit suffix. When no
//! `/` occurs, the women's value defaults to the men's.

use vstd::prelude::*;
use crate::text::{is_digit, all_digits, digits_val, dec_rep, parse_u32, string_from_chars, chars_of};

verus! {

/// The three buffers and the slash flag of the gender-split scan.
pub ghost struct GenderScan {
    pub men: Seq<char>,
    pub women: Seq<char>,
    pub unit: Seq<char>,
    pub slash: bool,
}

/// The scan state before any character is read.
pub open spec fn scan_init() -> GenderScan {
    GenderScan { men: Seq::empty(), women: Seq::empty(), unit: Seq::empty(), slash: false }
}

/// One character of the scan.
pub open spec fn scan_step(st: GenderScan, c: char) -> GenderScan {
    if c == '/' {
        GenderScan { men: st.men, women: st.women, unit: st.unit, slash: true }
    } else if is_digit(c) {
        if st.slash {
            GenderScan { men: st.men, women: st.women.push(c), unit: st.unit, slash: st.slash }
        } else {
            GenderScan { men: st.men.push(c), women: st.women, unit: st.unit, slash: st.slash }
        }
    } else {
        GenderScan { men: st.men, women: st.women, unit: st.unit.push(c), slash: st.slash }
    }
}

/// The scan run over a whole sequence, from a given state.
pub open spec fn scan_from(st: GenderScan, s: Seq<char>) -> GenderScan
    decreases s.len(),
{
    if s.len() == 0 {
        st
    } else {
        scan_step(scan_from(st, s.drop_last()), s.last())
    }
}

/// The scan of a gender-split string.
pub open spec fn gender_scan(s: Seq<char>) -> GenderScan {
    scan_from(scan_init(), s)
}

/// The digits that give the women's value: the women's buffer after a `/`,
/// the men's buffer otherwise.
pub open spec fn women_digits(s: Seq<char>) -> Seq<char> {
    if gender_scan(s).slash {
        gender_scan(s).women
    } else {
        gender_scan(s).men
    }
}

/// Whether the string is a well-formed gender-split value: both numeric
/// buffers are non-empty and fit an unsigned 32-bit number.
pub open spec fn split_ok(s: Seq<char>) -> bool {
    &&& gender_scan(s).men.len() > 0
    &&& digits_val(gender_scan(s).men) <= u32::MAX
    &&& women_digits(s).len() > 0
    &&& digits_val(women_digits(s)) <= u32::MAX
}

/// The men's value of a well-formed gender-split string.
pub open spec fn split_men_val(s: Seq<char>) -> nat {
    digits_val(gender_scan(s).men)
}

/// The women's value of a well-formed gender-split string.
pub open spec fn split_women_val(s: Seq<char>) -> nat {
    digits_val(women_digits(s))
}

/// The unit suffix of a gender-split string.
pub open spec fn split_unit(s: Seq<char>) -> Seq<char> {
    gender_scan(s).unit
}

/// Splits a gender-split string into the men's value, the women's value and
/// the unit text; fails when either numeric part is empty or does not fit.
pub fn split_gender_unit(w: &str) -> (r: Result<(u32, u32, String), String>)
    ensures
        match r {
            Ok(t) => {
                &&& split_ok(w@)
                &&& t.0 as nat == split_men_val(w@)
                &&& t.1 as nat == split_women_val(w@)
                &&& t.2@ == split_unit(w@)
            },
            Err(_) => !split_ok(w@),
        },
{
    let v = chars_of(w);
    let r = split_gender_unit_chars(&v, 0, v.len());
    proof {
        assert(v@.subrange(0, v@.len() as int) =~= w@);
    }
    r
}

/// The gender-split scan over a span of characters.
pub fn split_gender_unit_chars(v: &Vec<char>, from: usize, to: usize) -> (r: Result<
    (u32, u32, String),
    String,
>)
    requires
        from <= to <= v@.len(),
    ensures
        match r {
            Ok(t) => {
                &&& split_ok(v@.subrange(from as int, to as int))
                &&& t.0 as nat == split_men_val(v@.subrange(from as int, to as int))
                &&& t.1 as nat == split_women_val(v@.subrange(from as int, to as int))
                &&& t.2@ == split_unit(v@.subrange(from as int, to as int))
            },
            Err(_) => !split_ok(v@.subrange(from as int, to as int)),
        },
{
    let ghost s = v@.subrange(from as int, to as int);
    let mut men: Vec<char> = Vec::new();
    let mut women: Vec<char> = Vec::new();
    let mut unit: Vec<char> = Vec::new();
    let mut slash = false;
    let mut i: usize = from;
    while i < to
        invariant
            from <= i <= to <= v@.len(),
            s == v@.subrange(from as int, to as int),
            gender_scan(v@.subrange(from as int, i as int)) == (GenderScan {
                men: men@,
                women: women@,
                unit: unit@,
                slash: slash,
            }),
        decreases to - i,
    {
        let c = v[i];
        proof {
            assert(v@.subrange(from as int, i + 1 as int).drop_last()
                =~= v@.subrange(from as int, i as int));
            assert(v@.subrange(from as int, i + 1 as int).last() == c);
        }
        if c == '/' {
            slash = true;
        } else if '0' <= c && c <= '9' {
            if slash {
                women.push(c);
            } else {
                men.push(c);
            }
        } else {
            unit.push(c);
        }
        i = i + 1;
    }
    proof {
        assert(v@.subrange(from as int, to as int) =~= s);
    }
    let men_val = match parse_u32(&men, 0, men.len()) {
        Some(n) => n,
        None => {
            proof {
                assert(men@.subrange(0, men@.len() as int) =~= men@);
                lemma_scan_buffers_digits(scan_init(), s);
            }
            return Err(String::from_str("invalid gender-split value"));
        },
    };
    proof {
        assert(men@.subrange(0, men@.len() as int) =~= men@);
    }
    let women_val = if slash {
        match parse_u32(&women, 0, women.len()) {
            Some(n) => n,
            None => {
                proof {
                    assert(women@.subrange(0, women@.len() as int) =~= women@);
                    lemma_scan_buffers_digits(scan_init(), s);
                }
                return Err(String::from_str("invalid gender-split value"));
            },
        }
    } else {
        men_val
    };
    proof {
        if slash {
            assert(women@.subrange(0, women@.len() as int) =~= women@);
        }
    }
    let unit_s = string_from_chars(&unit, 0, unit.len());
    proof {
        assert(unit@.subrange(0, unit@.len() as int) =~= unit@);
    }
    Ok((men_val, women_val, unit_s))
}

/// The numeric buffers of the scan hold digits only.
pub proof fn lemma_scan_buffers_digits(st: GenderScan, s: Seq<char>)
    requires
        all_digits(st.men),
        all_digits(st.women),
    ensures
        all_digits(scan_from(st, s).men),
        all_digits(scan_from(st, s).women),
    decreases s.len(),
{
    if s.len() > 0 {
        lemma_scan_buffers_digits(st, s.drop_last());
    }
}

/// Without a `/`, the scan never switches to the women's buffer.
pub proof fn lemma_scan_no_slash(st: GenderScan, s: Seq<char>)
    requires
        !s.contains('/'),
        !st.slash,
    ensures
        !scan_from(st, s).slash,
    decreases s.len(),
{
    if s.len() > 0 {
        assert(forall|i: int| 0 <= i < s.len() - 1 ==> s.drop_last()[i] == s[i]);
        assert(!s.drop_last().contains('/'));
        lemma_scan_no_slash(st, s.drop_last());
    }
}

/// The gender-split default law: a value without `/` parses with the
/// women's number equal to the men's.
pub proof fn lemma_split_default(s: Seq<char>)
    requires
        !s.contains('/'),
    ensures
        split_women_val(s) == split_men_val(s),
{
    lemma_scan_no_slash(scan_init(), s);
}

/// The scan distributes over concatenation.
pub proof fn lemma_scan_append(st: GenderScan, a: Seq<char>, b: Seq<char>)
    ensures
        scan_from(st, a + b) == scan_from(scan_from(st, a), b),
    decreases b.len(),
{
    if b.len() == 0 {
        assert(a + b =~= a);
    } else {
        assert((a + b).drop_last() =~= a + b.drop_last());
        assert((a + b).last() == b.last());
        lemma_scan_append(st, a, b.drop_last());
    }
}

/// A run of digits feeds the active numeric buffer and nothing else.
pub proof fn lemma_scan_digits(st: GenderScan, d: Seq<char>)
    requires
        all_digits(d),
    ensures
        !st.slash ==> scan_from(st, d) == (GenderScan {
            men: st.men + d,
            women: st.women,
            unit: st.unit,
            slash: false,
        }),
        st.slash ==> scan_from(st, d) == (GenderScan {
            men: st.men,
            women: st.women + d,
            unit: st.unit,
            slash: true,
        }),
    decreases d.len(),
{
    if d.len() == 0 {
        assert(st.men + d =~= st.men);
        assert(st.women + d =~= st.women);
    } else {
        assert(forall|i: int| 0 <= i < d.len() - 1 ==> d.drop_last()[i] == d[i]);
        assert(all_digits(d.drop_last()));
        lemma_scan_digits(st, d.drop_last());
        assert(is_digit(d.last()));
        assert(d.last() != '/');
        if !st.slash {
            assert(st.men + d =~= (st.men + d.drop_last()).push(d.last()));
        } else {
            assert(st.women + d =~= (st.women + d.drop_last()).push(d.last()));
        }
    }
}

/// A run of unit characters (no digits, no `/`) feeds only the unit buffer.
pub proof fn lemma_scan_unit(st: GenderScan, u: Seq<char>)
    requires
        forall|i: int| 0 <= i < u.len() ==> !is_digit(#[trigger] u[i]) && u[i] != '/',
    ensures
        scan_from(st, u) == (GenderScan {
            men: st.men,
            women: st.women,
            unit: st.unit + u,
            slash: st.slash,
        }),
    decreases u.len(),
{
    if u.len() == 0 {
        assert(st.unit + u =~= st.unit);
    } else {
        assert(forall|i: int| 0 <= i < u.len() - 1 ==> u.drop_last()[i] == u[i]);
        lemma_scan_unit(st, u.drop_last());
        assert(st.unit + u =~= (st.unit + u.drop_last()).push(u.last()));
    }
}

/// The round-trip law for the split representation: a string assembled as
/// `<men>/<women><unit>` from decimal numbers and a digit-free, slash-free
/// unit parses back to exactly those three parts.
pub proof fn lemma_split_round_trip(m: nat, w: nat, u: Seq<char>)
    requires
        m <= u32::MAX,
        w <= u32::MAX,
        forall|i: int| 0 <= i < u.len() ==> !is_digit(#[trigger] u[i]) && u[i] != '/',
    ensures
        split_ok(dec_rep(m) + seq!['/'] + dec_rep(w) + u),
        split_men_val(dec_rep(m) + seq!['/'] + dec_rep(w) + u) == m,
        split_women_val(dec_rep(m) + seq!['/'] + dec_rep(w) + u) == w,
        split_unit(dec_rep(m) + seq!['/'] + dec_rep(w) + u) == u,
{
    let s = dec_rep(m) + seq!['/'] + dec_rep(w) + u;
    crate::text::lemma_dec_rep_digits(m);
    crate::text::lemma_dec_rep_digits(w);
    crate::text::lemma_digits_val_dec_rep(m);
    crate::text::lemma_digits_val_dec_rep(w);
    let st0 = scan_init();
    lemma_scan_digits(st0, dec_rep(m));
    let st1 = scan_from(st0, dec_rep(m));
    lemma_scan_append(st0, dec_rep(m), seq!['/']);
    let st2 = scan_from(st0, dec_rep(m) + seq!['/']);
    assert(scan_from(st1, seq!['/']) == scan_step(scan_from(st1, seq!['/'].drop_last()), '/'));
    assert(seq!['/'].drop_last() =~= Seq::<char>::empty());
    lemma_scan_append(st0, dec_rep(m) + seq!['/'], dec_rep(w));
    lemma_scan_digits(st2, dec_rep(w));
    let st3 = scan_from(st0, dec_rep(m) + seq!['/'] + dec_rep(w));
    assert((dec_rep(m) + seq!['/']) + dec_rep(w) =~= dec_rep(m) + seq!['/'] + dec_rep(w));
    lemma_scan_append(st0, dec_rep(m) + seq!['/'] + dec_rep(w), u);
    lemma_scan_unit(st3, u);
    assert((dec_rep(m) + seq!['/'] + dec_rep(w)) + u =~= s);
    assert(st1.men =~= dec_rep(m));
    assert(st3.women =~= dec_rep(w));
    assert(gender_scan(s).men =~= dec_rep(m));
    assert(gender_scan(s).women =~= dec_rep(w));
    assert(gender_scan(s).unit =~= u);
    assert(gender_scan(s).slash);
}

} // verus!
