//! Canonical string rendering of dimension vectors.
//!
//! The rendered form lists the dimensions with positive exponent in the fixed
//! order meter, kilogram, second, ampere (as `m`, `kg`, `s`, `A`), each as
//! `name` or `name^N`, separated by single spaces.  If any exponent is
//! negative, ` / ` and the same formatting of the negated negative exponents
//! follow; a numerator with no positive exponents is written as the literal
//! `1`.  The all-zero vector renders as the empty string.

use vstd::prelude::*;

use crate::{Dims, MksUnit};

verus! {

/// The decimal digit character for `d` in `0..=9`.
pub open spec fn spec_digit(d: int) -> char {
    if d == 0 {
        '0'
    } else if d == 1 {
        '1'
    } else if d == 2 {
        '2'
    } else if d == 3 {
        '3'
    } else if d == 4 {
        '4'
    } else if d == 5 {
        '5'
    } else if d == 6 {
        '6'
    } else if d == 7 {
        '7'
    } else if d == 8 {
        '8'
    } else {
        '9'
    }
}

/// The decimal rendering of a nonnegative integer, most significant digit
/// first.
pub open spec fn spec_dec(n: int) -> Seq<char>
    decreases n,
{
    if n < 10 {
        seq![spec_digit(n)]
    } else {
        spec_dec(n / 10).push(spec_digit(n % 10))
    }
}

/// One dimension's token: its name alone for exponent 1, or `name^N` for an
/// exponent greater than 1.
pub open spec fn spec_pow_token(name: Seq<char>, p: int) -> Seq<char> {
    if p > 1 {
        name + seq!['^'] + spec_dec(p)
    } else {
        name
    }
}

/// The tokens of the dimensions of `d` with positive exponent, in the fixed
/// display order meter, kilogram, second, ampere.
pub open spec fn spec_pos_tokens(d: Dims) -> Seq<Seq<char>> {
    (if d.m > 0 {
        seq![spec_pow_token("m"@, d.m)]
    } else {
        Seq::<Seq<char>>::empty()
    }) + (if d.k > 0 {
        seq![spec_pow_token("kg"@, d.k)]
    } else {
        Seq::<Seq<char>>::empty()
    }) + (if d.s > 0 {
        seq![spec_pow_token("s"@, d.s)]
    } else {
        Seq::<Seq<char>>::empty()
    }) + (if d.a > 0 {
        seq![spec_pow_token("A"@, d.a)]
    } else {
        Seq::<Seq<char>>::empty()
    })
}

/// Tokens joined by single spaces.
pub open spec fn spec_join(toks: Seq<Seq<char>>) -> Seq<char>
    decreases toks.len(),
{
    if toks.len() == 0 {
        Seq::empty()
    } else if toks.len() == 1 {
        toks[0]
    } else {
        spec_join(toks.drop_last()) + seq![' '] + toks.last()
    }
}

/// The canonical rendering of a dimension vector, as defined at the top of
/// this module.
pub open spec fn spec_render(d: Dims) -> Seq<char> {
    let pos = spec_pos_tokens(d);
    let neg = spec_pos_tokens(d.neg());
    if pos.len() == 0 && neg.len() == 0 {
        Seq::empty()
    } else {
        let numer = if pos.len() > 0 {
            spec_join(pos)
        } else {
            seq!['1']
        };
        if neg.len() > 0 {
            numer + seq![' ', '/', ' '] + spec_join(neg)
        } else {
            numer
        }
    }
}

/// The views of a vector of strings.
spec fn views_of(toks: Seq<String>) -> Seq<Seq<char>> {
    toks.map_values(|t: String| t@)
}

/// Append the decimal digit character for `d` in `0..=9`.
fn append_digit(out: &mut String, d: u8)
    requires
        d < 10,
    ensures
        final(out)@ == old(out)@ + seq![spec_digit(d as int)],
{
    proof {
        reveal_strlit("0");
        reveal_strlit("1");
        reveal_strlit("2");
        reveal_strlit("3");
        reveal_strlit("4");
        reveal_strlit("5");
        reveal_strlit("6");
        reveal_strlit("7");
        reveal_strlit("8");
        reveal_strlit("9");
    }
    if d == 0 {
        out.append("0");
    } else if d == 1 {
        out.append("1");
    } else if d == 2 {
        out.append("2");
    } else if d == 3 {
        out.append("3");
    } else if d == 4 {
        out.append("4");
    } else if d == 5 {
        out.append("5");
    } else if d == 6 {
        out.append("6");
    } else if d == 7 {
        out.append("7");
    } else if d == 8 {
        out.append("8");
    } else {
        out.append("9");
    }
    assert(final(out)@ =~= old(out)@ + seq![spec_digit(d as int)]);
}

/// Append the decimal rendering of `n`, most significant digit first.
fn append_dec(out: &mut String, n: u8)
    ensures
        final(out)@ == old(out)@ + spec_dec(n as int),
    decreases n,
{
    if n >= 10 {
        append_dec(out, n / 10);
    }
    append_digit(out, n % 10);
    proof {
        if n < 10 {
            assert(n % 10 == n);
        }
        assert(final(out)@ =~= old(out)@ + spec_dec(n as int));
    }
}

/// Render one dimension's token, `name` or `name^N`.
fn power_token(name: &str, p: u8) -> (t: String)
    requires
        p >= 1,
    ensures
        t@ == spec_pow_token(name@, p as int),
{
    let mut t = String::from_str(name);
    if p > 1 {
        proof {
            reveal_strlit("^");
        }
        t.append("^");
        append_dec(&mut t, p);
        assert(t@ =~= spec_pow_token(name@, p as int));
    }
    t
}

/// Collect the tokens of the dimensions with nonzero magnitude among the
/// given exponent magnitudes, in the fixed display order.
fn group_tokens(m: u8, k: u8, s: u8, a: u8) -> (toks: Vec<String>)
    ensures
        views_of(toks@) == spec_pos_tokens(
            (Dims { m: m as int, k: k as int, s: s as int, a: a as int }),
        ),
{
    let ghost d = Dims { m: m as int, k: k as int, s: s as int, a: a as int };
    let mut toks: Vec<String> = Vec::new();
    if m > 0 {
        toks.push(power_token("m", m));
    }
    if k > 0 {
        toks.push(power_token("kg", k));
    }
    if s > 0 {
        toks.push(power_token("s", s));
    }
    if a > 0 {
        toks.push(power_token("A", a));
    }
    assert(views_of(toks@) =~~= spec_pos_tokens(d));
    toks
}

/// Join rendered tokens with single spaces.
fn join_tokens(toks: &Vec<String>) -> (out: String)
    ensures
        out@ == spec_join(views_of(toks@)),
{
    let mut out = String::new();
    let mut i: usize = 0;
    while i < toks.len()
        invariant
            i <= toks.len(),
            out@ == spec_join(views_of(toks@).take(i as int)),
        decreases toks.len() - i,
    {
        if i > 0 {
            out.append(" ");
        }
        out.append(toks[i].as_str());
        i = i + 1;
        proof {
            reveal_strlit(" ");
            let vs = views_of(toks@);
            assert(vs.take(i as int).drop_last() =~~= vs.take(i as int - 1));
            assert(vs.take(i as int).last() == vs[i as int - 1]);
            assert(out@ =~= spec_join(vs.take(i as int)));
        }
    }
    assert(views_of(toks@).take(toks.len() as int) =~~= views_of(toks@));
    out
}

/// The magnitude of a negative exponent.
fn neg_magnitude(e: i8) -> (p: u8)
    requires
        e < 0,
    ensures
        p as int == -(e as int),
{
    (-(e as i16)) as u8
}

/// Tokens produced by [`spec_pos_tokens`] depend only on which exponents are
/// positive and on the value of those positive exponents.
proof fn lemma_pos_tokens_agree(d1: Dims, d2: Dims)
    requires
        d1.m > 0 <==> d2.m > 0,
        d1.m > 0 ==> d1.m == d2.m,
        d1.k > 0 <==> d2.k > 0,
        d1.k > 0 ==> d1.k == d2.k,
        d1.s > 0 <==> d2.s > 0,
        d1.s > 0 ==> d1.s == d2.s,
        d1.a > 0 <==> d2.a > 0,
        d1.a > 0 ==> d1.a == d2.a,
    ensures
        spec_pos_tokens(d1) == spec_pos_tokens(d2),
{
    assert(spec_pos_tokens(d1) =~~= spec_pos_tokens(d2));
}

impl MksUnit {
    /// Render this unit in its canonical human-readable form, for example
    /// `m / s^2` for an acceleration or the empty string for a dimensionless
    /// unit.
    pub fn as_string(&self) -> (r: String)
        ensures
            r@ == spec_render(self@),
    {
        let pm: u8 = if self.m > 0 { self.m as u8 } else { 0 };
        let pk: u8 = if self.k > 0 { self.k as u8 } else { 0 };
        let ps: u8 = if self.s > 0 { self.s as u8 } else { 0 };
        let pa: u8 = if self.a > 0 { self.a as u8 } else { 0 };
        let nm: u8 = if self.m < 0 { neg_magnitude(self.m) } else { 0 };
        let nk: u8 = if self.k < 0 { neg_magnitude(self.k) } else { 0 };
        let ns: u8 = if self.s < 0 { neg_magnitude(self.s) } else { 0 };
        let na: u8 = if self.a < 0 { neg_magnitude(self.a) } else { 0 };
        proof {
            lemma_pos_tokens_agree(
                Dims { m: pm as int, k: pk as int, s: ps as int, a: pa as int },
                self@,
            );
            lemma_pos_tokens_agree(
                Dims { m: nm as int, k: nk as int, s: ns as int, a: na as int },
                self@.neg(),
            );
            reveal_strlit("1");
            reveal_strlit(" / ");
        }
        let pos = group_tokens(pm, pk, ps, pa);
        let neg = group_tokens(nm, nk, ns, na);
        let mut out: String;
        if pos.len() > 0 {
            out = join_tokens(&pos);
        } else if neg.len() > 0 {
            out = String::from_str("1");
            assert(out@ =~= seq!['1']);
        } else {
            out = String::new();
        }
        if neg.len() > 0 {
            out.append(" / ");
            assert(" / "@ =~= seq![' ', '/', ' ']);
            let denom = join_tokens(&neg);
            out.append(denom.as_str());
        }
        assert(out@ =~= spec_render(self@));
        out
    }

    /// The canonical rendering wrapped in brackets, for example `[m / s]`;
    /// a dimensionless unit renders as `[]`.
    pub fn to_string(&self) -> (r: String)
        ensures
            r@ == seq!['['] + spec_render(self@) + seq![']'],
    {
        proof {
            reveal_strlit("[");
            reveal_strlit("]");
        }
        let mut out = String::from_str("[");
        let body = self.as_string();
        out.append(body.as_str());
        out.append("]");
        assert(out@ =~= seq!['['] + spec_render(self@) + seq![']']);
        out
    }
}

} // verus!
