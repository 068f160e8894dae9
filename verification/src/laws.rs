//! Group laws of the dimension-vector algebra, stated and proved over the
//! mathematical model [`Dims`].

use vstd::prelude::*;

use crate::render::{spec_pos_tokens, spec_render};
use crate::{div_trunc, Dims, MksUnit};

verus! {

/// Multiplication of dimension vectors is commutative.
pub proof fn lemma_mul_comm(a: Dims, b: Dims)
    ensures
        a.mul(b) == b.mul(a),
{
}

/// Multiplication of dimension vectors is associative.
pub proof fn lemma_mul_assoc(a: Dims, b: Dims, c: Dims)
    ensures
        a.mul(b).mul(c) == a.mul(b.mul(c)),
{
}

/// The all-zero vector is the identity of multiplication.
pub proof fn lemma_mul_identity(a: Dims)
    ensures
        a.mul(Dims::zero()) == a,
        Dims::zero().mul(a) == a,
{
    assert(a.mul(Dims::zero()) =~= a);
    assert(Dims::zero().mul(a) =~= a);
}

/// Dividing any vector by itself yields the dimensionless vector.
pub proof fn lemma_div_self(b: Dims)
    ensures
        b.div(b) == Dims::zero(),
{
    assert(b.div(b) =~= Dims::zero());
}

/// Multiplying by `b / b` behaves as the identity, for any `b`.
pub proof fn lemma_mul_div_self_identity(a: Dims, b: Dims)
    ensures
        a.mul(b.div(b)) == a,
{
    lemma_div_self(b);
    lemma_mul_identity(a);
}

/// Division cancels a preceding multiplication: `(a * b) / b == a`.
pub proof fn lemma_div_mul_cancel(a: Dims, b: Dims)
    ensures
        a.mul(b).div(b) == a,
{
    assert(a.mul(b).div(b) =~= a);
}

/// Equality of units is exact, field by field: two units are equal (in the
/// sense of `==`, whose meaning is view equality) if and only if all four
/// exponents match exactly.  There is no tolerance of any kind.
pub proof fn lemma_eq_exact(a: MksUnit, b: MksUnit)
    ensures
        (a@ == b@) <==> (a.m == b.m && a.k == b.k && a.s == b.s && a.a == b.a),
{
    if a.m == b.m && a.k == b.k && a.s == b.s && a.a == b.a {
        assert(a@ =~= b@);
    }
}

/// Truncating division is exact on multiples: if `n` divides `x` evenly,
/// dividing and re-multiplying restores `x`.
proof fn lemma_div_trunc_exact(x: int, n: int)
    requires
        n >= 1,
        x % n == 0,
    ensures
        div_trunc(x, n) * n == x,
{
    vstd::arithmetic::div_mod::lemma_fundamental_div_mod(x, n);
    assert(x == n * (x / n));
    if x < 0 {
        let q = x / n;
        assert(-x == (-q) * n + 0) by (nonlinear_arith)
            requires
                x == n * q,
        ;
        vstd::arithmetic::div_mod::lemma_fundamental_div_mod_converse_div(-x, n, -q, 0);
        assert(div_trunc(x, n) == q);
        assert(q * n == x) by (nonlinear_arith)
            requires
                x == n * q,
        ;
    } else {
        assert((x / n) * n == n * (x / n)) by (nonlinear_arith);
    }
}

/// Root/power round trip: when every exponent of `d` is evenly divisible by
/// `n`, taking the `n`-th root and raising back to the `n`-th power restores
/// `d` exactly.  (With an exponent that `n` does not divide, the truncating
/// root loses information and no such round trip holds.)
pub proof fn lemma_root_pow_roundtrip(d: Dims, n: int)
    requires
        n >= 1,
        d.m % n == 0,
        d.k % n == 0,
        d.s % n == 0,
        d.a % n == 0,
    ensures
        d.root(n).pow(n) == d,
{
    lemma_div_trunc_exact(d.m, n);
    lemma_div_trunc_exact(d.k, n);
    lemma_div_trunc_exact(d.s, n);
    lemma_div_trunc_exact(d.a, n);
    assert(d.root(n).pow(n) =~= d);
}

/// The all-zero (dimensionless) vector renders as the empty string.
pub proof fn lemma_render_dimensionless()
    ensures
        spec_render(Dims::zero()) == Seq::<char>::empty(),
{
    assert(Dims::zero().neg() =~= Dims::zero());
    assert(spec_pos_tokens(Dims::zero()) =~~= Seq::<Seq<char>>::empty());
}

/// Rendering does not depend on the order in which a vector was built up:
/// the products `a * b` and `b * a` render identically (the display order of
/// the dimension names is fixed by the renderer, not by construction).
pub proof fn lemma_render_order_independent(a: Dims, b: Dims)
    ensures
        spec_render(a.mul(b)) == spec_render(b.mul(a)),
{
    lemma_mul_comm(a, b);
}

/// A vector with no positive exponent and at least one negative exponent
/// renders as a string that begins with `1 / `.
pub proof fn lemma_render_only_negative(d: Dims)
    requires
        d.m <= 0,
        d.k <= 0,
        d.s <= 0,
        d.a <= 0,
        d.m < 0 || d.k < 0 || d.s < 0 || d.a < 0,
    ensures
        spec_render(d).len() >= 4,
        spec_render(d).take(4) == seq!['1', ' ', '/', ' '],
{
    assert(spec_pos_tokens(d) =~~= Seq::<Seq<char>>::empty());
    assert(spec_pos_tokens(d.neg()).len() > 0);
    assert(spec_render(d).take(4) =~= seq!['1', ' ', '/', ' ']);
}

} // verus!
