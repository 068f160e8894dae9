//! Dimensional analysis for physical quantities in the MKSA system.
//!
//! The central type is [`MksUnit`], a vector of four signed integer exponents,
//! one per base dimension (meter, kilogram, second, ampere).  Dimension
//! vectors form a group: they combine by exponent addition under
//! multiplication and exponent subtraction under division, the all-zero
//! vector being the identity ("dimensionless").  A canonical string renderer
//! turns a vector into a human-readable unit such as `m / s^2`.
//!
//! Magnitudes themselves are floating-point numbers and live outside this
//! crate; callers pair a magnitude with a dimension vector and use the
//! operations here to track the dimension through their arithmetic.

use vstd::prelude::*;

pub mod laws;
pub mod list;
pub mod render;

verus! {

/// The mathematical model of a dimension vector: the four MKSA exponents as
/// unbounded integers (meter, kilogram, second, ampere).
#[verifier::ext_equal]
pub struct Dims {
    /// Exponent of meters.
    pub m: int,
    /// Exponent of kilograms.
    pub k: int,
    /// Exponent of seconds.
    pub s: int,
    /// Exponent of amperes.
    pub a: int,
}

impl Dims {
    /// The all-zero (dimensionless) vector, the group identity.
    pub open spec fn zero() -> Dims {
        Dims { m: 0, k: 0, s: 0, a: 0 }
    }

    /// Dimension of a product: exponents add.
    pub open spec fn mul(self, other: Dims) -> Dims {
        Dims { m: self.m + other.m, k: self.k + other.k, s: self.s + other.s, a: self.a + other.a }
    }

    /// Dimension of a quotient: exponents subtract.
    pub open spec fn div(self, other: Dims) -> Dims {
        Dims { m: self.m - other.m, k: self.k - other.k, s: self.s - other.s, a: self.a - other.a }
    }

    /// Dimension of an integer power: exponents scale by `n`.
    pub open spec fn pow(self, n: int) -> Dims {
        Dims { m: self.m * n, k: self.k * n, s: self.s * n, a: self.a * n }
    }

    /// Dimension of an `n`-th root: each exponent is divided by `n` with
    /// truncation toward zero, mirroring the executable semantics.  An
    /// exponent not divisible by `n` silently loses information; see
    /// [`crate::laws::lemma_root_pow_roundtrip`] for when the root is exact.
    pub open spec fn root(self, n: int) -> Dims {
        Dims {
            m: div_trunc(self.m, n),
            k: div_trunc(self.k, n),
            s: div_trunc(self.s, n),
            a: div_trunc(self.a, n),
        }
    }

    /// The vector with every exponent negated.
    pub open spec fn neg(self) -> Dims {
        Dims { m: -self.m, k: -self.k, s: -self.s, a: -self.a }
    }
}

/// Integer division truncating toward zero (the semantics of Rust's `/` on
/// signed integers), for a positive divisor `b`.
pub open spec fn div_trunc(a: int, b: int) -> int {
    if a >= 0 {
        a / b
    } else {
        -((-a) / b)
    }
}

/// MKS unit: a tuple of integer exponents, one per base dimension
/// (meter, kilogram, second, ampere).
///
/// Values are immutable: every operation returns a new vector.  Two units are
/// equal exactly when all four exponents match.  The practical exponent range
/// is small (roughly -16..=16); the operations state in their preconditions
/// that the results stay within `i8`.
#[derive(Debug, Copy, Clone)]
pub struct MksUnit {
    /// Exponent of meters.
    pub m: i8,
    /// Exponent of kilograms.
    pub k: i8,
    /// Exponent of seconds.
    pub s: i8,
    /// Exponent of amperes.
    pub a: i8,
}

impl View for MksUnit {
    type V = Dims;

    open spec fn view(&self) -> Dims {
        Dims { m: self.m as int, k: self.k as int, s: self.s as int, a: self.a as int }
    }
}

impl PartialEq for MksUnit {
    fn eq(&self, other: &Self) -> (r: bool) {
        self.m == other.m && self.k == other.k && self.s == other.s && self.a == other.a
    }
}

impl vstd::std_specs::cmp::PartialEqSpecImpl for MksUnit {
    open spec fn obeys_eq_spec() -> bool {
        true
    }

    open spec fn eq_spec(&self, other: &MksUnit) -> bool {
        self@ == other@
    }
}

impl MksUnit {
    /// Build a unit from its four exponents.
    pub fn new(m: i8, k: i8, s: i8, a: i8) -> (r: MksUnit)
        ensures
            r@ == (Dims { m: m as int, k: k as int, s: s as int, a: a as int }),
    {
        MksUnit { m, k, s, a }
    }

    /// The dimensionless unit: all exponents zero.
    pub fn dimensionless() -> (r: MksUnit)
        ensures
            r@ == Dims::zero(),
    {
        MksUnit { m: 0, k: 0, s: 0, a: 0 }
    }

    /// Unit of a product of two quantities: exponents add.
    pub fn mul(self, rhs: MksUnit) -> (r: MksUnit)
        requires
            i8::MIN <= self.m + rhs.m <= i8::MAX,
            i8::MIN <= self.k + rhs.k <= i8::MAX,
            i8::MIN <= self.s + rhs.s <= i8::MAX,
            i8::MIN <= self.a + rhs.a <= i8::MAX,
        ensures
            r@ == self@.mul(rhs@),
    {
        MksUnit { m: self.m + rhs.m, k: self.k + rhs.k, s: self.s + rhs.s, a: self.a + rhs.a }
    }

    /// Unit of a quotient of two quantities: exponents subtract.
    /// Dividing a unit by itself yields the dimensionless unit.
    pub fn div(self, rhs: MksUnit) -> (r: MksUnit)
        requires
            i8::MIN <= self.m - rhs.m <= i8::MAX,
            i8::MIN <= self.k - rhs.k <= i8::MAX,
            i8::MIN <= self.s - rhs.s <= i8::MAX,
            i8::MIN <= self.a - rhs.a <= i8::MAX,
        ensures
            r@ == self@.div(rhs@),
    {
        MksUnit { m: self.m - rhs.m, k: self.k - rhs.k, s: self.s - rhs.s, a: self.a - rhs.a }
    }

    /// Unit of an integer power: exponents scale by `n`.
    pub fn pow(self, n: i8) -> (r: MksUnit)
        requires
            i8::MIN <= self.m * n <= i8::MAX,
            i8::MIN <= self.k * n <= i8::MAX,
            i8::MIN <= self.s * n <= i8::MAX,
            i8::MIN <= self.a * n <= i8::MAX,
        ensures
            r@ == self@.pow(n as int),
    {
        MksUnit { m: self.m * n, k: self.k * n, s: self.s * n, a: self.a * n }
    }

    /// Unit of an `n`-th root: each exponent is divided by `n`, truncating
    /// toward zero.  An exponent not evenly divisible by `n` silently yields
    /// a dimensionally incorrect result; callers should only take roots of
    /// units whose every exponent `n` divides.
    pub fn root(self, n: i8) -> (r: MksUnit)
        requires
            n >= 1,
        ensures
            r@ == self@.root(n as int),
    {
        MksUnit {
            m: exp_root(self.m, n),
            k: exp_root(self.k, n),
            s: exp_root(self.s, n),
            a: exp_root(self.a, n),
        }
    }
}

/// One exponent of an `n`-th root: division by `n` truncating toward zero.
fn exp_root(e: i8, n: i8) -> (r: i8)
    requires
        n >= 1,
    ensures
        r as int == div_trunc(e as int, n as int),
{
    if e >= 0 {
        let q: u8 = (e as u8) / (n as u8);
        q as i8
    } else {
        let p: u16 = (-(e as i16)) as u16;
        let q: u16 = p / (n as u16);
        let r: i16 = -(q as i16);
        r as i8
    }
}

} // verus!
