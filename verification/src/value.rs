//! The numeric ground the scales stand on: exact rational numbers extended
//! with the three special values of floating-point arithmetic (`NaN` and the
//! two infinities), so that division by an empty range or an out-of-domain
//! query propagates exactly the way IEEE-754 arithmetic would, while every
//! finite result stays an exact fraction.

use vstd::arithmetic::div_mod::{
    lemma_div_nonincreasing, lemma_fundamental_div_mod, lemma_mod_multiples_vanish,
    lemma_mod_self_0, lemma_small_mod,
};
use vstd::prelude::*;

verus! {

/// A fraction `num / den`. Well-formed values keep `den >= 1`; results are
/// not reduced, so two `Rat`s are equal as numbers when their cross products
/// agree, not necessarily when their fields do.
#[derive(Clone, Copy, Debug)]
pub struct Rat {
    pub num: i64,
    pub den: i64,
}

/// An extended rational: a finite fraction, one of the two infinities, or the
/// propagating "not a number". Arithmetic on `Val` mirrors the special-value
/// rules of IEEE-754, with one deliberate difference: a finite result whose
/// exact numerator or denominator no longer fits `i64` collapses to `Nan`
/// instead of being rounded.
#[derive(Clone, Copy, Debug)]
pub enum Val {
    Nan,
    NegInf,
    PosInf,
    Num(Rat),
}

/// The mathematical model of a `Val`: the same four shapes over unbounded
/// integers. All contracts of this crate speak in terms of `Ext`.
pub enum Ext {
    Nan,
    NegInf,
    PosInf,
    Fin(int, int),
}

impl View for Val {
    type V = Ext;

    open spec fn view(&self) -> Ext {
        match self {
            Val::Nan => Ext::Nan,
            Val::NegInf => Ext::NegInf,
            Val::PosInf => Ext::PosInf,
            Val::Num(r) => Ext::Fin(r.num as int, r.den as int),
        }
    }
}

/// `n` is representable as an `i64`.
pub open spec fn fits(n: int) -> bool {
    i64::MIN <= n && n <= i64::MAX
}

/// Well-formedness: finite values carry a representable fraction with a
/// positive denominator.
pub open spec fn ext_wf(e: Ext) -> bool {
    match e {
        Ext::Fin(n, d) => fits(n) && fits(d) && d >= 1,
        _ => true,
    }
}

/// The finite value `n / d` when both parts are representable, `Nan` when the
/// exact result has outgrown `i64`.
pub open spec fn fin_or_nan(n: int, d: int) -> Ext {
    if fits(n) && fits(d) {
        Ext::Fin(n, d)
    } else {
        Ext::Nan
    }
}

/// Exact addition with IEEE-754 special-value rules.
pub open spec fn ext_add(a: Ext, b: Ext) -> Ext {
    match (a, b) {
        (Ext::Nan, _) => Ext::Nan,
        (_, Ext::Nan) => Ext::Nan,
        (Ext::PosInf, Ext::NegInf) => Ext::Nan,
        (Ext::NegInf, Ext::PosInf) => Ext::Nan,
        (Ext::PosInf, _) => Ext::PosInf,
        (_, Ext::PosInf) => Ext::PosInf,
        (Ext::NegInf, _) => Ext::NegInf,
        (_, Ext::NegInf) => Ext::NegInf,
        (Ext::Fin(n1, d1), Ext::Fin(n2, d2)) => fin_or_nan(n1 * d2 + n2 * d1, d1 * d2),
    }
}

/// Exact subtraction with IEEE-754 special-value rules.
pub open spec fn ext_sub(a: Ext, b: Ext) -> Ext {
    match (a, b) {
        (Ext::Nan, _) => Ext::Nan,
        (_, Ext::Nan) => Ext::Nan,
        (Ext::PosInf, Ext::PosInf) => Ext::Nan,
        (Ext::NegInf, Ext::NegInf) => Ext::Nan,
        (Ext::PosInf, _) => Ext::PosInf,
        (_, Ext::PosInf) => Ext::NegInf,
        (Ext::NegInf, _) => Ext::NegInf,
        (_, Ext::NegInf) => Ext::PosInf,
        (Ext::Fin(n1, d1), Ext::Fin(n2, d2)) => fin_or_nan(n1 * d2 - n2 * d1, d1 * d2),
    }
}

/// Exact multiplication with IEEE-754 special-value rules; in particular an
/// infinity times zero is `Nan`.
pub open spec fn ext_mul(a: Ext, b: Ext) -> Ext {
    match (a, b) {
        (Ext::Nan, _) => Ext::Nan,
        (_, Ext::Nan) => Ext::Nan,
        (Ext::PosInf, Ext::PosInf) => Ext::PosInf,
        (Ext::PosInf, Ext::NegInf) => Ext::NegInf,
        (Ext::NegInf, Ext::PosInf) => Ext::NegInf,
        (Ext::NegInf, Ext::NegInf) => Ext::PosInf,
        (Ext::PosInf, Ext::Fin(n, d)) => if n == 0 {
            Ext::Nan
        } else if n > 0 {
            Ext::PosInf
        } else {
            Ext::NegInf
        },
        (Ext::Fin(n, d), Ext::PosInf) => if n == 0 {
            Ext::Nan
        } else if n > 0 {
            Ext::PosInf
        } else {
            Ext::NegInf
        },
        (Ext::NegInf, Ext::Fin(n, d)) => if n == 0 {
            Ext::Nan
        } else if n > 0 {
            Ext::NegInf
        } else {
            Ext::PosInf
        },
        (Ext::Fin(n, d), Ext::NegInf) => if n == 0 {
            Ext::Nan
        } else if n > 0 {
            Ext::NegInf
        } else {
            Ext::PosInf
        },
        (Ext::Fin(n1, d1), Ext::Fin(n2, d2)) => fin_or_nan(n1 * n2, d1 * d2),
    }
}

/// Exact division with IEEE-754 special-value rules: a nonzero finite value
/// divided by zero is a signed infinity, zero by zero is `Nan`, a finite value
/// divided by an infinity is zero.
pub open spec fn ext_div(a: Ext, b: Ext) -> Ext {
    match (a, b) {
        (Ext::Nan, _) => Ext::Nan,
        (_, Ext::Nan) => Ext::Nan,
        (Ext::PosInf, Ext::PosInf) => Ext::Nan,
        (Ext::PosInf, Ext::NegInf) => Ext::Nan,
        (Ext::NegInf, Ext::PosInf) => Ext::Nan,
        (Ext::NegInf, Ext::NegInf) => Ext::Nan,
        (Ext::Fin(n, d), Ext::PosInf) => Ext::Fin(0, 1),
        (Ext::Fin(n, d), Ext::NegInf) => Ext::Fin(0, 1),
        (Ext::PosInf, Ext::Fin(n, d)) => if n >= 0 {
            Ext::PosInf
        } else {
            Ext::NegInf
        },
        (Ext::NegInf, Ext::Fin(n, d)) => if n >= 0 {
            Ext::NegInf
        } else {
            Ext::PosInf
        },
        (Ext::Fin(n1, d1), Ext::Fin(n2, d2)) => if n2 == 0 {
            if n1 == 0 {
                Ext::Nan
            } else if n1 > 0 {
                Ext::PosInf
            } else {
                Ext::NegInf
            }
        } else if n2 > 0 {
            fin_or_nan(n1 * d2, d1 * n2)
        } else {
            fin_or_nan(-(n1 * d2), -(d1 * n2))
        },
    }
}

/// Strict order; `Nan` compares with nothing, matching IEEE-754.
pub open spec fn ext_lt(a: Ext, b: Ext) -> bool {
    match (a, b) {
        (Ext::Nan, _) => false,
        (_, Ext::Nan) => false,
        (Ext::NegInf, Ext::NegInf) => false,
        (Ext::NegInf, _) => true,
        (_, Ext::NegInf) => false,
        (Ext::PosInf, _) => false,
        (_, Ext::PosInf) => true,
        (Ext::Fin(n1, d1), Ext::Fin(n2, d2)) => n1 * d2 < n2 * d1,
    }
}

/// Non-strict order; false whenever `Nan` is involved.
pub open spec fn ext_le(a: Ext, b: Ext) -> bool {
    match (a, b) {
        (Ext::Nan, _) => false,
        (_, Ext::Nan) => false,
        (Ext::NegInf, _) => true,
        (_, Ext::NegInf) => false,
        (_, Ext::PosInf) => true,
        (Ext::PosInf, _) => false,
        (Ext::Fin(n1, d1), Ext::Fin(n2, d2)) => n1 * d2 <= n2 * d1,
    }
}

/// Equality in the model: the same special value, or finite fractions whose
/// cross products agree. Unlike the executable `==`, `Nan` equals `Nan` here.
pub open spec fn ext_eq(a: Ext, b: Ext) -> bool {
    match (a, b) {
        (Ext::Nan, Ext::Nan) => true,
        (Ext::NegInf, Ext::NegInf) => true,
        (Ext::PosInf, Ext::PosInf) => true,
        (Ext::Fin(n1, d1), Ext::Fin(n2, d2)) => n1 * d2 == n2 * d1,
        _ => false,
    }
}

/// Executable equality, with IEEE-754 semantics: `Nan` equals nothing, two
/// finite fractions are equal when they denote the same number.
pub open spec fn ext_ieee_eq(a: Ext, b: Ext) -> bool {
    match (a, b) {
        (Ext::Nan, _) => false,
        (_, Ext::Nan) => false,
        (Ext::NegInf, Ext::NegInf) => true,
        (Ext::PosInf, Ext::PosInf) => true,
        (Ext::Fin(n1, d1), Ext::Fin(n2, d2)) => n1 * d2 == n2 * d1,
        _ => false,
    }
}

/// Both factors fit `i64`, so their product stays well inside `i128`.
proof fn lemma_i64_prod_in_i128(x: int, y: int)
    requires
        fits(x),
        fits(y),
    ensures
        -(0x8000_0000_0000_0000 * 0x8000_0000_0000_0000) <= x * y,
        x * y <= 0x8000_0000_0000_0000 * 0x8000_0000_0000_0000,
        i128::MIN < x * y < i128::MAX,
{
    assert(-(0x8000_0000_0000_0000 * 0x8000_0000_0000_0000) <= x * y
        <= 0x8000_0000_0000_0000 * 0x8000_0000_0000_0000) by (nonlinear_arith)
        requires
            -0x8000_0000_0000_0000 <= x <= 0x8000_0000_0000_0000,
            -0x8000_0000_0000_0000 <= y <= 0x8000_0000_0000_0000,
    ;
}

/// A numerator times a well-formed denominator: the product is bounded
/// tightly enough that two of them still add up inside `i128`.
proof fn lemma_num_den_prod(x: int, d: int)
    requires
        fits(x),
        1 <= d <= i64::MAX,
    ensures
        -(0x8000_0000_0000_0000 * 0x7fff_ffff_ffff_ffff) <= x * d,
        x * d <= 0x8000_0000_0000_0000 * 0x7fff_ffff_ffff_ffff,
{
    assert(-(0x8000_0000_0000_0000 * 0x7fff_ffff_ffff_ffff) <= x * d
        <= 0x8000_0000_0000_0000 * 0x7fff_ffff_ffff_ffff) by (nonlinear_arith)
        requires
            -0x8000_0000_0000_0000 <= x <= 0x8000_0000_0000_0000,
            1 <= d <= 0x7fff_ffff_ffff_ffff,
    ;
}

/// The product of two positive integers is positive.
proof fn lemma_mul_pos_pos(x: int, y: int)
    requires
        x >= 1,
        y >= 1,
    ensures
        x * y >= 1,
{
    assert(x * y >= 1) by (nonlinear_arith)
        requires
            x >= 1,
            y >= 1,
    ;
}

/// The product of a positive and a negative integer is negative.
proof fn lemma_mul_pos_neg(x: int, y: int)
    requires
        x >= 1,
        y <= -1,
    ensures
        x * y <= -1,
{
    assert(x * y <= -1) by (nonlinear_arith)
        requires
            x >= 1,
            y <= -1,
    ;
}

/// Euclid's recursion on nonnegative integers.
pub open spec fn gcd_int(a: int, b: int) -> int
    decreases b,
{
    if b <= 0 {
        a
    } else {
        gcd_int(b, a % b)
    }
}

/// Euclid's recursion yields a positive common divisor whenever one of its
/// arguments is positive.
pub proof fn lemma_gcd_props(a: int, b: int)
    requires
        a >= 0,
        b >= 0,
        a > 0 || b > 0,
    ensures
        gcd_int(a, b) >= 1,
        a % gcd_int(a, b) == 0,
        b % gcd_int(a, b) == 0,
    decreases b,
{
    let g = gcd_int(a, b);
    if b == 0 {
        lemma_mod_self_0(a);
        lemma_small_mod(0nat, a as nat);
    } else {
        let r = a % b;
        lemma_gcd_props(b, r);
        lemma_fundamental_div_mod(a, b);
        lemma_fundamental_div_mod(b, g);
        let k = a / b;
        let x = k * (b / g);
        assert(b * k == g * x) by (nonlinear_arith)
            requires
                b == g * (b / g),
                x == k * (b / g),
        ;
        assert(a == g * x + r);
        lemma_mod_multiples_vanish(x, r, g);
    }
}

/// Euclid's algorithm, the executable side of `gcd_int`.
fn gcd_u64(a: u64, b: u64) -> (g: u64)
    ensures
        g as int == gcd_int(a as int, b as int),
{
    let mut x = a;
    let mut y = b;
    while y != 0
        invariant
            gcd_int(x as int, y as int) == gcd_int(a as int, b as int),
        decreases y,
    {
        let r = x % y;
        x = y;
        y = r;
    }
    x
}

impl Val {
    /// The value is a well-formed fraction or a special value.
    pub open spec fn valid(self) -> bool {
        ext_wf(self@)
    }

    /// True exactly on the `Nan` value.
    pub fn is_nan(self) -> (r: bool)
        ensures
            r == (self@ is Nan),
    {
        match self {
            Val::Nan => true,
            _ => false,
        }
    }

    /// The whole number `n`.
    pub fn of_int(n: i64) -> (r: Val)
        ensures
            r@ == Ext::Fin(n as int, 1),
            r.valid(),
    {
        Val::Num(Rat { num: n, den: 1 })
    }

    /// The fraction `num / den`, reduced, with the quotient's special-value
    /// rules when `den` is zero: `ratio(n, 0)` is a signed infinity for
    /// nonzero `n` and `Nan` for `n == 0`.
    pub fn ratio(num: i64, den: i64) -> (r: Val)
        ensures
            ext_eq(r@, ext_div(Ext::Fin(num as int, 1), Ext::Fin(den as int, 1))),
            r.valid(),
    {
        let raw = Val::ratio_raw(num, den);
        raw.reduced()
    }

    /// The fraction `num / den` exactly as given.
    fn ratio_raw(num: i64, den: i64) -> (r: Val)
        ensures
            r@ == ext_div(Ext::Fin(num as int, 1), Ext::Fin(den as int, 1)),
            r.valid(),
    {
        if den == 0 {
            if num == 0 {
                Val::Nan
            } else if num > 0 {
                Val::PosInf
            } else {
                Val::NegInf
            }
        } else if den > 0 {
            Val::Num(Rat { num, den })
        } else {
            let n = -(num as i128);
            let d = -(den as i128);
            if n < i64::MIN as i128 || n > i64::MAX as i128 || d > i64::MAX as i128 {
                Val::Nan
            } else {
                Val::Num(Rat { num: n as i64, den: d as i64 })
            }
        }
    }

    /// The same number with numerator and denominator divided by their
    /// greatest common divisor. Arithmetic does not reduce its results, so a
    /// long chain of operations can outgrow `i64` and collapse to `Nan`;
    /// reducing at the points where values are built keeps the
    /// representation small without touching the arithmetic's contracts.
    pub fn reduced(self) -> (r: Val)
        requires
            self.valid(),
        ensures
            ext_eq(r@, self@),
            r.valid(),
    {
        match self {
            Val::Num(rat) => {
                let mag: u64 = if rat.num < 0 {
                    (-(rat.num as i128)) as u64
                } else {
                    rat.num as u64
                };
                let g = gcd_u64(mag, rat.den as u64);
                proof {
                    lemma_gcd_props(mag as int, rat.den as int);
                    lemma_fundamental_div_mod(mag as int, g as int);
                    lemma_fundamental_div_mod(rat.den as int, g as int);
                    lemma_div_nonincreasing(mag as int, g as int);
                    lemma_div_nonincreasing(rat.den as int, g as int);
                    assert(rat.den as int / g as int >= 1) by (nonlinear_arith)
                        requires
                            rat.den as int == g as int * (rat.den as int / g as int),
                            rat.den as int >= 1,
                            g as int >= 1,
                    ;
                    assert((mag as int / g as int) * (rat.den as int) == (mag as int) * (
                    rat.den as int / g as int)) by (nonlinear_arith)
                        requires
                            mag as int == g as int * (mag as int / g as int),
                            rat.den as int == g as int * (rat.den as int / g as int),
                    ;
                }
                let new_mag = mag / g;
                let new_den = (rat.den as u64) / g;
                let num: i64 = if rat.num < 0 {
                    if new_mag == 0x8000_0000_0000_0000u64 {
                        i64::MIN
                    } else {
                        -(new_mag as i64)
                    }
                } else {
                    new_mag as i64
                };
                proof {
                    let mq = mag as int / g as int;
                    let dq = rat.den as int / g as int;
                    if rat.num < 0 {
                        assert((-mq) * (rat.den as int) == (-(mag as int)) * dq)
                            by (nonlinear_arith)
                            requires
                                mq * (rat.den as int) == (mag as int) * dq,
                        ;
                    }
                }
                Val::Num(Rat { num, den: new_den as i64 })
            },
            v => v,
        }
    }

    /// Exact sum, by the rules of `ext_add`.
    pub fn add(self, rhs: Val) -> (r: Val)
        requires
            self.valid(),
            rhs.valid(),
        ensures
            r@ == ext_add(self@, rhs@),
            r.valid(),
    {
        match (self, rhs) {
            (Val::Nan, _) => Val::Nan,
            (_, Val::Nan) => Val::Nan,
            (Val::PosInf, Val::NegInf) => Val::Nan,
            (Val::NegInf, Val::PosInf) => Val::Nan,
            (Val::PosInf, _) => Val::PosInf,
            (_, Val::PosInf) => Val::PosInf,
            (Val::NegInf, _) => Val::NegInf,
            (_, Val::NegInf) => Val::NegInf,
            (Val::Num(a), Val::Num(b)) => {
                proof {
                    lemma_num_den_prod(a.num as int, b.den as int);
                    lemma_num_den_prod(b.num as int, a.den as int);
                    lemma_num_den_prod(a.den as int, b.den as int);
                    lemma_mul_pos_pos(a.den as int, b.den as int);
                }
                let n = (a.num as i128) * (b.den as i128) + (b.num as i128) * (a.den as i128);
                let d = (a.den as i128) * (b.den as i128);
                Val::fitted(n, d)
            },
        }
    }

    /// Exact difference, by the rules of `ext_sub`.
    pub fn sub(self, rhs: Val) -> (r: Val)
        requires
            self.valid(),
            rhs.valid(),
        ensures
            r@ == ext_sub(self@, rhs@),
            r.valid(),
    {
        match (self, rhs) {
            (Val::Nan, _) => Val::Nan,
            (_, Val::Nan) => Val::Nan,
            (Val::PosInf, Val::PosInf) => Val::Nan,
            (Val::NegInf, Val::NegInf) => Val::Nan,
            (Val::PosInf, _) => Val::PosInf,
            (_, Val::PosInf) => Val::NegInf,
            (Val::NegInf, _) => Val::NegInf,
            (_, Val::NegInf) => Val::PosInf,
            (Val::Num(a), Val::Num(b)) => {
                proof {
                    lemma_num_den_prod(a.num as int, b.den as int);
                    lemma_num_den_prod(b.num as int, a.den as int);
                    lemma_num_den_prod(a.den as int, b.den as int);
                    lemma_mul_pos_pos(a.den as int, b.den as int);
                }
                let n = (a.num as i128) * (b.den as i128) - (b.num as i128) * (a.den as i128);
                let d = (a.den as i128) * (b.den as i128);
                Val::fitted(n, d)
            },
        }
    }

    /// Exact product, by the rules of `ext_mul`.
    pub fn mul(self, rhs: Val) -> (r: Val)
        requires
            self.valid(),
            rhs.valid(),
        ensures
            r@ == ext_mul(self@, rhs@),
            r.valid(),
    {
        match (self, rhs) {
            (Val::Nan, _) => Val::Nan,
            (_, Val::Nan) => Val::Nan,
            (Val::PosInf, Val::PosInf) => Val::PosInf,
            (Val::PosInf, Val::NegInf) => Val::NegInf,
            (Val::NegInf, Val::PosInf) => Val::NegInf,
            (Val::NegInf, Val::NegInf) => Val::PosInf,
            (Val::PosInf, Val::Num(b)) => Val::inf_times(true, b.num),
            (Val::Num(a), Val::PosInf) => Val::inf_times(true, a.num),
            (Val::NegInf, Val::Num(b)) => Val::inf_times(false, b.num),
            (Val::Num(a), Val::NegInf) => Val::inf_times(false, a.num),
            (Val::Num(a), Val::Num(b)) => {
                proof {
                    lemma_i64_prod_in_i128(a.num as int, b.num as int);
                    lemma_num_den_prod(a.den as int, b.den as int);
                    lemma_mul_pos_pos(a.den as int, b.den as int);
                }
                let n = (a.num as i128) * (b.num as i128);
                let d = (a.den as i128) * (b.den as i128);
                Val::fitted(n, d)
            },
        }
    }

    /// Exact quotient, by the rules of `ext_div`.
    pub fn div(self, rhs: Val) -> (r: Val)
        requires
            self.valid(),
            rhs.valid(),
        ensures
            r@ == ext_div(self@, rhs@),
            r.valid(),
    {
        match (self, rhs) {
            (Val::Nan, _) => Val::Nan,
            (_, Val::Nan) => Val::Nan,
            (Val::PosInf, Val::PosInf) => Val::Nan,
            (Val::PosInf, Val::NegInf) => Val::Nan,
            (Val::NegInf, Val::PosInf) => Val::Nan,
            (Val::NegInf, Val::NegInf) => Val::Nan,
            (Val::Num(a), Val::PosInf) => Val::Num(Rat { num: 0, den: 1 }),
            (Val::Num(a), Val::NegInf) => Val::Num(Rat { num: 0, den: 1 }),
            (Val::PosInf, Val::Num(b)) => if b.num >= 0 {
                Val::PosInf
            } else {
                Val::NegInf
            },
            (Val::NegInf, Val::Num(b)) => if b.num >= 0 {
                Val::NegInf
            } else {
                Val::PosInf
            },
            (Val::Num(a), Val::Num(b)) => {
                if b.num == 0 {
                    if a.num == 0 {
                        Val::Nan
                    } else if a.num > 0 {
                        Val::PosInf
                    } else {
                        Val::NegInf
                    }
                } else {
                    proof {
                        lemma_num_den_prod(a.num as int, b.den as int);
                        lemma_i64_prod_in_i128(a.den as int, b.num as int);
                        if b.num > 0 {
                            lemma_mul_pos_pos(a.den as int, b.num as int);
                        } else {
                            lemma_mul_pos_neg(a.den as int, b.num as int);
                        }
                    }
                    let n = (a.num as i128) * (b.den as i128);
                    let d = (a.den as i128) * (b.num as i128);
                    if b.num > 0 {
                        Val::fitted(n, d)
                    } else {
                        Val::fitted(-n, -d)
                    }
                }
            },
        }
    }

    /// Strict comparison; false whenever `Nan` is involved.
    pub fn lt(self, rhs: Val) -> (r: bool)
        requires
            self.valid(),
            rhs.valid(),
        ensures
            r == ext_lt(self@, rhs@),
    {
        match (self, rhs) {
            (Val::Nan, _) => false,
            (_, Val::Nan) => false,
            (Val::NegInf, Val::NegInf) => false,
            (Val::NegInf, _) => true,
            (_, Val::NegInf) => false,
            (Val::PosInf, _) => false,
            (_, Val::PosInf) => true,
            (Val::Num(a), Val::Num(b)) => {
                proof {
                    lemma_i64_prod_in_i128(a.num as int, b.den as int);
                    lemma_i64_prod_in_i128(b.num as int, a.den as int);
                }
                (a.num as i128) * (b.den as i128) < (b.num as i128) * (a.den as i128)
            },
        }
    }

    /// Non-strict comparison; false whenever `Nan` is involved.
    pub fn le(self, rhs: Val) -> (r: bool)
        requires
            self.valid(),
            rhs.valid(),
        ensures
            r == ext_le(self@, rhs@),
    {
        match (self, rhs) {
            (Val::Nan, _) => false,
            (_, Val::Nan) => false,
            (Val::NegInf, _) => true,
            (_, Val::NegInf) => false,
            (_, Val::PosInf) => true,
            (Val::PosInf, _) => false,
            (Val::Num(a), Val::Num(b)) => {
                proof {
                    lemma_i64_prod_in_i128(a.num as int, b.den as int);
                    lemma_i64_prod_in_i128(b.num as int, a.den as int);
                }
                (a.num as i128) * (b.den as i128) <= (b.num as i128) * (a.den as i128)
            },
        }
    }

    /// Strict comparison the other way round.
    pub fn gt(self, rhs: Val) -> (r: bool)
        requires
            self.valid(),
            rhs.valid(),
        ensures
            r == ext_lt(rhs@, self@),
    {
        rhs.lt(self)
    }

    /// Non-strict comparison the other way round.
    pub fn ge(self, rhs: Val) -> (r: bool)
        requires
            self.valid(),
            rhs.valid(),
        ensures
            r == ext_le(rhs@, self@),
    {
        rhs.le(self)
    }

    /// The finite value `n / d` when both parts still fit `i64`, `Nan` otherwise.
    fn fitted(n: i128, d: i128) -> (r: Val)
        requires
            d >= 1,
        ensures
            r@ == fin_or_nan(n as int, d as int),
            r.valid(),
    {
        if n < i64::MIN as i128 || n > i64::MAX as i128 || d > i64::MAX as i128 {
            Val::Nan
        } else {
            Val::Num(Rat { num: n as i64, den: d as i64 })
        }
    }

    /// A signed infinity times the finite numerator `n`: `Nan` for zero,
    /// otherwise an infinity carrying the combined sign.
    fn inf_times(positive: bool, n: i64) -> (r: Val)
        ensures
            n == 0 ==> r@ is Nan,
            n > 0 ==> r@ == (if positive {
                Ext::PosInf
            } else {
                Ext::NegInf
            }),
            n < 0 ==> r@ == (if positive {
                Ext::NegInf
            } else {
                Ext::PosInf
            }),
            r.valid(),
    {
        if n == 0 {
            Val::Nan
        } else if (n > 0) == positive {
            Val::PosInf
        } else {
            Val::NegInf
        }
    }
}

impl PartialEq for Val {
    /// IEEE-754 equality: `Nan` equals nothing, finite fractions are compared
    /// as numbers.
    fn eq(&self, other: &Val) -> (r: bool) {
        match (self, other) {
            (Val::Nan, _) => false,
            (_, Val::Nan) => false,
            (Val::NegInf, Val::NegInf) => true,
            (Val::PosInf, Val::PosInf) => true,
            (Val::Num(a), Val::Num(b)) => {
                proof {
                    lemma_i64_prod_in_i128(a.num as int, b.den as int);
                    lemma_i64_prod_in_i128(b.num as int, a.den as int);
                }
                (a.num as i128) * (b.den as i128) == (b.num as i128) * (a.den as i128)
            },
            _ => false,
        }
    }
}

impl vstd::std_specs::cmp::PartialEqSpecImpl for Val {
    open spec fn obeys_eq_spec() -> bool {
        true
    }

    open spec fn eq_spec(&self, other: &Val) -> bool {
        ext_ieee_eq(self@, other@)
    }
}

} // verus!
