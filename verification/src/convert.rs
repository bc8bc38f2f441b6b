//! The numeric conversion layer: reflexive conversions between the integer
//! widths and the single pivot type [`Val`], so that scales work uniformly
//! over any numeric representation. Conversions out of the pivot truncate
//! toward zero and saturate at the target's bounds, matching the semantics
//! of a narrowing float-to-integer cast; conversions into the pivot are
//! exact for every value an `i64` can hold and saturate beyond that.

use vstd::arithmetic::div_mod::{lemma_div_nonincreasing, lemma_div_pos_is_pos};
use vstd::prelude::*;

use crate::value::{Ext, Rat, Val};

verus! {

/// Something that can be converted to the continuous pivot representation.
pub trait ToFloat<F>: Sized {
    /// What the conversion produces.
    spec fn spec_to_float(self) -> F;

    /// Convert self into the pivot representation.
    fn to_float(self) -> (r: F)
        ensures
            r == self.spec_to_float(),
    ;
}

/// Something that can be converted to an integral number.
pub trait ToInt<I>: Sized {
    /// What the source value must satisfy.
    spec fn to_int_req(self) -> bool;

    /// What the conversion produces.
    spec fn spec_to_int(self) -> I;

    /// Convert self into an integral number, truncating toward zero and
    /// saturating at the target's bounds.
    fn to_int(self) -> (r: I)
        requires
            self.to_int_req(),
        ensures
            r == self.spec_to_int(),
    ;
}

/// Something the pivot representation can be converted into.
pub trait FromFloat<F>: Sized {
    /// What the source value must satisfy.
    spec fn from_req(f: F) -> bool;

    /// What the conversion produces.
    spec fn spec_from_float(f: F) -> Self;

    /// Convert the provided pivot value into an instance of the
    /// implementing type.
    fn from_float(f: F) -> (r: Self)
        requires
            Self::from_req(f),
        ensures
            r == Self::spec_from_float(f),
    ;
}

/// Something an integral number can be converted into.
pub trait FromInt<I>: Sized {
    /// What the conversion produces.
    spec fn spec_from_int(i: I) -> Self;

    /// Convert the provided integral number into an instance of the
    /// implementing type.
    fn from_int(i: I) -> (r: Self)
        ensures
            r == Self::spec_from_int(i),
    ;
}

impl<F, I> ToFloat<F> for I where F: FromInt<I> {
    open spec fn spec_to_float(self) -> F {
        F::spec_from_int(self)
    }

    fn to_float(self) -> (r: F) {
        F::from_int(self)
    }
}

impl ToFloat<Val> for Val {
    open spec fn spec_to_float(self) -> Val {
        self
    }

    fn to_float(self) -> (r: Val) {
        self
    }
}

impl<F, I> ToInt<I> for F where I: FromFloat<F> {
    open spec fn to_int_req(self) -> bool {
        I::from_req(self)
    }

    open spec fn spec_to_int(self) -> I {
        I::spec_from_float(self)
    }

    fn to_int(self) -> (r: I) {
        I::from_float(self)
    }
}

impl FromFloat<Val> for Val {
    open spec fn from_req(f: Val) -> bool {
        true
    }

    open spec fn spec_from_float(f: Val) -> Val {
        f
    }

    fn from_float(f: Val) -> (r: Val) {
        f
    }
}

/// The quotient `n / d` rounded toward zero, the rounding a narrowing cast
/// performs.
pub open spec fn rat_trunc(n: int, d: int) -> int {
    if n >= 0 {
        n / d
    } else {
        -((-n) / d)
    }
}

/// `x` clamped into `[lo, hi]`.
pub open spec fn sat(x: int, lo: int, hi: int) -> int {
    if x < lo {
        lo
    } else if x > hi {
        hi
    } else {
        x
    }
}

/// The whole-number part of a finite `Val`, rounded toward zero. It always
/// fits an `i64` because the numerator does.
fn trunc_i64(n: i64, d: i64) -> (q: i64)
    requires
        d >= 1,
    ensures
        q as int == rat_trunc(n as int, d as int),
{
    if n >= 0 {
        let nn = n as u128;
        let dd = d as u128;
        let qq = nn / dd;
        proof {
            lemma_div_pos_is_pos(nn as int, dd as int);
            lemma_div_nonincreasing(nn as int, dd as int);
        }
        qq as i64
    } else {
        let nn = (-(n as i128)) as u128;
        let dd = d as u128;
        let qq = nn / dd;
        proof {
            lemma_div_pos_is_pos(nn as int, dd as int);
            lemma_div_nonincreasing(nn as int, dd as int);
        }
        if qq >= 0x8000_0000_0000_0000u128 {
            i64::MIN
        } else {
            -(qq as i64)
        }
    }
}

impl FromInt<i8> for Val {
    open spec fn spec_from_int(i: i8) -> Val {
        Val::Num(Rat { num: i as i64, den: 1 })
    }

    fn from_int(i: i8) -> (r: Val) {
        Val::Num(Rat { num: i as i64, den: 1 })
    }
}

impl FromInt<i16> for Val {
    open spec fn spec_from_int(i: i16) -> Val {
        Val::Num(Rat { num: i as i64, den: 1 })
    }

    fn from_int(i: i16) -> (r: Val) {
        Val::Num(Rat { num: i as i64, den: 1 })
    }
}

impl FromInt<i32> for Val {
    open spec fn spec_from_int(i: i32) -> Val {
        Val::Num(Rat { num: i as i64, den: 1 })
    }

    fn from_int(i: i32) -> (r: Val) {
        Val::Num(Rat { num: i as i64, den: 1 })
    }
}

impl FromInt<i64> for Val {
    open spec fn spec_from_int(i: i64) -> Val {
        Val::Num(Rat { num: i, den: 1 })
    }

    fn from_int(i: i64) -> (r: Val) {
        Val::Num(Rat { num: i, den: 1 })
    }
}

impl FromInt<i128> for Val {
    open spec fn spec_from_int(i: i128) -> Val {
        Val::Num(
            Rat {
                num: if i < i64::MIN as i128 {
                    i64::MIN
                } else if i > i64::MAX as i128 {
                    i64::MAX
                } else {
                    i as i64
                },
                den: 1,
            },
        )
    }

    fn from_int(i: i128) -> (r: Val) {
        Val::Num(
            Rat {
                num: if i < i64::MIN as i128 {
                    i64::MIN
                } else if i > i64::MAX as i128 {
                    i64::MAX
                } else {
                    i as i64
                },
                den: 1,
            },
        )
    }
}

impl FromInt<u8> for Val {
    open spec fn spec_from_int(i: u8) -> Val {
        Val::Num(Rat { num: i as i64, den: 1 })
    }

    fn from_int(i: u8) -> (r: Val) {
        Val::Num(Rat { num: i as i64, den: 1 })
    }
}

impl FromInt<u16> for Val {
    open spec fn spec_from_int(i: u16) -> Val {
        Val::Num(Rat { num: i as i64, den: 1 })
    }

    fn from_int(i: u16) -> (r: Val) {
        Val::Num(Rat { num: i as i64, den: 1 })
    }
}

impl FromInt<u32> for Val {
    open spec fn spec_from_int(i: u32) -> Val {
        Val::Num(Rat { num: i as i64, den: 1 })
    }

    fn from_int(i: u32) -> (r: Val) {
        Val::Num(Rat { num: i as i64, den: 1 })
    }
}

impl FromInt<u64> for Val {
    open spec fn spec_from_int(i: u64) -> Val {
        Val::Num(
            Rat {
                num: if i > i64::MAX as u64 {
                    i64::MAX
                } else {
                    i as i64
                },
                den: 1,
            },
        )
    }

    fn from_int(i: u64) -> (r: Val) {
        Val::Num(
            Rat {
                num: if i > i64::MAX as u64 {
                    i64::MAX
                } else {
                    i as i64
                },
                den: 1,
            },
        )
    }
}

impl FromInt<u128> for Val {
    open spec fn spec_from_int(i: u128) -> Val {
        Val::Num(
            Rat {
                num: if i > i64::MAX as u128 {
                    i64::MAX
                } else {
                    i as i64
                },
                den: 1,
            },
        )
    }

    fn from_int(i: u128) -> (r: Val) {
        Val::Num(
            Rat {
                num: if i > i64::MAX as u128 {
                    i64::MAX
                } else {
                    i as i64
                },
                den: 1,
            },
        )
    }
}

impl FromInt<usize> for Val {
    open spec fn spec_from_int(i: usize) -> Val {
        Val::Num(
            Rat {
                num: if i as u128 > i64::MAX as u128 {
                    i64::MAX
                } else {
                    i as i64
                },
                den: 1,
            },
        )
    }

    fn from_int(i: usize) -> (r: Val) {
        Val::Num(
            Rat {
                num: if i as u128 > i64::MAX as u128 {
                    i64::MAX
                } else {
                    i as i64
                },
                den: 1,
            },
        )
    }
}

impl FromFloat<Val> for i8 {
    open spec fn from_req(f: Val) -> bool {
        f.valid()
    }

    open spec fn spec_from_float(f: Val) -> i8 {
        match f@ {
            Ext::Nan => 0,
            Ext::NegInf => i8::MIN,
            Ext::PosInf => i8::MAX,
            Ext::Fin(n, d) => sat(rat_trunc(n, d), i8::MIN as int, i8::MAX as int) as i8,
        }
    }

    fn from_float(f: Val) -> (r: i8) {
        match f {
            Val::Nan => 0,
            Val::NegInf => i8::MIN,
            Val::PosInf => i8::MAX,
            Val::Num(rat) => {
                let q = trunc_i64(rat.num, rat.den);
                if q < i8::MIN as i64 {
                    i8::MIN
                } else if q > i8::MAX as i64 {
                    i8::MAX
                } else {
                    q as i8
                }
            },
        }
    }
}

impl FromFloat<Val> for i16 {
    open spec fn from_req(f: Val) -> bool {
        f.valid()
    }

    open spec fn spec_from_float(f: Val) -> i16 {
        match f@ {
            Ext::Nan => 0,
            Ext::NegInf => i16::MIN,
            Ext::PosInf => i16::MAX,
            Ext::Fin(n, d) => sat(rat_trunc(n, d), i16::MIN as int, i16::MAX as int) as i16,
        }
    }

    fn from_float(f: Val) -> (r: i16) {
        match f {
            Val::Nan => 0,
            Val::NegInf => i16::MIN,
            Val::PosInf => i16::MAX,
            Val::Num(rat) => {
                let q = trunc_i64(rat.num, rat.den);
                if q < i16::MIN as i64 {
                    i16::MIN
                } else if q > i16::MAX as i64 {
                    i16::MAX
                } else {
                    q as i16
                }
            },
        }
    }
}

impl FromFloat<Val> for i32 {
    open spec fn from_req(f: Val) -> bool {
        f.valid()
    }

    open spec fn spec_from_float(f: Val) -> i32 {
        match f@ {
            Ext::Nan => 0,
            Ext::NegInf => i32::MIN,
            Ext::PosInf => i32::MAX,
            Ext::Fin(n, d) => sat(rat_trunc(n, d), i32::MIN as int, i32::MAX as int) as i32,
        }
    }

    fn from_float(f: Val) -> (r: i32) {
        match f {
            Val::Nan => 0,
            Val::NegInf => i32::MIN,
            Val::PosInf => i32::MAX,
            Val::Num(rat) => {
                let q = trunc_i64(rat.num, rat.den);
                if q < i32::MIN as i64 {
                    i32::MIN
                } else if q > i32::MAX as i64 {
                    i32::MAX
                } else {
                    q as i32
                }
            },
        }
    }
}

impl FromFloat<Val> for i64 {
    open spec fn from_req(f: Val) -> bool {
        f.valid()
    }

    open spec fn spec_from_float(f: Val) -> i64 {
        match f@ {
            Ext::Nan => 0,
            Ext::NegInf => i64::MIN,
            Ext::PosInf => i64::MAX,
            Ext::Fin(n, d) => rat_trunc(n, d) as i64,
        }
    }

    fn from_float(f: Val) -> (r: i64) {
        match f {
            Val::Nan => 0,
            Val::NegInf => i64::MIN,
            Val::PosInf => i64::MAX,
            Val::Num(rat) => {
                proof {
                    lemma_trunc_in_i64(rat.num as int, rat.den as int);
                }
                trunc_i64(rat.num, rat.den)
            },
        }
    }
}

impl FromFloat<Val> for i128 {
    open spec fn from_req(f: Val) -> bool {
        f.valid()
    }

    open spec fn spec_from_float(f: Val) -> i128 {
        match f@ {
            Ext::Nan => 0,
            Ext::NegInf => i128::MIN,
            Ext::PosInf => i128::MAX,
            Ext::Fin(n, d) => rat_trunc(n, d) as i128,
        }
    }

    fn from_float(f: Val) -> (r: i128) {
        match f {
            Val::Nan => 0,
            Val::NegInf => i128::MIN,
            Val::PosInf => i128::MAX,
            Val::Num(rat) => {
                proof {
                    lemma_trunc_in_i64(rat.num as int, rat.den as int);
                }
                trunc_i64(rat.num, rat.den) as i128
            },
        }
    }
}

impl FromFloat<Val> for u8 {
    open spec fn from_req(f: Val) -> bool {
        f.valid()
    }

    open spec fn spec_from_float(f: Val) -> u8 {
        match f@ {
            Ext::Nan => 0,
            Ext::NegInf => 0,
            Ext::PosInf => u8::MAX,
            Ext::Fin(n, d) => sat(rat_trunc(n, d), 0, u8::MAX as int) as u8,
        }
    }

    fn from_float(f: Val) -> (r: u8) {
        match f {
            Val::Nan => 0,
            Val::NegInf => 0,
            Val::PosInf => u8::MAX,
            Val::Num(rat) => {
                let q = trunc_i64(rat.num, rat.den);
                if q < 0 {
                    0
                } else if q > u8::MAX as i64 {
                    u8::MAX
                } else {
                    q as u8
                }
            },
        }
    }
}

impl FromFloat<Val> for u16 {
    open spec fn from_req(f: Val) -> bool {
        f.valid()
    }

    open spec fn spec_from_float(f: Val) -> u16 {
        match f@ {
            Ext::Nan => 0,
            Ext::NegInf => 0,
            Ext::PosInf => u16::MAX,
            Ext::Fin(n, d) => sat(rat_trunc(n, d), 0, u16::MAX as int) as u16,
        }
    }

    fn from_float(f: Val) -> (r: u16) {
        match f {
            Val::Nan => 0,
            Val::NegInf => 0,
            Val::PosInf => u16::MAX,
            Val::Num(rat) => {
                let q = trunc_i64(rat.num, rat.den);
                if q < 0 {
                    0
                } else if q > u16::MAX as i64 {
                    u16::MAX
                } else {
                    q as u16
                }
            },
        }
    }
}

impl FromFloat<Val> for u32 {
    open spec fn from_req(f: Val) -> bool {
        f.valid()
    }

    open spec fn spec_from_float(f: Val) -> u32 {
        match f@ {
            Ext::Nan => 0,
            Ext::NegInf => 0,
            Ext::PosInf => u32::MAX,
            Ext::Fin(n, d) => sat(rat_trunc(n, d), 0, u32::MAX as int) as u32,
        }
    }

    fn from_float(f: Val) -> (r: u32) {
        match f {
            Val::Nan => 0,
            Val::NegInf => 0,
            Val::PosInf => u32::MAX,
            Val::Num(rat) => {
                let q = trunc_i64(rat.num, rat.den);
                if q < 0 {
                    0
                } else if q > u32::MAX as i64 {
                    u32::MAX
                } else {
                    q as u32
                }
            },
        }
    }
}

impl FromFloat<Val> for u64 {
    open spec fn from_req(f: Val) -> bool {
        f.valid()
    }

    open spec fn spec_from_float(f: Val) -> u64 {
        match f@ {
            Ext::Nan => 0,
            Ext::NegInf => 0,
            Ext::PosInf => u64::MAX,
            Ext::Fin(n, d) => sat(rat_trunc(n, d), 0, u64::MAX as int) as u64,
        }
    }

    fn from_float(f: Val) -> (r: u64) {
        match f {
            Val::Nan => 0,
            Val::NegInf => 0,
            Val::PosInf => u64::MAX,
            Val::Num(rat) => {
                proof {
                    lemma_trunc_in_i64(rat.num as int, rat.den as int);
                }
                let q = trunc_i64(rat.num, rat.den);
                if q < 0 {
                    0
                } else {
                    q as u64
                }
            },
        }
    }
}

impl FromFloat<Val> for u128 {
    open spec fn from_req(f: Val) -> bool {
        f.valid()
    }

    open spec fn spec_from_float(f: Val) -> u128 {
        match f@ {
            Ext::Nan => 0,
            Ext::NegInf => 0,
            Ext::PosInf => u128::MAX,
            Ext::Fin(n, d) => sat(rat_trunc(n, d), 0, u128::MAX as int) as u128,
        }
    }

    fn from_float(f: Val) -> (r: u128) {
        match f {
            Val::Nan => 0,
            Val::NegInf => 0,
            Val::PosInf => u128::MAX,
            Val::Num(rat) => {
                proof {
                    lemma_trunc_in_i64(rat.num as int, rat.den as int);
                }
                let q = trunc_i64(rat.num, rat.den);
                if q < 0 {
                    0
                } else {
                    q as u128
                }
            },
        }
    }
}

impl FromFloat<Val> for usize {
    open spec fn from_req(f: Val) -> bool {
        f.valid()
    }

    open spec fn spec_from_float(f: Val) -> usize {
        match f@ {
            Ext::Nan => 0,
            Ext::NegInf => 0,
            Ext::PosInf => usize::MAX,
            Ext::Fin(n, d) => sat(rat_trunc(n, d), 0, usize::MAX as int) as usize,
        }
    }

    fn from_float(f: Val) -> (r: usize) {
        match f {
            Val::Nan => 0,
            Val::NegInf => 0,
            Val::PosInf => usize::MAX,
            Val::Num(rat) => {
                let q = trunc_i64(rat.num, rat.den);
                if q < 0 {
                    0
                } else if (q as u128) > (usize::MAX as u128) {
                    usize::MAX
                } else {
                    q as usize
                }
            },
        }
    }
}

/// Truncating a fraction whose numerator fits `i64` gives a quotient that
/// fits `i64`.
proof fn lemma_trunc_in_i64(n: int, d: int)
    requires
        crate::value::fits(n),
        d >= 1,
    ensures
        i64::MIN <= rat_trunc(n, d) <= i64::MAX,
{
    if n >= 0 {
        lemma_div_pos_is_pos(n, d);
        lemma_div_nonincreasing(n, d);
    } else {
        lemma_div_pos_is_pos(-n, d);
        lemma_div_nonincreasing(-n, d);
    }
}

} // verus!
