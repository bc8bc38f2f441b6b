//! The linear scale: an affine mapping of a closed interval onto `[0, 1]`,
//! optionally inverted, plus a variant whose bounds are re-read on every call.

use vstd::prelude::*;

use crate::value::{ext_add, ext_div, ext_eq, ext_mul, ext_sub, Ext, Val};
use crate::Scale;

verus! {

/// The relative position of `a` in the interval described by `min` and
/// `range`: `(a - min) / range`, flipped to `1 - x` when inverted. A zero
/// range is not special-cased; it yields `Nan` or a signed infinity through
/// the division, exactly as floating-point arithmetic would.
pub open spec fn lin_rel(min: Ext, range: Ext, inverted: bool, a: Ext) -> Ext {
    let q = ext_div(ext_sub(a, min), range);
    if inverted {
        ext_sub(Ext::Fin(1, 1), q)
    } else {
        q
    }
}

/// The absolute value at relative position `r`: `min + r * range`, reading
/// `1 - r` instead of `r` when inverted.
pub open spec fn lin_abs(min: Ext, range: Ext, inverted: bool, r: Ext) -> Ext {
    let rr = if inverted {
        ext_sub(Ext::Fin(1, 1), r)
    } else {
        r
    };
    ext_add(min, ext_mul(rr, range))
}

/// A linear scale with a fixed minimum and maximum that can optionally be
/// inverted. The full range `max - min` is computed once at construction.
#[derive(Clone, Copy, Debug)]
pub struct LinearScale {
    pub min: Val,
    pub max: Val,
    pub range: Val,
    pub inverted: bool,
}

impl LinearScale {
    /// A scale mapping `min` to relative 0 and `max` to relative 1.
    pub fn new(min: Val, max: Val) -> (s: LinearScale)
        requires
            min.valid(),
            max.valid(),
        ensures
            s.wf(),
            s.min == min,
            s.max == max,
            !s.inverted,
    {
        let range = max.sub(min);
        LinearScale { min, max, range, inverted: false }
    }

    /// A scale mapping `min` to relative 1 and `max` to relative 0, for
    /// domains rendered in the opposite direction.
    pub fn inverted(min: Val, max: Val) -> (s: LinearScale)
        requires
            min.valid(),
            max.valid(),
        ensures
            s.wf(),
            s.min == min,
            s.max == max,
            s.inverted,
    {
        let range = max.sub(min);
        LinearScale { min, max, range, inverted: true }
    }
}

impl Scale for LinearScale {
    open spec fn wf(&self) -> bool {
        &&& self.min.valid()
        &&& self.max.valid()
        &&& self.range.valid()
        &&& self.range@ == ext_sub(self.max@, self.min@)
    }

    open spec fn s_min(&self) -> Ext {
        self.min@
    }

    open spec fn s_max(&self) -> Ext {
        self.max@
    }

    open spec fn s_rel(&self, a: Ext) -> Ext {
        lin_rel(self.min@, self.range@, self.inverted, a)
    }

    open spec fn s_abs(&self, r: Ext) -> Ext {
        lin_abs(self.min@, self.range@, self.inverted, r)
    }

    fn to_relative(&self, absolute: Val) -> (r: Val) {
        let partial_range = absolute.sub(self.min);
        let q = partial_range.div(self.range);
        if self.inverted {
            Val::of_int(1).sub(q)
        } else {
            q
        }
    }

    fn to_absolute(&self, relative: Val) -> (r: Val) {
        let relative = if self.inverted {
            Val::of_int(1).sub(relative)
        } else {
            relative
        };
        let partial = relative.mul(self.range);
        self.min.add(partial)
    }

    fn max(&self) -> (r: Val) {
        self.max
    }

    fn min(&self) -> (r: Val) {
        self.min
    }
}

/// The uninverted core of the round-trip law: mapping a finite `y` to the
/// absolute domain and back through a finite, nonzero range is the identity,
/// unless an intermediate result outgrows `i64` (which surfaces as `Nan`,
/// never as a wrong number).
proof fn lemma_lin_round_trip_plain(min: Ext, range: Ext, y: Ext)
    requires
        min is Fin,
        range matches Ext::Fin(rn, rd) && rn != 0,
        y is Fin,
    ensures
        ({
            let q = lin_rel(min, range, false, lin_abs(min, range, false, y));
            q is Fin ==> ext_eq(q, y)
        }),
{
    let p = ext_mul(y, range);
    let a = ext_add(min, p);
    let s = ext_sub(a, min);
    let q = ext_div(s, range);
    if q is Fin {
        if let (Ext::Fin(mn, md), Ext::Fin(rn, rd), Ext::Fin(yn, yd)) = (min, range, y) {
            let pn = yn * rn;
            let pd = yd * rd;
            assert(p == Ext::Fin(pn, pd));
            let an = mn * pd + pn * md;
            let ad = md * pd;
            assert(a == Ext::Fin(an, ad));
            let sn = an * md - mn * ad;
            let sd = ad * md;
            assert(s == Ext::Fin(sn, sd));
            assert(sn == pn * (md * md) && sd == (md * md) * pd) by (nonlinear_arith)
                requires
                    an == mn * pd + pn * md,
                    ad == md * pd,
                    sn == an * md - mn * ad,
                    sd == ad * md,
            ;
            assert((sn * rd) * yd == yn * (sd * rn) && (-(sn * rd)) * yd == yn * (-(sd * rn)))
                by (nonlinear_arith)
                requires
                    sn == pn * (md * md),
                    sd == (md * md) * pd,
                    pn == yn * rn,
                    pd == yd * rd,
            ;
            if rn > 0 {
                assert(q == Ext::Fin(sn * rd, sd * rn));
            } else {
                assert(q == Ext::Fin(-(sn * rd), -(sd * rn)));
            }
        }
    }
}

/// The round-trip law of the linear mapping: for any finite relative
/// position `x` — in particular anywhere in `[0, 1]` — mapping to the
/// absolute domain and back returns exactly `x`, as long as the scale's
/// range is finite and nonzero and no intermediate result outgrows `i64`.
/// With a zero range the forward mapping is already `Nan` or an infinity,
/// and the law says nothing, exactly like its floating-point counterpart.
pub proof fn lemma_lin_round_trip(min: Ext, range: Ext, inverted: bool, x: Ext)
    requires
        min is Fin,
        range matches Ext::Fin(rn, rd) && rn != 0,
        x is Fin,
    ensures
        lin_rel(min, range, inverted, lin_abs(min, range, inverted, x)) is Fin ==> ext_eq(
            lin_rel(min, range, inverted, lin_abs(min, range, inverted, x)),
            x,
        ),
{
    if !inverted {
        lemma_lin_round_trip_plain(min, range, x);
    } else {
        let u = ext_sub(Ext::Fin(1, 1), x);
        let a = ext_add(min, ext_mul(u, range));
        let q = ext_div(ext_sub(a, min), range);
        let rt = ext_sub(Ext::Fin(1, 1), q);
        if rt is Fin {
            assert(q is Fin);
            assert(u is Fin);
            lemma_lin_round_trip_plain(min, range, u);
            assert(ext_eq(q, u));
            if let (Ext::Fin(xn, xd), Ext::Fin(qn, qd), Ext::Fin(un, ud)) = (x, q, u) {
                assert(un == xd - xn && ud == xd);
                assert(rt == Ext::Fin(qd - qn, qd));
                assert((qd - qn) * xd == xn * qd) by (nonlinear_arith)
                    requires
                        qn * xd == (xd - xn) * qd,
                ;
            }
        }
    }
}

/// The endpoint law: a linear scale with a finite, nonzero range sends its
/// own minimum to relative 0 and its maximum to relative 1; the inverted
/// variant swaps the two. Each clause is guarded only against the `Nan`
/// that an `i64` overflow inside the computation would produce.
pub proof fn lemma_linear_endpoints(s: LinearScale)
    requires
        s.wf(),
        s.range@ matches Ext::Fin(rn, rd) && rn != 0,
    ensures
        !s.inverted && s.s_rel(s.s_min()) is Fin ==> ext_eq(s.s_rel(s.s_min()), Ext::Fin(0, 1)),
        !s.inverted && s.s_rel(s.s_max()) is Fin ==> ext_eq(s.s_rel(s.s_max()), Ext::Fin(1, 1)),
        s.inverted && s.s_rel(s.s_min()) is Fin ==> ext_eq(s.s_rel(s.s_min()), Ext::Fin(1, 1)),
        s.inverted && s.s_rel(s.s_max()) is Fin ==> ext_eq(s.s_rel(s.s_max()), Ext::Fin(0, 1)),
{
    if let (Ext::Fin(mn, md), Ext::Fin(xn, xd), Ext::Fin(rn, rd)) = (s.min@, s.max@, s.range@) {
        assert(rn * rd == rd * rn) by (nonlinear_arith);

        assert(0 * rd == 0) by (nonlinear_arith);

        let s0 = ext_sub(s.min@, s.min@);
        assert(s0 == crate::value::fin_or_nan(0, md * md));
        let q0 = ext_div(s0, s.range@);
        if q0 is Fin {
            if let Ext::Fin(qn, qd) = q0 {
                assert(qn == 0);
                assert(0 * qd == 0) by (nonlinear_arith);
                assert(ext_eq(q0, Ext::Fin(0, 1)));
            }
        }
        let r0 = ext_sub(Ext::Fin(1, 1), q0);
        if r0 is Fin {
            if let Ext::Fin(qn, qd) = q0 {
                assert(qn == 0);
                assert(r0 == Ext::Fin(qd - qn, qd));
                assert(ext_eq(r0, Ext::Fin(1, 1)));
            }
        }

        let s1 = ext_sub(s.max@, s.min@);
        assert(s1 == s.range@);
        let q1 = ext_div(s1, s.range@);
        if q1 is Fin {
            assert(ext_eq(q1, Ext::Fin(1, 1)));
        }
        let r1 = ext_sub(Ext::Fin(1, 1), q1);
        if r1 is Fin {
            if let Ext::Fin(qn, qd) = q1 {
                assert(qn == qd);
                assert(r1 == Ext::Fin(qd - qn, qd));
                assert(0 * qd == 0) by (nonlinear_arith);
                assert(ext_eq(r1, Ext::Fin(0, 1)));
            }
        }
    }
}

/// A source of domain bounds that may move between calls; the dynamic scale
/// re-reads both bounds on every conversion instead of caching them.
pub trait BoundsSource: Sized {
    /// The source's own invariant.
    spec fn b_inv(&self) -> bool;

    /// The lower bound the source currently holds.
    spec fn b_min(&self) -> Ext;

    /// The upper bound the source currently holds.
    spec fn b_max(&self) -> Ext;

    /// Reads the current lower bound.
    fn current_min(&self) -> (r: Val)
        requires
            self.b_inv(),
        ensures
            r@ == self.b_min(),
            r.valid(),
    ;

    /// Reads the current upper bound.
    fn current_max(&self) -> (r: Val)
        requires
            self.b_inv(),
        ensures
            r@ == self.b_max(),
            r.valid(),
    ;
}

/// The simplest source: a pair of fixed bounds.
#[derive(Clone, Copy, Debug)]
pub struct FixedBounds {
    pub min: Val,
    pub max: Val,
}

impl BoundsSource for FixedBounds {
    open spec fn b_inv(&self) -> bool {
        self.min.valid() && self.max.valid()
    }

    open spec fn b_min(&self) -> Ext {
        self.min@
    }

    open spec fn b_max(&self) -> Ext {
        self.max@
    }

    fn current_min(&self) -> (r: Val) {
        self.min
    }

    fn current_max(&self) -> (r: Val) {
        self.max
    }
}

/// A linear scale whose minimum and maximum are looked up again for every
/// calculation, for domains whose bounds move between calls. The full range
/// is recomputed each time rather than cached, and `min`/`max` answer from
/// their own lookups.
#[derive(Clone, Copy, Debug)]
pub struct DynamicLinearScale<B: BoundsSource> {
    pub bounds: B,
    pub inverted: bool,
}

impl<B: BoundsSource> DynamicLinearScale<B> {
    /// A dynamic scale mapping the source's minimum to relative 0 and its
    /// maximum to relative 1.
    pub fn new(bounds: B) -> (s: DynamicLinearScale<B>)
        ensures
            s.bounds == bounds,
            !s.inverted,
    {
        DynamicLinearScale { bounds, inverted: false }
    }

    /// The inverted variant, mapping the source's minimum to relative 1.
    pub fn inverted(bounds: B) -> (s: DynamicLinearScale<B>)
        ensures
            s.bounds == bounds,
            s.inverted,
    {
        DynamicLinearScale { bounds, inverted: true }
    }
}

impl<B: BoundsSource> Scale for DynamicLinearScale<B> {
    open spec fn wf(&self) -> bool {
        self.bounds.b_inv()
    }

    open spec fn s_min(&self) -> Ext {
        self.bounds.b_min()
    }

    open spec fn s_max(&self) -> Ext {
        self.bounds.b_max()
    }

    open spec fn s_rel(&self, a: Ext) -> Ext {
        lin_rel(
            self.bounds.b_min(),
            ext_sub(self.bounds.b_max(), self.bounds.b_min()),
            self.inverted,
            a,
        )
    }

    open spec fn s_abs(&self, r: Ext) -> Ext {
        lin_abs(
            self.bounds.b_min(),
            ext_sub(self.bounds.b_max(), self.bounds.b_min()),
            self.inverted,
            r,
        )
    }

    fn to_relative(&self, absolute: Val) -> (r: Val) {
        let min = self.bounds.current_min();
        let max = self.bounds.current_max();
        let full_range = max.sub(min);
        let partial_range = absolute.sub(min);
        let q = partial_range.div(full_range);
        if self.inverted {
            Val::of_int(1).sub(q)
        } else {
            q
        }
    }

    fn to_absolute(&self, relative: Val) -> (r: Val) {
        let relative = if self.inverted {
            Val::of_int(1).sub(relative)
        } else {
            relative
        };
        let min = self.bounds.current_min();
        let max = self.bounds.current_max();
        let full_range = max.sub(min);
        let partial = relative.mul(full_range);
        min.add(partial)
    }

    fn max(&self) -> (r: Val) {
        self.bounds.current_max()
    }

    fn min(&self) -> (r: Val) {
        self.bounds.current_min()
    }
}

} // verus!
