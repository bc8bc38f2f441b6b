//! The broken scale: a linear delegate whose relative coordinate is remapped
//! through a piecewise-linear polyline of breakpoints, giving non-uniform
//! sensitivity across sub-ranges of the domain.

use vstd::prelude::*;

use crate::linear::LinearScale;
use crate::value::{ext_add, ext_div, ext_le, ext_lt, ext_mul, ext_sub, Ext, Val};
use crate::Scale;

verus! {

/// How far the scan walks when looking for the segment that brackets `x`:
/// the number of leading breakpoints whose x-coordinate lies strictly below
/// `x`. Ties fall to the "to" side of a segment.
pub open spec fn cut_x(steps: Seq<(Val, Val)>, x: Ext) -> int
    decreases steps.len(),
{
    if steps.len() == 0 {
        0
    } else if ext_lt(steps[0].0@, x) {
        1 + cut_x(steps.drop_first(), x)
    } else {
        0
    }
}

/// The same scan along the y-coordinates, used by the inverse remap.
pub open spec fn cut_y(steps: Seq<(Val, Val)>, y: Ext) -> int
    decreases steps.len(),
{
    if steps.len() == 0 {
        0
    } else if ext_lt(steps[0].1@, y) {
        1 + cut_y(steps.drop_first(), y)
    } else {
        0
    }
}

/// What the scan finds: everything before the cut lies strictly below the
/// query, and the breakpoint at the cut (if any) does not.
pub proof fn lemma_cut_x_props(steps: Seq<(Val, Val)>, x: Ext)
    ensures
        0 <= cut_x(steps, x) <= steps.len(),
        forall|j: int| 0 <= j < cut_x(steps, x) ==> ext_lt((#[trigger] steps[j]).0@, x),
        cut_x(steps, x) < steps.len() ==> !ext_lt(steps[cut_x(steps, x)].0@, x),
    decreases steps.len(),
{
    if steps.len() == 0 {
    } else if ext_lt(steps[0].0@, x) {
        lemma_cut_x_props(steps.drop_first(), x);
        assert forall|j: int| 0 <= j < cut_x(steps, x) implies ext_lt(
            (#[trigger] steps[j]).0@,
            x,
        ) by {
            if j > 0 {
                assert(steps[j] == steps.drop_first()[j - 1]);
            }
        }
        if cut_x(steps, x) < steps.len() {
            assert(steps[cut_x(steps, x)] == steps.drop_first()[cut_x(steps, x) - 1]);
        }
    } else {
    }
}

/// The counterpart of `lemma_cut_x_props` for the y-coordinate scan.
pub proof fn lemma_cut_y_props(steps: Seq<(Val, Val)>, y: Ext)
    ensures
        0 <= cut_y(steps, y) <= steps.len(),
        forall|j: int| 0 <= j < cut_y(steps, y) ==> ext_lt((#[trigger] steps[j]).1@, y),
        cut_y(steps, y) < steps.len() ==> !ext_lt(steps[cut_y(steps, y)].1@, y),
    decreases steps.len(),
{
    if steps.len() == 0 {
    } else if ext_lt(steps[0].1@, y) {
        lemma_cut_y_props(steps.drop_first(), y);
        assert forall|j: int| 0 <= j < cut_y(steps, y) implies ext_lt(
            (#[trigger] steps[j]).1@,
            y,
        ) by {
            if j > 0 {
                assert(steps[j] == steps.drop_first()[j - 1]);
            }
        }
        if cut_y(steps, y) < steps.len() {
            assert(steps[cut_y(steps, y)] == steps.drop_first()[cut_y(steps, y) - 1]);
        }
    } else {
    }
}

/// The segment that brackets the forward query `x`: a pair of control
/// points, implicitly anchored at `(0, 0)` and `(1, 1)`. A query at or past
/// 1 brackets between the last breakpoint and the `(1, 1)` anchor without
/// scanning.
pub open spec fn seg_for_x(steps: Seq<(Val, Val)>, x: Ext) -> ((Ext, Ext), (Ext, Ext)) {
    if ext_le(Ext::Fin(1, 1), x) {
        (
            if steps.len() == 0 {
                (Ext::Fin(0, 1), Ext::Fin(0, 1))
            } else {
                (steps.last().0@, steps.last().1@)
            },
            (Ext::Fin(1, 1), Ext::Fin(1, 1)),
        )
    } else {
        let k = cut_x(steps, x);
        (
            if k == 0 {
                (Ext::Fin(0, 1), Ext::Fin(0, 1))
            } else {
                (steps[k - 1].0@, steps[k - 1].1@)
            },
            if k < steps.len() {
                (steps[k].0@, steps[k].1@)
            } else {
                (Ext::Fin(1, 1), Ext::Fin(1, 1))
            },
        )
    }
}

/// The segment that brackets the inverse query `y`, scanning y-coordinates.
pub open spec fn seg_for_y(steps: Seq<(Val, Val)>, y: Ext) -> ((Ext, Ext), (Ext, Ext)) {
    if ext_le(Ext::Fin(1, 1), y) {
        (
            if steps.len() == 0 {
                (Ext::Fin(0, 1), Ext::Fin(0, 1))
            } else {
                (steps.last().0@, steps.last().1@)
            },
            (Ext::Fin(1, 1), Ext::Fin(1, 1)),
        )
    } else {
        let k = cut_y(steps, y);
        (
            if k == 0 {
                (Ext::Fin(0, 1), Ext::Fin(0, 1))
            } else {
                (steps[k - 1].0@, steps[k - 1].1@)
            },
            if k < steps.len() {
                (steps[k].0@, steps[k].1@)
            } else {
                (Ext::Fin(1, 1), Ext::Fin(1, 1))
            },
        )
    }
}

/// The line `y = m * x + t` through `from` and `to`, evaluated at `x`, with
/// `m = dy / dx` and `t = y0 - m * x0`. A vertical segment gives `Nan` or an
/// infinity through the division, never an error.
pub open spec fn line_y(from: (Ext, Ext), to: (Ext, Ext), x: Ext) -> Ext {
    let dx = ext_sub(to.0, from.0);
    let dy = ext_sub(to.1, from.1);
    let m = ext_div(dy, dx);
    let t = ext_sub(from.1, ext_mul(m, from.0));
    ext_add(ext_mul(m, x), t)
}

/// The same line solved for `x`: `x = (y - t) / m`.
pub open spec fn line_x(from: (Ext, Ext), to: (Ext, Ext), y: Ext) -> Ext {
    let dx = ext_sub(to.0, from.0);
    let dy = ext_sub(to.1, from.1);
    let m = ext_div(dy, dx);
    let t = ext_sub(from.1, ext_mul(m, from.0));
    ext_div(ext_sub(y, t), m)
}

/// The forward piecewise remap: bracket `x`, then evaluate the segment's line.
pub open spec fn broken_y_spec(steps: Seq<(Val, Val)>, x: Ext) -> Ext {
    line_y(seg_for_x(steps, x).0, seg_for_x(steps, x).1, x)
}

/// The inverse piecewise remap: bracket `y`, then solve the segment's line.
pub open spec fn broken_x_spec(steps: Seq<(Val, Val)>, y: Ext) -> Ext {
    line_x(seg_for_y(steps, y).0, seg_for_y(steps, y).1, y)
}

/// The round-trip law for a broken scale with an empty breakpoint table:
/// the remap is then the line through the two anchors — the identity — and
/// mapping any finite relative position to the absolute domain and back
/// returns exactly that position, whenever the delegate's range is finite
/// and nonzero and the computation stays representable (an overflow
/// surfaces as `Nan`, never as a wrong number). With breakpoints present
/// the same round trip holds segment by segment; that general statement is
/// not proved here.
pub proof fn lemma_broken_round_trip_no_steps(s: BrokenScale, x: Ext)
    requires
        s.wf(),
        s.steps@.len() == 0,
        s.delegate.range@ matches Ext::Fin(rn, rd) && rn != 0,
        x is Fin,
        crate::value::ext_wf(x),
    ensures
        s.s_rel(s.s_abs(x)) is Fin ==> crate::value::ext_eq(s.s_rel(s.s_abs(x)), x),
{
    let steps = s.steps@;
    let zero = Ext::Fin(0, 1);
    let one = Ext::Fin(1, 1);
    assert(seg_for_y(steps, x) == ((zero, zero), (one, one)));
    assert(ext_sub(one, zero) == one);
    assert(ext_div(one, one) == one);
    assert(ext_mul(one, zero) == zero);
    assert(ext_sub(zero, zero) == zero);
    let w = broken_x_spec(steps, x);
    if let Ext::Fin(xn, xd) = x {
        assert(ext_sub(x, zero) == x);
        assert(ext_div(x, one) == x);
    }
    assert(w == x);
    let l = s.delegate.s_rel(s.delegate.s_abs(x));
    let r = broken_y_spec(steps, l);
    assert(s.s_rel(s.s_abs(x)) == r);
    if r is Fin {
        assert(seg_for_x(steps, l) == ((zero, zero), (one, one)));
        assert(r == ext_add(ext_mul(one, l), zero));
        match l {
            Ext::Nan => {
                assert(r == l);
            },
            Ext::NegInf => {
                assert(r == l);
            },
            Ext::PosInf => {
                assert(r == l);
            },
            Ext::Fin(ln, ld) => {
                if crate::value::fits(ln) && crate::value::fits(ld) {
                    assert(ext_mul(one, l) == l);
                    assert(ext_add(l, zero) == l);
                } else {
                    assert(ext_mul(one, l) is Nan);
                }
                assert(r == l);
            },
        }
        assert(s.delegate.min@ is Fin);
        crate::linear::lemma_lin_round_trip(
            s.delegate.min@,
            s.delegate.range@,
            s.delegate.inverted,
            x,
        );
    }
}

/// A piecewise-linear scale: a linear delegate over the absolute domain plus
/// breakpoints in the delegate's relative coordinate space. Both coordinates
/// of every stored breakpoint live in `[0, 1] x [0, 1]`.
///
/// The breakpoint table is taken as supplied: the scale performs no
/// monotonicity validation, so a table that is not ascending in both
/// coordinates yields a non-monotonic or `Nan`-producing remap, exactly as
/// the formulas state.
#[derive(Clone, Debug)]
pub struct BrokenScale {
    pub delegate: LinearScale,
    pub steps: Vec<(Val, Val)>,
}

impl BrokenScale {
    /// Everything the methods rely on: a well-formed delegate and well-formed
    /// breakpoint coordinates.
    pub open spec fn steps_wf(&self) -> bool {
        forall|j: int|
            0 <= j < self.steps@.len() ==> (#[trigger] self.steps@[j]).0.valid()
                && self.steps@[j].1.valid()
    }

    /// Builds a broken scale over `[min, max]` from breakpoints supplied as
    /// (absolute, relative) pairs; each absolute coordinate is converted
    /// once, at construction, into the delegate's relative space, and stored
    /// in reduced form so that later evaluations start from small fractions.
    pub fn new(min: Val, max: Val, steps: &[(Val, Val)]) -> (s: BrokenScale)
        requires
            min.valid(),
            max.valid(),
            forall|j: int|
                0 <= j < steps@.len() ==> (#[trigger] steps@[j]).0.valid() && steps@[j].1.valid(),
        ensures
            s.wf(),
            s.delegate.min == min,
            s.delegate.max == max,
            !s.delegate.inverted,
            s.steps@.len() == steps@.len(),
            forall|j: int|
                0 <= j < steps@.len() ==> crate::value::ext_eq(
                    (#[trigger] s.steps@[j]).0@,
                    s.delegate.s_rel(steps@[j].0@),
                ) && s.steps@[j].1 == steps@[j].1,
    {
        let delegate = LinearScale::new(min, max);
        let mut mapped: Vec<(Val, Val)> = Vec::new();
        let mut i: usize = 0;
        while i < steps.len()
            invariant
                delegate.wf(),
                i <= steps@.len(),
                mapped@.len() == i,
                forall|j: int|
                    0 <= j < steps@.len() ==> (#[trigger] steps@[j]).0.valid()
                        && steps@[j].1.valid(),
                forall|j: int|
                    0 <= j < i ==> crate::value::ext_eq(
                        (#[trigger] mapped@[j]).0@,
                        delegate.s_rel(steps@[j].0@),
                    ) && mapped@[j].0.valid() && mapped@[j].1 == steps@[j].1,
            decreases steps@.len() - i,
        {
            let (abs, rel) = steps[i];
            let x = delegate.to_relative(abs).reduced();
            mapped.push((x, rel));
            i += 1;
        }
        BrokenScale { delegate, steps: mapped }
    }

    /// The forward remap of `broken_y_spec`: scan for the bracketing segment,
    /// fit its line, evaluate at `rel_x`.
    fn broken_y(&self, rel_x: Val) -> (r: Val)
        requires
            self.wf(),
            rel_x.valid(),
        ensures
            r@ == broken_y_spec(self.steps@, rel_x@),
            r.valid(),
    {
        let one = Val::of_int(1);
        let zero = Val::of_int(0);
        let mut from: (Val, Val) = (zero, zero);
        let mut to: (Val, Val) = (one, one);

        if rel_x.ge(one) {
            if self.steps.len() > 0 {
                from = self.steps[self.steps.len() - 1];
            }
        } else {
            proof {
                lemma_cut_x_props(self.steps@, rel_x@);
            }
            let ghost k = cut_x(self.steps@, rel_x@);
            let n = self.steps.len();
            let mut i: usize = 0;
            while i < n && self.steps[i].0.lt(rel_x)
                invariant
                    self.wf(),
                    rel_x.valid(),
                    n == self.steps@.len(),
                    0 <= i <= k,
                    k <= n,
                    forall|j: int| 0 <= j < k ==> ext_lt((#[trigger] self.steps@[j]).0@, rel_x@),
                    k < n ==> !ext_lt(self.steps@[k as int].0@, rel_x@),
                decreases n - i,
            {
                i += 1;
            }
            proof {
                assert(i == k);
            }
            if i > 0 {
                from = self.steps[i - 1];
            }
            if i < n {
                to = self.steps[i];
            }
        }

        let dx = to.0.sub(from.0);
        let dy = to.1.sub(from.1);
        let m = dy.div(dx);
        let t = from.1.sub(m.mul(from.0));
        m.mul(rel_x).add(t)
    }

    /// The inverse remap of `broken_x_spec`: scan the y-coordinates, fit the
    /// segment's line, solve it at `rel_y`.
    fn broken_x(&self, rel_y: Val) -> (r: Val)
        requires
            self.wf(),
            rel_y.valid(),
        ensures
            r@ == broken_x_spec(self.steps@, rel_y@),
            r.valid(),
    {
        let one = Val::of_int(1);
        let zero = Val::of_int(0);
        let mut from: (Val, Val) = (zero, zero);
        let mut to: (Val, Val) = (one, one);

        if rel_y.ge(one) {
            if self.steps.len() > 0 {
                from = self.steps[self.steps.len() - 1];
            }
        } else {
            proof {
                lemma_cut_y_props(self.steps@, rel_y@);
            }
            let ghost k = cut_y(self.steps@, rel_y@);
            let n = self.steps.len();
            let mut i: usize = 0;
            while i < n && self.steps[i].1.lt(rel_y)
                invariant
                    self.wf(),
                    rel_y.valid(),
                    n == self.steps@.len(),
                    0 <= i <= k,
                    k <= n,
                    forall|j: int| 0 <= j < k ==> ext_lt((#[trigger] self.steps@[j]).1@, rel_y@),
                    k < n ==> !ext_lt(self.steps@[k as int].1@, rel_y@),
                decreases n - i,
            {
                i += 1;
            }
            proof {
                assert(i == k);
            }
            if i > 0 {
                from = self.steps[i - 1];
            }
            if i < n {
                to = self.steps[i];
            }
        }

        let dx = to.0.sub(from.0);
        let dy = to.1.sub(from.1);
        let m = dy.div(dx);
        let t = from.1.sub(m.mul(from.0));
        rel_y.sub(t).div(m)
    }
}

impl Scale for BrokenScale {
    open spec fn wf(&self) -> bool {
        self.delegate.wf() && self.steps_wf()
    }

    open spec fn s_min(&self) -> Ext {
        self.delegate.s_min()
    }

    open spec fn s_max(&self) -> Ext {
        self.delegate.s_max()
    }

    open spec fn s_rel(&self, a: Ext) -> Ext {
        broken_y_spec(self.steps@, self.delegate.s_rel(a))
    }

    open spec fn s_abs(&self, r: Ext) -> Ext {
        self.delegate.s_abs(broken_x_spec(self.steps@, r))
    }

    fn to_relative(&self, absolute: Val) -> (r: Val) {
        let delegated_relative = self.delegate.to_relative(absolute);
        self.broken_y(delegated_relative)
    }

    fn to_absolute(&self, relative: Val) -> (r: Val) {
        let delegated_relative = self.broken_x(relative);
        self.delegate.to_absolute(delegated_relative)
    }

    fn max(&self) -> (r: Val) {
        self.delegate.max
    }

    fn min(&self) -> (r: Val) {
        self.delegate.min
    }
}

} // verus!
