//! A scale is a mapping of an arbitrary, not necessarily linear, continuous
//! and monotonically increasing range of numbers to a relative value between
//! 0 and 1. It is useful for converting corresponding values between
//! different coordinate spaces, for example for processing input from or
//! rendering to a graphical user interface: a typical example would be
//! calculating the position of a slider knob that controls a nonlinearly
//! scaled parameter.
//!
//! Values are exact extended rationals (see [`value::Val`]): finite fractions
//! plus the special values `Nan` and the two infinities, which propagate
//! through every operation by the rules of IEEE-754 arithmetic. Malformed
//! inputs — an empty range, an out-of-domain query — are never rejected; they
//! surface as those special values, exactly as the contracts state.

pub mod broken;
pub mod convert;
pub mod converter;
pub mod linear;
pub mod value;

use vstd::prelude::*;

use crate::value::{ext_lt, Ext, Val};

verus! {

/// The input clamped to `[lo, hi]`, testing the upper bound first; a value
/// that compares with neither bound (`Nan`) passes through unchanged.
pub open spec fn ext_clamp(x: Ext, lo: Ext, hi: Ext) -> Ext {
    if ext_lt(hi, x) {
        hi
    } else if ext_lt(x, lo) {
        lo
    } else {
        x
    }
}

/// The shared contract of all scales: a bidirectional mapping between an
/// absolute domain and the relative coordinate space `[0, 1]`, plus clamped
/// and delta-wise derived operations.
///
/// The spec functions `s_rel` and `s_abs` are each implementation's
/// mathematical shape; `to_relative` and `to_absolute` compute exactly those.
/// Queries outside the declared bounds extrapolate rather than fail.
pub trait Scale: Sized {
    /// The scale's internal invariant, established by its constructors.
    spec fn wf(&self) -> bool;

    /// The declared lower domain bound.
    spec fn s_min(&self) -> Ext;

    /// The declared upper domain bound.
    spec fn s_max(&self) -> Ext;

    /// The mapping from absolute values to relative positions.
    spec fn s_rel(&self, a: Ext) -> Ext;

    /// The mapping from relative positions back to absolute values.
    spec fn s_abs(&self, r: Ext) -> Ext;

    /// Maps an absolute value to its relative position; inputs outside
    /// `[min, max]` extrapolate past 0 or 1.
    fn to_relative(&self, absolute: Val) -> (r: Val)
        requires
            self.wf(),
            absolute.valid(),
        ensures
            r@ == self.s_rel(absolute@),
            r.valid(),
    ;

    /// Maps a relative position to its absolute value; inputs outside
    /// `[0, 1]` extrapolate past the bounds.
    fn to_absolute(&self, relative: Val) -> (r: Val)
        requires
            self.wf(),
            relative.valid(),
        ensures
            r@ == self.s_abs(relative@),
            r.valid(),
    ;

    /// The declared upper bound, as supplied at construction.
    fn max(&self) -> (r: Val)
        requires
            self.wf(),
        ensures
            r@ == self.s_max(),
            r.valid(),
    ;

    /// The declared lower bound, as supplied at construction.
    fn min(&self) -> (r: Val)
        requires
            self.wf(),
        ensures
            r@ == self.s_min(),
            r.valid(),
    ;

    /// Clamps the absolute input to `[min, max]` before mapping, so the
    /// result stays in `[0, 1]` whenever the mapping is monotonic there.
    fn to_clamped_relative(&self, absolute: Val) -> (r: Val)
        requires
            self.wf(),
            absolute.valid(),
        ensures
            r@ == self.s_rel(ext_clamp(absolute@, self.s_min(), self.s_max())),
            r.valid(),
    {
        let absolute = if absolute.gt(self.max()) {
            self.max()
        } else if absolute.lt(self.min()) {
            self.min()
        } else {
            absolute
        };
        self.to_relative(absolute)
    }

    /// Clamps the relative input to `[0, 1]` before mapping, so the result
    /// stays between the bounds whenever the mapping is monotonic.
    fn to_clamped_absolute(&self, relative: Val) -> (r: Val)
        requires
            self.wf(),
            relative.valid(),
        ensures
            r@ == self.s_abs(ext_clamp(relative@, Ext::Fin(0, 1), Ext::Fin(1, 1))),
            r.valid(),
    {
        let one = Val::of_int(1);
        let zero = Val::of_int(0);
        let relative = if relative.gt(one) {
            one
        } else if relative.lt(zero) {
            zero
        } else {
            relative
        };
        self.to_absolute(relative)
    }

    /// Converts an absolute-space increment into the relative-space increment
    /// it amounts to at the given relative position: the exact finite
    /// difference, not a tangent approximation.
    fn to_relative_delta(&self, absolute_delta: Val, relative_pos: Val) -> (r: Val)
        requires
            self.wf(),
            absolute_delta.valid(),
            relative_pos.valid(),
        ensures
            r@ == value::ext_sub(
                self.s_rel(value::ext_add(self.s_abs(relative_pos@), absolute_delta@)),
                relative_pos@,
            ),
            r.valid(),
    {
        let absolute_pos = self.to_absolute(relative_pos);
        let rel_pos_out = self.to_relative(absolute_pos.add(absolute_delta));
        rel_pos_out.sub(relative_pos)
    }

    /// Converts a relative-space increment into the absolute-space increment
    /// it amounts to at the given absolute position.
    fn to_absolute_delta(&self, relative_delta: Val, absolute_pos: Val) -> (r: Val)
        requires
            self.wf(),
            relative_delta.valid(),
            absolute_pos.valid(),
        ensures
            r@ == value::ext_sub(
                self.s_abs(value::ext_add(self.s_rel(absolute_pos@), relative_delta@)),
                absolute_pos@,
            ),
            r.valid(),
    {
        let relative_pos = self.to_relative(absolute_pos);
        let abs_pos_out = self.to_absolute(relative_pos.add(relative_delta));
        abs_pos_out.sub(absolute_pos)
    }
}

impl<SN: Scale> Scale for &SN {
    open spec fn wf(&self) -> bool {
        (**self).wf()
    }

    open spec fn s_min(&self) -> Ext {
        (**self).s_min()
    }

    open spec fn s_max(&self) -> Ext {
        (**self).s_max()
    }

    open spec fn s_rel(&self, a: Ext) -> Ext {
        (**self).s_rel(a)
    }

    open spec fn s_abs(&self, r: Ext) -> Ext {
        (**self).s_abs(r)
    }

    fn to_relative(&self, absolute: Val) -> (r: Val) {
        SN::to_relative(self, absolute)
    }

    fn to_absolute(&self, relative: Val) -> (r: Val) {
        SN::to_absolute(self, relative)
    }

    fn max(&self) -> (r: Val) {
        SN::max(self)
    }

    fn min(&self) -> (r: Val) {
        SN::min(self)
    }
}

impl<SN: Scale> Scale for std::rc::Rc<SN> {
    open spec fn wf(&self) -> bool {
        (**self).wf()
    }

    open spec fn s_min(&self) -> Ext {
        (**self).s_min()
    }

    open spec fn s_max(&self) -> Ext {
        (**self).s_max()
    }

    open spec fn s_rel(&self, a: Ext) -> Ext {
        (**self).s_rel(a)
    }

    open spec fn s_abs(&self, r: Ext) -> Ext {
        (**self).s_abs(r)
    }

    fn to_relative(&self, absolute: Val) -> (r: Val) {
        SN::to_relative(self, absolute)
    }

    fn to_absolute(&self, relative: Val) -> (r: Val) {
        SN::to_absolute(self, relative)
    }

    fn max(&self) -> (r: Val) {
        SN::max(self)
    }

    fn min(&self) -> (r: Val) {
        SN::min(self)
    }
}

impl<SN: Scale> Scale for std::sync::Arc<SN> {
    open spec fn wf(&self) -> bool {
        (**self).wf()
    }

    open spec fn s_min(&self) -> Ext {
        (**self).s_min()
    }

    open spec fn s_max(&self) -> Ext {
        (**self).s_max()
    }

    open spec fn s_rel(&self, a: Ext) -> Ext {
        (**self).s_rel(a)
    }

    open spec fn s_abs(&self, r: Ext) -> Ext {
        (**self).s_abs(r)
    }

    fn to_relative(&self, absolute: Val) -> (r: Val) {
        SN::to_relative(self, absolute)
    }

    fn to_absolute(&self, relative: Val) -> (r: Val) {
        SN::to_absolute(self, relative)
    }

    fn max(&self) -> (r: Val) {
        SN::max(self)
    }

    fn min(&self) -> (r: Val) {
        SN::min(self)
    }
}

impl<SN: Scale> Scale for Box<SN> {
    open spec fn wf(&self) -> bool {
        (**self).wf()
    }

    open spec fn s_min(&self) -> Ext {
        (**self).s_min()
    }

    open spec fn s_max(&self) -> Ext {
        (**self).s_max()
    }

    open spec fn s_rel(&self, a: Ext) -> Ext {
        (**self).s_rel(a)
    }

    open spec fn s_abs(&self, r: Ext) -> Ext {
        (**self).s_abs(r)
    }

    fn to_relative(&self, absolute: Val) -> (r: Val) {
        SN::to_relative(self, absolute)
    }

    fn to_absolute(&self, relative: Val) -> (r: Val) {
        SN::to_absolute(self, relative)
    }

    fn max(&self) -> (r: Val) {
        SN::max(self)
    }

    fn min(&self) -> (r: Val) {
        SN::min(self)
    }
}

} // verus!
