//! The converter: a composition of two scales — an external and an internal
//! domain — routed through their shared relative coordinate space, with
//! delta-application helpers and clamped variants.

use vstd::prelude::*;

use crate::value::{ext_add, ext_le, ext_lt, Ext, Val};
use crate::Scale;

verus! {

/// The input clamped to `[lo, hi]`, testing the lower bound first; a value
/// that compares with neither bound (`Nan`) passes through unclamped.
pub open spec fn ext_clamp_lo(x: Ext, lo: Ext, hi: Ext) -> Ext {
    if ext_lt(x, lo) {
        lo
    } else if ext_lt(hi, x) {
        hi
    } else {
        x
    }
}

/// Converts values between two absolute domains. The spec functions `c_fwd`
/// and `c_back` are the two composed mappings; deltas are applied by
/// converting to the delta's own domain, adding there, and converting back.
pub trait Converter: Sized {
    /// The invariant of the underlying pair of scales.
    spec fn wf(&self) -> bool;

    /// The forward mapping, external domain to internal domain.
    spec fn c_fwd(&self, v: Ext) -> Ext;

    /// The backward mapping, internal domain to external domain.
    spec fn c_back(&self, v: Ext) -> Ext;

    /// Maps an external value into the internal domain.
    fn convert(&self, external_value: Val) -> (r: Val)
        requires
            self.wf(),
            external_value.valid(),
        ensures
            r@ == self.c_fwd(external_value@),
            r.valid(),
    ;

    /// Maps an internal value back into the external domain.
    fn convert_back(&self, internal_value: Val) -> (r: Val)
        requires
            self.wf(),
            internal_value.valid(),
        ensures
            r@ == self.c_back(internal_value@),
            r.valid(),
    ;

    /// Applies a delta given in external units to an internal value: convert
    /// back, add, reconvert.
    fn add_external(&self, external_delta: Val, internal_value: Val) -> (r: Val)
        requires
            self.wf(),
            external_delta.valid(),
            internal_value.valid(),
        ensures
            r@ == self.c_fwd(ext_add(self.c_back(internal_value@), external_delta@)),
            r.valid(),
    {
        let external_value = self.convert_back(internal_value);
        let new_internal_value = self.convert(external_value.add(external_delta));
        new_internal_value
    }

    /// Applies a delta given in internal units to an external value.
    fn add_internal(&self, internal_delta: Val, external_value: Val) -> (r: Val)
        requires
            self.wf(),
            internal_delta.valid(),
            external_value.valid(),
        ensures
            r@ == self.c_back(ext_add(self.c_fwd(external_value@), internal_delta@)),
            r.valid(),
    {
        let internal_value = self.convert(external_value);
        let new_external_value = self.convert_back(internal_value.add(internal_delta));
        new_external_value
    }
}

/// A converter that also exposes both domains' declared bounds and can clamp
/// delta applications to them.
pub trait ClampingConverter: Converter {
    /// The external domain's declared lower bound.
    spec fn ce_min(&self) -> Ext;

    /// The external domain's declared upper bound.
    spec fn ce_max(&self) -> Ext;

    /// The internal domain's declared lower bound.
    spec fn ci_min(&self) -> Ext;

    /// The internal domain's declared upper bound.
    spec fn ci_max(&self) -> Ext;

    /// The external scale's upper bound.
    fn external_max(&self) -> (r: Val)
        requires
            self.wf(),
        ensures
            r@ == self.ce_max(),
            r.valid(),
    ;

    /// The external scale's lower bound.
    fn external_min(&self) -> (r: Val)
        requires
            self.wf(),
        ensures
            r@ == self.ce_min(),
            r.valid(),
    ;

    /// The internal scale's upper bound.
    fn internal_max(&self) -> (r: Val)
        requires
            self.wf(),
        ensures
            r@ == self.ci_max(),
            r.valid(),
    ;

    /// The internal scale's lower bound.
    fn internal_min(&self) -> (r: Val)
        requires
            self.wf(),
        ensures
            r@ == self.ci_min(),
            r.valid(),
    ;

    /// Like `add_external`, but the result is clamped to the internal
    /// domain's bounds; a result that compares with neither bound passes
    /// through unclamped.
    fn add_external_clamped(&self, external_delta: Val, internal_value: Val) -> (r: Val)
        requires
            self.wf(),
            external_delta.valid(),
            internal_value.valid(),
        ensures
            r@ == ext_clamp_lo(
                self.c_fwd(ext_add(self.c_back(internal_value@), external_delta@)),
                self.ci_min(),
                self.ci_max(),
            ),
            r.valid(),
    {
        let min = self.internal_min();
        let max = self.internal_max();
        let val = self.add_external(external_delta, internal_value);
        if min.gt(val) {
            min
        } else if max.lt(val) {
            max
        } else {
            val
        }
    }

    /// Like `add_internal`, but the result is clamped to the external
    /// domain's bounds.
    fn add_internal_clamped(&self, internal_delta: Val, external_value: Val) -> (r: Val)
        requires
            self.wf(),
            internal_delta.valid(),
            external_value.valid(),
        ensures
            r@ == ext_clamp_lo(
                self.c_back(ext_add(self.c_fwd(external_value@), internal_delta@)),
                self.ce_min(),
                self.ce_max(),
            ),
            r.valid(),
    {
        let min = self.external_min();
        let max = self.external_max();
        let val = self.add_internal(internal_delta, external_value);
        if min.gt(val) {
            min
        } else if max.lt(val) {
            max
        } else {
            val
        }
    }
}

impl<SE: Scale, SI: Scale> Converter for (SE, SI) {
    open spec fn wf(&self) -> bool {
        self.0.wf() && self.1.wf()
    }

    open spec fn c_fwd(&self, v: Ext) -> Ext {
        self.1.s_abs(self.0.s_rel(v))
    }

    open spec fn c_back(&self, v: Ext) -> Ext {
        self.0.s_abs(self.1.s_rel(v))
    }

    fn convert(&self, external_value: Val) -> (r: Val) {
        let external = &self.0;
        let internal = &self.1;
        let rel = external.to_relative(external_value);
        internal.to_absolute(rel)
    }

    fn convert_back(&self, internal_value: Val) -> (r: Val) {
        let external = &self.0;
        let internal = &self.1;
        let rel = internal.to_relative(internal_value);
        external.to_absolute(rel)
    }
}

impl<SE: Scale, SI: Scale> ClampingConverter for (SE, SI) {
    open spec fn ce_min(&self) -> Ext {
        self.0.s_min()
    }

    open spec fn ce_max(&self) -> Ext {
        self.0.s_max()
    }

    open spec fn ci_min(&self) -> Ext {
        self.1.s_min()
    }

    open spec fn ci_max(&self) -> Ext {
        self.1.s_max()
    }

    fn external_max(&self) -> (r: Val) {
        self.0.max()
    }

    fn external_min(&self) -> (r: Val) {
        self.0.min()
    }

    fn internal_max(&self) -> (r: Val) {
        self.1.max()
    }

    fn internal_min(&self) -> (r: Val) {
        self.1.min()
    }
}

/// Clamping stays inside the bounds: when `lo` and `hi` are comparable and
/// ordered, the clamped value is `Nan` only if the input was, and otherwise
/// lies in `[lo, hi]`. This is the heart of the guarantee that clamped delta
/// addition never leaves the target scale's domain.
pub proof fn lemma_clamp_within(v: Ext, lo: Ext, hi: Ext)
    requires
        !(lo is Nan),
        !(hi is Nan),
        ext_le(lo, hi),
    ensures
        ext_clamp_lo(v, lo, hi) is Nan ==> v is Nan,
        !(ext_clamp_lo(v, lo, hi) is Nan) ==> ext_le(lo, ext_clamp_lo(v, lo, hi)) && ext_le(
            ext_clamp_lo(v, lo, hi),
            hi,
        ),
{
}

/// Clamped delta addition never produces a value outside the internal
/// scale's `[min, max]`: for every delta and every starting value, the
/// result of `add_external_clamped` is either `Nan` (an uncomparable
/// intermediate passed through) or lies within the internal bounds.
pub proof fn lemma_add_external_clamped_in_bounds<C: ClampingConverter>(
    c: &C,
    external_delta: Ext,
    internal_value: Ext,
)
    requires
        !(c.ci_min() is Nan),
        !(c.ci_max() is Nan),
        ext_le(c.ci_min(), c.ci_max()),
    ensures
        ({
            let r = ext_clamp_lo(
                c.c_fwd(ext_add(c.c_back(internal_value), external_delta)),
                c.ci_min(),
                c.ci_max(),
            );
            r is Nan || (ext_le(c.ci_min(), r) && ext_le(r, c.ci_max()))
        }),
{
    lemma_clamp_within(
        c.c_fwd(ext_add(c.c_back(internal_value), external_delta)),
        c.ci_min(),
        c.ci_max(),
    );
}

/// The mirror guarantee for `add_internal_clamped` and the external bounds.
pub proof fn lemma_add_internal_clamped_in_bounds<C: ClampingConverter>(
    c: &C,
    internal_delta: Ext,
    external_value: Ext,
)
    requires
        !(c.ce_min() is Nan),
        !(c.ce_max() is Nan),
        ext_le(c.ce_min(), c.ce_max()),
    ensures
        ({
            let r = ext_clamp_lo(
                c.c_back(ext_add(c.c_fwd(external_value), internal_delta)),
                c.ce_min(),
                c.ce_max(),
            );
            r is Nan || (ext_le(c.ce_min(), r) && ext_le(r, c.ce_max()))
        }),
{
    lemma_clamp_within(
        c.c_back(ext_add(c.c_fwd(external_value), internal_delta)),
        c.ce_min(),
        c.ce_max(),
    );
}

} // verus!
