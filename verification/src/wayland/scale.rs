//! Fractional window scale in 120ths, the unit of `wp_fractional_scale_v1`
//! (120 = 1.0). [`Scale120`] owns protocol parsing, ratio conversion, and
//! checked dimension scaling, so a zero scale or an unrepresentable physical
//! extent cannot leave this module.

use vstd::prelude::*;

use crate::wayland::window_state::WindowSize;

verus! {

/// A scale in 120ths, never zero.
#[derive(Clone, Copy, PartialEq, Eq, Structural, Debug)]
pub struct Scale120 {
    raw: u32,
}

/// A length times a scale, rounded half up.
pub open spec fn scaled(logical: int, scale: Scale120) -> int {
    (logical * scale.raw() + 60) / 120
}

/// `physical / logical` in 120ths, rounded half up.
pub open spec fn ratio_120(physical: int, logical: int) -> int {
    (physical * 120 + logical / 2) / logical
}

/// `r` is the scale of this many 120ths, or there is none.
pub open spec fn is_scale(r: Option<Scale120>, raw: int) -> bool {
    match r {
        Some(s) => s.raw() == raw && raw > 0,
        None => raw <= 0 || raw > u32::MAX,
    }
}

impl Scale120 {
    /// 1.0 in 120ths.
    pub const BASE: u32 = 120;

    #[verifier::type_invariant]
    spec fn inv(self) -> bool {
        self.raw > 0
    }

    pub closed spec fn spec_raw(self) -> u32 {
        self.raw
    }

    /// The scale of this many 120ths.
    pub closed spec fn of(raw: u32) -> Scale120 {
        Scale120 { raw }
    }

    /// The scale in 120ths.
    #[verifier::when_used_as_spec(spec_raw)]
    pub fn raw(self) -> (r: u32)
        ensures
            r == self.spec_raw(),
            r > 0,
    {
        proof {
            use_type_invariant(self);
        }
        self.raw
    }

    /// 1.0.
    pub fn unit() -> (r: Scale120)
        ensures
            r == Scale120::of(120),
            r.raw() == 120,
    {
        Scale120 { raw: Self::BASE }
    }

    /// Parse a `wp_fractional_scale_v1.preferred_scale` wire value (120ths;
    /// zero is invalid on the wire).
    pub fn from_wire(raw: u32) -> (r: Option<Scale120>)
        ensures
            is_scale(r, raw as int),
            r == (if raw == 0 {
                None
            } else {
                Some(Scale120::of(raw))
            }),
    {
        if raw == 0 {
            None
        } else {
            Some(Scale120 { raw })
        }
    }

    /// Exact rational physical/logical width, rounded to the nearest 120th,
    /// with no float round-trip.
    pub fn from_physical_logical(physical: u32, logical: u32) -> (r: Option<Scale120>)
        requires
            logical > 0,
        ensures
            is_scale(r, ratio_120(physical as int, logical as int)),
    {
        let num: u64 = physical as u64 * 120;
        let den: u64 = logical as u64;
        let sum: u64 = num + den / 2;
        let q: u64 = sum / den;
        assert(0 <= ratio_120(physical as int, logical as int)) by (nonlinear_arith)
            requires
                logical > 0,
                physical >= 0,
        ;
        if q > u32::MAX as u64 {
            None
        } else {
            Self::from_wire(q as u32)
        }
    }

    /// Scale one logical dimension to physical (round half up), or `None` when
    /// the result cannot be represented as a positive `i32`.
    pub fn scale_dim(self, logical: i32) -> (r: Option<i32>)
        ensures
            match r {
                Some(v) => v == scaled(logical as int, self) && v >= 1,
                None => !(1 <= scaled(logical as int, self) <= i32::MAX),
            },
    {
        if logical < 0 {
            assert(logical * self.raw <= 0) by (nonlinear_arith)
                requires
                    logical < 0,
                    0 <= self.raw,
            ;
            return None;
        }
        assert(0 <= logical * self.raw <= i32::MAX * u32::MAX) by (nonlinear_arith)
            requires
                0 <= logical <= i32::MAX,
                0 <= self.raw <= u32::MAX,
        ;
        let product: u64 = logical as u64 * self.raw as u64;
        let q: u64 = (product + 60) / 120;
        if q == 0 || q > i32::MAX as u64 {
            None
        } else {
            Some(q as i32)
        }
    }

    /// Physical size for a logical size, or `None` when either dimension is
    /// unrepresentable.
    pub fn physical_size(self, logical: WindowSize) -> (r: Option<WindowSize>)
        ensures
            match r {
                Some(p) => p.w() == scaled(logical.w() as int, self) && p.h() == scaled(
                    logical.h() as int,
                    self,
                ),
                None => !(1 <= scaled(logical.w() as int, self) <= i32::MAX && 1 <= scaled(
                    logical.h() as int,
                    self,
                ) <= i32::MAX),
            },
    {
        match (self.scale_dim(logical.w()), self.scale_dim(logical.h())) {
            (Some(w), Some(h)) => WindowSize::new(w, h),
            _ => None,
        }
    }
}

/// A scale is its 120ths.
pub proof fn scale_is_its_raw(raw: u32, s: Scale120)
    ensures
        Scale120::of(raw).raw() == raw,
        Scale120::of(s.raw()) == s,
{
}

/// Scaling by 1.0 changes nothing.
pub proof fn unit_scale_is_identity(scale: Scale120, logical: int)
    requires
        scale.raw() == 120,
    ensures
        scaled(logical, scale) == logical,
{
}

/// A scale rederived from the physical size it gave is off by no more than one
/// 120th: rounding the physical size loses at most half a pixel, which for
/// widths of 120 and up is no more than that.
pub proof fn rederived_scale_is_close(scale: Scale120, w: int)
    requires
        w >= 120,
    ensures
        scale.raw() <= ratio_120(scaled(w, scale), w) <= scale.raw() + 1,
{
    let r = scale.raw() as int;
    let product = w * r;
    let p = (product + 60) / 120;
    let num = p * 120 + w / 2;
    assert(product - 59 <= p * 120 <= product + 60);
    assert(num >= product);
    assert(num < product + 2 * w);
    let q = num / w;
    assert(r <= q <= r + 1) by (nonlinear_arith)
        requires
            q == num / w,
            w >= 120,
            product == w * r,
            num >= product,
            num < product + 2 * w,
    ;
}

} // verus!
