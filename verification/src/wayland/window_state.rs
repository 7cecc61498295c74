//! The toplevel's size, scale and mode, as last agreed with the compositor.

use vstd::prelude::*;

use crate::wayland::scale::Scale120;
use crate::wayland::scale::scaled;

verus! {

/// A window extent: both sides positive.
#[derive(Clone, Copy, PartialEq, Eq, Structural, Debug)]
pub struct WindowSize {
    w: i32,
    h: i32,
}

impl WindowSize {
    #[verifier::type_invariant]
    spec fn inv(self) -> bool {
        self.w > 0 && self.h > 0
    }

    pub closed spec fn spec_w(self) -> i32 {
        self.w
    }

    pub closed spec fn spec_h(self) -> i32 {
        self.h
    }

    /// The extent of these sides.
    pub closed spec fn of(w: i32, h: i32) -> WindowSize {
        WindowSize { w, h }
    }

    /// The extent, where it is one.
    pub fn new(w: i32, h: i32) -> (r: Option<WindowSize>)
        ensures
            r == checked_size(w, h),
            r matches Some(s) ==> s.w() == w && s.h() == h,
    {
        if w > 0 && h > 0 {
            Some(WindowSize { w, h })
        } else {
            None
        }
    }

    #[verifier::when_used_as_spec(spec_w)]
    pub fn w(self) -> (r: i32)
        ensures
            r == self.spec_w(),
            r > 0,
    {
        proof {
            use_type_invariant(self);
        }
        self.w
    }

    #[verifier::when_used_as_spec(spec_h)]
    pub fn h(self) -> (r: i32)
        ensures
            r == self.spec_h(),
            r > 0,
    {
        proof {
            use_type_invariant(self);
        }
        self.h
    }
}

/// The extent of these sides, where it is one.
pub open spec fn checked_size(w: i32, h: i32) -> Option<WindowSize> {
    if w > 0 && h > 0 {
        Some(WindowSize::of(w, h))
    } else {
        None
    }
}

/// An extent is its two sides.
pub proof fn window_size_sides(w: i32, h: i32, s: WindowSize)
    ensures
        WindowSize::of(w, h).w() == w,
        WindowSize::of(w, h).h() == h,
        WindowSize::of(s.w(), s.h()) == s,
{
}

#[derive(Clone, Copy, PartialEq, Eq, Structural, Debug)]
pub enum WindowMode {
    Floating,
    Tiled,
    Maximized,
    Fullscreen,
}

impl WindowMode {
    pub open spec fn restores(self) -> bool {
        self == WindowMode::Floating
    }

    /// Only a floating window chooses its own size; every other mode has it
    /// dictated by the compositor.
    pub fn uses_floating_restore(self) -> (r: bool)
        ensures
            r == self.restores(),
    {
        matches!(self, WindowMode::Floating)
    }
}

/// Where a scale comes from.
#[derive(Clone, Copy, PartialEq, Eq, Structural, Debug)]
pub enum ScaleProvenance {
    /// A guess, made so that the first frame can be drawn.
    Provisional,
    /// The compositor's own word.
    Authoritative,
}

/// Whether a scale takes the place of the current one: a guess never displaces
/// the compositor's word.
pub open spec fn displaces(cur: Option<ScaleProvenance>, incoming: ScaleProvenance) -> bool {
    incoming == ScaleProvenance::Authoritative || cur != Some(ScaleProvenance::Authoritative)
}

pub fn scale_displaces(cur: Option<ScaleProvenance>, incoming: ScaleProvenance) -> (r: bool)
    ensures
        r == displaces(cur, incoming),
{
    match (cur, incoming) {
        (Some(ScaleProvenance::Authoritative), ScaleProvenance::Provisional) => false,
        _ => true,
    }
}

/// A published extent: logical and physical size, the scale between them, and
/// the mode, all of one generation.
#[derive(Clone, Copy, PartialEq, Eq, Structural, Debug)]
pub struct PublishedExtent {
    pub logical: WindowSize,
    pub physical: WindowSize,
    pub scale: Scale120,
    pub mode: WindowMode,
}

/// What the backend knows of its toplevel.
#[derive(Clone, Copy, PartialEq, Eq, Structural, Debug)]
pub struct WindowState {
    pub scale: Option<Scale120>,
    pub provenance: Option<ScaleProvenance>,
    pub size: Option<WindowSize>,
    pub mode: WindowMode,
}

impl WindowState {
    /// A scale is known exactly with its provenance.
    pub open spec fn wf(self) -> bool {
        self.scale is Some <==> self.provenance is Some
    }

    pub fn new() -> (s: WindowState)
        ensures
            s.wf(),
            s.scale is None,
            s.size is None,
            s.mode == WindowMode::Floating,
    {
        WindowState { scale: None, provenance: None, size: None, mode: WindowMode::Floating }
    }

    /// The state after a scale was offered.
    pub open spec fn fed(self, scale: Scale120, incoming: ScaleProvenance) -> WindowState {
        if displaces(self.provenance, incoming) {
            WindowState { scale: Some(scale), provenance: Some(incoming), ..self }
        } else {
            self
        }
    }

    pub fn feed_scale(&mut self, scale: Scale120, incoming: ScaleProvenance)
        ensures
            *final(self) == old(self).fed(scale, incoming),
            old(self).wf() ==> final(self).wf(),
    {
        if scale_displaces(self.provenance, incoming) {
            self.scale = Some(scale);
            self.provenance = Some(incoming);
        }
    }

    /// The fallback where no scale can be had: 1.0, to be corrected later.
    pub fn feed_unit_scale(&mut self)
        ensures
            *final(self) == old(self).fed(Scale120::of(120), ScaleProvenance::Provisional),
            old(self).wf() ==> final(self).wf(),
    {
        self.feed_scale(Scale120::unit(), ScaleProvenance::Provisional);
    }

    pub fn known_scale(&self) -> (r: Option<Scale120>)
        ensures
            r == self.scale,
    {
        self.scale
    }

    /// Takes over the size and mode just presented.
    pub fn publish(&mut self, size: WindowSize, mode: WindowMode)
        ensures
            *final(self) == (WindowState { size: Some(size), mode, ..*old(self) }),
    {
        self.size = Some(size);
        self.mode = mode;
    }

    /// The current extent, once a size and a scale are known and the physical
    /// size they make can be represented.
    pub fn window_extent(&self) -> (r: Option<PublishedExtent>)
        ensures
            r == self.extent(),
            r matches Some(e) ==> e.physical.w() == scaled(e.logical.w() as int, e.scale)
                && e.physical.h() == scaled(e.logical.h() as int, e.scale),
    {
        match (self.size, self.scale) {
            (Some(logical), Some(scale)) => match scale.physical_size(logical) {
                Some(physical) => {
                    proof {
                        use_type_invariant(physical);
                        window_size_sides(physical.w(), physical.h(), physical);
                    }
                    Some(PublishedExtent { logical, physical, scale, mode: self.mode })
                },
                None => None,
            },
            _ => None,
        }
    }

    pub open spec fn extent(self) -> Option<PublishedExtent> {
        match (self.size, self.scale) {
            (Some(logical), Some(scale)) => {
                let w = scaled(logical.w() as int, scale);
                let h = scaled(logical.h() as int, scale);
                if 1 <= w <= i32::MAX && 1 <= h <= i32::MAX {
                    Some(
                        PublishedExtent {
                            logical,
                            physical: WindowSize::of(w as i32, h as i32),
                            scale,
                            mode: self.mode,
                        },
                    )
                } else {
                    None
                }
            },
            _ => None,
        }
    }
}

/// Once the compositor has spoken, no guess is ever used again, whatever
/// scales are offered and in whatever order.
pub proof fn authoritative_scale_stays(
    s: WindowState,
    offers: Seq<(Scale120, ScaleProvenance)>,
)
    requires
        s.provenance == Some(ScaleProvenance::Authoritative),
    ensures
        ({
            let after = offers.fold_left(
                s,
                |st: WindowState, o: (Scale120, ScaleProvenance)| st.fed(o.0, o.1),
            );
            &&& after.provenance == Some(ScaleProvenance::Authoritative)
            &&& (forall|i: int|
                0 <= i < offers.len() ==> (#[trigger] offers[i]).1
                    == ScaleProvenance::Provisional) ==> after == s
        }),
    decreases offers.len(),
{
    if offers.len() > 0 {
        let front = offers.drop_last();
        authoritative_scale_stays(s, front);
        assert forall|i: int| 0 <= i < front.len() implies front[i] == #[trigger] offers[i] by {}
        if forall|i: int|
            0 <= i < offers.len() ==> (#[trigger] offers[i]).1 == ScaleProvenance::Provisional {
            assert(offers[offers.len() - 1].1 == ScaleProvenance::Provisional);
            assert forall|i: int| 0 <= i < front.len() implies (#[trigger] front[i]).1
                == ScaleProvenance::Provisional by {
                assert(offers[i].1 == ScaleProvenance::Provisional);
            }
        }
    }
}

} // verus!
