//! Presentation state machine. Given what the root window currently knows
//! (mapped or not, pending configure or not, scale known or not, and the
//! resolvable logical size), [`plan`] decides the next step.

use vstd::prelude::*;

use crate::wayland::window_state::checked_size;
use crate::wayland::window_state::WindowMode;
use crate::wayland::window_state::WindowSize;

verus! {

/// Everything [`plan`] needs.
#[derive(Clone, Copy, PartialEq, Eq, Structural, Debug)]
pub struct Inputs {
    pub mapped: bool,
    pub pending_configure: bool,
    pub scale_known: bool,
    pub size: Option<WindowSize>,
}

/// Progress of the deferred first-configure scale fallback.
///
/// - Most compositors send `preferred_scale` before or alongside the first
///   configure. The scale is known when the configure dispatches, [`plan`]
///   never returns `DiscoverScale`, and this stays `Idle`.
/// - Others withhold it until the window maps, which never happens while the
///   first buffer waits on the scale. The configure handler then requests
///   discovery, but the probe is not run inside the callback: the root loop
///   first finishes dispatching the current event batch, so a scale queued
///   later in the same batch wins and dissolves the request. Only if it is
///   still unknown after the drain is the bounded probe spawned.
#[derive(Clone, Copy, PartialEq, Eq, Structural, Debug)]
pub enum ScaleDiscovery {
    Idle,
    Requested,
    Spawned,
}

impl ScaleDiscovery {
    pub open spec fn requested(self) -> ScaleDiscovery {
        if self == ScaleDiscovery::Idle {
            ScaleDiscovery::Requested
        } else {
            self
        }
    }

    pub open spec fn drained(self, scale_known: bool) -> (ScaleDiscovery, bool) {
        if self == ScaleDiscovery::Requested {
            if scale_known {
                (ScaleDiscovery::Idle, false)
            } else {
                (ScaleDiscovery::Spawned, true)
            }
        } else {
            (self, false)
        }
    }

    /// [`plan`] chose [`Step::DiscoverScale`] inside an event callback: only
    /// note the request; never probe here.
    pub fn request(self) -> (r: ScaleDiscovery)
        ensures
            r == self.requested(),
    {
        match self {
            ScaleDiscovery::Idle => ScaleDiscovery::Requested,
            other => other,
        }
    }

    /// The event batch is drained: decide whether the probe must actually run.
    /// A scale that arrived meanwhile dissolves the request; a spawned probe is
    /// never re-spawned.
    pub fn after_batch_drained(self, scale_known: bool) -> (r: (ScaleDiscovery, bool))
        ensures
            r == self.drained(scale_known),
    {
        match self {
            ScaleDiscovery::Requested => if scale_known {
                (ScaleDiscovery::Idle, false)
            } else {
                (ScaleDiscovery::Spawned, true)
            },
            other => (other, false),
        }
    }
}

#[derive(Clone, Copy, PartialEq, Eq, Structural, Debug)]
pub enum Step {
    /// Nothing presentable: no configure yet, or no resolvable size.
    Wait,
    /// A first configure is waiting but no scale is known; scale discovery must
    /// run, then planning re-runs.
    DiscoverScale,
    /// Consume the pending configure (if any), update geometry, and request the
    /// root commit.
    Present,
}

/// Without a configure nothing may be committed; without a scale an unmapped
/// window looks for one; without a size there is nothing to show.
pub open spec fn planned(i: Inputs) -> Step {
    if !i.mapped && i.pending_configure && !i.scale_known {
        Step::DiscoverScale
    } else if (i.mapped || i.pending_configure) && i.scale_known && i.size is Some {
        Step::Present
    } else {
        Step::Wait
    }
}

pub fn plan(i: Inputs) -> (r: Step)
    ensures
        r == planned(i),
{
    // Never commit a buffer before a configure was acked (protocol violation);
    // before the first map that means waiting for one.
    if !i.pending_configure && !i.mapped {
        return Step::Wait;
    }
    if !i.scale_known {
        // A scale can only be missing before the first map; after it the
        // compositor has spoken (or the fallback already fed one).
        return if i.mapped {
            Step::Wait
        } else {
            Step::DiscoverScale
        };
    }
    if i.size.is_none() {
        return Step::Wait;
    }
    Step::Present
}

/// One side: the compositor's where it gave one, else the floating size's in a
/// mode that restores it, else the current one's.
pub open spec fn picked(
    pending: Option<i32>,
    cur: Option<i32>,
    floating: Option<i32>,
    mode: WindowMode,
) -> Option<i32> {
    match pending {
        Some(p) => Some(p),
        None => if mode.restores() {
            floating
        } else {
            cur
        },
    }
}

pub open spec fn side_w(s: Option<WindowSize>) -> Option<i32> {
    match s {
        Some(s) => Some(s.w()),
        None => None,
    }
}

pub open spec fn side_h(s: Option<WindowSize>) -> Option<i32> {
    match s {
        Some(s) => Some(s.h()),
        None => None,
    }
}

/// The logical size to present with.
pub open spec fn resolved(
    pending: (Option<i32>, Option<i32>),
    cur: Option<WindowSize>,
    floating: Option<WindowSize>,
    mode: WindowMode,
) -> Option<WindowSize> {
    match (
        picked(pending.0, side_w(cur), side_w(floating), mode),
        picked(pending.1, side_h(cur), side_h(floating), mode),
    ) {
        (Some(w), Some(h)) => checked_size(w, h),
        _ => None,
    }
}

fn pick(pending: Option<i32>, cur: Option<i32>, floating: Option<i32>, mode: WindowMode) -> (r:
    Option<i32>)
    ensures
        r == picked(pending, cur, floating, mode),
{
    if let Some(p) = pending {
        Some(p)
    } else if mode.uses_floating_restore() {
        floating
    } else {
        cur
    }
}

fn sides(s: Option<WindowSize>) -> (r: (Option<i32>, Option<i32>))
    ensures
        r == (side_w(s), side_h(s)),
{
    match s {
        Some(s) => (Some(s.w()), Some(s.h())),
        None => (None, None),
    }
}

pub fn resolve_logical_size(
    pending: (Option<i32>, Option<i32>),
    cur: Option<WindowSize>,
    floating: Option<WindowSize>,
    mode: WindowMode,
) -> (r: Option<WindowSize>)
    ensures
        r == resolved(pending, cur, floating, mode),
{
    let (cw, ch) = sides(cur);
    let (fw, fh) = sides(floating);
    match (pick(pending.0, cw, fw, mode), pick(pending.1, ch, fh, mode)) {
        (Some(w), Some(h)) => WindowSize::new(w, h),
        _ => None,
    }
}

/// The size a floating window goes back to.
#[derive(Clone, Copy, PartialEq, Eq, Structural, Debug)]
pub struct FloatingRestore {
    pub saved: Option<WindowSize>,
}

impl FloatingRestore {
    pub fn empty() -> (r: FloatingRestore)
        ensures
            r.saved is None,
    {
        FloatingRestore { saved: None }
    }

    pub fn size(self) -> (r: Option<WindowSize>)
        ensures
            r == self.saved,
    {
        self.saved
    }

    pub open spec fn recorded(self, mode: WindowMode, w: i32, h: i32) -> FloatingRestore {
        if mode.restores() {
            FloatingRestore { saved: checked_size(w, h) }
        } else {
            self
        }
    }

    /// Only a floating window's size is worth going back to.
    pub fn record(&mut self, mode: WindowMode, w: i32, h: i32)
        ensures
            *final(self) == old(self).recorded(mode, w, h),
    {
        if mode.uses_floating_restore() {
            self.saved = WindowSize::new(w, h);
        }
    }
}

/// A compositor's idea of one side: an extent, or nothing where it leaves the
/// side to us or sends one that no window can have.
pub fn logical_extent(v: u32) -> (r: Option<i32>)
    ensures
        r == (if 0 < v <= i32::MAX {
            Some(v as i32)
        } else {
            None
        }),
{
    if 0 < v && v <= i32::MAX as u32 {
        Some(v as i32)
    } else {
        None
    }
}

} // verus!
