//! Shared X11 facts, split by ownership so every mutable one has exactly one
//! writer.

use vstd::prelude::*;

verus! {

#[derive(Clone, Copy, PartialEq, Eq, Structural, Debug)]
pub struct Atoms {
    pub net_wm_window_type: u32,
    pub net_wm_window_type_normal: u32,
    pub net_wm_state: u32,
    pub net_wm_state_skip_taskbar: u32,
    pub net_wm_state_skip_pager: u32,
    pub net_wm_state_fullscreen: u32,
    pub net_wm_state_maximized_vert: u32,
    pub net_wm_state_maximized_horz: u32,
    pub wm_protocols: u32,
    pub wm_delete_window: u32,
    pub net_wm_sync_request: u32,
    pub net_wm_sync_request_counter: u32,
    pub cardinal: u32,
    pub motif_wm_hints: u32,
    pub net_active_window: u32,
}

/// Immutable host-window facts, set once.
#[derive(Clone, Copy, PartialEq, Eq, Structural, Debug)]
pub struct HostServices {
    pub screen_num: i32,
    pub root: u32,
    /// App-owned WM-managed top-level; carries the identity and owns
    /// fullscreen.
    pub toplevel: u32,
    /// App-owned child of the top-level filling its client area at the bottom
    /// of the stack; mpv embeds into it.
    pub video_host: u32,
    pub atoms: Atoms,
    /// The resize-sync counter, or 0 when the full handshake could not be
    /// established (then the protocol is not advertised).
    pub sync_counter: u32,
}

/// Immutable visual facts, set once.
#[derive(Clone, Copy, PartialEq, Eq, Structural, Debug)]
pub struct PaintServices {
    pub argb_visual: u32,
    pub argb_depth: u8,
    pub colormap: u32,
}

/// The app top-level's live geometry, published by the geometry thread and
/// swapped wholesale, so no reader sees half an update.
#[derive(Clone, Copy, PartialEq, Eq, Structural, Debug)]
pub struct ParentSnapshot {
    pub origin_x: i32,
    pub origin_y: i32,
    pub width: i32,
    pub height: i32,
    pub fullscreen: bool,
    pub maximized: bool,
    /// The display scale in half steps.
    pub scale_halves: i32,
}

/// The shared facts.
pub struct X11State {
    pub host: Option<HostServices>,
    pub paint: Option<PaintServices>,
    pub parent: ParentSnapshot,
    /// Bottom-to-top live overlay window ids.
    pub windows: Vec<u32>,
}

impl X11State {
    pub fn new() -> (s: X11State)
        ensures
            s.host is None,
            s.paint is None,
            s.windows@.len() == 0,
            s.parent == (ParentSnapshot {
                origin_x: 0,
                origin_y: 0,
                width: 0,
                height: 0,
                fullscreen: false,
                maximized: false,
                scale_halves: 0,
            }),
    {
        X11State {
            host: None,
            paint: None,
            parent: ParentSnapshot {
                origin_x: 0,
                origin_y: 0,
                width: 0,
                height: 0,
                fullscreen: false,
                maximized: false,
                scale_halves: 0,
            },
            windows: Vec::new(),
        }
    }

    /// Set once: a second call changes nothing and returns `false`.
    pub fn set_host_services(&mut self, h: HostServices) -> (r: bool)
        ensures
            r == (old(self).host is None),
            final(self).host == (if r {
                Some(h)
            } else {
                old(self).host
            }),
            final(self).paint == old(self).paint,
            final(self).parent == old(self).parent,
            final(self).windows@ == old(self).windows@,
    {
        if self.host.is_some() {
            return false;
        }
        self.host = Some(h);
        true
    }

    /// Set once: a second call changes nothing and returns `false`.
    pub fn set_paint_services(&mut self, p: PaintServices) -> (r: bool)
        ensures
            r == (old(self).paint is None),
            final(self).paint == (if r {
                Some(p)
            } else {
                old(self).paint
            }),
            final(self).host == old(self).host,
            final(self).parent == old(self).parent,
            final(self).windows@ == old(self).windows@,
    {
        if self.paint.is_some() {
            return false;
        }
        self.paint = Some(p);
        true
    }

    /// Publish a fresh parent snapshot.
    pub fn publish_parent(&mut self, snap: ParentSnapshot)
        ensures
            final(self).parent == snap,
            final(self).host == old(self).host,
            final(self).paint == old(self).paint,
            final(self).windows@ == old(self).windows@,
    {
        self.parent = snap;
    }

    /// Publish the live overlay window ids.
    pub fn publish_overlay_windows(&mut self, windows: Vec<u32>)
        ensures
            final(self).windows@ == windows@,
            final(self).host == old(self).host,
            final(self).paint == old(self).paint,
            final(self).parent == old(self).parent,
    {
        self.windows = windows;
    }
}

/// The latest published parent geometry.
pub fn parent_snapshot(state: &X11State) -> (r: ParentSnapshot)
    ensures
        r == state.parent,
{
    state.parent
}

/// The live overlay window ids, bottom to top, as they are now.
pub fn overlay_windows(state: &X11State) -> (r: Vec<u32>)
    ensures
        r@ == state.windows@,
{
    let r = state.windows.clone();
    assert(r@ =~= state.windows@);
    r
}

/// One shared-memory segment and its extent; two per surface so the renderer
/// can double-buffer. `M` is the mapping.
pub struct ShmBuffer<M> {
    pub seg: u32,
    pub map: Option<M>,
    pub w: i32,
    pub h: i32,
}

impl<M> ShmBuffer<M> {
    pub fn empty() -> (b: Self)
        ensures
            b == (ShmBuffer::<M> { seg: 0, map: None, w: 0, h: 0 }),
    {
        ShmBuffer { seg: 0, map: None, w: 0, h: 0 }
    }

    /// The segment registered with the server, or 0 while unmapped.
    pub fn seg(&self) -> (r: u32)
        ensures
            r == self.seg,
    {
        self.seg
    }

    pub fn is_mapped(&self) -> (r: bool)
        ensures
            r == (self.map is Some),
    {
        self.map.is_some()
    }

    pub fn dims(&self) -> (r: (i32, i32))
        ensures
            r == (self.w, self.h),
    {
        (self.w, self.h)
    }

    /// Replaces the mapping; the caller detaches the previous segment first.
    pub fn set(&mut self, seg: u32, map: M, w: i32, h: i32)
        ensures
            *final(self) == (ShmBuffer { seg, map: Some(map), w, h }),
    {
        self.seg = seg;
        self.map = Some(map);
        self.w = w;
        self.h = h;
    }

    /// Unmaps and returns the buffer to its empty state.
    pub fn clear(&mut self)
        ensures
            *final(self) == (ShmBuffer::<M> { seg: 0, map: None, w: 0, h: 0 }),
    {
        *self = Self::empty();
    }
}

} // verus!
