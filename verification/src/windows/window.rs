//! The mpv window's client rect, DPI, position and mode, sampled in one pass.

use vstd::prelude::*;

verus! {

#[derive(Clone, Copy, PartialEq, Eq, Structural, Debug)]
pub struct Rect {
    pub left: i32,
    pub top: i32,
    pub right: i32,
    pub bottom: i32,
}

#[derive(Clone, Copy, PartialEq, Eq, Structural, Debug)]
pub struct PhysicalSize {
    pub w: i32,
    pub h: i32,
}

#[derive(Clone, Copy, PartialEq, Eq, Structural, Debug)]
pub struct WindowPos {
    pub x: i32,
    pub y: i32,
}

/// A client area and its dots per inch (96 being unscaled).
#[derive(Clone, Copy, PartialEq, Eq, Structural, Debug)]
pub struct WindowExtent {
    pub size: PhysicalSize,
    pub dpi: u32,
}

#[derive(Clone, Copy, PartialEq, Eq, Structural, Debug)]
pub struct WindowSnapshot {
    pub extent: Option<WindowExtent>,
    pub position: Option<WindowPos>,
    pub maximized: bool,
    pub fullscreen: bool,
}

/// One reading of the window. The rects are empty where they could not be read.
#[derive(Clone, Copy, PartialEq, Eq, Structural, Debug)]
pub struct Reading {
    pub client: Rect,
    pub dpi: u32,
    /// The window and the working area of its monitor.
    pub frame: Option<Rect>,
    pub work: Option<Rect>,
    pub zoomed: bool,
    pub fullscreen: bool,
}

/// The rects of a reading are no wider than coordinates go.
pub open spec fn reading_ok(r: Reading) -> bool {
    &&& i32::MIN <= r.client.right - r.client.left <= i32::MAX
    &&& i32::MIN <= r.client.bottom - r.client.top <= i32::MAX
    &&& match (r.frame, r.work) {
        (Some(f), Some(w)) => i32::MIN <= f.left - w.left <= i32::MAX && i32::MIN <= f.top - w.top
            <= i32::MAX,
        _ => true,
    }
}

/// The client size, where there is one.
pub open spec fn client_of(r: Reading) -> Option<PhysicalSize> {
    if r.client.right - r.client.left <= 0 || r.client.bottom - r.client.top <= 0 {
        None
    } else {
        Some(
            PhysicalSize {
                w: (r.client.right - r.client.left) as i32,
                h: (r.client.bottom - r.client.top) as i32,
            },
        )
    }
}

/// Position relative to the monitor's working area.
pub open spec fn position_of(r: Reading) -> Option<WindowPos> {
    match (r.frame, r.work) {
        (Some(f), Some(w)) => Some(
            WindowPos { x: (f.left - w.left) as i32, y: (f.top - w.top) as i32 },
        ),
        _ => None,
    }
}

pub open spec fn snapshot_of(r: Reading, size: PhysicalSize) -> WindowSnapshot {
    WindowSnapshot {
        extent: Some(
            WindowExtent {
                size,
                dpi: if r.dpi > 0 {
                    r.dpi
                } else {
                    96
                },
            },
        ),
        position: position_of(r),
        maximized: !r.fullscreen && r.zoomed,
        fullscreen: r.fullscreen,
    }
}

/// Stores one reading as the window's snapshot. Returns the client size just
/// stored, and whether the extent changed. A reading without a client area
/// leaves the stored snapshot untouched.
pub fn sample(stored: &mut Option<WindowSnapshot>, r: Reading) -> (ret: Option<(PhysicalSize, bool)>)
    requires
        reading_ok(r),
    ensures
        match client_of(r) {
            Some(size) => {
                &&& *final(stored) == Some(snapshot_of(r, size))
                &&& ret == Some(
                    (
                        size,
                        match *old(stored) {
                            Some(s) => s.extent != snapshot_of(r, size).extent,
                            None => true,
                        },
                    ),
                )
            },
            None => ret is None && *final(stored) == *old(stored),
        },
{
    let w: i32 = r.client.right - r.client.left;
    let h: i32 = r.client.bottom - r.client.top;
    if w <= 0 || h <= 0 {
        return None;
    }
    let size = PhysicalSize { w, h };
    let dpi: u32 = if r.dpi > 0 {
        r.dpi
    } else {
        96
    };
    let extent = WindowExtent { size, dpi };
    let position = match (r.frame, r.work) {
        (Some(f), Some(work)) => Some(
            WindowPos { x: f.left - work.left, y: f.top - work.top },
        ),
        _ => None,
    };
    let changed = match stored {
        Some(s) => match s.extent {
            Some(e) => e != extent,
            None => true,
        },
        None => true,
    };
    *stored = Some(
        WindowSnapshot {
            extent: Some(extent),
            position,
            maximized: !r.fullscreen && r.zoomed,
            fullscreen: r.fullscreen,
        },
    );
    Some((size, changed))
}

/// Whether the window has to be sampled before its snapshot can be given.
pub fn needs_seed(stored: &Option<WindowSnapshot>) -> (r: bool)
    ensures
        r == (*stored is None),
{
    stored.is_none()
}

/// The snapshot to hand out: an empty one while nothing is stored.
pub fn published(stored: &Option<WindowSnapshot>) -> (r: WindowSnapshot)
    ensures
        r == match *stored {
            Some(s) => s,
            None => WindowSnapshot {
                extent: None,
                position: None,
                maximized: false,
                fullscreen: false,
            },
        },
{
    match stored {
        Some(s) => *s,
        None => WindowSnapshot {
            extent: None,
            position: None,
            maximized: false,
            fullscreen: false,
        },
    }
}

/// The notifier thread's mailbox.
#[derive(Clone, Copy, PartialEq, Eq, Structural, Debug)]
pub struct NotifyState {
    pub dirty: bool,
    pub stop: bool,
}

/// What the notifier does when it wakes.
#[derive(Clone, Copy, PartialEq, Eq, Structural, Debug)]
pub enum NotifyNext {
    Sleep,
    Stop,
    Notify,
}

impl NotifyState {
    /// The notifier starts with nothing to tell.
    pub fn started() -> (s: NotifyState)
        ensures
            s == (NotifyState { dirty: false, stop: false }),
    {
        NotifyState { dirty: false, stop: false }
    }

    /// What a wake-up leads to.
    pub open spec fn woken(self) -> NotifyNext {
        if self.stop {
            NotifyNext::Stop
        } else if self.dirty {
            NotifyNext::Notify
        } else {
            NotifyNext::Sleep
        }
    }

    /// A wake-up. Pending dirtiness is dropped on a stop.
    pub fn next(&mut self) -> (r: NotifyNext)
        ensures
            r == old(self).woken(),
            *final(self) == (NotifyState {
                dirty: old(self).dirty && old(self).stop,
                ..*old(self)
            }),
    {
        if self.stop {
            return NotifyNext::Stop;
        }
        if self.dirty {
            self.dirty = false;
            return NotifyNext::Notify;
        }
        NotifyNext::Sleep
    }
}

/// Starts the notifier, once: its mailbox is emptied and a thread is asked for
/// where none runs.
pub fn start_notifier<H>(thread: &Option<H>, notify: &mut NotifyState) -> (spawn: bool)
    ensures
        spawn == (*thread is None),
        *final(notify) == (if spawn {
            NotifyState { dirty: false, stop: false }
        } else {
            *old(notify)
        }),
{
    if thread.is_some() {
        return false;
    }
    *notify = NotifyState::started();
    true
}

/// Stops the notifier. Returns the thread to wake and join; a second call finds
/// none and changes nothing.
pub fn stop_notifier<H>(thread: &mut Option<H>, notify: &mut NotifyState) -> (r: Option<H>)
    ensures
        r == *old(thread),
        *final(thread) is None,
        *final(notify) == (NotifyState { stop: old(notify).stop || r is Some, ..*old(notify) }),
{
    let r = thread.take();
    if r.is_some() {
        notify.stop = true;
    }
    r
}

/// Samples the window, then leaves it to the notifier to tell everybody. Returns
/// the client size just stored; without one nothing changes and nobody is told.
pub fn publish_deferred(stored: &mut Option<WindowSnapshot>, notify: &mut NotifyState, r: Reading) -> (ret:
    Option<PhysicalSize>)
    requires
        reading_ok(r),
    ensures
        ret == client_of(r),
        match client_of(r) {
            Some(size) => {
                &&& *final(stored) == Some(snapshot_of(r, size))
                &&& *final(notify) == (NotifyState { dirty: true, ..*old(notify) })
            },
            None => *final(stored) == *old(stored) && *final(notify) == *old(notify),
        },
{
    match sample(stored, r) {
        Some((size, _)) => {
            notify.dirty = true;
            Some(size)
        },
        None => None,
    }
}

/// A wake-up after a deferred publishing tells everybody, unless the notifier is
/// to stop.
pub proof fn deferred_publishing_is_told(before: NotifyState)
    ensures
        (NotifyState { dirty: true, ..before }).woken() == (if before.stop {
            NotifyNext::Stop
        } else {
            NotifyNext::Notify
        }),
{
}

} // verus!
