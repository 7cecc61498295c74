//! The X11 menu popup: a window that is created, made modal by a pointer grab
//! that may take several attempts, and torn down again.

use vstd::prelude::*;

use crate::abi::max_i32;
use crate::abi::max_int;
use crate::abi::Generation;
use crate::abi::MenuPaint;
use crate::abi::MenuPlacement;
use crate::x11::geometry_pass::Configure;
use crate::x11::geometry_pass::OverlayCreate;
use crate::x11::geometry_pass::EXPOSURE;
use crate::x11::x11_state::X11State;

verus! {

pub const GRAB_ATTEMPTS: u32 = 40;

/// Starts the popup thread, once. Returns whether it has to be started now.
pub fn warm(started: &mut bool) -> (spawn: bool)
    ensures
        spawn == !*old(started),
        *final(started),
{
    let spawn = !*started;
    *started = true;
    spawn
}

/// Requests for the popup thread.
pub enum Op {
    Create { generation: Generation, place: MenuPlacement },
    Reposition { generation: Generation, place: MenuPlacement },
    Present(MenuPaint),
    Destroy { generation: Generation },
}

/// The queue to the popup thread.
pub struct PopupQueue {
    pub open: bool,
    pub ops: Vec<Op>,
}

/// The menus among queued requests that were never created.
pub open spec fn doomed(ops: Seq<Op>) -> Seq<Generation>
    decreases ops.len(),
{
    if ops.len() == 0 {
        Seq::empty()
    } else {
        let before = doomed(ops.drop_last());
        match ops.last() {
            Op::Create { generation, .. } => before.push(generation),
            _ => before,
        }
    }
}

impl PopupQueue {
    /// Closed until the popup thread runs.
    pub fn new() -> (q: PopupQueue)
        ensures
            !q.open,
            q.ops@.len() == 0,
    {
        PopupQueue { open: false, ops: Vec::new() }
    }

    /// False when the request could not be queued for the popup thread.
    pub fn send(&mut self, op: Op) -> (sent: bool)
        ensures
            sent == old(self).open,
            final(self).open == old(self).open,
            final(self).ops@ == (if sent {
                old(self).ops@.push(op)
            } else {
                old(self).ops@
            }),
    {
        if !self.open {
            return false;
        }
        self.ops.push(op);
        true
    }

    /// Asks for a menu. Returns whether it has to be dismissed at once, the
    /// popup thread being gone.
    pub fn create(&mut self, generation: Generation, place: MenuPlacement) -> (dismiss: bool)
        ensures
            dismiss == !old(self).open,
            final(self).open == old(self).open,
            final(self).ops@ == (if dismiss {
                old(self).ops@
            } else {
                old(self).ops@.push(Op::Create { generation, place })
            }),
    {
        !self.send(Op::Create { generation, place })
    }

    /// Stops accepting requests. Returns every menu left in the queue, to be
    /// dismissed; none where the event loop owns the queue and it cannot be
    /// `reclaimed`.
    pub fn close(&mut self, reclaimed: bool) -> (r: Vec<Generation>)
        ensures
            !final(self).open,
            final(self).ops@.len() == 0,
            r@ == (if reclaimed {
                doomed(old(self).ops@)
            } else {
                Seq::empty()
            }),
    {
        self.open = false;
        let mut r: Vec<Generation> = Vec::new();
        if !reclaimed {
            self.ops.clear();
            return r;
        }
        let mut i: usize = 0;
        assert(self.ops@.take(0) =~= Seq::empty());
        while i < self.ops.len()
            invariant
                i <= self.ops@.len(),
                self.ops@ == old(self).ops@,
                !self.open,
                r@ == doomed(self.ops@.take(i as int)),
            decreases self.ops@.len() - i,
        {
            assert(self.ops@.take(i + 1).drop_last() =~= self.ops@.take(i as int));
            match &self.ops[i] {
                Op::Create { generation, .. } => r.push(*generation),
                _ => {},
            }
            i += 1;
        }
        assert(self.ops@.take(self.ops@.len() as int) =~= self.ops@);
        self.ops.clear();
        r
    }
}

/// The popup's state; `W` is its window.
pub enum Phase<W> {
    Idle,
    Grabbing { generation: Generation, window: W, attempts: u32 },
    Open { generation: Generation, window: W },
}

/// How a grab attempt ended.
#[derive(PartialEq, Eq, Debug)]
pub enum GrabNext<W> {
    /// There is nothing to grab for any more.
    Stale,
    /// The menu is modal: the keyboard is grabbed too, and the menu is told.
    Ready(Generation),
    /// Try again.
    Retry,
    /// The grab failed for good: the menu's window is to be destroyed, and the
    /// menu dismissed.
    GiveUp { generation: Generation, window: W },
}

/// How making a menu's window ended.
#[derive(PartialEq, Eq, Debug)]
pub enum CreateNext<W> {
    /// Grabbing has begun.
    Grabbing,
    /// There is no menu: it is to be dismissed, and its window destroyed where
    /// it has one.
    Dismiss { window: Option<W> },
}

/// What the X server reports to an open menu.
#[derive(Clone, Copy, PartialEq, Eq, Structural, Debug)]
pub enum PopupEvent {
    Expose,
    Motion { x: i16, y: i16 },
    ButtonPress { x: i16, y: i16 },
    KeyPress { keycode: u8 },
    Other,
}

/// What an open menu is told; positions are in physical pixels.
#[derive(Clone, Copy, PartialEq, Eq, Structural, Debug)]
pub enum MenuInput {
    Expose,
    Motion { x: i16, y: i16 },
    Press { x: i16, y: i16 },
    Key { keysym: u32 },
}

impl<W> Phase<W> {
    pub open spec fn owner(self) -> Option<Generation> {
        match self {
            Phase::Idle => None,
            Phase::Grabbing { generation, .. } => Some(generation),
            Phase::Open { generation, .. } => Some(generation),
        }
    }

    pub open spec fn window(self) -> Option<W> {
        match self {
            Phase::Idle => None,
            Phase::Grabbing { window, .. } => Some(window),
            Phase::Open { window, .. } => Some(window),
        }
    }

    pub fn owns(&self, g: Generation) -> (r: bool)
        ensures
            r == (self.owner() == Some(g)),
    {
        match self {
            Phase::Idle => false,
            Phase::Grabbing { generation, .. } => *generation == g,
            Phase::Open { generation, .. } => *generation == g,
        }
    }

    /// No menu is grabbed for longer than the attempts it has.
    pub open spec fn wf(self) -> bool {
        self matches Phase::Grabbing { attempts, .. } ==> attempts < GRAB_ATTEMPTS
    }

    /// What the menu is told of an event; only an open one is told anything.
    pub fn on_event(&self, ev: PopupEvent, keymap: &Keymap) -> (r: Option<MenuInput>)
        ensures
            r == (if self is Open {
                match ev {
                    PopupEvent::Expose => Some(MenuInput::Expose),
                    PopupEvent::Motion { x, y } => Some(MenuInput::Motion { x, y }),
                    PopupEvent::ButtonPress { x, y } => Some(MenuInput::Press { x, y }),
                    PopupEvent::KeyPress { keycode } => Some(
                        MenuInput::Key { keysym: keymap.keysym(keycode) },
                    ),
                    PopupEvent::Other => None,
                }
            } else {
                None
            }),
    {
        if !matches!(self, Phase::Open { .. }) {
            return None;
        }
        match ev {
            PopupEvent::Expose => Some(MenuInput::Expose),
            PopupEvent::Motion { x, y } => Some(MenuInput::Motion { x, y }),
            PopupEvent::ButtonPress { x, y } => Some(MenuInput::Press { x, y }),
            PopupEvent::KeyPress { keycode } => Some(
                MenuInput::Key { keysym: keymap.lookup(keycode) },
            ),
            PopupEvent::Other => None,
        }
    }

    /// Ends the menu there is. Returns its window, to be ungrabbed and
    /// destroyed.
    pub fn tear_down(&mut self) -> (r: Option<W>)
        ensures
            r == old(self).window(),
            *final(self) is Idle,
    {
        let mut was: Phase<W> = Phase::Idle;
        std::mem::swap(self, &mut was);
        match was {
            Phase::Idle => None,
            Phase::Grabbing { window, .. } => Some(window),
            Phase::Open { window, .. } => Some(window),
        }
    }

    /// Begins a menu, after the one that stood was torn down: with its window,
    /// where that could be `built`, and with a `timer` to grab by. Where either
    /// is missing there is no menu.
    pub fn create(&mut self, generation: Generation, built: Option<W>, timer: bool) -> (r:
        CreateNext<W>)
        requires
            *old(self) is Idle,
        ensures
            final(self).wf(),
            match built {
                Some(window) => if timer {
                    &&& r is Grabbing
                    &&& *final(self) == (Phase::Grabbing { generation, window, attempts: 0u32 })
                } else {
                    &&& r == (CreateNext::Dismiss { window: Some(window) })
                    &&& *final(self) is Idle
                },
                None => {
                    &&& r == (CreateNext::Dismiss { window: None::<W> })
                    &&& *final(self) is Idle
                },
            },
    {
        match built {
            Some(window) => {
                if !timer {
                    return CreateNext::Dismiss { window: Some(window) };
                }
                *self = Phase::Grabbing { generation, window, attempts: 0 };
                CreateNext::Grabbing
            },
            None => CreateNext::Dismiss { window: None },
        }
    }

    /// A request to destroy counts only for the menu that stands.
    pub fn destroy(&mut self, generation: Generation) -> (r: Option<W>)
        ensures
            old(self).wf() ==> final(self).wf(),
            old(self).owner() == Some(generation) ==> r == old(self).window()
                && *final(self) is Idle,
            old(self).owner() != Some(generation) ==> r is None && *final(self) == *old(self),
    {
        if self.owns(generation) {
            self.tear_down()
        } else {
            None
        }
    }

    /// One grab attempt, `grabbed` or not.
    pub fn on_grab_retry(&mut self, grabbed: bool) -> (next: GrabNext<W>)
        requires
            old(self).wf(),
        ensures
            final(self).wf(),
            match *old(self) {
                Phase::Grabbing { generation, window, attempts } => if grabbed {
                    &&& next == GrabNext::<W>::Ready(generation)
                    &&& *final(self) == (Phase::Open { generation, window })
                } else if attempts + 1 >= GRAB_ATTEMPTS {
                    &&& next == (GrabNext::GiveUp { generation, window })
                    &&& *final(self) is Idle
                } else {
                    &&& next is Retry
                    &&& *final(self) == (Phase::Grabbing {
                        generation,
                        window,
                        attempts: (attempts + 1) as u32,
                    })
                },
                _ => next is Stale && *final(self) == *old(self),
            },
    {
        let mut was: Phase<W> = Phase::Idle;
        std::mem::swap(self, &mut was);
        match was {
            Phase::Grabbing { generation, window, attempts } => {
                if grabbed {
                    *self = Phase::Open { generation, window };
                    return GrabNext::Ready(generation);
                }
                let attempts: u32 = attempts + 1;
                if attempts >= GRAB_ATTEMPTS {
                    return GrabNext::GiveUp { generation, window };
                }
                *self = Phase::Grabbing { generation, window, attempts };
                GrabNext::Retry
            },
            other => {
                *self = other;
                GrabNext::Stale
            },
        }
    }
}

/// Index of the screen a menu is placed on: that of the host's root window, or
/// else the first.
pub open spec fn screen_of(roots: Seq<u32>, root: u32) -> Option<int> {
    if roots.contains(root) {
        Some(roots.index_of_first(root).unwrap())
    } else if roots.len() > 0 {
        Some(0)
    } else {
        None
    }
}

pub fn menu_screen(roots: &Vec<u32>, root: u32) -> (r: Option<usize>)
    ensures
        match (r, screen_of(roots@, root)) {
            (Some(i), Some(j)) => i == j && i < roots@.len(),
            (None, None) => true,
            _ => false,
        },
{
    let mut i: usize = 0;
    while i < roots.len()
        invariant
            i <= roots@.len(),
            forall|j: int| 0 <= j < i ==> roots@[j] != root,
        decreases roots@.len() - i,
    {
        if roots[i] == root {
            proof {
                roots@.index_of_first_ensures(root);
                let f = roots@.index_of_first(root).unwrap();
                assert(f == i);
            }
            return Some(i);
        }
        i += 1;
    }
    if roots.len() > 0 {
        Some(0)
    } else {
        None
    }
}

/// The largest position at which `len` fits, or zero.
pub open spec fn fitting(root: int, len: int) -> int {
    max_int(root - len, 0)
}

/// Where a popup goes: at its anchor, moved left to fit, flipped above the
/// anchor where it does not fit below, and never off the top-left.
pub open spec fn placed_at(x: int, y: int, w: int, h: int, root_w: int, root_h: int) -> (int, int) {
    (
        max_int(
            if x + w > root_w {
                fitting(root_w, w)
            } else {
                x
            },
            0,
        ),
        max_int(
            if y + h > root_h {
                if y - h >= 0 {
                    y - h
                } else {
                    fitting(root_h, h)
                }
            } else {
                y
            },
            0,
        ),
    )
}

/// The window's place on the root: `dx`, `dy` is the anchor in physical pixels
/// from the parent's origin.
pub fn place(
    parent_x: i32,
    parent_y: i32,
    dx: i32,
    dy: i32,
    want: MenuPlacement,
    root_w: i32,
    root_h: i32,
) -> (r: (i32, i32))
    requires
        i32::MIN <= parent_x + dx,
        parent_x + dx + max_int(want.pw as int, 1) <= i32::MAX,
        i32::MIN <= parent_y + dy - max_int(want.ph as int, 1),
        parent_y + dy + max_int(want.ph as int, 1) <= i32::MAX,
        0 <= root_w,
        0 <= root_h,
    ensures
        ({
            let at = placed_at(
                parent_x + dx,
                parent_y + dy,
                max_int(want.pw as int, 1),
                max_int(want.ph as int, 1),
                root_w as int,
                root_h as int,
            );
            r.0 == at.0 && r.1 == at.1
        }),
{
    let w: i32 = max_i32(want.pw, 1);
    let h: i32 = max_i32(want.ph, 1);
    let mut x: i32 = parent_x + dx;
    let mut y: i32 = parent_y + dy;
    if x + w > root_w {
        x = max_i32(root_w - w, 0);
    }
    if y + h > root_h {
        let above: i32 = y - h;
        y = if above >= 0 {
            above
        } else {
            max_i32(root_h - h, 0)
        };
    }
    (max_i32(x, 0), max_i32(y, 0))
}

/// A popup no larger than the screen, anchored on it, is placed on it whole.
pub proof fn popup_stays_on_screen(x: int, y: int, w: int, h: int, root_w: int, root_h: int)
    requires
        1 <= w <= root_w,
        1 <= h <= root_h,
        y <= root_h,
    ensures
        ({
            let (px, py) = placed_at(x, y, w, h, root_w, root_h);
            &&& 0 <= px
            &&& px + w <= root_w
            &&& 0 <= py
            &&& py + h <= root_h
        }),
{
}

/// A buffer with as much of a painted menu copied over its start as it holds.
pub open spec fn copied(dst: Seq<u8>, src: Seq<u8>) -> Seq<u8> {
    Seq::new(
        dst.len(),
        |i: int|
            if i < src.len() {
                src[i]
            } else {
                dst[i]
            },
    )
}

/// Copies as much of a painted menu as its buffer holds.
pub fn copy_paint(dst: &mut Vec<u8>, src: &Vec<u8>)
    ensures
        final(dst)@ == copied(old(dst)@, src@),
{
    let len: usize = if dst.len() <= src.len() {
        dst.len()
    } else {
        src.len()
    };
    let mut i: usize = 0;
    while i < len
        invariant
            i <= len,
            len <= dst@.len(),
            len <= src@.len(),
            dst@.len() == old(dst)@.len(),
            forall|k: int|
                0 <= k < dst@.len() ==> dst@[k] == (if k < i {
                    src@[k]
                } else {
                    old(dst)@[k]
                }),
        decreases len - i,
    {
        dst[i] = src[i];
        i += 1;
    }
    assert(dst@ =~= copied(old(dst)@, src@));
}

/// A menu's window and what is drawn into it with.
#[derive(Clone, Copy, PartialEq, Eq, Structural, Debug)]
pub struct MenuWindow {
    pub win: u32,
    pub gc: u32,
}

/// A screen of the server: its root window and its extent.
#[derive(Clone, Copy, PartialEq, Eq, Structural, Debug)]
pub struct Screen {
    pub root: u32,
    pub w: i32,
    pub h: i32,
}

/// What a menu is made and placed by.
#[derive(Clone, Copy, PartialEq, Eq, Structural, Debug)]
pub struct MenuSnap {
    pub visual: u32,
    pub depth: u8,
    pub colormap: u32,
    pub root: u32,
    pub parent_x: i32,
    pub parent_y: i32,
    pub root_w: i32,
    pub root_h: i32,
}

pub open spec fn screen_roots(screens: Seq<Screen>) -> Seq<u32> {
    Seq::new(screens.len(), |i: int| screens[i].root)
}

/// What menus are made by now: nothing before the host windows and the visual
/// exist, or without a screen.
pub open spec fn snapped(state: X11State, screens: Seq<Screen>) -> Option<MenuSnap> {
    match (state.host, state.paint) {
        (Some(h), Some(p)) => match screen_of(screen_roots(screens), h.root) {
            Some(i) => Some(
                MenuSnap {
                    visual: p.argb_visual,
                    depth: p.argb_depth,
                    colormap: p.colormap,
                    root: h.root,
                    parent_x: state.parent.origin_x,
                    parent_y: state.parent.origin_y,
                    root_w: screens[i].w,
                    root_h: screens[i].h,
                },
            ),
            None => None,
        },
        _ => None,
    }
}

pub fn snapshot(state: &X11State, screens: &Vec<Screen>) -> (r: Option<MenuSnap>)
    ensures
        r == snapped(*state, screens@),
{
    let (h, p) = match (&state.host, &state.paint) {
        (Some(h), Some(p)) => (h, p),
        _ => return None,
    };
    let mut roots: Vec<u32> = Vec::new();
    let mut i: usize = 0;
    while i < screens.len()
        invariant
            i <= screens@.len(),
            roots@ =~= screen_roots(screens@.take(i as int)),
        decreases screens@.len() - i,
    {
        roots.push(screens[i].root);
        i += 1;
    }
    assert(screens@.take(screens@.len() as int) =~= screens@);
    match menu_screen(&roots, h.root) {
        Some(i) => Some(
            MenuSnap {
                visual: p.argb_visual,
                depth: p.argb_depth,
                colormap: p.colormap,
                root: h.root,
                parent_x: state.parent.origin_x,
                parent_y: state.parent.origin_y,
                root_w: screens[i].w,
                root_h: screens[i].h,
            },
        ),
        None => None,
    }
}

/// A menu's place on the root fits in coordinates; see [`place`].
pub open spec fn place_fits(snap: MenuSnap, dx: i32, dy: i32, want: MenuPlacement) -> bool {
    let x = snap.parent_x + dx;
    let y = snap.parent_y + dy;
    &&& i32::MIN <= x
    &&& x + max_int(want.pw as int, 1) <= i32::MAX
    &&& i32::MIN <= y - max_int(want.ph as int, 1)
    &&& y + max_int(want.ph as int, 1) <= i32::MAX
    &&& 0 <= snap.root_w
    &&& 0 <= snap.root_h
}

/// Whether a menu's place on the root fits in coordinates.
pub fn can_place(snap: &MenuSnap, dx: i32, dy: i32, want: MenuPlacement) -> (r: bool)
    ensures
        r == place_fits(*snap, dx, dy, want),
{
    let x: i64 = snap.parent_x as i64 + dx as i64;
    let y: i64 = snap.parent_y as i64 + dy as i64;
    let w: i64 = max_i32(want.pw, 1) as i64;
    let h: i64 = max_i32(want.ph, 1) as i64;
    let (lo, hi): (i64, i64) = (i32::MIN as i64, i32::MAX as i64);
    lo <= x && x + w <= hi && lo <= y - h && y + h <= hi && snap.root_w >= 0 && snap.root_h >= 0
}

/// Where a menu's window goes.
pub open spec fn menu_at(snap: MenuSnap, dx: i32, dy: i32, want: MenuPlacement) -> (int, int) {
    placed_at(
        snap.parent_x + dx,
        snap.parent_y + dy,
        max_int(want.pw as int, 1),
        max_int(want.ph as int, 1),
        snap.root_w as int,
        snap.root_h as int,
    )
}

/// One request of making a menu's window or taking it down.
#[derive(Clone, Copy, PartialEq, Eq, Structural, Debug)]
pub enum MenuRequest {
    CreateWindow(OverlayCreate),
    CreateGc { gc: u32, window: u32 },
    MapWindow { window: u32 },
    /// To the top of the stack.
    Raise { window: u32 },
    UngrabPointer,
    UngrabKeyboard,
    /// Give up the memory the menu was painted in.
    FreeBuffer,
    FreeGc { gc: u32 },
    DestroyWindow { window: u32 },
}

/// The request for a menu's window: an unmanaged child of the root in the
/// translucent visual, empty and borderless, at its place and of at least one
/// pixel.
pub open spec fn menu_created(
    snap: MenuSnap,
    dx: i32,
    dy: i32,
    want: MenuPlacement,
    window: u32,
) -> OverlayCreate {
    OverlayCreate {
        window,
        parent: snap.root,
        depth: snap.depth,
        visual: snap.visual,
        colormap: snap.colormap,
        x: menu_at(snap, dx, dy, want).0 as i16,
        y: menu_at(snap, dx, dy, want).1 as i16,
        w: max_int(want.pw as int, 1) as u16,
        h: max_int(want.ph as int, 1) as u16,
        border_width: 0,
        background_pixel: 0,
        border_pixel: 0,
        override_redirect: true,
        event_mask: EXPOSURE,
    }
}

/// How far making a menu's window went.
#[derive(Clone, Copy, PartialEq, Eq, Debug)]
pub struct MenuIds {
    /// An id for the window, where one could be had.
    pub window: Option<u32>,
    /// The request that creates it could be sent.
    pub created: bool,
    /// An id for its graphics context, where one could be had.
    pub gc: Option<u32>,
}

/// What making a menu's window asks for, in order, and the window where there is
/// one then. On failure nothing is left on the server.
pub open spec fn menu_built(
    snap: MenuSnap,
    dx: i32,
    dy: i32,
    want: MenuPlacement,
    ids: MenuIds,
) -> (Seq<MenuRequest>, Option<MenuWindow>) {
    match ids.window {
        None => (seq![], None),
        Some(win) => {
            let create = seq![
                MenuRequest::CreateWindow(menu_created(snap, dx, dy, want, win)),
            ];
            if !ids.created {
                (create, None)
            } else {
                match ids.gc {
                    None => (create + seq![MenuRequest::DestroyWindow { window: win }], None),
                    Some(gc) => (
                        create + seq![
                            MenuRequest::CreateGc { gc, window: win },
                            MenuRequest::MapWindow { window: win },
                            MenuRequest::Raise { window: win },
                        ],
                        Some(MenuWindow { win, gc }),
                    ),
                }
            }
        },
    }
}

/// Makes a menu's window. `dx`, `dy` is the anchor in physical pixels from the
/// parent's origin.
pub fn build(snap: &MenuSnap, dx: i32, dy: i32, want: MenuPlacement, ids: MenuIds) -> (r: (
    Vec<MenuRequest>,
    Option<MenuWindow>,
))
    requires
        place_fits(*snap, dx, dy, want),
    ensures
        r.0@ == menu_built(*snap, dx, dy, want, ids).0,
        r.1 == menu_built(*snap, dx, dy, want, ids).1,
{
    let mut requests: Vec<MenuRequest> = Vec::new();
    let win: u32 = match ids.window {
        Some(w) => w,
        None => return (requests, None),
    };
    let (x, y) = place(snap.parent_x, snap.parent_y, dx, dy, want, snap.root_w, snap.root_h);
    requests.push(
        MenuRequest::CreateWindow(
            OverlayCreate {
                window: win,
                parent: snap.root,
                depth: snap.depth,
                visual: snap.visual,
                colormap: snap.colormap,
                x: x as i16,
                y: y as i16,
                w: max_i32(want.pw, 1) as u16,
                h: max_i32(want.ph, 1) as u16,
                border_width: 0,
                background_pixel: 0,
                border_pixel: 0,
                override_redirect: true,
                event_mask: EXPOSURE,
            },
        ),
    );
    let ghost all = menu_built(*snap, dx, dy, want, ids).0;
    if !ids.created {
        assert(requests@ =~= all);
        return (requests, None);
    }
    match ids.gc {
        None => {
            requests.push(MenuRequest::DestroyWindow { window: win });
            assert(requests@ =~= all);
            (requests, None)
        },
        Some(gc) => {
            requests.push(MenuRequest::CreateGc { gc, window: win });
            requests.push(MenuRequest::MapWindow { window: win });
            requests.push(MenuRequest::Raise { window: win });
            assert(requests@ =~= all);
            (requests, Some(MenuWindow { win, gc }))
        },
    }
}

/// What taking a menu down asks for, in order.
pub open spec fn torn_down(w: MenuWindow) -> Seq<MenuRequest> {
    seq![
        MenuRequest::UngrabPointer,
        MenuRequest::UngrabKeyboard,
        MenuRequest::FreeBuffer,
        MenuRequest::FreeGc { gc: w.gc },
        MenuRequest::DestroyWindow { window: w.win },
    ]
}

/// The requests that take down a menu that was torn down.
pub fn tear_down_requests(w: MenuWindow) -> (r: Vec<MenuRequest>)
    ensures
        r@ == torn_down(w),
{
    let r = vec![
        MenuRequest::UngrabPointer,
        MenuRequest::UngrabKeyboard,
        MenuRequest::FreeBuffer,
        MenuRequest::FreeGc { gc: w.gc },
        MenuRequest::DestroyWindow { window: w.win },
    ];
    assert(r@ =~= torn_down(w));
    r
}

/// The whole of a shared buffer, put into a window at its origin.
#[derive(Clone, Copy, PartialEq, Eq, Structural, Debug)]
pub struct PutImage {
    pub window: u32,
    pub gc: u32,
    pub w: u16,
    pub h: u16,
    pub depth: u8,
    pub seg: u32,
}

/// Bits of a menu's pixel.
pub const MENU_DEPTH: u8 = 32;

impl Phase<MenuWindow> {
    /// Moves and resizes the menu that stands, if it is this one and there is
    /// something to place it by.
    pub fn reposition(
        &self,
        generation: Generation,
        snap: Option<MenuSnap>,
        dx: i32,
        dy: i32,
        want: MenuPlacement,
    ) -> (r: Option<Configure>)
        requires
            snap matches Some(s) ==> place_fits(s, dx, dy, want),
        ensures
            r == match (self.owner() == Some(generation), self.window(), snap) {
                (true, Some(w), Some(s)) => Some(
                    Configure {
                        window: w.win,
                        x: menu_at(s, dx, dy, want).0 as i32,
                        y: menu_at(s, dx, dy, want).1 as i32,
                        w: max_int(want.pw as int, 1) as u32,
                        h: max_int(want.ph as int, 1) as u32,
                    },
                ),
                _ => None,
            },
    {
        if !self.owns(generation) {
            return None;
        }
        let s: MenuSnap = match snap {
            Some(s) => s,
            None => return None,
        };
        let w: MenuWindow = match self {
            Phase::Idle => return None,
            Phase::Grabbing { window, .. } => *window,
            Phase::Open { window, .. } => *window,
        };
        let (x, y) = place(s.parent_x, s.parent_y, dx, dy, want, s.root_w, s.root_h);
        Some(
            Configure {
                window: w.win,
                x,
                y,
                w: max_i32(want.pw, 1) as u32,
                h: max_i32(want.ph, 1) as u32,
            },
        )
    }

    /// The extent of the buffer a picture of the menu needs, at least one pixel;
    /// `None` where the picture is not of the menu that stands.
    pub fn buffer_extent(&self, paint: &MenuPaint) -> (r: Option<(i32, i32)>)
        ensures
            r == (if self.owner() == Some(paint.generation) {
                Some((max_int(paint.pw as int, 1) as i32, max_int(paint.ph as int, 1) as i32))
            } else {
                None
            }),
    {
        if self.owns(paint.generation) {
            Some((max_i32(paint.pw, 1), max_i32(paint.ph, 1)))
        } else {
            None
        }
    }

    /// Shows a picture of the menu that stands. `seg` is the shared buffer that
    /// was got for it, `None` where none could be had, and `pixels` its memory.
    pub fn present(&self, paint: &MenuPaint, seg: Option<u32>, pixels: &mut Vec<u8>) -> (r: Option<
        PutImage,
    >)
        ensures
            match (self.owner() == Some(paint.generation), self.window(), seg) {
                (true, Some(w), Some(seg)) => {
                    &&& r == Some(
                        PutImage {
                            window: w.win,
                            gc: w.gc,
                            w: max_int(paint.pw as int, 1) as u16,
                            h: max_int(paint.ph as int, 1) as u16,
                            depth: MENU_DEPTH,
                            seg,
                        },
                    )
                    &&& final(pixels)@ == copied(old(pixels)@, paint.pixels@)
                },
                _ => r is None && final(pixels)@ == old(pixels)@,
            },
    {
        if !self.owns(paint.generation) {
            return None;
        }
        let w: MenuWindow = match self {
            Phase::Idle => return None,
            Phase::Grabbing { window, .. } => *window,
            Phase::Open { window, .. } => *window,
        };
        match seg {
            Some(seg) => {
                copy_paint(pixels, &paint.pixels);
                Some(
                    PutImage {
                        window: w.win,
                        gc: w.gc,
                        w: max_i32(paint.pw, 1) as u16,
                        h: max_i32(paint.ph, 1) as u16,
                        depth: MENU_DEPTH,
                        seg,
                    },
                )
            },
            None => None,
        }
    }
}

/// What was made for a menu is taken down with it: of its window and its graphics
/// context, whatever was created is freed.
pub proof fn torn_down_menu_leaves_nothing(
    snap: MenuSnap,
    dx: i32,
    dy: i32,
    want: MenuPlacement,
    ids: MenuIds,
)
    ensures
        match menu_built(snap, dx, dy, want, ids) {
            (made, Some(w)) => {
                &&& made.contains(MenuRequest::CreateGc { gc: w.gc, window: w.win })
                &&& torn_down(w).contains(MenuRequest::FreeGc { gc: w.gc })
                &&& torn_down(w).contains(MenuRequest::DestroyWindow { window: w.win })
            },
            (made, None) => ids.window is Some && ids.created ==> made.contains(
                MenuRequest::DestroyWindow { window: ids.window->0 },
            ),
        },
{
    let (made, window) = menu_built(snap, dx, dy, want, ids);
    match window {
        Some(w) => {
            assert(made[1] == MenuRequest::CreateGc { gc: w.gc, window: w.win });
            assert(torn_down(w)[3] == MenuRequest::FreeGc { gc: w.gc });
            assert(torn_down(w)[4] == MenuRequest::DestroyWindow { window: w.win });
        },
        None => {
            if ids.window is Some && ids.created {
                assert(made[1] == MenuRequest::DestroyWindow { window: ids.window->0 });
            }
        },
    }
}

/// The keyboard mapping: `per` symbols for each keycode from `min_keycode` on.
pub struct Keymap {
    pub min_keycode: u8,
    pub per: u8,
    pub syms: Vec<u32>,
}

impl Keymap {
    /// The mapping the server gave, or one that knows no key.
    pub fn new(min_keycode: u8, mapping: Option<(u8, Vec<u32>)>) -> (k: Keymap)
        ensures
            k.min_keycode == min_keycode,
            match mapping {
                Some(m) => k.per == m.0 && k.syms@ == m.1@,
                None => k.per == 0 && k.syms@.len() == 0,
            },
    {
        match mapping {
            Some(m) => Keymap { min_keycode, per: m.0, syms: m.1 },
            None => Keymap { min_keycode, per: 0, syms: Vec::new() },
        }
    }

    /// The first symbol of a keycode, or 0.
    pub open spec fn keysym(&self, keycode: u8) -> u32 {
        let at = (keycode - self.min_keycode) * self.per;
        if self.per != 0 && keycode >= self.min_keycode && at < self.syms@.len() {
            self.syms@[at]
        } else {
            0
        }
    }

    pub fn lookup(&self, keycode: u8) -> (r: u32)
        ensures
            r == self.keysym(keycode),
    {
        if self.per == 0 || keycode < self.min_keycode {
            return 0;
        }
        assert((keycode - self.min_keycode) * self.per <= 255 * 255) by (nonlinear_arith)
            requires
                0 <= keycode - self.min_keycode <= 255,
                0 <= self.per <= 255,
        ;
        assert(0 <= (keycode - self.min_keycode) * self.per) by (nonlinear_arith)
            requires
                0 <= keycode - self.min_keycode,
                0 <= self.per,
        ;
        let idx: usize = (keycode - self.min_keycode) as usize * self.per as usize;
        if idx < self.syms.len() {
            self.syms[idx]
        } else {
            0
        }
    }
}

} // verus!
