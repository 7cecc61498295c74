//! Where a menu's window stands and what becomes of it, and what the painting
//! thread does with the frames it is left.

use vstd::prelude::*;

use crate::abi::max_i32;
use crate::abi::min_i32;
use crate::abi::Generation;
use crate::abi::JfnRect;
use crate::abi::MenuPaint;
use crate::abi::MenuPlacement;
use crate::wayland::layer::SharedTexture;
use crate::x11::geometry_pass::Configure;
use crate::x11::gpu_paint_worker::PaintPlan;
use crate::x11::gpu_paint_worker::Painting;
use crate::x11::gpu_paint_worker::PendingFrame;
use crate::x11::gpu_paint_worker::WorkerStep;
use crate::x11::gpu_paint_worker::X11GpuPaintWorker;
use crate::x11::menu::build;
use crate::x11::menu::can_place;
use crate::x11::menu::copy_paint;
use crate::x11::menu::doomed;
use crate::x11::menu::menu_screen;
use crate::x11::menu::place;
use crate::x11::menu::place_fits;
use crate::x11::menu::screen_roots;
use crate::x11::menu::snapshot;
use crate::x11::menu::tear_down_requests;
use crate::x11::menu::warm;
use crate::x11::menu::CreateNext;
use crate::x11::menu::GrabNext;
use crate::x11::menu::Keymap;
use crate::x11::menu::MenuIds;
use crate::x11::menu::MenuInput;
use crate::x11::menu::MenuRequest;
use crate::x11::menu::MenuSnap;
use crate::x11::menu::MenuWindow;
use crate::x11::menu::Op;
use crate::x11::menu::Phase;
use crate::x11::menu::PopupEvent;
use crate::x11::menu::PopupQueue;
use crate::x11::menu::PutImage;
use crate::x11::menu::Screen;
use crate::x11::x11_state::X11State;

verus! {

/// A menu stands at its anchor, the anchor's offset from the app's window, where
/// it fits there. Too far right it ends at the screen's edge; too far down it
/// ends at its anchor, or, where there is no room above either, at the edge.
pub proof fn menu_stands_at_its_anchor(
    px: i32,
    py: i32,
    dx: i32,
    dy: i32,
    want: MenuPlacement,
    rw: i32,
    rh: i32,
    r: (i32, i32),
)
    requires
        call_ensures(place, (px, py, dx, dy, want, rw, rh), r),
        want.pw >= 1,
        want.ph >= 1,
    ensures
        ({
            let x = px + dx;
            let y = py + dy;
            &&& r.0 >= 0 && r.1 >= 0
            &&& x + want.pw <= rw ==> r.0 == x || (x < 0 && r.0 == 0)
            &&& x + want.pw > rw && want.pw <= rw ==> r.0 + want.pw == rw
            &&& want.pw > rw && x + want.pw > rw ==> r.0 == 0
            &&& y + want.ph <= rh ==> r.1 == y || (y < 0 && r.1 == 0)
            &&& y + want.ph > rh && y >= want.ph ==> r.1 + want.ph == y
            &&& y + want.ph > rh && y < want.ph <= rh ==> r.1 + want.ph == rh
            &&& y + want.ph > rh && y < want.ph && want.ph > rh ==> r.1 == 0
        }),
{
}

/// The menu's window is made where menus are placed, at the menu's size, in the
/// translucent visual and out of the manager's hands; then mapped, and raised
/// last. One that is moved goes to the same place.
pub proof fn menu_window_is_made_in_place(
    snap: MenuSnap,
    dx: i32,
    dy: i32,
    want: MenuPlacement,
    ids: MenuIds,
    r: (Vec<MenuRequest>, Option<MenuWindow>),
    at: (i32, i32),
    phase: Phase<MenuWindow>,
    g: Generation,
    moved: Option<Configure>,
)
    requires
        place_fits(snap, dx, dy, want),
        call_ensures(build, (&snap, dx, dy, want, ids), r),
        call_ensures(
            place,
            (snap.parent_x, snap.parent_y, dx, dy, want, snap.root_w, snap.root_h),
            at,
        ),
        call_ensures(
            Phase::<MenuWindow>::reposition,
            (&phase, g, Some(snap), dx, dy, want),
            moved,
        ),
        1 <= want.pw < 0x8000,
        1 <= want.ph < 0x8000,
        at.0 < 0x8000,
        at.1 < 0x8000,
    ensures
        r.1 is Some <==> ids.window is Some && ids.created && ids.gc is Some,
        ids.window is None ==> r.0@.len() == 0,
        ids.window is Some ==> {
            &&& r.0@.len() >= 1
            &&& r.0@[0] matches MenuRequest::CreateWindow(c)
            &&& Some(c.window) == ids.window && c.parent == snap.root
            &&& c.x == at.0 && c.y == at.1 && c.w == want.pw && c.h == want.ph
            &&& c.visual == snap.visual && c.depth == snap.depth && c.colormap == snap.colormap
            &&& c.override_redirect && c.border_width == 0
            &&& c.background_pixel == 0 && c.border_pixel == 0
        },
        r.1 matches Some(w) ==> {
            &&& Some(w.win) == ids.window && Some(w.gc) == ids.gc
            &&& r.0@.len() == 4
            &&& r.0@[1] == (MenuRequest::CreateGc { gc: w.gc, window: w.win })
            &&& r.0@[2] == (MenuRequest::MapWindow { window: w.win })
            &&& r.0@[3] == (MenuRequest::Raise { window: w.win })
        },
        r.1 is None && ids.window is Some && ids.created ==> r.0@.len() == 2 && r.0@[1] == (
        MenuRequest::DestroyWindow { window: ids.window->Some_0 }),
        moved matches Some(c) ==> c.x == at.0 && c.y == at.1 && c.w == want.pw && c.h == want.ph
            && !(phase is Idle),
        moved is Some <==> phase.owner() == Some(g),
{
}

/// A menu can be placed exactly where all its coordinates are representable.
pub proof fn placing_needs_coordinates(snap: MenuSnap, dx: i32, dy: i32, want: MenuPlacement, r: bool)
    requires
        call_ensures(can_place, (&snap, dx, dy, want), r),
        want.pw >= 1,
        want.ph >= 1,
    ensures
        r <==> {
            &&& -0x8000_0000 <= snap.parent_x + dx
            &&& snap.parent_x + dx + want.pw <= 0x7fff_ffff
            &&& -0x8000_0000 <= snap.parent_y + dy - want.ph
            &&& snap.parent_y + dy + want.ph <= 0x7fff_ffff
            &&& snap.root_w >= 0
            &&& snap.root_h >= 0
        },
{
}

/// Menus are placed on the screen of the host's root, else on the first, by the
/// window's origin, and made in the visual that was found.
pub proof fn menus_are_placed_by_the_host(
    state: X11State,
    screens: Vec<Screen>,
    r: Option<MenuSnap>,
)
    requires
        call_ensures(snapshot, (&state, &screens), r),
    ensures
        r is Some <==> state.host is Some && state.paint is Some && screens@.len() > 0,
        r matches Some(s) ==> {
            &&& s.parent_x == state.parent.origin_x && s.parent_y == state.parent.origin_y
            &&& s.root == state.host->Some_0.root
            &&& s.visual == state.paint->Some_0.argb_visual
            &&& s.depth == state.paint->Some_0.argb_depth
            &&& s.colormap == state.paint->Some_0.colormap
            &&& exists|i: int|
                0 <= i < screens@.len() && (#[trigger] screens@[i]).w == s.root_w && screens@[i].h
                    == s.root_h && (screens@[i].root == s.root || i == 0 && forall|j: int|
                    0 <= j < screens@.len() ==> (#[trigger] screens@[j]).root != s.root)
        },
{
    if state.host is Some && state.paint is Some {
        let root = state.host->Some_0.root;
        let roots = screen_roots(screens@);
        roots.index_of_first_ensures(root);
        if roots.contains(root) {
            let i = roots.index_of_first(root).unwrap();
            assert(roots[i] == screens@[i].root);
        } else if screens@.len() > 0 {
            assert forall|j: int| 0 <= j < screens@.len() implies (#[trigger] screens@[j]).root
                != root by {
                assert(roots[j] == screens@[j].root);
            }
            assert(screens@[0].w == r->Some_0.root_w);
        }
    }
}

/// The screen that is found has the root, unless none has it.
pub proof fn screen_is_found_by_its_root(roots: Vec<u32>, root: u32, r: Option<usize>)
    requires
        call_ensures(menu_screen, (&roots, root), r),
    ensures
        r is Some <==> roots@.len() > 0,
        r matches Some(i) ==> 0 <= i < roots@.len(),
        r matches Some(i) ==> roots@[i as int] == root || (i == 0 && forall|j: int|
            0 <= j < roots@.len() ==> roots@[j] != root),
{
    roots@.index_of_first_ensures(root);
}

/// A menu goes from its window to being grabbed for to being open; it stays the
/// same menu with the same window throughout, and is given up after the fortieth
/// attempt that fails.
pub proof fn menu_opens_once_it_is_grabbed<W>(
    a: &mut Phase<W>,
    g: Generation,
    built: Option<W>,
    timer: bool,
    made: CreateNext<W>,
    b: &mut Phase<W>,
    grabbed: bool,
    next: GrabNext<W>,
)
    requires
        call_ensures(Phase::<W>::create, (a, g, built, timer), made),
        call_ensures(Phase::<W>::on_grab_retry, (b, grabbed), next),
    ensures
        made is Grabbing <==> built is Some && timer,
        made is Grabbing ==> (*final(a) matches Phase::Grabbing { generation, window, attempts }
            && generation == g && Some(window) == built && attempts == 0),
        made matches CreateNext::Dismiss { window } ==> window == built && *final(a) is Idle,
        next is Stale <==> !(*old(b) is Grabbing),
        next is Stale ==> *final(b) == *old(b),
        *old(b) matches Phase::Grabbing { generation, window, attempts } ==> {
            &&& grabbed ==> next == GrabNext::<W>::Ready(generation) && *final(b) == (
            Phase::Open { generation, window })
            &&& !grabbed && attempts >= 39 ==> next == (GrabNext::GiveUp { generation, window })
                && *final(b) is Idle
            &&& !grabbed && attempts < 39 ==> next is Retry && (*final(b) matches Phase::Grabbing {
                generation: g2,
                window: w2,
                attempts: n,
            } && g2 == generation && w2 == window && n == attempts + 1)
        },
{
}

/// Only the menu that stands is destroyed, and its window handed back to be taken
/// down, once.
pub proof fn only_the_standing_menu_is_destroyed<W>(
    a: &mut Phase<W>,
    g: Generation,
    r: Option<W>,
    b: &mut Phase<W>,
    s: Option<W>,
    again: &mut Phase<W>,
    none: Option<W>,
    owns: bool,
)
    requires
        call_ensures(Phase::<W>::owns, (&*old(a), g), owns),
        call_ensures(Phase::<W>::destroy, (a, g), r),
        call_ensures(Phase::<W>::tear_down, (b,), s),
        *old(again) == *final(b),
        call_ensures(Phase::<W>::tear_down, (again,), none),
    ensures
        *old(a) matches Phase::Open { generation, window } ==> (owns <==> generation == g) && (r
            == Some(window) <==> owns),
        *old(a) matches Phase::Grabbing { generation, window, .. } ==> (owns <==> generation == g)
            && (r == Some(window) <==> owns),
        *old(a) is Idle ==> !owns && r is None,
        owns ==> *final(a) is Idle,
        !owns ==> r is None && *final(a) == *old(a),
        *old(b) matches Phase::Open { window, .. } ==> s == Some(window),
        *old(b) matches Phase::Grabbing { window, .. } ==> s == Some(window),
        *old(b) is Idle ==> s is None,
        *final(b) is Idle && none is None,
{
}

/// Taking a menu down gives back both grabs, its memory, its context and, last,
/// its window.
pub proof fn menu_is_taken_down_whole(w: MenuWindow, r: Vec<MenuRequest>)
    requires
        call_ensures(tear_down_requests, (w,), r),
    ensures
        r@.len() == 5,
        r@.contains(MenuRequest::UngrabPointer),
        r@.contains(MenuRequest::UngrabKeyboard),
        r@.contains(MenuRequest::FreeBuffer),
        r@.contains(MenuRequest::FreeGc { gc: w.gc }),
        r@.last() == (MenuRequest::DestroyWindow { window: w.win }),
        r@[3] == (MenuRequest::FreeGc { gc: w.gc }),
{
    assert(r@[0] == MenuRequest::UngrabPointer);
    assert(r@[1] == MenuRequest::UngrabKeyboard);
    assert(r@[2] == MenuRequest::FreeBuffer);
}

/// An open menu is told what happens to it, in place, keys by their symbol; one
/// that is not open is told nothing.
pub proof fn open_menu_is_told<W>(
    phase: Phase<W>,
    ev: PopupEvent,
    keymap: Keymap,
    r: Option<MenuInput>,
    key: u8,
    sym: u32,
)
    requires
        call_ensures(Phase::<W>::on_event, (&phase, ev, &keymap), r),
        call_ensures(Keymap::lookup, (&keymap, key), sym),
    ensures
        r is Some <==> phase is Open && !(ev is Other),
        r matches Some(i) ==> {
            &&& ev is Expose <==> i is Expose
            &&& ev matches PopupEvent::Motion { x, y } ==> i == (MenuInput::Motion { x, y })
            &&& ev matches PopupEvent::ButtonPress { x, y } ==> i == (MenuInput::Press { x, y })
            &&& ev matches PopupEvent::KeyPress { keycode } ==> keycode == key ==> i == (
            MenuInput::Key { keysym: sym })
        },
{
}

/// A key's symbol is the first of its row: rows are as long as the map says and
/// start at its first keycode. Keys outside the map have none.
pub proof fn key_has_the_first_symbol_of_its_row(
    min: u8,
    per: u8,
    syms: Vec<u32>,
    map: Keymap,
    none: Keymap,
    key: u8,
    r: u32,
    s: u32,
)
    requires
        call_ensures(Keymap::new, (min, Some((per, syms))), map),
        call_ensures(Keymap::new, (min, None), none),
        call_ensures(Keymap::lookup, (&map, key), r),
        call_ensures(Keymap::lookup, (&none, key), s),
    ensures
        s == 0,
        key < min || per == 0 ==> r == 0,
        key >= min && per > 0 && syms@.len() > (key - min) * per ==> r == syms@[(key - min) * per],
        key >= min && per > 0 && syms@.len() <= (key - min) * per ==> r == 0,
{
    assert(key >= min ==> (key - min) * per >= 0) by (nonlinear_arith);
}

/// A picture is shown only on the menu it is of, at its own size, from its own
/// buffer, and as much of it as the buffer holds.
pub proof fn picture_is_shown_on_its_menu(
    phase: Phase<MenuWindow>,
    paint: MenuPaint,
    seg: Option<u32>,
    pixels: &mut Vec<u8>,
    r: Option<PutImage>,
    extent: Option<(i32, i32)>,
)
    requires
        call_ensures(Phase::<MenuWindow>::present, (&phase, &paint, seg, pixels), r),
        call_ensures(Phase::<MenuWindow>::buffer_extent, (&phase, &paint), extent),
        paint.pw < 0x1_0000,
        paint.ph < 0x1_0000,
    ensures
        extent is Some <==> phase.owner() == Some(paint.generation),
        r is Some <==> extent is Some && seg is Some,
        extent matches Some(e) ==> e.0 >= 1 && e.1 >= 1 && (paint.pw >= 1 ==> e.0 == paint.pw) && (
        paint.ph >= 1 ==> e.1 == paint.ph),
        r matches Some(p) ==> {
            &&& phase.window() == Some(MenuWindow { win: p.window, gc: p.gc })
            &&& p.w == extent->Some_0.0 && p.h == extent->Some_0.1
            &&& p.depth == 32 && Some(p.seg) == seg
            &&& forall|i: int|
                0 <= i < final(pixels)@.len() && i < paint.pixels@.len() ==> final(pixels)@[i]
                    == paint.pixels@[i]
        },
        r is None ==> final(pixels)@ == old(pixels)@,
        final(pixels)@.len() == old(pixels)@.len(),
{
}

/// Copying leaves the buffer's length, and what lies behind the picture, alone.
pub proof fn copying_keeps_the_rest(dst: &mut Vec<u8>, src: Vec<u8>, u: ())
    requires
        call_ensures(copy_paint, (dst, &src), u),
    ensures
        final(dst)@.len() == old(dst)@.len(),
        forall|i: int|
            0 <= i < final(dst)@.len() ==> final(dst)@[i] == (if i < src@.len() {
                src@[i]
            } else {
                old(dst)@[i]
            }),
{
}

/// The popup thread is started once. Requests queue up while it takes them, in
/// order; where it does not, the menu is to be dismissed.
pub proof fn requests_queue_up(
    started: &mut bool,
    spawn: bool,
    again: &mut bool,
    twice: bool,
    q: &mut PopupQueue,
    op: Op,
    sent: bool,
    p: &mut PopupQueue,
    g: Generation,
    at: MenuPlacement,
    dismiss: bool,
    fresh: PopupQueue,
)
    requires
        call_ensures(warm, (started,), spawn),
        *old(again) == *final(started),
        call_ensures(warm, (again,), twice),
        call_ensures(PopupQueue::send, (q, op), sent),
        call_ensures(PopupQueue::create, (p, g, at), dismiss),
        call_ensures(PopupQueue::new, (), fresh),
    ensures
        spawn <==> !*old(started),
        !twice,
        sent <==> old(q).open,
        sent ==> final(q).ops@.len() == old(q).ops@.len() + 1 && final(q).ops@.last() == op
            && final(q).ops@.drop_last() == old(q).ops@,
        !sent ==> final(q).ops@ == old(q).ops@,
        dismiss <==> !old(p).open,
        !dismiss ==> final(p).ops@.len() == old(p).ops@.len() + 1 && final(p).ops@.last() == (
        Op::Create { generation: g, place: at }),
        !fresh.open && fresh.ops@.len() == 0,
{
    if sent {
        assert(final(q).ops@.drop_last() =~= old(q).ops@);
    }
}

/// Closing a queue that can be got back dismisses exactly the menus asked for in
/// it; nothing stays in it, and nothing enters it any more.
pub proof fn closing_dismisses_what_was_asked_for(
    q: &mut PopupQueue,
    reclaimed: bool,
    r: Vec<Generation>,
    p: &mut PopupQueue,
    op: Op,
    sent: bool,
)
    requires
        call_ensures(PopupQueue::close, (q, reclaimed), r),
        *old(p) == *final(q),
        call_ensures(PopupQueue::send, (p, op), sent),
    ensures
        !reclaimed ==> r@.len() == 0,
        reclaimed ==> forall|g: Generation| #[trigger]
            r@.contains(g) <==> asked_for(old(q).ops@, g),
        !sent && final(p).ops@.len() == 0,
{
    if reclaimed {
        assert forall|g: Generation| #[trigger] r@.contains(g) <==> asked_for(old(q).ops@, g) by {
            doomed_are_asked_for(old(q).ops@, g);
        }
    }
}

/// A menu is asked for in the queue.
pub open spec fn asked_for(ops: Seq<Op>, g: Generation) -> bool {
    exists|i: int|
        0 <= i < ops.len() && (#[trigger] ops[i] matches Op::Create { generation, .. }
            && generation == g)
}

proof fn doomed_are_asked_for(ops: Seq<Op>, g: Generation)
    ensures
        doomed(ops).contains(g) <==> asked_for(ops, g),
    decreases ops.len(),
{
    if ops.len() > 0 {
        let rest = ops.drop_last();
        doomed_are_asked_for(rest, g);
        let n = rest.len() as int;
        assert(ops[n] == ops.last());
        assert forall|i: int| 0 <= i < n implies rest[i] == #[trigger] ops[i] by {}
        if asked_for(rest, g) {
            let i = choose|i: int|
                0 <= i < rest.len() && (#[trigger] rest[i] matches Op::Create { generation, .. }
                    && generation == g);
            assert(ops[i] == rest[i]);
            assert(asked_for(ops, g));
        }
        if asked_for(ops, g) {
            let i = choose|i: int|
                0 <= i < ops.len() && (#[trigger] ops[i] matches Op::Create { generation, .. }
                    && generation == g);
            if i < n {
                assert(rest[i] == ops[i]);
                assert(asked_for(rest, g));
            }
        }
        match ops.last() {
            Op::Create { generation, .. } => {
                let d = doomed(rest);
                assert(d.push(generation)[d.len() as int] == generation);
                if d.contains(g) {
                    let k = d.index_of(g);
                    assert(d.push(generation)[k] == g);
                }
                if d.push(generation).contains(g) {
                    let k = d.push(generation).index_of(g);
                    if k < d.len() {
                        assert(d[k] == g);
                    }
                }
            },
            _ => {},
        }
    }
}

/// The least and the greatest of two are one of them, and bound both.
pub proof fn least_and_greatest(a: i32, b: i32, lo: i32, hi: i32)
    requires
        call_ensures(min_i32, (a, b), lo),
        call_ensures(max_i32, (a, b), hi),
    ensures
        lo <= a && lo <= b && (lo == a || lo == b),
        hi >= a && hi >= b && (hi == a || hi == b),
{
}

/// A frame of pixels that is whole is the next to be painted, byte for byte and at
/// the size the surface has; one that is short is refused and changes nothing.
pub proof fn left_frame_is_painted<F>(
    w: &mut X11GpuPaintWorker<F>,
    pixels: &[u8],
    width: u32,
    height: u32,
    dirty: Vec<JfnRect>,
    taken: bool,
    v: &mut X11GpuPaintWorker<F>,
    step: WorkerStep<F>,
)
    requires
        call_ensures(
            X11GpuPaintWorker::<F>::submit_frame,
            (w, pixels, width, height, dirty),
            taken,
        ),
        *old(v) == *final(w),
        call_ensures(X11GpuPaintWorker::<F>::next, (v,), step),
        width < 0x4000_0000,
    ensures
        taken <==> !old(w).failed && 4 * width * height <= pixels@.len(),
        !taken ==> *final(w) == *old(w),
        taken && !old(w).shutdown && old(w).visible ==> {
            &&& step matches WorkerStep::Paint { frame, target_size }
            &&& target_size == old(w).target_size
            &&& frame matches PendingFrame::Pixels {
                pixels: p,
                dirty: d,
                width: fw,
                height: fh,
                stride,
            }
            &&& p@.len() == 4 * width * height
            &&& p@.is_prefix_of(pixels@)
            &&& d == dirty && fw == width && fh == height && stride == 4 * width
        },
        taken && !old(w).shutdown && !old(w).visible ==> step is Drop,
        old(w).shutdown ==> step is Stop,
        final(v).pending is None,
{
    assert(4 * width * height == height * (4 * width)) by (nonlinear_arith);
}

/// A shared texture that was left is the next to be painted, itself; the latest
/// alone.
pub proof fn left_texture_is_painted<F>(
    w: &mut X11GpuPaintWorker<F>,
    frame: SharedTexture<F>,
    taken: bool,
    v: &mut X11GpuPaintWorker<F>,
    step: WorkerStep<F>,
    u: &mut X11GpuPaintWorker<F>,
    idle: WorkerStep<F>,
)
    requires
        call_ensures(X11GpuPaintWorker::<F>::submit_dmabuf, (w, frame), taken),
        *old(v) == *final(w),
        call_ensures(X11GpuPaintWorker::<F>::next, (v,), step),
        *old(u) == *final(v),
        call_ensures(X11GpuPaintWorker::<F>::next, (u,), idle),
    ensures
        taken <==> !old(w).failed,
        taken && !old(w).shutdown && old(w).visible ==> step == (WorkerStep::Paint {
            frame: PendingFrame::Dmabuf(frame),
            target_size: old(w).target_size,
        }),
        !old(w).shutdown ==> idle is Wait,
        old(w).shutdown ==> step is Stop && idle is Stop,
        final(v).failed == old(w).failed && final(v).visible == old(w).visible
            && final(v).target_size == old(w).target_size,
{
}

/// The surface has the last size with pixels it was given and is shown as it was
/// last told; a new one starts as it is told, working.
pub proof fn surface_is_as_last_told<F>(
    n: X11GpuPaintWorker<F>,
    size: (u32, u32),
    visible: bool,
    a: &mut X11GpuPaintWorker<F>,
    b: &mut X11GpuPaintWorker<F>,
    c: &mut X11GpuPaintWorker<F>,
    u: (),
    broken: bool,
)
    requires
        call_ensures(X11GpuPaintWorker::<F>::new, (size, visible), n),
        call_ensures(X11GpuPaintWorker::<F>::resize, (a, size), u),
        call_ensures(X11GpuPaintWorker::<F>::set_visible, (b, visible), u),
        call_ensures(X11GpuPaintWorker::<F>::shutdown, (c,), u),
        call_ensures(X11GpuPaintWorker::<F>::failed, (&n,), broken),
    ensures
        n.target_size == size && n.visible == visible && n.pending is None && !n.shutdown
            && !broken,
        size.0 > 0 && size.1 > 0 ==> final(a).target_size == size,
        size.0 == 0 || size.1 == 0 ==> *final(a) == *old(a),
        final(a).pending == old(a).pending && final(a).visible == old(a).visible
            && final(a).failed == old(a).failed,
        final(b).visible == visible && final(b).pending == old(b).pending && final(b).target_size
            == old(b).target_size && final(b).failed == old(b).failed,
        final(c).shutdown && final(c).pending is None && final(c).failed == old(c).failed,
{
}

/// Failing to push pixels, or to have a painter at all, ends the worker for good;
/// losing a shared texture does not.
pub proof fn only_a_lost_texture_is_survived<F>(
    w: &mut X11GpuPaintWorker<F>,
    missing: bool,
    texture: bool,
    ends: bool,
    v: &mut X11GpuPaintWorker<F>,
    frame: SharedTexture<F>,
    taken: bool,
)
    requires
        call_ensures(X11GpuPaintWorker::<F>::paint_failed, (w, missing, texture), ends),
        *old(v) == *final(w),
        call_ensures(X11GpuPaintWorker::<F>::submit_dmabuf, (v, frame), taken),
    ensures
        missing ==> ends,
        !texture ==> ends,
        texture && !missing ==> !ends && *final(w) == *old(w),
        ends ==> !taken,
        final(w).pending == old(w).pending && final(w).target_size == old(w).target_size,
{
}

/// A painter is made once, for the first frame's own size. A frame is planned
/// where there is a painter: resized to the surface; and before a texture of a
/// new size the window is given that size.
pub proof fn painting_follows_the_surface<F>(
    p: &mut Painting,
    frame: PendingFrame<F>,
    target: (u32, u32),
    made: bool,
    window: Option<u32>,
    connected: bool,
    wants: Option<(u32, u32)>,
    r: Option<PaintPlan>,
    fresh: Painting,
)
    requires
        call_ensures(Painting::wants_painter::<F>, (&*old(p), &frame), wants),
        call_ensures(
            Painting::plan::<F>,
            (p, &frame, target, made, window, connected),
            r,
        ),
        call_ensures(Painting::new, (), fresh),
        frame.wf(),
    ensures
        !fresh.painter && fresh.last_configured is None,
        wants is Some <==> !old(p).painter,
        wants matches Some(s) ==> match frame {
            PendingFrame::Pixels { width, height, .. } => s.0 == width && s.1 == height,
            PendingFrame::Dmabuf(t) => s.0 == t.coded.w && s.1 == t.coded.h,
        },
        r is Some <==> old(p).painter || made,
        r matches Some(plan) ==> {
            &&& final(p).painter
            &&& plan.resize.0 == target.0 && plan.resize.1 == target.1
            &&& frame is Pixels ==> plan.configure is None && final(p).last_configured
                == old(p).last_configured
            &&& frame matches PendingFrame::Dmabuf(t) ==> {
                let same = old(p).last_configured is Some && old(p).last_configured->Some_0.0
                    == t.coded.w && old(p).last_configured->Some_0.1 == t.coded.h;
                &&& plan.configure is Some <==> window is Some && connected && !same
                &&& plan.configure matches Some(c) ==> Some(c.window) == window && c.w == t.coded.w
                    && c.h == t.coded.h && final(p).last_configured == Some((c.w, c.h))
                &&& plan.configure is None ==> final(p).last_configured == old(p).last_configured
            }
        },
        r is None ==> *final(p) == *old(p),
{
}

/// The painter is shut down once, with the thread.
pub proof fn painter_ends_with_the_thread(p: &mut Painting, r: bool, q: &mut Painting, again: bool)
    requires
        call_ensures(Painting::end, (p,), r),
        *old(q) == *final(p),
        call_ensures(Painting::end, (q,), again),
    ensures
        r <==> old(p).painter,
        !again,
{
}

} // verus!
