//! What keeps the overlays and the video on the player's window: how a reading of
//! the parent is taken, where each window goes for it, and what an event leads to.

use vstd::prelude::*;

use crate::x11::geometry::activate_parent;
use crate::x11::geometry::all_have_windows;
use crate::x11::geometry::all_ops;
use crate::x11::geometry::contains_id;
use crate::x11::geometry::find_frame_step;
use crate::x11::geometry::geometric_fullscreen;
use crate::x11::geometry::is_wm_delete;
use crate::x11::geometry::machine_of;
use crate::x11::geometry::parse_sync_request;
use crate::x11::geometry::pass_of;
use crate::x11::geometry::read_wm_state;
use crate::x11::geometry::set_parent_fullscreen;
use crate::x11::geometry::windows_of;
use crate::x11::geometry::without;
use crate::x11::geometry::Birth;
use crate::x11::geometry::ClientMessage;
use crate::x11::geometry::CommandAsk;
use crate::x11::geometry::GeoAsk;
use crate::x11::geometry::GeoEvent;
use crate::x11::geometry::GeoLoop;
use crate::x11::geometry::GeoWork;
use crate::x11::geometry::OverlayOp;
use crate::x11::geometry::ParentPass;
use crate::x11::geometry::ParentReading;
use crate::x11::geometry::Pending;
use crate::x11::geometry::Phase;
use crate::x11::geometry::PropertyWrite;
use crate::x11::geometry::RootMessage;
use crate::x11::geometry_pass::create_overlay_window;
use crate::x11::geometry_pass::every_overlay_is_passed_once;
use crate::x11::geometry_pass::overlays_passed;
use crate::x11::geometry_pass::tasks_view;
use crate::x11::geometry_pass::OverlayCreate;
use crate::x11::geometry_pass::OverlaySeen;
use crate::x11::geometry_pass::Reconciled;
use crate::x11::mpv_proxy::SharedEmbed;
use crate::x11::overlay_fsm::emitted;
use crate::x11::overlay_fsm::Geom;
use crate::x11::overlay_fsm::Inputs;
use crate::x11::overlay_fsm::OverlayState;
use crate::x11::registry::surface_id_ext;
use crate::x11::registry::GeometryCommand;
use crate::x11::registry::GeometryQueue;
use crate::x11::registry::SurfaceId;
use crate::x11::x11_state::Atoms;
use crate::x11::x11_state::HostServices;
use crate::x11::x11_state::PaintServices;
use crate::x11::x11_state::ParentSnapshot;
use crate::x11::x11_state::X11State;

verus! {

/// A parent counts as fullscreen where its window state says so, whatever its
/// geometry, and where it covers the root on both sides; nowhere else. Its rect
/// is the one read, side by side, and its scale stays.
pub proof fn parent_is_as_it_was_read(
    w: &mut GeoWork,
    reading: ParentReading,
    embed: &mut SharedEmbed,
    pass: ParentPass,
)
    requires
        0 <= reading.geom.2 <= u16::MAX,
        0 <= reading.geom.3 <= u16::MAX,
        call_ensures(GeoWork::read_parent, (w, reading, embed), pass),
    ensures
        reading.fullscreen ==> final(w).snap.fullscreen,
        (reading.root_size matches Some(r) && reading.geom.2 >= r.0 && reading.geom.3 >= r.1)
            ==> final(w).snap.fullscreen,
        final(w).snap.fullscreen && !reading.fullscreen ==> (reading.root_size matches Some(r)
            && reading.geom.2 >= r.0 && reading.geom.3 >= r.1),
        final(w).snap.maximized == reading.maximized,
        final(w).snap.origin_x == reading.geom.0 && final(w).snap.origin_y == reading.geom.1,
        final(w).snap.width == reading.geom.2 && final(w).snap.height == reading.geom.3,
        final(w).snap.scale_halves == old(w).snap.scale_halves,
        pass.fill_w >= 1 && (reading.geom.2 >= 1 ==> pass.fill_w == reading.geom.2),
        pass.fill_h >= 1 && (reading.geom.3 >= 1 ==> pass.fill_h == reading.geom.3),
        pass.changed <==> final(w).snap != old(w).snap,
        final(embed).ctx matches Some(c) ==> c.published.0 == pass.fill_w && c.published.1
            == pass.fill_h,
        final(embed).ctx is Some <==> old(embed).ctx is Some,
        final(w).order@ == old(w).order@ && final(w).structures@ == old(w).structures@,
{
}

/// The window state property lists fullscreen, and both ways of being maximized,
/// by their atoms.
pub proof fn window_state_is_listed_by_atom(atoms: Atoms, vals: &[u32], r: (bool, bool))
    requires
        call_ensures(read_wm_state, (&atoms, vals), r),
    ensures
        r.0 <==> exists|i: int|
            0 <= i < vals@.len() && #[trigger] vals@[i] == atoms.net_wm_state_fullscreen,
        r.1 <==> (exists|i: int|
            0 <= i < vals@.len() && #[trigger] vals@[i] == atoms.net_wm_state_maximized_vert) && (
        exists|i: int|
            0 <= i < vals@.len() && #[trigger] vals@[i] == atoms.net_wm_state_maximized_horz),
{
}

/// A window covers the root where it is as wide and as high.
pub proof fn covering_takes_both_sides(geom: Geom, root: Option<(i32, i32)>, r: bool)
    requires
        call_ensures(geometric_fullscreen, (geom, root), r),
    ensures
        root is None ==> !r,
        root matches Some(s) ==> (r <==> geom.2 >= s.0 && geom.3 >= s.1),
{
}

/// `g` is the parent's rect, at least one pixel wide and high.
pub open spec fn is_parent_rect(op: OverlayOp, snap: ParentSnapshot) -> bool {
    op matches OverlayOp::PlaceAndSize { x, y, w, h } ==> {
        &&& x == snap.origin_x && y == snap.origin_y
        &&& w >= 1 && (snap.width >= 1 ==> w == snap.width)
        &&& h >= 1 && (snap.height >= 1 ==> h == snap.height)
    }
}

/// There is such an operation at `i`.
pub open spec fn asks(ops: Seq<OverlayOp>, i: int, op: OverlayOp) -> bool {
    0 <= i < ops.len() && ops[i] == op
}

/// What one pass asks of one overlay whose machine stood at `m`, for a parent
/// that is as `snap` says, a wish to be shown, and what the server reports.
pub open spec fn overlay_follows(
    ops: Seq<OverlayOp>,
    after: OverlayState,
    m: OverlayState,
    snap: ParentSnapshot,
    shown: bool,
    observed: Option<Geom>,
    observed_mapped: Option<bool>,
    reassert: bool,
) -> bool {
    let flips = m.unmanaged != snap.fullscreen;
    let stands = m.mapped && observed_mapped != Some(false) && !flips;
    let there = observed == Some((snap.origin_x, snap.origin_y, snap.width, snap.height));
    let raises = reassert && snap.fullscreen && shown;
    let n = if flips {
        1int
    } else {
        0
    };
    &&& after.unmanaged == snap.fullscreen && after.mapped == shown
    &&& forall|i: int| 0 <= i < ops.len() ==> is_parent_rect(#[trigger] ops[i], snap)
    // Managed exactly while the parent is not fullscreen; the flip comes first.
    &&& flips ==> asks(ops, 0, OverlayOp::SetOverrideRedirect(snap.fullscreen))
    &&& forall|i: int|
        #![trigger ops[i]]
        0 <= i < ops.len() && ops[i] is SetOverrideRedirect ==> flips && i == 0
    // A window that is to be shown and does not stand is mapped, grabs its
    // buttons, is raised, and then placed.
    &&& shown && !stands ==> {
        &&& asks(ops, n, OverlayOp::MapWindow)
        &&& asks(ops, n + 1, OverlayOp::GrabInput)
        &&& asks(ops, n + 2, OverlayOp::Raise)
        &&& ops.len() >= n + 4 && ops[n + 3] is PlaceAndSize
    }
    // One that stands is placed where it is not there yet, and else left alone.
    &&& shown && stands && !there ==> ops.len() >= 1 && ops[0] is PlaceAndSize
    &&& shown && stands && there && !raises ==> ops.len() == 0
    // One that is not to be shown is unmapped where it stands, and never placed.
    &&& !shown && stands ==> ops.len() == 1 && ops[0] is Unmap
    &&& !shown && !stands ==> ops.len() == n
    &&& shown ==> forall|i: int| 0 <= i < ops.len() ==> !(#[trigger] ops[i] is Unmap)
    // Above a fullscreen parent that may have been restacked it is raised last.
    &&& raises ==> ops.len() >= 1 && ops[ops.len() - 1] is Raise
}

proof fn pass_follows(
    snap: ParentSnapshot,
    fsm: Map<u64, OverlayState>,
    id: SurfaceId,
    observed: Option<Geom>,
    observed_mapped: Option<bool>,
    shown: bool,
    reassert: bool,
)
    ensures
        ({
            let p = pass_of(snap, fsm, id, observed, observed_mapped, shown, reassert);
            overlay_follows(
                p.1,
                p.0,
                machine_of(fsm, id, snap.fullscreen),
                snap,
                shown,
                observed,
                observed_mapped,
                reassert,
            )
        }),
{
    let m = machine_of(fsm, id, snap.fullscreen);
    let g: Geom = (snap.origin_x, snap.origin_y, snap.width, snap.height);
    let inputs = Inputs {
        parent_geom: g,
        parent_fullscreen: snap.fullscreen,
        want_visible: shown,
        observed,
        observed_mapped,
    };
    let e = emitted(m, inputs);
    reveal_with_fuel(all_ops, 4);
    if e.len() >= 1 {
        assert(e.drop_last().len() == e.len() - 1);
    }
    let ops = pass_of(snap, fsm, id, observed, observed_mapped, shown, reassert).1;
    let base = all_ops(e, g);
    if e.len() == 0 {
        assert(base.len() == 0);
    } else if e.len() == 1 {
        assert(e.drop_last() =~= seq![]);
        assert(base =~= crate::x11::geometry::ops_of(e[0], g));
    } else if e.len() == 2 {
        assert(e.drop_last() =~= seq![e[0]]);
        assert(seq![e[0]].drop_last() =~= seq![]);
        assert(base =~= crate::x11::geometry::ops_of(e[0], g) + crate::x11::geometry::ops_of(
            e[1],
            g,
        ));
    } else {
        assert(e.len() == 3);
        assert(e.drop_last() =~= seq![e[0], e[1]]);
        assert(seq![e[0], e[1]].drop_last() =~= seq![e[0]]);
        assert(seq![e[0]].drop_last() =~= seq![]);
        assert(base =~= crate::x11::geometry::ops_of(e[0], g) + crate::x11::geometry::ops_of(
            e[1],
            g,
        ) + crate::x11::geometry::ops_of(e[2], g));
    }
}

/// An overlay is brought in line with its parent: over exactly the parent's rect,
/// unmanaged exactly while the parent is fullscreen, mapped exactly while it is
/// to be seen, and left alone where it is all that already.
pub proof fn overlay_follows_its_parent(
    g: &mut GeoLoop,
    id: SurfaceId,
    observed: Option<Geom>,
    observed_mapped: Option<bool>,
    visible: Option<bool>,
    reassert: bool,
    r: Option<(u32, Vec<OverlayOp>)>,
)
    requires
        call_ensures(
            GeoLoop::reconcile_overlay,
            (g, id, observed, observed_mapped, visible, reassert),
            r,
        ),
    ensures
        r is Some <==> visible is Some && old(g).work.structures@.contains_key(id.bits()),
        r is None ==> final(g).work.fsm@ == old(g).work.fsm@,
        r matches Some(asked) ==> {
            &&& asked.0 == old(g).work.structures@[id.bits()]
            &&& final(g).work.fsm@.contains_key(id.bits())
            &&& overlay_follows(
                asked.1@,
                final(g).work.fsm@[id.bits()],
                if old(g).work.fsm@.contains_key(id.bits()) {
                    old(g).work.fsm@[id.bits()]
                } else {
                    OverlayState { mapped: false, unmanaged: old(g).work.snap.fullscreen }
                },
                old(g).work.snap,
                visible->Some_0 && old(g).parent_mapped,
                observed,
                observed_mapped,
                reassert,
            )
        },
{
    if let Some(v) = visible {
        pass_follows(
            old(g).work.snap,
            old(g).work.fsm@,
            id,
            observed,
            observed_mapped,
            v && old(g).parent_mapped,
            reassert,
        );
    }
}

/// No surface stands in the order twice.
pub open spec fn no_repeats(order: Seq<SurfaceId>) -> bool {
    forall|i: int, j: int|
        0 <= i < j < order.len() ==> (#[trigger] order[i]).bits() != (#[trigger] order[j]).bits()
}

/// No surface in the order has these bits.
pub open spec fn absent(order: Seq<SurfaceId>, k: u64) -> bool {
    forall|i: int| 0 <= i < order.len() ==> (#[trigger] order[i]).bits() != k
}

proof fn passed_each(
    snap: ParentSnapshot,
    structures: Map<u64, u32>,
    parent_mapped: bool,
    reassert: bool,
    order: Seq<SurfaceId>,
    seen: Seq<OverlaySeen>,
    fsm: Map<u64, OverlayState>,
)
    requires
        all_have_windows(order, structures),
        no_repeats(order),
        seen.len() >= order.len(),
    ensures
        ({
            let (machines, tasks) = overlays_passed(
                snap,
                structures,
                parent_mapped,
                reassert,
                order,
                seen,
                fsm,
            );
            &&& tasks.len() == order.len()
            &&& forall|k: u64| #[trigger]
                absent(order, k) ==> machines.contains_key(k) == fsm.contains_key(k) && machines[k]
                    == fsm[k]
            &&& forall|i: int|
                #![trigger tasks[i]]
                0 <= i < order.len() ==> (seen[i].visible matches Some(v) ==> {
                    let p = pass_of(
                        snap,
                        fsm,
                        order[i],
                        seen[i].observed,
                        seen[i].mapped,
                        v && parent_mapped,
                        reassert,
                    );
                    &&& tasks[i].ops == p.1
                    &&& machines.contains_key(order[i].bits())
                    &&& machines[order[i].bits()] == p.0
                })
        }),
    decreases order.len(),
{
    if order.len() > 0 {
        let front = order.drop_last();
        assert forall|i: int| 0 <= i < front.len() implies structures.contains_key(
            (#[trigger] front[i]).bits(),
        ) by {
            assert(front[i] == order[i]);
        }
        assert forall|i: int, j: int| 0 <= i < j < front.len() implies (
        #[trigger] front[i]).bits() != (#[trigger] front[j]).bits() by {
            assert(order[i].bits() != order[j].bits());
        }
        passed_each(snap, structures, parent_mapped, reassert, front, seen, fsm);
        let n = order.len() - 1;
        let (m0, t0) = overlays_passed(
            snap,
            structures,
            parent_mapped,
            reassert,
            front,
            seen,
            fsm,
        );
        let (machines, tasks) = overlays_passed(
            snap,
            structures,
            parent_mapped,
            reassert,
            order,
            seen,
            fsm,
        );
        let id = order.last();
        assert(order[n] == id);
        assert(structures.contains_key(order[n].bits()));
        assert forall|i: int| 0 <= i < front.len() implies (#[trigger] front[i]).bits()
            != id.bits() by {
            assert(order[i].bits() != order[n].bits());
        }
        assert(absent(front, id.bits()));
        assert(m0.contains_key(id.bits()) == fsm.contains_key(id.bits()) && m0[id.bits()]
            == fsm[id.bits()]);
        assert forall|k: u64| #[trigger] absent(order, k) implies machines.contains_key(k)
            == fsm.contains_key(k) && machines[k] == fsm[k] by {
            assert forall|i: int| 0 <= i < front.len() implies (#[trigger] front[i]).bits()
                != k by {
                assert(order[i].bits() != k);
            }
            assert(absent(front, k));
            assert(order[n].bits() != k);
        }
        assert forall|i: int| #![trigger tasks[i]] 0 <= i < order.len() implies (
        seen[i].visible matches Some(v) ==> {
            let p = pass_of(
                snap,
                fsm,
                order[i],
                seen[i].observed,
                seen[i].mapped,
                v && parent_mapped,
                reassert,
            );
            &&& tasks[i].ops == p.1
            &&& machines.contains_key(order[i].bits())
            &&& machines[order[i].bits()] == p.0
        }) by {
            if i < n {
                assert(tasks[i] == t0[i]);
                assert(front[i] == order[i]);
                assert(order[i].bits() != order[n].bits());
            }
        }
    }
}

/// One pass brings everything in line with one reading of the parent. The video
/// host and mpv's window fill it from its corner, the proxy is told the same
/// extent, the reading is published, and every overlay follows it: in a pass for
/// a fullscreen parent each overlay that was managed and is to be seen stops
/// being managed.
pub proof fn pass_brings_everything_in_line(
    g: &mut GeoLoop,
    state: &mut X11State,
    shared: &mut SharedEmbed,
    reading: ParentReading,
    seen: Vec<OverlaySeen>,
    reassert: bool,
    r: Option<Reconciled>,
    i: int,
)
    requires
        all_have_windows(old(g).work.order@, old(g).work.structures@),
        no_repeats(old(g).work.order@),
        seen@.len() == old(g).work.order@.len(),
        0 <= reading.geom.2 <= u16::MAX && 0 <= reading.geom.3 <= u16::MAX,
        call_ensures(
            GeoLoop::reconcile,
            (g, state, shared, Some(reading), &seen, reassert),
            r,
        ),
        0 <= i < old(g).work.order@.len(),
    ensures
        ({
            let snap = final(g).work.snap;
            let id = old(g).work.order@[i];
            let was = if old(g).work.fsm@.contains_key(id.bits()) {
                old(g).work.fsm@[id.bits()]
            } else {
                OverlayState { mapped: false, unmanaged: snap.fullscreen }
            };
            &&& r matches Some(done)
            &&& final(state).parent == snap
            &&& snap.origin_x == reading.geom.0 && snap.origin_y == reading.geom.1
            &&& snap.width == reading.geom.2 && snap.height == reading.geom.3
            &&& snap.fullscreen <==> reading.fullscreen || (reading.root_size matches Some(s)
                && reading.geom.2 >= s.0 && reading.geom.3 >= s.1)
            &&& done.overlays@.len() == old(g).work.order@.len()
            &&& done.overlays@[i].window == old(g).work.structures@[id.bits()]
            &&& seen@[i].visible matches Some(v) ==> {
                &&& done.overlays@[i].resize == Some((snap.width, snap.height))
                &&& final(g).work.fsm@.contains_key(id.bits())
                &&& overlay_follows(
                    done.overlays@[i].ops@,
                    final(g).work.fsm@[id.bits()],
                    was,
                    snap,
                    v && old(g).parent_mapped,
                    seen@[i].observed,
                    seen@[i].mapped,
                    reassert,
                )
                &&& reading.fullscreen && v && old(g).parent_mapped && !was.unmanaged ==> asks(
                    done.overlays@[i].ops@,
                    0,
                    OverlayOp::SetOverrideRedirect(true),
                )
            }
        }),
{
    let p = reading;
    let snap = final(g).work.snap;
    let order = old(g).work.order@;
    let done = r->Some_0;
    passed_each(
        snap,
        old(g).work.structures@,
        old(g).parent_mapped,
        reassert,
        order,
        seen@,
        old(g).work.fsm@,
    );
    every_overlay_is_passed_once(
        snap,
        old(g).work.structures@,
        old(g).parent_mapped,
        reassert,
        order,
        seen@,
        old(g).work.fsm@,
    );
    let tasks = tasks_view(done.overlays@);
    assert(tasks.len() == order.len());
    assert(tasks[i] == done.overlays@[i]@);
    if let Some(v) = seen@[i].visible {
        pass_follows(
            snap,
            old(g).work.fsm@,
            order[i],
            seen@[i].observed,
            seen@[i].mapped,
            v && old(g).parent_mapped,
            reassert,
        );
    }
}

/// The video host, and mpv's window in it, fill the parent from its corner, and
/// the proxy is told exactly that extent before. A parent that could not be read
/// changes nothing.
pub proof fn video_fills_the_parent(
    g: &mut GeoLoop,
    state: &mut X11State,
    shared: &mut SharedEmbed,
    reading: Option<ParentReading>,
    seen: Vec<OverlaySeen>,
    reassert: bool,
    r: Option<Reconciled>,
)
    requires
        seen@.len() == old(g).work.order@.len(),
        reading matches Some(p) ==> 0 <= p.geom.2 <= u16::MAX && 0 <= p.geom.3 <= u16::MAX,
        call_ensures(GeoLoop::reconcile, (g, state, shared, reading, &seen, reassert), r),
    ensures
        reading is None ==> r is None && *final(g) == *old(g) && *final(state) == *old(state)
            && *final(shared) == *old(shared),
        reading matches Some(p) ==> {
            &&& r matches Some(done)
            &&& done.fills@.len() == if old(g).embed is Some {
                2int
            } else {
                1
            }
            &&& forall|k: int|
                #![trigger done.fills@[k]]
                0 <= k < done.fills@.len() ==> {
                    let f = done.fills@[k];
                    &&& f.x == 0 && f.y == 0
                    &&& f.w >= 1 && (p.geom.2 >= 1 ==> f.w == p.geom.2)
                    &&& f.h >= 1 && (p.geom.3 >= 1 ==> f.h == p.geom.3)
                    &&& final(shared).ctx matches Some(c) ==> c.published.0 == f.w && c.published.1
                        == f.h
                }
            &&& done.fills@[0].window == old(g).video_host
            &&& old(g).embed matches Some(w) ==> done.fills@[1].window == w
            &&& done.changed <==> final(g).work.snap != old(g).work.snap
        },
{
}

/// The windows of an order, one for each surface, in that order.
pub proof fn windows_are_in_order(order: Seq<SurfaceId>, structures: Map<u64, u32>)
    requires
        all_have_windows(order, structures),
    ensures
        windows_of(order, structures).len() == order.len(),
        forall|i: int|
            0 <= i < order.len() ==> #[trigger] windows_of(order, structures)[i]
                == structures[order[i].bits()],
    decreases order.len(),
{
    if order.len() > 0 {
        let front = order.drop_last();
        assert forall|i: int| 0 <= i < front.len() implies structures.contains_key(
            (#[trigger] front[i]).bits(),
        ) by {
            assert(front[i] == order[i]);
        }
        windows_are_in_order(front, structures);
        assert(structures.contains_key(order[order.len() - 1].bits()));
        let all = windows_of(order, structures);
        assert forall|i: int| 0 <= i < order.len() implies #[trigger] all[i]
            == structures[order[i].bits()] by {
            if i < front.len() {
                assert(windows_of(front, structures)[i] == structures[front[i].bits()]);
            }
        }
    }
}

/// A new order stacks every overlay: the lowest right above the app's window,
/// each of the others right above the one before it in the order.
pub proof fn overlays_are_stacked_upwards(
    w: &mut GeoWork,
    ids: Vec<SurfaceId>,
    toplevel: u32,
    r: Vec<(u32, u32)>,
)
    requires
        call_ensures(GeoWork::handle_set_order, (w, &ids, toplevel), r),
    ensures
        ({
            let order = final(w).order@;
            &&& r@.len() == order.len()
            &&& forall|i: int|
                #![trigger r@[i]]
                0 <= i < r@.len() ==> r@[i].0 == final(w).structures@[order[i].bits()]
            &&& r@.len() > 0 ==> r@[0].1 == toplevel
            &&& forall|i: int| #![trigger r@[i]] 0 < i < r@.len() ==> r@[i].1 == r@[i - 1].0
            &&& forall|k: int|
                0 <= k < old(w).order@.len() ==> contains_id(order, #[trigger] old(w).order@[k])
        }),
{
    let order = final(w).order@;
    windows_are_in_order(order, final(w).structures@);
    assert forall|k: int| 0 <= k < old(w).order@.len() implies contains_id(
        order,
        #[trigger] old(w).order@[k],
    ) by {
        crate::x11::geometry::reorder_loses_no_surface(
            ids@,
            old(w).order@,
            old(w).structures@,
            k,
        );
    }
    let windows = windows_of(order, final(w).structures@);
    assert forall|i: int| 0 <= i < r@.len() implies #[trigger] r@[i] == (
        windows[i],
        if i == 0 {
            toplevel
        } else {
            windows[i - 1]
        },
    ) by {}
}

/// The overlays that are named come lowest, in the order they are named.
pub proof fn named_overlays_come_first(
    w: &mut GeoWork,
    ids: Vec<SurfaceId>,
    toplevel: u32,
    r: Vec<(u32, u32)>,
)
    requires
        call_ensures(GeoWork::handle_set_order, (w, &ids, toplevel), r),
        all_have_windows(ids@, old(w).structures@),
        old(w).order@.len() > 0,
    ensures
        ids@.len() <= final(w).order@.len(),
        forall|k: int| 0 <= k < ids@.len() ==> final(w).order@[k] == #[trigger] ids@[k],
{
    owned_is_all(ids@, old(w).structures@);
    crate::x11::geometry::reorder_loses_no_surface(ids@, old(w).order@, old(w).structures@, 0);
}

proof fn owned_is_all(ids: Seq<SurfaceId>, structures: Map<u64, u32>)
    requires
        all_have_windows(ids, structures),
    ensures
        crate::x11::geometry::owned(ids, structures) == ids,
    decreases ids.len(),
{
    if ids.len() > 0 {
        let front = ids.drop_last();
        assert forall|i: int| 0 <= i < front.len() implies structures.contains_key(
            (#[trigger] front[i]).bits(),
        ) by {
            assert(front[i] == ids[i]);
        }
        owned_is_all(front, structures);
        assert(structures.contains_key(ids[ids.len() - 1].bits()));
        assert(front.push(ids.last()) =~= ids);
    }
}

/// The windows that are published are those of the overlays, bottom to top.
pub proof fn published_windows_are_the_overlays(w: GeoWork, r: Vec<u32>, i: int)
    requires
        w.wf(),
        call_ensures(GeoWork::publish_windows, (&w,), r),
        0 <= i < w.order@.len(),
    ensures
        r@.len() == w.order@.len(),
        r@[i] == w.structures@[w.order@[i].bits()],
{
    windows_are_in_order(w.order@, w.structures@);
}

/// A new overlay goes on top, unmapped, and is managed exactly where the parent
/// is not fullscreen; the others stay as they are.
pub proof fn new_overlay_is_on_top(w: &mut GeoWork, id: SurfaceId, window: u32, r: (), other: SurfaceId)
    requires
        old(w).wf(),
        call_ensures(GeoWork::handle_create, (w, id, window), r),
        !contains_id(old(w).order@, id),
        other != id,
    ensures
        final(w).order@.len() == old(w).order@.len() + 1,
        final(w).order@[final(w).order@.len() - 1] == id,
        forall|k: int|
            0 <= k < old(w).order@.len() ==> final(w).order@[k] == #[trigger] old(w).order@[k],
        final(w).structures@.contains_key(id.bits()) && final(w).structures@[id.bits()] == window,
        final(w).fsm@.contains_key(id.bits()) && !final(w).fsm@[id.bits()].mapped
            && final(w).fsm@[id.bits()].unmanaged == old(w).snap.fullscreen,
        final(w).structures@.contains_key(other.bits()) == old(w).structures@.contains_key(
            other.bits(),
        ),
        old(w).structures@.contains_key(other.bits()) ==> final(w).structures@[other.bits()]
            == old(w).structures@[other.bits()],
        final(w).fsm@.contains_key(other.bits()) == old(w).fsm@.contains_key(other.bits()),
{
    surface_id_ext(id, other);
}

proof fn without_is_without(ids: Seq<SurfaceId>, id: SurfaceId)
    ensures
        !contains_id(without(ids, id), id),
        forall|k: int|
            0 <= k < ids.len() && ids[k] != id ==> contains_id(
                without(ids, id),
                #[trigger] ids[k],
            ),
        without(ids, id).len() <= ids.len(),
    decreases ids.len(),
{
    if ids.len() > 0 {
        let front = ids.drop_last();
        without_is_without(front, id);
        let before = without(front, id);
        let all = without(ids, id);
        assert forall|k: int| 0 <= k < ids.len() && ids[k] != id implies contains_id(
            all,
            #[trigger] ids[k],
        ) by {
            if k < front.len() {
                assert(front[k] == ids[k]);
                let j = choose|j: int| 0 <= j < before.len() && before[j] == front[k];
                assert(all[j] == ids[k]);
            } else {
                assert(all[all.len() - 1] == ids[k]);
            }
        }
        assert forall|j: int| 0 <= j < all.len() implies #[trigger] all[j] != id by {
            if j < before.len() {
                assert(before[j] != id);
            }
        }
    }
}

/// A destroyed overlay is gone from everywhere, its window is given back to be
/// destroyed, and every other overlay stays.
pub proof fn destroyed_overlay_is_gone(w: &mut GeoWork, id: SurfaceId, r: Option<u32>, other: SurfaceId)
    requires
        old(w).wf(),
        call_ensures(GeoWork::handle_destroy, (w, id), r),
        other != id,
    ensures
        r is Some <==> old(w).structures@.contains_key(id.bits()),
        r matches Some(window) ==> old(w).structures@[id.bits()] == window,
        !final(w).structures@.contains_key(id.bits()) && !final(w).fsm@.contains_key(id.bits()),
        !contains_id(final(w).order@, id),
        contains_id(old(w).order@, other) ==> contains_id(final(w).order@, other),
        final(w).structures@.contains_key(other.bits()) == old(w).structures@.contains_key(
            other.bits(),
        ),
        old(w).structures@.contains_key(other.bits()) ==> final(w).structures@[other.bits()]
            == old(w).structures@[other.bits()],
        final(w).fsm@.contains_key(other.bits()) == old(w).fsm@.contains_key(other.bits()),
{
    surface_id_ext(id, other);
    without_is_without(old(w).order@, id);
}

/// A new overlay's window is made over the parent's rect, at least one pixel wide
/// and high, and bypasses the window manager exactly where the parent is
/// fullscreen.
pub proof fn overlay_is_born_over_its_parent(w: GeoWork, b: Birth)
    requires
        call_ensures(GeoWork::birth, (&w,), b),
    ensures
        b.x == w.snap.origin_x && b.y == w.snap.origin_y,
        b.w >= 1 && (w.snap.width >= 1 ==> b.w == w.snap.width),
        b.h >= 1 && (w.snap.height >= 1 ==> b.h == w.snap.height),
        b.override_redirect == w.snap.fullscreen,
{
}

/// A command does what it names: creating asks for a window over the parent where
/// one can be made, destroying gives up the window of that surface, visibility is
/// noted for that surface, and the parent is left alone.
pub proof fn commands_do_what_they_name(
    w: &mut GeoWork,
    cmd: GeometryCommand,
    toplevel: Option<u32>,
    can_create: bool,
    ask: CommandAsk,
)
    requires
        old(w).wf(),
        call_ensures(GeoWork::apply_command, (w, &cmd, toplevel, can_create), ask),
    ensures
        final(w).snap == old(w).snap,
        cmd matches GeometryCommand::Create { id } ==> {
            &&& can_create ==> {
                &&& ask matches CommandAsk::CreateWindow { id: i, birth }
                &&& i == id && birth.x == old(w).snap.origin_x && birth.y == old(w).snap.origin_y
                &&& birth.override_redirect == old(w).snap.fullscreen
                &&& old(w).snap.width >= 1 ==> birth.w == old(w).snap.width
                &&& old(w).snap.height >= 1 ==> birth.h == old(w).snap.height
            }
            &&& !can_create ==> ask is Nothing
            &&& final(w).order@ == old(w).order@ && final(w).structures@ == old(w).structures@
        },
        cmd matches GeometryCommand::Destroy { id } ==> {
            &&& !final(w).structures@.contains_key(id.bits())
            &&& !contains_id(final(w).order@, id)
            &&& old(w).structures@.contains_key(id.bits()) ==> (
            ask matches CommandAsk::DestroyWindow { window } && window
                == old(w).structures@[id.bits()])
            &&& !old(w).structures@.contains_key(id.bits()) ==> ask is Nothing
        },
        cmd matches GeometryCommand::SetVisible { id, visible } ==> {
            &&& ask matches CommandAsk::Record { id: i, visible: v }
            &&& i == id && v == visible
            &&& final(w).order@ == old(w).order@ && final(w).structures@ == old(w).structures@
        },
        cmd matches GeometryCommand::SetOrder { ids } ==> {
            &&& toplevel is Some <==> ask is Stack
            &&& final(w).structures@ == old(w).structures@
        },
{
    if let GeometryCommand::Destroy { id } = cmd {
        without_is_without(old(w).order@, id);
    }
}

/// What an event leads to at the next settling. A change of the parent or its
/// frame reasserts the stack; mapping the parent also brings focus back; other
/// windows' changes are only followed. The parent's visibility is told, closing
/// or losing it ends the app, and a stopping thread settles nothing.
pub proof fn events_lead_to_settling(
    g: &mut GeoLoop,
    host: Option<HostServices>,
    ev: GeoEvent,
    ask: GeoAsk,
    h: &mut GeoLoop,
    r: Option<(bool, bool)>,
)
    requires
        call_ensures(GeoLoop::on_event, (g, &host, ev), ask),
        old(g).phase == Phase::Running(Pending::Idle),
        *old(h) == *final(g),
        call_ensures(GeoLoop::settle, (h,), r),
    ensures
        ev matches GeoEvent::ConfigureNotify { window } ==> r == Some(
            (window == old(g).parent || window == old(g).frame, false),
        ) && ask is Nothing,
        ev matches GeoEvent::CirculateNotify { window } ==> r == Some(
            (window == old(g).parent || window == old(g).frame, false),
        ),
        ev matches GeoEvent::PropertyNotify { window, atom } ==> {
            &&& window == old(g).parent ==> r == Some((true, false)) && ask is Nothing
            &&& window != old(g).parent ==> r is None
            &&& ask is RefreshScale <==> window != old(g).parent && window == old(g).root && atom
                == 23
        },
        ev matches GeoEvent::MapNotify { window } ==> {
            &&& window == old(g).parent ==> r == Some((true, true)) && ask == GeoAsk::Visible(true)
                && final(g).parent_mapped
            &&& window != old(g).parent ==> r is None && ask is Nothing && final(g).parent_mapped
                == old(g).parent_mapped
        },
        ev matches GeoEvent::UnmapNotify { window } ==> {
            &&& r == Some((false, false))
            &&& window == old(g).parent ==> ask == GeoAsk::Visible(false) && !final(g).parent_mapped
            &&& window != old(g).parent ==> ask is Nothing && final(g).parent_mapped
                == old(g).parent_mapped
        },
        ev matches GeoEvent::ReparentNotify { window } ==> (window == old(g).parent
            <==> ask is FindFrame) && (r == if window == old(g).parent {
            Some((true, false))
        } else {
            None
        }),
        ev matches GeoEvent::CreateNotify { parent, window } ==> {
            &&& parent == old(g).video_host ==> final(g).embed == Some(window) && r == Some(
                (false, false),
            )
            &&& parent != old(g).video_host ==> final(g).embed == old(g).embed && r is None
        },
        ev matches GeoEvent::DestroyNotify { window } ==> {
            &&& ask is Shutdown <==> window == old(g).parent
            &&& old(g).embed == Some(window) ==> final(g).embed is None
            &&& old(g).embed != Some(window) ==> final(g).embed == old(g).embed
        },
        ev matches GeoEvent::ClientMessage(e) ==> {
            &&& ask is Shutdown <==> e.window == old(g).parent && (host matches Some(s) && e.type_
                == s.atoms.wm_protocols && e.data@[0] == s.atoms.wm_delete_window)
            &&& r is None
        },
        ev matches GeoEvent::SelectionOwner { owner } ==> ask == GeoAsk::CompositorDetected(
            owner != 0,
        ) && (r is Some <==> owner != 0),
        ev is Other ==> r is None && ask is Nothing,
        final(h).phase == Phase::Running(Pending::Idle),
{
}

/// Settling is due for the most that was asked for, once; a thread told to stop
/// settles no more and gives up the app's window.
pub proof fn settling_is_done_once(
    g: &mut GeoLoop,
    p: Pending,
    u: (),
    h: &mut GeoLoop,
    first: Option<(bool, bool)>,
    k: &mut GeoLoop,
    second: Option<(bool, bool)>,
    s: &mut GeoLoop,
    unmap: u32,
    t: &mut GeoLoop,
    last: Option<(bool, bool)>,
)
    requires
        call_ensures(GeoLoop::raise_to, (g, p), u),
        *old(h) == *final(g),
        call_ensures(GeoLoop::settle, (h,), first),
        *old(k) == *final(h),
        call_ensures(GeoLoop::settle, (k,), second),
        call_ensures(GeoLoop::shutdown, (s,), unmap),
        *old(t) == *final(s),
        call_ensures(GeoLoop::settle, (t,), last),
    ensures
        second is None,
        old(g).phase is Stopping ==> first is None,
        old(g).phase == Phase::Running(Pending::Idle) ==> {
            &&& p is Idle ==> first is None
            &&& p is Reconcile ==> first == Some((false, false))
            &&& p is Restack ==> first == Some((true, false))
            &&& p is Refocus ==> first == Some((true, true))
        },
        old(g).phase == Phase::Running(Pending::Refocus) ==> first == Some((true, true)),
        unmap == old(s).parent && last is None,
        final(g).work == old(g).work && final(g).parent == old(g).parent,
{
}

/// A new scale is taken over and, where it is new, settled; without one the
/// display is unscaled.
pub proof fn queried_scale_is_taken_over(g: &mut GeoLoop, s: Option<i32>, changed: bool)
    requires
        call_ensures(GeoLoop::display_scale_queried, (g, s), changed),
    ensures
        s matches Some(v) ==> final(g).work.snap.scale_halves == v,
        s is None ==> final(g).work.snap.scale_halves == 2,
        changed <==> final(g).work.snap != old(g).work.snap,
        final(g).work.snap.width == old(g).work.snap.width,
        final(g).work.snap.origin_x == old(g).work.snap.origin_x,
        final(g).work.snap.fullscreen == old(g).work.snap.fullscreen,
        !changed ==> final(g).phase == old(g).phase,
        changed && old(g).phase == Phase::Running(Pending::Idle) ==> final(g).phase
            == Phase::Running(Pending::Reconcile),
{
}

/// The frame found is kept, and watched where it is a window of its own.
pub proof fn found_frame_is_kept(
    g: &mut GeoLoop,
    frame: u32,
    watch: bool,
    parent: Option<u32>,
    root: u32,
    up: Option<u32>,
)
    requires
        call_ensures(GeoLoop::reparented, (g, frame), watch),
        call_ensures(find_frame_step, (parent, root), up),
    ensures
        final(g).frame == frame && (watch <==> frame != old(g).parent),
        final(g).work == old(g).work && final(g).phase == old(g).phase,
        up is Some <==> parent is Some && parent != Some(0u32) && parent != Some(root),
        up is Some ==> up == parent,
{
}

/// A request to acknowledge a resize carries its counter value, the low word
/// before the high one; closing is asked for by the same kind of message.
pub proof fn manager_messages_are_read(
    host: HostServices,
    e: ClientMessage,
    sync: Option<(i32, u32)>,
    close: bool,
)
    requires
        call_ensures(parse_sync_request, (&host, &e), sync),
        call_ensures(is_wm_delete, (&host, &e), close),
    ensures
        close <==> e.type_ == host.atoms.wm_protocols && e.data@[0] == host.atoms.wm_delete_window,
        sync is Some <==> host.sync_counter != 0 && host.atoms.net_wm_sync_request != 0 && e.type_
            == host.atoms.wm_protocols && e.data@[0] == host.atoms.net_wm_sync_request,
        sync matches Some(v) ==> {
            &&& v.1 == e.data@[2]
            &&& v.0 >= 0 ==> v.0 == e.data@[3]
            &&& v.0 < 0 ==> v.0 + 0x1_0000_0000 == e.data@[3]
        },
{
}

/// A resize is latched to be acknowledged where there is a counter, and only
/// after its configure.
pub proof fn latched_resize_waits(
    w: &mut GeoWork,
    hi: i32,
    lo: u32,
    u: (),
    v: &mut GeoWork,
    r: Option<(i32, u32)>,
)
    requires
        call_ensures(GeoWork::latch_sync, (w, hi, lo), u),
        call_ensures(GeoWork::commit_resize, (v,), r),
    ensures
        old(w).sync_counter != 0 ==> final(w).sync_pending == Some((hi, lo)) && !final(w).sync_armed,
        old(w).sync_counter == 0 ==> final(w).sync_pending == old(w).sync_pending,
        !old(v).sync_armed ==> r is None && final(v).sync_pending == old(v).sync_pending,
        old(v).sync_armed ==> r == old(v).sync_pending && final(v).sync_pending is None,
{
    assert(final(v).sync().pending == final(v).sync_pending);
    assert(old(v).sync().pending == old(v).sync_pending);
    assert(old(v).sync().armed == old(v).sync_armed);
}

/// Fullscreen is asked of the window manager for the app's window, to be added or
/// removed, and a reconcile follows in any case.
pub proof fn fullscreen_is_asked_of_the_manager(
    host: Option<HostServices>,
    queue: &mut GeometryQueue,
    fs: bool,
    r: Option<RootMessage>,
)
    requires
        call_ensures(set_parent_fullscreen, (&host, queue, fs), r),
    ensures
        final(queue).resync,
        final(queue).commands@ == old(queue).commands@,
        r is Some <==> host is Some && host->Some_0.toplevel != 0,
        r matches Some(m) ==> {
            &&& m.root == host->Some_0.root && m.message.window == host->Some_0.toplevel
            &&& m.message.type_ == host->Some_0.atoms.net_wm_state
            &&& m.message.data@[0] == 1 <==> fs
            &&& m.message.data@[0] == 0 <==> !fs
            &&& m.message.data@[1] == host->Some_0.atoms.net_wm_state_fullscreen
            &&& m.message.data@[2] == 0 && m.message.data@[3] == 1
        },
{
}

/// Activating names the window it activates, as a pager does.
pub proof fn activation_names_its_window(host: HostServices, root: u32, parent: u32, m: RootMessage)
    requires
        call_ensures(activate_parent, (&host, root, parent), m),
    ensures
        m.root == root && m.message.window == parent,
        m.message.type_ == host.atoms.net_active_window,
        m.message.data@[0] == 2,
{
}

/// An overlay window is a borderless, empty, translucent child of the root at
/// its birth rect; it belongs to the app's window, keeps out of taskbar and
/// pager and has no decorations.
pub proof fn overlay_window_is_made_as_born(
    host: HostServices,
    paint: PaintServices,
    birth: Birth,
    window: u32,
    r: Option<(OverlayCreate, Vec<PropertyWrite>)>,
)
    requires
        call_ensures(create_overlay_window, (&host, &paint, birth, Some(window)), r),
        -0x8000 <= birth.x < 0x8000,
        -0x8000 <= birth.y < 0x8000,
        0 <= birth.w < 0x1_0000,
        0 <= birth.h < 0x1_0000,
    ensures
        r matches Some(made) && {
            let c = made.0;
            let p = made.1@;
            &&& c.window == window && c.parent == host.root
            &&& c.x == birth.x && c.y == birth.y && c.w == birth.w && c.h == birth.h
            &&& c.depth == paint.argb_depth && c.visual == paint.argb_visual && c.colormap
                == paint.colormap
            &&& c.override_redirect == birth.override_redirect
            &&& c.border_width == 0 && c.background_pixel == 0 && c.border_pixel == 0
            &&& exists|i: int|
                0 <= i < p.len() && (#[trigger] p[i]).property == 68 && p[i].type_ == 33
                    && p[i].values@ == seq![host.toplevel]
            &&& exists|i: int|
                0 <= i < p.len() && (#[trigger] p[i]).property == host.atoms.net_wm_state
                    && p[i].values@.contains(host.atoms.net_wm_state_skip_taskbar)
                    && p[i].values@.contains(host.atoms.net_wm_state_skip_pager)
            &&& exists|i: int|
                0 <= i < p.len() && (#[trigger] p[i]).property == host.atoms.motif_wm_hints
                    && p[i].values@.len() == 5 && p[i].values@[0] == 2 && forall|k: int|
                    1 <= k < 5 ==> p[i].values@[k] == 0
            &&& exists|i: int|
                0 <= i < p.len() && (#[trigger] p[i]).property == host.atoms.wm_protocols
                    && p[i].values@ == seq![host.atoms.wm_delete_window] && p[i].type_ == 4
            &&& exists|i: int|
                0 <= i < p.len() && (#[trigger] p[i]).property == host.atoms.net_wm_window_type
                    && p[i].values@ == seq![host.atoms.net_wm_window_type_normal] && p[i].type_ == 4
            &&& exists|i: int|
                0 <= i < p.len() && (#[trigger] p[i]).property == 35 && p[i].type_ == 35
                    && p[i].values@.len() == 9 && p[i].values@[0] == 1 && forall|k: int|
                    1 <= k < 9 ==> p[i].values@[k] == 0
        },
{
    let p = r->Some_0.1@;
    let d = crate::x11::geometry::overlay_described(host);
    assert(p[0]@ == d[0] && p[1]@ == d[1] && p[2]@ == d[2] && p[3]@ == d[3]);
    assert(p[4]@ == d[4] && p[5]@ == d[5]);
    assert(p[1].values@ == seq![host.atoms.net_wm_window_type_normal]);
    assert(p[4].values@.len() == 9);
    assert(p[0].values@ == seq![host.toplevel]);
    assert(p[2].values@[0] == host.atoms.net_wm_state_skip_taskbar);
    assert(p[2].values@[1] == host.atoms.net_wm_state_skip_pager);
    assert(p[3].values@[0] == 2);
    assert(p[5].values@ == seq![host.atoms.wm_delete_window]);
}

/// A resize request of the manager's for the app's window is latched, unless it is
/// a request to close; that window's next configure arms it. No other event
/// touches it, nor what is known of the overlays.
pub proof fn resize_request_is_latched_for_the_parent(
    g: &mut GeoLoop,
    host: HostServices,
    e: ClientMessage,
    ask: GeoAsk,
    sync: Option<(i32, u32)>,
    close: bool,
    h: &mut GeoLoop,
    none: Option<HostServices>,
    ev: GeoEvent,
    other: GeoAsk,
    some: Option<HostServices>,
)
    requires
        some == Some(host),
        call_ensures(GeoLoop::on_event, (g, &some, GeoEvent::ClientMessage(e)), ask),
        call_ensures(parse_sync_request, (&host, &e), sync),
        call_ensures(is_wm_delete, (&host, &e), close),
        !(ev is ClientMessage),
        call_ensures(GeoLoop::on_event, (h, &none, ev), other),
    ensures
        ({
            let latched = e.window == old(g).parent && sync is Some && !close
                && old(g).work.sync_counter != 0;
            &&& latched ==> final(g).work.sync_pending == sync && !final(g).work.sync_armed
            &&& !latched ==> final(g).work.sync_pending == old(g).work.sync_pending
                && (final(g).work.sync_armed == old(g).work.sync_armed)
        }),
        final(h).work.sync_pending == old(h).work.sync_pending,
        final(h).work.sync_armed <==> old(h).work.sync_armed || (
        ev matches GeoEvent::ConfigureNotify { window } && window == old(h).parent),
        final(g).work.order@ == old(g).work.order@ && final(g).work.snap == old(g).work.snap,
        final(h).work.order@ == old(h).work.order@ && final(h).work.snap == old(h).work.snap,
        final(h).parent == old(h).parent && final(h).video_host == old(h).video_host
            && final(h).root == old(h).root && final(h).frame == old(h).frame,
{
    assert(final(g).work.sync().pending == final(g).work.sync_pending);
    assert(final(g).work.sync().armed == final(g).work.sync_armed);
    assert(old(g).work.sync().pending == old(g).work.sync_pending);
    assert(final(h).work.sync().pending == final(h).work.sync_pending);
    assert(final(h).work.sync().armed == final(h).work.sync_armed);
}

} // verus!
