//! How one overlay is brought in line, what a run of commands does, and what the
//! shared facts start as.

use vstd::prelude::*;

use crate::input_types::Buttons;
use crate::input_types::CursorShape;
use crate::text::signed_decimal;
use crate::x11::geometry::drop_toplevel_connection;
use crate::x11::geometry::CommandAsk;
use crate::x11::geometry::GeoLoop;
use crate::x11::geometry::GeoWork;
use crate::x11::geometry::Pending;
use crate::x11::geometry::Phase;
use crate::x11::geometry_pass::commands_applied;
use crate::x11::geometry_pass::dones_view;
use crate::x11::geometry_pass::toplevel_of;
use crate::x11::geometry_pass::CommandDone;
use crate::x11::geometry_pass::WorkView;
use crate::x11::input::CursorCache;
use crate::x11::input::CursorMailbox;
use crate::x11::input::InputMailbox;
use crate::x11::input::InputState;
use crate::x11::input_lifecycle::cleanup;
use crate::x11::input_lifecycle::start;
use crate::x11::input_lifecycle::start_screen;
use crate::x11::lifecycle::cm_atom_name;
use crate::x11::overlay_fsm::step;
use crate::x11::overlay_fsm::Effect;
use crate::x11::overlay_fsm::Inputs;
use crate::x11::overlay_fsm::OverlayState;
use crate::x11::platform::paint_name;
use crate::x11::platform::X11PaintOverride;
use crate::x11::registry::request_resync;
use crate::x11::registry::split_capabilities;
use crate::x11::registry::ContentSurface;
use crate::x11::registry::GeometryCommand;
use crate::x11::registry::GeometryQueue;
use crate::x11::registry::StructureSurface;
use crate::x11::registry::SurfaceHandle;
use crate::x11::registry::SurfaceId;
use crate::x11::registry::SurfaceRecord;
use crate::x11::registry::SurfaceRegistry;
use crate::x11::x11_state::parent_snapshot;
use crate::x11::x11_state::HostServices;
use crate::x11::x11_state::ParentSnapshot;
use crate::x11::x11_state::ShmBuffer;
use crate::x11::x11_state::X11State;

verus! {

/// One step leaves the overlay managed as its parent is and mapped as wanted. A
/// flip of management comes first and goes through a remap; a window the server
/// says is unmapped is mapped again; it is placed where it is not yet, or where
/// it was just mapped; and nothing else is done.
pub proof fn step_does_the_least(s: &mut OverlayState, i: Inputs, r: Vec<Effect>)
    requires
        call_ensures(step, (s, &i), r),
    ensures
        ({
            let flip = old(s).unmanaged != i.parent_fullscreen;
            let gone = !old(s).mapped || i.observed_mapped == Some(false) || flip;
            let there = i.observed is Some && i.observed->Some_0.0 == i.parent_geom.0
                && i.observed->Some_0.1 == i.parent_geom.1 && i.observed->Some_0.2
                == i.parent_geom.2 && i.observed->Some_0.3 == i.parent_geom.3;
            &&& final(s).mapped == i.want_visible && final(s).unmanaged == i.parent_fullscreen
            &&& flip <==> r@.len() > 0 && r@[0] == Effect::SetOverrideRedirect(i.parent_fullscreen)
            &&& r@.contains(Effect::MapAndRaise) <==> i.want_visible && gone
            &&& r@.contains(Effect::Unmap) <==> !i.want_visible && !gone
            &&& r@.contains(Effect::Place) <==> i.want_visible && (gone || !there)
            &&& r@.contains(Effect::Place) ==> r@.last() == Effect::Place
            &&& !r@.contains(Effect::SetOverrideRedirect(!i.parent_fullscreen))
            &&& r@.no_duplicates()
        }),
{
    let flip = old(s).unmanaged != i.parent_fullscreen;
    let gone = !old(s).mapped || i.observed_mapped == Some(false) || flip;
    let n = if flip {
        1int
    } else {
        0
    };
    if i.want_visible && gone {
        assert(r@[n] == Effect::MapAndRaise);
        assert(r@[n + 1] == Effect::Place);
    } else if i.want_visible && i.observed != Some(i.parent_geom) {
        assert(r@[n] == Effect::Place);
    } else if !i.want_visible && !gone {
        assert(r@[n] == Effect::Unmap);
    }
}

/// Once a step has taken hold, the next one does nothing; an overlay that starts
/// out mapped is managed unless its parent covers the screen.
pub proof fn settled_overlay_is_left_alone(
    s: &mut OverlayState,
    i: Inputs,
    r: Vec<Effect>,
    t: &mut OverlayState,
    j: Inputs,
    again: Vec<Effect>,
    fullscreen: bool,
    fresh: OverlayState,
)
    requires
        call_ensures(step, (s, &i), r),
        *old(t) == *final(s),
        j.parent_geom == i.parent_geom,
        j.parent_fullscreen == i.parent_fullscreen,
        j.want_visible == i.want_visible,
        j.observed == Some(i.parent_geom),
        j.observed_mapped == Some(i.want_visible),
        call_ensures(step, (t, &j), again),
        call_ensures(OverlayState::new_mapped, (fullscreen,), fresh),
    ensures
        again@.len() == 0 && *final(t) == *final(s),
        fresh.mapped && fresh.unmanaged == fullscreen,
{
}

/// A single command is applied as it is: a window made for it is taken over, one
/// to be destroyed is named, visibility is recorded, a new order is stacked. Then
/// the windows there are get published.
pub proof fn one_command_is_applied(
    w: &mut GeoWork,
    state: &mut X11State,
    cmds: Vec<GeometryCommand>,
    made: Vec<Option<u32>>,
    r: Vec<CommandDone>,
    v: &mut GeoWork,
    ask: CommandAsk,
    x: &mut GeoWork,
    u: (),
    published: Vec<u32>,
)
    requires
        old(w).wf(),
        cmds@.len() == 1,
        made@.len() == 1,
        call_ensures(GeoWork::process_commands, (w, state, &cmds, &made), r),
        *old(v) == *old(w),
        call_ensures(
            GeoWork::apply_command,
            (
                v,
                &cmds@[0],
                match old(state).host {
                    Some(h) => Some(h.toplevel),
                    None => None,
                },
                old(state).host is Some && old(state).paint is Some,
            ),
            ask,
        ),
        ask matches CommandAsk::CreateWindow { id, .. } ==> (made@[0] matches Some(window) ==> *old(x)
            == *final(v) && call_ensures(GeoWork::handle_create, (x, id, window), u)),
        call_ensures(GeoWork::publish_windows, (&*final(w),), published),
    ensures
        r@.len() == 1,
        match ask {
            CommandAsk::Nothing => r@[0] is Nothing,
            CommandAsk::CreateWindow { id, .. } => match made@[0] {
                Some(window) => r@[0] == (CommandDone::Attached { id, window }) && final(w).order@
                    == final(x).order@ && final(w).structures@ == final(x).structures@
                        && final(w).fsm@ == final(x).fsm@,
                None => r@[0] is Nothing && final(w).order@ == old(w).order@,
            },
            CommandAsk::DestroyWindow { window } => r@[0] == (CommandDone::DestroyWindow {
                window,
            }),
            CommandAsk::Record { id, visible } => r@[0] == (CommandDone::Record { id, visible }),
            CommandAsk::Stack(p) => r@[0] matches CommandDone::Stack(q) && q@ == p@,
        },
        !(ask is CreateWindow) ==> final(w).order@ == final(v).order@ && final(w).structures@
            == final(v).structures@ && final(w).fsm@ == final(v).fsm@,
        final(state).windows@ == published@,
        final(state).host == old(state).host && final(state).parent == old(state).parent,
        final(w).snap == old(w).snap,
{
    reveal_with_fuel(commands_applied, 2);
    assert(cmds@.drop_last() =~= Seq::empty());
    let d = dones_view(r@);
    assert(d.len() == r@.len());
    assert(d[0] == r@[0]@);
}

/// A run of commands is applied one after the other, with the same outcome as in
/// two runs; none at all changes nothing, not even what is published.
pub proof fn commands_are_applied_in_turn(
    a: &mut GeoWork,
    sa: &mut X11State,
    first: Vec<GeometryCommand>,
    made1: Vec<Option<u32>>,
    r: Vec<CommandDone>,
    b: &mut GeoWork,
    sb: &mut X11State,
    last: Vec<GeometryCommand>,
    made2: Vec<Option<u32>>,
    s: Vec<CommandDone>,
    c: &mut GeoWork,
    sc: &mut X11State,
    all: Vec<GeometryCommand>,
    made: Vec<Option<u32>>,
    t: Vec<CommandDone>,
)
    requires
        old(a).wf(),
        last@.len() == 1,
        made2@.len() == 1,
        made1@.len() == first@.len(),
        all@ == first@ + last@,
        made@ == made1@ + made2@,
        call_ensures(GeoWork::process_commands, (a, sa, &first, &made1), r),
        *old(b) == *final(a),
        *old(sb) == *final(sa),
        call_ensures(GeoWork::process_commands, (b, sb, &last, &made2), s),
        *old(c) == *old(a),
        *old(sc) == *old(sa),
        call_ensures(GeoWork::process_commands, (c, sc, &all, &made), t),
    ensures
        final(c).order@ == final(b).order@ && final(c).structures@ == final(b).structures@
            && final(c).fsm@ == final(b).fsm@,
        t@.len() == first@.len() + 1 && r@.len() == first@.len() && s@.len() == 1,
        forall|i: int| 0 <= i < first@.len() ==> (#[trigger] t@[i])@ == r@[i]@,
        t@[first@.len() as int]@ == s@[0]@,
        final(sc).windows@ == final(sb).windows@,
        first@.len() == 0 ==> final(sa).windows@ == old(sa).windows@ && final(a).order@
            == old(a).order@ && final(a).structures@ == old(a).structures@,
{
    let top = toplevel_of(old(sa).host);
    let can = old(sa).host is Some && old(sa).paint is Some;
    let full = old(a).snap.fullscreen;
    reveal_with_fuel(commands_applied, 2);
    assert(all@.drop_last() =~= first@);
    assert(all@.last() == last@[0]);
    assert(last@.drop_last() =~= Seq::empty());
    same_made(old(a)@, full, first@, made@, made1@, top, can);
    assert(made@[all@.len() - 1] == made2@[0]);
    let dt = dones_view(t@);
    let dr = dones_view(r@);
    let ds = dones_view(s@);
    assert(dt.len() == t@.len() && dr.len() == r@.len() && ds.len() == s@.len());
    runs_are_as_long(old(a)@, full, first@, made1@, top, can);
    assert(dt =~= dr.push(ds[0]));
    assert forall|i: int| 0 <= i < first@.len() implies (#[trigger] t@[i])@ == r@[i]@ by {
        assert(dt[i] == t@[i]@ && dr[i] == r@[i]@);
    }
    assert(dt[first@.len() as int] == t@[first@.len() as int]@);
    assert(ds[0] == s@[0]@);
}

proof fn same_made(
    m: WorkView,
    full: bool,
    cmds: Seq<GeometryCommand>,
    a: Seq<Option<u32>>,
    b: Seq<Option<u32>>,
    top: Option<u32>,
    can: bool,
)
    requires
        a.len() >= cmds.len(),
        b.len() >= cmds.len(),
        forall|i: int| 0 <= i < cmds.len() ==> a[i] == b[i],
    ensures
        commands_applied(m, full, cmds, a, top, can) == commands_applied(
            m,
            full,
            cmds,
            b,
            top,
            can,
        ),
    decreases cmds.len(),
{
    if cmds.len() > 0 {
        same_made(m, full, cmds.drop_last(), a, b, top, can);
    }
}

proof fn runs_are_as_long(
    m: WorkView,
    full: bool,
    cmds: Seq<GeometryCommand>,
    a: Seq<Option<u32>>,
    top: Option<u32>,
    can: bool,
)
    ensures
        commands_applied(m, full, cmds, a, top, can).1.len() == cmds.len(),
    decreases cmds.len(),
{
    if cmds.len() > 0 {
        runs_are_as_long(m, full, cmds.drop_last(), a, top, can);
    }
}

/// Waking the thread applies what is queued and has the stack reasserted at the
/// next settling, whether or not anything was.
pub proof fn waking_applies_the_queue(
    g: &mut GeoLoop,
    state: &mut X11State,
    cmds: Vec<GeometryCommand>,
    made: Vec<Option<u32>>,
    r: Vec<CommandDone>,
    w: &mut GeoWork,
    state2: &mut X11State,
    s: Vec<CommandDone>,
)
    requires
        old(g).work.wf(),
        made@.len() == cmds@.len(),
        call_ensures(GeoLoop::on_resync, (g, state, &cmds, &made), r),
        *old(w) == old(g).work,
        *old(state2) == *old(state),
        call_ensures(GeoWork::process_commands, (w, state2, &cmds, &made), s),
    ensures
        final(g).work.order@ == final(w).order@
            && final(g).work.structures@ == final(w).structures@ && final(g).work.fsm@ == final(w).fsm@,
        dones_view(r@) == dones_view(s@),
        final(state).windows@ == final(state2).windows@,
        old(g).phase matches Phase::Running(p) ==> (final(g).phase matches Phase::Running(q) && q
            != Pending::Idle && q != Pending::Reconcile && (p == Pending::Refocus ==> q
            == Pending::Refocus) && (p != Pending::Refocus ==> q == Pending::Restack)),
        old(g).phase is Stopping ==> final(g).phase is Stopping,
        final(g).parent_mapped == old(g).parent_mapped && final(g).embed == old(g).embed,
{
}

/// The geometry thread starts with what it is given, no overlays, and everything
/// to be settled; a scale that changes is noticed; the connection is dropped.
pub proof fn geometry_starts_unsettled(
    snap: ParentSnapshot,
    counter: u32,
    w: GeoWork,
    parent: u32,
    host: u32,
    root: u32,
    frame: u32,
    g: GeoLoop,
    x: &mut GeoWork,
    scale: i32,
    changed: bool,
    c: &mut Option<u64>,
    u: (),
)
    requires
        call_ensures(GeoWork::new, (snap, counter), w),
        call_ensures(GeoLoop::new, (w, parent, host, root, frame), g),
        call_ensures(GeoWork::refresh_display_scale, (x, scale), changed),
        call_ensures(drop_toplevel_connection::<u64>, (c,), u),
    ensures
        w.snap == snap && w.order@.len() == 0 && w.sync_counter == counter && w.sync_pending is None
            && !w.sync_armed,
        forall|k: u64| !#[trigger] w.structures@.contains_key(k),
        forall|k: u64| !#[trigger] w.fsm@.contains_key(k),
        g.work == w && g.parent == parent && g.video_host == host && g.root == root && g.frame
            == frame && g.embed is None && g.parent_mapped,
        g.phase == Phase::Running(Pending::Restack),
        changed <==> old(x).snap.scale_halves != scale,
        final(x).snap.scale_halves == scale && final(x).snap.width == old(x).snap.width
            && final(x).snap.height == old(x).snap.height
            && final(x).snap.origin_x == old(x).snap.origin_x
            && final(x).snap.fullscreen == old(x).snap.fullscreen,
        final(x).order@ == old(x).order@,
        *final(c) is None,
{
}

/// Draining a registry hands out each surface once, as it was; then it is empty.
pub proof fn drained_registry_hands_out_all(
    a: &mut SurfaceRegistry,
    r: Vec<(SurfaceId, SurfaceRecord)>,
    id: SurfaceId,
    before: Option<SurfaceRecord>,
    after: Option<SurfaceRecord>,
    fresh: SurfaceRegistry,
    none: Option<SurfaceRecord>,
)
    requires
        old(a).wf(),
        call_ensures(SurfaceRegistry::get, (&*old(a), id), before),
        call_ensures(SurfaceRegistry::drain, (a,), r),
        call_ensures(SurfaceRegistry::get, (&*final(a), id), after),
        call_ensures(SurfaceRegistry::new, (), fresh),
        call_ensures(SurfaceRegistry::get, (&fresh, id), none),
    ensures
        after is None && none is None,
        before matches Some(rec) ==> exists|i: int|
            0 <= i < r@.len() && (#[trigger] r@[i]).0.bits() == id.bits() && r@[i].1 == rec,
        before is None ==> forall|i: int|
            0 <= i < r@.len() ==> (#[trigger] r@[i]).0.bits() != id.bits(),
        forall|i: int, j: int|
            0 <= i < j < r@.len() ==> (#[trigger] r@[i]).0.bits() != (#[trigger] r@[j]).0.bits(),
{
    let l = Seq::new(r@.len(), |i: int| (r@[i].0.bits(), r@[i].1));
    assert forall|i: int| 0 <= i < r@.len() implies l[i] == ((#[trigger] r@[i]).0.bits(), r@[i].1) by {}
    if old(a)@.contains_key(id.bits()) {
        let k = choose|i: int| 0 <= i < l.len() && (#[trigger] l[i]).0 == id.bits();
        assert(r@[k].0.bits() == id.bits());
        assert(l[k].1 == old(a)@[id.bits()]);
    }
    assert forall|i: int, j: int| 0 <= i < j < r@.len() implies (#[trigger] r@[i]).0.bits() != (
    #[trigger] r@[j]).0.bits() by {
        assert(l[i].0 != l[j].0);
    }
    if !old(a)@.contains_key(id.bits()) {
        assert forall|i: int| 0 <= i < r@.len() implies (#[trigger] r@[i]).0.bits() != id.bits() by {
            assert(old(a)@.contains_key(l[i].0));
        }
    }
}

/// A window is split into what the geometry thread and what the painter needs;
/// ids are the same by their bits; a queue is taken from once it is installed,
/// and asking for a wake keeps what is queued.
pub proof fn capabilities_and_queue(
    window: u32,
    gc: u32,
    r: (StructureSurface, ContentSurface),
    a: SurfaceId,
    b: SurfaceId,
    same: bool,
    raw: u64,
    h: SurfaceHandle,
    none: bool,
    q: &mut GeometryQueue,
    p: &mut GeometryQueue,
    u: (),
    fresh: GeometryQueue,
)
    requires
        call_ensures(split_capabilities, (window, gc), r),
        call_ensures(SurfaceId::same, (a, b), same),
        call_ensures(SurfaceHandle::from_id, (raw,), h),
        call_ensures(SurfaceHandle::is_none, (h,), none),
        call_ensures(GeometryQueue::install_command_channel, (q,), u),
        call_ensures(request_resync, (p,), u),
        call_ensures(GeometryQueue::new, (), fresh),
    ensures
        r.0.window == window && r.1.window == window && r.1.gc == gc,
        same <==> a.bits() == b.bits(),
        h.id == raw && (none <==> raw == 0),
        final(q).installed && final(q).commands@ == old(q).commands@,
        final(p).resync && final(p).commands@ == old(p).commands@ && final(p).installed
            == old(p).installed,
        !fresh.installed && !fresh.resync && fresh.commands@.len() == 0,
{
}

/// Before anything is published there is no host, no visual and no overlay, and
/// the parent has no extent; what was published of it is read back.
pub proof fn shared_facts_start_empty<M>(
    s: X11State,
    p: ParentSnapshot,
    t: &mut X11State,
    snap: ParentSnapshot,
    u: (),
    read: ParentSnapshot,
    b: ShmBuffer<M>,
)
    requires
        call_ensures(X11State::new, (), s),
        call_ensures(parent_snapshot, (&s,), p),
        call_ensures(X11State::publish_parent, (t, snap), u),
        call_ensures(parent_snapshot, (&*final(t),), read),
        call_ensures(ShmBuffer::<M>::empty, (), b),
    ensures
        s.host is None && s.paint is None && s.windows@.len() == 0,
        p.width == 0 && p.height == 0 && !p.fullscreen && !p.maximized && p.origin_x == 0
            && p.origin_y == 0,
        read == snap,
        b.map is None && b.seg == 0 && b.w == 0 && b.h == 0,
{
}

/// Input starts with nothing held and no cursor made, the pointer at the origin;
/// the first cursor is the arrow, and cursors are set in order.
pub proof fn input_starts_empty(
    m: InputMailbox,
    c: CursorMailbox,
    k: CursorCache,
    s: InputState,
    shape: CursorShape,
    p: &mut CursorMailbox,
    u: (),
    e: &mut CursorMailbox,
    none: Buttons,
)
    requires
        call_ensures(InputMailbox::new, (), m),
        call_ensures(CursorMailbox::new, (), c),
        call_ensures(CursorCache::new, (), k),
        call_ensures(InputState::new, (), s),
        call_ensures(CursorMailbox::push, (p, shape), u),
        call_ensures(CursorMailbox::shutdown, (e,), u),
        call_ensures(Buttons::empty, (), none),
    ensures
        m.queue@.len() == 0 && !m.shutdown && !m.wake,
        c.queue@.len() == 0 && !c.shutdown && !c.wake && c.latest == CursorShape::Pointer,
        k.cursor(shape) is None,
        s.modifiers == 0 && s.ptr_x == 0 && s.ptr_y == 0 && !s.buttons.left && !s.buttons.middle
            && !s.buttons.right,
        !none.left && !none.middle && !none.right,
        final(p).latest == shape && final(p).wake && final(p).queue@.last() == shape
            && final(p).queue@.drop_last() == old(p).queue@,
        final(p).shutdown == old(p).shutdown && final(e).latest == old(e).latest,
        final(e).shutdown && final(e).wake && final(e).queue@ == old(e).queue@,
{
    assert(final(p).queue@.drop_last() =~= old(p).queue@);
}

/// The input thread runs on the host's screen, the first before there is one; it
/// is started in place of any before it and taken down once. The compositor's
/// selection and the paint paths have their names.
pub proof fn input_thread_is_kept_once(
    host: Option<HostServices>,
    screen: i32,
    slot: &mut Option<u64>,
    started: Option<u64>,
    replaced: Option<u64>,
    t: &mut Option<u64>,
    taken: Option<u64>,
    v: &mut Option<u64>,
    none: Option<u64>,
    atom: String,
    n: String,
    mode: X11PaintOverride,
    name: &'static str,
)
    requires
        call_ensures(start_screen, (&host,), screen),
        call_ensures(start::<u64>, (slot, started), replaced),
        *old(t) == *final(slot),
        call_ensures(cleanup::<u64>, (t,), taken),
        *old(v) == *final(t),
        call_ensures(cleanup::<u64>, (v,), none),
        call_ensures(cm_atom_name, (screen,), atom),
        call_ensures(signed_decimal, (screen,), n),
        call_ensures(paint_name, (mode,), name),
    ensures
        host matches Some(h) ==> screen == h.screen_num,
        host is None ==> screen == 0,
        started is Some ==> taken == started && replaced == *old(slot),
        none is None,
        atom@.len() == 12 + n@.len() && atom@.take(12) == "_NET_WM_CM_S"@ && atom@.skip(12) == n@,
        mode == X11PaintOverride::Dmabuf ==> name@ == "dmabuf"@,
        mode == X11PaintOverride::Gpu ==> name@ == "gpu"@,
        mode == X11PaintOverride::Shm ==> name@ == "shm"@,
{
    reveal_strlit("_NET_WM_CM_S");
    assert(atom@.take(12) =~= "_NET_WM_CM_S"@);
    assert(atom@.skip(12) =~= n@);
}

} // verus!
