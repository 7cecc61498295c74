//! The geometry thread's batches: one pass over the host and all overlays, one
//! run of queued commands, and the requests that make an overlay window.

use vstd::prelude::*;

use crate::abi::max_int;
use crate::x11::geometry::all_have_windows;
use crate::x11::geometry::completed;
use crate::x11::geometry::contains_id;
use crate::x11::geometry::overlay_described;
use crate::x11::geometry::overlay_properties;
use crate::x11::geometry::owned;
use crate::x11::geometry::pass_of;
use crate::x11::geometry::raised;
use crate::x11::geometry::read_snapshot;
use crate::x11::geometry::stacking;
use crate::x11::geometry::windows_of;
use crate::x11::geometry::without;
use crate::x11::geometry::Birth;
use crate::x11::geometry::CommandAsk;
use crate::x11::geometry::GeoLoop;
use crate::x11::geometry::GeoWork;
use crate::x11::geometry::OverlayOp;
use crate::x11::geometry::ParentReading;
use crate::x11::geometry::Pending;
use crate::x11::geometry::PropertyWrite;
use crate::x11::mpv_proxy::EmbedContext;
use crate::x11::mpv_proxy::SharedEmbed;
use crate::x11::overlay_fsm::Geom;
use crate::x11::overlay_fsm::OverlayState;
use crate::x11::registry::GeometryCommand;
use crate::x11::registry::SurfaceId;
use crate::x11::x11_state::HostServices;
use crate::x11::x11_state::PaintServices;
use crate::x11::x11_state::ParentSnapshot;
use crate::x11::x11_state::X11State;

verus! {

/// What is known of one overlay when a pass begins: where its window is, whether
/// it is mapped, and the visibility its record wishes for, as far as there is a
/// record.
#[derive(Clone, Copy, PartialEq, Eq, Debug)]
pub struct OverlaySeen {
    pub observed: Option<Geom>,
    pub mapped: Option<bool>,
    pub visible: Option<bool>,
}

/// What a pass does to one overlay.
pub struct OverlayTask {
    pub window: u32,
    /// The window answered, so its structure is watched.
    pub watch: bool,
    /// The extent its pixels have to have from now on; none without a record.
    pub resize: Option<(i32, i32)>,
    pub ops: Vec<OverlayOp>,
}

pub ghost struct OverlayTaskView {
    pub window: u32,
    pub watch: bool,
    pub resize: Option<(i32, i32)>,
    pub ops: Seq<OverlayOp>,
}

impl View for OverlayTask {
    type V = OverlayTaskView;

    open spec fn view(&self) -> OverlayTaskView {
        OverlayTaskView {
            window: self.window,
            watch: self.watch,
            resize: self.resize,
            ops: self.ops@,
        }
    }
}

pub open spec fn tasks_view(tasks: Seq<OverlayTask>) -> Seq<OverlayTaskView> {
    Seq::new(tasks.len(), |i: int| tasks[i]@)
}

/// Position and size of a window, in one request.
#[derive(Clone, Copy, PartialEq, Eq, Structural, Debug)]
pub struct Configure {
    pub window: u32,
    pub x: i32,
    pub y: i32,
    pub w: u32,
    pub h: u32,
}

/// The video host fills the parent, and so does mpv's window in it, once there
/// is one.
pub open spec fn fills(video_host: u32, embed: Option<u32>, geom: Geom) -> Seq<Configure> {
    let w = max_int(geom.2 as int, 1) as u32;
    let h = max_int(geom.3 as int, 1) as u32;
    seq![Configure { window: video_host, x: 0, y: 0, w, h }] + (match embed {
        Some(window) => seq![Configure { window, x: 0, y: 0, w, h }],
        None => seq![],
    })
}

/// What a pass makes of the overlays, bottom to top: their machines after it, and
/// what is done to each. All of them go by the same reading of the parent.
pub open spec fn overlays_passed(
    snap: ParentSnapshot,
    structures: Map<u64, u32>,
    parent_mapped: bool,
    reassert_stack: bool,
    order: Seq<SurfaceId>,
    seen: Seq<OverlaySeen>,
    fsm: Map<u64, OverlayState>,
) -> (Map<u64, OverlayState>, Seq<OverlayTaskView>)
    decreases order.len(),
{
    if order.len() == 0 {
        (fsm, seq![])
    } else {
        let (machines, tasks) = overlays_passed(
            snap,
            structures,
            parent_mapped,
            reassert_stack,
            order.drop_last(),
            seen,
            fsm,
        );
        let id = order.last();
        let s = seen[order.len() - 1];
        if !structures.contains_key(id.bits()) {
            (machines, tasks)
        } else {
            let window = structures[id.bits()];
            let watch = s.observed is Some;
            match s.visible {
                None => (
                    machines,
                    tasks.push(OverlayTaskView { window, watch, resize: None, ops: seq![] }),
                ),
                Some(visible) => {
                    let pass = pass_of(
                        snap,
                        machines,
                        id,
                        s.observed,
                        s.mapped,
                        visible && parent_mapped,
                        reassert_stack,
                    );
                    (
                        machines.insert(id.bits(), pass.0),
                        tasks.push(
                            OverlayTaskView {
                                window,
                                watch,
                                resize: Some((snap.width, snap.height)),
                                ops: pass.1,
                            },
                        ),
                    )
                },
            }
        }
    }
}

/// A pass reaches every overlay once, bottom to top: one task for each, for its
/// window, and each with a record is resized to the parent's extent.
pub proof fn every_overlay_is_passed_once(
    snap: ParentSnapshot,
    structures: Map<u64, u32>,
    parent_mapped: bool,
    reassert_stack: bool,
    order: Seq<SurfaceId>,
    seen: Seq<OverlaySeen>,
    fsm: Map<u64, OverlayState>,
)
    requires
        all_have_windows(order, structures),
        seen.len() >= order.len(),
    ensures
        ({
            let tasks = overlays_passed(
                snap,
                structures,
                parent_mapped,
                reassert_stack,
                order,
                seen,
                fsm,
            ).1;
            &&& tasks.len() == order.len()
            &&& forall|i: int|
                0 <= i < order.len() ==> (#[trigger] tasks[i]).window == structures[order[i].bits()]
                    && tasks[i].resize == (if seen[i].visible is Some {
                    Some((snap.width, snap.height))
                } else {
                    None
                })
        }),
    decreases order.len(),
{
    if order.len() > 0 {
        let front = order.drop_last();
        assert forall|i: int| 0 <= i < front.len() implies structures.contains_key(
            (#[trigger] front[i]).bits(),
        ) by {
            assert(front[i] == order[i]);
        }
        every_overlay_is_passed_once(
            snap,
            structures,
            parent_mapped,
            reassert_stack,
            front,
            seen,
            fsm,
        );
        assert(structures.contains_key(order[order.len() - 1].bits()));
    }
}

/// What one pass asks for.
pub struct Reconciled {
    /// Sent first, after the host's size was published to the proxy.
    pub fills: Vec<Configure>,
    /// The parent is not what it was: whoever watches the window is told.
    pub changed: bool,
    pub overlays: Vec<OverlayTask>,
    /// The counter value that tells the WM that all of the above is done, queued
    /// behind it.
    pub acknowledge: Option<(i32, u32)>,
}

impl GeoLoop {
    /// One pass: from one reading of the parent the video host, mpv's window and
    /// every overlay are sized, and the reading is published. `seen` says of each
    /// overlay in the order what is known of it. A parent that could not be read
    /// changes nothing.
    pub fn reconcile(
        &mut self,
        state: &mut X11State,
        shared: &mut SharedEmbed,
        reading: Option<ParentReading>,
        seen: &Vec<OverlaySeen>,
        reassert_stack: bool,
    ) -> (r: Option<Reconciled>)
        requires
            seen@.len() == old(self).work.order@.len(),
            reading matches Some(p) ==> 0 <= p.geom.2 <= u16::MAX && 0 <= p.geom.3 <= u16::MAX,
        ensures
            r is Some <==> reading is Some,
            reading is None ==> *final(self) == *old(self) && *final(state) == *old(state)
                && *final(shared) == *old(shared),
            match (reading, r) {
                (Some(p), Some(done)) => {
                    let snap = read_snapshot(old(self).work.snap, p);
                    let passed = overlays_passed(
                        snap,
                        old(self).work.structures@,
                        old(self).parent_mapped,
                        reassert_stack,
                        old(self).work.order@,
                        seen@,
                        old(self).work.fsm@,
                    );
                    &&& done.fills@ == fills(old(self).video_host, old(self).embed, p.geom)
                    &&& done.changed == (snap != old(self).work.snap)
                    &&& tasks_view(done.overlays@) == passed.1
                    &&& (done.acknowledge, final(self).work.sync())
                        == old(self).work.sync().committed()
                    &&& final(self).work.snap == snap
                    &&& final(self).work.fsm@ == passed.0
                    &&& final(self).work.structures@ == old(self).work.structures@
                    &&& final(self).work.order@ == old(self).work.order@
                    &&& final(self).parent == old(self).parent
                    &&& final(self).video_host == old(self).video_host
                    &&& final(self).root == old(self).root
                    &&& final(self).frame == old(self).frame
                    &&& final(self).embed == old(self).embed
                    &&& final(self).parent_mapped == old(self).parent_mapped
                    &&& final(self).phase == old(self).phase
                    &&& final(state).parent == snap
                    &&& final(state).host == old(state).host
                    &&& final(state).paint == old(state).paint
                    &&& final(state).windows@ == old(state).windows@
                    &&& final(shared).embed_window == old(shared).embed_window
                    &&& final(shared).ctx == match old(shared).ctx {
                        Some(c) => Some(
                            EmbedContext {
                                published: (
                                    max_int(p.geom.2 as int, 1) as u16,
                                    max_int(p.geom.3 as int, 1) as u16,
                                ),
                                ..c
                            },
                        ),
                        None => None,
                    }
                },
                _ => true,
            },
    {
        broadcast use vstd::std_specs::hash::group_hash_axioms;

        let p: ParentReading = match reading {
            Some(p) => p,
            None => return None,
        };
        let pass = self.work.read_parent(p, shared);
        let (w, h): (u32, u32) = (pass.fill_w as u32, pass.fill_h as u32);
        let mut requests: Vec<Configure> = Vec::new();
        requests.push(Configure { window: self.video_host, x: 0, y: 0, w, h });
        if let Some(window) = self.embed {
            requests.push(Configure { window, x: 0, y: 0, w, h });
        }
        assert(requests@ =~= fills(self.video_host, self.embed, p.geom));
        state.publish_parent(self.work.snap);
        let (width, height) = (self.work.snap.width, self.work.snap.height);
        let ghost order = self.work.order@;
        let ghost snap = self.work.snap;
        let mut overlays: Vec<OverlayTask> = Vec::new();
        let mut i: usize = 0;
        assert(order.take(0) =~= Seq::empty());
        assert(tasks_view(overlays@) =~= seq![]);
        while i < self.work.order.len()
            invariant
                i <= order.len(),
                seen@.len() == order.len(),
                self.work.order@ == order,
                self.work.snap == snap,
                width == snap.width,
                height == snap.height,
                self.work.structures@ == old(self).work.structures@,
                self.work.sync() == old(self).work.sync(),
                self.parent == old(self).parent,
                self.video_host == old(self).video_host,
                self.root == old(self).root,
                self.frame == old(self).frame,
                self.embed == old(self).embed,
                self.parent_mapped == old(self).parent_mapped,
                self.phase == old(self).phase,
                (self.work.fsm@, tasks_view(overlays@)) == overlays_passed(
                    snap,
                    old(self).work.structures@,
                    old(self).parent_mapped,
                    reassert_stack,
                    order.take(i as int),
                    seen@,
                    old(self).work.fsm@,
                ),
            decreases order.len() - i,
        {
            let ghost before = tasks_view(overlays@);
            assert(order.take(i + 1).drop_last() =~= order.take(i as int));
            assert(order.take(i + 1).last() == order[i as int]);
            let id = self.work.order[i];
            let s = seen[i];
            let key: u64 = id.to_handle().id;
            let found: Option<u32> = match self.work.structures.get(&key) {
                Some(w) => Some(*w),
                None => None,
            };
            if let Some(window) = found {
                let watch = s.observed.is_some();
                let asked = self.reconcile_overlay(
                    id,
                    s.observed,
                    s.mapped,
                    s.visible,
                    reassert_stack,
                );
                let ghost tasks = overlays@;
                match asked {
                    Some((_, ops)) => {
                        let resize = Some((width, height));
                        overlays.push(OverlayTask { window, watch, resize, ops });
                    },
                    None => {
                        overlays.push(
                            OverlayTask { window, watch, resize: None, ops: Vec::new() },
                        );
                        assert(overlays@[tasks.len() as int]@.ops =~= seq![]);
                    },
                }
                assert(tasks_view(overlays@) =~= before.push(overlays@[tasks.len() as int]@));
            }
            i += 1;
        }
        assert(order.take(order.len() as int) =~= order);
        let acknowledge = self.work.commit_resize();
        Some(Reconciled { fills: requests, changed: pass.changed, overlays, acknowledge })
    }
}

/// What came of one command.
pub enum CommandDone {
    Nothing,
    /// A window was taken over: its content goes to the surface's record.
    Attached { id: SurfaceId, window: u32 },
    /// Unmap the window, then destroy it.
    DestroyWindow { window: u32 },
    /// Note the visibility in the surface's record.
    Record { id: SurfaceId, visible: bool },
    /// Put each window right above the other.
    Stack(Vec<(u32, u32)>),
}

pub ghost enum CommandDoneView {
    Nothing,
    Attached { id: SurfaceId, window: u32 },
    DestroyWindow { window: u32 },
    Record { id: SurfaceId, visible: bool },
    Stack(Seq<(u32, u32)>),
}

impl View for CommandDone {
    type V = CommandDoneView;

    open spec fn view(&self) -> CommandDoneView {
        match *self {
            CommandDone::Nothing => CommandDoneView::Nothing,
            CommandDone::Attached { id, window } => CommandDoneView::Attached { id, window },
            CommandDone::DestroyWindow { window } => CommandDoneView::DestroyWindow { window },
            CommandDone::Record { id, visible } => CommandDoneView::Record { id, visible },
            CommandDone::Stack(pairs) => CommandDoneView::Stack(pairs@),
        }
    }
}

pub open spec fn dones_view(dones: Seq<CommandDone>) -> Seq<CommandDoneView> {
    Seq::new(dones.len(), |i: int| dones[i]@)
}

/// The overlays as the commands change them.
pub ghost struct WorkView {
    pub structures: Map<u64, u32>,
    pub fsm: Map<u64, OverlayState>,
    pub order: Seq<SurfaceId>,
}

impl View for GeoWork {
    type V = WorkView;

    open spec fn view(&self) -> WorkView {
        WorkView { structures: self.structures@, fsm: self.fsm@, order: self.order@ }
    }
}

/// What one command does. `made` is the window that was made for it, where it
/// asks for one; without a host and a visual there can be none.
pub open spec fn command_applied(
    m: WorkView,
    fullscreen: bool,
    cmd: GeometryCommand,
    made: Option<u32>,
    toplevel: Option<u32>,
    can_create: bool,
) -> (WorkView, CommandDoneView) {
    match cmd {
        GeometryCommand::Create { id } => match made {
            Some(window) => if can_create {
                (
                    WorkView {
                        structures: m.structures.insert(id.bits(), window),
                        fsm: m.fsm.insert(
                            id.bits(),
                            OverlayState { mapped: false, unmanaged: fullscreen },
                        ),
                        order: if contains_id(m.order, id) {
                            m.order
                        } else {
                            m.order.push(id)
                        },
                    },
                    CommandDoneView::Attached { id, window },
                )
            } else {
                (m, CommandDoneView::Nothing)
            },
            None => (m, CommandDoneView::Nothing),
        },
        GeometryCommand::Destroy { id } => (
            WorkView {
                structures: m.structures.remove(id.bits()),
                fsm: m.fsm.remove(id.bits()),
                order: without(m.order, id),
            },
            if m.structures.contains_key(id.bits()) {
                CommandDoneView::DestroyWindow { window: m.structures[id.bits()] }
            } else {
                CommandDoneView::Nothing
            },
        ),
        GeometryCommand::SetVisible { id, visible } => (
            m,
            CommandDoneView::Record { id, visible },
        ),
        GeometryCommand::SetOrder { ids } => {
            let order = completed(owned(ids@, m.structures), m.order);
            (
                WorkView { order, ..m },
                match toplevel {
                    Some(w) => CommandDoneView::Stack(stacking(windows_of(order, m.structures), w)),
                    None => CommandDoneView::Nothing,
                },
            )
        },
    }
}

/// What a run of commands does, one after the other.
pub open spec fn commands_applied(
    m: WorkView,
    fullscreen: bool,
    cmds: Seq<GeometryCommand>,
    made: Seq<Option<u32>>,
    toplevel: Option<u32>,
    can_create: bool,
) -> (WorkView, Seq<CommandDoneView>)
    decreases cmds.len(),
{
    if cmds.len() == 0 {
        (m, seq![])
    } else {
        let (before, dones) = commands_applied(
            m,
            fullscreen,
            cmds.drop_last(),
            made,
            toplevel,
            can_create,
        );
        let (after, done) = command_applied(
            before,
            fullscreen,
            cmds.last(),
            made[cmds.len() - 1],
            toplevel,
            can_create,
        );
        (after, dones.push(done))
    }
}

pub open spec fn toplevel_of(host: Option<HostServices>) -> Option<u32> {
    match host {
        Some(h) => Some(h.toplevel),
        None => None,
    }
}

impl GeoWork {
    /// Applies drained commands, one after the other, and publishes the overlay
    /// windows there are then. `made` says of each command which window was made
    /// for it, at [`GeoWork::birth`], where it asks for one. Without commands
    /// nothing changes. Returns what comes of each.
    pub fn process_commands(
        &mut self,
        state: &mut X11State,
        cmds: &Vec<GeometryCommand>,
        made: &Vec<Option<u32>>,
    ) -> (r: Vec<CommandDone>)
        requires
            old(self).wf(),
            made@.len() == cmds@.len(),
        ensures
            final(self).wf(),
            final(self).snap == old(self).snap,
            final(self).sync() == old(self).sync(),
            (final(self)@, dones_view(r@)) == commands_applied(
                old(self)@,
                old(self).snap.fullscreen,
                cmds@,
                made@,
                toplevel_of(old(state).host),
                old(state).host is Some && old(state).paint is Some,
            ),
            final(state).host == old(state).host,
            final(state).paint == old(state).paint,
            final(state).parent == old(state).parent,
            final(state).windows@ == (if cmds@.len() == 0 {
                old(state).windows@
            } else {
                windows_of(final(self).order@, final(self).structures@)
            }),
    {
        let can_create = state.host.is_some() && state.paint.is_some();
        let toplevel: Option<u32> = match &state.host {
            Some(h) => Some(h.toplevel),
            None => None,
        };
        let mut r: Vec<CommandDone> = Vec::new();
        let mut i: usize = 0;
        assert(cmds@.take(0) =~= Seq::empty());
        assert(dones_view(r@) =~= seq![]);
        while i < cmds.len()
            invariant
                i <= cmds@.len(),
                made@.len() == cmds@.len(),
                self.wf(),
                self.snap == old(self).snap,
                self.sync() == old(self).sync(),
                (self@, dones_view(r@)) == commands_applied(
                    old(self)@,
                    old(self).snap.fullscreen,
                    cmds@.take(i as int),
                    made@,
                    toplevel,
                    can_create,
                ),
            decreases cmds@.len() - i,
        {
            let ghost before = self@;
            let ghost dones = dones_view(r@);
            assert(cmds@.take(i + 1).drop_last() =~= cmds@.take(i as int));
            assert(cmds@.take(i + 1).last() == cmds@[i as int]);
            let done = match self.apply_command(&cmds[i], toplevel, can_create) {
                CommandAsk::Nothing => CommandDone::Nothing,
                CommandAsk::CreateWindow { id, .. } => match made[i] {
                    Some(window) => {
                        self.handle_create(id, window);
                        CommandDone::Attached { id, window }
                    },
                    None => CommandDone::Nothing,
                },
                CommandAsk::DestroyWindow { window } => CommandDone::DestroyWindow { window },
                CommandAsk::Record { id, visible } => CommandDone::Record { id, visible },
                CommandAsk::Stack(pairs) => CommandDone::Stack(pairs),
            };
            assert((self@, done@) == command_applied(
                before,
                old(self).snap.fullscreen,
                cmds@[i as int],
                made@[i as int],
                toplevel,
                can_create,
            ));
            r.push(done);
            assert(dones_view(r@) =~= dones.push(done@));
            i += 1;
        }
        assert(cmds@.take(cmds@.len() as int) =~= cmds@);
        if cmds.len() > 0 {
            let windows = self.publish_windows();
            state.publish_overlay_windows(windows);
        }
        r
    }
}

impl GeoLoop {
    /// The queue was drained: its commands are applied, and the next settling
    /// reasserts the stack, whether or not there were any.
    pub fn on_resync(
        &mut self,
        state: &mut X11State,
        cmds: &Vec<GeometryCommand>,
        made: &Vec<Option<u32>>,
    ) -> (r: Vec<CommandDone>)
        requires
            old(self).work.wf(),
            made@.len() == cmds@.len(),
        ensures
            final(self).work.wf(),
            final(self).work.snap == old(self).work.snap,
            final(self).work.sync() == old(self).work.sync(),
            (final(self).work@, dones_view(r@)) == commands_applied(
                old(self).work@,
                old(self).work.snap.fullscreen,
                cmds@,
                made@,
                toplevel_of(old(state).host),
                old(state).host is Some && old(state).paint is Some,
            ),
            final(self).phase == raised(old(self).phase, Pending::Restack),
            final(self).parent == old(self).parent,
            final(self).video_host == old(self).video_host,
            final(self).root == old(self).root,
            final(self).frame == old(self).frame,
            final(self).embed == old(self).embed,
            final(self).parent_mapped == old(self).parent_mapped,
            final(state).host == old(state).host,
            final(state).paint == old(state).paint,
            final(state).parent == old(state).parent,
            final(state).windows@ == (if cmds@.len() == 0 {
                old(state).windows@
            } else {
                windows_of(final(self).work.order@, final(self).work.structures@)
            }),
    {
        let r = self.work.process_commands(state, cmds, made);
        self.raise_to(Pending::Restack);
        r
    }
}

/// The event mask bit for exposures.
pub const EXPOSURE: u32 = 0x8000;

/// The request that makes an overlay window. It stands beside the top-level, not
/// in it: siblings inside a window do not blend over the video.
#[derive(Clone, Copy, PartialEq, Eq, Structural, Debug)]
pub struct OverlayCreate {
    pub window: u32,
    pub parent: u32,
    pub depth: u8,
    pub visual: u32,
    pub colormap: u32,
    pub x: i16,
    pub y: i16,
    pub w: u16,
    pub h: u16,
    pub border_width: u16,
    pub background_pixel: u32,
    pub border_pixel: u32,
    pub override_redirect: bool,
    pub event_mask: u32,
}

/// The request for an overlay window: a child of the root in the translucent
/// visual, empty and borderless, at its birth rect.
pub open spec fn overlay_created(
    host: HostServices,
    paint: PaintServices,
    birth: Birth,
    window: u32,
) -> OverlayCreate {
    OverlayCreate {
        window,
        parent: host.root,
        depth: paint.argb_depth,
        visual: paint.argb_visual,
        colormap: paint.colormap,
        x: birth.x as i16,
        y: birth.y as i16,
        w: birth.w as u16,
        h: birth.h as u16,
        border_width: 0,
        background_pixel: 0,
        border_pixel: 0,
        override_redirect: birth.override_redirect,
        event_mask: EXPOSURE,
    }
}

/// Makes an overlay window: the request that creates it, then its properties.
/// `None` where no window id was to be had.
pub fn create_overlay_window(
    host: &HostServices,
    paint: &PaintServices,
    birth: Birth,
    window: Option<u32>,
) -> (r: Option<(OverlayCreate, Vec<PropertyWrite>)>)
    ensures
        match (window, r) {
            (Some(w), Some(made)) => {
                &&& made.0 == overlay_created(*host, *paint, birth, w)
                &&& made.1@.len() == overlay_described(*host).len()
                &&& forall|i: int|
                    0 <= i < made.1@.len() ==> (#[trigger] made.1@[i])@ == overlay_described(
                        *host,
                    )[i]
            },
            (None, None) => true,
            _ => false,
        },
{
    match window {
        Some(window) => {
            let request = OverlayCreate {
                window,
                parent: host.root,
                depth: paint.argb_depth,
                visual: paint.argb_visual,
                colormap: paint.colormap,
                x: birth.x as i16,
                y: birth.y as i16,
                w: birth.w as u16,
                h: birth.h as u16,
                border_width: 0,
                background_pixel: 0,
                border_pixel: 0,
                override_redirect: birth.override_redirect,
                event_mask: EXPOSURE,
            };
            Some((request, overlay_properties(host)))
        },
        None => None,
    }
}

} // verus!
