//! X11 geometry: the sole writer of all overlay and video-host structure. It
//! consumes the [`GeometryCommand`] queue, sizes the overlays and the video host
//! from one reading of the parent, and publishes that reading.

use std::collections::HashMap;
use vstd::prelude::*;

use crate::abi::max_i32;
use crate::abi::max_int;
use crate::x11::mpv_proxy::publish_host_geometry;
use crate::x11::mpv_proxy::EmbedContext;
use crate::x11::mpv_proxy::SharedEmbed;
use crate::x11::overlay_fsm::emitted;
use crate::x11::overlay_fsm::step;
use crate::x11::overlay_fsm::stepped;
use crate::x11::overlay_fsm::Effect;
use crate::x11::overlay_fsm::Geom;
use crate::x11::overlay_fsm::Inputs;
use crate::x11::overlay_fsm::OverlayState;
use crate::x11::registry::request_resync;
use crate::x11::registry::GeometryCommand;
use crate::x11::registry::GeometryQueue;
use crate::x11::registry::SurfaceId;
use crate::x11::scale::UNSCALED_HALVES;
use crate::x11::x11_state::Atoms;
use crate::x11::x11_state::HostServices;
use crate::x11::x11_state::ParentSnapshot;

verus! {

/// The predefined `RESOURCE_MANAGER` atom.
pub const RESOURCE_MANAGER: u32 = 23;

/// The geometry thread's working state.
pub struct GeoWork {
    pub snap: ParentSnapshot,
    /// Overlay windows, by surface.
    pub structures: HashMap<u64, u32>,
    pub fsm: HashMap<u64, OverlayState>,
    /// Bottom-to-top overlay z-order.
    pub order: Vec<SurfaceId>,
    /// The resize-sync counter, or 0 when the protocol was not advertised.
    pub sync_counter: u32,
    pub sync_pending: Option<(i32, u32)>,
    pub sync_armed: bool,
}

/// Where a new overlay window is created, and whether unmanaged: only when born
/// into fullscreen, where the WM would otherwise strut-clamp it.
#[derive(Clone, Copy, PartialEq, Eq, Structural, Debug)]
pub struct Birth {
    pub x: i32,
    pub y: i32,
    pub w: i32,
    pub h: i32,
    pub override_redirect: bool,
}

/// What a command asks for beyond the thread's own state.
pub enum CommandAsk {
    Nothing,
    /// Create the window, then hand it to [`GeoWork::handle_create`].
    CreateWindow { id: SurfaceId, birth: Birth },
    /// Unmap the window, then destroy it.
    DestroyWindow { window: u32 },
    /// Note the visibility in the surface's record.
    Record { id: SurfaceId, visible: bool },
    /// Put each window right above the other.
    Stack(Vec<(u32, u32)>),
}

pub open spec fn contains_id(ids: Seq<SurfaceId>, id: SurfaceId) -> bool {
    exists|i: int| 0 <= i < ids.len() && #[trigger] ids[i] == id
}

/// The ids with a window, in order.
pub open spec fn owned(ids: Seq<SurfaceId>, structures: Map<u64, u32>) -> Seq<SurfaceId>
    decreases ids.len(),
{
    if ids.len() == 0 {
        Seq::empty()
    } else {
        let before = owned(ids.drop_last(), structures);
        if structures.contains_key(ids.last().bits()) {
            before.push(ids.last())
        } else {
            before
        }
    }
}

/// `base`, followed by what it lacks of `rest`.
pub open spec fn completed(base: Seq<SurfaceId>, rest: Seq<SurfaceId>) -> Seq<SurfaceId>
    decreases rest.len(),
{
    if rest.len() == 0 {
        base
    } else {
        let before = completed(base, rest.drop_last());
        if contains_id(before, rest.last()) {
            before
        } else {
            before.push(rest.last())
        }
    }
}

/// The ids without one.
pub open spec fn without(ids: Seq<SurfaceId>, id: SurfaceId) -> Seq<SurfaceId>
    decreases ids.len(),
{
    if ids.len() == 0 {
        Seq::empty()
    } else {
        let before = without(ids.drop_last(), id);
        if ids.last() == id {
            before
        } else {
            before.push(ids.last())
        }
    }
}

/// The windows of the ids that have one, in order.
pub open spec fn windows_of(order: Seq<SurfaceId>, structures: Map<u64, u32>) -> Seq<u32>
    decreases order.len(),
{
    if order.len() == 0 {
        Seq::empty()
    } else {
        let before = windows_of(order.drop_last(), structures);
        if structures.contains_key(order.last().bits()) {
            before.push(structures[order.last().bits()])
        } else {
            before
        }
    }
}

/// Each window with the one it goes above, from the top-level up.
pub open spec fn stacking(windows: Seq<u32>, toplevel: u32) -> Seq<(u32, u32)> {
    Seq::new(
        windows.len(),
        |i: int|
            (
                windows[i],
                if i == 0 {
                    toplevel
                } else {
                    windows[i - 1]
                },
            ),
    )
}

fn has_id(ids: &Vec<SurfaceId>, id: SurfaceId) -> (r: bool)
    ensures
        r == contains_id(ids@, id),
{
    let mut i: usize = 0;
    while i < ids.len()
        invariant
            i <= ids@.len(),
            forall|j: int| 0 <= j < i ==> #[trigger] ids@[j] != id,
        decreases ids@.len() - i,
    {
        if ids[i].same(id) {
            return true;
        }
        i += 1;
    }
    false
}

/// What sizing one overlay asks of the server.
#[derive(Clone, Copy, PartialEq, Eq, Structural, Debug)]
pub enum OverlayOp {
    /// Position and size in one request, so the overlay never lands at a
    /// mismatched rect in between.
    PlaceAndSize { x: i32, y: i32, w: i32, h: i32 },
    /// Unmap, then set the attribute.
    SetOverrideRedirect(bool),
    MapWindow,
    /// The passive button grab may not survive a remap.
    GrabInput,
    Raise,
    Unmap,
}

pub open spec fn ops_of(e: Effect, g: Geom) -> Seq<OverlayOp> {
    match e {
        Effect::Place => seq![
            OverlayOp::PlaceAndSize {
                x: g.0,
                y: g.1,
                w: max_int(g.2 as int, 1) as i32,
                h: max_int(g.3 as int, 1) as i32,
            },
        ],
        Effect::SetOverrideRedirect(v) => seq![OverlayOp::SetOverrideRedirect(v)],
        Effect::MapAndRaise => seq![OverlayOp::MapWindow, OverlayOp::GrabInput, OverlayOp::Raise],
        Effect::Unmap => seq![OverlayOp::Unmap],
    }
}

pub open spec fn all_ops(effects: Seq<Effect>, g: Geom) -> Seq<OverlayOp>
    decreases effects.len(),
{
    if effects.len() == 0 {
        Seq::empty()
    } else {
        all_ops(effects.drop_last(), g) + ops_of(effects.last(), g)
    }
}

fn push_ops(e: Effect, g: Geom, ops: &mut Vec<OverlayOp>)
    ensures
        final(ops)@ == old(ops)@ + ops_of(e, g),
{
    let ghost before = ops@;
    match e {
        Effect::Place => ops.push(
            OverlayOp::PlaceAndSize { x: g.0, y: g.1, w: max_i32(g.2, 1), h: max_i32(g.3, 1) },
        ),
        Effect::SetOverrideRedirect(v) => ops.push(OverlayOp::SetOverrideRedirect(v)),
        Effect::MapAndRaise => {
            ops.push(OverlayOp::MapWindow);
            ops.push(OverlayOp::GrabInput);
            ops.push(OverlayOp::Raise);
        },
        Effect::Unmap => ops.push(OverlayOp::Unmap),
    }
    assert(ops@ =~= before + ops_of(e, g));
}

/// One reading of the parent.
#[derive(Clone, Copy, PartialEq, Eq, Debug)]
pub struct ParentReading {
    pub geom: Geom,
    /// From the window's state property.
    pub fullscreen: bool,
    pub maximized: bool,
    /// Extent of the root window, where it could be had.
    pub root_size: Option<(i32, i32)>,
}

/// What a reading makes of the parent: the host's size, and whether anybody
/// has to be told.
#[derive(Clone, Copy, PartialEq, Eq, Structural, Debug)]
pub struct ParentPass {
    pub fill_w: i32,
    pub fill_h: i32,
    pub changed: bool,
}

pub open spec fn covers_root(geom: Geom, root_size: Option<(i32, i32)>) -> bool {
    root_size matches Some(r) && geom.2 >= r.0 && geom.3 >= r.1
}

/// A window as large as the root counts as fullscreen.
pub fn geometric_fullscreen(geom: Geom, root_size: Option<(i32, i32)>) -> (r: bool)
    ensures
        r == covers_root(geom, root_size),
{
    match root_size {
        Some((w, h)) => geom.2 >= w && geom.3 >= h,
        None => false,
    }
}

pub open spec fn read_snapshot(before: ParentSnapshot, r: ParentReading) -> ParentSnapshot {
    ParentSnapshot {
        origin_x: r.geom.0,
        origin_y: r.geom.1,
        width: r.geom.2,
        height: r.geom.3,
        fullscreen: r.fullscreen || covers_root(r.geom, r.root_size),
        maximized: r.maximized,
        scale_halves: before.scale_halves,
    }
}

/// What the machine of one overlay starts from.
pub open spec fn machine_of(fsm: Map<u64, OverlayState>, id: SurfaceId, fullscreen: bool) -> OverlayState {
    if fsm.contains_key(id.bits()) {
        fsm[id.bits()]
    } else {
        OverlayState { mapped: false, unmanaged: fullscreen }
    }
}

/// What a pass makes of one overlay: its state after, and what is asked of the
/// server. `reassert_stack` re-raises an unmanaged overlay after events that can
/// restack the parent.
pub open spec fn pass_of(
    snap: ParentSnapshot,
    fsm: Map<u64, OverlayState>,
    id: SurfaceId,
    observed: Option<Geom>,
    observed_mapped: Option<bool>,
    want_visible: bool,
    reassert_stack: bool,
) -> (OverlayState, Seq<OverlayOp>) {
    let inputs = Inputs {
        parent_geom: (snap.origin_x, snap.origin_y, snap.width, snap.height),
        parent_fullscreen: snap.fullscreen,
        want_visible,
        observed,
        observed_mapped,
    };
    let after = stepped(inputs);
    (
        after,
        all_ops(emitted(machine_of(fsm, id, snap.fullscreen), inputs), inputs.parent_geom) + (
        if reassert_stack && after.unmanaged && after.mapped {
            seq![OverlayOp::Raise]
        } else {
            seq![]
        }),
    )
}

impl GeoWork {
    /// The surfaces in order are exactly those with a window.
    pub open spec fn wf(&self) -> bool {
        &&& all_have_windows(self.order@, self.structures@)
        &&& all_in_order(self.order@, self.structures@)
    }

    /// The resize handshake.
    pub open spec fn sync(&self) -> SyncState {
        SyncState {
            counter: self.sync_counter,
            pending: self.sync_pending,
            armed: self.sync_armed,
        }
    }

    pub fn new(snap: ParentSnapshot, sync_counter: u32) -> (w: GeoWork)
        ensures
            w.wf(),
            w.snap == snap,
            w.structures@ == Map::<u64, u32>::empty(),
            w.fsm@ == Map::<u64, OverlayState>::empty(),
            w.order@.len() == 0,
            w.sync_counter == sync_counter,
            w.sync_pending is None,
            !w.sync_armed,
    {
        GeoWork {
            snap,
            structures: HashMap::new(),
            fsm: HashMap::new(),
            order: Vec::new(),
            sync_counter,
            sync_pending: None,
            sync_armed: false,
        }
    }

    /// A resize the WM wants acknowledged. Not armed until its configure comes.
    pub fn latch_sync(&mut self, hi: i32, lo: u32)
        ensures
            final(self).snap == old(self).snap,
            final(self).structures@ == old(self).structures@,
            final(self).fsm@ == old(self).fsm@,
            final(self).order@ == old(self).order@,
            final(self).sync_counter == old(self).sync_counter,
            old(self).sync_counter == 0 ==> final(self).sync_pending == old(self).sync_pending
                && final(self).sync_armed == old(self).sync_armed,
            old(self).sync_counter != 0 ==> final(self).sync_pending == Some((hi, lo))
                && !final(self).sync_armed,
    {
        if self.sync_counter == 0 {
            return ;
        }
        self.sync_pending = Some((hi, lo));
        self.sync_armed = false;
    }

    /// The counter value to write once the configures of this resize are on the
    /// wire: it tells the WM that they are done, so it must be queued behind
    /// them.
    pub fn commit_resize(&mut self) -> (r: Option<(i32, u32)>)
        ensures
            final(self).snap == old(self).snap,
            final(self).structures@ == old(self).structures@,
            final(self).fsm@ == old(self).fsm@,
            final(self).order@ == old(self).order@,
            (r, final(self).sync()) == old(self).sync().committed(),
    {
        if !self.sync_armed {
            return None;
        }
        self.sync_pending.take()
    }

    /// The live overlay windows, bottom to top.
    pub fn publish_windows(&self) -> (r: Vec<u32>)
        ensures
            r@ == windows_of(self.order@, self.structures@),
    {
        broadcast use vstd::std_specs::hash::group_hash_axioms;

        let mut r: Vec<u32> = Vec::new();
        let mut i: usize = 0;
        assert(self.order@.take(0) =~= Seq::empty());
        while i < self.order.len()
            invariant
                i <= self.order@.len(),
                r@ == windows_of(self.order@.take(i as int), self.structures@),
            decreases self.order@.len() - i,
        {
            assert(self.order@.take(i + 1).drop_last() =~= self.order@.take(i as int));
            let id: u64 = self.order[i].to_handle().id;
            if let Some(w) = self.structures.get(&id) {
                r.push(*w);
            }
            i += 1;
        }
        assert(self.order@.take(self.order@.len() as int) =~= self.order@);
        r
    }

    pub open spec fn spec_birth(&self) -> Birth {
        Birth {
            x: self.snap.origin_x,
            y: self.snap.origin_y,
            w: max_int(self.snap.width as int, 1) as i32,
            h: max_int(self.snap.height as int, 1) as i32,
            override_redirect: self.snap.fullscreen,
        }
    }

    /// Where the window of a new overlay is created.
    pub fn birth(&self) -> (b: Birth)
        ensures
            b == self.spec_birth(),
    {
        Birth {
            x: self.snap.origin_x,
            y: self.snap.origin_y,
            w: max_i32(self.snap.width, 1),
            h: max_i32(self.snap.height, 1),
            override_redirect: self.snap.fullscreen,
        }
    }

    /// Takes over a newly created overlay window. Born unmapped: the next
    /// reconcile maps it.
    pub fn handle_create(&mut self, id: SurfaceId, window: u32)
        requires
            old(self).wf(),
        ensures
            final(self).wf(),
            final(self).snap == old(self).snap,
            final(self).sync_counter == old(self).sync_counter,
            final(self).sync_pending == old(self).sync_pending,
            final(self).sync_armed == old(self).sync_armed,
            final(self).structures@ == old(self).structures@.insert(id.bits(), window),
            final(self).fsm@ == old(self).fsm@.insert(
                id.bits(),
                OverlayState { mapped: false, unmanaged: old(self).snap.fullscreen },
            ),
            final(self).order@ == (if contains_id(old(self).order@, id) {
                old(self).order@
            } else {
                old(self).order@.push(id)
            }),
    {
        broadcast use vstd::std_specs::hash::group_hash_axioms;

        let key: u64 = id.to_handle().id;
        self.structures.insert(key, window);
        self.fsm.insert(
            key,
            OverlayState { mapped: false, unmanaged: self.snap.fullscreen },
        );
        let ghost before = self.order@;
        if !has_id(&self.order, id) {
            self.order.push(id);
        }
        proof {
            assert forall|k: u64| #[trigger] self.structures@.contains_key(k) implies has_bits(
                self.order@,
                k,
            ) by {
                if k == id.bits() {
                    if contains_id(before, id) {
                        let i = choose|i: int| 0 <= i < before.len() && before[i] == id;
                        assert(self.order@[i].bits() == k);
                    } else {
                        assert(self.order@[before.len() as int].bits() == k);
                    }
                } else {
                    assert(old(self).structures@.contains_key(k));
                    let i = choose|i: int| 0 <= i < before.len() && before[i].bits() == k;
                    assert(self.order@[i].bits() == k);
                }
            }
        }
    }

    /// Forgets an overlay. Returns the window to unmap and destroy.
    pub fn handle_destroy(&mut self, id: SurfaceId) -> (r: Option<u32>)
        requires
            old(self).wf(),
        ensures
            final(self).wf(),
            final(self).snap == old(self).snap,
            final(self).sync_counter == old(self).sync_counter,
            final(self).sync_pending == old(self).sync_pending,
            final(self).sync_armed == old(self).sync_armed,
            final(self).structures@ == old(self).structures@.remove(id.bits()),
            final(self).fsm@ == old(self).fsm@.remove(id.bits()),
            final(self).order@ == without(old(self).order@, id),
            r == (if old(self).structures@.contains_key(id.bits()) {
                Some(old(self).structures@[id.bits()])
            } else {
                None
            }),
    {
        broadcast use vstd::std_specs::hash::group_hash_axioms;

        let key: u64 = id.to_handle().id;
        let ghost before = self.order@;
        let mut kept: Vec<SurfaceId> = Vec::new();
        let mut i: usize = 0;
        assert(before.take(0) =~= Seq::empty());
        while i < self.order.len()
            invariant
                i <= before.len(),
                self.order@ == before,
                self.structures@ == old(self).structures@,
                self.fsm@ == old(self).fsm@,
                self.snap == old(self).snap,
                self.sync_counter == old(self).sync_counter,
                self.sync_pending == old(self).sync_pending,
                self.sync_armed == old(self).sync_armed,
                kept@ == without(before.take(i as int), id),
            decreases before.len() - i,
        {
            assert(before.take(i + 1).drop_last() =~= before.take(i as int));
            if !self.order[i].same(id) {
                kept.push(self.order[i]);
            }
            i += 1;
        }
        assert(before.take(before.len() as int) =~= before);
        self.order = kept;
        self.fsm.remove(&key);
        let r = self.structures.remove(&key);
        proof {
            without_keeps_others(before, id);
            assert forall|j: int| 0 <= j < self.order@.len() implies self.structures@.contains_key(
                (#[trigger] self.order@[j]).bits(),
            ) by {
                let k = choose|k: int| 0 <= k < before.len() && before[k] == self.order@[j];
                assert(old(self).structures@.contains_key(before[k].bits()));
                crate::x11::registry::surface_id_ext(self.order@[j], id);
            }
            assert forall|k: u64| #[trigger] self.structures@.contains_key(k) implies has_bits(
                self.order@,
                k,
            ) by {
                assert(old(self).structures@.contains_key(k));
                let i = choose|i: int| 0 <= i < before.len() && before[i].bits() == k;
                without_keeps_one(before, id, i);
            }
        }
        r
    }

    /// A new z-order, bottom to top: the surfaces named, as far as they have a
    /// window, then those left out. Returns each window with the one it goes
    /// above. This is made once per reorder, not on every reconcile, which would
    /// answer our own notifications.
    pub fn handle_set_order(&mut self, ids: &Vec<SurfaceId>, toplevel: u32) -> (r: Vec<(u32, u32)>)
        requires
            old(self).wf(),
        ensures
            final(self).wf(),
            final(self).snap == old(self).snap,
            final(self).structures@ == old(self).structures@,
            final(self).fsm@ == old(self).fsm@,
            final(self).sync_counter == old(self).sync_counter,
            final(self).sync_pending == old(self).sync_pending,
            final(self).sync_armed == old(self).sync_armed,
            final(self).order@ == completed(
                owned(ids@, old(self).structures@),
                old(self).order@,
            ),
            r@ == stacking(windows_of(final(self).order@, final(self).structures@), toplevel),
    {
        broadcast use vstd::std_specs::hash::group_hash_axioms;

        let mut order: Vec<SurfaceId> = Vec::new();
        let mut i: usize = 0;
        assert(ids@.take(0) =~= Seq::empty());
        while i < ids.len()
            invariant
                i <= ids@.len(),
                *self == *old(self),
                order@ == owned(ids@.take(i as int), self.structures@),
            decreases ids@.len() - i,
        {
            assert(ids@.take(i + 1).drop_last() =~= ids@.take(i as int));
            let key: u64 = ids[i].to_handle().id;
            if self.structures.contains_key(&key) {
                order.push(ids[i]);
            }
            i += 1;
        }
        assert(ids@.take(ids@.len() as int) =~= ids@);
        let ghost base = order@;
        let mut j: usize = 0;
        assert(self.order@.take(0) =~= Seq::empty());
        while j < self.order.len()
            invariant
                j <= self.order@.len(),
                *self == *old(self),
                order@ == completed(base, self.order@.take(j as int)),
            decreases self.order@.len() - j,
        {
            assert(self.order@.take(j + 1).drop_last() =~= self.order@.take(j as int));
            if !has_id(&order, self.order[j]) {
                order.push(self.order[j]);
            }
            j += 1;
        }
        assert(self.order@.take(self.order@.len() as int) =~= self.order@);
        proof {
            owned_have_windows(ids@, self.structures@);
            completed_have_windows(base, self.order@, self.structures@);
            assert forall|k: u64| #[trigger] self.structures@.contains_key(k) implies has_bits(
                order@,
                k,
            ) by {
                let i = choose|i: int| 0 <= i < self.order@.len() && self.order@[i].bits() == k;
                reorder_loses_no_surface(ids@, self.order@, self.structures@, i);
                let j = choose|j: int| 0 <= j < order@.len() && order@[j] == self.order@[i];
                assert(order@[j].bits() == k);
            }
        }
        self.order = order;
        let windows = self.publish_windows();
        let mut r: Vec<(u32, u32)> = Vec::new();
        let mut k: usize = 0;
        while k < windows.len()
            invariant
                k <= windows@.len(),
                r@ =~= stacking(windows@.take(k as int), toplevel),
            decreases windows@.len() - k,
        {
            let below: u32 = if k == 0 {
                toplevel
            } else {
                windows[k - 1]
            };
            r.push((windows[k], below));
            k += 1;
        }
        assert(windows@.take(windows@.len() as int) =~= windows@);
        r
    }

    /// Takes one command. `toplevel` is the app's window once it exists;
    /// `can_create` says that overlay windows can be made.
    pub fn apply_command(
        &mut self,
        cmd: &GeometryCommand,
        toplevel: Option<u32>,
        can_create: bool,
    ) -> (ask: CommandAsk)
        requires
            old(self).wf(),
        ensures
            final(self).wf(),
            final(self).snap == old(self).snap,
            final(self).sync() == old(self).sync(),
            match *cmd {
                GeometryCommand::Create { id } => {
                    &&& final(self).unmoved(*old(self))
                    &&& ask == (if can_create {
                        CommandAsk::CreateWindow { id, birth: old(self).spec_birth() }
                    } else {
                        CommandAsk::Nothing
                    })
                },
                GeometryCommand::Destroy { id } => {
                    &&& final(self).structures@ == old(self).structures@.remove(id.bits())
                    &&& final(self).fsm@ == old(self).fsm@.remove(id.bits())
                    &&& final(self).order@ == without(old(self).order@, id)
                    &&& ask == (if old(self).structures@.contains_key(id.bits()) {
                        CommandAsk::DestroyWindow { window: old(self).structures@[id.bits()] }
                    } else {
                        CommandAsk::Nothing
                    })
                },
                GeometryCommand::SetVisible { id, visible } => {
                    &&& final(self).unmoved(*old(self))
                    &&& ask == (CommandAsk::Record { id, visible })
                },
                GeometryCommand::SetOrder { ids } => {
                    &&& final(self).structures@ == old(self).structures@
                    &&& final(self).fsm@ == old(self).fsm@
                    &&& final(self).order@ == completed(
                        owned(ids@, old(self).structures@),
                        old(self).order@,
                    )
                    &&& match toplevel {
                        Some(w) => ask matches CommandAsk::Stack(r) && r@ == stacking(
                            windows_of(final(self).order@, final(self).structures@),
                            w,
                        ),
                        None => ask == CommandAsk::Nothing,
                    }
                },
            },
    {
        match cmd {
            GeometryCommand::Create { id } => if can_create {
                CommandAsk::CreateWindow { id: *id, birth: self.birth() }
            } else {
                CommandAsk::Nothing
            },
            GeometryCommand::Destroy { id } => match self.handle_destroy(*id) {
                Some(window) => CommandAsk::DestroyWindow { window },
                None => CommandAsk::Nothing,
            },
            GeometryCommand::SetVisible { id, visible } => CommandAsk::Record {
                id: *id,
                visible: *visible,
            },
            GeometryCommand::SetOrder { ids } => match toplevel {
                Some(w) => CommandAsk::Stack(self.handle_set_order(ids, w)),
                None => {
                    let _unused = self.handle_set_order(ids, 0);
                    CommandAsk::Nothing
                },
            },
        }
    }

    /// Windows, machines and order are as before.
    pub open spec fn unmoved(&self, before: GeoWork) -> bool {
        &&& self.structures@ == before.structures@
        &&& self.fsm@ == before.fsm@
        &&& self.order@ == before.order@
    }

    /// Takes over one reading of the parent. The video host's new size is
    /// published before the request that applies it can reach the server.
    pub fn read_parent(&mut self, reading: ParentReading, embed: &mut SharedEmbed) -> (pass:
        ParentPass)
        requires
            0 <= reading.geom.2 <= u16::MAX,
            0 <= reading.geom.3 <= u16::MAX,
        ensures
            final(self).snap == read_snapshot(old(self).snap, reading),
            final(self).structures@ == old(self).structures@,
            final(self).fsm@ == old(self).fsm@,
            final(self).order@ == old(self).order@,
            final(self).sync_counter == old(self).sync_counter,
            final(self).sync_pending == old(self).sync_pending,
            final(self).sync_armed == old(self).sync_armed,
            pass.fill_w == max_int(reading.geom.2 as int, 1),
            pass.fill_h == max_int(reading.geom.3 as int, 1),
            pass.changed == (final(self).snap != old(self).snap),
            final(embed).embed_window == old(embed).embed_window,
            final(embed).ctx == match old(embed).ctx {
                Some(c) => Some(
                    EmbedContext { published: (pass.fill_w as u16, pass.fill_h as u16), ..c },
                ),
                None => None,
            },
    {
        let g = reading.geom;
        let fullscreen = reading.fullscreen || geometric_fullscreen(g, reading.root_size);
        let fill_w: i32 = max_i32(g.2, 1);
        let fill_h: i32 = max_i32(g.3, 1);
        publish_host_geometry(embed, fill_w as u16, fill_h as u16);
        let snap = ParentSnapshot {
            origin_x: g.0,
            origin_y: g.1,
            width: g.2,
            height: g.3,
            fullscreen,
            maximized: reading.maximized,
            scale_halves: self.snap.scale_halves,
        };
        let changed = snap != self.snap;
        self.snap = snap;
        ParentPass { fill_w, fill_h, changed }
    }

    /// What a pass makes of one overlay; see [`pass_of`].
    pub open spec fn overlay_pass(
        &self,
        id: SurfaceId,
        observed: Option<Geom>,
        observed_mapped: Option<bool>,
        want_visible: bool,
        reassert_stack: bool,
    ) -> (OverlayState, Seq<OverlayOp>) {
        pass_of(
            self.snap,
            self.fsm@,
            id,
            observed,
            observed_mapped,
            want_visible,
            reassert_stack,
        )
    }

    /// Brings one overlay in line with the parent.
    pub fn reconcile_overlay(
        &mut self,
        id: SurfaceId,
        observed: Option<Geom>,
        observed_mapped: Option<bool>,
        want_visible: bool,
        reassert_stack: bool,
    ) -> (ops: Vec<OverlayOp>)
        ensures
            final(self).snap == old(self).snap,
            final(self).structures@ == old(self).structures@,
            final(self).order@ == old(self).order@,
            final(self).sync() == old(self).sync(),
            ({
                let pass = old(self).overlay_pass(
                    id,
                    observed,
                    observed_mapped,
                    want_visible,
                    reassert_stack,
                );
                &&& final(self).fsm@ == old(self).fsm@.insert(id.bits(), pass.0)
                &&& ops@ == pass.1
            }),
    {
        broadcast use vstd::std_specs::hash::group_hash_axioms;

        let key: u64 = id.to_handle().id;
        let mut state: OverlayState = match self.fsm.get(&key) {
            Some(s) => *s,
            None => OverlayState { mapped: false, unmanaged: self.snap.fullscreen },
        };
        let geom: Geom = (
            self.snap.origin_x,
            self.snap.origin_y,
            self.snap.width,
            self.snap.height,
        );
        let inputs = Inputs {
            parent_geom: geom,
            parent_fullscreen: self.snap.fullscreen,
            want_visible,
            observed,
            observed_mapped,
        };
        let effects = step(&mut state, &inputs);
        let mut ops: Vec<OverlayOp> = Vec::new();
        let mut i: usize = 0;
        assert(effects@.take(0) =~= Seq::empty());
        while i < effects.len()
            invariant
                i <= effects@.len(),
                ops@ == all_ops(effects@.take(i as int), geom),
            decreases effects@.len() - i,
        {
            assert(effects@.take(i + 1).drop_last() =~= effects@.take(i as int));
            push_ops(effects[i], geom, &mut ops);
            i += 1;
        }
        assert(effects@.take(effects@.len() as int) =~= effects@);
        let ghost base = ops@;
        if reassert_stack && state.unmanaged && state.mapped {
            ops.push(OverlayOp::Raise);
        }
        assert(ops@ =~= base + (if reassert_stack && state.unmanaged && state.mapped {
            seq![OverlayOp::Raise]
        } else {
            seq![]
        }));
        self.fsm.insert(key, state);
        ops
    }

    /// A new display scale. Returns whether anything changed.
    pub fn refresh_display_scale(&mut self, scale_halves: i32) -> (changed: bool)
        ensures
            changed == (old(self).snap.scale_halves != scale_halves),
            final(self).snap == (ParentSnapshot { scale_halves, ..old(self).snap }),
            final(self).structures@ == old(self).structures@,
            final(self).fsm@ == old(self).fsm@,
            final(self).order@ == old(self).order@,
            final(self).sync_counter == old(self).sync_counter,
            final(self).sync_pending == old(self).sync_pending,
            final(self).sync_armed == old(self).sync_armed,
    {
        let changed = self.snap.scale_halves != scale_halves;
        self.snap.scale_halves = scale_halves;
        changed
    }
}

proof fn without_keeps_others(ids: Seq<SurfaceId>, id: SurfaceId)
    ensures
        forall|j: int|
            0 <= j < without(ids, id).len() ==> (#[trigger] without(ids, id)[j]) != id && exists|
                k: int,
            |
                0 <= k < ids.len() && ids[k] == without(ids, id)[j],
    decreases ids.len(),
{
    if ids.len() > 0 {
        let front = ids.drop_last();
        without_keeps_others(front, id);
        let w = without(ids, id);
        let before = without(front, id);
        assert forall|j: int| 0 <= j < w.len() implies (#[trigger] w[j]) != id && exists|k: int|
            0 <= k < ids.len() && ids[k] == w[j] by {
            if j < before.len() {
                assert(w[j] == before[j]);
                let k = choose|k: int| 0 <= k < front.len() && front[k] == before[j];
                assert(ids[k] == w[j]);
            } else {
                assert(ids[ids.len() - 1] == w[j]);
            }
        }
    }
}

proof fn without_keeps_one(ids: Seq<SurfaceId>, id: SurfaceId, i: int)
    requires
        0 <= i < ids.len(),
        ids[i] != id,
    ensures
        has_bits(without(ids, id), ids[i].bits()),
    decreases ids.len(),
{
    let front = ids.drop_last();
    let before = without(front, id);
    let all = without(ids, id);
    if i < front.len() {
        without_keeps_one(front, id, i);
        let j = choose|j: int| 0 <= j < before.len() && before[j].bits() == front[i].bits();
        assert(all[j].bits() == ids[i].bits());
    } else {
        assert(all[all.len() - 1].bits() == ids[i].bits());
    }
}

pub open spec fn all_in_order(ids: Seq<SurfaceId>, structures: Map<u64, u32>) -> bool {
    forall|key: u64| #[trigger] structures.contains_key(key) ==> has_bits(ids, key)
}

/// Some id has these bits.
pub open spec fn has_bits(ids: Seq<SurfaceId>, key: u64) -> bool {
    exists|i: int| 0 <= i < ids.len() && (#[trigger] ids[i]).bits() == key
}

pub open spec fn all_have_windows(ids: Seq<SurfaceId>, structures: Map<u64, u32>) -> bool {
    forall|i: int| 0 <= i < ids.len() ==> structures.contains_key((#[trigger] ids[i]).bits())
}

proof fn owned_have_windows(ids: Seq<SurfaceId>, structures: Map<u64, u32>)
    ensures
        all_have_windows(owned(ids, structures), structures),
    decreases ids.len(),
{
    if ids.len() > 0 {
        owned_have_windows(ids.drop_last(), structures);
    }
}

proof fn completed_have_windows(
    base: Seq<SurfaceId>,
    rest: Seq<SurfaceId>,
    structures: Map<u64, u32>,
)
    requires
        all_have_windows(base, structures),
        all_have_windows(rest, structures),
    ensures
        all_have_windows(completed(base, rest), structures),
    decreases rest.len(),
{
    if rest.len() > 0 {
        assert(all_have_windows(rest.drop_last(), structures)) by {
            assert forall|i: int| 0 <= i < rest.drop_last().len() implies structures.contains_key(
                (#[trigger] rest.drop_last()[i]).bits(),
            ) by {
                assert(rest[i] == rest.drop_last()[i]);
            }
        }
        completed_have_windows(base, rest.drop_last(), structures);
        assert(structures.contains_key(rest[rest.len() - 1].bits()));
    }
}

/// A reorder loses no surface: whatever was in the order still is, and the
/// surfaces named come first, in the order they were named.
pub proof fn reorder_loses_no_surface(
    ids: Seq<SurfaceId>,
    order: Seq<SurfaceId>,
    structures: Map<u64, u32>,
    i: int,
)
    requires
        0 <= i < order.len(),
    ensures
        contains_id(completed(owned(ids, structures), order), order[i]),
        owned(ids, structures).is_prefix_of(completed(owned(ids, structures), order)),
    decreases order.len(),
{
    let base = owned(ids, structures);
    let front = order.drop_last();
    let before = completed(base, front);
    let all = completed(base, order);
    completed_extends(base, order);
    if i < front.len() {
        reorder_loses_no_surface(ids, front, structures, i);
        assert(front[i] == order[i]);
        let j = choose|j: int| 0 <= j < before.len() && before[j] == order[i];
        assert(all[j] == order[i]);
    } else if !contains_id(before, order[i]) {
        assert(all[all.len() - 1] == order[i]);
    }
}

proof fn completed_extends(base: Seq<SurfaceId>, rest: Seq<SurfaceId>)
    ensures
        base.is_prefix_of(completed(base, rest)),
    decreases rest.len(),
{
    if rest.len() > 0 {
        completed_extends(base, rest.drop_last());
    }
}

/// Every overlay window is among those published, so a thread that ends can
/// unmap them all.
pub proof fn every_window_is_published(
    order: Seq<SurfaceId>,
    structures: Map<u64, u32>,
    key: u64,
)
    requires
        has_bits(order, key),
        structures.contains_key(key),
    ensures
        windows_of(order, structures).contains(structures[key]),
    decreases order.len(),
{
    let i = choose|i: int| 0 <= i < order.len() && (#[trigger] order[i]).bits() == key;
    let front = order.drop_last();
    let before = windows_of(front, structures);
    let all = windows_of(order, structures);
    if i < front.len() {
        assert(front[i].bits() == key);
        every_window_is_published(front, structures, key);
        let j = choose|j: int| 0 <= j < before.len() && before[j] == structures[key];
        assert(all[j] == structures[key]);
    } else {
        assert(all[all.len() - 1] == structures[key]);
    }
}

/// The next window to ask for its parent on the way up to the frame, given the
/// parent of the one before; `None` when that one is the frame. A query that
/// failed ends the search too.
pub fn find_frame_step(parent: Option<u32>, root: u32) -> (r: Option<u32>)
    ensures
        r == match parent {
            Some(p) => if p == 0 || p == root {
                None
            } else {
                Some(p)
            },
            None => None,
        },
{
    match parent {
        Some(p) => if p == 0 || p == root {
            None
        } else {
            Some(p)
        },
        None => None,
    }
}

/// A property of 32-bit values to set on a window.
pub struct PropertyWrite {
    pub property: u32,
    pub type_: u32,
    pub values: Vec<u32>,
}

pub ghost struct PropertyView {
    pub property: u32,
    pub type_: u32,
    pub values: Seq<u32>,
}

impl View for PropertyWrite {
    type V = PropertyView;

    open spec fn view(&self) -> PropertyView {
        PropertyView { property: self.property, type_: self.type_, values: self.values@ }
    }
}

/// The predefined `ATOM` atom.
pub const ATOM: u32 = 4;

/// The predefined `WINDOW` atom.
pub const WINDOW: u32 = 33;

/// The predefined `WM_HINTS` atom.
pub const WM_HINTS: u32 = 35;

/// The predefined `WM_TRANSIENT_FOR` atom.
pub const WM_TRANSIENT_FOR: u32 = 68;

/// What an overlay window tells the WM: it belongs to the top-level, is an
/// ordinary window outside taskbar and pager, has no decorations, takes no focus
/// and wants to be asked before it is closed.
pub open spec fn overlay_described(host: HostServices) -> Seq<PropertyView> {
    seq![
        PropertyView {
            property: WM_TRANSIENT_FOR,
            type_: WINDOW,
            values: seq![host.toplevel],
        },
        PropertyView {
            property: host.atoms.net_wm_window_type,
            type_: ATOM,
            values: seq![host.atoms.net_wm_window_type_normal],
        },
        PropertyView {
            property: host.atoms.net_wm_state,
            type_: ATOM,
            values: seq![
                host.atoms.net_wm_state_skip_taskbar,
                host.atoms.net_wm_state_skip_pager,
            ],
        },
        PropertyView {
            property: host.atoms.motif_wm_hints,
            type_: host.atoms.motif_wm_hints,
            values: seq![2u32, 0, 0, 0, 0],
        },
        PropertyView {
            property: WM_HINTS,
            type_: WM_HINTS,
            values: seq![1u32, 0, 0, 0, 0, 0, 0, 0, 0],
        },
        PropertyView {
            property: host.atoms.wm_protocols,
            type_: ATOM,
            values: seq![host.atoms.wm_delete_window],
        },
    ]
}

/// The properties of a new overlay window.
pub fn overlay_properties(host: &HostServices) -> (r: Vec<PropertyWrite>)
    ensures
        r@.len() == overlay_described(*host).len(),
        forall|i: int| 0 <= i < r@.len() ==> (#[trigger] r@[i])@ == overlay_described(*host)[i],
{
    let a = host.atoms;
    let r = vec![
        PropertyWrite {
            property: WM_TRANSIENT_FOR,
            type_: WINDOW,
            values: vec![host.toplevel],
        },
        PropertyWrite {
            property: a.net_wm_window_type,
            type_: ATOM,
            values: vec![a.net_wm_window_type_normal],
        },
        PropertyWrite {
            property: a.net_wm_state,
            type_: ATOM,
            values: vec![a.net_wm_state_skip_taskbar, a.net_wm_state_skip_pager],
        },
        PropertyWrite {
            property: a.motif_wm_hints,
            type_: a.motif_wm_hints,
            values: vec![2, 0, 0, 0, 0],
        },
        PropertyWrite {
            property: WM_HINTS,
            type_: WM_HINTS,
            values: vec![1, 0, 0, 0, 0, 0, 0, 0, 0],
        },
        PropertyWrite {
            property: a.wm_protocols,
            type_: ATOM,
            values: vec![a.wm_delete_window],
        },
    ];
    assert(r@[0]@.values =~= overlay_described(*host)[0].values);
    assert(r@[1]@.values =~= overlay_described(*host)[1].values);
    assert(r@[2]@.values =~= overlay_described(*host)[2].values);
    assert(r@[3]@.values =~= overlay_described(*host)[3].values);
    assert(r@[4]@.values =~= overlay_described(*host)[4].values);
    assert(r@[5]@.values =~= overlay_described(*host)[5].values);
    r
}

/// The fullscreen and maximized state a window's state property lists.
pub fn read_wm_state(atoms: &Atoms, vals: &[u32]) -> (r: (bool, bool))
    ensures
        r.0 == vals@.contains(atoms.net_wm_state_fullscreen),
        r.1 == (vals@.contains(atoms.net_wm_state_maximized_vert) && vals@.contains(
            atoms.net_wm_state_maximized_horz,
        )),
{
    let mut fs = false;
    let mut mv = false;
    let mut mh = false;
    let mut i: usize = 0;
    while i < vals.len()
        invariant
            i <= vals@.len(),
            fs == (exists|j: int| 0 <= j < i && vals@[j] == atoms.net_wm_state_fullscreen),
            mv == (exists|j: int| 0 <= j < i && vals@[j] == atoms.net_wm_state_maximized_vert),
            mh == (exists|j: int| 0 <= j < i && vals@[j] == atoms.net_wm_state_maximized_horz),
        decreases vals@.len() - i,
    {
        fs = fs || vals[i] == atoms.net_wm_state_fullscreen;
        mv = mv || vals[i] == atoms.net_wm_state_maximized_vert;
        mh = mh || vals[i] == atoms.net_wm_state_maximized_horz;
        i += 1;
    }
    (fs, mv && mh)
}

/// A message from or to the window manager.
#[derive(Clone, Copy, Debug)]
pub struct ClientMessage {
    pub window: u32,
    pub type_: u32,
    pub data: [u32; 5],
}

/// The WM asks the window to close.
pub fn is_wm_delete(host: &HostServices, e: &ClientMessage) -> (r: bool)
    ensures
        r == (e.type_ == host.atoms.wm_protocols && e.data@[0] == host.atoms.wm_delete_window),
{
    e.type_ == host.atoms.wm_protocols && e.data[0] == host.atoms.wm_delete_window
}

/// The counter value of a resize the WM wants acknowledged. Data layout:
/// `[protocol, timestamp, lo, hi, _]`.
pub fn parse_sync_request(host: &HostServices, e: &ClientMessage) -> (r: Option<(i32, u32)>)
    ensures
        r == (if host.sync_counter != 0 && host.atoms.net_wm_sync_request != 0 && e.type_
            == host.atoms.wm_protocols && e.data@[0] == host.atoms.net_wm_sync_request {
            Some((high_word(e.data@[3]), e.data@[2]))
        } else {
            None
        }),
{
    if host.sync_counter == 0 || host.atoms.net_wm_sync_request == 0 {
        return None;
    }
    if e.type_ != host.atoms.wm_protocols || e.data[0] != host.atoms.net_wm_sync_request {
        return None;
    }
    let hi: u32 = e.data[3];
    let signed: i32 = if hi <= i32::MAX as u32 {
        hi as i32
    } else {
        (hi as i64 - 0x1_0000_0000) as i32
    };
    Some((signed, e.data[2]))
}

/// The signed upper half of a counter value.
pub open spec fn high_word(v: u32) -> i32 {
    if v <= i32::MAX {
        v as i32
    } else {
        (v - 0x1_0000_0000) as i32
    }
}

/// A message for the root window, on behalf of a client.
#[derive(Clone, Copy, Debug)]
pub struct RootMessage {
    pub root: u32,
    pub message: ClientMessage,
}

/// App-side fullscreen: the message that asks the WM for it, then a reconcile.
/// Nothing is sent before the host window exists.
pub fn set_parent_fullscreen(host: &Option<HostServices>, queue: &mut GeometryQueue, fs: bool) -> (r:
    Option<RootMessage>)
    ensures
        final(queue).resync,
        final(queue).installed == old(queue).installed,
        final(queue).commands@ == old(queue).commands@,
        match (*host, r) {
            (Some(h), Some(m)) => {
                &&& h.toplevel != 0
                &&& m.root == h.root
                &&& m.message.window == h.toplevel
                &&& m.message.type_ == h.atoms.net_wm_state
                &&& m.message.data@ == seq![
                    if fs {
                        1u32
                    } else {
                        0u32
                    },
                    h.atoms.net_wm_state_fullscreen,
                    0u32,
                    1u32,
                    0u32,
                ]
            },
            (Some(h), None) => h.toplevel == 0,
            (None, m) => m is None,
        },
{
    request_resync(queue);
    match host {
        Some(h) => {
            if h.toplevel == 0 {
                return None;
            }
            let action: u32 = if fs {
                1
            } else {
                0
            };
            let data: [u32; 5] = [action, h.atoms.net_wm_state_fullscreen, 0, 1, 0];
            Some(
                RootMessage {
                    root: h.root,
                    message: ClientMessage {
                        window: h.toplevel,
                        type_: h.atoms.net_wm_state,
                        data,
                    },
                },
            )
        },
        None => None,
    }
}

/// Asks the WM to activate the app's window.
pub fn activate_parent(host: &HostServices, root: u32, parent: u32) -> (m: RootMessage)
    ensures
        m.root == root,
        m.message.window == parent,
        m.message.type_ == host.atoms.net_active_window,
        m.message.data@ == seq![2u32, 0, 0, 0, 0],
{
    RootMessage {
        root,
        message: ClientMessage {
            window: parent,
            type_: host.atoms.net_active_window,
            data: [2, 0, 0, 0, 0],
        },
    }
}

/// Lets go of the top-level's connection, which destroys the top-level and all
/// its children, mpv's sub-window among them.
pub fn drop_toplevel_connection<C>(held: &mut Option<C>)
    ensures
        *final(held) is None,
{
    *held = None;
}

/// Takes the geometry thread's handle, to be woken and joined; a second call
/// finds none.
pub fn cleanup<H>(thread: &mut Option<H>) -> (r: Option<H>)
    ensures
        r == *old(thread),
        *final(thread) is None,
{
    thread.take()
}

/// How much the next settling has to do; each includes the ones before it.
#[derive(Clone, Copy, PartialEq, Eq, Structural, Debug)]
pub enum Pending {
    Idle,
    Reconcile,
    Restack,
    Refocus,
}

impl Pending {
    pub open spec fn rank(self) -> int {
        match self {
            Pending::Idle => 0,
            Pending::Reconcile => 1,
            Pending::Restack => 2,
            Pending::Refocus => 3,
        }
    }

    /// The larger of two.
    pub open spec fn upto(self, other: Pending) -> Pending {
        if self.rank() >= other.rank() {
            self
        } else {
            other
        }
    }

    fn level(self) -> (r: u8)
        ensures
            r == self.rank(),
    {
        match self {
            Pending::Idle => 0,
            Pending::Reconcile => 1,
            Pending::Restack => 2,
            Pending::Refocus => 3,
        }
    }
}

#[derive(Clone, Copy, PartialEq, Eq, Structural, Debug)]
pub enum Phase {
    Running(Pending),
    Stopping,
}

/// What the server reports.
#[derive(Clone, Copy, Debug)]
pub enum GeoEvent {
    CreateNotify { parent: u32, window: u32 },
    ConfigureNotify { window: u32 },
    CirculateNotify { window: u32 },
    PropertyNotify { window: u32, atom: u32 },
    ReparentNotify { window: u32 },
    MapNotify { window: u32 },
    UnmapNotify { window: u32 },
    DestroyNotify { window: u32 },
    ClientMessage(ClientMessage),
    SelectionOwner { owner: u32 },
    Other,
}

/// What an event asks for beyond a settling.
#[derive(Clone, Copy, PartialEq, Eq, Structural, Debug)]
pub enum GeoAsk {
    Nothing,
    /// Query the display scale and hand it to
    /// [`GeoLoop::display_scale_queried`].
    RefreshScale,
    /// Find the frame and hand it to [`GeoLoop::reparented`].
    FindFrame,
    Visible(bool),
    Shutdown,
    CompositorDetected(bool),
}

/// The geometry thread, but for its connection.
pub struct GeoLoop {
    pub work: GeoWork,
    pub parent: u32,
    pub video_host: u32,
    pub root: u32,
    pub frame: u32,
    pub embed: Option<u32>,
    pub parent_mapped: bool,
    pub phase: Phase,
}

/// What an event means: how much to settle, and what else to do.
pub open spec fn event_meaning(g: GeoLoop, host: Option<HostServices>, ev: GeoEvent) -> (
    Pending,
    GeoAsk,
) {
    match ev {
        GeoEvent::CreateNotify { parent, .. } => (
            if parent == g.video_host {
                Pending::Reconcile
            } else {
                Pending::Idle
            },
            GeoAsk::Nothing,
        ),
        GeoEvent::ConfigureNotify { window } => (
            if window == g.parent || window == g.frame {
                Pending::Restack
            } else {
                Pending::Reconcile
            },
            GeoAsk::Nothing,
        ),
        GeoEvent::CirculateNotify { window } => (
            if window == g.parent || window == g.frame {
                Pending::Restack
            } else {
                Pending::Reconcile
            },
            GeoAsk::Nothing,
        ),
        GeoEvent::PropertyNotify { window, atom } => if window == g.parent {
            (Pending::Restack, GeoAsk::Nothing)
        } else if window == g.root && atom == RESOURCE_MANAGER {
            (Pending::Idle, GeoAsk::RefreshScale)
        } else {
            (Pending::Idle, GeoAsk::Nothing)
        },
        GeoEvent::ReparentNotify { window } => if window == g.parent {
            (Pending::Restack, GeoAsk::FindFrame)
        } else {
            (Pending::Idle, GeoAsk::Nothing)
        },
        GeoEvent::MapNotify { window } => if window == g.parent {
            (Pending::Refocus, GeoAsk::Visible(true))
        } else {
            (Pending::Idle, GeoAsk::Nothing)
        },
        GeoEvent::UnmapNotify { window } => (
            Pending::Reconcile,
            if window == g.parent {
                GeoAsk::Visible(false)
            } else {
                GeoAsk::Nothing
            },
        ),
        GeoEvent::DestroyNotify { window } => (
            Pending::Idle,
            if window == g.parent {
                GeoAsk::Shutdown
            } else {
                GeoAsk::Nothing
            },
        ),
        GeoEvent::ClientMessage(e) => (
            Pending::Idle,
            if e.window == g.parent && (host matches Some(h) && e.type_ == h.atoms.wm_protocols
                && e.data@[0] == h.atoms.wm_delete_window) {
                GeoAsk::Shutdown
            } else {
                GeoAsk::Nothing
            },
        ),
        GeoEvent::SelectionOwner { owner } => if owner != 0 {
            (Pending::Restack, GeoAsk::CompositorDetected(true))
        } else {
            (Pending::Idle, GeoAsk::CompositorDetected(false))
        },
        GeoEvent::Other => (Pending::Idle, GeoAsk::Nothing),
    }
}

/// The sync request a message carries, where it is for the parent and no
/// request to close.
pub open spec fn sync_of(parent: u32, host: Option<HostServices>, ev: GeoEvent) -> Option<
    (i32, u32),
> {
    match (ev, host) {
        (GeoEvent::ClientMessage(e), Some(h)) => if e.window == parent && e.type_
            == h.atoms.wm_protocols && e.data@[0] != h.atoms.wm_delete_window && h.sync_counter != 0
            && h.atoms.net_wm_sync_request != 0 && e.data@[0] == h.atoms.net_wm_sync_request {
            Some((high_word(e.data@[3]), e.data@[2]))
        } else {
            None
        },
        _ => None,
    }
}

/// The resize handshake: the value to acknowledge, and whether its configure
/// was seen.
pub ghost struct SyncState {
    pub counter: u32,
    pub pending: Option<(i32, u32)>,
    pub armed: bool,
}

impl SyncState {
    /// What a commit writes, and the state after it.
    pub open spec fn committed(self) -> (Option<(i32, u32)>, SyncState) {
        if self.armed {
            (self.pending, SyncState { pending: None, ..self })
        } else {
            (None, self)
        }
    }
}

/// The handshake after an event.
pub open spec fn sync_stepped(
    s: SyncState,
    parent: u32,
    host: Option<HostServices>,
    ev: GeoEvent,
) -> SyncState {
    match sync_of(parent, host, ev) {
        Some(v) => if s.counter != 0 {
            SyncState { pending: Some(v), armed: false, ..s }
        } else {
            s
        },
        None => SyncState { armed: s.armed || arms(parent, ev), ..s },
    }
}

/// The handshake after a run of events.
pub open spec fn sync_run(
    s: SyncState,
    parent: u32,
    host: Option<HostServices>,
    evs: Seq<GeoEvent>,
) -> SyncState
    decreases evs.len(),
{
    if evs.len() == 0 {
        s
    } else {
        sync_stepped(sync_run(s, parent, host, evs.drop_last()), parent, host, evs.last())
    }
}

pub open spec fn raised(phase: Phase, p: Pending) -> Phase {
    match phase {
        Phase::Running(cur) => Phase::Running(cur.upto(p)),
        Phase::Stopping => Phase::Stopping,
    }
}

impl GeoLoop {
    pub fn new(work: GeoWork, parent: u32, video_host: u32, root: u32, frame: u32) -> (g: GeoLoop)
        ensures
            g.work == work,
            g.parent == parent,
            g.video_host == video_host,
            g.root == root,
            g.frame == frame,
            g.embed is None,
            g.parent_mapped,
            g.phase == Phase::Running(Pending::Restack),
    {
        GeoLoop {
            work,
            parent,
            video_host,
            root,
            frame,
            embed: None,
            parent_mapped: true,
            phase: Phase::Running(Pending::Restack),
        }
    }

    /// Takes one event.
    pub fn on_event(&mut self, host: &Option<HostServices>, ev: GeoEvent) -> (ask: GeoAsk)
        ensures
            ask == event_meaning(*old(self), *host, ev).1,
            final(self).phase == raised(
                old(self).phase,
                event_meaning(*old(self), *host, ev).0,
            ),
            final(self).parent == old(self).parent,
            final(self).video_host == old(self).video_host,
            final(self).root == old(self).root,
            final(self).frame == old(self).frame,
            final(self).embed == match ev {
                GeoEvent::CreateNotify { parent, window } => if parent == old(self).video_host {
                    Some(window)
                } else {
                    old(self).embed
                },
                GeoEvent::DestroyNotify { window } => if old(self).embed == Some(window) {
                    None
                } else {
                    old(self).embed
                },
                _ => old(self).embed,
            },
            final(self).parent_mapped == match ev {
                GeoEvent::MapNotify { window } => old(self).parent_mapped || window
                    == old(self).parent,
                GeoEvent::UnmapNotify { window } => old(self).parent_mapped && window
                    != old(self).parent,
                _ => old(self).parent_mapped,
            },
            final(self).work.snap == old(self).work.snap,
            final(self).work.structures@ == old(self).work.structures@,
            final(self).work.fsm@ == old(self).work.fsm@,
            final(self).work.order@ == old(self).work.order@,
            final(self).work.sync() == sync_stepped(
                old(self).work.sync(),
                old(self).parent,
                *host,
                ev,
            ),
    {
        let mut ask = GeoAsk::Nothing;
        let pending = match ev {
            GeoEvent::CreateNotify { parent, window } => {
                if parent == self.video_host {
                    self.embed = Some(window);
                    Pending::Reconcile
                } else {
                    Pending::Idle
                }
            },
            GeoEvent::ConfigureNotify { window } => {
                if window == self.parent || window == self.frame {
                    if window == self.parent {
                        self.work.sync_armed = true;
                    }
                    Pending::Restack
                } else {
                    Pending::Reconcile
                }
            },
            GeoEvent::CirculateNotify { window } => {
                if window == self.parent || window == self.frame {
                    Pending::Restack
                } else {
                    Pending::Reconcile
                }
            },
            GeoEvent::PropertyNotify { window, atom } => {
                if window == self.parent {
                    Pending::Restack
                } else {
                    if window == self.root && atom == RESOURCE_MANAGER {
                        ask = GeoAsk::RefreshScale;
                    }
                    Pending::Idle
                }
            },
            GeoEvent::ReparentNotify { window } => {
                if window == self.parent {
                    ask = GeoAsk::FindFrame;
                    Pending::Restack
                } else {
                    Pending::Idle
                }
            },
            GeoEvent::MapNotify { window } => {
                if window == self.parent {
                    self.parent_mapped = true;
                    ask = GeoAsk::Visible(true);
                    Pending::Refocus
                } else {
                    Pending::Idle
                }
            },
            GeoEvent::UnmapNotify { window } => {
                if window == self.parent {
                    self.parent_mapped = false;
                    ask = GeoAsk::Visible(false);
                }
                Pending::Reconcile
            },
            GeoEvent::DestroyNotify { window } => {
                if window == self.parent {
                    ask = GeoAsk::Shutdown;
                }
                if let Some(e) = self.embed {
                    if e == window {
                        self.embed = None;
                    }
                }
                Pending::Idle
            },
            GeoEvent::ClientMessage(e) => {
                if e.window == self.parent {
                    if let Some(h) = host {
                        if is_wm_delete(h, &e) {
                            ask = GeoAsk::Shutdown;
                        } else if let Some((hi, lo)) = parse_sync_request(h, &e) {
                            self.work.latch_sync(hi, lo);
                        }
                    }
                }
                Pending::Idle
            },
            GeoEvent::SelectionOwner { owner } => {
                if owner != 0 {
                    ask = GeoAsk::CompositorDetected(true);
                    Pending::Restack
                } else {
                    ask = GeoAsk::CompositorDetected(false);
                    Pending::Idle
                }
            },
            GeoEvent::Other => Pending::Idle,
        };
        self.raise_to(pending);
        ask
    }

    /// Asks for at least this much settling; a stopping thread settles nothing.
    pub fn raise_to(&mut self, pending: Pending)
        ensures
            *final(self) == (GeoLoop { phase: raised(old(self).phase, pending), ..*old(self) }),
    {
        if let Phase::Running(cur) = self.phase {
            if cur.level() < pending.level() {
                self.phase = Phase::Running(pending);
            }
        }
    }

    /// The frame around the parent, after it was reparented. Returns whether it
    /// is a window of its own, to be watched.
    pub fn reparented(&mut self, frame: u32) -> (watch: bool)
        ensures
            watch == (frame != old(self).parent),
            *final(self) == (GeoLoop { frame, ..*old(self) }),
    {
        self.frame = frame;
        frame != self.parent
    }

    /// A display scale, as queried; unscaled where none is known. Returns whether
    /// anybody has to be told.
    pub fn display_scale_queried(&mut self, scale_halves: Option<i32>) -> (changed: bool)
        ensures
            ({
                let halves = match scale_halves {
                    Some(s) => s,
                    None => UNSCALED_HALVES,
                };
                &&& changed == (old(self).work.snap.scale_halves != halves)
                &&& final(self).work.snap == (ParentSnapshot {
                    scale_halves: halves,
                    ..old(self).work.snap
                })
            }),
            final(self).work.unmoved(old(self).work),
            final(self).work.sync() == old(self).work.sync(),
            final(self).parent == old(self).parent,
            final(self).video_host == old(self).video_host,
            final(self).root == old(self).root,
            final(self).frame == old(self).frame,
            final(self).embed == old(self).embed,
            final(self).parent_mapped == old(self).parent_mapped,
            final(self).phase == (if changed {
                raised(old(self).phase, Pending::Reconcile)
            } else {
                old(self).phase
            }),
    {
        let halves: i32 = match scale_halves {
            Some(s) => s,
            None => UNSCALED_HALVES,
        };
        let changed = self.work.refresh_display_scale(halves);
        if changed {
            self.raise_to(Pending::Reconcile);
        }
        changed
    }

    /// Whether to reconcile now, and how: with the stack reasserted, with the
    /// window activated. Nothing is pending after it.
    pub fn settle(&mut self) -> (r: Option<(bool, bool)>)
        ensures
            r == match old(self).phase {
                Phase::Running(p) => if p == Pending::Idle {
                    None
                } else {
                    Some((p.rank() >= Pending::Restack.rank(), p == Pending::Refocus))
                },
                Phase::Stopping => None,
            },
            *final(self) == (GeoLoop {
                phase: match old(self).phase {
                    Phase::Running(_) => Phase::Running(Pending::Idle),
                    Phase::Stopping => Phase::Stopping,
                },
                ..*old(self)
            }),
    {
        match self.phase {
            Phase::Stopping => None,
            Phase::Running(p) => {
                if p == Pending::Idle {
                    return None;
                }
                self.phase = Phase::Running(Pending::Idle);
                Some((p.level() >= 2, p.level() >= 3))
            },
        }
    }

    /// Brings one overlay in line with the parent, once the parent was read.
    /// `visible` is the wish in the surface's record; without a record or a
    /// window there is nothing to do. Returns the window and what to ask of it.
    pub fn reconcile_overlay(
        &mut self,
        id: SurfaceId,
        observed: Option<Geom>,
        observed_mapped: Option<bool>,
        visible: Option<bool>,
        reassert_stack: bool,
    ) -> (r: Option<(u32, Vec<OverlayOp>)>)
        ensures
            final(self).work.snap == old(self).work.snap,
            final(self).work.structures@ == old(self).work.structures@,
            final(self).work.order@ == old(self).work.order@,
            final(self).work.sync() == old(self).work.sync(),
            final(self).phase == old(self).phase,
            final(self).parent == old(self).parent,
            final(self).video_host == old(self).video_host,
            final(self).root == old(self).root,
            final(self).frame == old(self).frame,
            final(self).embed == old(self).embed,
            final(self).parent_mapped == old(self).parent_mapped,
            match (visible, old(self).work.structures@.contains_key(id.bits())) {
                (Some(v), true) => {
                    let pass = old(self).work.overlay_pass(
                        id,
                        observed,
                        observed_mapped,
                        v && old(self).parent_mapped,
                        reassert_stack,
                    );
                    &&& final(self).work.fsm@ == old(self).work.fsm@.insert(id.bits(), pass.0)
                    &&& r matches Some(asked)
                    &&& asked.0 == old(self).work.structures@[id.bits()]
                    &&& asked.1@ == pass.1
                },
                _ => r is None && final(self).work.fsm@ == old(self).work.fsm@,
            },
    {
        broadcast use vstd::std_specs::hash::group_hash_axioms;

        let key: u64 = id.to_handle().id;
        let window: u32 = match self.work.structures.get(&key) {
            Some(w) => *w,
            None => return None,
        };
        match visible {
            Some(v) => {
                let want_visible = v && self.parent_mapped;
                let ops = self.work.reconcile_overlay(
                    id,
                    observed,
                    observed_mapped,
                    want_visible,
                    reassert_stack,
                );
                Some((window, ops))
            },
            None => None,
        }
    }

    /// The thread stops; from here on nothing is settled. Returns the window to
    /// unmap: the app's.
    pub fn shutdown(&mut self) -> (unmap: u32)
        ensures
            unmap == old(self).parent,
            *final(self) == (GeoLoop { phase: Phase::Stopping, ..*old(self) }),
    {
        self.phase = Phase::Stopping;
        self.parent
    }
}

/// Requests for settling add up to the largest, in whatever order they come,
/// and a stopping thread never runs again.
pub proof fn pending_is_a_maximum(phase: Phase, a: Pending, b: Pending)
    ensures
        raised(raised(phase, a), b) == raised(raised(phase, b), a),
        raised(raised(phase, a), a) == raised(phase, a),
        phase matches Phase::Running(p) ==> raised(phase, a) == Phase::Running(p.upto(a)) && p.upto(
            a,
        ).rank() >= a.rank(),
        phase == Phase::Stopping ==> raised(phase, a) == Phase::Stopping,
{
}

/// The configure that a resize request waits for.
pub open spec fn arms(parent: u32, ev: GeoEvent) -> bool {
    ev matches GeoEvent::ConfigureNotify { window } && window == parent
}

/// A resize is acknowledged only after its configure was seen: between the
/// request and the parent's next configure a commit writes nothing.
pub proof fn resize_waits_for_its_configure(
    start: SyncState,
    parent: u32,
    host: Option<HostServices>,
    request: GeoEvent,
    evs: Seq<GeoEvent>,
)
    requires
        start.counter != 0,
        sync_of(parent, host, request) is Some,
        forall|i: int| 0 <= i < evs.len() ==> !arms(parent, #[trigger] evs[i]),
    ensures
        sync_run(sync_stepped(start, parent, host, request), parent, host, evs).committed().0
            is None,
        !sync_run(sync_stepped(start, parent, host, request), parent, host, evs).armed,
        sync_run(sync_stepped(start, parent, host, request), parent, host, evs).counter
            == start.counter,
    decreases evs.len(),
{
    if evs.len() > 0 {
        let front = evs.drop_last();
        assert forall|i: int| 0 <= i < front.len() implies !arms(parent, #[trigger] front[i]) by {
            assert(front[i] == evs[i]);
        }
        resize_waits_for_its_configure(start, parent, host, request, front);
        assert(!arms(parent, evs[evs.len() - 1]));
    }
}

/// A resize is acknowledged once: after its request, the parent's configure and
/// any events that carry no other request, a commit writes its value, and the
/// next commit writes nothing.
pub proof fn resize_is_acknowledged_once(
    start: SyncState,
    parent: u32,
    host: Option<HostServices>,
    request: GeoEvent,
    configure: GeoEvent,
    evs: Seq<GeoEvent>,
)
    requires
        start.counter != 0,
        sync_of(parent, host, request) is Some,
        arms(parent, configure),
        forall|i: int| 0 <= i < evs.len() ==> sync_of(parent, host, #[trigger] evs[i]) is None,
    ensures
        ({
            let requested = sync_stepped(start, parent, host, request);
            let s = sync_run(sync_stepped(requested, parent, host, configure), parent, host, evs);
            &&& s.armed
            &&& s.pending == sync_of(parent, host, request)
            &&& s.committed().0 == sync_of(parent, host, request)
            &&& s.committed().1.committed().0 is None
        }),
    decreases evs.len(),
{
    if evs.len() > 0 {
        let front = evs.drop_last();
        assert forall|i: int| 0 <= i < front.len() implies sync_of(
            parent,
            host,
            #[trigger] front[i],
        ) is None by {
            assert(front[i] == evs[i]);
        }
        resize_is_acknowledged_once(start, parent, host, request, configure, front);
        assert(sync_of(parent, host, evs[evs.len() - 1]) is None);
    }
}

} // verus!
