//! Host-window creation and platform init, as far as they decide anything.

use vstd::prelude::*;
use vstd::string::StringExecFns;

use crate::abi::max_i32;
use crate::abi::max_int;
use crate::text::signed_decimal;
use crate::text::signed_decimal_of;
use crate::x11::mpv_proxy::set_embed_context;
use crate::x11::mpv_proxy::EmbedContext;
use crate::x11::mpv_proxy::SharedEmbed;
use crate::x11::x11_state::Atoms;
use crate::x11::x11_state::HostServices;
use crate::x11::x11_state::PaintServices;
use crate::x11::x11_state::ParentSnapshot;
use crate::x11::x11_state::X11State;

verus! {

/// What a visual can show.
#[derive(Clone, Copy, PartialEq, Eq, Structural, Debug)]
pub enum VisualClass {
    TrueColor,
    Other,
}

#[derive(Clone, Copy, PartialEq, Eq, Structural, Debug)]
pub struct Visual {
    pub id: u32,
    pub class: VisualClass,
}

/// A depth the screen allows, and its visuals.
pub struct Depth {
    pub depth: u8,
    pub visuals: Vec<Visual>,
}

/// The first true-color visual of one depth.
pub open spec fn true_color_in(visuals: Seq<Visual>) -> Option<u32>
    decreases visuals.len(),
{
    if visuals.len() == 0 {
        None
    } else if visuals[0].class == VisualClass::TrueColor {
        Some(visuals[0].id)
    } else {
        true_color_in(visuals.drop_first())
    }
}

/// The first true-color visual of the 32-bit depths.
pub open spec fn argb_visual_in(depths: Seq<Depth>) -> Option<u32>
    decreases depths.len(),
{
    if depths.len() == 0 {
        None
    } else if depths[0].depth == 32 && true_color_in(depths[0].visuals@) is Some {
        true_color_in(depths[0].visuals@)
    } else {
        argb_visual_in(depths.drop_first())
    }
}

fn find_true_color(visuals: &Vec<Visual>) -> (r: Option<u32>)
    ensures
        r == true_color_in(visuals@),
{
    let mut i: usize = 0;
    assert(visuals@.skip(0) =~= visuals@);
    while i < visuals.len()
        invariant
            i <= visuals@.len(),
            true_color_in(visuals@) == true_color_in(visuals@.skip(i as int)),
        decreases visuals@.len() - i,
    {
        assert(visuals@.skip(i as int).drop_first() =~= visuals@.skip(i + 1));
        if visuals[i].class == VisualClass::TrueColor {
            return Some(visuals[i].id);
        }
        i += 1;
    }
    None
}

/// Finds a 32-bit true-color visual.
pub fn find_argb_visual(depths: &Vec<Depth>) -> (r: Option<u32>)
    ensures
        r == argb_visual_in(depths@),
{
    let mut i: usize = 0;
    assert(depths@.skip(0) =~= depths@);
    while i < depths.len()
        invariant
            i <= depths@.len(),
            argb_visual_in(depths@) == argb_visual_in(depths@.skip(i as int)),
        decreases depths@.len() - i,
    {
        assert(depths@.skip(i as int).drop_first() =~= depths@.skip(i + 1));
        if depths[i].depth == 32 {
            if let Some(id) = find_true_color(&depths[i].visuals) {
                return Some(id);
            }
        }
        i += 1;
    }
    None
}

/// The protocols the top-level takes part in. The sync protocol is advertised
/// only with a counter behind it: a WM must never wait on a counter that nobody
/// sets.
pub open spec fn protocols_of(atoms: Atoms, sync_counter: u32) -> Seq<u32> {
    if sync_counter != 0 && atoms.net_wm_sync_request != 0 {
        seq![atoms.wm_delete_window, atoms.net_wm_sync_request]
    } else {
        seq![atoms.wm_delete_window]
    }
}

pub fn toplevel_protocols(atoms: &Atoms, sync_counter: u32) -> (r: Vec<u32>)
    ensures
        r@ == protocols_of(*atoms, sync_counter),
{
    let mut r: Vec<u32> = Vec::new();
    r.push(atoms.wm_delete_window);
    if sync_counter != 0 && atoms.net_wm_sync_request != 0 {
        r.push(atoms.net_wm_sync_request);
    }
    assert(r@ =~= protocols_of(*atoms, sync_counter));
    r
}

/// Steps to a resize-sync counter, and how far they went.
#[derive(Clone, Copy, PartialEq, Eq, Structural, Debug)]
pub struct SyncSetup {
    /// The extension answered.
    pub extension: bool,
    /// An id for the counter, where one could be had.
    pub counter: Option<u32>,
    /// The server made the counter.
    pub created: bool,
    /// The window names the counter.
    pub advertised: bool,
}

/// The counter, all or nothing: 0 on any failure. Returns also whether a counter
/// was made in vain and has to be destroyed.
pub fn setup_sync_counter(atoms: &Atoms, s: SyncSetup) -> (r: (u32, bool))
    ensures
        r.0 == (if atoms.net_wm_sync_request_counter != 0 && s.extension && s.created
            && s.advertised && s.counter is Some {
            s.counter->Some_0
        } else {
            0
        }),
        r.1 == (atoms.net_wm_sync_request_counter != 0 && s.extension && s.counter is Some
            && s.created && !s.advertised),
{
    if atoms.net_wm_sync_request_counter == 0 || !s.extension {
        return (0, false);
    }
    match s.counter {
        Some(counter) => {
            if !s.created {
                return (0, false);
            }
            if !s.advertised {
                return (0, true);
            }
            (counter, false)
        },
        None => (0, false),
    }
}

/// The selection a compositing manager owns on a screen.
pub fn cm_atom_name(screen_num: i32) -> (r: String)
    ensures
        r@ == "_NET_WM_CM_S"@ + signed_decimal_of(screen_num as int),
{
    let mut r = "_NET_WM_CM_S".to_owned();
    let n = signed_decimal(screen_num);
    r.append(n.as_str());
    r
}

/// A saved geometry to start with.
#[derive(Clone, Copy, PartialEq, Eq, Debug)]
pub struct BootGeometry {
    pub physical: (i32, i32),
    pub position: Option<(i32, i32)>,
    pub maximized: bool,
}

/// The top-level at start: its rect, whether its position is the user's, and
/// whether it starts maximized.
#[derive(Clone, Copy, PartialEq, Eq, Structural, Debug)]
pub struct BootWindow {
    pub x: i32,
    pub y: i32,
    pub w: i32,
    pub h: i32,
    pub user_position: bool,
    pub maximized: bool,
}

/// With nothing saved, 1600 by 900 logical pixels wherever the WM likes.
pub fn boot_window(boot: Option<BootGeometry>, scale_halves: i32) -> (r: BootWindow)
    requires
        i32::MIN <= 800 * scale_halves <= i32::MAX,
    ensures
        r == match boot {
            Some(b) => BootWindow {
                x: match b.position {
                    Some(p) => p.0,
                    None => 0,
                },
                y: match b.position {
                    Some(p) => p.1,
                    None => 0,
                },
                w: max_int(b.physical.0 as int, 1) as i32,
                h: max_int(b.physical.1 as int, 1) as i32,
                user_position: b.position is Some,
                maximized: b.maximized,
            },
            None => BootWindow {
                x: 0,
                y: 0,
                w: (800 * scale_halves) as i32,
                h: (450 * scale_halves) as i32,
                user_position: false,
                maximized: false,
            },
        },
{
    match boot {
        Some(b) => {
            let (x, y) = match b.position {
                Some(p) => p,
                None => (0, 0),
            };
            BootWindow {
                x,
                y,
                w: max_i32(b.physical.0, 1),
                h: max_i32(b.physical.1, 1),
                user_position: b.position.is_some(),
                maximized: b.maximized,
            }
        },
        None => BootWindow {
            x: 0,
            y: 0,
            w: 800 * scale_halves,
            h: 450 * scale_halves,
            user_position: false,
            maximized: false,
        },
    }
}

/// The class of the top-level, instance and class name alike, each ended by a
/// zero byte. Desktops find the app's icon by it.
pub fn wm_class() -> (r: &'static str)
    ensures
        r@ == "net.nullsum.JelliumDesktop\0net.nullsum.JelliumDesktop\0"@,
{
    "net.nullsum.JelliumDesktop\0net.nullsum.JelliumDesktop\0"
}

pub fn app_title() -> (r: &'static str)
    ensures
        r@ == "Jellium Desktop"@,
{
    "Jellium Desktop"
}

/// One request of making the host windows.
pub enum HostRequest {
    CreateToplevel { window: u32, x: i16, y: i16, w: u16, h: u16 },
    /// The class and the plain name.
    SetIdentity { window: u32 },
    /// The name once more, as UTF-8.
    SetNetName { window: u32, property: u32, kind: u32 },
    SetProtocols { window: u32, protocols: Vec<u32> },
    SetWindowType { window: u32, kind: u32 },
    /// Position and size are the user's, so that the WM keeps to them.
    SetNormalHints { window: u32, x: i32, y: i32, w: i32, h: i32 },
    CreateVideoHost { window: u32, parent: u32, w: u16, h: u16 },
    /// The state the WM reads when it maps the window.
    SetInitialState { window: u32, first: u32, second: u32 },
    MapWindow { window: u32 },
}

pub ghost enum HostRequestView {
    CreateToplevel { window: u32, x: i16, y: i16, w: u16, h: u16 },
    SetIdentity { window: u32 },
    SetNetName { window: u32, property: u32, kind: u32 },
    SetProtocols { window: u32, protocols: Seq<u32> },
    SetWindowType { window: u32, kind: u32 },
    SetNormalHints { window: u32, x: i32, y: i32, w: i32, h: i32 },
    CreateVideoHost { window: u32, parent: u32, w: u16, h: u16 },
    SetInitialState { window: u32, first: u32, second: u32 },
    MapWindow { window: u32 },
}

impl View for HostRequest {
    type V = HostRequestView;

    open spec fn view(&self) -> HostRequestView {
        match *self {
            HostRequest::CreateToplevel { window, x, y, w, h } => HostRequestView::CreateToplevel {
                window,
                x,
                y,
                w,
                h,
            },
            HostRequest::SetIdentity { window } => HostRequestView::SetIdentity { window },
            HostRequest::SetNetName { window, property, kind } => HostRequestView::SetNetName {
                window,
                property,
                kind,
            },
            HostRequest::SetProtocols { window, protocols } => HostRequestView::SetProtocols {
                window,
                protocols: protocols@,
            },
            HostRequest::SetWindowType { window, kind } => HostRequestView::SetWindowType {
                window,
                kind,
            },
            HostRequest::SetNormalHints { window, x, y, w, h } => HostRequestView::SetNormalHints {
                window,
                x,
                y,
                w,
                h,
            },
            HostRequest::CreateVideoHost { window, parent, w, h } =>
                HostRequestView::CreateVideoHost { window, parent, w, h },
            HostRequest::SetInitialState { window, first, second } =>
                HostRequestView::SetInitialState { window, first, second },
            HostRequest::MapWindow { window } => HostRequestView::MapWindow { window },
        }
    }
}

pub open spec fn host_views(r: Seq<HostRequest>) -> Seq<HostRequestView> {
    Seq::new(r.len(), |i: int| r[i]@)
}

/// What the host windows are made of.
#[derive(Clone, Copy, PartialEq, Eq, Structural, Debug)]
pub struct HostPlan {
    pub toplevel: u32,
    pub video_host: u32,
    pub sync_counter: u32,
    /// The atoms of a UTF-8 name; 0 where they could not be had.
    pub utf8_string: u32,
    pub net_wm_name: u32,
}

/// Everything that comes before the top-level is mapped.
pub open spec fn host_setup(plan: HostPlan, atoms: Atoms, b: BootWindow) -> Seq<HostRequestView> {
    let window = plan.toplevel;
    seq![
        HostRequestView::CreateToplevel {
            window,
            x: b.x as i16,
            y: b.y as i16,
            w: b.w as u16,
            h: b.h as u16,
        },
        HostRequestView::SetIdentity { window },
    ] + (if plan.utf8_string != 0 && plan.net_wm_name != 0 {
        seq![
            HostRequestView::SetNetName {
                window,
                property: plan.net_wm_name,
                kind: plan.utf8_string,
            },
        ]
    } else {
        seq![]
    }) + seq![
        HostRequestView::SetProtocols {
            window,
            protocols: protocols_of(atoms, plan.sync_counter),
        },
        HostRequestView::SetWindowType { window, kind: atoms.net_wm_window_type_normal },
    ] + (if b.user_position {
        seq![HostRequestView::SetNormalHints { window, x: b.x, y: b.y, w: b.w, h: b.h }]
    } else {
        seq![]
    }) + seq![
        HostRequestView::CreateVideoHost {
            window: plan.video_host,
            parent: window,
            w: b.w as u16,
            h: b.h as u16,
        },
    ] + (if b.maximized {
        seq![
            HostRequestView::SetInitialState {
                window,
                first: atoms.net_wm_state_maximized_vert,
                second: atoms.net_wm_state_maximized_horz,
            },
        ]
    } else {
        seq![]
    })
}

fn host_request(out: &mut Vec<HostRequest>, r: HostRequest)
    ensures
        host_views(final(out)@) == host_views(old(out)@).push(r@),
{
    let ghost before = out@;
    out.push(r);
    assert(host_views(out@) =~= host_views(before).push(r@));
}

/// The requests that make the app's top-level and the window in it that mpv
/// embeds into. A WM reads what a window asks for when it maps it, so the
/// top-level is mapped last.
pub fn host_requests(plan: HostPlan, atoms: &Atoms, b: BootWindow) -> (r: Vec<HostRequest>)
    ensures
        host_views(r@) == host_setup(plan, *atoms, b) + seq![
            HostRequestView::MapWindow { window: plan.video_host },
            HostRequestView::MapWindow { window: plan.toplevel },
        ],
{
    let window: u32 = plan.toplevel;
    let (w, h) = (b.w as u16, b.h as u16);
    let mut out: Vec<HostRequest> = Vec::new();
    assert(host_views(out@) =~= seq![]);
    host_request(
        &mut out,
        HostRequest::CreateToplevel { window, x: b.x as i16, y: b.y as i16, w, h },
    );
    host_request(&mut out, HostRequest::SetIdentity { window });
    if plan.utf8_string != 0 && plan.net_wm_name != 0 {
        host_request(
            &mut out,
            HostRequest::SetNetName {
                window,
                property: plan.net_wm_name,
                kind: plan.utf8_string,
            },
        );
    }
    let protocols = toplevel_protocols(atoms, plan.sync_counter);
    host_request(&mut out, HostRequest::SetProtocols { window, protocols });
    host_request(
        &mut out,
        HostRequest::SetWindowType { window, kind: atoms.net_wm_window_type_normal },
    );
    if b.user_position {
        host_request(
            &mut out,
            HostRequest::SetNormalHints { window, x: b.x, y: b.y, w: b.w, h: b.h },
        );
    }
    host_request(
        &mut out,
        HostRequest::CreateVideoHost { window: plan.video_host, parent: window, w, h },
    );
    if b.maximized {
        host_request(
            &mut out,
            HostRequest::SetInitialState {
                window,
                first: atoms.net_wm_state_maximized_vert,
                second: atoms.net_wm_state_maximized_horz,
            },
        );
    }
    assert(host_views(out@) =~= host_setup(plan, *atoms, b));
    host_request(&mut out, HostRequest::MapWindow { window: plan.video_host });
    host_request(&mut out, HostRequest::MapWindow { window });
    assert(host_views(out@) =~= host_setup(plan, *atoms, b) + seq![
        HostRequestView::MapWindow { window: plan.video_host },
        HostRequestView::MapWindow { window: plan.toplevel },
    ]);
    out
}

/// Nothing is mapped before it is set up: no request of the setup maps a window.
pub proof fn host_is_set_up_before_it_is_mapped(plan: HostPlan, atoms: Atoms, b: BootWindow, i: int)
    requires
        0 <= i < host_setup(plan, atoms, b).len(),
    ensures
        !(host_setup(plan, atoms, b)[i] is MapWindow),
{
}

/// What making the host windows brought: their facts, the geometry they were
/// asked to have and the one they were found to have, the display scale, and the
/// XFixes opcode where the server has the extension.
#[derive(Clone, Copy)]
pub struct HostMade {
    pub services: HostServices,
    pub boot: BootWindow,
    pub queried: Option<(i32, i32, i32, i32)>,
    pub scale_halves: i32,
    pub xfixes_opcode: Option<u8>,
}

impl HostMade {
    /// The geometry of the window: the one it really has, or else the one it was
    /// asked to have.
    pub open spec fn geometry(self) -> (i32, i32, i32, i32) {
        match self.queried {
            Some(g) => g,
            None => (self.boot.x, self.boot.y, self.boot.w, self.boot.h),
        }
    }

    /// What the rest of the app learns of the window.
    pub open spec fn parent(self) -> ParentSnapshot {
        ParentSnapshot {
            origin_x: self.geometry().0,
            origin_y: self.geometry().1,
            width: self.geometry().2,
            height: self.geometry().3,
            fullscreen: false,
            maximized: false,
            scale_halves: self.scale_halves,
        }
    }

    /// What the proxy learns of the window mpv embeds into, whose size is at
    /// least one pixel.
    pub open spec fn embed(self) -> EmbedContext {
        EmbedContext {
            video_host: self.services.video_host,
            net_wm_state: self.services.atoms.net_wm_state,
            xfixes_opcode: self.xfixes_opcode,
            published: (
                max_int(self.geometry().2 as int, 1) as u16,
                max_int(self.geometry().3 as int, 1) as u16,
            ),
        }
    }
}

/// Whether host windows have to be made: there are none yet.
pub fn host_window_needed(state: &X11State) -> (r: bool)
    ensures
        r == (state.host is None),
{
    state.host.is_none()
}

/// The end of making sure that the host windows exist. Where none were needed
/// they do, and nothing changes. Where they were needed, `made` is what making
/// them brought, `None` if that failed: their facts are set, once, and their
/// geometry is published. `false` where they could not be made, and where
/// somebody else set host windows meanwhile; then nothing changes.
pub fn ensure_host_window(
    state: &mut X11State,
    embed: &mut SharedEmbed,
    needed: bool,
    made: Option<HostMade>,
) -> (r: bool)
    ensures
        r == (!needed || (made is Some && old(state).host is None)),
        needed == (old(state).host is None) && r ==> final(state).host is Some,
        !needed || !r ==> *final(state) == *old(state) && *final(embed) == *old(embed),
        needed && r ==> ({
            let m = made->0;
            &&& final(state).host == Some(m.services)
            &&& final(state).paint == old(state).paint
            &&& final(state).windows@ == old(state).windows@
            &&& final(state).parent == m.parent()
            &&& final(embed).embed_window == old(embed).embed_window
            &&& final(embed).ctx == Some(m.embed())
        }),
{
    if !needed {
        return true;
    }
    let m = match made {
        Some(m) => m,
        None => return false,
    };
    if state.host.is_some() {
        return false;
    }
    let (x, y, w, h) = match m.queried {
        Some(g) => g,
        None => (m.boot.x, m.boot.y, m.boot.w, m.boot.h),
    };
    let _first = state.set_host_services(m.services);
    state.publish_parent(
        ParentSnapshot {
            origin_x: x,
            origin_y: y,
            width: w,
            height: h,
            fullscreen: false,
            maximized: false,
            scale_halves: m.scale_halves,
        },
    );
    set_embed_context(
        embed,
        m.services.video_host,
        m.services.atoms.net_wm_state,
        m.xfixes_opcode,
        max_i32(w, 1) as u16,
        max_i32(h, 1) as u16,
    );
    true
}

/// Whether a compositing manager runs: the owner of its selection is somebody.
/// One that could not be asked after is taken to run.
pub fn compositor_present(owner: Option<u32>) -> (r: bool)
    ensures
        r == (owner != Some(0u32)),
{
    match owner {
        Some(o) => o != 0,
        None => true,
    }
}

/// Shared memory with file descriptors came with version 1.2.
pub fn shm_usable(version: Option<(u16, u16)>) -> (r: bool)
    ensures
        r == (version matches Some(v) && (v.0 > 1 || (v.0 == 1 && v.1 >= 2))),
{
    match version {
        Some((major, minor)) => major > 1 || (major == 1 && minor >= 2),
        None => false,
    }
}

/// What init has found out.
#[derive(Clone, Copy, PartialEq, Eq, Debug)]
pub struct InitFacts {
    pub control_connection: bool,
    pub interop_connection: bool,
    pub screen: bool,
    pub argb_visual: Option<u32>,
    pub colormap: Option<u32>,
    pub shm: bool,
    /// No control connection is kept from before.
    pub no_connection_yet: bool,
}

/// Why init fails: the first thing that is missing.
#[derive(Clone, Copy, PartialEq, Eq, Structural, Debug)]
pub enum InitError {
    NoHostWindow,
    NoControlConnection,
    NoInteropConnection,
    NoScreen,
    NoArgbVisual,
    NoColormap,
    NoShm,
    PaintAlreadySet,
    ConnectionAlreadySet,
}

/// What can be in the way of init, in the order in which it is looked at.
pub open spec fn init_order() -> Seq<InitError> {
    seq![
        InitError::NoHostWindow,
        InitError::NoControlConnection,
        InitError::NoInteropConnection,
        InitError::NoScreen,
        InitError::NoArgbVisual,
        InitError::NoColormap,
        InitError::NoShm,
        InitError::PaintAlreadySet,
        InitError::ConnectionAlreadySet,
    ]
}

/// Whether this is in the way of init.
pub open spec fn in_the_way(e: InitError, state: X11State, facts: InitFacts) -> bool {
    match e {
        InitError::NoHostWindow => state.host is None,
        InitError::NoControlConnection => !facts.control_connection,
        InitError::NoInteropConnection => !facts.interop_connection,
        InitError::NoScreen => !facts.screen,
        InitError::NoArgbVisual => facts.argb_visual is None,
        InitError::NoColormap => facts.colormap is None,
        InitError::NoShm => !facts.shm,
        InitError::PaintAlreadySet => state.paint is Some,
        InitError::ConnectionAlreadySet => !facts.no_connection_yet,
    }
}

/// `e` is the first thing in the way of init.
pub open spec fn first_in_the_way(e: InitError, state: X11State, facts: InitFacts) -> bool {
    exists|i: int|
        #![trigger init_order()[i]]
        0 <= i < init_order().len() && init_order()[i] == e && in_the_way(e, state, facts)
            && forall|j: int|
            0 <= j < i ==> !in_the_way(#[trigger] init_order()[j], state, facts)
}

/// Depth of the visual that overlays are drawn with.
pub const ARGB_DEPTH: u8 = 32;

/// Initializes the platform, or says what is in the way first. With nothing in
/// the way but perhaps a connection kept from before, the visual facts are set;
/// otherwise nothing changes. Returns the window to read input from.
pub fn init(state: &mut X11State, facts: InitFacts) -> (r: Result<u32, InitError>)
    ensures
        match r {
            Ok(toplevel) => {
                &&& forall|i: int|
                    0 <= i < init_order().len() ==> !in_the_way(
                        #[trigger] init_order()[i],
                        *old(state),
                        facts,
                    )
                &&& old(state).host matches Some(h) && toplevel == h.toplevel
            },
            Err(e) => first_in_the_way(e, *old(state), facts),
        },
        r is Ok || r == Err::<u32, InitError>(InitError::ConnectionAlreadySet) ==> {
            &&& final(state).paint == Some(
                PaintServices {
                    argb_visual: facts.argb_visual->0,
                    argb_depth: ARGB_DEPTH,
                    colormap: facts.colormap->0,
                },
            )
            &&& final(state).host == old(state).host
            &&& final(state).parent == old(state).parent
            &&& final(state).windows@ == old(state).windows@
        },
        r is Err && r != Err::<u32, InitError>(InitError::ConnectionAlreadySet) ==> *final(state)
            == *old(state),
{
    let ghost order = init_order();
    let toplevel: u32 = match &state.host {
        Some(h) => h.toplevel,
        None => {
            assert(order[0] == InitError::NoHostWindow);
            return Err(InitError::NoHostWindow);
        },
    };
    if !facts.control_connection {
        assert(order[1] == InitError::NoControlConnection);
        return Err(InitError::NoControlConnection);
    }
    if !facts.interop_connection {
        assert(order[2] == InitError::NoInteropConnection);
        return Err(InitError::NoInteropConnection);
    }
    if !facts.screen {
        assert(order[3] == InitError::NoScreen);
        return Err(InitError::NoScreen);
    }
    let argb_visual: u32 = match facts.argb_visual {
        Some(v) => v,
        None => {
            assert(order[4] == InitError::NoArgbVisual);
            return Err(InitError::NoArgbVisual);
        },
    };
    let colormap: u32 = match facts.colormap {
        Some(c) => c,
        None => {
            assert(order[5] == InitError::NoColormap);
            return Err(InitError::NoColormap);
        },
    };
    if !facts.shm {
        assert(order[6] == InitError::NoShm);
        return Err(InitError::NoShm);
    }
    if state.paint.is_some() {
        assert(order[7] == InitError::PaintAlreadySet);
        return Err(InitError::PaintAlreadySet);
    }
    let _first = state.set_paint_services(
        PaintServices { argb_visual, argb_depth: ARGB_DEPTH, colormap },
    );
    if !facts.no_connection_yet {
        assert(order[8] == InitError::ConnectionAlreadySet);
        return Err(InitError::ConnectionAlreadySet);
    }
    Ok(toplevel)
}

/// The colormap to free when the platform goes, where there is one and a
/// connection to free it on.
pub fn cleanup(paint: Option<PaintServices>, connected: bool) -> (colormap: Option<u32>)
    ensures
        colormap == match paint {
            Some(p) => if connected && p.colormap != 0 {
                Some(p.colormap)
            } else {
                None
            },
            None => None,
        },
{
    match paint {
        Some(p) => if connected && p.colormap != 0 {
            Some(p.colormap)
        } else {
            None
        },
        None => None,
    }
}

pub open spec fn clamped_side(side: i32, screen: i32) -> i32 {
    if screen > 0 && side > screen {
        screen
    } else {
        side
    }
}

/// Clamps a saved size to the screen, where its extent is known.
pub fn clamp_window_geometry(w: &mut i32, h: &mut i32, screen: Option<(i32, i32)>)
    ensures
        *final(w) == match screen {
            Some(s) => clamped_side(*old(w), s.0),
            None => *old(w),
        },
        *final(h) == match screen {
            Some(s) => clamped_side(*old(h), s.1),
            None => *old(h),
        },
{
    if let Some((sw, sh)) = screen {
        if sw > 0 && *w > sw {
            *w = sw;
        }
        if sh > 0 && *h > sh {
            *h = sh;
        }
    }
}

} // verus!
