//! How the app's own windows come about and what is published of them, how a
//! frame is painted, and what scale the display has.

use vstd::prelude::*;

use crate::abi::WindowDecorations;
use crate::wayland::layer::SharedTexture;
use crate::x11::lifecycle::app_title;
use crate::x11::lifecycle::argb_visual_in;
use crate::x11::lifecycle::boot_window;
use crate::x11::lifecycle::clamp_window_geometry;
use crate::x11::lifecycle::cleanup;
use crate::x11::lifecycle::compositor_present;
use crate::x11::lifecycle::ensure_host_window;
use crate::x11::lifecycle::find_argb_visual;
use crate::x11::lifecycle::host_requests;
use crate::x11::lifecycle::host_views;
use crate::x11::lifecycle::host_window_needed;
use crate::x11::lifecycle::init;
use crate::x11::lifecycle::init_order;
use crate::x11::lifecycle::setup_sync_counter;
use crate::x11::lifecycle::shm_usable;
use crate::x11::lifecycle::toplevel_protocols;
use crate::x11::lifecycle::true_color_in;
use crate::x11::lifecycle::wm_class;
use crate::x11::lifecycle::BootGeometry;
use crate::x11::lifecycle::BootWindow;
use crate::x11::lifecycle::Depth;
use crate::x11::lifecycle::HostMade;
use crate::x11::lifecycle::HostPlan;
use crate::x11::lifecycle::HostRequest;
use crate::x11::lifecycle::HostRequestView;
use crate::x11::lifecycle::InitError;
use crate::x11::lifecycle::InitFacts;
use crate::x11::lifecycle::SyncSetup;
use crate::x11::lifecycle::Visual;
use crate::x11::lifecycle::VisualClass;
use crate::x11::mpv_proxy::SharedEmbed;
use crate::x11::platform::resolve_tier;
use crate::x11::platform::to_dmabuf_frame;
use crate::x11::platform::wants_gpu;
use crate::x11::platform::AcceleratedPaint;
use crate::x11::platform::ColorType;
use crate::x11::platform::PaintTier;
use crate::x11::platform::WindowSnapshot;
use crate::x11::platform::X11MpvHost;
use crate::x11::platform::X11PaintOverride;
use crate::x11::platform::X11Platform;
use crate::x11::platform::X11WindowSource;
use crate::x11::registry::GeometryCommand;
use crate::x11::registry::GeometryQueue;
use crate::x11::registry::SurfaceHandle;
use crate::x11::registry::SurfaceId;
use crate::x11::registry::SurfaceRecord;
use crate::x11::registry::SurfaceRegistry;
use crate::x11::scale::display_scale;
use crate::x11::scale::quantize_dpi;
use crate::x11::x11_state::overlay_windows;
use crate::x11::x11_state::Atoms;
use crate::x11::x11_state::HostServices;
use crate::x11::x11_state::PaintServices;
use crate::x11::x11_state::ParentSnapshot;
use crate::x11::x11_state::ShmBuffer;
use crate::x11::x11_state::X11State;

verus! {

/// A saved window comes back where and as large as it was, never smaller than one
/// pixel; without one it is 1600 by 900 logical pixels and the manager places it.
pub proof fn window_comes_back_as_saved(boot: Option<BootGeometry>, halves: i32, r: BootWindow)
    requires
        -0x10_0000 < halves < 0x10_0000,
        call_ensures(boot_window, (boot, halves), r),
    ensures
        boot matches Some(b) ==> {
            &&& r.w >= 1 && (b.physical.0 >= 1 ==> r.w == b.physical.0)
            &&& r.h >= 1 && (b.physical.1 >= 1 ==> r.h == b.physical.1)
            &&& b.position matches Some(p) ==> r.user_position && r.x == p.0 && r.y == p.1
            &&& b.position is None ==> !r.user_position
            &&& r.maximized == b.maximized
        },
        boot is None ==> 2 * r.w == 1600 * halves && 2 * r.h == 900 * halves && !r.user_position
            && !r.maximized,
{
}

/// A saved size is cut to the screen, each side by itself, and not otherwise
/// changed.
pub proof fn saved_size_is_cut_to_the_screen(w: &mut i32, h: &mut i32, screen: Option<(i32, i32)>, u: ())
    requires
        call_ensures(clamp_window_geometry, (w, h, screen), u),
    ensures
        screen is None ==> *final(w) == *old(w) && *final(h) == *old(h),
        screen matches Some(s) ==> {
            &&& s.0 > 0 ==> *final(w) <= s.0 && (*final(w) == *old(w) || *final(w) == s.0)
            &&& s.1 > 0 ==> *final(h) <= s.1 && (*final(h) == *old(h) || *final(h) == s.1)
            &&& *old(w) <= s.0 || s.0 <= 0 ==> *final(w) == *old(w)
            &&& *old(h) <= s.1 || s.1 <= 0 ==> *final(h) == *old(h)
        },
{
}

/// Making the host windows: the app's window at its boot rect comes first, the
/// video host fills it from inside, the video host is mapped before it and it is
/// mapped last; a position is insisted on only where it is the user's, and
/// maximized asked for only where it is to be.
pub proof fn host_windows_are_made_in_order(
    plan: HostPlan,
    atoms: Atoms,
    b: BootWindow,
    r: Vec<HostRequest>,
)
    requires
        call_ensures(host_requests, (plan, &atoms, b), r),
        -0x8000 <= b.x < 0x8000,
        -0x8000 <= b.y < 0x8000,
        0 <= b.w < 0x1_0000,
        0 <= b.h < 0x1_0000,
    ensures
        ({
            let v = host_views(r@);
            let n = v.len() as int;
            &&& n >= 7
            &&& v[0] matches HostRequestView::CreateToplevel { window, x, y, w, h }
            &&& window == plan.toplevel && x == b.x && y == b.y && w == b.w && h == b.h
            &&& v[n - 1] == (HostRequestView::MapWindow { window: plan.toplevel })
            &&& v[n - 2] == (HostRequestView::MapWindow { window: plan.video_host })
            &&& exists|i: int|
                0 < i < n - 2 && (#[trigger] v[i] matches HostRequestView::CreateVideoHost {
                    window: vw,
                    parent,
                    w: pw,
                    h: ph,
                } && vw == plan.video_host && parent == plan.toplevel && pw == b.w && ph == b.h)
            &&& forall|i: int|
                #![trigger v[i]]
                0 <= i < n ==> (v[i] matches HostRequestView::SetNormalHints {
                    window: hw,
                    x: hx,
                    y: hy,
                    w: sw,
                    h: sh,
                } ==> b.user_position && hw == plan.toplevel && hx == b.x && hy == b.y && sw == b.w
                    && sh == b.h)
            &&& b.user_position ==> exists|i: int|
                0 < i < n - 2 && #[trigger] v[i] is SetNormalHints
            &&& forall|i: int|
                #![trigger v[i]]
                0 <= i < n ==> (v[i] matches HostRequestView::SetInitialState {
                    window: mw,
                    first,
                    second,
                } ==> b.maximized && mw == plan.toplevel && first
                    == atoms.net_wm_state_maximized_vert && second
                    == atoms.net_wm_state_maximized_horz)
            &&& b.maximized ==> exists|i: int|
                0 < i < n - 2 && #[trigger] v[i] is SetInitialState
        }),
{
    let v = host_views(r@);
    let n = v.len() as int;
    let named = plan.utf8_string != 0 && plan.net_wm_name != 0;
    let a = if named {
        1int
    } else {
        0
    };
    let p = if b.user_position {
        1int
    } else {
        0
    };
    assert(v[4 + a + p] is CreateVideoHost);
    if b.user_position {
        assert(v[4 + a] is SetNormalHints);
    }
    if b.maximized {
        assert(v[5 + a + p] is SetInitialState);
    }
}

/// The app's window can always be closed, and takes part in resize
/// synchronisation exactly where there is a counter behind it.
pub proof fn sync_is_offered_with_a_counter(atoms: Atoms, counter: u32, r: Vec<u32>)
    requires
        call_ensures(toplevel_protocols, (&atoms, counter), r),
    ensures
        r@.len() >= 1 && r@[0] == atoms.wm_delete_window,
        r@.len() == 2 <==> counter != 0 && atoms.net_wm_sync_request != 0,
        r@.len() <= 2 && (r@.len() == 2 ==> r@[1] == atoms.net_wm_sync_request),
{
}

/// A counter is used where every step to it went well; one that was made in vain
/// is destroyed.
pub proof fn counter_is_all_or_nothing(atoms: Atoms, s: SyncSetup, r: (u32, bool))
    requires
        call_ensures(setup_sync_counter, (&atoms, s), r),
    ensures
        ({
            let made = atoms.net_wm_sync_request_counter != 0 && s.extension && s.counter is Some
                && s.created;
            &&& made && s.advertised ==> s.counter == Some(r.0) && !r.1
            &&& made && !s.advertised ==> r.0 == 0 && r.1
            &&& !made ==> r.0 == 0 && !r.1
        }),
{
}

/// Host windows that were made are known from then on: by their own facts, at
/// the geometry they really have, or else the one asked for, neither fullscreen
/// nor maximized yet. The proxy learns the same extent. Where none were needed
/// or none could be made nothing changes.
pub proof fn made_host_is_published(
    state: &mut X11State,
    embed: &mut SharedEmbed,
    needed: bool,
    made: Option<HostMade>,
    r: bool,
)
    requires
        call_ensures(host_window_needed, (&*old(state),), needed),
        call_ensures(ensure_host_window, (state, embed, needed, made), r),
    ensures
        needed <==> old(state).host is None,
        r ==> final(state).host is Some,
        r <==> !needed || made is Some,
        !needed || made is None ==> *final(state) == *old(state) && *final(embed) == *old(embed),
        needed && made is Some ==> {
            let m = made->Some_0;
            let p = final(state).parent;
            &&& final(state).host == Some(m.services)
            &&& m.queried matches Some(q) ==> p.origin_x == q.0 && p.origin_y == q.1 && p.width
                == q.2 && p.height == q.3
            &&& m.queried is None ==> p.origin_x == m.boot.x && p.origin_y == m.boot.y && p.width
                == m.boot.w && p.height == m.boot.h
            &&& !p.fullscreen && !p.maximized && p.scale_halves == m.scale_halves
            &&& final(embed).ctx matches Some(c)
            &&& c.video_host == m.services.video_host
            &&& c.net_wm_state == m.services.atoms.net_wm_state
            &&& c.xfixes_opcode == m.xfixes_opcode
            &&& 1 <= p.width < 0x1_0000 ==> c.published.0 == p.width
            &&& 1 <= p.height < 0x1_0000 ==> c.published.1 == p.height
            &&& p.width < 1 ==> c.published.0 == 1
            &&& p.height < 1 ==> c.published.1 == 1
        },
{
}

/// Init succeeds exactly where nothing is missing and nothing was set before;
/// then it knows the visual and its colormap and gives the app's window. What is
/// missing first is named.
pub proof fn init_names_what_is_missing(state: &mut X11State, f: InitFacts, r: Result<u32, InitError>)
    requires
        call_ensures(init, (state, f), r),
    ensures
        ({
            let s = *old(state);
            let all = s.host is Some && f.control_connection && f.interop_connection && f.screen
                && f.argb_visual is Some && f.colormap is Some && f.shm;
            &&& r is Ok <==> all && s.paint is None && f.no_connection_yet
            &&& r matches Ok(w) ==> {
                &&& w == s.host->Some_0.toplevel
                &&& final(state).paint matches Some(p)
                &&& p.argb_depth == 32 && Some(p.argb_visual) == f.argb_visual && Some(p.colormap)
                    == f.colormap
            }
            &&& s.host is None ==> r == Err::<u32, InitError>(InitError::NoHostWindow)
            &&& s.host is Some && !f.control_connection ==> r == Err::<u32, InitError>(
                InitError::NoControlConnection,
            )
            &&& s.host is Some && f.control_connection && !f.interop_connection ==> r == Err::<
                u32,
                InitError,
            >(InitError::NoInteropConnection)
            &&& s.host is Some && f.control_connection && f.interop_connection && !f.screen ==> r
                == Err::<u32, InitError>(InitError::NoScreen)
            &&& s.host is Some && f.control_connection && f.interop_connection && f.screen
                && f.argb_visual is None ==> r == Err::<u32, InitError>(InitError::NoArgbVisual)
            &&& s.host is Some && f.control_connection && f.interop_connection && f.screen
                && f.argb_visual is Some && f.colormap is None ==> r == Err::<u32, InitError>(
                InitError::NoColormap,
            )
            &&& s.host is Some && f.control_connection && f.interop_connection && f.screen
                && f.argb_visual is Some && f.colormap is Some && !f.shm ==> r == Err::<
                u32,
                InitError,
            >(InitError::NoShm)
            &&& all && s.paint is Some ==> r == Err::<u32, InitError>(InitError::PaintAlreadySet)
            &&& final(state).host == s.host && final(state).parent == s.parent
        }),
{
    let s = *old(state);
    let o = init_order();
    assert(o[0] == InitError::NoHostWindow);
    assert(o[1] == InitError::NoControlConnection);
    assert(o[2] == InitError::NoInteropConnection);
    assert(o[3] == InitError::NoScreen);
    assert(o[4] == InitError::NoArgbVisual);
    assert(o[5] == InitError::NoColormap);
    assert(o[6] == InitError::NoShm);
    assert(o[7] == InitError::PaintAlreadySet);
    assert(o[8] == InitError::ConnectionAlreadySet);
}

/// The visual that is found is a true-color one of a 32-bit depth; where there is
/// one, one is found.
pub proof fn found_visual_is_translucent(depths: Vec<Depth>, r: Option<u32>)
    requires
        call_ensures(find_argb_visual, (&depths,), r),
    ensures
        r matches Some(id) ==> offers(depths@, id),
        r is None ==> forall|id: u32| !#[trigger] offers(depths@, id),
{
    visual_is_offered(depths@);
}

/// Some 32-bit depth has this as a true-color visual.
pub open spec fn offers(depths: Seq<Depth>, id: u32) -> bool {
    exists|i: int, j: int|
        #![trigger depths[i].visuals@[j]]
        0 <= i < depths.len() && depths[i].depth == 32 && 0 <= j < depths[i].visuals@.len()
            && depths[i].visuals@[j].id == id && depths[i].visuals@[j].class
            == VisualClass::TrueColor
}

proof fn true_color_is_listed(v: Seq<Visual>)
    ensures
        match true_color_in(v) {
            Some(id) => exists|j: int|
                #![trigger v[j]]
                0 <= j < v.len() && v[j].id == id && v[j].class == VisualClass::TrueColor,
            None => forall|j: int|
                #![trigger v[j]]
                0 <= j < v.len() ==> v[j].class != VisualClass::TrueColor,
        },
    decreases v.len(),
{
    if v.len() > 0 && v[0].class != VisualClass::TrueColor {
        let rest = v.drop_first();
        true_color_is_listed(rest);
        assert forall|j: int| 0 <= j < rest.len() implies rest[j] == #[trigger] v[j + 1] by {}
        match true_color_in(rest) {
            Some(id) => {
                let j = choose|j: int|
                    #![trigger rest[j]]
                    0 <= j < rest.len() && rest[j].id == id && rest[j].class
                        == VisualClass::TrueColor;
                assert(v[j + 1].id == id);
            },
            None => {
                assert forall|j: int| #![trigger v[j]] 0 <= j < v.len() implies v[j].class
                    != VisualClass::TrueColor by {
                    if j > 0 {
                        assert(rest[j - 1] == v[j]);
                    }
                }
            },
        }
    } else if v.len() > 0 {
        assert(v[0].class == VisualClass::TrueColor);
    }
}

proof fn visual_is_offered(depths: Seq<Depth>)
    ensures
        match argb_visual_in(depths) {
            Some(id) => offers(depths, id),
            None => forall|id: u32| !#[trigger] offers(depths, id),
        },
    decreases depths.len(),
{
    if depths.len() > 0 {
        true_color_is_listed(depths[0].visuals@);
        let rest = depths.drop_first();
        visual_is_offered(rest);
        if depths[0].depth == 32 && true_color_in(depths[0].visuals@) is Some {
            let id = true_color_in(depths[0].visuals@)->Some_0;
            let v = depths[0].visuals@;
            let j = choose|j: int|
                #![trigger v[j]]
                0 <= j < v.len() && v[j].id == id && v[j].class == VisualClass::TrueColor;
            assert(depths[0].visuals@[j].id == id);
        } else {
            match argb_visual_in(rest) {
                Some(id) => {
                    let (i, j) = choose|i: int, j: int|
                        #![trigger rest[i].visuals@[j]]
                        0 <= i < rest.len() && rest[i].depth == 32 && 0 <= j
                            < rest[i].visuals@.len() && rest[i].visuals@[j].id == id
                            && rest[i].visuals@[j].class == VisualClass::TrueColor;
                    assert(rest[i] == depths[i + 1]);
                    assert(depths[i + 1].visuals@[j].id == id);
                },
                None => {
                    assert forall|id: u32| !#[trigger] offers(depths, id) by {
                        if offers(depths, id) {
                            let (i, j) = choose|i: int, j: int|
                                #![trigger depths[i].visuals@[j]]
                                0 <= i < depths.len() && depths[i].depth == 32 && 0 <= j
                                    < depths[i].visuals@.len() && depths[i].visuals@[j].id == id
                                    && depths[i].visuals@[j].class == VisualClass::TrueColor;
                            if i > 0 {
                                assert(rest[i - 1].visuals@[j].id == id);
                                assert(offers(rest, id));
                            } else {
                                let v = depths[0].visuals@;
                                assert(v[j].class == VisualClass::TrueColor);
                            }
                        }
                    }
                },
            }
        }
    }
}

/// Shared memory by descriptor needs version 1.2; a compositor runs unless its
/// selection is known to have no owner; a colormap is freed where there is one.
pub proof fn server_facts(
    v: Option<(u16, u16)>,
    shm: bool,
    owner: Option<u32>,
    present: bool,
    paint: Option<PaintServices>,
    connected: bool,
    freed: Option<u32>,
)
    requires
        call_ensures(shm_usable, (v,), shm),
        call_ensures(compositor_present, (owner,), present),
        call_ensures(cleanup, (paint, connected), freed),
    ensures
        shm <==> v is Some && v->Some_0.0 * 0x1_0000 + v->Some_0.1 >= 0x1_0002,
        present <==> owner != Some(0u32),
        freed matches Some(c) ==> connected && paint is Some && paint->Some_0.colormap == c && c
            != 0,
        connected && paint is Some && paint->Some_0.colormap != 0 ==> freed is Some,
{
}

/// The live window is published as it is: its extent once it has pixels, its
/// place, and its two modes. Before there is a window there is nothing.
pub proof fn live_window_is_published_as_it_is(s: X11WindowSource, state: X11State, r: WindowSnapshot)
    requires
        call_ensures(X11WindowSource::snapshot, (&s, &state), r),
    ensures
        state.host is None ==> r.extent is None && r.position is None && !r.maximized
            && !r.fullscreen,
        state.host is Some ==> {
            let p = state.parent;
            &&& r.extent is Some <==> p.width > 0 && p.height > 0
            &&& r.extent matches Some(e) ==> e.0 == p.width && e.1 == p.height && e.2
                == p.scale_halves
            &&& r.position matches Some(q) && q.0 == p.origin_x && q.1 == p.origin_y
            &&& r.maximized == p.maximized && r.fullscreen == p.fullscreen
        },
{
}

/// mpv embeds into the video host, once there is one.
pub proof fn mpv_embeds_into_the_video_host(h: X11MpvHost, state: X11State, r: Option<i64>, ready: bool)
    requires
        call_ensures(X11MpvHost::embed_wid, (&h, &state), r),
        call_ensures(X11MpvHost::host_ready, (&h, &state), ready),
    ensures
        ready <==> state.host is Some,
        r is Some <==> ready,
        r matches Some(w) ==> w == state.host->Some_0.video_host,
{
}

/// What is published of host, visual, parent and overlays is what readers see;
/// the first two are set once.
pub proof fn published_facts_are_kept(
    a: &mut X11State,
    h: HostServices,
    first: bool,
    b: &mut X11State,
    p: PaintServices,
    painted: bool,
    c: &mut X11State,
    snap: ParentSnapshot,
    u: (),
    d: &mut X11State,
    windows: Vec<u32>,
    seen: Vec<u32>,
)
    requires
        call_ensures(X11State::set_host_services, (a, h), first),
        call_ensures(X11State::set_paint_services, (b, p), painted),
        call_ensures(X11State::publish_parent, (c, snap), u),
        call_ensures(X11State::publish_overlay_windows, (d, windows), u),
        call_ensures(overlay_windows, (&*final(d),), seen),
    ensures
        first <==> old(a).host is None,
        first ==> final(a).host == Some(h),
        !first ==> final(a).host == old(a).host,
        painted <==> old(b).paint is None,
        painted ==> final(b).paint == Some(p),
        !painted ==> final(b).paint == old(b).paint,
        final(a).parent == old(a).parent && final(a).paint == old(a).paint && final(a).windows@
            == old(a).windows@,
        final(b).parent == old(b).parent && final(b).host == old(b).host && final(b).windows@
            == old(b).windows@,
        final(c).parent == snap && final(c).host == old(c).host && final(c).paint == old(c).paint
            && final(c).windows@ == old(c).windows@,
        seen@ == windows@,
        final(d).parent == old(d).parent && final(d).host == old(d).host && final(d).paint
            == old(d).paint,
{
}

/// A frame can be taken over where it has a plane, a known format and an extent;
/// then with its own extents, never negative, and exactly the planes it uses, in
/// order.
pub proof fn shared_frame_is_taken_over_whole<F>(
    p: AcceleratedPaint<F>,
    r: Option<(SharedTexture<F>, ColorType)>,
)
    requires
        call_ensures(to_dmabuf_frame::<F>, (p,), r),
    ensures
        r is Some <==> p.plane_count >= 1 && p.planes@.len() >= 1 && p.format != ColorType::Other
            && p.coded.w > 0 && p.coded.h > 0,
        r matches Some(v) ==> {
            let f = v.0;
            &&& f.coded.w == p.coded.w && f.coded.h == p.coded.h && f.modifier == p.modifier
            &&& f.visible.w >= 0 && (p.visible.w >= 0 ==> f.visible.w == p.visible.w)
            &&& f.visible.h >= 0 && (p.visible.h >= 0 ==> f.visible.h == p.visible.h)
            &&& v.1 == p.format
            &&& 1 <= f.planes@.len() <= p.planes@.len() && f.planes@.len() <= p.plane_count
            &&& f.planes@.len() == p.planes@.len() || f.planes@.len() == p.plane_count
            &&& forall|i: int| 0 <= i < f.planes@.len() ==> f.planes@[i] == p.planes@[i]
        },
{
}

/// Painting goes as far down the chain as it must and no further: shared textures
/// where they are wanted and work both ways, else the GPU where it is wanted and
/// there, else shared memory. A request that ends elsewhere is warned of.
pub proof fn tier_is_the_best_that_works(
    asked: Option<X11PaintOverride>,
    gpu: bool,
    imports: bool,
    produces: bool,
    r: (PaintTier, Option<X11PaintOverride>),
    opens: bool,
    platform: X11Platform,
    shares: bool,
)
    requires
        call_ensures(resolve_tier, (asked, gpu, imports, produces), r),
        call_ensures(wants_gpu, (asked,), opens),
        call_ensures(X11Platform::shared_texture_supported, (&platform, Some(r.0)), shares),
    ensures
        opens <==> asked != Some(X11PaintOverride::Shm),
        r.0.gpu <==> gpu && opens,
        r.0.use_dmabuf <==> r.0.gpu && imports && produces && asked != Some(X11PaintOverride::Gpu),
        shares == r.0.use_dmabuf,
        asked is None ==> r.1 is None,
        asked == Some(X11PaintOverride::Dmabuf) && r.0.use_dmabuf ==> r.1 is None,
        asked == Some(X11PaintOverride::Dmabuf) && !r.0.use_dmabuf && r.0.gpu ==> r.1 == Some(
            X11PaintOverride::Gpu,
        ),
        asked is Some && asked != Some(X11PaintOverride::Shm) && !r.0.gpu ==> r.1 == Some(
            X11PaintOverride::Shm,
        ),
        asked == Some(X11PaintOverride::Gpu) && r.0.gpu ==> r.1 is None,
        asked == Some(X11PaintOverride::Shm) ==> r.1 is None,
{
    match asked {
        Some(X11PaintOverride::Dmabuf) => {},
        Some(X11PaintOverride::Gpu) => {},
        Some(X11PaintOverride::Shm) => {},
        None => {},
    }
}

/// A window is never asked to draw its own titlebar; any other wish counts, and
/// without one the default does.
pub proof fn titlebar_is_left_to_the_manager(
    p: X11Platform,
    wish: Option<WindowDecorations>,
    default: WindowDecorations,
    r: WindowDecorations,
    fs: bool,
    player: Option<bool>,
    tell: bool,
)
    requires
        call_ensures(X11Platform::resolve_window_decorations, (&p, wish, default), r),
        call_ensures(X11Platform::set_fullscreen, (&p, fs, player), tell),
    ensures
        r != WindowDecorations::Csd,
        wish matches Some(w) ==> w != WindowDecorations::Csd ==> r == w,
        wish == Some(WindowDecorations::Csd) ==> r == WindowDecorations::Server,
        wish is None && default != WindowDecorations::Csd ==> r == default,
        wish is None && default == WindowDecorations::Csd ==> r == WindowDecorations::Server,
        tell <==> player is Some && player != Some(fs),
{
}

/// A resolution gives the nearest half step of 96 dots per inch, above an
/// unscaled display and below ten times that; anything else gives none.
pub proof fn resolution_gives_the_nearest_half_step(dpi: i64, r: Option<i32>)
    requires
        call_ensures(quantize_dpi, (dpi,), r),
    ensures
        r matches Some(s) ==> 2 < s < 20 && -24 <= dpi - 48 * s <= 24,
        dpi <= 120 ==> r is None,
        120 < dpi < 936 ==> r is Some,
        dpi > 936 ==> r is None,
{
}

/// The resource database decides where it says anything; else the screen does
/// where its two axes agree.
pub proof fn scale_comes_from_the_first_that_knows(
    xft: Option<i64>,
    x: Option<i32>,
    y: Option<i32>,
    r: Option<i32>,
    dpi: i64,
    q: Option<i32>,
)
    requires
        call_ensures(display_scale, (xft, x, y), r),
        call_ensures(quantize_dpi, (dpi,), q),
    ensures
        xft == Some(dpi) && q is Some ==> r == q,
        xft is None || xft == Some(dpi) && q is None ==> {
            &&& r is Some <==> x is Some && x == y
            &&& r is Some ==> r == x
        },
{
}

/// A shared buffer is what it was last set to, and nothing once cleared.
pub proof fn buffer_is_as_last_set<M>(
    b: &mut ShmBuffer<M>,
    seg: u32,
    map: M,
    w: i32,
    h: i32,
    u: (),
    s: u32,
    d: (i32, i32),
    mapped: bool,
    c: &mut ShmBuffer<M>,
    gone: bool,
)
    requires
        call_ensures(ShmBuffer::<M>::set, (b, seg, map, w, h), u),
        call_ensures(ShmBuffer::<M>::seg, (&*final(b),), s),
        call_ensures(ShmBuffer::<M>::dims, (&*final(b),), d),
        call_ensures(ShmBuffer::<M>::is_mapped, (&*final(b),), mapped),
        call_ensures(ShmBuffer::<M>::clear, (c,), u),
        call_ensures(ShmBuffer::<M>::is_mapped, (&*final(c),), gone),
    ensures
        s == seg && d.0 == w && d.1 == h && mapped && final(b).map == Some(map),
        !gone && final(c).seg == 0 && final(c).w == 0 && final(c).h == 0,
{
}

/// A surface that was added is found as it was added; hiding and showing it is
/// seen under its own id alone; freed, it is found no more, and no other is lost.
pub proof fn surfaces_are_found_by_their_id(
    a: &mut SurfaceRegistry,
    record: SurfaceRecord,
    id: SurfaceId,
    got: Option<SurfaceRecord>,
    b: &mut SurfaceRegistry,
    visible: bool,
    found: bool,
    shown: Option<SurfaceRecord>,
    c: &mut SurfaceRegistry,
    removed: Option<SurfaceRecord>,
    after: Option<SurfaceRecord>,
    other: SurfaceId,
    kept: Option<SurfaceRecord>,
    before: Option<SurfaceRecord>,
)
    requires
        call_ensures(SurfaceRegistry::insert, (a, record), id),
        call_ensures(SurfaceRegistry::get, (&*final(a), id), got),
        *old(b) == *final(a),
        call_ensures(SurfaceRegistry::set_visible, (b, id, visible), found),
        call_ensures(SurfaceRegistry::get, (&*final(b), id), shown),
        *old(c) == *final(b),
        call_ensures(SurfaceRegistry::remove, (c, id), removed),
        call_ensures(SurfaceRegistry::get, (&*final(c), id), after),
        other != id,
        call_ensures(SurfaceRegistry::get, (&*old(a), other), before),
        call_ensures(SurfaceRegistry::get, (&*final(c), other), kept),
    ensures
        got == Some(record),
        found && shown == Some(SurfaceRecord { visible }),
        removed == shown && after is None,
        kept == before,
{
    crate::x11::registry::surface_id_ext(other, id);
}

/// An id goes to the browser and back unchanged, and is never the none handle.
pub proof fn id_survives_the_browser(id: SurfaceId, h: SurfaceHandle, none: bool, back: SurfaceId)
    requires
        call_ensures(SurfaceId::to_handle, (id,), h),
        call_ensures(SurfaceHandle::is_none, (h,), none),
        call_ensures(SurfaceId::from_handle, (h,), back),
    ensures
        !none && h.id != 0,
        back == id,
{
    crate::x11::registry::surface_id_ext(back, id);
}

/// Commands are taken in the order they were given, once, and giving one wakes
/// the thread; before there is a thread they are dropped.
pub proof fn commands_keep_their_order(
    q: &mut GeometryQueue,
    cmd: GeometryCommand,
    u: (),
    p: &mut GeometryQueue,
    r: Vec<GeometryCommand>,
)
    requires
        call_ensures(GeometryQueue::enqueue, (q, cmd), u),
        old(p).commands@ == final(q).commands@,
        call_ensures(GeometryQueue::drain_commands, (p,), r),
    ensures
        final(q).resync,
        old(q).installed ==> r@.len() == old(q).commands@.len() + 1 && r@.last() == cmd
            && r@.drop_last() == old(q).commands@,
        !old(q).installed ==> r@ == old(q).commands@,
        final(p).commands@.len() == 0,
{
    if old(q).installed {
        assert(r@.drop_last() =~= old(q).commands@);
    }
}

/// The app's window has its title, and its class twice over, each closed by a
/// null. Decorations are a choice here; the clipboard is not read.
pub proof fn window_is_named(
    class: &'static str,
    title: &'static str,
    p: X11Platform,
    decorations: bool,
    clipboard: bool,
)
    requires
        call_ensures(wm_class, (), class),
        call_ensures(app_title, (), title),
        call_ensures(X11Platform::window_decorations_supported, (&p,), decorations),
        call_ensures(X11Platform::clipboard_text_supported, (&p,), clipboard),
    ensures
        class@.len() == 54,
        class@.take(26) == "net.nullsum.JelliumDesktop"@,
        class@[26] == '\0' && class@[53] == '\0',
        forall|i: int| #![trigger class@[i]] 0 <= i < 27 ==> class@[i] == class@[i + 27],
        title@ == "Jellium Desktop"@,
        decorations && !clipboard,
{
    reveal_strlit("net.nullsum.JelliumDesktop\0net.nullsum.JelliumDesktop\0");
    reveal_strlit("net.nullsum.JelliumDesktop");
    assert(class@.take(26) =~= "net.nullsum.JelliumDesktop"@);
}

} // verus!
