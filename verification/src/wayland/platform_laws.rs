//! What the platform's operations do to surfaces, menus and colors, and which
//! output gives the scale.

use vstd::prelude::*;

use crate::abi::Generation;
use crate::abi::JfnRect;
use crate::abi::MenuPlacement;
use crate::abi::Rgb;
use crate::abi::WindowDecorations;
use crate::wayland::input::SeatShared;
use crate::wayland::layer::Present;
use crate::wayland::layer::PresentError;
use crate::wayland::layer::SharedTexture;
use crate::wayland::layer::ViewportState;
use crate::wayland::layer_actor::Kind;
use crate::wayland::layer_actor::LayerActor;
use crate::wayland::mpv_proxy::ProxyShared;
use crate::wayland::platform::announced;
use crate::wayland::platform::create_popup;
use crate::wayland::platform::destroy_popup;
use crate::wayland::platform::has_decoration_manager;
use crate::wayland::platform::hex_color;
use crate::wayland::platform::lifecycle_cleanup;
use crate::wayland::platform::menu_clamp;
use crate::wayland::platform::present_ok;
use crate::wayland::platform::probe_decorations;
use crate::wayland::platform::split_rgb;
use crate::wayland::platform::DecorationGlobals;
use crate::wayland::platform::MenuClose;
use crate::wayland::platform::WaylandMpvHost;
use crate::wayland::platform::WaylandPlatform;
use crate::wayland::platform::WaylandWindowSource;
use crate::wayland::platform::WindowSnapshot;
use crate::wayland::popup_place::Placed;
use crate::wayland::root_window::DecorationRequest;
use crate::wayland::root_window::PopupCommand;
use crate::wayland::root_window::RootShared;
use crate::wayland::root_window::WindowCommand;
use crate::wayland::scale::Scale120;
use crate::wayland::scale_probe::candidate;
use crate::wayland::scale_probe::collect_candidates;
use crate::wayland::scale_probe::eligible;
use crate::wayland::scale_probe::first_current;
use crate::wayland::scale_probe::first_usable;
use crate::wayland::scale_probe::probe_scale;
use crate::wayland::scale_probe::probe_scale_bounded;
use crate::wayland::scale_probe::select_scale;
use crate::wayland::scale_probe::transform_swaps_axes;
use crate::wayland::scale_probe::OutputCandidate;
use crate::wayland::scale_probe::OutputInfo;
use crate::wayland::scale_probe::OutputMode;
use crate::wayland::scale_probe::ProbeReply;
use crate::wayland::scale_probe::ProbeTarget;
use crate::wayland::scale_probe::ScaleProbeError;
use crate::wayland::scale_probe::Transform;
use crate::wayland::window_state::PublishedExtent;
use crate::wayland::window_state::WindowMode;
use crate::wayland::window_state::WindowState;
use crate::wayland::wl_ops::extent_or;
use crate::wayland::wl_ops::freed_surface_leaves_the_stack;
use crate::wayland::wl_ops::layer_kind;
use crate::wayland::wl_ops::named_layers;
use crate::wayland::wl_ops::without;
use crate::wayland::wl_ops::PlatformSurface;
use crate::wayland::wl_ops::SurfaceStack;

verus! {

/// A frame fills the window, or itself before the window's extent is known; a
/// layer is painted on the GPU where that is wanted and possible.
pub proof fn frame_takes_the_window_extent(
    e: Option<PublishedExtent>,
    w: i32,
    h: i32,
    r: ViewportState,
    wanted: bool,
    there: bool,
    kind: Kind,
    clamp: Option<i32>,
)
    requires
        call_ensures(extent_or, (&e, w, h), r),
        call_ensures(layer_kind, (wanted, there), kind),
        call_ensures(menu_clamp, (&e,), clamp),
    ensures
        e matches Some(x) ==> r.lw == x.logical.w() && r.lh == x.logical.h() && r.pw
            == x.physical.w() && r.ph == x.physical.h() && clamp == Some(r.ph),
        e is None ==> r.lw == w && r.pw == w && r.lh == h && r.ph == h && clamp is None,
        kind == Kind::Gpu <==> wanted && there,
        kind == Kind::Shm <==> !(wanted && there),
{
}

/// A shared texture on a surface that takes it shows the layer, sizes it to the
/// window and leaves it the texture; on any other it is skipped. Off size it is
/// taken only where nothing is shown.
pub proof fn texture_goes_to_the_layer<F>(
    s: &mut PlatformSurface<F>,
    frame: SharedTexture<F>,
    supported: bool,
    fits: bool,
    window: Option<PublishedExtent>,
    r: Result<Present, PresentError>,
    e: ViewportState,
    a: &mut LayerActor<F>,
    b: &mut LayerActor<F>,
    c: &mut LayerActor<F>,
    u: (),
    q: Result<Present, PresentError>,
)
    requires
        call_ensures(
            PlatformSurface::<F>::surface_present,
            (s, frame, supported, fits, &window),
            r,
        ),
        call_ensures(extent_or, (&window, frame.coded.w, frame.coded.h), e),
        old(s).actor == Some(*old(a)),
        call_ensures(LayerActor::<F>::set_visible, (a, true), u),
        *old(b) == *final(a),
        call_ensures(LayerActor::<F>::resize, (b, e.lw, e.lh, e.pw, e.ph), u),
        *old(c) == *final(b),
        call_ensures(LayerActor::<F>::present_dmabuf, (c, frame), q),
    ensures
        ({
            let taken = old(s).has_surface && old(s).visible && supported && (fits
                || old(s).null_attached);
            &&& taken ==> r == q && final(s).actor is Some && final(s).actor->Some_0.state@
                == final(c).state@ && !final(s).null_attached
            &&& !taken ==> r == Ok::<Present, PresentError>(Present::Skipped) && *final(s)
                == *old(s)
            &&& final(s).visible == old(s).visible && final(s).has_surface == old(s).has_surface
        }),
{
}

/// A software frame on a shown surface does the same with its pixels; one without
/// area is refused before anything else.
pub proof fn pixels_go_to_the_layer<F>(
    s: &mut PlatformSurface<F>,
    dirty: &[JfnRect],
    pixels: &[u8],
    w: i32,
    h: i32,
    window: Option<PublishedExtent>,
    r: Result<Present, PresentError>,
    e: ViewportState,
    a: &mut LayerActor<F>,
    b: &mut LayerActor<F>,
    c: &mut LayerActor<F>,
    u: (),
    q: Result<Present, PresentError>,
)
    requires
        call_ensures(
            PlatformSurface::<F>::surface_present_software,
            (s, dirty, pixels, w, h, &window),
            r,
        ),
        call_ensures(extent_or, (&window, w, h), e),
        old(s).actor == Some(*old(a)),
        call_ensures(LayerActor::<F>::set_visible, (a, true), u),
        *old(b) == *final(a),
        call_ensures(LayerActor::<F>::resize, (b, e.lw, e.lh, e.pw, e.ph), u),
        *old(c) == *final(b),
        call_ensures(LayerActor::<F>::present_software, (c, pixels, w, h, dirty), q),
    ensures
        ({
            let area = w > 0 && h > 0;
            let taken = area && old(s).has_surface && old(s).visible;
            &&& taken ==> r == q && final(s).actor is Some && final(s).actor->Some_0.state@
                == final(c).state@ && !final(s).null_attached
            &&& !area ==> r == Err::<Present, PresentError>(PresentError::BadDimensions(w, h))
                && *final(s) == *old(s)
            &&& area && !taken ==> r == Ok::<Present, PresentError>(Present::Skipped) && *final(s)
                == *old(s)
            &&& final(s).visible == old(s).visible && final(s).has_surface == old(s).has_surface
        }),
{
}

/// Showing or hiding a surface that exists is passed on to its layer and presents
/// the root, once; off the GPU a shown one gets a placeholder in the background
/// color. A hidden one has nothing on it.
pub proof fn surface_is_shown_and_hidden<F>(
    s: &mut PlatformSurface<F>,
    visible: bool,
    gpu: bool,
    cr: u8,
    cg: u8,
    cb: u8,
    present: bool,
    a: &mut LayerActor<F>,
    b: &mut LayerActor<F>,
    u: (),
    t: &mut PlatformSurface<F>,
    again: bool,
)
    requires
        call_ensures(
            PlatformSurface::<F>::surface_set_visible,
            (s, visible, gpu, cr, cg, cb),
            present,
        ),
        old(s).actor == Some(*old(a)),
        call_ensures(LayerActor::<F>::set_visible, (a, visible), u),
        *old(b) == *final(a),
        call_ensures(LayerActor::<F>::request_placeholder, (b, cr, cg, cb), u),
        *old(t) == *final(s),
        call_ensures(
            PlatformSurface::<F>::surface_set_visible,
            (t, visible, gpu, cr, cg, cb),
            again,
        ),
    ensures
        present <==> old(s).has_surface && old(s).visible != visible,
        !again,
        final(s).visible == visible && final(s).has_surface == old(s).has_surface,
        final(s).actor is Some,
        present && visible && !gpu ==> final(s).actor->Some_0.state@ == final(b).state@,
        present && !(visible && !gpu) ==> final(s).actor->Some_0.state@ == final(a).state@,
        !present ==> final(s).actor->Some_0.state@ == old(a).state@ && final(s).null_attached
            == old(s).null_attached,
        present ==> (final(s).null_attached <==> !visible),
{
}

/// A new extent of the window is passed on to the layer; a surface starts with
/// nothing.
pub proof fn configured_extent_reaches_the_layer<F>(
    s: &mut PlatformSurface<F>,
    e: PublishedExtent,
    u: (),
    a: &mut LayerActor<F>,
    fresh: PlatformSurface<F>,
)
    requires
        call_ensures(PlatformSurface::<F>::on_configure, (s, &e), u),
        old(s).actor == Some(*old(a)),
        call_ensures(
            LayerActor::<F>::resize,
            (a, e.logical.w(), e.logical.h(), e.physical.w(), e.physical.h()),
            u,
        ),
        call_ensures(PlatformSurface::<F>::new, (), fresh),
    ensures
        final(s).actor is Some && final(s).actor->Some_0.state@ == final(a).state@,
        final(s).visible == old(s).visible && final(s).has_surface == old(s).has_surface
            && final(s).null_attached == old(s).null_attached,
        !fresh.has_surface && !fresh.visible && !fresh.null_attached && fresh.actor is None,
{
}

/// The one list is the other with some entries left out.
pub open spec fn keeps_order(all: Seq<u64>, some: Seq<u64>) -> bool {
    exists|at: Seq<int>| #[trigger] picks(all, some, at)
}

/// The entries of `some` stand in `all` at these rising places.
pub open spec fn picks(all: Seq<u64>, some: Seq<u64>, at: Seq<int>) -> bool {
    &&& at.len() == some.len()
    &&& forall|i: int| 0 <= i < at.len() ==> 0 <= #[trigger] at[i] < all.len() && all[at[i]] == some[i]
    &&& forall|i: int, j: int| 0 <= i < j < at.len() ==> at[i] < at[j]
}

proof fn named_in_order(stack: Seq<u64>, freed: u64)
    ensures
        keeps_order(stack, named_layers(stack)),
        keeps_order(stack, without(stack, freed)),
    decreases stack.len(),
{
    if stack.len() == 0 {
        assert(picks(stack, named_layers(stack), Seq::<int>::empty()));
        assert(picks(stack, without(stack, freed), Seq::<int>::empty()));
    } else {
        let front = stack.drop_last();
        named_in_order(front, freed);
        let last = stack.len() - 1;
        let a = choose|at: Seq<int>| #[trigger] picks(front, named_layers(front), at);
        let b = choose|at: Seq<int>| #[trigger] picks(front, without(front, freed), at);
        assert(picks(stack, named_layers(front), a));
        assert(picks(stack, without(front, freed), b));
        if stack.last() != 0 {
            assert(picks(stack, named_layers(stack), a.push(last)));
        }
        if stack.last() != freed {
            assert(picks(stack, without(stack, freed), b.push(last)));
        }
    }
}

/// The scene stacks the layers of the order it is given, bottom to top, null
/// surfaces left out; a freed surface leaves the order, and no other does.
pub proof fn scene_is_stacked_as_ordered(
    s: &mut SurfaceStack,
    ordered: &[u64],
    r: Vec<u64>,
    t: &mut SurfaceStack,
    freed: u64,
    u: (),
    id: u64,
    v: &mut SurfaceStack,
    fullscreen: bool,
    window: Option<PublishedExtent>,
    sized: Vec<u64>,
    fresh: SurfaceStack,
)
    requires
        call_ensures(SurfaceStack::restack, (s, ordered), r),
        *old(t) == *final(s),
        call_ensures(SurfaceStack::free_surface, (t, freed), u),
        *old(v) == *final(s),
        call_ensures(SurfaceStack::on_configure, (v, fullscreen, &window), sized),
        call_ensures(SurfaceStack::new, (), fresh),
    ensures
        final(s).stack@ == ordered@,
        r@.contains(id) <==> ordered@.contains(id) && id != 0,
        keeps_order(ordered@, r@),
        final(t).stack@.contains(id) <==> ordered@.contains(id) && id != freed,
        keeps_order(ordered@, final(t).stack@),
        window is Some ==> sized@ == r@ && final(v).was_fullscreen == fullscreen,
        window is None ==> sized@.len() == 0 && final(v).was_fullscreen == old(s).was_fullscreen,
        final(t).was_fullscreen == old(s).was_fullscreen,
        fresh.stack@.len() == 0 && !fresh.was_fullscreen,
{
    freed_surface_leaves_the_stack(ordered@, freed, id);
    named_in_order(ordered@, freed);
}

/// A placement is put on the wire where it differs from the one there; a held one
/// follows the mapping, once.
pub proof fn placement_is_sent_once(
    first: MenuPlacement,
    p: Placed,
    a: &mut Placed,
    want: MenuPlacement,
    u: (),
    b: &mut Placed,
    r: Option<MenuPlacement>,
    c: &mut Placed,
    again: Option<MenuPlacement>,
    d: &mut Placed,
    sent: Option<MenuPlacement>,
    e: &mut Placed,
    twice: Option<MenuPlacement>,
)
    requires
        call_ensures(Placed::created, (first,), p),
        *old(a) == p,
        call_ensures(Placed::hold, (a, want), u),
        *old(b) == *final(a),
        call_ensures(Placed::on_map, (b,), r),
        *old(c) == *final(b),
        call_ensures(Placed::on_map, (c,), again),
        *old(d) == p,
        call_ensures(Placed::send, (d, want), sent),
        *old(e) == *final(d),
        call_ensures(Placed::send, (e, want), twice),
    ensures
        r is Some <==> want != first,
        r is Some ==> r == Some(want),
        final(b).sent == want && again is None,
        sent is Some <==> want != first,
        sent is Some ==> sent == Some(want),
        twice is None && final(e).sent == want,
{
}

/// A color's parts are its bytes, red first; written out they are two digits
/// each, and read back give the color.
pub proof fn color_is_its_bytes(rgb: u32, c: Rgb, text: [u8; 7])
    requires
        call_ensures(split_rgb, (rgb,), c),
        call_ensures(hex_color, (c,), text),
        rgb < 0x100_0000,
    ensures
        rgb == 0x1_0000 * c.r + 0x100 * c.g + c.b,
        text@[0] == 35,
        c.r == 16 * digit_value(text@[1]) + digit_value(text@[2]),
        c.g == 16 * digit_value(text@[3]) + digit_value(text@[4]),
        c.b == 16 * digit_value(text@[5]) + digit_value(text@[6]),
        forall|i: int|
            #![trigger text@[i]]
            1 <= i < 7 ==> 48 <= text@[i] <= 57 || 97 <= text@[i] <= 102,
{
}

/// What a hexadecimal digit stands for.
pub open spec fn digit_value(c: u8) -> int {
    if c <= 57 {
        c - 48
    } else {
        c - 97 + 10
    }
}

/// The theme's color becomes the window's background and wakes the window.
pub proof fn theme_color_is_the_background(
    p: WaylandPlatform,
    root: &mut RootShared,
    rgb: u32,
    c: Rgb,
    s: Rgb,
)
    requires
        call_ensures(WaylandPlatform::set_theme_color, (&p, root, rgb), c),
        call_ensures(split_rgb, (rgb,), s),
    ensures
        c == s,
        final(root).flags.pending_bg == Some(s),
        final(root).flags.wake,
        final(root).commands@ == old(root).commands@,
        final(root).flags.pending_fs == old(root).flags.pending_fs,
{
}

/// Shared textures and the clipboard work until they are said not to.
pub proof fn abilities_last_until_lost(
    p: WaylandPlatform,
    a: &mut WaylandPlatform,
    b: &mut WaylandPlatform,
    u: (),
    t0: bool,
    c0: bool,
    t1: bool,
    c1: bool,
    t2: bool,
    c2: bool,
)
    requires
        call_ensures(WaylandPlatform::new, (), p),
        call_ensures(WaylandPlatform::shared_texture_supported, (&p,), t0),
        call_ensures(WaylandPlatform::clipboard_text_supported, (&p,), c0),
        call_ensures(WaylandPlatform::set_shared_texture_unsupported, (a,), u),
        call_ensures(WaylandPlatform::shared_texture_supported, (&*final(a),), t1),
        call_ensures(WaylandPlatform::clipboard_text_supported, (&*final(a),), c1),
        call_ensures(WaylandPlatform::clear_clipboard_handler, (b,), u),
        call_ensures(WaylandPlatform::shared_texture_supported, (&*final(b),), t2),
        call_ensures(WaylandPlatform::clipboard_text_supported, (&*final(b),), c2),
    ensures
        t0 && c0,
        !t1 && c1 == old(a).clipboard,
        !c2 && t2 == old(b).shared_texture,
{
}

/// A software frame has four bytes for each pixel, where there are any.
pub proof fn frame_length_is_four_a_pixel(
    p: WaylandPlatform,
    there: bool,
    w: i32,
    h: i32,
    r: Option<usize>,
)
    requires
        call_ensures(WaylandPlatform::software_len, (&p, there, w, h), r),
    ensures
        r matches Some(n) ==> there && w > 0 && h > 0 && n == w * h + w * h + w * h + w * h,
        r is None && there && w > 0 && h > 0 ==> 4 * (w * h) > usize::MAX,
{
}

/// A skip is no failure. The input thread is handed over once.
pub proof fn only_an_error_fails(
    result: Result<Present, PresentError>,
    ok: bool,
    a: &mut Option<u64>,
    first: Option<u64>,
    b: &mut Option<u64>,
    second: Option<u64>,
)
    requires
        call_ensures(present_ok, (&result,), ok),
        call_ensures(lifecycle_cleanup::<u64>, (a,), first),
        *old(b) == *final(a),
        call_ensures(lifecycle_cleanup::<u64>, (b,), second),
    ensures
        result is Ok ==> ok,
        result is Err ==> !ok,
        first == *old(a) && second is None,
{
}

/// A global counts where it was announced, and only there.
pub proof fn decorations_are_looked_up(
    v: Vec<String>,
    manager: bool,
    some: Option<Vec<String>>,
    none: Option<Vec<String>>,
    palette: DecorationGlobals,
    without_any: DecorationGlobals,
    i: int,
)
    requires
        call_ensures(has_decoration_manager, (&v,), manager),
        some == Some(v),
        none is None,
        call_ensures(probe_decorations, (&some,), palette),
        call_ensures(probe_decorations, (&none,), without_any),
        0 <= i < v@.len(),
    ensures
        v@[i]@ == "zxdg_decoration_manager_v1"@ ==> manager,
        manager ==> announced(v@, "zxdg_decoration_manager_v1"@),
        v@[i]@ == "org_kde_kwin_server_decoration_palette_manager"@ ==> palette.kde_palette,
        palette.kde_palette ==> announced(
            v@,
            "org_kde_kwin_server_decoration_palette_manager"@,
        ),
        !without_any.kde_palette,
{
}

/// The live window is published with the mode it has, once its extent is known;
/// the host is ready once its scale is.
pub proof fn live_window_has_its_mode(
    s: WaylandWindowSource,
    w: WindowState,
    r: WindowSnapshot,
    e: Option<PublishedExtent>,
    h: WaylandMpvHost,
    ready: bool,
)
    requires
        call_ensures(WaylandWindowSource::snapshot, (&s, &w), r),
        call_ensures(WindowState::window_extent, (&w,), e),
        call_ensures(WaylandMpvHost::host_ready, (&h, &w), ready),
    ensures
        r.extent == e,
        e is None ==> !r.maximized && !r.fullscreen,
        e is Some ==> (r.maximized <==> w.mode == WindowMode::Maximized) && (r.fullscreen <==> w.mode
            == WindowMode::Fullscreen),
        ready <==> w.scale is Some,
{
}

/// mpv is pointed at the first proxy that has a name, and then the wished
/// decorations are asked for.
pub proof fn mpv_is_pointed_at_the_first_proxy(
    h: WaylandMpvHost,
    p: &mut ProxyShared,
    root: &mut RootShared,
    wish: Option<WindowDecorations>,
    named: bool,
    r: bool,
    q: &mut ProxyShared,
    root2: &mut RootShared,
    again: bool,
)
    requires
        call_ensures(WaylandMpvHost::proxy_started, (&h, p, root, wish, named), r),
        *old(q) == *final(p),
        call_ensures(WaylandMpvHost::proxy_started, (&h, q, root2, wish, named), again),
    ensures
        r <==> !old(p).running && named,
        !again && final(root2).flags == old(root2).flags,
        final(p).running && final(p).window == old(p).window,
        r && wish is None ==> final(root).flags.decoration_request == DecorationRequest::Auto,
        r && wish == Some(WindowDecorations::Csd) ==> final(root).flags.decoration_request
            == DecorationRequest::ClientSide,
        r && wish is Some && wish != Some(WindowDecorations::Csd)
            ==> final(root).flags.decoration_request == DecorationRequest::ServerSide,
        !r ==> final(root).flags == old(root).flags,
        final(root).flags.effective == old(root).flags.effective && final(root).flags.wake
            == old(root).flags.wake,
{
}

/// A menu is asked for behind what is queued, citing its own serial or else the
/// last input's. Closing it asks for its end; a focus loss that was held back is
/// delivered only where the compositor dismissed it, and dropped where it never
/// came up.
pub proof fn menus_are_asked_for_and_closed(
    root: &mut RootShared,
    seat: SeatShared,
    g: Generation,
    at: MenuPlacement,
    serial: u32,
    u: (),
    root2: &mut RootShared,
    seat2: &mut SeatShared,
    reason: MenuClose,
    deliver: bool,
)
    requires
        call_ensures(create_popup, (root, &seat, g, at, serial), u),
        call_ensures(destroy_popup, (root2, seat2, g, reason), deliver),
    ensures
        ({
            let n = old(root).commands@.len() as int;
            &&& final(root).commands@.len() == n + 1
            &&& final(root).commands@.take(n) == old(root).commands@
            &&& final(root).commands@[n] matches WindowCommand::Popup(
                PopupCommand::Create { generation, place, serial: s },
            )
            &&& generation == g && place == at
            &&& serial != 0 ==> s == serial
            &&& serial == 0 ==> s == seat.last_input_serial
        }),
        final(root).flags.wake && final(root2).flags.wake,
        final(root2).commands@.len() == old(root2).commands@.len() + 1,
        final(root2).commands@.last() == WindowCommand::Popup(
            PopupCommand::Destroy { generation: g },
        ),
        deliver ==> reason == MenuClose::External && old(seat2).suppressed_focus_loss,
        reason == MenuClose::External && old(seat2).suppressed_focus_loss ==> deliver,
        reason == MenuClose::Finished ==> *final(seat2) == *old(seat2),
        reason != MenuClose::Finished ==> !final(seat2).suppressed_focus_loss,
        final(seat2).last_input_serial == old(seat2).last_input_serial
            && final(seat2).last_button_serial == old(seat2).last_button_serial,
{
    assert(final(root).commands@.take(old(root).commands@.len() as int) =~= old(root).commands@);
}

/// An output holds the points from its position up to, not including, its far
/// edges.
pub proof fn output_holds_its_points(o: OutputCandidate, x: i32, y: i32, r: bool)
    requires
        call_ensures(OutputCandidate::contains, (&o, x, y), r),
    ensures
        r <==> {
            &&& o.logical_pos.0 <= x && x - o.logical_pos.0 < o.logical_size.0 && x < 0x7fff_ffff
            &&& o.logical_pos.1 <= y && y - o.logical_pos.1 < o.logical_size.1 && y < 0x7fff_ffff
        },
{
}

/// An output's scale is that of its panel's width along the logical width: the
/// mode's height where a quarter turn swaps them.
pub proof fn output_scale_is_along_the_width(
    o: OutputCandidate,
    r: Option<Scale120>,
    w: i32,
    q: Option<Scale120>,
)
    requires
        call_ensures(OutputCandidate::scale, (&o,), r),
        w == if o.swaps_axes {
            o.mode.1
        } else {
            o.mode.0
        },
        w >= 0 && o.logical_size.0 > 0 ==> call_ensures(
            Scale120::from_physical_logical,
            (w as u32, o.logical_size.0 as u32),
            q,
        ),
    ensures
        w < 0 || o.logical_size.0 <= 0 ==> r is None,
        w >= 0 && o.logical_size.0 > 0 ==> (r is Some <==> q is Some) && (r is Some
            ==> r->Some_0.raw() == q->Some_0.raw()),
{
}

proof fn first_usable_is_first(outputs: Seq<OutputCandidate>, at: Option<(i32, i32)>)
    ensures
        match first_usable(outputs, at) {
            Some(i) => 0 <= i < outputs.len() && eligible(outputs[i], at) && forall|j: int|
                0 <= j < i ==> !eligible(#[trigger] outputs[j], at),
            None => forall|j: int|
                0 <= j < outputs.len() ==> !eligible(#[trigger] outputs[j], at),
        },
    decreases outputs.len(),
{
    if outputs.len() > 0 {
        let front = outputs.drop_last();
        first_usable_is_first(front, at);
        assert forall|j: int| 0 <= j < front.len() implies front[j] == #[trigger] outputs[j] by {}
    }
}

/// The scale is that of the first usable output; where a point is given, of the
/// first usable one that holds it, where one does. Only without any is there an
/// error.
pub proof fn scale_is_of_the_first_output_that_fits(
    outputs: &[OutputCandidate],
    x: i32,
    y: i32,
    here: Result<Scale120, ScaleProbeError>,
    any: Result<Scale120, ScaleProbeError>,
    i: int,
    s: Option<Scale120>,
    held: bool,
)
    requires
        call_ensures(select_scale, (outputs, ProbeTarget::Point { x, y }), here),
        call_ensures(select_scale, (outputs, ProbeTarget::FirstOutput), any),
        0 <= i < outputs@.len(),
        call_ensures(OutputCandidate::scale, (&outputs@[i],), s),
        call_ensures(OutputCandidate::contains, (&outputs@[i], x, y), held),
    ensures
        s is Some && (forall|j: int| 0 <= j < i ==> !(#[trigger] outputs@[j]).usable()) ==> (
        any matches Ok(v) && v.raw() == s->Some_0.raw()),
        s is Some && held && (forall|j: int|
            0 <= j < i ==> !((#[trigger] outputs@[j]).usable() && outputs@[j].holds(x, y))) ==> (
        here matches Ok(v) && v.raw() == s->Some_0.raw()),
        (forall|j: int|
            0 <= j < outputs@.len() ==> !((#[trigger] outputs@[j]).usable() && outputs@[j].holds(
                x,
                y,
            ))) ==> (any is Ok <==> here is Ok) && (any is Ok ==> any->Ok_0.raw()
            == here->Ok_0.raw()),
        s is Some ==> any is Ok && here is Ok,
        any matches Err(e) ==> e == ScaleProbeError::NoUsableOutput,
        here matches Err(e) ==> e == ScaleProbeError::NoUsableOutput,
{
    let at = Some((x, y));
    first_usable_is_first(outputs@, None);
    first_usable_is_first(outputs@, at);
    assert(s is Some <==> eligible(outputs@[i], None));
    assert(s is Some && held <==> eligible(outputs@[i], at));
    match first_usable(outputs@, at) {
        Some(k) => {
            assert(outputs@[k].usable() && outputs@[k].holds(x, y));
            if k < i {
                assert(eligible(outputs@[k], at));
            }
        },
        None => {},
    }
    match first_usable(outputs@, None) {
        Some(k) => {
            assert(outputs@[k].usable());
        },
        None => {},
    }
}

proof fn first_current_is_first(modes: Seq<OutputMode>)
    ensures
        match first_current(modes) {
            Some(i) => 0 <= i < modes.len() && modes[i].current && forall|j: int|
                0 <= j < i ==> !(#[trigger] modes[j]).current,
            None => forall|j: int| 0 <= j < modes.len() ==> !(#[trigger] modes[j]).current,
        },
    decreases modes.len(),
{
    if modes.len() > 0 {
        let front = modes.drop_last();
        first_current_is_first(front);
        assert forall|j: int| 0 <= j < front.len() implies front[j] == #[trigger] modes[j] by {}
    }
}

/// An output is a candidate once place, size and a mode are known: with its
/// current mode, the first such, or else its first mode, turned as it is turned.
pub proof fn complete_output_is_a_candidate(
    info: OutputInfo,
    r: Option<OutputCandidate>,
    i: int,
    swaps: bool,
)
    requires
        call_ensures(candidate, (&info,), r),
        call_ensures(transform_swaps_axes, (info.transform,), swaps),
    ensures
        r is Some <==> info.logical_position is Some && info.logical_size is Some
            && info.modes@.len() > 0,
        r matches Some(c) ==> {
            &&& Some(c.logical_pos) == info.logical_position
            &&& Some(c.logical_size) == info.logical_size
            &&& c.swaps_axes == swaps
            &&& 0 <= i < info.modes@.len() && info.modes@[i].current && (forall|j: int|
                0 <= j < i ==> !(#[trigger] info.modes@[j]).current) ==> c.mode
                == info.modes@[i].dimensions
            &&& (forall|j: int| 0 <= j < info.modes@.len() ==> !(#[trigger] info.modes@[j]).current)
                ==> c.mode == info.modes@[0].dimensions
        },
        swaps <==> !(info.transform == Transform::Normal || info.transform
            == Transform::Rotated180 || info.transform == Transform::Flipped || info.transform
            == Transform::Flipped180),
{
    first_current_is_first(info.modes@);
    if first_current(info.modes@) is Some {
        let k = first_current(info.modes@)->Some_0;
        assert(info.modes@[k].current);
    }
}

/// Candidates are collected in the order of the outputs, the incomplete ones left
/// out.
pub proof fn candidates_keep_their_order(
    a: &[OutputInfo],
    r: Vec<OutputCandidate>,
    b: &[OutputInfo],
    s: Vec<OutputCandidate>,
    info: OutputInfo,
    c: Option<OutputCandidate>,
)
    requires
        call_ensures(collect_candidates, (a,), r),
        b@ == a@.push(info),
        call_ensures(collect_candidates, (b,), s),
        call_ensures(candidate, (&info,), c),
    ensures
        a@.len() == 0 ==> r@.len() == 0,
        c is None ==> s@ == r@,
        c matches Some(x) ==> s@.len() == r@.len() + 1 && s@.last() == x && s@.drop_last() == r@,
{
    assert(b@.drop_last() =~= a@);
    if c is Some {
        assert(s@.drop_last() =~= r@);
    }
}

/// Probing is selecting among what was collected; without a session, and without
/// an answer, the error says which.
pub proof fn probing_selects_among_the_collected(
    session: bool,
    outputs: Option<Vec<OutputInfo>>,
    target: ProbeTarget,
    r: Result<Scale120, ScaleProbeError>,
    infos: &[OutputInfo],
    found: Vec<OutputCandidate>,
    list: &[OutputCandidate],
    s: Result<Scale120, ScaleProbeError>,
    reply: ProbeReply,
    bounded: Result<Scale120, ScaleProbeError>,
)
    requires
        call_ensures(probe_scale, (session, &outputs, target), r),
        outputs matches Some(v) ==> infos@ == v@,
        call_ensures(collect_candidates, (infos,), found),
        list@ == found@,
        call_ensures(select_scale, (list, target), s),
        call_ensures(probe_scale_bounded, (reply,), bounded),
    ensures
        !session ==> r == Err::<Scale120, ScaleProbeError>(ScaleProbeError::NoWaylandSession),
        session && outputs is None ==> r == Err::<Scale120, ScaleProbeError>(
            ScaleProbeError::Connection,
        ),
        session && outputs is Some ==> (r is Ok <==> s is Ok) && (r is Ok ==> r->Ok_0.raw()
            == s->Ok_0.raw()) && (r is Err ==> r->Err_0 == s->Err_0),
        reply matches ProbeReply::Probed(p) ==> bounded == p,
        reply is Nothing ==> bounded == Err::<Scale120, ScaleProbeError>(ScaleProbeError::Timeout),
        reply is NotStarted ==> bounded == Err::<Scale120, ScaleProbeError>(
            ScaleProbeError::Connection,
        ),
{
}

/// Each error has its own words, and a candidate is what it is made of.
pub proof fn errors_are_told_apart(
    e: ScaleProbeError,
    text: &'static str,
    f: ScaleProbeError,
    other: &'static str,
    pos: (i32, i32),
    size: (i32, i32),
    mode: (i32, i32),
    swaps: bool,
    o: OutputCandidate,
)
    requires
        call_ensures(ScaleProbeError::message, (&e,), text),
        call_ensures(ScaleProbeError::message, (&f,), other),
        call_ensures(OutputCandidate::new, (pos, size, mode, swaps), o),
    ensures
        text@ == other@ <==> e == f,
        e == ScaleProbeError::NoWaylandSession ==> text@ == "no Wayland session"@,
        e == ScaleProbeError::Connection ==> text@ == "probe connection failed"@,
        e == ScaleProbeError::NoUsableOutput ==> text@ == "no usable output"@,
        e == ScaleProbeError::Timeout ==> text@ == "probe timed out"@,
        o.logical_pos == pos && o.logical_size == size && o.mode == mode && o.swaps_axes == swaps,
{
    reveal_strlit("no Wayland session");
    reveal_strlit("probe connection failed");
    reveal_strlit("no usable output");
    reveal_strlit("probe timed out");
    assert("no Wayland session"@.len() == 18);
    assert("probe connection failed"@.len() == 23);
    assert("no usable output"@.len() == 16);
    assert("probe timed out"@.len() == 15);
}

} // verus!
