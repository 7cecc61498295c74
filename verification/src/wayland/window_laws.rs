//! What the toplevel does for its compositor and its user: which size and mode
//! it takes on, whom it tells, and what each request becomes on the wire.

use vstd::prelude::*;

use crate::abi::EffectiveDecorations;
use crate::abi::Generation;
use crate::abi::MenuPlacement;
use crate::abi::WindowDecorations;
use crate::wayland::input::SeatShared;
use crate::wayland::popup_place::Placed;
use crate::wayland::presentation::logical_extent;
use crate::wayland::root_settle::bind_required;
use crate::wayland::root_settle::ensure_started;
use crate::wayland::root_settle::start_toplevel;
use crate::wayland::root_settle::RequiredGlobal;
use crate::wayland::root_settle::Settle;
use crate::wayland::root_settle::SettleNext;
use crate::wayland::root_settle::SettlePhase;
use crate::wayland::root_window::build_menu_positioner;
use crate::wayland::root_window::DecorationRequest;
use crate::wayland::root_window::FsRequest;
use crate::wayland::root_window::MenuPopup;
use crate::wayland::root_window::PopupCommand;
use crate::wayland::root_window::Positioner;
use crate::wayland::root_window::RootEffect;
use crate::wayland::root_window::RootFlags;
use crate::wayland::root_window::RootShared;
use crate::wayland::root_window::RootState;
use crate::wayland::root_window::WindowCommand;
use crate::wayland::root_window::WindowConfigure;
use crate::wayland::scale::scaled;
use crate::wayland::scale::Scale120;
use crate::wayland::window_state::window_size_sides;
use crate::wayland::window_state::PublishedExtent;
use crate::wayland::window_state::ScaleProvenance;
use crate::wayland::window_state::WindowMode;
use crate::wayland::window_state::WindowSize;
use crate::wayland::window_state::WindowState;

verus! {

/// Of the calls from `from` on, every size that is published is the one that was
/// just set as the window's geometry and filled with background, and everyone is
/// told right after.
pub open spec fn sizes_agree(effects: Seq<RootEffect>, from: int) -> bool {
    forall|i: int|
        #![trigger effects[i]]
        from <= i < effects.len() ==> (effects[i] matches RootEffect::PublishWindowSize(s) ==> {
            &&& from + 2 <= i < effects.len() - 1
            &&& effects[i - 2] == (RootEffect::SetWindowGeometry { w: s.w(), h: s.h() })
            &&& effects[i - 1] matches RootEffect::FillBackground { w, h, .. }
            &&& w == s.w() && h == s.h()
            &&& effects[i + 1] is NotifyWindow
        })
}

/// The calls from `from` on publish a size.
pub open spec fn publishes(effects: Seq<RootEffect>, from: int) -> bool {
    exists|i: int|
        #![trigger effects[i]]
        from <= i < effects.len() && effects[i] is PublishWindowSize
}

/// The published window is the one that was presented, or is as it was: after a
/// presenting step its size is the current one, and its mode the current one.
pub open spec fn window_follows(
    before: RootState,
    seen: WindowState,
    after: RootState,
    shown: WindowState,
    effects: Seq<RootEffect>,
    from: int,
) -> bool {
    &&& sizes_agree(effects, from)
    &&& publishes(effects, from) ==> {
        &&& after.presented && !after.pending_configure
        &&& after.current_size is Some
        &&& shown.size == after.current_size
        &&& shown.mode == after.mode
        &&& exists|i: int|
            #![trigger effects[i]]
            from <= i < effects.len() && effects[i] == RootEffect::PublishWindowSize(
                after.current_size->Some_0,
            )
    }
    &&& !publishes(effects, from) ==> shown.size == seen.size && shown.mode == seen.mode
        && after.current_size == before.current_size && after.presented == before.presented
}

/// Presenting hands one and the same size to everyone: what is set as window
/// geometry is what mpv is told, what is published and what is kept as current.
pub proof fn presented_size_is_one_and_the_same(
    st: &mut RootState,
    flags: &mut RootFlags,
    window: &mut WindowState,
    effects: &mut Vec<RootEffect>,
    r: (),
)
    requires
        call_ensures(RootState::try_present, (st, flags, window, effects), r),
    ensures
        window_follows(
            *old(st),
            *old(window),
            *final(st),
            *final(window),
            final(effects)@,
            old(effects)@.len() as int,
        ),
        publishes(final(effects)@, old(effects)@.len() as int) ==> final(flags).pending_present,
        old(effects)@ == final(effects)@.take(old(effects)@.len() as int),
        final(window).scale == old(window).scale,
        final(window).provenance == old(window).provenance,
{
    reveal(RootState::tried);
    let n = old(effects)@.len() as int;
    let tail = old(st).tried(*old(flags), *old(window)).effects;
    assert(final(effects)@.take(n) =~= old(effects)@);
    assert forall|i: int| n <= i < final(effects)@.len() implies #[trigger] final(effects)@[i]
        == tail[i - n] by {}
    if tail.len() == 4 {
        assert(final(effects)@[n + 2] is PublishWindowSize);
    }
}

/// The same holds of a configure, whatever it asks for.
pub proof fn configured_size_is_one_and_the_same(
    st: &mut RootState,
    c: WindowConfigure,
    flags: &mut RootFlags,
    window: &mut WindowState,
    effects: &mut Vec<RootEffect>,
    r: (),
)
    requires
        call_ensures(RootState::configure, (st, c, flags, window, effects), r),
    ensures
        window_follows(
            *old(st),
            *old(window),
            *final(st),
            *final(window),
            final(effects)@,
            old(effects)@.len() as int,
        ),
        old(window).scale is None ==> !publishes(final(effects)@, old(effects)@.len() as int),
{
    reveal(RootState::tried);
    let n = old(effects)@.len() as int;
    let a = old(st).absorbed(c, *old(flags));
    let tail = a.0.tried(a.1, *old(window)).effects;
    let k = n + a.2.len();
    assert forall|i: int| n <= i < final(effects)@.len() implies #[trigger] final(effects)@[i] == (
    a.2 + tail)[i - n] by {}
    if tail.len() == 4 {
        assert(final(effects)@[k + 2] is PublishWindowSize);
        assert(final(effects)@[k + 2] == tail[2]);
        assert(final(effects)@[k] == tail[0] && final(effects)@[k + 1] == tail[1]
            && final(effects)@[k + 3] == tail[3]);
    }
}

/// And of a scale the compositor names, with or without a configure.
pub proof fn rescaled_size_is_one_and_the_same(
    st: &mut RootState,
    wire: u32,
    flags: &mut RootFlags,
    window: &mut WindowState,
    effects: &mut Vec<RootEffect>,
    r: (),
)
    requires
        call_ensures(RootState::preferred_scale, (st, wire, flags, window, effects), r),
    ensures
        window_follows(
            *old(st),
            *old(window),
            *final(st),
            *final(window),
            final(effects)@,
            old(effects)@.len() as int,
        ),
        wire == 0 ==> final(effects)@ == old(effects)@ && *final(window) == *old(window),
        wire != 0 ==> {
            &&& final(window).scale matches Some(s)
            &&& s.raw() == wire
            &&& final(window).provenance == Some(ScaleProvenance::Authoritative)
        },
        wire != 0 && old(st).presented && old(st).current_size is Some && old(st).mode
            == WindowMode::Maximized && old(st).pending_w is None && old(st).pending_h is None
            && old(st).current_size->Some_0.w() > 0 && old(st).current_size->Some_0.h() > 0
            ==> publishes(final(effects)@, old(effects)@.len() as int),
{
    reveal(RootState::tried);
    let n = old(effects)@.len() as int;
    if wire != 0 {
        let fed = old(window).fed(Scale120::of(wire), ScaleProvenance::Authoritative);
        let tail = old(st).tried(*old(flags), fed).effects;
        assert forall|i: int| n <= i < final(effects)@.len() implies #[trigger] final(effects)@[i]
            == tail[i - n] by {}
        if tail.len() == 4 {
            assert(final(effects)@[n + 2] is PublishWindowSize);
        }
        crate::wayland::scale::scale_is_its_raw(wire, Scale120::of(wire));
    }
}

/// A configure that names both sides is taken at its word: once a scale is
/// known, the window is of exactly that size, in the mode it names, and mpv and
/// the overlays are told so at once.
pub proof fn configured_extent_is_taken_on(
    st: &mut RootState,
    c: WindowConfigure,
    flags: &mut RootFlags,
    window: &mut WindowState,
    effects: &mut Vec<RootEffect>,
    r: (),
)
    requires
        call_ensures(RootState::configure, (st, c, flags, window, effects), r),
        old(window).scale is Some,
        c.w matches Some(w) && 0 < w <= i32::MAX,
        c.h matches Some(h) && 0 < h <= i32::MAX,
    ensures
        ({
            let (w, h) = (c.w->Some_0, c.h->Some_0);
            let n = final(effects)@.len() as int;
            &&& final(st).current_size matches Some(s)
            &&& s.w() == w && s.h() == h
            &&& final(window).size == Some(s)
            &&& n >= 4
            &&& final(effects)@[n - 4] matches RootEffect::SetWindowGeometry { w: gw, h: gh }
            &&& gw == w && gh == h
            &&& final(effects)@[n - 3] matches RootEffect::FillBackground { w: bw, h: bh, build }
            &&& bw == w && bh == h && build == !old(st).has_background
            &&& final(effects)@[n - 2] == RootEffect::PublishWindowSize(s)
            &&& final(effects)@[n - 1] is NotifyWindow
            &&& final(flags).pending_present
            &&& final(st).presented && !final(st).pending_configure
        }),
{
    reveal(RootState::tried);
    let (w, h) = (c.w->Some_0 as i32, c.h->Some_0 as i32);
    window_size_sides(w, h, WindowSize::of(w, h));
    let n = old(effects)@.len() as int;
    let a = old(st).absorbed(c, *old(flags));
    let tail = a.0.tried(a.1, *old(window)).effects;
    assert(tail.len() == 4);
    let m = final(effects)@.len() as int;
    assert(final(effects)@[m - 4] == tail[0]);
    assert(final(effects)@[m - 3] == tail[1]);
    assert(final(effects)@[m - 2] == tail[2]);
    assert(final(effects)@[m - 1] == tail[3]);
}

/// A configure's states make the mode: fullscreen goes before maximized, and
/// that before tiled; a window in none of them floats.
pub proof fn configured_states_make_the_mode(
    st: &mut RootState,
    c: WindowConfigure,
    flags: &mut RootFlags,
    window: &mut WindowState,
    effects: &mut Vec<RootEffect>,
    r: (),
)
    requires
        call_ensures(RootState::configure, (st, c, flags, window, effects), r),
    ensures
        final(st).mode == WindowMode::Fullscreen <==> c.fullscreen,
        final(st).mode == WindowMode::Maximized <==> c.maximized && !c.fullscreen,
        final(st).mode == WindowMode::Tiled <==> c.tiled && !c.maximized && !c.fullscreen,
        final(st).mode == WindowMode::Floating <==> !c.tiled && !c.maximized && !c.fullscreen,
        final(st).suspended == c.suspended,
        final(st).menu == old(st).menu && final(st).bg == old(st).bg,
        final(st).pre_fs_maximized == old(st).pre_fs_maximized,
{
    reveal(RootState::tried);
}

/// Whether the window is suspended, and who draws its titlebar, is told exactly
/// where it changes. Without a decoration protocol the decision made at the
/// start stays.
pub proof fn configure_tells_changes_only(
    st: &mut RootState,
    c: WindowConfigure,
    flags: &mut RootFlags,
    window: &mut WindowState,
    effects: &mut Vec<RootEffect>,
    r: (),
)
    requires
        call_ensures(RootState::configure, (st, c, flags, window, effects), r),
    ensures
        ({
            let n = old(effects)@.len() as int;
            let e = final(effects)@;
            &&& c.suspended != old(st).suspended ==> e.len() > n && e[n]
                == RootEffect::NotifySuspended(c.suspended)
            &&& forall|i: int|
                #![trigger e[i]]
                n <= i < e.len() ==> (e[i] matches RootEffect::NotifySuspended(s) ==> c.suspended
                    != old(st).suspended && s == c.suspended)
            &&& forall|i: int|
                #![trigger e[i]]
                n <= i < e.len() ==> (e[i] matches RootEffect::NotifyDecorations(d)
                    ==> old(st).decorations_negotiated && d == c.decorations && d
                    != old(flags).effective)
            &&& old(st).decorations_negotiated ==> final(flags).effective == c.decorations
            &&& !old(st).decorations_negotiated ==> final(flags).effective == old(flags).effective
            &&& old(st).decorations_negotiated && c.decorations != old(flags).effective
                ==> exists|i: int|
                #![trigger e[i]]
                n <= i < e.len() && e[i] == RootEffect::NotifyDecorations(c.decorations)
        }),
{
    reveal(RootState::tried);
    let n = old(effects)@.len() as int;
    let e = final(effects)@;
    let a = old(st).absorbed(c, *old(flags));
    let tail = a.0.tried(a.1, *old(window)).effects;
    assert forall|i: int| n <= i < e.len() implies #[trigger] e[i] == (a.2 + tail)[i - n] by {}
    if a.2.len() > 0 {
        assert(e[n] == a.2[0]);
    }
    if a.2.len() > 1 {
        assert(e[n + 1] == a.2[1]);
    }
}

/// A side the compositor leaves open is the last floating one in a floating
/// window, and stays as it is in any other.
pub proof fn open_side_is_restored_or_kept(
    st: &mut RootState,
    c: WindowConfigure,
    flags: &mut RootFlags,
    window: &mut WindowState,
    effects: &mut Vec<RootEffect>,
    r: (),
)
    requires
        call_ensures(RootState::configure, (st, c, flags, window, effects), r),
        old(window).scale is Some,
        old(st).current_size matches Some(s) && s.w() > 0 && s.h() > 0,
        old(st).floating.saved matches Some(f) && f.w() > 0 && f.h() > 0,
    ensures
        ({
            let cur = old(st).current_size->Some_0;
            let home = old(st).floating.saved->Some_0;
            let floats = !c.fullscreen && !c.maximized && !c.tiled;
            &&& final(st).current_size matches Some(s)
            &&& match c.w {
                Some(w) if 0 < w <= i32::MAX => s.w() == w,
                _ => s.w() == if floats {
                    home.w()
                } else {
                    cur.w()
                },
            }
            &&& match c.h {
                Some(h) if 0 < h <= i32::MAX => s.h() == h,
                _ => s.h() == if floats {
                    home.h()
                } else {
                    cur.h()
                },
            }
            &&& floats ==> final(st).floating.saved == Some(s)
            &&& !floats ==> final(st).floating.saved == old(st).floating.saved
        }),
{
    reveal(RootState::tried);
    let a = old(st).absorbed(c, *old(flags)).0;
    let s = a.logical()->Some_0;
    window_size_sides(s.w(), s.h(), s);
    let cur = old(st).current_size->Some_0;
    let home = old(st).floating.saved->Some_0;
    window_size_sides(
        if a.pending_w is Some {
            a.pending_w->Some_0
        } else if a.mode == WindowMode::Floating {
            home.w()
        } else {
            cur.w()
        },
        if a.pending_h is Some {
            a.pending_h->Some_0
        } else if a.mode == WindowMode::Floating {
            home.h()
        } else {
            cur.h()
        },
        s,
    );
}

/// A window that was floating at some size, was given another in another mode
/// and floats again without one being named, is back at its own size.
pub proof fn floating_size_comes_back(
    st: &mut RootState,
    c: WindowConfigure,
    flags: &mut RootFlags,
    window: &mut WindowState,
    effects: &mut Vec<RootEffect>,
    r: (),
    st2: &mut RootState,
    c2: WindowConfigure,
    flags2: &mut RootFlags,
    window2: &mut WindowState,
    effects2: &mut Vec<RootEffect>,
)
    requires
        call_ensures(RootState::configure, (st, c, flags, window, effects), r),
        call_ensures(RootState::configure, (st2, c2, flags2, window2, effects2), r),
        *old(st2) == *final(st),
        *old(window2) == *final(window),
        old(window).scale is Some,
        old(st).current_size matches Some(s) && s.w() > 0 && s.h() > 0,
        old(st).floating.saved == old(st).current_size,
        c.fullscreen || c.maximized || c.tiled,
        !c2.fullscreen && !c2.maximized && !c2.tiled,
        c2.w is None && c2.h is None,
    ensures
        final(st2).current_size == old(st).current_size,
        final(window2).size == old(st).current_size,
        final(window2).mode == WindowMode::Floating,
{
    reveal(RootState::tried);
    open_side_is_restored_or_kept(st, c, flags, window, effects, r);
    let s = old(st).current_size->Some_0;
    let t = final(st).current_size->Some_0;
    window_size_sides(s.w(), s.h(), s);
    window_size_sides(t.w(), t.h(), t);
    let a = old(st).absorbed(c, *old(flags)).0;
    assert(a.logical() == final(st).current_size);
    assert(final(window).scale is Some);
    open_side_is_restored_or_kept(st2, c2, flags2, window2, effects2, r);
    let u = final(st2).current_size->Some_0;
    window_size_sides(u.w(), u.h(), u);
}

/// Nothing is presented without a configure, without a scale, or without a
/// size; with all three it is.
pub proof fn presented_exactly_where_it_can_be(
    st: &mut RootState,
    flags: &mut RootFlags,
    window: &mut WindowState,
    effects: &mut Vec<RootEffect>,
    r: (),
)
    requires
        call_ensures(RootState::try_present, (st, flags, window, effects), r),
    ensures
        ({
            let (s, w) = (*old(st), *old(window));
            let asked = s.presented || s.pending_configure;
            let sized = s.pending_w matches Some(pw) && pw > 0 && (s.pending_h matches Some(ph)
                && ph > 0);
            let unsized_ = s.pending_w is None && s.current_size is None && s.floating.saved is None;
            let out = publishes(final(effects)@, old(effects)@.len() as int);
            &&& asked && w.scale is Some && sized ==> out
            &&& !asked || w.scale is None || unsized_ ==> !out && *final(window) == w
                && *final(flags) == *old(flags)
            &&& !s.presented && s.pending_configure && w.scale is None ==> (
            final(st).scale_discovery != old(st).scale_discovery || old(st).scale_discovery
                is Requested || old(st).scale_discovery is Spawned)
            &&& s.presented ==> final(st).scale_discovery == old(st).scale_discovery
        }),
{
    reveal(RootState::tried);
    let n = old(effects)@.len() as int;
    let tail = old(st).tried(*old(flags), *old(window)).effects;
    assert forall|i: int| n <= i < final(effects)@.len() implies #[trigger] final(effects)@[i]
        == tail[i - n] by {}
    if tail.len() == 4 {
        assert(final(effects)@[n + 2] is PublishWindowSize);
    }
}

/// A compositor's word for one side is an extent where it is positive and fits.
pub proof fn named_side_is_positive_or_open(v: u32, r: Option<i32>)
    requires
        call_ensures(logical_extent, (v,), r),
    ensures
        r matches Some(s) ==> s == v && s > 0,
        r is None ==> v == 0 || v > 0x7fff_ffff,
{
}

/// The extent that is published has one physical pixel for every 120/scale
/// logical ones, to within half a pixel, on each side; size and mode are the
/// published ones. There is one as soon as a size and a scale are known.
pub proof fn published_extent_is_to_scale(w: WindowState, r: Option<PublishedExtent>)
    requires
        call_ensures(WindowState::window_extent, (&w,), r),
    ensures
        r matches Some(e) ==> {
            &&& w.size == Some(e.logical) && w.scale == Some(e.scale) && w.mode == e.mode
            &&& -60 <= e.logical.w() * e.scale.raw() - 120 * e.physical.w() < 60
            &&& -60 <= e.logical.h() * e.scale.raw() - 120 * e.physical.h() < 60
        },
        r is None ==> w.size is None || w.scale is None || w.size->Some_0.w()
            * w.scale->Some_0.raw() + 60 < 120 || w.size->Some_0.h() * w.scale->Some_0.raw() + 60
            < 120 || w.size->Some_0.w() * w.scale->Some_0.raw() + 60 >= 120 * 0x8000_0000
            || w.size->Some_0.h() * w.scale->Some_0.raw() + 60 >= 120 * 0x8000_0000,
{
    if let (Some(s), Some(c)) = (w.size, w.scale) {
        let (x, y) = (s.w() * c.raw(), s.h() * c.raw());
        assert(scaled(s.w() as int, c) == (x + 60) / 120);
        assert(scaled(s.h() as int, c) == (y + 60) / 120);
        window_size_sides(((x + 60) / 120) as i32, ((y + 60) / 120) as i32, s);
    }
}

/// A logical length is made physical to within half a pixel; none is given only
/// where it would be empty or would not fit.
pub proof fn length_is_scaled_to_the_nearest_pixel(scale: Scale120, logical: i32, r: Option<i32>)
    requires
        call_ensures(Scale120::scale_dim, (scale, logical), r),
    ensures
        r matches Some(v) ==> v >= 1 && -60 <= logical * scale.raw() - 120 * v < 60,
        r is None ==> logical * scale.raw() < 60 || logical * scale.raw() >= 120 * 0x8000_0000
            - 60,
{
}

/// Either side of a size is scaled by itself: a wider window is wider in
/// physical pixels too, and no change of the width moves the height.
pub proof fn sides_are_scaled_apart(
    scale: Scale120,
    a: WindowSize,
    b: WindowSize,
    pa: Option<WindowSize>,
    pb: Option<WindowSize>,
)
    requires
        call_ensures(Scale120::physical_size, (scale, a), pa),
        call_ensures(Scale120::physical_size, (scale, b), pb),
        pa is Some,
        pb is Some,
    ensures
        a.w() <= b.w() ==> pa->Some_0.w() <= pb->Some_0.w(),
        a.h() <= b.h() ==> pa->Some_0.h() <= pb->Some_0.h(),
        a.w() == b.w() ==> pa->Some_0.w() == pb->Some_0.w(),
        a.h() == b.h() ==> pa->Some_0.h() == pb->Some_0.h(),
        -60 <= a.w() * scale.raw() - 120 * pa->Some_0.w() < 60,
        -60 <= a.h() * scale.raw() - 120 * pa->Some_0.h() < 60,
{
    if a.w() <= b.w() {
        assert(a.w() * scale.raw() <= b.w() * scale.raw()) by (nonlinear_arith)
            requires
                a.w() <= b.w(),
        ;
    }
    if a.h() <= b.h() {
        assert(a.h() * scale.raw() <= b.h() * scale.raw()) by (nonlinear_arith)
            requires
                a.h() <= b.h(),
        ;
    }
}

/// A scale read off a physical and a logical length is their ratio, to within
/// half a 120th.
pub proof fn ratio_is_the_nearest_scale(physical: u32, logical: u32, r: Option<Scale120>)
    requires
        logical > 0,
        call_ensures(Scale120::from_physical_logical, (physical, logical), r),
    ensures
        r matches Some(s) ==> {
            &&& 2 * (s.raw() * logical) <= 240 * physical + logical
            &&& 2 * (s.raw() * logical) > 240 * physical - logical - 1
        },
        physical == 0 && logical > 1 ==> r is None,
        physical == logical && r is Some ==> r->Some_0.raw() == 120,
{
    let l = logical as int;
    let num = physical * 120 + l / 2;
    let q = num / l;
    assert(q * l <= num < q * l + l) by (nonlinear_arith)
        requires
            q == num / l,
            l > 0,
    ;
    if physical == 0 {
        assert(q == 0) by (nonlinear_arith)
            requires
                q == num / l,
                0 <= num < l,
        ;
    }
    if physical == logical {
        assert(q == 120) by (nonlinear_arith)
            requires
                q == num / l,
                120 * l <= num < 121 * l,
                l > 0,
        ;
    }
}

/// The compositor's word on the scale always counts, and a guess counts until
/// it has come.
pub proof fn guess_yields_to_the_compositor(
    w: &mut WindowState,
    scale: Scale120,
    incoming: ScaleProvenance,
    r: (),
)
    requires
        call_ensures(WindowState::feed_scale, (w, scale, incoming), r),
    ensures
        incoming == ScaleProvenance::Authoritative || old(w).provenance != Some(
            ScaleProvenance::Authoritative,
        ) ==> final(w).scale == Some(scale) && final(w).provenance == Some(incoming),
        incoming == ScaleProvenance::Provisional && old(w).provenance == Some(
            ScaleProvenance::Authoritative,
        ) ==> *final(w) == *old(w),
        final(w).size == old(w).size && final(w).mode == old(w).mode,
{
}

/// Publishing takes over this size and this mode and leaves the scale alone.
pub proof fn published_is_what_was_given(w: &mut WindowState, size: WindowSize, mode: WindowMode, r: ())
    requires
        call_ensures(WindowState::publish, (w, size, mode), r),
    ensures
        final(w).size == Some(size) && final(w).mode == mode,
        final(w).scale == old(w).scale && final(w).provenance == old(w).provenance,
{
}

/// A probe's scale is used until the compositor names one; a probe that found
/// none counts as 1.0. Either way the thread is woken to present.
pub proof fn probe_unblocks_presentation(
    shared: &mut RootShared,
    window: &mut WindowState,
    probed: Option<Scale120>,
    r: (),
)
    requires
        call_ensures(RootShared::probe_finished, (shared, window, probed), r),
    ensures
        old(window).provenance != Some(ScaleProvenance::Authoritative) ==> {
            &&& final(window).provenance == Some(ScaleProvenance::Provisional)
            &&& probed is Some ==> final(window).scale == probed
            &&& probed is None ==> (final(window).scale matches Some(s) && s.raw() == 120)
        },
        old(window).provenance == Some(ScaleProvenance::Authoritative)
            ==> *final(window) == *old(window),
        final(shared).flags.scale_fallback_fed && final(shared).flags.wake,
        final(shared).commands@ == old(shared).commands@,
{
    crate::wayland::scale::scale_is_its_raw(120, Scale120::of(120));
}

/// A fullscreen request is applied once, by what it asked for: on goes
/// fullscreen, off leaves it, and a toggle leaves it exactly where the window is
/// fullscreen.
pub proof fn fullscreen_request_is_applied_once(
    s: &mut Settle,
    st: &mut RootState,
    shared: &mut RootShared,
    window: &mut WindowState,
    effects: &mut Vec<RootEffect>,
    next: SettleNext,
)
    requires
        call_ensures(Settle::step, (s, st, shared, window, effects), next),
        old(s).phase is Fullscreen,
    ensures
        ({
            let n = old(effects)@.len() as int;
            let e = final(effects)@;
            let req = old(shared).flags.pending_fs;
            let on = req == FsRequest::On || req == FsRequest::Toggle && old(st).mode
                != WindowMode::Fullscreen;
            let off = req == FsRequest::Off || req == FsRequest::Toggle && old(st).mode
                == WindowMode::Fullscreen;
            &&& final(shared).flags.pending_fs == FsRequest::Nothing
            &&& on ==> e.len() == n + 2 && e[n] is SetFullscreen && e[n + 1] is Flush
            &&& off ==> e.len() >= n + 2 && e[n] is UnsetFullscreen && e[e.len() - 1] is Flush
            &&& off && old(st).pre_fs_maximized ==> e.len() == n + 3 && e[n + 1] is SetMaximized
            &&& off && !old(st).pre_fs_maximized ==> e.len() == n + 2
            &&& off ==> !final(st).pre_fs_maximized
            &&& on && old(st).mode != WindowMode::Fullscreen ==> (final(st).pre_fs_maximized
                <==> old(st).mode == WindowMode::Maximized)
            &&& on && old(st).mode == WindowMode::Fullscreen ==> final(st).pre_fs_maximized
                == old(st).pre_fs_maximized
            &&& !on && !off ==> e == old(effects)@ && *final(st) == *old(st)
            &&& final(shared).commands@ == old(shared).commands@
        }),
{
}

/// Asking for fullscreen leaves exactly that request for the thread, and wakes
/// it.
pub proof fn fullscreen_request_waits_for_the_thread(
    shared: &mut RootShared,
    on: bool,
    r: (),
    toggled: &mut RootShared,
)
    requires
        call_ensures(RootShared::set_fullscreen, (shared, on), r),
        call_ensures(RootShared::toggle_fullscreen, (toggled,), r),
    ensures
        on ==> final(shared).flags.pending_fs == FsRequest::On,
        !on ==> final(shared).flags.pending_fs == FsRequest::Off,
        final(shared).flags.wake && final(toggled).flags.wake,
        final(toggled).flags.pending_fs == FsRequest::Toggle,
        final(shared).commands@ == old(shared).commands@,
        final(toggled).commands@ == old(toggled).commands@,
{
}

/// Requests are queued in order and wake the thread; moving and resizing cite
/// the last button press.
pub proof fn drag_cites_the_last_button(
    shared: &mut RootShared,
    sized: &mut RootShared,
    seat: SeatShared,
    edge: u32,
    r: (),
)
    requires
        call_ensures(RootShared::start_move, (shared, &seat), r),
        call_ensures(RootShared::start_resize, (sized, &seat, edge), r),
    ensures
        ({
            let n = old(shared).commands@.len() as int;
            let m = old(sized).commands@.len() as int;
            &&& final(shared).commands@.len() == n + 1
                && final(shared).commands@.take(n) == old(shared).commands@
            &&& final(shared).commands@[n] matches WindowCommand::Move { serial }
            &&& serial == seat.last_button_serial
            &&& final(sized).commands@.len() == m + 1
                && final(sized).commands@.take(m) == old(sized).commands@
            &&& final(sized).commands@[m] matches WindowCommand::Resize { serial: s2, edge: e2 }
            &&& s2 == seat.last_button_serial && e2 == edge
            &&& final(shared).flags.wake && final(sized).flags.wake
        }),
{
    let n = old(shared).commands@.len() as int;
    let m = old(sized).commands@.len() as int;
    assert(final(shared).commands@.take(n) =~= old(shared).commands@);
    assert(final(sized).commands@.take(m) =~= old(sized).commands@);
}

/// Toggling maximized asks for the other state than the one last asked for, and
/// twice asks for the first again.
pub proof fn toggling_maximized_alternates(
    shared: &mut RootShared,
    again: &mut RootShared,
    r: (),
)
    requires
        call_ensures(RootShared::toggle_maximize, (shared,), r),
        call_ensures(RootShared::toggle_maximize, (again,), r),
        *old(again) == *final(shared),
    ensures
        final(shared).flags.maximized != old(shared).flags.maximized,
        final(again).flags.maximized == old(shared).flags.maximized,
        final(shared).commands@.len() == old(shared).commands@.len() + 1,
        final(shared).commands@.last() == WindowCommand::SetMaximized(!old(shared).flags.maximized),
        final(again).commands@.last() == WindowCommand::SetMaximized(old(shared).flags.maximized),
        final(shared).flags.wake,
{
}

/// What is asked for by name is queued by that name, and the thread is woken.
pub proof fn named_requests_are_queued(
    a: &mut RootShared,
    b: &mut RootShared,
    c: &mut RootShared,
    on: bool,
    path: String,
    r: (),
)
    requires
        call_ensures(RootShared::set_maximized, (a, on), r),
        call_ensures(RootShared::set_minimized, (b,), r),
        call_ensures(RootShared::set_titlebar_palette, (c, path), r),
    ensures
        final(a).commands@.last() == WindowCommand::SetMaximized(on) && final(a).flags.wake,
        final(b).commands@.last() == WindowCommand::Minimize && final(b).flags.wake,
        final(c).commands@.last() == WindowCommand::SetTitlebarPalette(path) && final(c).flags.wake,
        final(a).commands@.len() == old(a).commands@.len() + 1,
        final(b).commands@.len() == old(b).commands@.len() + 1,
        final(c).commands@.len() == old(c).commands@.len() + 1,
{
}

/// The boot size is the one given where it is a size, and the one at hand
/// otherwise; the window starts floating with it to go back to.
pub proof fn window_starts_at_its_boot_size(
    shared: &mut RootShared,
    w: i32,
    h: i32,
    maximized: bool,
    r: (),
    negotiated: bool,
    seat: bool,
    palette: bool,
    st: RootState,
)
    requires
        call_ensures(RootShared::set_boot_geometry, (shared, w, h, maximized), r),
        call_ensures(RootState::new, (final(shared), negotiated, seat, palette), st),
    ensures
        final(shared).flags.boot.maximized == maximized,
        w > 0 && h > 0 ==> {
            &&& final(shared).flags.boot.w == w && final(shared).flags.boot.h == h
            &&& st.floating.saved matches Some(s)
            &&& s.w() == w && s.h() == h
        },
        w <= 0 || h <= 0 ==> final(shared).flags.boot.w == old(shared).flags.boot.w
            && final(shared).flags.boot.h == old(shared).flags.boot.h,
        st.mode == WindowMode::Floating,
        st.current_size is None && !st.presented && !st.pending_configure,
        st.has_seat == seat && st.has_palette == palette && st.decorations_negotiated == negotiated,
        st.menu == MenuPopup::NoMenu,
        final(shared).flags.pending_bg matches Some(c) ==> st.bg
            == c,
{
    window_size_sides(w, h, WindowSize::of(w, h));
}

/// Starting sets the boot size as window geometry, asks to be maximized first
/// where it is to be, and commits without a buffer, flushed.
pub proof fn start_commits_the_boot_geometry(
    shared: &mut RootShared,
    window: &mut WindowState,
    fractional: bool,
    negotiated: bool,
    effects: &mut Vec<RootEffect>,
    r: (),
)
    requires
        call_ensures(start_toplevel, (shared, window, fractional, negotiated, effects), r),
    ensures
        ({
            let n = old(effects)@.len() as int;
            let m = final(effects)@.len() as int;
            let e = final(effects)@;
            let boot = old(shared).flags.boot;
            &&& m >= n + 3
            &&& e[m - 3] == (RootEffect::SetWindowGeometry { w: boot.w, h: boot.h })
            &&& e[m - 2] is CommitRoot
            &&& e[m - 1] is Flush
            &&& boot.maximized <==> e[n] is SetMaximized
            &&& !negotiated && old(shared).flags.decoration_request is ServerSide
                ==> final(shared).flags.effective == EffectiveDecorations::ServerSide
            &&& negotiated || !(old(shared).flags.decoration_request is ServerSide)
                ==> final(shared).flags.effective == old(shared).flags.effective
            &&& fractional ==> *final(window) == *old(window)
            &&& !fractional && old(window).scale is None && old(window).provenance is None ==> (
            final(window).scale matches Some(s) && s.raw() == 120)
        }),
{
    crate::wayland::scale::scale_is_its_raw(120, Scale120::of(120));
    let n = old(effects)@.len() as int;
    let m = final(effects)@.len() as int;
    let tail = crate::wayland::root_settle::booted(old(shared).flags, negotiated).1;
    assert(final(effects)@[n] == tail[0]);
    assert(final(effects)@[m - 3] == tail[tail.len() - 3]);
    assert(final(effects)@[m - 2] == tail[tail.len() - 2]);
    assert(final(effects)@[m - 1] == tail[tail.len() - 1]);
}

/// A user's wish for client-side decorations is asked for as that, any other
/// wish as server-side, and none is left to the compositor.
pub proof fn decorations_are_asked_for_as_wished(
    shared: &mut RootShared,
    wish: Option<WindowDecorations>,
    r: (),
)
    requires
        call_ensures(RootShared::set_decorations, (shared, wish), r),
    ensures
        ({
            let asked = final(shared).flags.decoration_request;
            &&& wish is None <==> asked == DecorationRequest::Auto
            &&& wish == Some(WindowDecorations::Csd) <==> asked == DecorationRequest::ClientSide
            &&& wish == Some(WindowDecorations::Server) || wish == Some(
                WindowDecorations::ServerThemed,
            ) <==> asked == DecorationRequest::ServerSide
        }),
{
}

/// A color is taken over with each channel where it belongs, and the window is
/// rebuilt at its current size once it is shown.
pub proof fn background_takes_the_color(
    shared: &mut RootShared,
    red: u8,
    green: u8,
    blue: u8,
    r: (),
    s: &mut Settle,
    st: &mut RootState,
    sh: &mut RootShared,
    window: &mut WindowState,
    effects: &mut Vec<RootEffect>,
    next: SettleNext,
)
    requires
        call_ensures(RootShared::set_background_color, (shared, red, green, blue), r),
        call_ensures(Settle::step, (s, st, sh, window, effects), next),
        old(s).phase is Background,
        old(sh).flags.pending_bg == final(shared).flags.pending_bg,
    ensures
        final(shared).flags.wake,
        final(st).bg.r == red && final(st).bg.g == green && final(st).bg.b == blue,
        ({
            let n = old(effects)@.len() as int;
            let e = final(effects)@;
            let changes = !(old(st).bg.r == red && old(st).bg.g == green && old(st).bg.b == blue);
            &&& changes && old(st).presented && old(st).current_size is Some ==> {
                &&& e.len() == n + 1
                &&& e[n] matches RootEffect::RebuildBackground { w, h }
                &&& w == old(st).current_size->Some_0.w() && h == old(st).current_size->Some_0.h()
                &&& final(sh).flags.pending_present
            }
            &&& !changes || !old(st).presented ==> e == old(effects)@
        }),
{
}

/// The root is committed exactly where something was presented and a commit is
/// asked for, and the asking is then over; otherwise it stays.
pub proof fn root_commit_is_latched(
    s: &mut Settle,
    st: &mut RootState,
    shared: &mut RootShared,
    window: &mut WindowState,
    effects: &mut Vec<RootEffect>,
    next: SettleNext,
)
    requires
        call_ensures(Settle::step, (s, st, shared, window, effects), next),
        old(s).phase is Latch,
    ensures
        ({
            let n = old(effects)@.len() as int;
            let e = final(effects)@;
            let due = old(st).presented && old(shared).flags.pending_present;
            &&& due ==> e.len() == n + 1 && e[n] is CommitRoot
                && !final(shared).flags.pending_present && next is More
            &&& !due ==> final(shared).flags.pending_present
                == old(shared).flags.pending_present
            &&& !due && !old(s).progressed ==> next is Asleep && e.len() == n + 1 && e[n] is Flush
            &&& !due && old(s).progressed ==> next is More && e == old(effects)@
            &&& *final(st) == *old(st) && final(shared).commands@ == old(shared).commands@
            &&& *final(window) == *old(window)
        }),
{
}

/// Commands are carried out one by one, the oldest first, and each is flushed.
/// Moving, resizing and the like become the call of that name, with the serial
/// and edge they were asked with; what needs a seat or a palette is dropped
/// without one.
pub proof fn oldest_command_is_carried_out(
    s: &mut Settle,
    st: &mut RootState,
    shared: &mut RootShared,
    window: &mut WindowState,
    effects: &mut Vec<RootEffect>,
    next: SettleNext,
)
    requires
        call_ensures(Settle::step, (s, st, shared, window, effects), next),
        old(s).phase is Commands,
        old(shared).commands@.len() > 0,
    ensures
        ({
            let n = old(effects)@.len() as int;
            let e = final(effects)@;
            let cmd = old(shared).commands@[0];
            let left = final(shared).commands@;
            &&& left.len() == old(shared).commands@.len() - 1
            &&& forall|i: int| 0 <= i < left.len() ==> left[i] == old(shared).commands@[i + 1]
            &&& e.len() > n && e[e.len() - 1] is Flush
            &&& next is More && final(s).phase is Commands
            &&& cmd matches WindowCommand::Move { serial } ==> if old(st).has_seat {
                e.len() == n + 2 && e[n] == (RootEffect::Move { serial })
            } else {
                e.len() == n + 1
            }
            &&& cmd matches WindowCommand::Resize { serial, edge } ==> {
                let named = edge == 0 || edge == 1 || edge == 2 || edge == 4 || edge == 5 || edge
                    == 6 || edge == 8 || edge == 9 || edge == 10;
                if old(st).has_seat && named {
                    e.len() == n + 2 && e[n] == (RootEffect::Resize { serial, edge })
                } else {
                    e.len() == n + 1
                }
            }
            &&& cmd == WindowCommand::SetMaximized(true) ==> e.len() == n + 2
                && e[n] is SetMaximized
            &&& cmd == WindowCommand::SetMaximized(false) ==> e.len() == n + 2
                && e[n] is UnsetMaximized
            &&& cmd is Minimize ==> e.len() == n + 2 && e[n] is Minimize
            &&& cmd matches WindowCommand::SetTitlebarPalette(path) ==> if old(st).has_palette {
                e.len() == n + 2 && e[n] == RootEffect::SetTitlebarPalette(path)
            } else {
                e.len() == n + 1
            }
            &&& !(cmd is Popup) ==> *final(st) == *old(st)
        }),
{
}

/// A newer menu takes the place of the one that stands: that is destroyed, and
/// the new one made at its own anchor, with its logical size of at least one
/// pixel, grabbing with the serial it was asked with where there is a seat.
pub proof fn newer_menu_replaces_the_standing_one(
    st: &mut RootState,
    generation: Generation,
    place: MenuPlacement,
    serial: u32,
    effects: &mut Vec<RootEffect>,
    r: (),
)
    requires
        call_ensures(
            RootState::apply_command,
            (
                st,
                WindowCommand::Popup(PopupCommand::Create { generation, place, serial }),
                effects,
            ),
            r,
        ),
    ensures
        ({
            let n = old(effects)@.len() as int;
            let e = final(effects)@;
            &&& generation.id > old(st).armed_gen ==> {
                &&& final(st).armed_gen == generation.id
                &&& e.len() == n + 3
                &&& e[n] is DestroyMenu
                &&& e[n + 1] matches RootEffect::CreateMenu { generation: g, place: p, at, grab }
                &&& g == generation && p == place
                &&& at.anchor_x == place.x && at.anchor_y == place.y
                &&& at.w >= 1 && at.h >= 1
                &&& place.lw >= 1 ==> at.w == place.lw
                &&& place.lh >= 1 ==> at.h == place.lh
                &&& old(st).has_seat ==> grab == Some(serial)
                &&& !old(st).has_seat ==> grab is None
            }
            &&& generation.id <= old(st).armed_gen ==> *final(st) == *old(st) && e.len() == n + 1
        }),
{
}

/// The standing menu, and only that, is painted and destroyed as asked. A mapped
/// one is moved at once; what the compositor already has is not sent again.
pub proof fn standing_menu_does_as_asked(
    st: &mut RootState,
    cmd: PopupCommand,
    effects: &mut Vec<RootEffect>,
    r: (),
)
    requires
        call_ensures(RootState::apply_command, (st, WindowCommand::Popup(cmd), effects), r),
    ensures
        ({
            let n = old(effects)@.len() as int;
            let e = final(effects)@;
            let own = match old(st).menu {
                MenuPopup::NoMenu => None,
                MenuPopup::Unmapped { generation, .. } => Some(generation),
                MenuPopup::Mapped { generation, .. } => Some(generation),
            };
            &&& cmd matches PopupCommand::Paint(p) ==> *final(st) == *old(st) && (if own == Some(
                p.generation,
            ) {
                e.len() == n + 2 && e[n] == RootEffect::PaintMenu(p)
            } else {
                e.len() == n + 1
            })
            &&& cmd matches PopupCommand::Destroy { generation } ==> (if own == Some(generation) {
                e.len() == n + 2 && e[n] is DestroyMenu && final(st).menu == MenuPopup::NoMenu
            } else {
                e.len() == n + 1 && *final(st) == *old(st)
            })
            &&& cmd matches PopupCommand::Reposition { generation, place } ==> match old(st).menu {
                MenuPopup::Mapped { generation: g, place: p } if g == generation => {
                    &&& final(st).menu matches MenuPopup::Mapped { generation: g2, place: p2 }
                    &&& g2 == g && p2.sent == place
                    &&& place == p.sent ==> e.len() == n + 1
                    &&& place != p.sent ==> {
                        &&& e.len() == n + 2
                        &&& e[n] matches RootEffect::RepositionMenu(at)
                        &&& at.anchor_x == place.x && at.anchor_y == place.y
                        &&& place.lw >= 1 ==> at.w == place.lw
                        &&& place.lh >= 1 ==> at.h == place.lh
                    }
                },
                _ => e.len() == n + 1,
            }
            &&& final(st).armed_gen >= old(st).armed_gen
        }),
{
}

/// A placement asked for while the popup is unmapped goes out right after the
/// commit that maps it, once.
pub proof fn held_placement_follows_the_map(
    st: &mut RootState,
    effects: &mut Vec<RootEffect>,
    r: (),
)
    requires
        call_ensures(RootState::menu_painted, (st, effects), r),
    ensures
        ({
            let n = old(effects)@.len() as int;
            let e = final(effects)@;
            &&& old(st).menu == MenuPopup::NoMenu ==> *final(st) == *old(st) && e == old(effects)@
            &&& old(st).menu matches MenuPopup::Unmapped { generation, place } ==> {
                &&& final(st).menu matches MenuPopup::Mapped { generation: g, place: p }
                &&& g == generation && p.held is None
                &&& place.held is None ==> e == old(effects)@ && p.sent == place.sent
                &&& place.held matches Some(want) ==> {
                    &&& p.sent == want
                    &&& e.len() == n + 1
                    &&& e[n] matches RootEffect::RepositionMenu(at)
                    &&& at.anchor_x == want.x && at.anchor_y == want.y
                    &&& want.lw >= 1 ==> at.w == want.lw
                    &&& want.lh >= 1 ==> at.h == want.lh
                }
            }
            &&& final(st).current_size == old(st).current_size
        }),
{
}

/// A made menu stands unmapped where it was made, and its surface is known.
pub proof fn made_menu_stands_unmapped(
    st: &mut RootState,
    flags: &mut RootFlags,
    generation: Generation,
    place: MenuPlacement,
    surface: u32,
    r: (),
)
    requires
        call_ensures(RootState::menu_created, (st, flags, generation, place, surface), r),
    ensures
        final(st).menu matches MenuPopup::Unmapped { generation: g, place: p } && g == generation
            && p.sent == place && p.held is None,
        final(flags).menu_surface_id == surface,
        final(flags).pending_present == old(flags).pending_present,
{
}

/// A popup's positioner has the placement's anchor and its logical size, never
/// less than one pixel.
pub proof fn popup_has_its_logical_size(place: MenuPlacement, r: Positioner)
    requires
        call_ensures(build_menu_positioner, (place,), r),
    ensures
        r.anchor_x == place.x && r.anchor_y == place.y,
        r.w >= 1 && r.h >= 1,
        place.lw >= 1 ==> r.w == place.lw,
        place.lw < 1 ==> r.w == 1,
        place.lh >= 1 ==> r.h == place.lh,
        place.lh < 1 ==> r.h == 1,
{
}

/// What a popup holds goes out once when it is mapped; after that it is what the
/// compositor has. A want that is already there clears the hold.
pub proof fn hold_is_sent_once(
    p: &mut Placed,
    want: MenuPlacement,
    r: (),
    q: &mut Placed,
    out: Option<MenuPlacement>,
)
    requires
        call_ensures(Placed::hold, (p, want), r),
        call_ensures(Placed::on_map, (q,), out),
        *old(q) == *final(p),
    ensures
        final(p).sent == old(p).sent,
        out == if want == old(p).sent {
            None
        } else {
            Some(want)
        },
        final(q).sent == want,
        final(q).held is None,
{
}

/// The toplevel is started once, as soon as there is a display.
pub proof fn toplevel_is_started_once(
    started: &mut bool,
    display: bool,
    first: bool,
    again: &mut bool,
    later: bool,
    second: bool,
)
    requires
        call_ensures(ensure_started, (started, display), first),
        call_ensures(ensure_started, (again, later), second),
        *old(again) == *final(started),
    ensures
        !(first && second),
        !*old(started) && display ==> first,
        first ==> display,
        !*old(started) && !display && later ==> second,
{
}

/// The first of the required globals that is missing is named.
pub proof fn missing_global_is_named(
    compositor: bool,
    shm: bool,
    wm_base: bool,
    r: Result<(), RequiredGlobal>,
)
    requires
        call_ensures(bind_required, (compositor, shm, wm_base), r),
    ensures
        r is Ok <==> compositor && shm && wm_base,
        r == Err::<(), RequiredGlobal>(RequiredGlobal::Compositor) <==> !compositor,
        r == Err::<(), RequiredGlobal>(RequiredGlobal::Shm) <==> compositor && !shm,
        r == Err::<(), RequiredGlobal>(RequiredGlobal::WmBase) <==> compositor && shm && !wm_base,
{
}

/// A scale fed by the probe is presented with, once; a scale still missing once
/// the batch is drained is probed for, once.
pub proof fn missing_scale_is_probed_for_once(
    s: &mut Settle,
    st: &mut RootState,
    shared: &mut RootShared,
    window: &mut WindowState,
    effects: &mut Vec<RootEffect>,
    next: SettleNext,
)
    requires
        call_ensures(Settle::step, (s, st, shared, window, effects), next),
    ensures
        old(s).phase is Discovery ==> {
            &&& next is SpawnProbe <==> old(st).scale_discovery is Requested && old(window).scale
                is None
            &&& next is SpawnProbe ==> final(st).scale_discovery is Spawned
            &&& old(st).scale_discovery is Spawned ==> final(st).scale_discovery is Spawned
            &&& final(effects)@ == old(effects)@
        },
        !(old(s).phase is Discovery) ==> !(next is SpawnProbe),
        old(s).phase is Fallback ==> !final(shared).flags.scale_fallback_fed,
        old(s).phase is Fallback && !old(shared).flags.scale_fallback_fed ==> final(effects)@
            == old(effects)@ && *final(st) == *old(st),
        old(s).phase is Fallback && old(shared).flags.scale_fallback_fed && old(window).scale is Some
            && old(st).pending_configure && (old(st).pending_w matches Some(w) && w > 0)
                && (old(st).pending_h matches Some(h) && h > 0) ==> {
            &&& final(st).presented
            &&& final(window).size matches Some(s)
            &&& s.w() == old(st).pending_w->Some_0 && s.h() == old(st).pending_h->Some_0
        },
{
    reveal(RootState::tried);
    if let (Some(w), Some(h)) = (old(st).pending_w, old(st).pending_h) {
        window_size_sides(w, h, WindowSize::of(w, h));
    }
}

/// Commands queue up behind each other and wake the thread, and so does asking
/// for a present; a maximized state that is synced is only noted.
pub proof fn requests_wake_the_thread(
    fresh: RootShared,
    a: &mut RootShared,
    cmd: WindowCommand,
    b: &mut RootShared,
    c: &mut RootShared,
    maximized: bool,
    u: (),
    effective: EffectiveDecorations,
)
    requires
        call_ensures(RootShared::new, (), fresh),
        call_ensures(RootShared::send, (a, cmd), u),
        call_ensures(RootShared::request_present, (b,), u),
        call_ensures(RootShared::sync_maximized_command_state, (c, maximized), u),
        call_ensures(RootShared::effective_decorations, (&*old(c),), effective),
    ensures
        fresh.commands@.len() == 0 && fresh.flags.pending_fs == FsRequest::Nothing
            && !fresh.flags.pending_present && !fresh.flags.wake && fresh.flags.pending_bg is None
            && !fresh.flags.maximized && fresh.flags.menu_surface_id == 0,
        fresh.flags.boot.w == 1280 && fresh.flags.boot.h == 720 && !fresh.flags.boot.maximized,
        final(a).flags.wake && final(a).commands@.len() == old(a).commands@.len() + 1
            && final(a).commands@.last() == cmd && final(a).commands@.drop_last() == old(a).commands@,
        final(b).flags.wake && final(b).flags.pending_present && final(b).commands@
            == old(b).commands@ && final(b).flags.pending_fs == old(b).flags.pending_fs,
        final(c).flags.maximized == maximized && final(c).flags.wake == old(c).flags.wake
            && final(c).commands@ == old(c).commands@,
        effective == old(c).flags.effective,
{
    assert(final(a).commands@.drop_last() =~= old(a).commands@);
}

/// Going fullscreen remembers whether the window was maximized, once; leaving it
/// asks for that again.
pub proof fn maximized_survives_fullscreen(
    a: &mut RootState,
    e: &mut Vec<RootEffect>,
    u: (),
    b: &mut RootState,
    f: &mut Vec<RootEffect>,
)
    requires
        call_ensures(RootState::apply_fullscreen, (a, true, e), u),
        old(a).mode != WindowMode::Fullscreen,
        *old(b) == (RootState { mode: WindowMode::Fullscreen, ..*final(a) }),
        call_ensures(RootState::apply_fullscreen, (b, false, f), u),
    ensures
        ({
            let n = old(e)@.len() as int;
            let m = old(f)@.len() as int;
            &&& final(e)@.len() == n + 2 && final(e)@[n] is SetFullscreen && final(e)@[n + 1]
                is Flush
            &&& final(f)@[m] is UnsetFullscreen && final(f)@.last() is Flush
            &&& old(a).mode == WindowMode::Maximized ==> final(f)@.len() == m + 3 && final(f)@[m
                + 1] is SetMaximized
            &&& old(a).mode != WindowMode::Maximized ==> final(f)@.len() == m + 2
            &&& !final(b).pre_fs_maximized
        }),
{
}

/// A probe that could not be started leaves the unit scale, unless there is a
/// better one; the background is built once; a menu is known by its generation;
/// missing globals have their names.
pub proof fn unit_scale_is_the_last_resort(
    w: &mut WindowState,
    u: (),
    a: &mut RootState,
    b: &mut RootState,
    window: WindowState,
    spawn: bool,
    m: MenuPopup,
    g: Option<Generation>,
    missing: RequiredGlobal,
    name: &'static str,
    s: Settle,
)
    requires
        call_ensures(WindowState::feed_unit_scale, (w,), u),
        call_ensures(RootState::background_built, (a,), u),
        call_ensures(RootState::service_scale_discovery, (b, &window), spawn),
        call_ensures(MenuPopup::generation, (&m,), g),
        call_ensures(RequiredGlobal::interface, (missing,), name),
        call_ensures(Settle::new, (), s),
    ensures
        old(w).provenance == Some(ScaleProvenance::Authoritative) ==> *final(w) == *old(w),
        old(w).provenance != Some(ScaleProvenance::Authoritative) ==> final(w).scale
            == Some(Scale120::of(120)) && final(w).provenance == Some(ScaleProvenance::Provisional),
        final(w).size == old(w).size && final(w).mode == old(w).mode,
        final(a).has_background && final(a).bg == old(a).bg && final(a).menu == old(a).menu,
        spawn <==> old(b).scale_discovery is Requested && window.scale is None,
        spawn ==> final(b).scale_discovery is Spawned,
        old(b).scale_discovery is Requested && window.scale is Some ==> final(b).scale_discovery
            is Idle,
        !(old(b).scale_discovery is Requested) ==> final(b).scale_discovery
            == old(b).scale_discovery,
        m is NoMenu <==> g is None,
        m matches MenuPopup::Unmapped { generation, .. } ==> g == Some(generation),
        m matches MenuPopup::Mapped { generation, .. } ==> g == Some(generation),
        missing == RequiredGlobal::Compositor ==> name@ == "wl_compositor"@,
        missing == RequiredGlobal::Shm ==> name@ == "wl_shm"@,
        missing == RequiredGlobal::WmBase ==> name@ == "xdg_wm_base"@,
        s.phase == SettlePhase::Fallback && !s.progressed,
{
}

/// A root starts floating and unpresented, with nothing pending, in the color
/// that was asked for before, or else in a dark grey.
pub proof fn root_starts_unpresented(
    shared: RootShared,
    negotiated: bool,
    seat: bool,
    palette: bool,
    s: RootState,
)
    requires
        call_ensures(RootState::new, (&shared, negotiated, seat, palette), s),
    ensures
        s.decorations_negotiated == negotiated && s.has_seat == seat && s.has_palette == palette,
        s.mode == WindowMode::Floating && !s.presented && !s.pending_configure && !s.suspended
            && !s.has_background && s.current_size is None && s.pending_w is None && s.pending_h
            is None && s.menu is NoMenu && !s.pre_fs_maximized && s.scale_discovery is Idle,
        shared.flags.pending_bg matches Some(c) ==> s.bg == c,
        shared.flags.pending_bg is None ==> s.bg.r == 16 && s.bg.g == 16 && s.bg.b == 16,
{
}

} // verus!
