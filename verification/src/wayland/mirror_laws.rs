//! How mpv is kept to the size of the app's window and brought under it.

use vstd::prelude::*;

use crate::wayland::mpv_proxy::app_shim;
use crate::wayland::mpv_proxy::find_mpv_surface;
use crate::wayland::mpv_proxy::forwards_destination;
use crate::wayland::mpv_proxy::mpv_loop_ends;
use crate::wayland::mpv_proxy::mpv_shim;
use crate::wayland::mpv_proxy::surface_at;
use crate::wayland::mpv_proxy::AppShell;
use crate::wayland::mpv_proxy::BoundGlobal;
use crate::wayland::mpv_proxy::DisplayState;
use crate::wayland::mpv_proxy::MpvConfigure;
use crate::wayland::mpv_proxy::MpvShell;
use crate::wayland::mpv_proxy::ProxyShared;
use crate::wayland::mpv_proxy::PublishedSize;
use crate::wayland::mpv_proxy::Shim;
use crate::wayland::mpv_proxy::SpliceRequest;
use crate::wayland::mpv_proxy::StartNext;
use crate::wayland::mpv_proxy::StartStage;
use crate::wayland::window_state::WindowSize;

verus! {

/// A size that is published is the one that is read, and is new to whoever has
/// seen the one before, even where it is the same size; mpv's thread is woken.
pub proof fn published_size_is_new(
    s: &mut ProxyShared,
    size: WindowSize,
    u: (),
    read: Option<WindowSize>,
    seen: u32,
    since: Option<PublishedSize>,
    again: Option<PublishedSize>,
    first: u32,
)
    requires
        call_ensures(ProxyShared::set_window_size, (s, size), u),
        call_ensures(ProxyShared::window_size, (&*final(s),), read),
        old(s).window matches Some(p) ==> seen == p.generation,
        old(s).window is None ==> seen == 0,
        call_ensures(ProxyShared::window_size_since, (&*final(s), seen), since),
        since matches Some(p) ==> first == p.generation,
        call_ensures(ProxyShared::window_size_since, (&*final(s), first), again),
    ensures
        read == Some(size),
        since matches Some(p) && p.size == size,
        again is None,
        final(s).wake_mpv,
        final(s).mpv_video_surface_id == old(s).mpv_video_surface_id && final(s).app_client_fd
            == old(s).app_client_fd && final(s).running == old(s).running,
{
}

/// Before anything is published there is no size at all.
pub proof fn nothing_is_known_at_first(
    s: ProxyShared,
    read: Option<WindowSize>,
    seen: u32,
    since: Option<PublishedSize>,
)
    requires
        call_ensures(ProxyShared::new, (), s),
        call_ensures(ProxyShared::window_size, (&s,), read),
        call_ensures(ProxyShared::window_size_since, (&s, seen), since),
    ensures
        read is None && since is None,
        s.mpv_video_surface_id == 0 && s.app_client_fd < 0 && !s.running && !s.wake_mpv,
{
}

/// The app's descriptor is taken once; the first proxy is the one; mpv's shell
/// surface is noted, and never asked for upstream.
pub proof fn proxy_is_shared_once(
    a: &mut ProxyShared,
    fd: Option<i32>,
    b: &mut ProxyShared,
    none: Option<i32>,
    c: &mut ProxyShared,
    first: bool,
    d: &mut ProxyShared,
    second: bool,
    e: &mut ProxyShared,
    id: Option<u32>,
    forward: bool,
)
    requires
        call_ensures(ProxyShared::take_app_client_fd, (a,), fd),
        *old(b) == *final(a),
        call_ensures(ProxyShared::take_app_client_fd, (b,), none),
        call_ensures(ProxyShared::set_proxy, (c,), first),
        *old(d) == *final(c),
        call_ensures(ProxyShared::set_proxy, (d,), second),
        call_ensures(ProxyShared::get_xdg_surface, (e, id), forward),
    ensures
        fd is Some <==> old(a).app_client_fd >= 0,
        fd matches Some(v) ==> v == old(a).app_client_fd,
        none is None,
        final(a).window == old(a).window && final(a).mpv_video_surface_id
            == old(a).mpv_video_surface_id,
        first <==> !old(c).running,
        !second && final(d).running,
        !forward,
        id matches Some(v) ==> final(e).mpv_video_surface_id == v,
        id is None ==> *final(e) == *old(e),
        final(e).window == old(e).window,
{
}

/// mpv is told a size it has not seen, as a maximized window, under a new serial,
/// once it has a toplevel; the same size is not told twice.
pub proof fn mpv_is_told_each_size_once(
    sh: &mut MpvShell,
    shared: ProxyShared,
    seen: &mut u32,
    r: Option<MpvConfigure>,
    sh2: &mut MpvShell,
    seen2: &mut u32,
    again: Option<MpvConfigure>,
)
    requires
        call_ensures(MpvShell::apply_window_size_mpv, (sh, &shared, seen), r),
        *old(sh2) == *final(sh),
        *old(seen2) == *final(seen),
        call_ensures(MpvShell::apply_window_size_mpv, (sh2, &shared, seen2), again),
    ensures
        r is Some <==> old(sh).toplevel && shared.window is Some && shared.window->Some_0.generation
            != *old(seen),
        r matches Some(c) ==> {
            &&& c.size == shared.window->Some_0.size
            &&& c.state == 1
            &&& c.serial != old(sh).serial && (old(sh).serial < u32::MAX ==> c.serial
                == old(sh).serial + 1)
            &&& final(sh).serial == c.serial
            &&& *final(seen) == shared.window->Some_0.generation
        },
        r is None ==> *final(seen) == *old(seen) && *final(sh) == *old(sh),
        again is None,
        final(sh).toplevel == old(sh).toplevel,
{
}

/// mpv's toplevel is configured at once where the size is known, and whatever it
/// asks for it is told the host's size again.
pub proof fn mpv_keeps_the_host_size(
    sh: &mut MpvShell,
    shared: ProxyShared,
    r: Option<MpvConfigure>,
    v: &mut MpvShell,
    s: Option<MpvConfigure>,
    fresh: MpvShell,
    w: &mut MpvShell,
    serial: u32,
    x: &mut MpvShell,
    size: WindowSize,
    told: Option<MpvConfigure>,
)
    requires
        call_ensures(MpvShell::get_toplevel, (sh, &shared), r),
        call_ensures(MpvShell::reassert_mpv_state, (v, &shared), s),
        call_ensures(MpvShell::new, (), fresh),
        call_ensures(MpvShell::next_serial, (w,), serial),
        call_ensures(MpvShell::emit_mpv_configure, (x, size), told),
    ensures
        final(sh).toplevel,
        r is Some <==> shared.window is Some,
        r matches Some(c) ==> c.size == shared.window->Some_0.size && c.state == 1 && c.serial
            != old(sh).serial && final(sh).serial == c.serial,
        s is Some <==> shared.window is Some && old(v).toplevel,
        s matches Some(c) ==> c.size == shared.window->Some_0.size && c.state == 1 && c.serial
            != old(v).serial && final(v).serial == c.serial,
        !fresh.toplevel && fresh.serial == 0,
        serial != old(w).serial && final(w).serial == serial && final(w).toplevel
            == old(w).toplevel,
        old(w).serial < u32::MAX ==> serial == old(w).serial + 1,
        old(w).serial == u32::MAX ==> serial == 0,
        told is Some <==> old(x).toplevel,
        told matches Some(c) ==> c.size == size && c.state == 1 && final(x).serial == c.serial,
{
}

/// The app's input and shell pass under watch; mpv gets neither input nor a shell
/// of its own, and sizes without area are held back. Other globals are left
/// alone, the scale on both sides is not.
pub proof fn globals_are_shimmed_by_name(
    i: &str,
    a: Option<Shim>,
    m: Option<Shim>,
    w: i32,
    h: i32,
    f: bool,
)
    requires
        call_ensures(app_shim, (i,), a),
        call_ensures(mpv_shim, (i,), m),
        call_ensures(forwards_destination, (w, h), f),
    ensures
        i@ == "xdg_wm_base"@ ==> a == Some(Shim::AppShell) && m == Some(Shim::MpvShell),
        i@ == "wl_seat"@ ==> a == Some(Shim::ForwardSeat) && m == Some(Shim::BlockSeat),
        i@ == "wp_fractional_scale_manager_v1"@ ==> a == Some(Shim::FractionalScale) && m == Some(
            Shim::FractionalScale,
        ),
        i@ == "wp_viewporter"@ ==> a is None && m == Some(Shim::Viewporter),
        a is Some ==> m is Some,
        m is Some ==> i@ == "xdg_wm_base"@ || i@ == "wl_seat"@ || i@
            == "wp_fractional_scale_manager_v1"@ || i@ == "wp_viewporter"@,
        w > 0 && h > 0 ==> f,
        w == -1 && h == -1 ==> f,
        w == 0 || h == 0 ==> !f,
        w < 0 && h >= 0 || w >= 0 && h < 0 ==> !f,
        w < -1 || h < -1 ==> !f,
{
    names_differ();
}

proof fn names_differ()
    ensures
        "xdg_wm_base"@.len() == 11,
        "wl_seat"@.len() == 7,
        "wp_fractional_scale_manager_v1"@.len() == 30,
        "wp_viewporter"@.len() == 13,
        "wl_compositor"@.len() == 13,
        "wl_subcompositor"@.len() == 16,
        "wl_compositor"@[1] == 'l',
        "wp_viewporter"@[1] == 'p',
{
    reveal_strlit("xdg_wm_base");
    reveal_strlit("wl_seat");
    reveal_strlit("wp_fractional_scale_manager_v1");
    reveal_strlit("wp_viewporter");
    reveal_strlit("wl_compositor");
    reveal_strlit("wl_subcompositor");
}

/// The three globals the proxy needs are bound at most at the version it knows,
/// never above what is offered; the round trip is complete once all three came.
pub proof fn needed_globals_are_bound(
    s: &mut AppShell,
    i: &str,
    version: u32,
    r: Option<(BoundGlobal, u32)>,
    t: &mut AppShell,
    complete: bool,
)
    requires
        call_ensures(AppShell::handle_global, (s, i, version), r),
        call_ensures(AppShell::roundtrip_done, (t,), complete),
    ensures
        r is Some <==> i@ == "wl_compositor"@ || i@ == "wl_subcompositor"@ || i@ == "xdg_wm_base"@,
        r matches Some(v) ==> {
            &&& v.0 == BoundGlobal::Compositor <==> i@ == "wl_compositor"@
            &&& v.0 == BoundGlobal::Subcompositor <==> i@ == "wl_subcompositor"@
            &&& v.0 == BoundGlobal::WmBase <==> i@ == "xdg_wm_base"@
            &&& v.1 <= version
            &&& v.0 == BoundGlobal::Subcompositor ==> v.1 <= 1 && (version >= 1 ==> v.1 == 1)
            &&& v.0 != BoundGlobal::Subcompositor ==> v.1 <= 6 && (version <= 6 ==> v.1 == version)
                && (version > 6 ==> v.1 == 6)
            &&& version <= 1 ==> v.1 == version
        },
        final(s).compositor <==> old(s).compositor || i@ == "wl_compositor"@,
        final(s).subcompositor <==> old(s).subcompositor || i@ == "wl_subcompositor"@,
        final(s).wm_base <==> old(s).wm_base || i@ == "xdg_wm_base"@,
        final(s).host_root == old(s).host_root && final(s).spliced == old(s).spliced
            && final(s).globals_ready == old(s).globals_ready,
        complete <==> old(t).compositor && old(t).subcompositor && old(t).wm_base,
        final(t).globals_ready && final(t).host_root == old(t).host_root,
{
    names_differ();
}

/// The first display is kept, its round trip is made once, the app's toplevel is
/// the root, and mpv's client is let go of once.
pub proof fn app_shell_notes_the_first_display(
    a: &mut AppShell,
    display: u32,
    u: (),
    b: &mut AppShell,
    start: Option<u32>,
    c: &mut AppShell,
    twice: Option<u32>,
    d: &mut AppShell,
    surface: u32,
    e: &mut AppShell,
    client: u32,
    f: &mut AppShell,
    gone: Option<u32>,
    g: &mut AppShell,
    none: Option<u32>,
    fresh: AppShell,
)
    requires
        call_ensures(AppShell::new, (), fresh),
        call_ensures(AppShell::get_registry, (a, display), u),
        *old(b) == *final(a),
        call_ensures(AppShell::ensure_root, (b,), start),
        *old(c) == *final(b),
        call_ensures(AppShell::ensure_root, (c,), twice),
        call_ensures(AppShell::get_toplevel, (d, surface), u),
        call_ensures(AppShell::add_mpv_client, (e, client), u),
        *old(f) == *final(e),
        call_ensures(AppShell::drop_mpv_client, (f,), gone),
        *old(g) == *final(f),
        call_ensures(AppShell::drop_mpv_client, (g,), none),
    ensures
        fresh.display is None && fresh.host_root is None && fresh.mpv_client is None
            && !fresh.spliced && !fresh.globals_ready && !fresh.roundtrip_started
            && !fresh.compositor && !fresh.subcompositor && !fresh.wm_base,
        old(a).display is None ==> final(a).display == Some(display),
        old(a).display is Some ==> final(a).display == old(a).display,
        start is Some <==> !old(a).roundtrip_started,
        start is Some ==> start == final(a).display,
        twice is None,
        final(d).host_root == Some(surface) && final(d).display == old(d).display,
        gone == Some(client) && none is None,
        final(g).host_root == old(e).host_root && final(g).spliced == old(e).spliced,
{
}

/// mpv's surface is looked for once the globals are known and there is a root; it
/// is spliced under that root, once: at the origin, lowest, without input, and
/// the root is committed last.
pub proof fn mpv_is_spliced_once(
    s: &mut AppShell,
    created: bool,
    r: Vec<SpliceRequest>,
    wants: bool,
    root: Option<u32>,
    still: bool,
    after: Option<u32>,
)
    requires
        !old(s).spliced,
        call_ensures(AppShell::wants_splice, (&*old(s),), wants),
        call_ensures(AppShell::can_splice, (&*old(s),), root),
        call_ensures(AppShell::splice_result, (s, created), r),
        call_ensures(AppShell::wants_splice, (&*final(s),), still),
        call_ensures(AppShell::can_splice, (&*final(s),), after),
    ensures
        wants <==> old(s).globals_ready && old(s).host_root is Some,
        root is Some <==> old(s).compositor && old(s).subcompositor && old(s).host_root is Some,
        root is Some ==> root == old(s).host_root,
        created ==> !still && after is None,
        !created ==> still == wants && after == root && r@.len() == 0,
        created ==> {
            &&& r@.len() == 7
            &&& r@.contains(SpliceRequest::SetPosition { x: 0, y: 0 })
            &&& r@.contains(SpliceRequest::PlaceAboveRoot)
            &&& r@.contains(SpliceRequest::WatchCommits)
            &&& r@[3] is CreateRegion && r@[4] is SetInputRegion && r@[5] is DestroyRegion
            &&& r@.last() == SpliceRequest::CommitRoot
        },
{
    if created {
        assert(r@[0] == SpliceRequest::SetPosition { x: 0, y: 0 });
        assert(r@[1] == SpliceRequest::PlaceAboveRoot);
        assert(r@[2] == SpliceRequest::WatchCommits);
    }
}

/// The surface that is found is the first with the id that was noted; id 0 and a
/// client that is not there have none.
pub proof fn surface_is_found_by_its_id(
    s: AppShell,
    objects: &[Option<u32>],
    vid: u32,
    r: Option<usize>,
    f: Option<usize>,
)
    requires
        call_ensures(AppShell::mpv_surface, (&s, objects, vid), r),
        call_ensures(find_mpv_surface, (objects, vid), f),
    ensures
        s.mpv_client is None ==> r is None,
        s.mpv_client is Some ==> r == f,
        vid == 0 ==> f is None,
        f matches Some(i) ==> i < objects@.len() && objects@[i as int] == Some(vid) && forall|j: int|
            0 <= j < i ==> objects@[j] != Some(vid),
        f is None && vid != 0 ==> forall|j: int|
            0 <= j < objects@.len() ==> objects@[j] != Some(vid),
{
    first_surface(objects@, vid);
}

proof fn first_surface(objects: Seq<Option<u32>>, vid: u32)
    ensures
        match surface_at(objects, vid) {
            Some(i) => 0 <= i < objects.len() && vid != 0 && objects[i] == Some(vid) && forall|j: int|
                0 <= j < i ==> objects[j] != Some(vid),
            None => vid == 0 || forall|j: int| 0 <= j < objects.len() ==> objects[j] != Some(vid),
        },
    decreases objects.len(),
{
    if objects.len() > 0 && vid != 0 {
        let front = objects.drop_last();
        first_surface(front, vid);
        assert(forall|j: int| 0 <= j < front.len() ==> front[j] == objects[j]);
    }
}

/// Each side of the proxy comes up step by step; who waits is told at which step
/// it failed, and once nobody waits it just ends.
pub proof fn proxy_comes_up_step_by_step(stage: StartStage, done: StartNext, failed: StartNext)
    requires
        call_ensures(StartStage::next, (stage, true), done),
        call_ensures(StartStage::next, (stage, false), failed),
    ensures
        stage == StartStage::AppState ==> done == StartNext::Stage(StartStage::AppConnect) && (
        failed matches StartNext::Report(t) && t@ == "S_app build: "@),
        stage == StartStage::AppConnect ==> done == StartNext::Stage(StartStage::AppBridge) && (
        failed matches StartNext::Report(t) && t@ == "S_app connect: "@),
        stage == StartStage::AppBridge ==> done == StartNext::Stage(StartStage::AppAddClient) && (
        failed matches StartNext::Report(t) && t@ == "S_app mpv bridge: "@),
        stage == StartStage::AppAddClient ==> done == StartNext::Stage(StartStage::AppSpawnMpv) && (
        failed matches StartNext::Report(t) && t@ == "S_app add mpv bridge: "@),
        stage == StartStage::AppSpawnMpv ==> done == StartNext::Stage(StartStage::AppPublish) && (
        failed matches StartNext::Report(t) && t@ == ""@),
        stage == StartStage::MpvState ==> done == StartNext::Stage(StartStage::MpvAcceptor) && (
        failed matches StartNext::Report(t) && t@ == "S_mpv build: "@),
        stage == StartStage::MpvAcceptor ==> done == StartNext::Stage(StartStage::MpvName) && (
        failed matches StartNext::Report(t) && t@ == "S_mpv acceptor: "@),
        stage == StartStage::MpvName ==> done == StartNext::Stage(StartStage::MpvPing) && (
        failed matches StartNext::Report(t) && t@ == "display name has NUL: "@),
        stage == StartStage::MpvPing ==> done == StartNext::Stage(StartStage::MpvEventLoop) && (
        failed matches StartNext::Report(t) && t@ == "S_mpv ping: "@),
        stage == StartStage::MpvEventLoop ==> done == StartNext::Stage(StartStage::MpvWakeSource)
            && (failed matches StartNext::Report(t) && t@ == "S_mpv event loop: "@),
        stage == StartStage::MpvWakeSource ==> done == StartNext::Stage(StartStage::MpvPollSource)
            && (failed matches StartNext::Report(t) && t@ == "S_mpv wake source: "@),
        stage == StartStage::MpvPollSource ==> done == StartNext::Stage(StartStage::MpvPublish) && (
        failed matches StartNext::Report(t) && t@ == "S_mpv poll source: "@),
        stage == StartStage::AppPublish || stage == StartStage::MpvPublish ==> done is Run
            && failed is Quit,
{
}

/// mpv's side goes on only while its queue is ready and its state alive. The app
/// connects at most once: a missing descriptor is tried again, any result stands.
pub proof fn connection_is_attempted_once(
    ready: bool,
    alive: bool,
    ends: bool,
    d: &mut DisplayState,
    outcome: Option<bool>,
    available: bool,
    before: bool,
    after: bool,
    e: &mut DisplayState,
    other: Option<bool>,
    later: bool,
)
    requires
        call_ensures(mpv_loop_ends, (ready, alive), ends),
        call_ensures(DisplayState::wants_connect, (*old(d),), before),
        call_ensures(DisplayState::attempted, (d, outcome), available),
        call_ensures(DisplayState::wants_connect, (*final(d),), after),
        *old(e) == *final(d),
        call_ensures(DisplayState::attempted, (e, other), later),
    ensures
        ends <==> !(ready && alive),
        after <==> before && outcome is None,
        before ==> (available <==> outcome == Some(true)),
        !before ==> (available <==> *old(d) == DisplayState::Connected),
        !after ==> later == available && *final(e) == *final(d),
{
}

} // verus!
