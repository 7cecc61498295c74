//! Wayland proxy between mpv and the compositor: the size mpv mirrors, and how
//! its surface comes under the app's window.

use vstd::prelude::*;

use crate::text::same_text;
use crate::wayland::window_state::WindowSize;

verus! {

/// The authoritative window size and the generation it was published at.
#[derive(Clone, Copy, PartialEq, Eq, Structural, Debug)]
pub struct PublishedSize {
    pub size: WindowSize,
    pub generation: u32,
}

/// What the proxy's threads share with the rest of the process.
#[derive(Clone, Copy, PartialEq, Eq, Structural, Debug)]
pub struct ProxyShared {
    /// `None` until the host toplevel has been configured: there is no default
    /// to fall back to, so mpv only ever mirrors real geometry.
    pub window: Option<PublishedSize>,
    /// mpv's video surface, by its id on the wire; 0 is unknown.
    pub mpv_video_surface_id: u32,
    /// The descriptor of the app's own connection, or -1.
    pub app_client_fd: i32,
    /// mpv's thread has to be woken.
    pub wake_mpv: bool,
    /// A proxy runs.
    pub running: bool,
}

pub open spec fn next_u32(v: u32) -> u32 {
    if v == u32::MAX {
        0
    } else {
        (v + 1) as u32
    }
}

fn succ(v: u32) -> (r: u32)
    ensures
        r == next_u32(v),
{
    if v == u32::MAX {
        0
    } else {
        v + 1
    }
}

impl ProxyShared {
    pub fn new() -> (s: ProxyShared)
        ensures
            s == (ProxyShared {
                window: None,
                mpv_video_surface_id: 0,
                app_client_fd: (-1int) as i32,
                wake_mpv: false,
                running: false,
            }),
    {
        ProxyShared {
            window: None,
            mpv_video_surface_id: 0,
            app_client_fd: -1,
            wake_mpv: false,
            running: false,
        }
    }

    /// Takes the published descriptor and leaves the slot empty; a second call
    /// is `None`.
    pub fn take_app_client_fd(&mut self) -> (r: Option<i32>)
        ensures
            r == (if old(self).app_client_fd >= 0 {
                Some(old(self).app_client_fd)
            } else {
                None
            }),
            *final(self) == (ProxyShared { app_client_fd: (-1int) as i32, ..*old(self) }),
    {
        let fd: i32 = self.app_client_fd;
        self.app_client_fd = -1;
        if fd >= 0 {
            Some(fd)
        } else {
            None
        }
    }

    pub fn window_size(&self) -> (r: Option<WindowSize>)
        ensures
            r == match self.window {
                Some(p) => Some(p.size),
                None => None,
            },
    {
        match self.window {
            Some(p) => Some(p.size),
            None => None,
        }
    }

    pub open spec fn since(self, seen: u32) -> Option<PublishedSize> {
        match self.window {
            Some(p) => if p.generation != seen {
                Some(p)
            } else {
                None
            },
            None => None,
        }
    }

    /// The published size, or `None` when nothing other than `seen` exists.
    pub fn window_size_since(&self, seen: u32) -> (r: Option<PublishedSize>)
        ensures
            r == self.since(seen),
    {
        match self.window {
            Some(p) => if p.generation != seen {
                Some(p)
            } else {
                None
            },
            None => None,
        }
    }

    pub open spec fn published(self, size: WindowSize) -> ProxyShared {
        ProxyShared {
            window: Some(
                PublishedSize {
                    size,
                    generation: match self.window {
                        Some(p) => next_u32(p.generation),
                        None => 1,
                    },
                },
            ),
            wake_mpv: true,
            ..self
        }
    }

    pub fn set_window_size(&mut self, size: WindowSize)
        ensures
            *final(self) == old(self).published(size),
    {
        let generation: u32 = match self.window {
            Some(p) => succ(p.generation),
            None => 1,
        };
        self.window = Some(PublishedSize { size, generation });
        self.wake_mpv = true;
    }

    /// mpv gives one of its surfaces a shell role: that is its video surface,
    /// known from now on by its id on the wire, where it has one. The request is
    /// never forwarded, for the surface must stay free to become a subsurface.
    pub fn get_xdg_surface(&mut self, server_id: Option<u32>) -> (forward: bool)
        ensures
            !forward,
            *final(self) == (ProxyShared {
                mpv_video_surface_id: match server_id {
                    Some(id) => id,
                    None => old(self).mpv_video_surface_id,
                },
                ..*old(self)
            }),
    {
        if let Some(id) = server_id {
            self.mpv_video_surface_id = id;
        }
        false
    }

    /// Publishes the running proxy. Returns whether it was the first.
    pub fn set_proxy(&mut self) -> (r: bool)
        ensures
            r == !old(self).running,
            *final(self) == (ProxyShared { running: true, ..*old(self) }),
    {
        let first = !self.running;
        self.running = true;
        first
    }
}

/// A size newer than the one seen is always noticed: publishing changes the
/// generation, even when the size stays.
pub proof fn publishing_is_noticed(s: ProxyShared, size: WindowSize, seen: u32)
    requires
        s.window matches Some(p) ==> seen == p.generation,
        s.window is None ==> seen == 0,
    ensures
        s.published(size).since(seen) matches Some(p) && p.size == size,
{
}

/// What the proxy does with the objects of one interface.
#[derive(Clone, Copy, PartialEq, Eq, Structural, Debug)]
pub enum Shim {
    /// The window's own shell: its root surface is noted.
    AppShell,
    /// mpv's shell is kept from the compositor and answered here.
    MpvShell,
    FractionalScale,
    /// Pointers, keyboards and touch go to the app.
    ForwardSeat,
    /// mpv gets no input: its seat's devices exist on the proxy alone.
    BlockSeat,
    /// Destinations without area are held back.
    Viewporter,
}

pub open spec fn app_shim_of(interface: Seq<char>) -> Option<Shim> {
    if interface == "xdg_wm_base"@ {
        Some(Shim::AppShell)
    } else if interface == "wp_fractional_scale_manager_v1"@ {
        Some(Shim::FractionalScale)
    } else if interface == "wl_seat"@ {
        Some(Shim::ForwardSeat)
    } else {
        None
    }
}

pub open spec fn mpv_shim_of(interface: Seq<char>) -> Option<Shim> {
    if interface == "xdg_wm_base"@ {
        Some(Shim::MpvShell)
    } else if interface == "wp_fractional_scale_manager_v1"@ {
        Some(Shim::FractionalScale)
    } else if interface == "wl_seat"@ {
        Some(Shim::BlockSeat)
    } else if interface == "wp_viewporter"@ {
        Some(Shim::Viewporter)
    } else {
        None
    }
}

/// What is intercepted of a global the app binds; every bind is forwarded.
pub fn app_shim(interface: &str) -> (r: Option<Shim>)
    ensures
        r == app_shim_of(interface@),
{
    if same_text(interface, "xdg_wm_base") {
        Some(Shim::AppShell)
    } else if same_text(interface, "wp_fractional_scale_manager_v1") {
        Some(Shim::FractionalScale)
    } else if same_text(interface, "wl_seat") {
        Some(Shim::ForwardSeat)
    } else {
        None
    }
}

/// What is intercepted of a global mpv binds; every bind is forwarded.
pub fn mpv_shim(interface: &str) -> (r: Option<Shim>)
    ensures
        r == mpv_shim_of(interface@),
{
    if same_text(interface, "xdg_wm_base") {
        Some(Shim::MpvShell)
    } else if same_text(interface, "wp_fractional_scale_manager_v1") {
        Some(Shim::FractionalScale)
    } else if same_text(interface, "wl_seat") {
        Some(Shim::BlockSeat)
    } else if same_text(interface, "wp_viewporter") {
        Some(Shim::Viewporter)
    } else {
        None
    }
}

/// mpv's shell objects, as far as decisions go.
#[derive(Clone, Copy, PartialEq, Eq, Structural, Debug)]
pub struct MpvShell {
    /// mpv has made its toplevel: without one there is nothing to configure.
    pub toplevel: bool,
    pub serial: u32,
}

/// A configure for mpv.
#[derive(Clone, Copy, PartialEq, Eq, Structural, Debug)]
pub struct MpvConfigure {
    pub size: WindowSize,
    pub serial: u32,
    /// The one state it carries, as the protocol numbers them.
    pub state: u32,
}

/// The protocol's number for a maximized toplevel. In that state mpv holds the
/// size it is handed, where else it would derive one from the video.
pub const STATE_MAXIMIZED: u32 = 1;

impl MpvShell {
    pub fn new() -> (s: MpvShell)
        ensures
            s == (MpvShell { toplevel: false, serial: 0 }),
    {
        MpvShell { toplevel: false, serial: 0 }
    }

    pub fn next_serial(&mut self) -> (r: u32)
        ensures
            r == next_u32(old(self).serial),
            *final(self) == (MpvShell { serial: r, ..*old(self) }),
    {
        self.serial = succ(self.serial);
        self.serial
    }

    /// The configure for a size, once there is a toplevel to take it.
    pub open spec fn emitted(self, size: WindowSize) -> (MpvShell, Option<MpvConfigure>) {
        if self.toplevel {
            let serial = next_u32(self.serial);
            (
                MpvShell { serial, ..self },
                Some(MpvConfigure { size, serial, state: STATE_MAXIMIZED }),
            )
        } else {
            (self, None)
        }
    }

    pub fn emit_mpv_configure(&mut self, size: WindowSize) -> (r: Option<MpvConfigure>)
        ensures
            r == old(self).emitted(size).1,
            *final(self) == old(self).emitted(size).0,
    {
        if self.toplevel {
            let serial: u32 = self.next_serial();
            Some(MpvConfigure { size, serial, state: STATE_MAXIMIZED })
        } else {
            None
        }
    }

    /// Sends mpv a size it has not seen. The marker advances only once a
    /// configure is actually emitted; before mpv's toplevel exists this waits.
    pub fn apply_window_size_mpv(&mut self, shared: &ProxyShared, seen_gen: &mut u32) -> (r: Option<
        MpvConfigure,
    >)
        ensures
            match shared.since(*old(seen_gen)) {
                Some(p) => {
                    &&& r == old(self).emitted(p.size).1
                    &&& *final(self) == old(self).emitted(p.size).0
                    &&& *final(seen_gen) == (if r is Some {
                        p.generation
                    } else {
                        *old(seen_gen)
                    })
                },
                None => r is None && *final(self) == *old(self) && *final(seen_gen) == *old(seen_gen),
            },
    {
        match shared.window_size_since(*seen_gen) {
            Some(p) => {
                let r = self.emit_mpv_configure(p.size);
                if r.is_some() {
                    *seen_gen = p.generation;
                }
                r
            },
            None => None,
        }
    }

    /// mpv made its toplevel. It is configured at once if the size is known.
    pub fn get_toplevel(&mut self, shared: &ProxyShared) -> (r: Option<MpvConfigure>)
        ensures
            match shared.window {
                Some(p) => {
                    let made = MpvShell { toplevel: true, ..*old(self) };
                    r == made.emitted(p.size).1 && *final(self) == made.emitted(p.size).0
                },
                None => r is None && *final(self) == (MpvShell { toplevel: true, ..*old(self) }),
            },
    {
        self.toplevel = true;
        self.reassert_mpv_state(shared)
    }

    /// mpv asked for another state. The request is never honored, for the host
    /// owns geometry, but it must be answered, or mpv stalls.
    pub fn reassert_mpv_state(&mut self, shared: &ProxyShared) -> (r: Option<MpvConfigure>)
        ensures
            match shared.window {
                Some(p) => r == old(self).emitted(p.size).1 && *final(self) == old(self).emitted(p.size).0,
                None => r is None && *final(self) == *old(self),
            },
    {
        match shared.window_size() {
            Some(size) => self.emit_mpv_configure(size),
            None => None,
        }
    }
}

/// mpv only ever receives the size the host published, and a size already
/// delivered is not delivered again.
pub proof fn mpv_mirrors_the_host(sh: MpvShell, shared: ProxyShared, seen: u32)
    ensures
        shared.since(seen) matches Some(p) ==> {
            &&& sh.toplevel ==> sh.emitted(p.size).1 == Some(
                MpvConfigure {
                    size: p.size,
                    serial: next_u32(sh.serial),
                    state: STATE_MAXIMIZED,
                },
            )
            &&& shared.since(p.generation) is None
        },
        shared.window is None ==> shared.since(seen) is None,
{
}

/// Whether a viewport destination is forwarded. mpv can size a viewport before
/// it has a geometry, and a destination without area is a protocol error that
/// would end the shared connection. The unset form goes through.
pub fn forwards_destination(width: i32, height: i32) -> (r: bool)
    ensures
        r == ((width == -1 && height == -1) || (width > 0 && height > 0)),
{
    let unset = width == -1 && height == -1;
    unset || (width > 0 && height > 0)
}

/// The objects needed to bring mpv's surface under the app's root, by their ids
/// where it matters which they are.
#[derive(Clone, Copy, PartialEq, Eq, Debug)]
pub struct AppShell {
    pub display: Option<u32>,
    pub compositor: bool,
    pub subcompositor: bool,
    pub wm_base: bool,
    pub globals_ready: bool,
    pub roundtrip_started: bool,
    /// The surface of the app's toplevel.
    pub host_root: Option<u32>,
    pub spliced: bool,
    /// mpv, as a client of the proxy: its surfaces are looked for among its
    /// objects.
    pub mpv_client: Option<u32>,
}

/// A global the proxy binds for itself.
#[derive(Clone, Copy, PartialEq, Eq, Structural, Debug)]
pub enum BoundGlobal {
    Compositor,
    Subcompositor,
    WmBase,
}

pub open spec fn bound_of(interface: Seq<char>) -> Option<BoundGlobal> {
    if interface == "wl_compositor"@ {
        Some(BoundGlobal::Compositor)
    } else if interface == "wl_subcompositor"@ {
        Some(BoundGlobal::Subcompositor)
    } else if interface == "xdg_wm_base"@ {
        Some(BoundGlobal::WmBase)
    } else {
        None
    }
}

pub open spec fn bind_version(g: BoundGlobal, version: u32) -> u32 {
    let cap: u32 = match g {
        BoundGlobal::Subcompositor => 1,
        _ => 6,
    };
    if version <= cap {
        version
    } else {
        cap
    }
}

impl AppShell {
    pub fn new() -> (s: AppShell)
        ensures
            s == (AppShell {
                display: None,
                compositor: false,
                subcompositor: false,
                wm_base: false,
                globals_ready: false,
                roundtrip_started: false,
                host_root: None,
                spliced: false,
                mpv_client: None,
            }),
    {
        AppShell {
            display: None,
            compositor: false,
            subcompositor: false,
            wm_base: false,
            globals_ready: false,
            roundtrip_started: false,
            host_root: None,
            spliced: false,
            mpv_client: None,
        }
    }

    /// mpv was connected to the proxy.
    pub fn add_mpv_client(&mut self, client: u32)
        ensures
            *final(self) == (AppShell { mpv_client: Some(client), ..*old(self) }),
    {
        self.mpv_client = Some(client);
    }

    /// The proxy goes down: mpv's end sees it only once nobody holds the client
    /// any more. Returns the client to let go of.
    pub fn drop_mpv_client(&mut self) -> (client: Option<u32>)
        ensures
            client == old(self).mpv_client,
            *final(self) == (AppShell { mpv_client: None, ..*old(self) }),
    {
        let client = self.mpv_client;
        self.mpv_client = None;
        client
    }

    /// The app asked a display for its registry. The first display is kept.
    pub fn get_registry(&mut self, display: u32)
        ensures
            *final(self) == (AppShell {
                display: match old(self).display {
                    Some(d) => Some(d),
                    None => Some(display),
                },
                ..*old(self)
            }),
    {
        if self.display.is_none() {
            self.display = Some(display);
        }
    }

    /// The app made a toplevel of this surface, which is its root from now on.
    pub fn get_toplevel(&mut self, surface: u32)
        ensures
            *final(self) == (AppShell { host_root: Some(surface), ..*old(self) }),
    {
        self.host_root = Some(surface);
    }

    /// The display to make the proxy's own registry round trip on, where it
    /// starts now: once, as soon as there is a display.
    pub fn ensure_root(&mut self) -> (start: Option<u32>)
        ensures
            start == (if old(self).roundtrip_started {
                None
            } else {
                old(self).display
            }),
            *final(self) == (AppShell {
                roundtrip_started: old(self).roundtrip_started || start is Some,
                ..*old(self)
            }),
    {
        if self.roundtrip_started || self.display.is_none() {
            return None;
        }
        self.roundtrip_started = true;
        self.display
    }

    /// A global is announced. Returns what to bind it as.
    pub fn handle_global(&mut self, interface: &str, version: u32) -> (r: Option<
        (BoundGlobal, u32),
    >)
        ensures
            match bound_of(interface@) {
                Some(g) => {
                    &&& r == Some((g, bind_version(g, version)))
                    &&& *final(self) == (match g {
                        BoundGlobal::Compositor => AppShell { compositor: true, ..*old(self) },
                        BoundGlobal::Subcompositor => AppShell {
                            subcompositor: true,
                            ..*old(self)
                        },
                        BoundGlobal::WmBase => AppShell { wm_base: true, ..*old(self) },
                    })
                },
                None => r is None && *final(self) == *old(self),
            },
    {
        let g = if same_text(interface, "wl_compositor") {
            self.compositor = true;
            BoundGlobal::Compositor
        } else if same_text(interface, "wl_subcompositor") {
            self.subcompositor = true;
            BoundGlobal::Subcompositor
        } else if same_text(interface, "xdg_wm_base") {
            self.wm_base = true;
            BoundGlobal::WmBase
        } else {
            return None;
        };
        let cap: u32 = match g {
            BoundGlobal::Subcompositor => 1,
            _ => 6,
        };
        let v: u32 = if version <= cap {
            version
        } else {
            cap
        };
        Some((g, v))
    }

    /// The round trip is done. Returns whether everything needed was announced.
    pub fn roundtrip_done(&mut self) -> (complete: bool)
        ensures
            complete == (old(self).compositor && old(self).subcompositor && old(self).wm_base),
            *final(self) == (AppShell { globals_ready: true, ..*old(self) }),
    {
        self.globals_ready = true;
        self.compositor && self.subcompositor && self.wm_base
    }

    /// Whether mpv's surface should be looked for.
    pub fn wants_splice(&self) -> (r: bool)
        ensures
            r == (self.globals_ready && !self.spliced && self.host_root is Some),
    {
        self.globals_ready && !self.spliced && self.host_root.is_some()
    }

    /// Index of mpv's surface among the objects of its client; none before mpv is
    /// connected.
    pub fn mpv_surface(&self, objects: &[Option<u32>], vid: u32) -> (r: Option<usize>)
        ensures
            self.mpv_client is None ==> r is None,
            self.mpv_client is Some ==> match (r, surface_at(objects@, vid)) {
                (Some(i), Some(j)) => i == j,
                (None, None) => true,
                _ => false,
            },
    {
        if self.mpv_client.is_none() {
            return None;
        }
        find_mpv_surface(objects, vid)
    }

    /// The root to bring mpv's surface under, once found.
    pub fn can_splice(&self) -> (r: Option<u32>)
        ensures
            r == (if !self.spliced && self.compositor && self.subcompositor {
                self.host_root
            } else {
                None
            }),
    {
        if !self.spliced && self.compositor && self.subcompositor {
            self.host_root
        } else {
            None
        }
    }

    /// The subsurface role was asked for. Without it nothing else applies, and
    /// the next round tries again; with it the splice is done for good. Returns
    /// what follows, in order.
    pub fn splice_result(&mut self, created: bool) -> (r: Vec<SpliceRequest>)
        requires
            !old(self).spliced,
        ensures
            *final(self) == (AppShell { spliced: created, ..*old(self) }),
            r@ == (if created {
                splice_requests()
            } else {
                seq![]
            }),
    {
        self.spliced = created;
        if !created {
            return Vec::new();
        }
        let r = vec![
            SpliceRequest::SetPosition { x: 0, y: 0 },
            SpliceRequest::PlaceAboveRoot,
            SpliceRequest::WatchCommits,
            SpliceRequest::CreateRegion,
            SpliceRequest::SetInputRegion,
            SpliceRequest::DestroyRegion,
            SpliceRequest::CommitRoot,
        ];
        assert(r@ =~= splice_requests());
        r
    }
}

/// One request of a splice.
#[derive(Clone, Copy, PartialEq, Eq, Structural, Debug)]
pub enum SpliceRequest {
    SetPosition { x: i32, y: i32 },
    /// Lowest among the root's subsurfaces: the overlays belong to another
    /// client, so creation order cannot keep them above the video.
    PlaceAboveRoot,
    /// Each commit of mpv asks the root for a present, so that every frame comes
    /// with the window's current geometry.
    WatchCommits,
    CreateRegion,
    /// The empty region: the video takes no input.
    SetInputRegion,
    DestroyRegion,
    /// The subsurface only takes effect with its parent's next commit.
    CommitRoot,
}

/// What follows the subsurface role, in order.
pub open spec fn splice_requests() -> Seq<SpliceRequest> {
    seq![
        SpliceRequest::SetPosition { x: 0, y: 0 },
        SpliceRequest::PlaceAboveRoot,
        SpliceRequest::WatchCommits,
        SpliceRequest::CreateRegion,
        SpliceRequest::SetInputRegion,
        SpliceRequest::DestroyRegion,
        SpliceRequest::CommitRoot,
    ]
}

/// The steps by which one side of the proxy comes up.
#[derive(Clone, Copy, PartialEq, Eq, Structural, Debug)]
pub enum StartStage {
    AppState,
    AppConnect,
    AppBridge,
    AppAddClient,
    AppSpawnMpv,
    AppPublish,
    MpvState,
    MpvAcceptor,
    MpvName,
    MpvPing,
    MpvEventLoop,
    MpvWakeSource,
    MpvPollSource,
    MpvPublish,
}

/// What follows a step.
pub enum StartNext {
    Stage(StartStage),
    /// It runs.
    Run,
    /// Whoever waits for it is told this, before the reason.
    Report(&'static str),
    /// Nobody waits for it any more.
    Quit,
}

pub ghost enum StartView {
    Stage(StartStage),
    Run,
    Report(Seq<char>),
    Quit,
}

impl View for StartNext {
    type V = StartView;

    open spec fn view(&self) -> StartView {
        match *self {
            StartNext::Stage(s) => StartView::Stage(s),
            StartNext::Run => StartView::Run,
            StartNext::Report(t) => StartView::Report(t@),
            StartNext::Quit => StartView::Quit,
        }
    }
}

pub open spec fn started(stage: StartStage) -> StartView {
    match stage {
        StartStage::AppState => StartView::Stage(StartStage::AppConnect),
        StartStage::AppConnect => StartView::Stage(StartStage::AppBridge),
        StartStage::AppBridge => StartView::Stage(StartStage::AppAddClient),
        StartStage::AppAddClient => StartView::Stage(StartStage::AppSpawnMpv),
        StartStage::AppSpawnMpv => StartView::Stage(StartStage::AppPublish),
        StartStage::AppPublish => StartView::Run,
        StartStage::MpvState => StartView::Stage(StartStage::MpvAcceptor),
        StartStage::MpvAcceptor => StartView::Stage(StartStage::MpvName),
        StartStage::MpvName => StartView::Stage(StartStage::MpvPing),
        StartStage::MpvPing => StartView::Stage(StartStage::MpvEventLoop),
        StartStage::MpvEventLoop => StartView::Stage(StartStage::MpvWakeSource),
        StartStage::MpvWakeSource => StartView::Stage(StartStage::MpvPollSource),
        StartStage::MpvPollSource => StartView::Stage(StartStage::MpvPublish),
        StartStage::MpvPublish => StartView::Run,
    }
}

pub open spec fn start_failed(stage: StartStage) -> StartView {
    match stage {
        StartStage::AppState => StartView::Report("S_app build: "@),
        StartStage::AppConnect => StartView::Report("S_app connect: "@),
        StartStage::AppBridge => StartView::Report("S_app mpv bridge: "@),
        StartStage::AppAddClient => StartView::Report("S_app add mpv bridge: "@),
        StartStage::AppSpawnMpv => StartView::Report(""@),
        StartStage::AppPublish => StartView::Quit,
        StartStage::MpvState => StartView::Report("S_mpv build: "@),
        StartStage::MpvAcceptor => StartView::Report("S_mpv acceptor: "@),
        StartStage::MpvName => StartView::Report("display name has NUL: "@),
        StartStage::MpvPing => StartView::Report("S_mpv ping: "@),
        StartStage::MpvEventLoop => StartView::Report("S_mpv event loop: "@),
        StartStage::MpvWakeSource => StartView::Report("S_mpv wake source: "@),
        StartStage::MpvPollSource => StartView::Report("S_mpv poll source: "@),
        StartStage::MpvPublish => StartView::Quit,
    }
}

impl StartStage {
    /// What follows this step, done or failed.
    pub fn next(self, done: bool) -> (r: StartNext)
        ensures
            r@ == (if done {
                started(self)
            } else {
                start_failed(self)
            }),
    {
        if done {
            self.succeeded()
        } else {
            self.failed()
        }
    }

    fn succeeded(self) -> (r: StartNext)
        ensures
            r@ == started(self),
    {
        let next = match self {
            StartStage::AppState => StartStage::AppConnect,
            StartStage::AppConnect => StartStage::AppBridge,
            StartStage::AppBridge => StartStage::AppAddClient,
            StartStage::AppAddClient => StartStage::AppSpawnMpv,
            StartStage::AppSpawnMpv => StartStage::AppPublish,
            StartStage::AppPublish => return StartNext::Run,
            StartStage::MpvState => StartStage::MpvAcceptor,
            StartStage::MpvAcceptor => StartStage::MpvName,
            StartStage::MpvName => StartStage::MpvPing,
            StartStage::MpvPing => StartStage::MpvEventLoop,
            StartStage::MpvEventLoop => StartStage::MpvWakeSource,
            StartStage::MpvWakeSource => StartStage::MpvPollSource,
            StartStage::MpvPollSource => StartStage::MpvPublish,
            StartStage::MpvPublish => return StartNext::Run,
        };
        StartNext::Stage(next)
    }

    fn failed(self) -> (r: StartNext)
        ensures
            r@ == start_failed(self),
    {
        let text: &'static str = match self {
            StartStage::AppState => "S_app build: ",
            StartStage::AppConnect => "S_app connect: ",
            StartStage::AppBridge => "S_app mpv bridge: ",
            StartStage::AppAddClient => "S_app add mpv bridge: ",
            StartStage::AppSpawnMpv => "",
            StartStage::AppPublish => return StartNext::Quit,
            StartStage::MpvState => "S_mpv build: ",
            StartStage::MpvAcceptor => "S_mpv acceptor: ",
            StartStage::MpvName => "display name has NUL: ",
            StartStage::MpvPing => "S_mpv ping: ",
            StartStage::MpvEventLoop => "S_mpv event loop: ",
            StartStage::MpvWakeSource => "S_mpv wake source: ",
            StartStage::MpvPollSource => "S_mpv poll source: ",
            StartStage::MpvPublish => return StartNext::Quit,
        };
        StartNext::Report(text)
    }
}

/// How far a start gets when the first `n` steps succeed and the next fails.
pub open spec fn start_after(stage: StartStage, n: nat) -> StartView
    decreases n,
{
    if n == 0 {
        start_failed(stage)
    } else {
        match started(stage) {
            StartView::Stage(next) => start_after(next, (n - 1) as nat),
            end => end,
        }
    }
}

/// A start that fails before anybody was told of a display is reported, exactly
/// once, and never runs; one whose every step succeeds runs.
pub proof fn failed_start_is_reported()
    ensures
        forall|n: nat| n < 5 ==> #[trigger] start_after(StartStage::AppState, n) is Report,
        forall|n: nat| n < 7 ==> #[trigger] start_after(StartStage::MpvState, n) is Report,
        start_after(StartStage::AppState, 6) is Run,
        start_after(StartStage::MpvState, 8) is Run,
{
    reveal_with_fuel(start_after, 9);
    assert forall|n: nat| n < 5 implies #[trigger] start_after(
        StartStage::AppState,
        n,
    ) is Report by {
        if n == 0 || n == 1 || n == 2 || n == 3 || n == 4 {
        }
    }
    assert forall|n: nat| n < 7 implies #[trigger] start_after(
        StartStage::MpvState,
        n,
    ) is Report by {
        if n == 0 || n == 1 || n == 2 || n == 3 || n == 4 || n == 5 || n == 6 {
        }
    }
}

/// Whether mpv's side of the proxy ends after a round: its queue could not be
/// made ready for sleeping, or its state is gone.
pub fn mpv_loop_ends(ready: bool, alive: bool) -> (r: bool)
    ensures
        r == (!ready || !alive),
{
    !ready || !alive
}

/// Index of mpv's video surface among the objects of its client, each given by
/// its id where it is a surface. An id of 0 is not known yet.
pub open spec fn surface_at(objects: Seq<Option<u32>>, vid: u32) -> Option<int>
    decreases objects.len(),
{
    if vid == 0 || objects.len() == 0 {
        None
    } else {
        match surface_at(objects.drop_last(), vid) {
            Some(i) => Some(i),
            None => if objects.last() == Some(vid) {
                Some(objects.len() - 1)
            } else {
                None
            },
        }
    }
}

pub fn find_mpv_surface(objects: &[Option<u32>], vid: u32) -> (r: Option<usize>)
    ensures
        match (r, surface_at(objects@, vid)) {
            (Some(i), Some(j)) => i == j,
            (None, None) => true,
            _ => false,
        },
{
    if vid == 0 {
        return None;
    }
    let mut i: usize = 0;
    assert(objects@.take(0) =~= Seq::empty());
    while i < objects.len()
        invariant
            vid != 0,
            i <= objects@.len(),
            surface_at(objects@.take(i as int), vid) is None,
        decreases objects@.len() - i,
    {
        assert(objects@.take(i + 1).drop_last() =~= objects@.take(i as int));
        if let Some(id) = objects[i] {
            if id == vid {
                proof {
                    surface_at_prefix(objects@, i + 1, vid);
                }
                return Some(i);
            }
        }
        i += 1;
    }
    assert(objects@.take(objects@.len() as int) =~= objects@);
    None
}

proof fn surface_at_prefix(objects: Seq<Option<u32>>, n: int, vid: u32)
    requires
        0 <= n <= objects.len(),
        surface_at(objects.take(n), vid) is Some,
    ensures
        surface_at(objects, vid) == surface_at(objects.take(n), vid),
    decreases objects.len(),
{
    if n < objects.len() {
        assert(objects.drop_last().take(n) =~= objects.take(n));
        surface_at_prefix(objects.drop_last(), n, vid);
    } else {
        assert(objects.take(n) =~= objects);
    }
}

/// The app's own connection. A missing descriptor is tried again; once a
/// connection was attempted the descriptor is spent and the result stands.
#[derive(Clone, Copy, PartialEq, Eq, Structural, Debug)]
pub enum DisplayState {
    Unattempted,
    Connected,
    Failed,
}

impl DisplayState {
    /// Whether a connection has to be attempted now.
    pub fn wants_connect(self) -> (r: bool)
        ensures
            r == (self == DisplayState::Unattempted),
    {
        matches!(self, DisplayState::Unattempted)
    }

    /// The state after an attempt: `None` had no descriptor, else whether it
    /// connected to a display. Returns whether there is a display now.
    pub fn attempted(&mut self, outcome: Option<bool>) -> (available: bool)
        ensures
            *final(self) == (if *old(self) != DisplayState::Unattempted {
                *old(self)
            } else {
                match outcome {
                    None => DisplayState::Unattempted,
                    Some(true) => DisplayState::Connected,
                    Some(false) => DisplayState::Failed,
                }
            }),
            available == (*final(self) == DisplayState::Connected),
    {
        if let DisplayState::Unattempted = *self {
            *self = match outcome {
                None => DisplayState::Unattempted,
                Some(true) => DisplayState::Connected,
                Some(false) => DisplayState::Failed,
            };
        }
        matches!(*self, DisplayState::Connected)
    }
}

} // verus!
