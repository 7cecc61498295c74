//! The app's toplevel: what its dispatch thread does for each configure, scale
//! and request, as decisions on plain state. Protocol calls come out as
//! [`RootEffect`]s, in the order they are to be made.

use vstd::prelude::*;

use crate::abi::max_i32;
use crate::abi::max_int;
use crate::abi::EffectiveDecorations;
use crate::abi::Generation;
use crate::abi::MenuPaint;
use crate::abi::MenuPlacement;
use crate::abi::Rgb;
use crate::abi::WindowDecorations;
use crate::wayland::input::SeatShared;
use crate::wayland::popup_place::Placed;
use crate::wayland::presentation::logical_extent;
use crate::wayland::presentation::plan;
use crate::wayland::presentation::planned;
use crate::wayland::presentation::resolve_logical_size;
use crate::wayland::presentation::resolved;
use crate::wayland::presentation::FloatingRestore;
use crate::wayland::presentation::Inputs;
use crate::wayland::presentation::ScaleDiscovery;
use crate::wayland::presentation::Step;
use crate::wayland::scale::Scale120;
use crate::wayland::window_state::checked_size;
use crate::wayland::window_state::ScaleProvenance;
use crate::wayland::window_state::WindowMode;
use crate::wayland::window_state::WindowSize;
use crate::wayland::window_state::WindowState;

verus! {

pub const DEFAULT_W: i32 = 1280;
pub const DEFAULT_H: i32 = 720;

/// The user's explicit decoration preference; `Auto` leaves it to the
/// compositor.
#[derive(Clone, Copy, PartialEq, Eq, Structural, Debug)]
pub enum DecorationRequest {
    Auto,
    ClientSide,
    ServerSide,
}

/// A fullscreen request not yet applied. Only the dispatch thread knows the
/// mode a toggle starts from.
#[derive(Clone, Copy, PartialEq, Eq, Structural, Debug)]
pub enum FsRequest {
    Nothing,
    Toggle,
    On,
    Off,
}

#[derive(Clone, Copy, PartialEq, Eq, Structural, Debug)]
pub struct BootGeometry {
    pub w: i32,
    pub h: i32,
    pub maximized: bool,
}

/// What requesters and the dispatch thread share, but for the command queue.
#[derive(Clone, Copy, PartialEq, Eq, Structural, Debug)]
pub struct RootFlags {
    pub decoration_request: DecorationRequest,
    pub effective: EffectiveDecorations,
    pub boot: BootGeometry,
    pub scale_fallback_fed: bool,
    pub pending_fs: FsRequest,
    pub maximized: bool,
    pub pending_bg: Option<Rgb>,
    pub pending_present: bool,
    /// Protocol id of the most recent menu popup surface, overwritten by each
    /// create and never cleared: the keyboard-leave that follows a teardown
    /// names the surface that is already gone.
    pub menu_surface_id: u32,
    /// The dispatch thread has to be woken.
    pub wake: bool,
}

/// Requests for the dispatch thread. Move and resize carry the input serial
/// captured at request time.
pub enum WindowCommand {
    Move { serial: u32 },
    Resize { serial: u32, edge: u32 },
    SetMaximized(bool),
    Minimize,
    SetTitlebarPalette(String),
    Popup(PopupCommand),
}

/// Menu-popup requests. They must reach the compositor in the order they were
/// issued, so they share the one queue.
pub enum PopupCommand {
    Create { generation: Generation, place: MenuPlacement, serial: u32 },
    Reposition { generation: Generation, place: MenuPlacement },
    Paint(MenuPaint),
    Destroy { generation: Generation },
}

/// The root window's cross-thread surface.
pub struct RootShared {
    pub flags: RootFlags,
    pub commands: Vec<WindowCommand>,
}

impl RootShared {
    pub fn new() -> (r: Self)
        ensures
            r.commands@.len() == 0,
            r.flags == (RootFlags {
                decoration_request: DecorationRequest::Auto,
                effective: EffectiveDecorations::ClientSide,
                boot: BootGeometry { w: DEFAULT_W, h: DEFAULT_H, maximized: false },
                scale_fallback_fed: false,
                pending_fs: FsRequest::Nothing,
                maximized: false,
                pending_bg: None,
                pending_present: false,
                menu_surface_id: 0,
                wake: false,
            }),
    {
        RootShared {
            flags: RootFlags {
                decoration_request: DecorationRequest::Auto,
                effective: EffectiveDecorations::ClientSide,
                boot: BootGeometry { w: DEFAULT_W, h: DEFAULT_H, maximized: false },
                scale_fallback_fed: false,
                pending_fs: FsRequest::Nothing,
                maximized: false,
                pending_bg: None,
                pending_present: false,
                menu_surface_id: 0,
                wake: false,
            },
            commands: Vec::new(),
        }
    }

    pub fn set_decorations(&mut self, configured: Option<WindowDecorations>)
        ensures
            final(self).commands@ == old(self).commands@,
            final(self).flags == (RootFlags {
                decoration_request: match configured {
                    None => DecorationRequest::Auto,
                    Some(WindowDecorations::Csd) => DecorationRequest::ClientSide,
                    Some(_) => DecorationRequest::ServerSide,
                },
                ..old(self).flags
            }),
    {
        self.flags.decoration_request = match configured {
            None => DecorationRequest::Auto,
            Some(WindowDecorations::Csd) => DecorationRequest::ClientSide,
            Some(_) => DecorationRequest::ServerSide,
        };
    }

    pub fn effective_decorations(&self) -> (r: EffectiveDecorations)
        ensures
            r == self.flags.effective,
    {
        self.flags.effective
    }

    /// An extent that is none keeps the one at hand.
    pub fn set_boot_geometry(&mut self, w: i32, h: i32, maximized: bool)
        ensures
            final(self).commands@ == old(self).commands@,
            final(self).flags == (RootFlags {
                boot: if w > 0 && h > 0 {
                    BootGeometry { w, h, maximized }
                } else {
                    BootGeometry { maximized, ..old(self).flags.boot }
                },
                ..old(self).flags
            }),
    {
        if let Some(size) = WindowSize::new(w, h) {
            self.flags.boot.w = size.w();
            self.flags.boot.h = size.h();
        }
        self.flags.boot.maximized = maximized;
    }

    /// Queue a request and wake the thread. The two are one operation, so a
    /// queued request cannot sit unnoticed.
    pub fn send(&mut self, cmd: WindowCommand)
        ensures
            final(self).commands@ == old(self).commands@.push(cmd),
            final(self).flags == (RootFlags { wake: true, ..old(self).flags }),
    {
        self.commands.push(cmd);
        self.flags.wake = true;
    }

    /// A later key press would be refused, so the drag cites the last button.
    pub fn start_move(&mut self, seat: &SeatShared)
        ensures
            final(self).commands@ == old(self).commands@.push(
                WindowCommand::Move { serial: seat.last_button_serial },
            ),
            final(self).flags == (RootFlags { wake: true, ..old(self).flags }),
    {
        self.send(WindowCommand::Move { serial: seat.last_button_serial });
    }

    pub fn start_resize(&mut self, seat: &SeatShared, edge: u32)
        ensures
            final(self).commands@ == old(self).commands@.push(
                WindowCommand::Resize { serial: seat.last_button_serial, edge },
            ),
            final(self).flags == (RootFlags { wake: true, ..old(self).flags }),
    {
        self.send(WindowCommand::Resize { serial: seat.last_button_serial, edge });
    }

    pub fn set_fullscreen(&mut self, on: bool)
        ensures
            final(self).commands@ == old(self).commands@,
            final(self).flags == (RootFlags {
                pending_fs: if on {
                    FsRequest::On
                } else {
                    FsRequest::Off
                },
                wake: true,
                ..old(self).flags
            }),
    {
        self.flags.pending_fs = if on {
            FsRequest::On
        } else {
            FsRequest::Off
        };
        self.flags.wake = true;
    }

    pub fn toggle_fullscreen(&mut self)
        ensures
            final(self).commands@ == old(self).commands@,
            final(self).flags == (RootFlags {
                pending_fs: FsRequest::Toggle,
                wake: true,
                ..old(self).flags
            }),
    {
        self.flags.pending_fs = FsRequest::Toggle;
        self.flags.wake = true;
    }

    pub fn set_maximized(&mut self, on: bool)
        ensures
            final(self).commands@ == old(self).commands@.push(WindowCommand::SetMaximized(on)),
            final(self).flags == (RootFlags { wake: true, ..old(self).flags }),
    {
        self.send(WindowCommand::SetMaximized(on));
    }

    pub fn toggle_maximize(&mut self)
        ensures
            final(self).commands@ == old(self).commands@.push(
                WindowCommand::SetMaximized(!old(self).flags.maximized),
            ),
            final(self).flags == (RootFlags {
                maximized: !old(self).flags.maximized,
                wake: true,
                ..old(self).flags
            }),
    {
        let next = !self.flags.maximized;
        self.flags.maximized = next;
        self.set_maximized(next);
    }

    pub fn sync_maximized_command_state(&mut self, maximized: bool)
        ensures
            final(self).commands@ == old(self).commands@,
            final(self).flags == (RootFlags { maximized, ..old(self).flags }),
    {
        self.flags.maximized = maximized;
    }

    pub fn set_minimized(&mut self)
        ensures
            final(self).commands@ == old(self).commands@.push(WindowCommand::Minimize),
            final(self).flags == (RootFlags { wake: true, ..old(self).flags }),
    {
        self.send(WindowCommand::Minimize);
    }

    pub fn set_background_color(&mut self, r: u8, g: u8, b: u8)
        ensures
            final(self).commands@ == old(self).commands@,
            final(self).flags == (RootFlags {
                pending_bg: Some(Rgb { r, g, b }),
                wake: true,
                ..old(self).flags
            }),
    {
        self.flags.pending_bg = Some(Rgb { r, g, b });
        self.flags.wake = true;
    }

    pub fn request_present(&mut self)
        ensures
            final(self).commands@ == old(self).commands@,
            final(self).flags == (RootFlags {
                pending_present: true,
                wake: true,
                ..old(self).flags
            }),
    {
        self.flags.pending_present = true;
        self.flags.wake = true;
    }

    /// The scale probe ended, with a scale or without; the unit fallback stands
    /// in for none. Either is only provisional.
    pub fn probe_finished(&mut self, window: &mut WindowState, probed: Option<Scale120>)
        ensures
            final(self).commands@ == old(self).commands@,
            final(self).flags == (RootFlags {
                scale_fallback_fed: true,
                wake: true,
                ..old(self).flags
            }),
            *final(window) == old(window).fed(
                match probed {
                    Some(scale) => scale,
                    None => Scale120::of(120),
                },
                ScaleProvenance::Provisional,
            ),
    {
        match probed {
            Some(scale) => window.feed_scale(scale, ScaleProvenance::Provisional),
            None => window.feed_unit_scale(),
        }
        self.flags.scale_fallback_fed = true;
        self.flags.wake = true;
    }

    pub fn set_titlebar_palette(&mut self, path: String)
        ensures
            final(self).commands@ == old(self).commands@.push(
                WindowCommand::SetTitlebarPalette(path),
            ),
            final(self).flags == (RootFlags { wake: true, ..old(self).flags }),
    {
        self.send(WindowCommand::SetTitlebarPalette(path));
    }
}

/// The size and place a popup's positioner is given.
#[derive(Clone, Copy, PartialEq, Eq, Structural, Debug)]
pub struct Positioner {
    pub w: i32,
    pub h: i32,
    pub anchor_x: i32,
    pub anchor_y: i32,
}

pub open spec fn positioner_of(place: MenuPlacement) -> Positioner {
    Positioner {
        w: max_int(place.lw as int, 1) as i32,
        h: max_int(place.lh as int, 1) as i32,
        anchor_x: place.x,
        anchor_y: place.y,
    }
}

/// A popup at least one pixel wide and high, anchored to one pixel.
pub fn build_menu_positioner(place: MenuPlacement) -> (r: Positioner)
    ensures
        r == positioner_of(place),
{
    Positioner {
        w: max_i32(place.lw, 1),
        h: max_i32(place.lh, 1),
        anchor_x: place.x,
        anchor_y: place.y,
    }
}

/// One protocol call or notification.
pub enum RootEffect {
    SetWindowGeometry { w: i32, h: i32 },
    /// Scale the background to this size; `build` it first where there is none.
    FillBackground { w: i32, h: i32, build: bool },
    /// Replace the background by one in the new color.
    RebuildBackground { w: i32, h: i32 },
    /// mpv and the overlay apply scale themselves: this is the logical size.
    PublishWindowSize(WindowSize),
    /// The published window state changed.
    NotifyWindow,
    NotifySuspended(bool),
    NotifyDecorations(EffectiveDecorations),
    CommitRoot,
    Move { serial: u32 },
    Resize { serial: u32, edge: u32 },
    SetMaximized,
    UnsetMaximized,
    Minimize,
    SetFullscreen,
    UnsetFullscreen,
    SetTitlebarPalette(String),
    /// Drop the menu popup there is.
    DestroyMenu,
    /// Make a popup; `grab` cites a serial and must precede the first commit.
    CreateMenu { generation: Generation, place: MenuPlacement, at: Positioner, grab: Option<u32> },
    RepositionMenu(Positioner),
    PaintMenu(MenuPaint),
    Flush,
}

/// The menu popup's mapping state: an unmapped popup has no way to be
/// repositioned, so a placement requested there is held until the commit that
/// maps the popup applies it.
#[derive(Clone, Copy, PartialEq, Eq, Structural, Debug)]
pub enum MenuPopup {
    NoMenu,
    Unmapped { generation: Generation, place: Placed },
    Mapped { generation: Generation, place: Placed },
}

impl MenuPopup {
    pub open spec fn owner(self) -> Option<Generation> {
        match self {
            MenuPopup::NoMenu => None,
            MenuPopup::Unmapped { generation, .. } => Some(generation),
            MenuPopup::Mapped { generation, .. } => Some(generation),
        }
    }

    pub fn generation(&self) -> (r: Option<Generation>)
        ensures
            r == self.owner(),
    {
        match self {
            MenuPopup::NoMenu => None,
            MenuPopup::Unmapped { generation, .. } => Some(*generation),
            MenuPopup::Mapped { generation, .. } => Some(*generation),
        }
    }

    fn owned_by(&self, g: Generation) -> (r: bool)
        ensures
            r == (self.owner() == Some(g)),
    {
        match self.generation() {
            Some(own) => own == g,
            None => false,
        }
    }
}

/// What a configure tells.
#[derive(Clone, Copy, PartialEq, Eq, Structural, Debug)]
pub struct WindowConfigure {
    pub w: Option<u32>,
    pub h: Option<u32>,
    pub fullscreen: bool,
    pub maximized: bool,
    /// Any single edge tiled.
    pub tiled: bool,
    pub suspended: bool,
    pub decorations: EffectiveDecorations,
}

pub open spec fn configured_mode(c: WindowConfigure) -> WindowMode {
    if c.fullscreen {
        WindowMode::Fullscreen
    } else if c.maximized {
        WindowMode::Maximized
    } else if c.tiled {
        WindowMode::Tiled
    } else {
        WindowMode::Floating
    }
}

pub open spec fn extent_side(v: Option<u32>) -> Option<i32> {
    match v {
        Some(v) => if 0 < v <= i32::MAX {
            Some(v as i32)
        } else {
            None
        },
        None => None,
    }
}

fn side(v: Option<u32>) -> (r: Option<i32>)
    ensures
        r == extent_side(v),
{
    match v {
        Some(v) => logical_extent(v),
        None => None,
    }
}

/// The dispatch thread's own state.
#[derive(Clone, Copy, PartialEq, Eq, Structural, Debug)]
pub struct RootState {
    pub decorations_negotiated: bool,
    pub has_seat: bool,
    pub has_palette: bool,
    pub has_background: bool,
    pub bg: Rgb,
    pub menu: MenuPopup,
    /// Highest menu generation ever created. Creates can be queued out of
    /// order.
    pub armed_gen: u64,
    pub current_size: Option<WindowSize>,
    pub pending_w: Option<i32>,
    pub pending_h: Option<i32>,
    pub mode: WindowMode,
    pub suspended: bool,
    pub floating: FloatingRestore,
    /// A configure was acked and not yet presented.
    pub pending_configure: bool,
    /// A configure has been presented: the surface may carry a buffer.
    pub presented: bool,
    pub scale_discovery: ScaleDiscovery,
    pub pre_fs_maximized: bool,
}

/// Everything an event can change: the thread's state, the shared flags and
/// the published window, and the calls that come out of it.
pub ghost struct RootStep {
    pub st: RootState,
    pub flags: RootFlags,
    pub window: WindowState,
    pub effects: Seq<RootEffect>,
}

impl RootState {
    pub open spec fn logical(self) -> Option<WindowSize> {
        resolved(
            (self.pending_w, self.pending_h),
            self.current_size,
            self.floating.saved,
            self.mode,
        )
    }

    pub open spec fn inputs(self, window: WindowState) -> Inputs {
        Inputs {
            mapped: self.presented,
            pending_configure: self.pending_configure,
            scale_known: window.scale is Some,
            size: self.logical(),
        }
    }

    /// Presenting: the pending configure is consumed, geometry follows, and the
    /// commit is requested rather than made, so that it carries the overlay and
    /// video subtree too.
    pub open spec fn executed(self, flags: RootFlags, window: WindowState) -> RootStep {
        match self.logical() {
            Some(size) => RootStep {
                st: RootState {
                    presented: true,
                    pending_configure: false,
                    current_size: Some(size),
                    floating: self.floating.recorded(self.mode, size.w(), size.h()),
                    ..self
                },
                flags: RootFlags { pending_present: true, ..flags },
                window: WindowState { size: Some(size), mode: self.mode, ..window },
                effects: seq![
                    RootEffect::SetWindowGeometry { w: size.w(), h: size.h() },
                    RootEffect::FillBackground {
                        w: size.w(),
                        h: size.h(),
                        build: !self.has_background,
                    },
                    RootEffect::PublishWindowSize(size),
                    RootEffect::NotifyWindow,
                ],
            },
            None => RootStep { st: self, flags, window, effects: seq![] },
        }
    }

    /// What the next presentation step does.
    #[verifier::opaque]
    pub open spec fn tried(self, flags: RootFlags, window: WindowState) -> RootStep {
        match planned(self.inputs(window)) {
            Step::Wait => RootStep { st: self, flags, window, effects: seq![] },
            Step::DiscoverScale => RootStep {
                st: RootState { scale_discovery: self.scale_discovery.requested(), ..self },
                flags,
                window,
                effects: seq![],
            },
            Step::Present => self.executed(flags, window),
        }
    }

    /// The state the thread starts with: nothing configured yet, and the boot
    /// size to go back to.
    pub fn new(
        shared: &RootShared,
        decorations_negotiated: bool,
        has_seat: bool,
        has_palette: bool,
    ) -> (s: RootState)
        ensures
            s == (RootState {
                decorations_negotiated,
                has_seat,
                has_palette,
                has_background: false,
                bg: match shared.flags.pending_bg {
                    Some(c) => c,
                    None => Rgb { r: 0x10, g: 0x10, b: 0x10 },
                },
                menu: MenuPopup::NoMenu,
                armed_gen: 0,
                current_size: None,
                pending_w: None,
                pending_h: None,
                mode: WindowMode::Floating,
                suspended: false,
                floating: FloatingRestore {
                    saved: checked_size(shared.flags.boot.w, shared.flags.boot.h),
                },
                pending_configure: false,
                presented: false,
                scale_discovery: ScaleDiscovery::Idle,
                pre_fs_maximized: false,
            }),
    {
        let mut floating = FloatingRestore::empty();
        floating.record(WindowMode::Floating, shared.flags.boot.w, shared.flags.boot.h);
        RootState {
            decorations_negotiated,
            has_seat,
            has_palette,
            has_background: false,
            bg: match shared.flags.pending_bg {
                Some(c) => c,
                None => Rgb { r: 0x10, g: 0x10, b: 0x10 },
            },
            menu: MenuPopup::NoMenu,
            armed_gen: 0,
            current_size: None,
            pending_w: None,
            pending_h: None,
            mode: WindowMode::Floating,
            suspended: false,
            floating,
            pending_configure: false,
            presented: false,
            scale_discovery: ScaleDiscovery::Idle,
            pre_fs_maximized: false,
        }
    }

    fn resolve_logical(&self) -> (r: Option<WindowSize>)
        ensures
            r == self.logical(),
    {
        resolve_logical_size(
            (self.pending_w, self.pending_h),
            self.current_size,
            self.floating.size(),
            self.mode,
        )
    }

    /// Takes the next presentation step. May run inside an event callback, so
    /// scale discovery is only requested here and serviced between dispatch
    /// batches.
    pub fn try_present(
        &mut self,
        flags: &mut RootFlags,
        window: &mut WindowState,
        effects: &mut Vec<RootEffect>,
    )
        ensures
            ({
                let r = old(self).tried(*old(flags), *old(window));
                &&& *final(self) == r.st
                &&& *final(flags) == r.flags
                &&& *final(window) == r.window
                &&& final(effects)@ == old(effects)@ + r.effects
            }),
    {
        reveal(RootState::tried);
        assert(effects@ + Seq::<RootEffect>::empty() =~= effects@);
        let step = plan(
            Inputs {
                mapped: self.presented,
                pending_configure: self.pending_configure,
                scale_known: window.known_scale().is_some(),
                size: self.resolve_logical(),
            },
        );
        match step {
            Step::Wait => {},
            Step::DiscoverScale => {
                self.scale_discovery = self.scale_discovery.request();
            },
            Step::Present => self.execute_present(flags, window, effects),
        }
    }

    fn execute_present(
        &mut self,
        flags: &mut RootFlags,
        window: &mut WindowState,
        effects: &mut Vec<RootEffect>,
    )
        requires
            old(self).presented || old(self).pending_configure,
        ensures
            ({
                let r = old(self).executed(*old(flags), *old(window));
                &&& *final(self) == r.st
                &&& *final(flags) == r.flags
                &&& *final(window) == r.window
                &&& final(effects)@ == old(effects)@ + r.effects
            }),
    {
        let ghost before = effects@;
        let size = match self.resolve_logical() {
            Some(s) => s,
            None => {
                assert(effects@ =~= before + Seq::<RootEffect>::empty());
                return ;
            },
        };
        let w: i32 = size.w();
        let h: i32 = size.h();
        self.pending_configure = false;
        self.presented = true;
        effects.push(RootEffect::SetWindowGeometry { w, h });
        effects.push(RootEffect::FillBackground { w, h, build: !self.has_background });
        self.current_size = Some(size);
        self.floating.record(self.mode, w, h);
        effects.push(RootEffect::PublishWindowSize(size));
        window.publish(size, self.mode);
        effects.push(RootEffect::NotifyWindow);
        flags.pending_present = true;
        assert(effects@ =~= before + old(self).executed(*old(flags), *old(window)).effects);
    }

    /// The background buffer has been made.
    pub fn background_built(&mut self)
        ensures
            *final(self) == (RootState { has_background: true, ..*old(self) }),
    {
        self.has_background = true;
    }

    /// The event batch is drained: whether the fallback probe has to run now.
    /// If a scale arrived later in that batch the request dissolves.
    pub fn service_scale_discovery(&mut self, window: &WindowState) -> (spawn: bool)
        ensures
            ({
                let r = old(self).scale_discovery.drained(window.scale is Some);
                &&& *final(self) == (RootState { scale_discovery: r.0, ..*old(self) })
                &&& spawn == r.1
            }),
    {
        let (next, spawn) = self.scale_discovery.after_batch_drained(
            window.known_scale().is_some(),
        );
        self.scale_discovery = next;
        spawn
    }

    /// No thread, no probe: unblock presentation with the unit fallback.
    pub fn probe_spawn_failed(
        &mut self,
        flags: &mut RootFlags,
        window: &mut WindowState,
        effects: &mut Vec<RootEffect>,
    )
        ensures
            ({
                let fed = old(window).fed(Scale120::of(120), ScaleProvenance::Provisional);
                let r = old(self).tried(*old(flags), fed);
                &&& *final(self) == r.st
                &&& *final(flags) == r.flags
                &&& *final(window) == r.window
                &&& final(effects)@ == old(effects)@ + r.effects
            }),
    {
        window.feed_unit_scale();
        self.try_present(flags, window, effects);
    }

    /// What a configure tells, taken in, and the changes worth a notification.
    pub open spec fn absorbed(self, c: WindowConfigure, flags: RootFlags) -> (
        RootState,
        RootFlags,
        Seq<RootEffect>,
    ) {
        (
            RootState {
                pending_w: extent_side(c.w),
                pending_h: extent_side(c.h),
                mode: configured_mode(c),
                suspended: c.suspended,
                pending_configure: true,
                ..self
            },
            if self.decorations_negotiated {
                RootFlags { effective: c.decorations, ..flags }
            } else {
                flags
            },
            (if c.suspended != self.suspended {
                seq![RootEffect::NotifySuspended(c.suspended)]
            } else {
                seq![]
            }) + (if self.decorations_negotiated && c.decorations != flags.effective {
                seq![RootEffect::NotifyDecorations(c.decorations)]
            } else {
                seq![]
            }),
        )
    }

    /// What a configure does.
    pub open spec fn configured(
        self,
        c: WindowConfigure,
        flags: RootFlags,
        window: WindowState,
    ) -> RootStep {
        let (st, fl, notices) = self.absorbed(c, flags);
        let r = st.tried(fl, window);
        RootStep { st: r.st, flags: r.flags, window: r.window, effects: notices + r.effects }
    }

    fn absorb(&mut self, c: WindowConfigure, flags: &mut RootFlags, effects: &mut Vec<RootEffect>)
        ensures
            ({
                let r = old(self).absorbed(c, *old(flags));
                &&& *final(self) == r.0
                &&& *final(flags) == r.1
                &&& final(effects)@ == old(effects)@ + r.2
            }),
    {
        let ghost before = effects@;
        self.pending_w = side(c.w);
        self.pending_h = side(c.h);
        self.mode = if c.fullscreen {
            WindowMode::Fullscreen
        } else if c.maximized {
            WindowMode::Maximized
        } else if c.tiled {
            WindowMode::Tiled
        } else {
            WindowMode::Floating
        };
        if c.suspended != self.suspended {
            self.suspended = c.suspended;
            effects.push(RootEffect::NotifySuspended(c.suspended));
        }
        // Absent the decoration protocol the configure carries a client-side
        // default, which would overwrite the boot-time decision.
        if self.decorations_negotiated {
            let changed = flags.effective != c.decorations;
            flags.effective = c.decorations;
            if changed {
                effects.push(RootEffect::NotifyDecorations(c.decorations));
            }
        }
        self.pending_configure = true;
        assert(effects@ =~= before + old(self).absorbed(c, *old(flags)).2);
    }

    /// A configure, already acked.
    pub fn configure(
        &mut self,
        c: WindowConfigure,
        flags: &mut RootFlags,
        window: &mut WindowState,
        effects: &mut Vec<RootEffect>,
    )
        ensures
            ({
                let r = old(self).configured(c, *old(flags), *old(window));
                &&& *final(self) == r.st
                &&& *final(flags) == r.flags
                &&& *final(window) == r.window
                &&& final(effects)@ == old(effects)@ + r.effects
            }),
    {
        let ghost before = effects@;
        let ghost a = self.absorbed(c, *flags);
        let ghost tail = a.0.tried(a.1, *window).effects;
        self.absorb(c, flags, effects);
        self.try_present(flags, window, effects);
        assert((before + a.2) + tail =~= before + (a.2 + tail));
    }

    /// The compositor's word on the scale. It arrives without a configure
    /// (output change, or the first scale completing a withheld configure), so
    /// it drives a presentation step too. A zero is no scale.
    pub fn preferred_scale(
        &mut self,
        wire: u32,
        flags: &mut RootFlags,
        window: &mut WindowState,
        effects: &mut Vec<RootEffect>,
    )
        ensures
            wire == 0 ==> *final(self) == *old(self) && *final(flags) == *old(flags)
                && *final(window) == *old(window) && final(effects)@ == old(effects)@,
            wire != 0 ==> ({
                let fed = old(window).fed(Scale120::of(wire), ScaleProvenance::Authoritative);
                let r = old(self).tried(*old(flags), fed);
                &&& *final(self) == r.st
                &&& *final(flags) == r.flags
                &&& *final(window) == r.window
                &&& final(effects)@ == old(effects)@ + r.effects
            }),
    {
        match Scale120::from_wire(wire) {
            Some(scale) => {
                window.feed_scale(scale, ScaleProvenance::Authoritative);
                self.try_present(flags, window, effects);
            },
            None => {},
        }
    }

    /// What a fullscreen request does. Entering remembers whether to maximize
    /// again on leaving; entering once more must not overwrite that.
    pub open spec fn fullscreened(self, on: bool) -> (RootState, Seq<RootEffect>) {
        if on {
            (
                RootState {
                    pre_fs_maximized: if self.mode == WindowMode::Fullscreen {
                        self.pre_fs_maximized
                    } else {
                        self.mode == WindowMode::Maximized
                    },
                    ..self
                },
                seq![RootEffect::SetFullscreen, RootEffect::Flush],
            )
        } else if self.pre_fs_maximized {
            (
                RootState { pre_fs_maximized: false, ..self },
                seq![RootEffect::UnsetFullscreen, RootEffect::SetMaximized, RootEffect::Flush],
            )
        } else {
            (self, seq![RootEffect::UnsetFullscreen, RootEffect::Flush])
        }
    }

    pub fn apply_fullscreen(&mut self, on: bool, effects: &mut Vec<RootEffect>)
        ensures
            *final(self) == old(self).fullscreened(on).0,
            final(effects)@ == old(effects)@ + old(self).fullscreened(on).1,
    {
        let ghost before = effects@;
        if on {
            if self.mode != WindowMode::Fullscreen {
                self.pre_fs_maximized = self.mode == WindowMode::Maximized;
            }
            effects.push(RootEffect::SetFullscreen);
        } else {
            effects.push(RootEffect::UnsetFullscreen);
            // The compositor need not restore the maximized state, so ask.
            if self.pre_fs_maximized {
                effects.push(RootEffect::SetMaximized);
                self.pre_fs_maximized = false;
            }
        }
        effects.push(RootEffect::Flush);
        assert(effects@ =~= before + old(self).fullscreened(on).1);
    }

    /// What one command does.
    pub open spec fn commanded(self, cmd: WindowCommand) -> (RootState, Seq<RootEffect>) {
        let (st, effects) = match cmd {
            WindowCommand::Move { serial } => (
                self,
                if self.has_seat {
                    seq![RootEffect::Move { serial }]
                } else {
                    seq![]
                },
            ),
            WindowCommand::Resize { serial, edge } => (
                self,
                if self.has_seat && is_resize_edge(edge) {
                    seq![RootEffect::Resize { serial, edge }]
                } else {
                    seq![]
                },
            ),
            WindowCommand::SetMaximized(on) => (
                self,
                if on {
                    seq![RootEffect::SetMaximized]
                } else {
                    seq![RootEffect::UnsetMaximized]
                },
            ),
            WindowCommand::Minimize => (self, seq![RootEffect::Minimize]),
            WindowCommand::SetTitlebarPalette(path) => (
                self,
                if self.has_palette {
                    seq![RootEffect::SetTitlebarPalette(path)]
                } else {
                    seq![]
                },
            ),
            WindowCommand::Popup(p) => self.popped(p),
        };
        (st, effects.push(RootEffect::Flush))
    }

    /// What one popup request does.
    pub open spec fn popped(self, cmd: PopupCommand) -> (RootState, Seq<RootEffect>) {
        match cmd {
            PopupCommand::Create { generation, place, serial } => if generation.id
                <= self.armed_gen {
                (self, seq![])
            } else {
                (
                    RootState { armed_gen: generation.id, menu: MenuPopup::NoMenu, ..self },
                    seq![
                        RootEffect::DestroyMenu,
                        RootEffect::CreateMenu {
                            generation,
                            place,
                            at: positioner_of(place),
                            grab: if self.has_seat {
                                Some(serial)
                            } else {
                                None
                            },
                        },
                    ],
                )
            },
            PopupCommand::Reposition { generation, place: want } => match self.menu {
                MenuPopup::Unmapped { generation: own, place } if own == generation => (
                    RootState {
                        menu: MenuPopup::Unmapped { generation, place: place.holding(want) },
                        ..self
                    },
                    seq![],
                ),
                MenuPopup::Mapped { generation: own, place } if own == generation => (
                    RootState {
                        menu: MenuPopup::Mapped {
                            generation,
                            place: Placed { sent: want, held: place.held },
                        },
                        ..self
                    },
                    if want == place.sent {
                        seq![]
                    } else {
                        seq![RootEffect::RepositionMenu(positioner_of(want))]
                    },
                ),
                _ => (self, seq![]),
            },
            PopupCommand::Paint(paint) => if self.menu.owner() == Some(paint.generation) {
                (self, seq![RootEffect::PaintMenu(paint)])
            } else {
                (self, seq![])
            },
            PopupCommand::Destroy { generation } => if self.menu.owner() == Some(generation) {
                (RootState { menu: MenuPopup::NoMenu, ..self }, seq![RootEffect::DestroyMenu])
            } else {
                (self, seq![])
            },
        }
    }

    /// Applies one command.
    pub fn apply_command(&mut self, cmd: WindowCommand, effects: &mut Vec<RootEffect>)
        ensures
            *final(self) == old(self).commanded(cmd).0,
            final(effects)@ == old(effects)@ + old(self).commanded(cmd).1,
    {
        let ghost before = effects@;
        match cmd {
            WindowCommand::Move { serial } => {
                // Not kept without a seat: the serial is only valid for the
                // input event it came from.
                if self.has_seat {
                    effects.push(RootEffect::Move { serial });
                }
            },
            WindowCommand::Resize { serial, edge } => {
                if self.has_seat && (edge <= 2 || (4 <= edge && edge <= 6) || (8 <= edge && edge
                    <= 10)) {
                    effects.push(RootEffect::Resize { serial, edge });
                }
            },
            WindowCommand::SetMaximized(on) => {
                if on {
                    effects.push(RootEffect::SetMaximized);
                } else {
                    effects.push(RootEffect::UnsetMaximized);
                }
            },
            WindowCommand::Minimize => effects.push(RootEffect::Minimize),
            WindowCommand::SetTitlebarPalette(path) => {
                if self.has_palette {
                    effects.push(RootEffect::SetTitlebarPalette(path));
                }
            },
            WindowCommand::Popup(p) => self.apply_popup(p, effects),
        }
        effects.push(RootEffect::Flush);
        assert(effects@ =~= before + old(self).commanded(cmd).1);
    }

    fn apply_popup(&mut self, cmd: PopupCommand, effects: &mut Vec<RootEffect>)
        ensures
            *final(self) == old(self).popped(cmd).0,
            final(effects)@ == old(effects)@ + old(self).popped(cmd).1,
    {
        let ghost before = effects@;
        match cmd {
            PopupCommand::Create { generation, place, serial } => self.create_menu_popup(
                generation,
                place,
                serial,
                effects,
            ),
            PopupCommand::Reposition { generation, place } => self.reposition_menu_popup(
                generation,
                place,
                effects,
            ),
            PopupCommand::Paint(paint) => {
                if self.menu.owned_by(paint.generation) {
                    effects.push(RootEffect::PaintMenu(paint));
                }
                assert(effects@ =~= before + old(self).popped(cmd).1);
            },
            PopupCommand::Destroy { generation } => {
                // Only if the generation still owns it: a newer menu may have
                // taken the role since this teardown was decided.
                if self.menu.owned_by(generation) {
                    self.menu = MenuPopup::NoMenu;
                    effects.push(RootEffect::DestroyMenu);
                }
                assert(effects@ =~= before + old(self).popped(cmd).1);
            },
        }
    }

    /// Replaces whatever menu still stands. Each generation drives exactly one
    /// create, so a generation already seen is refused too: that also keeps a
    /// just-destroyed popup from coming back.
    fn create_menu_popup(
        &mut self,
        generation: Generation,
        place: MenuPlacement,
        serial: u32,
        effects: &mut Vec<RootEffect>,
    )
        ensures
            ({
                let r = old(self).popped(PopupCommand::Create { generation, place, serial });
                &&& *final(self) == r.0
                &&& final(effects)@ == old(effects)@ + r.1
            }),
    {
        let ghost before = effects@;
        if generation.id > self.armed_gen {
            self.armed_gen = generation.id;
            self.menu = MenuPopup::NoMenu;
            effects.push(RootEffect::DestroyMenu);
            effects.push(
                RootEffect::CreateMenu {
                    generation,
                    place,
                    at: build_menu_positioner(place),
                    grab: if self.has_seat {
                        Some(serial)
                    } else {
                        None
                    },
                },
            );
        }
        assert(effects@ =~= before + old(self).popped(
            PopupCommand::Create { generation, place, serial },
        ).1);
    }

    fn reposition_menu_popup(
        &mut self,
        generation: Generation,
        want: MenuPlacement,
        effects: &mut Vec<RootEffect>,
    )
        ensures
            ({
                let r = old(self).popped(PopupCommand::Reposition { generation, place: want });
                &&& *final(self) == r.0
                &&& final(effects)@ == old(effects)@ + r.1
            }),
    {
        let ghost before = effects@;
        match self.menu {
            MenuPopup::NoMenu => {},
            MenuPopup::Unmapped { generation: own, place } => {
                if own == generation {
                    let mut place = place;
                    place.hold(want);
                    self.menu = MenuPopup::Unmapped { generation, place };
                }
            },
            MenuPopup::Mapped { generation: own, place } => {
                if own == generation {
                    let mut place = place;
                    if let Some(at) = place.send(want) {
                        effects.push(RootEffect::RepositionMenu(build_menu_positioner(at)));
                    }
                    self.menu = MenuPopup::Mapped { generation, place };
                }
            },
        }
        assert(effects@ =~= before + old(self).popped(
            PopupCommand::Reposition { generation, place: want },
        ).1);
    }

    /// The popup of a [`RootEffect::CreateMenu`] exists, unmapped.
    pub fn menu_created(
        &mut self,
        flags: &mut RootFlags,
        generation: Generation,
        place: MenuPlacement,
        surface_id: u32,
    )
        ensures
            *final(self) == (RootState {
                menu: MenuPopup::Unmapped { generation, place: Placed { sent: place, held: None } },
                ..*old(self)
            }),
            *final(flags) == (RootFlags { menu_surface_id: surface_id, ..*old(flags) }),
    {
        flags.menu_surface_id = surface_id;
        self.menu = MenuPopup::Unmapped { generation, place: Placed::created(place) };
    }

    /// What committing a menu buffer does: an unmapped popup is mapped, and the
    /// placement held since its creation is sent.
    pub open spec fn menu_after_paint(self) -> (RootState, Seq<RootEffect>) {
        match self.menu {
            MenuPopup::NoMenu => (self, seq![]),
            MenuPopup::Unmapped { generation, place } => (
                RootState {
                    menu: MenuPopup::Mapped {
                        generation,
                        place: Placed { sent: place.wanted(), held: None },
                    },
                    ..self
                },
                match place.held {
                    Some(p) => seq![RootEffect::RepositionMenu(positioner_of(p))],
                    None => seq![],
                },
            ),
            MenuPopup::Mapped { generation, place } => (
                RootState {
                    menu: MenuPopup::Mapped {
                        generation,
                        place: Placed { sent: place.wanted(), held: None },
                    },
                    ..self
                },
                match place.held {
                    Some(p) => seq![RootEffect::RepositionMenu(positioner_of(p))],
                    None => seq![],
                },
            ),
        }
    }

    /// The buffer of a [`RootEffect::PaintMenu`] has been committed.
    pub fn menu_painted(&mut self, effects: &mut Vec<RootEffect>)
        ensures
            *final(self) == old(self).menu_after_paint().0,
            final(effects)@ == old(effects)@ + old(self).menu_after_paint().1,
    {
        let ghost before = effects@;
        let (generation, place) = match self.menu {
            MenuPopup::NoMenu => {
                assert(effects@ =~= before + Seq::<RootEffect>::empty());
                return ;
            },
            MenuPopup::Unmapped { generation, place } => (generation, place),
            MenuPopup::Mapped { generation, place } => (generation, place),
        };
        let mut place = place;
        if let Some(at) = place.on_map() {
            effects.push(RootEffect::RepositionMenu(build_menu_positioner(at)));
        }
        self.menu = MenuPopup::Mapped { generation, place };
        assert(effects@ =~= before + old(self).menu_after_paint().1);
    }
}

/// The edges and corners a window can be resized by.
pub open spec fn is_resize_edge(edge: u32) -> bool {
    edge <= 2 || 4 <= edge <= 6 || 8 <= edge <= 10
}

} // verus!
