//! The Wayland platform: what it is, and the glue between its parts.

use vstd::prelude::*;

use crate::abi::Generation;
use crate::abi::MenuPlacement;
use crate::abi::Rgb;
use crate::abi::WindowDecorations;
use crate::text::same_text;
use crate::wayland::input::SeatShared;
use crate::wayland::layer::Present;
use crate::wayland::layer::PresentError;
use crate::wayland::mpv_proxy::ProxyShared;
use crate::wayland::root_window::DecorationRequest;
use crate::wayland::root_window::PopupCommand;
use crate::wayland::root_window::RootFlags;
use crate::wayland::root_window::RootShared;
use crate::wayland::root_window::WindowCommand;
use crate::wayland::window_state::PublishedExtent;
use crate::wayland::window_state::WindowMode;
use crate::wayland::window_state::WindowState;

verus! {

/// Which paint path to use, as requested on the command line.
#[derive(Clone, Copy, PartialEq, Eq, Structural, Debug)]
pub enum WlPaintOverride {
    Dmabuf,
    Gpu,
    Shm,
}

/// What the compositor offers for decorations.
#[derive(Clone, Copy, PartialEq, Eq, Structural, Debug)]
pub struct DecorationGlobals {
    /// The titlebar the compositor draws can be tinted.
    pub kde_palette: bool,
}

/// Whether an interface is among those announced.
pub open spec fn announced(interfaces: Seq<String>, name: Seq<char>) -> bool {
    exists|i: int| 0 <= i < interfaces.len() && (#[trigger] interfaces[i])@ == name
}

fn is_announced(interfaces: &Vec<String>, name: &str) -> (r: bool)
    ensures
        r == announced(interfaces@, name@),
{
    let mut i: usize = 0;
    while i < interfaces.len()
        invariant
            i <= interfaces@.len(),
            forall|j: int| 0 <= j < i ==> (#[trigger] interfaces@[j])@ != name@,
        decreases interfaces@.len() - i,
    {
        if same_text(interfaces[i].as_str(), name) {
            assert(interfaces@[i as int]@ == name@);
            return true;
        }
        i += 1;
    }
    false
}

/// Whether decorations are negotiated with the compositor.
pub fn has_decoration_manager(interfaces: &Vec<String>) -> (r: bool)
    ensures
        r == announced(interfaces@, "zxdg_decoration_manager_v1"@),
{
    is_announced(interfaces, "zxdg_decoration_manager_v1")
}

/// Looks for the decoration globals among the announced interfaces; without a
/// compositor to ask there are none.
pub fn probe_decorations(interfaces: &Option<Vec<String>>) -> (r: DecorationGlobals)
    ensures
        r.kde_palette == match *interfaces {
            Some(v) => announced(v@, "org_kde_kwin_server_decoration_palette_manager"@),
            None => false,
        },
{
    match interfaces {
        Some(v) => DecorationGlobals {
            kde_palette: is_announced(v, "org_kde_kwin_server_decoration_palette_manager"),
        },
        None => DecorationGlobals { kde_palette: false },
    }
}

/// A skip is not a failure: only a real error is.
pub fn present_ok(result: &Result<Present, PresentError>) -> (r: bool)
    ensures
        r == (*result is Ok),
{
    result.is_ok()
}

/// The color components of `0x00RRGGBB`.
pub open spec fn rgb_of(rgb: u32) -> Rgb {
    Rgb {
        r: (rgb / 0x10000 % 0x100) as u8,
        g: (rgb / 0x100 % 0x100) as u8,
        b: (rgb % 0x100) as u8,
    }
}

pub fn split_rgb(rgb: u32) -> (c: Rgb)
    ensures
        c == rgb_of(rgb),
{
    Rgb {
        r: (rgb / 0x10000 % 0x100) as u8,
        g: (rgb / 0x100 % 0x100) as u8,
        b: (rgb % 0x100) as u8,
    }
}

/// A hexadecimal digit, lower case.
pub open spec fn hex_digit(v: int) -> u8 {
    if v < 10 {
        (48 + v) as u8
    } else {
        (87 + v) as u8
    }
}

fn hex(v: u8) -> (r: u8)
    requires
        v < 16,
    ensures
        r == hex_digit(v as int),
{
    if v < 10 {
        48 + v
    } else {
        87 + v
    }
}

/// The color as `#rrggbb`.
pub fn hex_color(c: Rgb) -> (r: [u8; 7])
    ensures
        r@ == seq![
            35u8,
            hex_digit((c.r / 16) as int),
            hex_digit((c.r % 16) as int),
            hex_digit((c.g / 16) as int),
            hex_digit((c.g % 16) as int),
            hex_digit((c.b / 16) as int),
            hex_digit((c.b % 16) as int),
        ],
{
    let r: [u8; 7] = [
        35,
        hex(c.r / 16),
        hex(c.r % 16),
        hex(c.g / 16),
        hex(c.g % 16),
        hex(c.b / 16),
        hex(c.b % 16),
    ];
    assert(r@ =~= seq![
        35u8,
        hex_digit((c.r / 16) as int),
        hex_digit((c.r % 16) as int),
        hex_digit((c.g / 16) as int),
        hex_digit((c.g % 16) as int),
        hex_digit((c.b / 16) as int),
        hex_digit((c.b % 16) as int),
    ]);
    r
}

/// The Wayland backend.
#[derive(Clone, Copy, PartialEq, Eq, Structural, Debug)]
pub struct WaylandPlatform {
    pub shared_texture: bool,
    pub clipboard: bool,
}

impl WaylandPlatform {
    pub fn new() -> (p: Self)
        ensures
            p == (WaylandPlatform { shared_texture: true, clipboard: true }),
    {
        WaylandPlatform { shared_texture: true, clipboard: true }
    }

    pub fn shared_texture_supported(&self) -> (r: bool)
        ensures
            r == self.shared_texture,
    {
        self.shared_texture
    }

    pub fn set_shared_texture_unsupported(&mut self)
        ensures
            *final(self) == (WaylandPlatform { shared_texture: false, ..*old(self) }),
    {
        self.shared_texture = false;
    }

    pub fn clipboard_text_supported(&self) -> (r: bool)
        ensures
            r == self.clipboard,
    {
        self.clipboard
    }

    pub fn clear_clipboard_handler(&mut self)
        ensures
            *final(self) == (WaylandPlatform { clipboard: false, ..*old(self) }),
    {
        self.clipboard = false;
    }

    /// Bytes of a software frame, where its extent makes sense.
    pub fn software_len(&self, has_buffer: bool, w: i32, h: i32) -> (r: Option<usize>)
        ensures
            match r {
                Some(n) => has_buffer && w > 0 && h > 0 && n == 4 * (w * h),
                None => !has_buffer || w <= 0 || h <= 0 || 4 * (w * h) > usize::MAX,
            },
    {
        if !has_buffer || w <= 0 || h <= 0 {
            return None;
        }
        match (w as usize).checked_mul(h as usize) {
            Some(n) => n.checked_mul(4),
            None => None,
        }
    }

    /// Tints the window. Returns the color for the titlebar.
    pub fn set_theme_color(&self, root: &mut RootShared, rgb: u32) -> (c: Rgb)
        ensures
            c == rgb_of(rgb),
            final(root).commands@ == old(root).commands@,
            final(root).flags == (RootFlags {
                pending_bg: Some(c),
                wake: true,
                ..old(root).flags
            }),
    {
        let c = split_rgb(rgb);
        root.set_background_color(c.r, c.g, c.b);
        c
    }
}

impl Default for WaylandPlatform {
    fn default() -> (p: Self)
        ensures
            p == (WaylandPlatform { shared_texture: true, clipboard: true }),
    {
        WaylandPlatform::new()
    }
}

/// The live window, as published.
#[derive(Clone, Copy, PartialEq, Eq, Structural, Debug)]
pub struct WindowSnapshot {
    pub extent: Option<PublishedExtent>,
    pub maximized: bool,
    pub fullscreen: bool,
}

/// The backend owns the toplevel, so live geometry comes from compositor state.
pub struct WaylandWindowSource;

impl WaylandWindowSource {
    /// Extent and mode of one generation; before an extent is known the window
    /// is neither maximized nor fullscreen.
    pub fn snapshot(&self, window: &WindowState) -> (r: WindowSnapshot)
        ensures
            r.extent == window.extent(),
            r.maximized == (r.extent is Some && window.mode == WindowMode::Maximized),
            r.fullscreen == (r.extent is Some && window.mode == WindowMode::Fullscreen),
    {
        let extent = window.window_extent();
        match extent {
            Some(e) => WindowSnapshot {
                extent,
                maximized: e.mode == WindowMode::Maximized,
                fullscreen: e.mode == WindowMode::Fullscreen,
            },
            None => WindowSnapshot { extent, maximized: false, fullscreen: false },
        }
    }
}

/// The host of mpv's video: the app's own window.
pub struct WaylandMpvHost;

impl WaylandMpvHost {
    /// The host is ready once its scale is known.
    pub fn host_ready(&self, window: &WindowState) -> (r: bool)
        ensures
            r == (window.scale is Some),
    {
        window.known_scale().is_some()
    }

    /// A proxy was started, `named` or not. Returns whether mpv is pointed at
    /// it: not at a second one, and not at one without a name. Only then do the
    /// user's decorations take effect.
    pub fn proxy_started(
        &self,
        proxy: &mut ProxyShared,
        root: &mut RootShared,
        configured: Option<WindowDecorations>,
        named: bool,
    ) -> (point_mpv: bool)
        ensures
            point_mpv == (!old(proxy).running && named),
            *final(proxy) == (ProxyShared { running: true, ..*old(proxy) }),
            final(root).commands@ == old(root).commands@,
            final(root).flags == (if point_mpv {
                RootFlags {
                    decoration_request: match configured {
                        None => DecorationRequest::Auto,
                        Some(WindowDecorations::Csd) => DecorationRequest::ClientSide,
                        Some(_) => DecorationRequest::ServerSide,
                    },
                    ..old(root).flags
                }
            } else {
                old(root).flags
            }),
    {
        if !proxy.set_proxy() || !named {
            return false;
        }
        root.set_decorations(configured);
        true
    }
}

/// Takes the input thread's handle, to be stopped and joined; a second call
/// finds none.
pub fn lifecycle_cleanup<H>(input: &mut Option<H>) -> (r: Option<H>)
    ensures
        r == *old(input),
        *final(input) is None,
{
    input.take()
}

/// Why a menu closes.
#[derive(Clone, Copy, PartialEq, Eq, Structural, Debug)]
pub enum MenuClose {
    /// It was armed and never shown.
    Speculative,
    /// The compositor dismissed it.
    External,
    /// It did its work.
    Finished,
}

/// Asks for a menu. Without a serial of its own it cites the seat's last press.
pub fn create_popup(
    root: &mut RootShared,
    seat: &SeatShared,
    generation: Generation,
    place: MenuPlacement,
    serial: u32,
)
    ensures
        final(root).commands@ == old(root).commands@.push(
            WindowCommand::Popup(
                PopupCommand::Create {
                    generation,
                    place,
                    serial: if serial != 0 {
                        serial
                    } else {
                        seat.last_input_serial
                    },
                },
            ),
        ),
        final(root).flags == (RootFlags { wake: true, ..old(root).flags }),
{
    let serial: u32 = if serial != 0 {
        serial
    } else {
        seat.last_input_serial
    };
    root.send(WindowCommand::Popup(PopupCommand::Create { generation, place, serial }));
}

/// Closes a menu. Returns whether the focus loss its grab swallowed has to be
/// delivered: a menu the compositor dismissed means that focus really left the
/// window, one never shown that it never did.
pub fn destroy_popup(
    root: &mut RootShared,
    seat: &mut SeatShared,
    generation: Generation,
    reason: MenuClose,
) -> (deliver_focus_loss: bool)
    ensures
        deliver_focus_loss == (reason == MenuClose::External && old(seat).suppressed_focus_loss),
        *final(seat) == (if reason == MenuClose::Finished {
            *old(seat)
        } else {
            SeatShared { suppressed_focus_loss: false, ..*old(seat) }
        }),
        final(root).commands@ == old(root).commands@.push(
            WindowCommand::Popup(PopupCommand::Destroy { generation }),
        ),
        final(root).flags == (RootFlags { wake: true, ..old(root).flags }),
{
    let deliver = match reason {
        MenuClose::Speculative => {
            seat.discard_suppressed_focus_loss();
            false
        },
        MenuClose::External => seat.flush_suppressed_focus_loss(),
        MenuClose::Finished => false,
    };
    root.send(WindowCommand::Popup(PopupCommand::Destroy { generation }));
    deliver
}

/// The height a menu is clamped to: that of the window, once known.
pub fn menu_clamp(window: &Option<PublishedExtent>) -> (r: Option<i32>)
    ensures
        r == match *window {
            Some(e) => Some(e.physical.h()),
            None => None,
        },
{
    match window {
        Some(e) => Some(e.physical.h()),
        None => None,
    }
}

} // verus!
