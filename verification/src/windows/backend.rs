//! Small platform services.

use vstd::prelude::*;

verus! {

pub const ES_CONTINUOUS: u32 = 0x8000_0000;
pub const ES_SYSTEM_REQUIRED: u32 = 1;
pub const ES_DISPLAY_REQUIRED: u32 = 2;

/// `0x00RRGGBB` as the titlebar attribute wants it: `0x00BBGGRR`.
pub open spec fn swapped_color(rgb: u32) -> u32 {
    let r = rgb / 0x10000 % 0x100;
    let g = rgb / 0x100 % 0x100;
    let b = rgb % 0x100;
    (r + 0x100 * g + 0x10000 * b) as u32
}

/// The titlebar color of a theme color.
pub fn theme_colorref(rgb: u32) -> (r: u32)
    ensures
        r == swapped_color(rgb),
{
    let r: u32 = rgb / 0x10000 % 0x100;
    let g: u32 = rgb / 0x100 % 0x100;
    let b: u32 = rgb % 0x100;
    r + 0x100 * g + 0x10000 * b
}

/// Swapping the components twice gives the color back.
pub proof fn color_swap_is_an_involution(rgb: u32)
    requires
        rgb <= 0xFF_FFFF,
    ensures
        swapped_color(swapped_color(rgb)) == rgb,
{
}

/// What keeps the machine awake.
#[derive(Clone, Copy, PartialEq, Eq, Structural, Debug)]
pub enum IdleInhibitLevel {
    Nothing,
    System,
    Display,
}

/// The execution-state flags of a level.
pub fn execution_state(level: IdleInhibitLevel) -> (r: u32)
    ensures
        r == match level {
            IdleInhibitLevel::Nothing => ES_CONTINUOUS,
            IdleInhibitLevel::System => (ES_CONTINUOUS + ES_SYSTEM_REQUIRED) as u32,
            IdleInhibitLevel::Display => (ES_CONTINUOUS + ES_SYSTEM_REQUIRED
                + ES_DISPLAY_REQUIRED) as u32,
        },
{
    match level {
        IdleInhibitLevel::Nothing => ES_CONTINUOUS,
        IdleInhibitLevel::System => ES_CONTINUOUS + ES_SYSTEM_REQUIRED,
        IdleInhibitLevel::Display => ES_CONTINUOUS + ES_SYSTEM_REQUIRED + ES_DISPLAY_REQUIRED,
    }
}

/// What is put on the clipboard next.
#[derive(Clone, Copy, PartialEq, Eq, Structural, Debug)]
pub enum ClipboardNext {
    Done,
    /// The hand-off was refused: put back the text that emptying removed.
    RestorePrevious,
}

/// What follows a hand-off. The clipboard has to be emptied to be owned, so a
/// refused hand-off would lose what it held.
pub fn after_offer(emptied: bool, offered: bool, had_previous: bool) -> (r: ClipboardNext)
    ensures
        r == (if emptied && !offered && had_previous {
            ClipboardNext::RestorePrevious
        } else {
            ClipboardNext::Done
        }),
{
    if emptied && !offered && had_previous {
        ClipboardNext::RestorePrevious
    } else {
        ClipboardNext::Done
    }
}

/// Whether a URL is handed to the shell: an empty one is not opened.
pub fn opens_external_url(url: &str) -> (r: bool)
    ensures
        r == (url@.len() > 0),
{
    !url.is_empty()
}

/// A path with the native separator.
pub fn native_path(path: &Vec<char>) -> (r: Vec<char>)
    ensures
        r@ == Seq::new(
            path@.len(),
            |i: int|
                if path@[i] == '/' {
                    '\\'
                } else {
                    path@[i]
                },
        ),
{
    let mut r: Vec<char> = Vec::new();
    let mut i: usize = 0;
    while i < path.len()
        invariant
            i <= path@.len(),
            r@ =~= Seq::new(
                i as nat,
                |j: int|
                    if path@[j] == '/' {
                        '\\'
                    } else {
                        path@[j]
                    },
            ),
        decreases path@.len() - i,
    {
        let c: char = path[i];
        if c == '/' {
            r.push('\\');
        } else {
            r.push(c);
        }
        i += 1;
    }
    r
}

/// Where a menu is drawn.
#[derive(Clone, Copy, PartialEq, Eq, Structural, Debug)]
pub enum MenuKind {
    ContextMenu,
    Dropdown,
}

/// Who draws a menu.
#[derive(Clone, Copy, PartialEq, Eq, Structural, Debug)]
pub enum MenuDelivery {
    /// A native menu.
    Host,
    /// The page itself.
    Page,
}

/// The Windows backend.
pub struct WindowsPlatform;

impl WindowsPlatform {
    pub fn cef_init_precedes_mpv_window(&self) -> (r: bool)
        ensures
            r,
    {
        true
    }

    /// The decorations setting has no effect here.
    pub fn window_decorations_supported(&self) -> (r: bool)
        ensures
            !r,
    {
        false
    }

    pub fn shared_texture_supported(&self) -> (r: bool)
        ensures
            r,
    {
        true
    }

    pub fn web_paste_reads_clipboard(&self) -> (r: bool)
        ensures
            r,
    {
        true
    }

    /// Dropdowns render in the page, so that they match its styling.
    pub fn menu_delivery(&self, kind: MenuKind) -> (r: MenuDelivery)
        ensures
            r == match kind {
                MenuKind::ContextMenu => MenuDelivery::Host,
                MenuKind::Dropdown => MenuDelivery::Page,
            },
    {
        match kind {
            MenuKind::ContextMenu => MenuDelivery::Host,
            MenuKind::Dropdown => MenuDelivery::Page,
        }
    }
}

/// mpv's host: its own window, with the app's icon.
pub struct WindowsMpvHost;

impl WindowsMpvHost {
    /// The variable mpv reads the window icon from, and its value.
    pub fn prepare(&self) -> (r: (&'static str, &'static str))
        ensures
            r.0@ == "MPV_WINDOW_ICON"@,
            r.1@ == "IDI_ICON1"@,
    {
        ("MPV_WINDOW_ICON", "IDI_ICON1")
    }
}

} // verus!
