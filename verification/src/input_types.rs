//! Buttons, modifiers and cursor shapes, as the browser knows them.

use vstd::prelude::*;

verus! {

pub const EVENTFLAG_SHIFT_DOWN: u32 = 2;
pub const EVENTFLAG_CONTROL_DOWN: u32 = 4;
pub const EVENTFLAG_ALT_DOWN: u32 = 8;
pub const EVENTFLAG_LEFT_MOUSE_BUTTON: u32 = 16;
pub const EVENTFLAG_MIDDLE_MOUSE_BUTTON: u32 = 32;
pub const EVENTFLAG_RIGHT_MOUSE_BUTTON: u32 = 64;

pub const BTN_LEFT: u32 = 0x110;
pub const BTN_RIGHT: u32 = 0x111;
pub const BTN_MIDDLE: u32 = 0x112;
pub const BTN_SIDE: u32 = 0x113;
pub const BTN_EXTRA: u32 = 0x114;
pub const BTN_FORWARD: u32 = 0x115;
pub const BTN_BACK: u32 = 0x116;

/// A button the browser has a flag for.
#[derive(Clone, Copy, PartialEq, Eq, Structural, Debug)]
pub enum MouseButton {
    Left,
    Right,
    Middle,
}

/// A set of mouse buttons.
#[derive(Clone, Copy, PartialEq, Eq, Structural, Debug)]
pub struct Buttons {
    pub left: bool,
    pub right: bool,
    pub middle: bool,
}

impl Buttons {
    pub open spec fn none() -> Buttons {
        Buttons { left: false, right: false, middle: false }
    }

    pub open spec fn holds(self, b: MouseButton) -> bool {
        match b {
            MouseButton::Left => self.left,
            MouseButton::Right => self.right,
            MouseButton::Middle => self.middle,
        }
    }

    pub open spec fn with(self, b: MouseButton, on: bool) -> Buttons {
        match b {
            MouseButton::Left => Buttons { left: on, ..self },
            MouseButton::Right => Buttons { right: on, ..self },
            MouseButton::Middle => Buttons { middle: on, ..self },
        }
    }

    /// The set as event flags.
    pub open spec fn bits(self) -> int {
        (if self.left {
            16int
        } else {
            0
        }) + (if self.middle {
            32int
        } else {
            0
        }) + (if self.right {
            64int
        } else {
            0
        })
    }

    pub fn empty() -> (r: Buttons)
        ensures
            r == Buttons::none(),
    {
        Buttons { left: false, right: false, middle: false }
    }

    pub fn contains(self, b: MouseButton) -> (r: bool)
        ensures
            r == self.holds(b),
    {
        match b {
            MouseButton::Left => self.left,
            MouseButton::Right => self.right,
            MouseButton::Middle => self.middle,
        }
    }

    pub fn put(&mut self, b: MouseButton, on: bool)
        ensures
            *final(self) == old(self).with(b, on),
    {
        match b {
            MouseButton::Left => self.left = on,
            MouseButton::Right => self.right = on,
            MouseButton::Middle => self.middle = on,
        }
    }

    pub fn flags(self) -> (r: u32)
        ensures
            r == self.bits(),
            r <= 112,
    {
        (if self.left {
            EVENTFLAG_LEFT_MOUSE_BUTTON
        } else {
            0
        }) + (if self.middle {
            EVENTFLAG_MIDDLE_MOUSE_BUTTON
        } else {
            0
        }) + (if self.right {
            EVENTFLAG_RIGHT_MOUSE_BUTTON
        } else {
            0
        })
    }
}

/// Keyboard modifiers.
#[derive(Clone, Copy, PartialEq, Eq, Structural, Debug)]
pub struct Mods {
    pub shift: bool,
    pub ctrl: bool,
    pub alt: bool,
}

impl Mods {
    /// The modifiers as event flags.
    pub open spec fn bits(self) -> int {
        (if self.shift {
            2int
        } else {
            0
        }) + (if self.ctrl {
            4int
        } else {
            0
        }) + (if self.alt {
            8int
        } else {
            0
        })
    }

    pub fn empty() -> (r: Mods)
        ensures
            r == (Mods { shift: false, ctrl: false, alt: false }),
    {
        Mods { shift: false, ctrl: false, alt: false }
    }

    pub fn flags(self) -> (r: u32)
        ensures
            r == self.bits(),
            r <= 14,
    {
        (if self.shift {
            EVENTFLAG_SHIFT_DOWN
        } else {
            0
        }) + (if self.ctrl {
            EVENTFLAG_CONTROL_DOWN
        } else {
            0
        }) + (if self.alt {
            EVENTFLAG_ALT_DOWN
        } else {
            0
        })
    }
}

pub open spec fn button_of(code: u32) -> Option<MouseButton> {
    if code == BTN_LEFT {
        Some(MouseButton::Left)
    } else if code == BTN_RIGHT {
        Some(MouseButton::Right)
    } else if code == BTN_MIDDLE {
        Some(MouseButton::Middle)
    } else {
        None
    }
}

/// The button of a kernel button code, where the browser has a flag for it.
pub fn mouse_button(code: u32) -> (r: Option<MouseButton>)
    ensures
        r == button_of(code),
{
    if code == BTN_LEFT {
        Some(MouseButton::Left)
    } else if code == BTN_RIGHT {
        Some(MouseButton::Right)
    } else if code == BTN_MIDDLE {
        Some(MouseButton::Middle)
    } else {
        None
    }
}

/// Cursor shapes the browser asks for.
#[derive(Clone, Copy, PartialEq, Eq, Structural, Debug)]
pub enum CursorShape {
    Pointer,
    Cross,
    Hand,
    IBeam,
    Wait,
    Help,
    EastResize,
    NorthResize,
    NorthEastResize,
    NorthWestResize,
    SouthResize,
    SouthEastResize,
    SouthWestResize,
    WestResize,
    NorthSouthResize,
    EastWestResize,
    NorthEastSouthWestResize,
    NorthWestSouthEastResize,
    ColumnResize,
    RowResize,
    MiddlePanning,
    MiddlePanningVertical,
    MiddlePanningHorizontal,
    Move,
    VerticalText,
    Cell,
    ContextMenu,
    Alias,
    Progress,
    NoDrop,
    Copy,
    Hidden,
    NotAllowed,
    ZoomIn,
    ZoomOut,
    Grab,
    Grabbing,
    /// Any shape without a themed cursor.
    Other,
}

/// Themed cursors.
#[derive(Clone, Copy, PartialEq, Eq, Structural, Debug)]
pub enum CursorIcon {
    Default,
    ContextMenu,
    Help,
    Pointer,
    Progress,
    Wait,
    Cell,
    Crosshair,
    Text,
    VerticalText,
    Alias,
    Copy,
    Move,
    NoDrop,
    NotAllowed,
    Grab,
    Grabbing,
    EResize,
    NResize,
    NeResize,
    NwResize,
    SResize,
    SeResize,
    SwResize,
    WResize,
    EwResize,
    NsResize,
    NeswResize,
    NwseResize,
    ColResize,
    RowResize,
    AllScroll,
    ZoomIn,
    ZoomOut,
}

pub open spec fn icon_of(shape: CursorShape) -> CursorIcon {
    match shape {
        CursorShape::Cross => CursorIcon::Crosshair,
        CursorShape::Hand => CursorIcon::Pointer,
        CursorShape::IBeam => CursorIcon::Text,
        CursorShape::Wait => CursorIcon::Wait,
        CursorShape::Help => CursorIcon::Help,
        CursorShape::EastResize => CursorIcon::EResize,
        CursorShape::NorthResize => CursorIcon::NResize,
        CursorShape::NorthEastResize => CursorIcon::NeResize,
        CursorShape::NorthWestResize => CursorIcon::NwResize,
        CursorShape::SouthResize => CursorIcon::SResize,
        CursorShape::SouthEastResize => CursorIcon::SeResize,
        CursorShape::SouthWestResize => CursorIcon::SwResize,
        CursorShape::WestResize => CursorIcon::WResize,
        CursorShape::NorthSouthResize => CursorIcon::NsResize,
        CursorShape::EastWestResize => CursorIcon::EwResize,
        CursorShape::NorthEastSouthWestResize => CursorIcon::NeswResize,
        CursorShape::NorthWestSouthEastResize => CursorIcon::NwseResize,
        CursorShape::ColumnResize => CursorIcon::ColResize,
        CursorShape::RowResize => CursorIcon::RowResize,
        CursorShape::Move => CursorIcon::Move,
        CursorShape::VerticalText => CursorIcon::VerticalText,
        CursorShape::Cell => CursorIcon::Cell,
        CursorShape::ContextMenu => CursorIcon::ContextMenu,
        CursorShape::Alias => CursorIcon::Alias,
        CursorShape::Progress => CursorIcon::Progress,
        CursorShape::NoDrop => CursorIcon::NoDrop,
        CursorShape::Copy => CursorIcon::Copy,
        CursorShape::NotAllowed => CursorIcon::NotAllowed,
        CursorShape::ZoomIn => CursorIcon::ZoomIn,
        CursorShape::ZoomOut => CursorIcon::ZoomOut,
        CursorShape::Grab => CursorIcon::Grab,
        CursorShape::Grabbing => CursorIcon::Grabbing,
        CursorShape::MiddlePanning => CursorIcon::AllScroll,
        CursorShape::MiddlePanningVertical => CursorIcon::AllScroll,
        CursorShape::MiddlePanningHorizontal => CursorIcon::AllScroll,
        _ => CursorIcon::Default,
    }
}

/// The themed cursor for a shape.
pub fn cef_to_cursor_icon(shape: CursorShape) -> (r: CursorIcon)
    ensures
        r == icon_of(shape),
{
    match shape {
        CursorShape::Cross => CursorIcon::Crosshair,
        CursorShape::Hand => CursorIcon::Pointer,
        CursorShape::IBeam => CursorIcon::Text,
        CursorShape::Wait => CursorIcon::Wait,
        CursorShape::Help => CursorIcon::Help,
        CursorShape::EastResize => CursorIcon::EResize,
        CursorShape::NorthResize => CursorIcon::NResize,
        CursorShape::NorthEastResize => CursorIcon::NeResize,
        CursorShape::NorthWestResize => CursorIcon::NwResize,
        CursorShape::SouthResize => CursorIcon::SResize,
        CursorShape::SouthEastResize => CursorIcon::SeResize,
        CursorShape::SouthWestResize => CursorIcon::SwResize,
        CursorShape::WestResize => CursorIcon::WResize,
        CursorShape::NorthSouthResize => CursorIcon::NsResize,
        CursorShape::EastWestResize => CursorIcon::EwResize,
        CursorShape::NorthEastSouthWestResize => CursorIcon::NeswResize,
        CursorShape::NorthWestSouthEastResize => CursorIcon::NwseResize,
        CursorShape::ColumnResize => CursorIcon::ColResize,
        CursorShape::RowResize => CursorIcon::RowResize,
        CursorShape::Move => CursorIcon::Move,
        CursorShape::VerticalText => CursorIcon::VerticalText,
        CursorShape::Cell => CursorIcon::Cell,
        CursorShape::ContextMenu => CursorIcon::ContextMenu,
        CursorShape::Alias => CursorIcon::Alias,
        CursorShape::Progress => CursorIcon::Progress,
        CursorShape::NoDrop => CursorIcon::NoDrop,
        CursorShape::Copy => CursorIcon::Copy,
        CursorShape::NotAllowed => CursorIcon::NotAllowed,
        CursorShape::ZoomIn => CursorIcon::ZoomIn,
        CursorShape::ZoomOut => CursorIcon::ZoomOut,
        CursorShape::Grab => CursorIcon::Grab,
        CursorShape::Grabbing => CursorIcon::Grabbing,
        CursorShape::MiddlePanning | CursorShape::MiddlePanningVertical
        | CursorShape::MiddlePanningHorizontal => CursorIcon::AllScroll,
        _ => CursorIcon::Default,
    }
}

} // verus!
