//! Wayland input: what each pointer and keyboard event means for the browser
//! and for the native menu.

use vstd::prelude::*;

use crate::abi::max_int;
use crate::input_types::button_of;
use crate::input_types::cef_to_cursor_icon;
use crate::input_types::icon_of;
use crate::input_types::mouse_button;
use crate::input_types::Buttons;
use crate::input_types::CursorIcon;
use crate::input_types::CursorShape;
use crate::input_types::Mods;
use crate::input_types::MouseButton;
use crate::input_types::BTN_BACK;
use crate::input_types::BTN_EXTRA;
use crate::input_types::BTN_FORWARD;
use crate::input_types::BTN_SIDE;

verus! {

pub const XK_MENU: u32 = 0xff67;
pub const XK_F10: u32 = 0xffc7;

/// Whether a key opens the context menu.
pub fn is_context_menu_key(sym: u32, mods: Mods) -> (r: bool)
    ensures
        r == (sym == XK_MENU || (sym == XK_F10 && mods.shift)),
{
    sym == XK_MENU || (sym == XK_F10 && mods.shift)
}

/// A surface position in 256ths of a logical pixel, as it comes over the wire.
#[derive(Clone, Copy, PartialEq, Eq, Structural, Debug)]
pub struct Point {
    pub x: i32,
    pub y: i32,
}

/// Whole pixels, cut towards zero.
pub open spec fn whole(v: i32) -> i32 {
    if v >= 0 {
        (v as int / 256) as i32
    } else {
        (-((-v) as int / 256)) as i32
    }
}

fn to_whole(v: i32) -> (r: i32)
    ensures
        r == whole(v),
{
    if v >= 0 {
        v / 256
    } else {
        let up: i64 = -(v as i64) / 256;
        (-up) as i32
    }
}

/// Seat facts the input thread publishes: the serials a grab request must cite,
/// and the focus loss the menu grab swallowed.
#[derive(Clone, Copy, PartialEq, Eq, Structural, Debug)]
pub struct SeatShared {
    /// Interactive move and resize need the serial of the pointer press whose
    /// implicit grab drives the drag.
    pub last_button_serial: u32,
    /// A popup grab accepts the serial of any press, keys included.
    pub last_input_serial: u32,
    pub suppressed_focus_loss: bool,
}

impl SeatShared {
    pub fn new() -> (s: SeatShared)
        ensures
            s == (SeatShared {
                last_button_serial: 0,
                last_input_serial: 0,
                suppressed_focus_loss: false,
            }),
    {
        SeatShared { last_button_serial: 0, last_input_serial: 0, suppressed_focus_loss: false }
    }

    pub fn suppress_focus_loss(&mut self)
        ensures
            *final(self) == (SeatShared { suppressed_focus_loss: true, ..*old(self) }),
    {
        self.suppressed_focus_loss = true;
    }

    pub fn discard_suppressed_focus_loss(&mut self)
        ensures
            *final(self) == (SeatShared { suppressed_focus_loss: false, ..*old(self) }),
    {
        self.suppressed_focus_loss = false;
    }

    /// Whether a swallowed focus loss has to be delivered now after all.
    pub fn flush_suppressed_focus_loss(&mut self) -> (deliver: bool)
        ensures
            deliver == old(self).suppressed_focus_loss,
            *final(self) == (SeatShared { suppressed_focus_loss: false, ..*old(self) }),
    {
        let deliver = self.suppressed_focus_loss;
        self.suppressed_focus_loss = false;
        deliver
    }
}

/// What the browser or the menu is told.
#[derive(Clone, Copy, PartialEq, Eq, Structural, Debug)]
pub enum InputEffect {
    MouseMove { x: i32, y: i32, mods: u32, leave: bool },
    MouseButton { button: u32, pressed: bool, x: i32, y: i32, mods: u32 },
    Scroll { x: i32, y: i32, dx: i32, dy: i32, mods: u32 },
    HistoryNav { forward: bool },
    KbFocus(bool),
    Key { keysym: u32, native_code: u32, mods: u32, pressed: bool },
    Char { codepoint: u32, mods: u32, native_code: u32 },
    ApplyCursor,
    MenuMotion(Point),
    MenuPress(Point),
    MenuScroll(i32),
    MenuKey(u32),
    MenuDismiss,
    MenuDismissIfSpeculative,
    MenuArm { x: i32, y: i32, serial: u32 },
    /// Repeat the armed key: first after `delay_ms`, then each `period_ms`.
    StartRepeat { generation: u64, delay_ms: u32, period_ms: u32 },
}

/// One pointer event. `value120` counts wheel steps in 120ths.
#[derive(Clone, Copy, PartialEq, Eq, Structural, Debug)]
pub enum PointerEvent {
    Enter { serial: u32, at: Point, over_menu: bool },
    Leave,
    Motion { at: Point },
    Press { button: u32, serial: u32 },
    Release { button: u32, serial: u32 },
    Axis { value120_x: i32, value120_y: i32 },
}

/// Where the pointer is and what it holds.
#[derive(Clone, Copy, PartialEq, Eq, Structural, Debug)]
pub struct PointerState {
    pub at: Point,
    /// Last position on the main surface. `at` is relative to the menu while
    /// the pointer is over it; what the browser is told then uses this instead.
    pub main_at: Point,
    pub serial: u32,
    /// Buttons the browser has seen pressed.
    pub buttons: Buttons,
    /// Buttons whose press the menu took. Their release is taken too, even if
    /// the menu is gone by then.
    pub swallowed: Buttons,
    pub v120_x: i32,
    pub v120_y: i32,
    pub have_v120: bool,
    pub menu_focus: bool,
}

pub open spec fn is_history_button(button: u32) -> bool {
    button == BTN_SIDE || button == BTN_EXTRA || button == BTN_BACK || button == BTN_FORWARD
}

/// What an event does to the pointer: its state after, what is told, and
/// whether a key repeat ends.
pub ghost struct Pointed {
    pub st: PointerState,
    pub effects: Seq<InputEffect>,
    pub ends_repeat: bool,
}

impl PointerState {
    pub fn new() -> (s: PointerState)
        ensures
            s == (PointerState {
                at: Point { x: 0, y: 0 },
                main_at: Point { x: 0, y: 0 },
                serial: 0,
                buttons: Buttons::none(),
                swallowed: Buttons::none(),
                v120_x: 0,
                v120_y: 0,
                have_v120: false,
                menu_focus: false,
            }),
    {
        PointerState {
            at: Point { x: 0, y: 0 },
            main_at: Point { x: 0, y: 0 },
            serial: 0,
            buttons: Buttons::empty(),
            swallowed: Buttons::empty(),
            v120_x: 0,
            v120_y: 0,
            have_v120: false,
            menu_focus: false,
        }
    }

    /// Modifiers and buttons as event flags.
    pub open spec fn cef_mods(self, mods: Mods) -> u32 {
        (mods.bits() + self.buttons.bits()) as u32
    }

    fn cef_modifiers(&self, mods: Mods) -> (r: u32)
        ensures
            r == self.cef_mods(mods),
    {
        mods.flags() + self.buttons.flags()
    }

    pub open spec fn mouse_move(self, mods: Mods, leave: bool) -> InputEffect {
        InputEffect::MouseMove {
            x: whole(self.at.x),
            y: whole(self.at.y),
            mods: self.cef_mods(mods),
            leave,
        }
    }

    /// A press or release while the menu is open.
    pub open spec fn pressed_in_menu(
        self,
        mods: Mods,
        button: u32,
        pressed: bool,
    ) -> Pointed {
        if pressed {
            Pointed {
                st: match button_of(button) {
                    Some(b) => PointerState { swallowed: self.swallowed.with(b, true), ..self },
                    None => self,
                },
                effects: if self.menu_focus {
                    seq![InputEffect::MenuPress(self.at)]
                } else {
                    seq![InputEffect::MenuDismiss]
                },
                ends_repeat: false,
            }
        } else {
            match button_of(button) {
                Some(b) => if self.buttons.holds(b) {
                    // The release of the click that opened the menu. The
                    // browser saw that press, so it must see this too.
                    let st = PointerState { buttons: self.buttons.with(b, false), ..self };
                    Pointed {
                        st,
                        effects: seq![
                            InputEffect::MouseButton {
                                button,
                                pressed: false,
                                x: whole(self.main_at.x),
                                y: whole(self.main_at.y),
                                mods: st.cef_mods(mods),
                            },
                        ],
                        ends_repeat: false,
                    }
                } else {
                    Pointed {
                        st: PointerState { swallowed: self.swallowed.with(b, false), ..self },
                        effects: seq![],
                        ends_repeat: false,
                    }
                },
                None => Pointed { st: self, effects: seq![], ends_repeat: false },
            }
        }
    }

    /// A press or release with no menu open.
    pub open spec fn pressed_in_page(
        self,
        mods: Mods,
        button: u32,
        serial: u32,
        pressed: bool,
    ) -> Pointed {
        match button_of(button) {
            Some(b) => if !pressed && self.swallowed.holds(b) {
                Pointed {
                    st: PointerState { swallowed: self.swallowed.with(b, false), ..self },
                    effects: seq![],
                    ends_repeat: false,
                }
            } else {
                let st = PointerState { buttons: self.buttons.with(b, pressed), ..self };
                let arms = b == MouseButton::Right || b == MouseButton::Left;
                Pointed {
                    st,
                    effects: (if arms && pressed {
                        seq![
                            InputEffect::MenuArm {
                                x: whole(self.at.x),
                                y: whole(self.at.y),
                                serial,
                            },
                        ]
                    } else {
                        seq![]
                    }) + seq![
                        InputEffect::MouseButton {
                            button,
                            pressed,
                            x: whole(self.at.x),
                            y: whole(self.at.y),
                            mods: st.cef_mods(mods),
                        },
                    ] + (if arms && !pressed {
                        seq![InputEffect::MenuDismissIfSpeculative]
                    } else {
                        seq![]
                    }),
                    ends_repeat: arms && pressed,
                }
            },
            None => Pointed {
                st: self,
                effects: if is_history_button(button) && pressed {
                    seq![
                        InputEffect::HistoryNav {
                            forward: button == BTN_EXTRA || button == BTN_FORWARD,
                        },
                    ]
                } else {
                    seq![]
                },
                ends_repeat: false,
            },
        }
    }

    pub open spec fn pointed(self, mods: Mods, menu_active: bool, event: PointerEvent) -> Pointed {
        match event {
            PointerEvent::Enter { serial, at, over_menu } => {
                let st = PointerState { serial, menu_focus: over_menu, at, ..self };
                if over_menu {
                    Pointed {
                        st,
                        effects: seq![InputEffect::MenuMotion(at)],
                        ends_repeat: false,
                    }
                } else {
                    Pointed {
                        st: PointerState { main_at: at, ..st },
                        effects: seq![InputEffect::ApplyCursor, st.mouse_move(mods, false)],
                        ends_repeat: false,
                    }
                }
            },
            PointerEvent::Leave => if self.menu_focus {
                Pointed {
                    st: PointerState { menu_focus: false, ..self },
                    effects: seq![],
                    ends_repeat: false,
                }
            } else {
                Pointed {
                    st: self,
                    effects: seq![self.mouse_move(mods, true)],
                    ends_repeat: false,
                }
            },
            PointerEvent::Motion { at } => {
                let st = PointerState {
                    at,
                    main_at: if self.menu_focus {
                        self.main_at
                    } else {
                        at
                    },
                    ..self
                };
                Pointed {
                    st,
                    effects: if menu_active {
                        if self.menu_focus {
                            seq![InputEffect::MenuMotion(at)]
                        } else {
                            seq![]
                        }
                    } else {
                        seq![st.mouse_move(mods, false)]
                    },
                    ends_repeat: false,
                }
            },
            PointerEvent::Press { button, serial } => if menu_active {
                self.pressed_in_menu(mods, button, true)
            } else {
                self.pressed_in_page(mods, button, serial, true)
            },
            PointerEvent::Release { button, serial } => if menu_active {
                self.pressed_in_menu(mods, button, false)
            } else {
                self.pressed_in_page(mods, button, serial, false)
            },
            PointerEvent::Axis { value120_x, value120_y } => Pointed {
                st: if value120_x != 0 || value120_y != 0 {
                    PointerState {
                        have_v120: true,
                        v120_x: (self.v120_x + value120_x) as i32,
                        v120_y: (self.v120_y + value120_y) as i32,
                        ..self
                    }
                } else {
                    self
                },
                effects: seq![],
                ends_repeat: false,
            },
        }
    }

    /// The wheel steps of one frame add up to what can be told.
    pub open spec fn axis_fits(self, event: PointerEvent) -> bool {
        match event {
            PointerEvent::Axis { value120_x, value120_y } => {
                &&& -i32::MAX <= self.v120_x + value120_x <= i32::MAX
                &&& -i32::MAX <= self.v120_y + value120_y <= i32::MAX
            },
            _ => true,
        }
    }

    /// Takes one pointer event. Returns whether a key repeat ends.
    pub fn pointer_event(
        &mut self,
        seat: &mut SeatShared,
        mods: Mods,
        menu_active: bool,
        event: PointerEvent,
        effects: &mut Vec<InputEffect>,
    ) -> (ends_repeat: bool)
        requires
            old(self).axis_fits(event),
        ensures
            ({
                let r = old(self).pointed(mods, menu_active, event);
                &&& *final(self) == r.st
                &&& final(effects)@ == old(effects)@ + r.effects
                &&& ends_repeat == r.ends_repeat
            }),
            *final(seat) == match event {
                PointerEvent::Press { serial, .. } => SeatShared {
                    last_button_serial: serial,
                    last_input_serial: serial,
                    ..*old(seat)
                },
                _ => *old(seat),
            },
    {
        let ghost before = effects@;
        assert(before + Seq::<InputEffect>::empty() =~= before);
        match event {
            PointerEvent::Enter { serial, at, over_menu } => {
                self.serial = serial;
                self.menu_focus = over_menu;
                self.at = at;
                if over_menu {
                    effects.push(InputEffect::MenuMotion(at));
                } else {
                    self.main_at = at;
                    effects.push(InputEffect::ApplyCursor);
                    self.tell_move(mods, false, effects);
                }
            },
            PointerEvent::Leave => {
                if self.menu_focus {
                    self.menu_focus = false;
                } else {
                    self.tell_move(mods, true, effects);
                }
            },
            PointerEvent::Motion { at } => {
                self.at = at;
                if !self.menu_focus {
                    self.main_at = at;
                }
                if menu_active {
                    if self.menu_focus {
                        effects.push(InputEffect::MenuMotion(at));
                    }
                } else {
                    self.tell_move(mods, false, effects);
                }
            },
            PointerEvent::Press { button, serial } => {
                seat.last_button_serial = serial;
                seat.last_input_serial = serial;
                if menu_active {
                    self.press_in_menu(mods, button, true, effects);
                } else {
                    return self.press_in_page(mods, button, serial, true, effects);
                }
            },
            PointerEvent::Release { button, serial } => {
                if menu_active {
                    self.press_in_menu(mods, button, false, effects);
                } else {
                    return self.press_in_page(mods, button, serial, false, effects);
                }
            },
            PointerEvent::Axis { value120_x, value120_y } => {
                if value120_x != 0 || value120_y != 0 {
                    self.have_v120 = true;
                    self.v120_x = self.v120_x + value120_x;
                    self.v120_y = self.v120_y + value120_y;
                }
            },
        }
        assert(effects@ =~= before + old(self).pointed(mods, menu_active, event).effects);
        false
    }

    fn tell_move(&self, mods: Mods, leave: bool, effects: &mut Vec<InputEffect>)
        ensures
            final(effects)@ == old(effects)@.push(self.mouse_move(mods, leave)),
    {
        effects.push(
            InputEffect::MouseMove {
                x: to_whole(self.at.x),
                y: to_whole(self.at.y),
                mods: self.cef_modifiers(mods),
                leave,
            },
        );
    }

    fn press_in_menu(
        &mut self,
        mods: Mods,
        button: u32,
        pressed: bool,
        effects: &mut Vec<InputEffect>,
    )
        ensures
            *final(self) == old(self).pressed_in_menu(mods, button, pressed).st,
            final(effects)@ == old(effects)@ + old(self).pressed_in_menu(
                mods,
                button,
                pressed,
            ).effects,
    {
        let ghost before = effects@;
        let flag = mouse_button(button);
        if pressed {
            if let Some(b) = flag {
                self.swallowed.put(b, true);
            }
            if self.menu_focus {
                effects.push(InputEffect::MenuPress(self.at));
            } else {
                // A click on our own window outside the menu: the popup grab
                // does not dismiss same-client clicks.
                effects.push(InputEffect::MenuDismiss);
            }
        } else if let Some(b) = flag {
            if self.buttons.contains(b) {
                self.buttons.put(b, false);
                effects.push(
                    InputEffect::MouseButton {
                        button,
                        pressed: false,
                        x: to_whole(self.main_at.x),
                        y: to_whole(self.main_at.y),
                        mods: self.cef_modifiers(mods),
                    },
                );
            } else {
                self.swallowed.put(b, false);
            }
        }
        assert(effects@ =~= before + old(self).pressed_in_menu(mods, button, pressed).effects);
    }

    fn press_in_page(
        &mut self,
        mods: Mods,
        button: u32,
        serial: u32,
        pressed: bool,
        effects: &mut Vec<InputEffect>,
    ) -> (ends_repeat: bool)
        ensures
            ({
                let r = old(self).pressed_in_page(mods, button, serial, pressed);
                &&& *final(self) == r.st
                &&& final(effects)@ == old(effects)@ + r.effects
                &&& ends_repeat == r.ends_repeat
            }),
    {
        let ghost before = effects@;
        let mut ends_repeat = false;
        match mouse_button(button) {
            Some(b) => {
                if !pressed && self.swallowed.contains(b) {
                    self.swallowed.put(b, false);
                } else {
                    // The grab must be requested now, while this press's
                    // implicit grab is live. A right click arms the context
                    // menu, a left click a possible dropdown.
                    let arms = b == MouseButton::Right || b == MouseButton::Left;
                    if arms && pressed {
                        ends_repeat = true;
                        effects.push(
                            InputEffect::MenuArm {
                                x: to_whole(self.at.x),
                                y: to_whole(self.at.y),
                                serial,
                            },
                        );
                    }
                    self.buttons.put(b, pressed);
                    effects.push(
                        InputEffect::MouseButton {
                            button,
                            pressed,
                            x: to_whole(self.at.x),
                            y: to_whole(self.at.y),
                            mods: self.cef_modifiers(mods),
                        },
                    );
                    // Drop the grab armed on the press if this click opened no
                    // menu.
                    if arms && !pressed {
                        effects.push(InputEffect::MenuDismissIfSpeculative);
                    }
                }
            },
            None => {
                if pressed && (button == BTN_SIDE || button == BTN_EXTRA || button == BTN_BACK
                    || button == BTN_FORWARD) {
                    effects.push(
                        InputEffect::HistoryNav {
                            forward: button == BTN_EXTRA || button == BTN_FORWARD,
                        },
                    );
                }
            },
        }
        assert(effects@ =~= before + old(self).pressed_in_page(
            mods,
            button,
            serial,
            pressed,
        ).effects);
        ends_repeat
    }

    /// What the end of a frame tells: the wheel steps where there were any,
    /// else the smooth scroll it was given.
    pub open spec fn scrolled(
        self,
        mods: Mods,
        menu_active: bool,
        smooth_dx: i32,
        smooth_dy: i32,
    ) -> Seq<InputEffect> {
        let dx = if self.have_v120 {
            (-self.v120_x) as i32
        } else {
            smooth_dx
        };
        let dy = if self.have_v120 {
            (-self.v120_y) as i32
        } else {
            smooth_dy
        };
        if dx == 0 && dy == 0 {
            seq![]
        } else if menu_active {
            if self.menu_focus {
                seq![InputEffect::MenuScroll(dy)]
            } else {
                seq![]
            }
        } else {
            seq![
                InputEffect::Scroll {
                    x: whole(self.at.x),
                    y: whole(self.at.y),
                    dx,
                    dy,
                    mods: self.cef_mods(mods),
                },
            ]
        }
    }

    /// Ends a pointer frame. `smooth_dx`/`smooth_dy` are the whole steps a
    /// continuous scroll amounts to. Returns whether wheel steps took its
    /// place, so that nothing of it is to be carried over. The wheel never
    /// reaches the browser while the menu is open.
    pub fn flush_scroll(
        &mut self,
        mods: Mods,
        menu_active: bool,
        smooth_dx: i32,
        smooth_dy: i32,
        effects: &mut Vec<InputEffect>,
    ) -> (wheel: bool)
        requires
            old(self).v120_x > i32::MIN,
            old(self).v120_y > i32::MIN,
        ensures
            *final(self) == (PointerState {
                v120_x: 0,
                v120_y: 0,
                have_v120: false,
                ..*old(self)
            }),
            final(effects)@ == old(effects)@ + old(self).scrolled(
                mods,
                menu_active,
                smooth_dx,
                smooth_dy,
            ),
            wheel == old(self).have_v120,
    {
        let ghost before = effects@;
        let wheel = self.have_v120;
        let dx: i32 = if wheel {
            -self.v120_x
        } else {
            smooth_dx
        };
        let dy: i32 = if wheel {
            -self.v120_y
        } else {
            smooth_dy
        };
        self.v120_x = 0;
        self.v120_y = 0;
        self.have_v120 = false;
        if dx != 0 || dy != 0 {
            if menu_active {
                if self.menu_focus {
                    effects.push(InputEffect::MenuScroll(dy));
                }
            } else {
                effects.push(
                    InputEffect::Scroll {
                        x: to_whole(self.at.x),
                        y: to_whole(self.at.y),
                        dx,
                        dy,
                        mods: self.cef_modifiers(mods),
                    },
                );
            }
        }
        assert(effects@ =~= before + old(self).scrolled(mods, menu_active, smooth_dx, smooth_dy));
        wheel
    }

    /// The pointer is gone; no cursor can be set until it enters again.
    pub fn remove_pointer(&mut self)
        ensures
            *final(self) == (PointerState { serial: 0, ..*old(self) }),
    {
        self.serial = 0;
    }

    /// How the cursor is to be set. Setting it cites the pointer's last enter,
    /// so it is a protocol error before the pointer has entered a surface.
    pub fn apply_cursor(&self, shape: CursorShape, has_pointer: bool) -> (r: CursorChoice)
        ensures
            r == (if !has_pointer || self.serial == 0 {
                CursorChoice::Leave
            } else if shape == CursorShape::Hidden {
                CursorChoice::Hide
            } else {
                CursorChoice::Show(icon_of(shape))
            }),
    {
        if !has_pointer || self.serial == 0 {
            CursorChoice::Leave
        } else if shape == CursorShape::Hidden {
            CursorChoice::Hide
        } else {
            CursorChoice::Show(cef_to_cursor_icon(shape))
        }
    }
}

#[derive(Clone, Copy, PartialEq, Eq, Structural, Debug)]
pub enum CursorChoice {
    Leave,
    Hide,
    Show(CursorIcon),
}

/// A key, with the text it types.
pub struct KeyEvent {
    pub keysym: u32,
    pub raw_code: u32,
    pub text: Vec<char>,
}

pub open spec fn key_effect(event: KeyEvent, mods: Mods, pressed: bool) -> InputEffect {
    InputEffect::Key {
        keysym: event.keysym,
        native_code: event.raw_code,
        mods: mods.bits() as u32,
        pressed,
    }
}

/// What one key is told as: the key, and on a press each character it types.
pub open spec fn key_told(event: KeyEvent, mods: Mods, pressed: bool) -> Seq<InputEffect> {
    seq![key_effect(event, mods, pressed)] + if pressed {
        Seq::new(
            event.text@.len(),
            |i: int|
                InputEffect::Char {
                    codepoint: event.text@[i] as u32,
                    mods: mods.bits() as u32,
                    native_code: event.raw_code,
                },
        )
    } else {
        seq![]
    }
}

fn send_key(event: &KeyEvent, mods: Mods, pressed: bool, effects: &mut Vec<InputEffect>)
    ensures
        final(effects)@ == old(effects)@ + key_told(*event, mods, pressed),
{
    let ghost before = effects@;
    let flags: u32 = mods.flags();
    effects.push(
        InputEffect::Key {
            keysym: event.keysym,
            native_code: event.raw_code,
            mods: flags,
            pressed,
        },
    );
    let ghost key = key_effect(*event, mods, pressed);
    if pressed {
        let mut i: usize = 0;
        while i < event.text.len()
            invariant
                i <= event.text@.len(),
                flags == mods.bits(),
                effects@ =~= before + seq![key] + Seq::new(
                    i as nat,
                    |j: int|
                        InputEffect::Char {
                            codepoint: event.text@[j] as u32,
                            mods: mods.bits() as u32,
                            native_code: event.raw_code,
                        },
                ),
            decreases event.text@.len() - i,
        {
            effects.push(
                InputEffect::Char {
                    codepoint: event.text[i] as u32,
                    mods: flags,
                    native_code: event.raw_code,
                },
            );
            i += 1;
        }
    }
    assert(effects@ =~= before + key_told(*event, mods, pressed));
}

/// The keyboard: its modifiers and the key that repeats.
pub struct KeyboardState {
    pub mods: Mods,
    /// Bumped by every arm and disarm; a timer of an older generation drops
    /// itself instead of firing.
    pub repeat_generation: u64,
    pub repeat_rate: i32,
    pub repeat_delay: i32,
    pub repeat_key: Option<KeyEvent>,
}

pub open spec fn next_generation(g: u64) -> u64 {
    if g == u64::MAX {
        0
    } else {
        (g + 1) as u64
    }
}

/// A number the compositor sends unsigned, read as signed.
pub open spec fn as_signed(v: u32) -> i32 {
    if v <= i32::MAX {
        v as i32
    } else {
        (v - 0x1_0000_0000) as i32
    }
}

fn to_signed(v: u32) -> (r: i32)
    ensures
        r == as_signed(v),
{
    if v <= i32::MAX as u32 {
        v as i32
    } else {
        (v as i64 - 0x1_0000_0000) as i32
    }
}

impl KeyboardState {
    pub fn new() -> (k: KeyboardState)
        ensures
            k.mods == (Mods { shift: false, ctrl: false, alt: false }),
            k.repeat_generation == 0,
            k.repeat_rate == 0,
            k.repeat_delay == 0,
            k.repeat_key is None,
    {
        KeyboardState {
            mods: Mods::empty(),
            repeat_generation: 0,
            repeat_rate: 0,
            repeat_delay: 0,
            repeat_key: None,
        }
    }

    pub open spec fn disarmed(self) -> KeyboardState {
        KeyboardState {
            repeat_key: None,
            repeat_generation: next_generation(self.repeat_generation),
            ..self
        }
    }

    pub fn disarm_repeat(&mut self)
        ensures
            *final(self) == old(self).disarmed(),
    {
        self.repeat_key = None;
        self.repeat_generation = if self.repeat_generation == u64::MAX {
            0
        } else {
            self.repeat_generation + 1
        };
    }

    /// The timer a repeat needs. No time in it is zero, or the first repeat
    /// would fire in the same breath as the press.
    pub open spec fn repeat_timer(self) -> InputEffect {
        InputEffect::StartRepeat {
            generation: next_generation(self.repeat_generation),
            delay_ms: max_int(self.repeat_delay as int, 1) as u32,
            period_ms: max_int(1000int / (self.repeat_rate as int), 1) as u32,
        }
    }

    pub open spec fn armed(self, key: KeyEvent) -> (KeyboardState, Seq<InputEffect>) {
        if self.repeat_rate <= 0 {
            (self.disarmed(), seq![])
        } else {
            (
                KeyboardState { repeat_key: Some(key), ..self.disarmed() },
                seq![self.repeat_timer()],
            )
        }
    }

    fn arm_repeat(&mut self, key: KeyEvent, effects: &mut Vec<InputEffect>)
        ensures
            *final(self) == old(self).armed(key).0,
            final(effects)@ == old(effects)@ + old(self).armed(key).1,
    {
        let ghost before = effects@;
        self.disarm_repeat();
        if self.repeat_rate > 0 {
            self.repeat_key = Some(key);
            let period: u32 = 1000 / (self.repeat_rate as u32);
            let period_ms: u32 = if period >= 1 {
                period
            } else {
                1
            };
            let delay_ms: u32 = if self.repeat_delay >= 1 {
                self.repeat_delay as u32
            } else {
                1
            };
            effects.push(
                InputEffect::StartRepeat {
                    generation: self.repeat_generation,
                    delay_ms,
                    period_ms,
                },
            );
        }
        assert(effects@ =~= before + old(self).armed(key).1);
    }

    /// The timer of a [`InputEffect::StartRepeat`] could not be had.
    pub fn repeat_timer_failed(&mut self)
        ensures
            *final(self) == (KeyboardState { repeat_key: None, ..*old(self) }),
    {
        self.repeat_key = None;
    }

    /// A repeat timer fired. Returns whether it goes on. While a menu has the
    /// keyboard a repeat ends rather than leak into the page.
    pub fn repeat_tick(
        &mut self,
        generation: u64,
        menu_active: bool,
        effects: &mut Vec<InputEffect>,
    ) -> (again: bool)
        ensures
            generation != old(self).repeat_generation ==> !again && *final(self) == *old(self)
                && final(effects)@ == old(effects)@,
            generation == old(self).repeat_generation ==> match old(self).repeat_key {
                None => again && *final(self) == *old(self) && final(effects)@ == old(effects)@,
                Some(key) => if menu_active {
                    !again && *final(self) == old(self).disarmed() && final(effects)@
                        == old(effects)@
                } else {
                    again && *final(self) == *old(self) && final(effects)@ == old(effects)@
                        + key_told(key, old(self).mods, true)
                },
            },
    {
        if generation != self.repeat_generation {
            return false;
        }
        if self.repeat_key.is_some() && menu_active {
            self.disarm_repeat();
            return false;
        }
        if let Some(key) = &self.repeat_key {
            send_key(key, self.mods, true, effects);
        }
        true
    }

    /// The keyboard entered a surface. The menu's own surface is grab plumbing,
    /// not focus.
    pub fn enter(
        &self,
        seat: &mut SeatShared,
        menu_surface: bool,
        effects: &mut Vec<InputEffect>,
    )
        ensures
            menu_surface ==> *final(seat) == *old(seat) && final(effects)@ == old(effects)@,
            !menu_surface ==> *final(seat) == (SeatShared {
                suppressed_focus_loss: false,
                ..*old(seat)
            }) && final(effects)@ == old(effects)@.push(InputEffect::KbFocus(true)),
    {
        if menu_surface {
            return ;
        }
        seat.discard_suppressed_focus_loss();
        effects.push(InputEffect::KbFocus(true));
    }

    /// The keyboard left a surface. Neither leaving the menu's surface nor a
    /// leave our own grab caused may reach the browser as focus loss: it would
    /// close the dropdown the replayed selection keys still need.
    pub fn leave(
        &mut self,
        seat: &mut SeatShared,
        menu_surface: bool,
        menu_engaged: bool,
        effects: &mut Vec<InputEffect>,
    )
        ensures
            menu_surface ==> *final(self) == *old(self) && *final(seat) == *old(seat)
                && final(effects)@ == old(effects)@,
            !menu_surface && menu_engaged ==> *final(self) == *old(self) && *final(seat) == (
            SeatShared { suppressed_focus_loss: true, ..*old(seat) }) && final(effects)@
                == old(effects)@,
            !menu_surface && !menu_engaged ==> *final(self) == old(self).disarmed()
                && *final(seat) == *old(seat) && final(effects)@ == old(effects)@.push(
                InputEffect::KbFocus(false),
            ),
    {
        if menu_surface {
            return ;
        }
        if menu_engaged {
            seat.suppress_focus_loss();
            return ;
        }
        // Or the repeat keeps firing once focus is on another surface.
        self.disarm_repeat();
        effects.push(InputEffect::KbFocus(false));
    }

    /// What a key press does with no menu open: a context-menu key arms the
    /// menu, the key is told, and a repeating key is armed.
    pub open spec fn key_pressed(
        self,
        at: Point,
        serial: u32,
        repeats: bool,
        event: KeyEvent,
    ) -> (KeyboardState, Seq<InputEffect>) {
        let opens = event.keysym == XK_MENU || (event.keysym == XK_F10 && self.mods.shift);
        let st = if opens {
            self.disarmed()
        } else {
            self
        };
        let told = (if opens {
            seq![InputEffect::MenuArm { x: whole(at.x), y: whole(at.y), serial }]
        } else {
            seq![]
        }) + key_told(event, self.mods, true);
        if repeats {
            (st.armed(event).0, told + st.armed(event).1)
        } else {
            (st, told)
        }
    }

    /// A key went down. `key_repeats` says whether the keymap lets this key
    /// repeat. From version 10 on the compositor repeats keys itself; arming the
    /// timer as well would double every repeat.
    pub fn press_key(
        &mut self,
        seat: &mut SeatShared,
        at: Point,
        menu_active: bool,
        serial: u32,
        keyboard_version: u32,
        key_repeats: bool,
        event: KeyEvent,
        effects: &mut Vec<InputEffect>,
    )
        ensures
            *final(seat) == (SeatShared { last_input_serial: serial, ..*old(seat) }),
            menu_active ==> *final(self) == *old(self) && final(effects)@ == old(effects)@.push(
                InputEffect::MenuKey(event.keysym),
            ),
            !menu_active ==> ({
                let r = old(self).key_pressed(
                    at,
                    serial,
                    keyboard_version < 10 && key_repeats,
                    event,
                );
                *final(self) == r.0 && final(effects)@ == old(effects)@ + r.1
            }),
    {
        let ghost before = effects@;
        seat.last_input_serial = serial;
        if menu_active {
            effects.push(InputEffect::MenuKey(event.keysym));
            return ;
        }
        if is_context_menu_key(event.keysym, self.mods) {
            // The menu only counts as active once its configure lands.
            self.disarm_repeat();
            effects.push(
                InputEffect::MenuArm { x: to_whole(at.x), y: to_whole(at.y), serial },
            );
        }
        send_key(&event, self.mods, true, effects);
        let repeats = keyboard_version < 10 && key_repeats;
        if repeats {
            self.arm_repeat(event, effects);
        }
        proof {
            let r = old(self).key_pressed(at, serial, repeats, event);
            assert(effects@ =~= before + r.1);
        }
    }

    /// A key came up.
    pub fn release_key(
        &mut self,
        menu_active: bool,
        event: &KeyEvent,
        effects: &mut Vec<InputEffect>,
    )
        ensures
            *final(self) == (if old(self).repeat_key matches Some(k) && k.raw_code
                == event.raw_code {
                old(self).disarmed()
            } else {
                *old(self)
            }),
            final(effects)@ == old(effects)@ + (if menu_active {
                seq![]
            } else {
                key_told(*event, old(self).mods, false)
            }),
    {
        let ghost before = effects@;
        let armed = match &self.repeat_key {
            Some(k) => k.raw_code == event.raw_code,
            None => false,
        };
        if !menu_active {
            send_key(event, self.mods, false, effects);
        }
        // With the menu open too, or the repeat outlives it.
        if armed {
            self.disarm_repeat();
        }
        assert(menu_active ==> effects@ =~= before + Seq::<InputEffect>::empty());
    }

    /// The compositor repeats a key itself.
    pub fn repeat_key(
        &self,
        menu_active: bool,
        event: &KeyEvent,
        effects: &mut Vec<InputEffect>,
    )
        ensures
            final(effects)@ == old(effects)@ + (if menu_active {
                seq![InputEffect::MenuKey(event.keysym)]
            } else {
                key_told(*event, self.mods, true)
            }),
    {
        let ghost before = effects@;
        if menu_active {
            effects.push(InputEffect::MenuKey(event.keysym));
            assert(effects@ =~= before + seq![InputEffect::MenuKey(event.keysym)]);
            return ;
        }
        send_key(event, self.mods, true, effects);
    }

    pub fn update_modifiers(&mut self, mods: Mods)
        ensures
            *final(self) == (KeyboardState { mods, ..*old(self) }),
    {
        self.mods = mods;
    }

    /// The compositor's repeat settings; `None` disables repeating.
    pub fn update_repeat_info(&mut self, info: Option<(u32, u32)>)
        ensures
            *final(self) == match info {
                Some((rate, delay)) => KeyboardState {
                    repeat_rate: as_signed(rate),
                    repeat_delay: as_signed(delay),
                    ..*old(self)
                },
                None => KeyboardState { repeat_rate: 0, ..old(self).disarmed() },
            },
    {
        match info {
            Some((rate, delay)) => {
                self.repeat_rate = to_signed(rate);
                self.repeat_delay = to_signed(delay);
            },
            None => {
                self.repeat_rate = 0;
                self.disarm_repeat();
            },
        }
    }
}

/// What a seat can do.
#[derive(Clone, Copy, PartialEq, Eq, Structural, Debug)]
pub enum Capability {
    Pointer,
    Keyboard,
    Other,
}

/// The devices taken from the seat, one of each kind.
pub struct SeatDevices<P, K> {
    pub pointer: Option<P>,
    pub keyboard: Option<K>,
}

/// A device the seat no longer has.
pub enum LostDevice<P, K> {
    Pointer(P),
    Keyboard(K),
}

impl<P, K> SeatDevices<P, K> {
    pub fn new() -> (s: Self)
        ensures
            s == (SeatDevices::<P, K> { pointer: None, keyboard: None }),
    {
        SeatDevices { pointer: None, keyboard: None }
    }

    /// Whether a new capability's device is taken: the first of its kind is.
    pub fn new_capability(&self, capability: Capability) -> (take: bool)
        ensures
            take == match capability {
                Capability::Pointer => self.pointer is None,
                Capability::Keyboard => self.keyboard is None,
                Capability::Other => false,
            },
    {
        match capability {
            Capability::Pointer => self.pointer.is_none(),
            Capability::Keyboard => self.keyboard.is_none(),
            Capability::Other => false,
        }
    }

    /// A capability is gone: its device with it, and what only it could have
    /// undone. Returns the device, to be released.
    pub fn remove_capability(
        &mut self,
        capability: Capability,
        pointer: &mut PointerState,
        keyboard: &mut KeyboardState,
    ) -> (lost: Option<LostDevice<P, K>>)
        ensures
            match capability {
                Capability::Pointer => {
                    &&& lost == match old(self).pointer {
                        Some(p) => Some(LostDevice::<P, K>::Pointer(p)),
                        None => None,
                    }
                    &&& *final(self) == (SeatDevices { pointer: None, ..*old(self) })
                    &&& *final(pointer) == (PointerState { serial: 0, ..*old(pointer) })
                    &&& *final(keyboard) == *old(keyboard)
                },
                Capability::Keyboard => {
                    &&& lost == match old(self).keyboard {
                        Some(k) => Some(LostDevice::<P, K>::Keyboard(k)),
                        None => None,
                    }
                    &&& *final(self) == (SeatDevices { keyboard: None, ..*old(self) })
                    &&& *final(keyboard) == old(keyboard).disarmed()
                    &&& *final(pointer) == *old(pointer)
                },
                Capability::Other => {
                    &&& lost is None
                    &&& *final(self) == *old(self)
                    &&& *final(pointer) == *old(pointer)
                    &&& *final(keyboard) == *old(keyboard)
                },
            },
    {
        match capability {
            Capability::Pointer => {
                pointer.remove_pointer();
                match self.pointer.take() {
                    Some(p) => Some(LostDevice::Pointer(p)),
                    None => None,
                }
            },
            Capability::Keyboard => {
                keyboard.disarm_repeat();
                match self.keyboard.take() {
                    Some(k) => Some(LostDevice::Keyboard(k)),
                    None => None,
                }
            },
            Capability::Other => None,
        }
    }
}

/// Whether a pointer or keyboard of this version is told that it is no longer
/// used.
pub fn device_is_released(version: u32) -> (r: bool)
    ensures
        r == (version >= 3),
{
    version >= 3
}

/// Whether a surface is that of the menu, shown or just gone: the teardown's
/// keyboard-leave arrives after the menu is already cleared.
pub fn is_menu_surface(menu_surface_id: u32, surface_id: u32) -> (r: bool)
    ensures
        r == (surface_id != 0 && menu_surface_id == surface_id),
{
    surface_id != 0 && menu_surface_id == surface_id
}

/// Whether a surface is that of the menu now shown.
pub fn surface_matches(menu_surface_id: u32, surface_id: u32, has_menu: bool) -> (r: bool)
    ensures
        r == (surface_id != 0 && menu_surface_id == surface_id && has_menu),
{
    is_menu_surface(menu_surface_id, surface_id) && has_menu
}

/// One pointer event with what it depends on.
pub ghost struct PointerStep {
    pub mods: Mods,
    pub menu_active: bool,
    pub event: PointerEvent,
}

impl PointerStep {
    /// It presses or releases this button.
    pub open spec fn is_of(self, b: MouseButton) -> bool {
        match self.event {
            PointerEvent::Press { button, .. } => button_of(button) == Some(b),
            PointerEvent::Release { button, .. } => button_of(button) == Some(b),
            _ => false,
        }
    }
}

impl PointerState {
    /// The state after a run of events.
    pub open spec fn ran(self, steps: Seq<PointerStep>) -> PointerState
        decreases steps.len(),
    {
        if steps.len() == 0 {
            self
        } else {
            let s = steps.last();
            self.ran(steps.drop_last()).pointed(s.mods, s.menu_active, s.event).st
        }
    }
}

/// Events of other buttons leave a button as it is.
pub proof fn others_leave_a_button_alone(st: PointerState, steps: Seq<PointerStep>, b: MouseButton)
    requires
        forall|i: int| 0 <= i < steps.len() ==> !(#[trigger] steps[i]).is_of(b),
    ensures
        st.ran(steps).buttons.holds(b) == st.buttons.holds(b),
        st.ran(steps).swallowed.holds(b) == st.swallowed.holds(b),
    decreases steps.len(),
{
    if steps.len() > 0 {
        let front = steps.drop_last();
        assert forall|i: int| 0 <= i < front.len() implies !(#[trigger] front[i]).is_of(b) by {
            assert(front[i] == steps[i]);
        }
        others_leave_a_button_alone(st, front, b);
        assert(!steps[steps.len() - 1].is_of(b));
    }
}

/// A release goes where its press went, whatever comes between them and whether a
/// menu is open at either time: to the browser if the browser saw the press,
/// nowhere if the menu took it. After it the button is held nowhere.
pub proof fn release_follows_press(
    st: PointerState,
    down: PointerStep,
    between: Seq<PointerStep>,
    up: PointerStep,
    button: u32,
    b: MouseButton,
    serial_down: u32,
    serial_up: u32,
)
    requires
        button_of(button) == Some(b),
        down.event == (PointerEvent::Press { button, serial: serial_down }),
        up.event == (PointerEvent::Release { button, serial: serial_up }),
        !st.buttons.holds(b),
        !st.swallowed.holds(b),
        forall|i: int| 0 <= i < between.len() ==> !(#[trigger] between[i]).is_of(b),
    ensures
        ({
            let pressed = st.pointed(down.mods, down.menu_active, down.event);
            let released = pressed.st.ran(between).pointed(up.mods, up.menu_active, up.event);
            let told = |e: InputEffect, press: bool|
                e matches InputEffect::MouseButton { button: told, pressed: p, .. } && told
                    == button && p == press;
            &&& !released.st.buttons.holds(b)
            &&& !released.st.swallowed.holds(b)
            &&& !down.menu_active <==> exists|i: int|
                0 <= i < pressed.effects.len() && told(#[trigger] pressed.effects[i], true)
            &&& !down.menu_active <==> exists|i: int|
                0 <= i < released.effects.len() && told(#[trigger] released.effects[i], false)
        }),
{
    let pressed = st.pointed(down.mods, down.menu_active, down.event);
    let mid = pressed.st.ran(between);
    let released = mid.pointed(up.mods, up.menu_active, up.event);
    others_leave_a_button_alone(pressed.st, between, b);
    let told = |e: InputEffect, press: bool|
        e matches InputEffect::MouseButton { button: told, pressed: p, .. } && told == button && p
            == press;
    if !down.menu_active {
        if b == MouseButton::Right || b == MouseButton::Left {
            assert(told(pressed.effects[1], true));
        } else {
            assert(told(pressed.effects[0], true));
        }
        assert(told(released.effects[0], false));
    }
}

/// A timer armed for an earlier key never repeats a later one: every arm and
/// disarm outdates it.
pub proof fn stale_repeat_timer_never_fires(k: KeyboardState, key: KeyEvent)
    ensures
        k.disarmed().repeat_generation != k.repeat_generation,
        k.armed(key).0.repeat_generation != k.repeat_generation,
{
}

} // verus!
