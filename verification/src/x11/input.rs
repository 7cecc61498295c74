//! X11 input: what key, button and motion events are told to the browser as.

use vstd::prelude::*;

use crate::input_types::cef_to_cursor_icon;
use crate::input_types::icon_of;
use crate::input_types::Buttons;
use crate::input_types::CursorIcon;
use crate::input_types::CursorShape;
use crate::input_types::MouseButton;
use crate::input_types::BTN_LEFT;
use crate::input_types::BTN_MIDDLE;
use crate::input_types::BTN_RIGHT;
use crate::x11::geometry;
use crate::x11::geometry::RootMessage;
use crate::x11::x11_state::HostServices;

verus! {

pub const XKB_KEY_XF86BACK: u32 = 0x1008ff26;
pub const XKB_KEY_XF86FORWARD: u32 = 0x1008ff27;

/// One event for the browser, queued for the dispatch thread.
#[derive(Clone, Copy, PartialEq, Eq, Structural, Debug)]
pub enum QueuedInputEvent {
    KeyRaw { sym: u32, native: u32, modifiers: u32, pressed: bool },
    Char { cp: u32, modifiers: u32, native: u32 },
    HistoryNav { forward: bool },
    MouseButton { code: u32, pressed: bool, x: i32, y: i32, modifiers: u32 },
    MouseMove { x: i32, y: i32, modifiers: u32, leave: bool },
    Scroll { x: i32, y: i32, dx: i32, dy: i32, modifiers: u32 },
}

/// Events between the input thread and the dispatch thread.
pub struct InputMailbox {
    pub queue: Vec<QueuedInputEvent>,
    pub shutdown: bool,
    /// The dispatch thread has to be woken.
    pub wake: bool,
}

impl InputMailbox {
    pub fn new() -> (m: Self)
        ensures
            m.queue@.len() == 0,
            !m.shutdown,
            !m.wake,
    {
        InputMailbox { queue: Vec::new(), shutdown: false, wake: false }
    }

    pub fn push(&mut self, ev: QueuedInputEvent)
        ensures
            final(self).queue@ == old(self).queue@.push(ev),
            final(self).shutdown == old(self).shutdown,
            final(self).wake,
    {
        self.queue.push(ev);
        self.wake = true;
    }

    pub fn shutdown(&mut self)
        ensures
            final(self).queue@ == old(self).queue@,
            final(self).shutdown,
            final(self).wake,
    {
        self.shutdown = true;
        self.wake = true;
    }

    /// Takes all queued events, in order.
    pub fn drain(&mut self) -> (r: Vec<QueuedInputEvent>)
        ensures
            r@ == old(self).queue@,
            final(self).queue@.len() == 0,
            final(self).shutdown == old(self).shutdown,
            final(self).wake == old(self).wake,
    {
        let r = self.queue.split_off(0);
        assert(r@ =~= old(self).queue@);
        r
    }
}

/// Cursor changes between whoever asks and the cursor thread.
pub struct CursorMailbox {
    pub queue: Vec<CursorShape>,
    pub latest: CursorShape,
    pub shutdown: bool,
    /// The cursor thread has to be woken.
    pub wake: bool,
}

impl CursorMailbox {
    pub fn new() -> (m: Self)
        ensures
            m.queue@.len() == 0,
            m.latest == CursorShape::Pointer,
            !m.shutdown,
            !m.wake,
    {
        CursorMailbox {
            queue: Vec::new(),
            latest: CursorShape::Pointer,
            shutdown: false,
            wake: false,
        }
    }

    pub fn push(&mut self, shape: CursorShape)
        ensures
            final(self).queue@ == old(self).queue@.push(shape),
            final(self).latest == shape,
            final(self).shutdown == old(self).shutdown,
            final(self).wake,
    {
        self.latest = shape;
        self.queue.push(shape);
        self.wake = true;
    }

    pub fn shutdown(&mut self)
        ensures
            final(self).queue@ == old(self).queue@,
            final(self).latest == old(self).latest,
            final(self).shutdown,
            final(self).wake,
    {
        self.shutdown = true;
        self.wake = true;
    }

    /// Takes all queued shapes, in order.
    pub fn drain(&mut self) -> (r: Vec<CursorShape>)
        ensures
            r@ == old(self).queue@,
            final(self).queue@.len() == 0,
            final(self).latest == old(self).latest,
            final(self).shutdown == old(self).shutdown,
            final(self).wake == old(self).wake,
    {
        let r = self.queue.split_off(0);
        assert(r@ =~= old(self).queue@);
        r
    }
}

/// Asks for a cursor.
pub fn set_cursor(mailbox: &mut CursorMailbox, shape: CursorShape)
    ensures
        final(mailbox).queue@ == old(mailbox).queue@.push(shape),
        final(mailbox).latest == shape,
        final(mailbox).shutdown == old(mailbox).shutdown,
        final(mailbox).wake,
{
    mailbox.push(shape);
}

/// Where the cursor of a shape comes from.
#[derive(Clone, Copy, PartialEq, Eq, Structural, Debug)]
pub enum CursorSource {
    /// An invisible one has to be made.
    Blank,
    Themed(CursorIcon),
}

pub fn cursor_source(shape: CursorShape) -> (r: CursorSource)
    ensures
        r == (if shape == CursorShape::Hidden {
            CursorSource::Blank
        } else {
            CursorSource::Themed(icon_of(shape))
        }),
{
    if shape == CursorShape::Hidden {
        CursorSource::Blank
    } else {
        CursorSource::Themed(cef_to_cursor_icon(shape))
    }
}

/// The cursors made so far. None is ever freed: the theme hands out one id per
/// name, and a freed one would be handed out again.
pub struct CursorCache {
    made: Vec<(CursorShape, u32)>,
}

/// What it takes to show a cursor.
#[derive(Clone, Copy, PartialEq, Eq, Structural, Debug)]
pub enum CursorNeed {
    /// Nothing: there is no window to show it on.
    Nothing,
    /// It was made before.
    Have(u32),
    Make(CursorSource),
}

/// The first cursor made for a shape.
spec fn made_for(made: Seq<(CursorShape, u32)>, shape: CursorShape) -> Option<u32>
    decreases made.len(),
{
    if made.len() == 0 {
        None
    } else if made[0].0 == shape {
        Some(made[0].1)
    } else {
        made_for(made.drop_first(), shape)
    }
}

proof fn made_for_appended(made: Seq<(CursorShape, u32)>, shape: CursorShape, id: u32, other: CursorShape)
    ensures
        made_for(made.push((shape, id)), other) == (if made_for(made, other) is Some {
            made_for(made, other)
        } else if other == shape {
            Some(id)
        } else {
            None
        }),
    decreases made.len(),
{
    let all = made.push((shape, id));
    if made.len() > 0 {
        assert(all.drop_first() =~= made.drop_first().push((shape, id)));
        made_for_appended(made.drop_first(), shape, id, other);
    } else {
        assert(all.drop_first().len() == 0);
        reveal_with_fuel(made_for, 2);
    }
}

impl CursorCache {
    /// The cursor of a shape, where one was made.
    pub closed spec fn cursor(&self, shape: CursorShape) -> Option<u32> {
        made_for(self.made@, shape)
    }

    pub fn new() -> (c: CursorCache)
        ensures
            forall|shape: CursorShape| #[trigger] c.cursor(shape) is None,
    {
        CursorCache { made: Vec::new() }
    }

    fn find(&self, shape: CursorShape) -> (r: Option<u32>)
        ensures
            r == self.cursor(shape),
    {
        let mut i: usize = 0;
        assert(self.made@.skip(0) =~= self.made@);
        while i < self.made.len()
            invariant
                i <= self.made@.len(),
                made_for(self.made@.skip(i as int), shape) == self.cursor(shape),
            decreases self.made@.len() - i,
        {
            assert(self.made@.skip(i as int).drop_first() =~= self.made@.skip(i + 1));
            if self.made[i].0 == shape {
                return Some(self.made[i].1);
            }
            i += 1;
        }
        None
    }

    /// What it takes to show a cursor. The pointer is over the overlays, so it is
    /// on them that the cursor is set.
    pub fn apply_cursor(&self, shape: CursorShape, overlays: &Vec<u32>) -> (r: CursorNeed)
        ensures
            r == (if overlays@.len() == 0 {
                CursorNeed::Nothing
            } else {
                match self.cursor(shape) {
                    Some(id) => CursorNeed::Have(id),
                    None => CursorNeed::Make(
                        if shape == CursorShape::Hidden {
                            CursorSource::Blank
                        } else {
                            CursorSource::Themed(icon_of(shape))
                        },
                    ),
                }
            }),
    {
        if overlays.len() == 0 {
            return CursorNeed::Nothing;
        }
        match self.find(shape) {
            Some(id) => CursorNeed::Have(id),
            None => CursorNeed::Make(cursor_source(shape)),
        }
    }

    /// A cursor was made, or not. Returns the one to show. A theme without the
    /// cursor says so with id 0; such a cursor is not kept.
    pub fn cursor_made(&mut self, shape: CursorShape, made: Option<u32>) -> (show: Option<u32>)
        requires
            old(self).cursor(shape) is None,
        ensures
            show == (if made == Some(0u32) && shape != CursorShape::Hidden {
                None
            } else {
                made
            }),
            final(self).cursor(shape) == show,
            forall|other: CursorShape|
                other != shape ==> #[trigger] final(self).cursor(other) == old(self).cursor(other),
    {
        match made {
            Some(id) => {
                if id == 0 && shape != CursorShape::Hidden {
                    return None;
                }
                let ghost before = self.made@;
                self.made.push((shape, id));
                assert forall|other: CursorShape| #[trigger]
                    self.cursor(other) == (if other == shape {
                        Some(id)
                    } else {
                        old(self).cursor(other)
                    }) by {
                    made_for_appended(before, shape, id, other);
                }
                Some(id)
            },
            None => None,
        }
    }
}

/// How waiting for a descriptor ended.
#[derive(Clone, Copy, PartialEq, Eq, Structural, Debug)]
pub enum Waited {
    Interrupted,
    Failed,
    Ready,
}

/// What a thread does after waiting.
#[derive(Clone, Copy, PartialEq, Eq, Structural, Debug)]
pub enum ThreadStep {
    /// Wait again.
    Again,
    Stop,
    /// Take what there is, then wait again.
    Serve,
}

/// The input thread serves its connection until it is told to stop, or until
/// the connection or the waiting fails.
pub fn input_thread_step(waited: Waited, told_to_stop: bool, lost: bool) -> (r: ThreadStep)
    ensures
        r == match waited {
            Waited::Interrupted => ThreadStep::Again,
            Waited::Failed => ThreadStep::Stop,
            Waited::Ready => if told_to_stop || lost {
                ThreadStep::Stop
            } else {
                ThreadStep::Serve
            },
        },
{
    match waited {
        Waited::Interrupted => ThreadStep::Again,
        Waited::Failed => ThreadStep::Stop,
        Waited::Ready => if told_to_stop || lost {
            ThreadStep::Stop
        } else {
            ThreadStep::Serve
        },
    }
}

/// The cursor and dispatch threads empty their mailbox whenever they are woken,
/// until it shuts down.
pub fn mailbox_thread_step(waited: Waited, woken: bool, shutdown: bool) -> (r: ThreadStep)
    ensures
        r == match waited {
            Waited::Interrupted => ThreadStep::Again,
            Waited::Failed => ThreadStep::Stop,
            Waited::Ready => if !woken {
                ThreadStep::Again
            } else if shutdown {
                ThreadStep::Stop
            } else {
                ThreadStep::Serve
            },
        },
{
    match waited {
        Waited::Interrupted => ThreadStep::Again,
        Waited::Failed => ThreadStep::Stop,
        Waited::Ready => if !woken {
            ThreadStep::Again
        } else if shutdown {
            ThreadStep::Stop
        } else {
            ThreadStep::Serve
        },
    }
}

/// Pointer, buttons and keyboard modifiers.
#[derive(Clone, Copy, PartialEq, Eq, Structural, Debug)]
pub struct InputState {
    pub modifiers: u32,
    pub ptr_x: i32,
    pub ptr_y: i32,
    pub buttons: Buttons,
}

/// An X keycode as a kernel input code.
pub open spec fn native_code(detail: u8) -> u32 {
    if detail >= 8 {
        (detail - 8) as u32
    } else {
        (0x1_0000_0000 + detail - 8) as u32
    }
}

/// The button of an X button number.
pub open spec fn x_button(button: u8) -> Option<MouseButton> {
    if button == 1 {
        Some(MouseButton::Left)
    } else if button == 2 {
        Some(MouseButton::Middle)
    } else if button == 3 {
        Some(MouseButton::Right)
    } else {
        None
    }
}

pub open spec fn kernel_code(b: MouseButton) -> u32 {
    match b {
        MouseButton::Left => BTN_LEFT,
        MouseButton::Middle => BTN_MIDDLE,
        MouseButton::Right => BTN_RIGHT,
    }
}

impl InputState {
    pub fn new() -> (s: InputState)
        ensures
            s == (InputState { modifiers: 0, ptr_x: 0, ptr_y: 0, buttons: Buttons::none() }),
    {
        InputState { modifiers: 0, ptr_x: 0, ptr_y: 0, buttons: Buttons::empty() }
    }

    /// Keyboard modifiers and mouse buttons.
    pub open spec fn cef_mods(self) -> u32 {
        self.modifiers | (self.buttons.bits() as u32)
    }

    pub fn cef_modifiers(&self) -> (r: u32)
        ensures
            r == self.cef_mods(),
    {
        self.modifiers | self.buttons.flags()
    }

    /// What a key is told as. History keys are consumed; any other is told
    /// raw, and on a press with the character it types.
    pub open spec fn key_events(
        self,
        detail: u8,
        pressed: bool,
        sym: u32,
        cp: u32,
    ) -> Seq<QueuedInputEvent> {
        if sym == XKB_KEY_XF86BACK || sym == XKB_KEY_XF86FORWARD {
            if pressed {
                seq![QueuedInputEvent::HistoryNav { forward: sym == XKB_KEY_XF86FORWARD }]
            } else {
                seq![]
            }
        } else {
            seq![
                QueuedInputEvent::KeyRaw {
                    sym,
                    native: native_code(detail),
                    modifiers: self.modifiers,
                    pressed,
                },
            ] + (if pressed && cp > 0 {
                seq![
                    QueuedInputEvent::Char {
                        cp,
                        modifiers: self.modifiers,
                        native: native_code(detail),
                    },
                ]
            } else {
                seq![]
            })
        }
    }

    /// A key, with the symbol and character the keymap gives it and the
    /// modifiers in effect after it.
    pub fn handle_key(
        &mut self,
        mailbox: &mut InputMailbox,
        detail: u8,
        pressed: bool,
        sym: u32,
        cp: u32,
        modifiers_after: u32,
    )
        ensures
            final(mailbox).queue@ == old(mailbox).queue@ + old(self).key_events(
                detail,
                pressed,
                sym,
                cp,
            ),
            final(mailbox).shutdown == old(mailbox).shutdown,
            final(mailbox).wake == (old(mailbox).wake || final(mailbox).queue@.len()
                > old(mailbox).queue@.len()),
            *final(self) == (if sym == XKB_KEY_XF86BACK || sym == XKB_KEY_XF86FORWARD {
                *old(self)
            } else {
                InputState { modifiers: modifiers_after, ..*old(self) }
            }),
    {
        let ghost before = mailbox.queue@;
        let ghost told = self.key_events(detail, pressed, sym, cp);
        if sym == XKB_KEY_XF86BACK || sym == XKB_KEY_XF86FORWARD {
            if pressed {
                mailbox.push(
                    QueuedInputEvent::HistoryNav { forward: sym == XKB_KEY_XF86FORWARD },
                );
            }
            assert(mailbox.queue@ =~= before + told);
            return ;
        }
        let native: u32 = if detail >= 8 {
            detail as u32 - 8
        } else {
            (0x1_0000_0000u64 + detail as u64 - 8) as u32
        };
        mailbox.push(
            QueuedInputEvent::KeyRaw { sym, native, modifiers: self.modifiers, pressed },
        );
        if pressed && cp > 0 {
            mailbox.push(QueuedInputEvent::Char { cp, modifiers: self.modifiers, native });
        }
        self.modifiers = modifiers_after;
        assert(mailbox.queue@ =~= before + told);
    }

    /// What a button is told as, at a logical position: four buttons scroll,
    /// two walk the history, three are buttons of the mouse.
    pub open spec fn button_events(
        self,
        button: u8,
        x: i32,
        y: i32,
        pressed: bool,
    ) -> (InputState, Seq<QueuedInputEvent>) {
        if 4 <= button <= 7 {
            (
                self,
                if pressed {
                    seq![
                        QueuedInputEvent::Scroll {
                            x,
                            y,
                            dx: if button == 6 {
                                120
                            } else if button == 7 {
                                (-120int) as i32
                            } else {
                                0
                            },
                            dy: if button == 4 {
                                120
                            } else if button == 5 {
                                (-120int) as i32
                            } else {
                                0
                            },
                            modifiers: self.cef_mods(),
                        },
                    ]
                } else {
                    seq![]
                },
            )
        } else if button == 8 || button == 9 {
            (
                self,
                if pressed {
                    seq![QueuedInputEvent::HistoryNav { forward: button == 9 }]
                } else {
                    seq![]
                },
            )
        } else {
            match x_button(button) {
                Some(b) => {
                    let st = InputState { buttons: self.buttons.with(b, pressed), ..self };
                    (
                        st,
                        seq![
                            QueuedInputEvent::MouseButton {
                                code: kernel_code(b),
                                pressed,
                                x,
                                y,
                                modifiers: st.cef_mods(),
                            },
                        ],
                    )
                },
                None => (self, seq![]),
            }
        }
    }

    /// A button, at a logical position. Returns whether the app's window has to
    /// be activated.
    pub fn handle_button(
        &mut self,
        mailbox: &mut InputMailbox,
        button: u8,
        x: i32,
        y: i32,
        pressed: bool,
    ) -> (activate: bool)
        ensures
            *final(self) == old(self).button_events(button, x, y, pressed).0,
            final(mailbox).queue@ == old(mailbox).queue@ + old(self).button_events(
                button,
                x,
                y,
                pressed,
            ).1,
            final(mailbox).shutdown == old(mailbox).shutdown,
            final(mailbox).wake == (old(mailbox).wake || final(mailbox).queue@.len()
                > old(mailbox).queue@.len()),
            activate == (pressed && x_button(button) is Some),
    {
        let ghost before = mailbox.queue@;
        let ghost told = self.button_events(button, x, y, pressed).1;
        if 4 <= button && button <= 7 {
            if pressed {
                let dx: i32 = if button == 6 {
                    120
                } else if button == 7 {
                    -120
                } else {
                    0
                };
                let dy: i32 = if button == 4 {
                    120
                } else if button == 5 {
                    -120
                } else {
                    0
                };
                mailbox.push(
                    QueuedInputEvent::Scroll { x, y, dx, dy, modifiers: self.cef_modifiers() },
                );
            }
            assert(mailbox.queue@ =~= before + told);
            return false;
        }
        if button == 8 || button == 9 {
            if pressed {
                mailbox.push(QueuedInputEvent::HistoryNav { forward: button == 9 });
            }
            assert(mailbox.queue@ =~= before + told);
            return false;
        }
        let (b, code) = match button {
            1 => (MouseButton::Left, BTN_LEFT),
            2 => (MouseButton::Middle, BTN_MIDDLE),
            3 => (MouseButton::Right, BTN_RIGHT),
            _ => {
                assert(mailbox.queue@ =~= before + told);
                return false;
            },
        };
        self.buttons.put(b, pressed);
        mailbox.push(
            QueuedInputEvent::MouseButton {
                code,
                pressed,
                x,
                y,
                modifiers: self.cef_modifiers(),
            },
        );
        assert(mailbox.queue@ =~= before + told);
        pressed
    }

    pub open spec fn move_event(self, leave: bool) -> QueuedInputEvent {
        QueuedInputEvent::MouseMove {
            x: self.ptr_x,
            y: self.ptr_y,
            modifiers: self.cef_mods(),
            leave,
        }
    }

    /// The pointer moved, to a logical position.
    pub fn handle_motion(&mut self, mailbox: &mut InputMailbox, x: i32, y: i32)
        ensures
            *final(self) == (InputState { ptr_x: x, ptr_y: y, ..*old(self) }),
            final(mailbox).queue@ == old(mailbox).queue@.push(final(self).move_event(false)),
            final(mailbox).shutdown == old(mailbox).shutdown,
            final(mailbox).wake,
    {
        self.ptr_x = x;
        self.ptr_y = y;
        mailbox.push(
            QueuedInputEvent::MouseMove { x, y, modifiers: self.cef_modifiers(), leave: false },
        );
    }

    /// The pointer entered: the cursor last asked for is set again.
    pub fn handle_enter(
        &mut self,
        mailbox: &mut InputMailbox,
        cursor: &mut CursorMailbox,
        x: i32,
        y: i32,
    )
        ensures
            *final(self) == (InputState { ptr_x: x, ptr_y: y, ..*old(self) }),
            final(mailbox).queue@ == old(mailbox).queue@.push(final(self).move_event(false)),
            final(mailbox).shutdown == old(mailbox).shutdown,
            final(mailbox).wake,
            final(cursor).queue@ == old(cursor).queue@.push(old(cursor).latest),
            final(cursor).latest == old(cursor).latest,
            final(cursor).shutdown == old(cursor).shutdown,
            final(cursor).wake,
    {
        let latest = cursor.latest;
        cursor.push(latest);
        self.handle_motion(mailbox, x, y);
    }

    /// The pointer left.
    pub fn handle_leave(&self, mailbox: &mut InputMailbox)
        ensures
            final(mailbox).queue@ == old(mailbox).queue@.push(self.move_event(true)),
            final(mailbox).shutdown == old(mailbox).shutdown,
            final(mailbox).wake,
    {
        mailbox.push(
            QueuedInputEvent::MouseMove {
                x: self.ptr_x,
                y: self.ptr_y,
                modifiers: self.cef_modifiers(),
                leave: true,
            },
        );
    }
}

/// One event of the input connection; positions are logical.
#[derive(Clone, Copy, PartialEq, Eq, Structural, Debug)]
pub enum XInputEvent {
    /// A key, with what the keymap gives for it.
    Key { detail: u8, pressed: bool, sym: u32, cp: u32, modifiers_after: u32 },
    Button { button: u8, pressed: bool, x: i32, y: i32 },
    Motion { x: i32, y: i32 },
    Enter { x: i32, y: i32 },
    Leave,
    /// The modifiers changed.
    Modifiers(u32),
    /// The keymap or the keyboard changed.
    KeymapChanged,
    Other,
}

/// The message that activates the app's window after a press on it. None is sent
/// without a host window, a root to send it to, or an atom to call it by.
pub fn activate_parent(host: &Option<HostServices>, window: u32) -> (r: Option<RootMessage>)
    ensures
        match (*host, r) {
            (Some(h), Some(m)) => {
                &&& h.root != 0
                &&& h.atoms.net_active_window != 0
                &&& m.root == h.root
                &&& m.message.window == window
                &&& m.message.type_ == h.atoms.net_active_window
                &&& m.message.data@ == seq![2u32, 0, 0, 0, 0]
            },
            (Some(h), None) => h.root == 0 || h.atoms.net_active_window == 0,
            (None, m) => m is None,
        },
{
    match host {
        Some(h) => if h.root == 0 || h.atoms.net_active_window == 0 {
            None
        } else {
            Some(geometry::activate_parent(h, h.root, window))
        },
        None => None,
    }
}

/// What an event asks of the thread.
#[derive(Clone, Copy, PartialEq, Eq, Structural, Debug)]
pub enum InputAsk {
    Nothing,
    /// Send what [`activate_parent`] gives.
    Activate,
    /// Read the keymap anew.
    ReloadKeymap,
}

impl InputState {
    /// The state after an event, what is told of it, whether the cursor is set
    /// again, and what it asks. Without a keymap no key is told and no modifier
    /// changes.
    pub open spec fn handled(self, ev: XInputEvent, has_keymap: bool) -> (
        InputState,
        Seq<QueuedInputEvent>,
        bool,
        InputAsk,
    ) {
        match ev {
            XInputEvent::Key { detail, pressed, sym, cp, modifiers_after } => if has_keymap {
                (
                    if sym == XKB_KEY_XF86BACK || sym == XKB_KEY_XF86FORWARD {
                        self
                    } else {
                        InputState { modifiers: modifiers_after, ..self }
                    },
                    self.key_events(detail, pressed, sym, cp),
                    false,
                    InputAsk::Nothing,
                )
            } else {
                (self, seq![], false, InputAsk::Nothing)
            },
            XInputEvent::Button { button, pressed, x, y } => (
                self.button_events(button, x, y, pressed).0,
                self.button_events(button, x, y, pressed).1,
                false,
                if pressed && x_button(button) is Some {
                    InputAsk::Activate
                } else {
                    InputAsk::Nothing
                },
            ),
            XInputEvent::Motion { x, y } => {
                let st = InputState { ptr_x: x, ptr_y: y, ..self };
                (st, seq![st.move_event(false)], false, InputAsk::Nothing)
            },
            XInputEvent::Enter { x, y } => {
                let st = InputState { ptr_x: x, ptr_y: y, ..self };
                (st, seq![st.move_event(false)], true, InputAsk::Nothing)
            },
            XInputEvent::Leave => (self, seq![self.move_event(true)], false, InputAsk::Nothing),
            XInputEvent::Modifiers(modifiers) => (
                if has_keymap {
                    InputState { modifiers, ..self }
                } else {
                    self
                },
                seq![],
                false,
                InputAsk::Nothing,
            ),
            XInputEvent::KeymapChanged => (self, seq![], false, InputAsk::ReloadKeymap),
            XInputEvent::Other => (self, seq![], false, InputAsk::Nothing),
        }
    }

    /// One event of the input connection.
    pub fn handle_event(
        &mut self,
        mailbox: &mut InputMailbox,
        cursor: &mut CursorMailbox,
        ev: XInputEvent,
        has_keymap: bool,
    ) -> (ask: InputAsk)
        ensures
            ({
                let h = old(self).handled(ev, has_keymap);
                &&& *final(self) == h.0
                &&& final(mailbox).queue@ == old(mailbox).queue@ + h.1
                &&& final(mailbox).shutdown == old(mailbox).shutdown
                &&& final(mailbox).wake == (old(mailbox).wake || h.1.len() > 0)
                &&& final(cursor).latest == old(cursor).latest
                &&& final(cursor).shutdown == old(cursor).shutdown
                &&& final(cursor).wake == (old(cursor).wake || h.2)
                &&& final(cursor).queue@ == (if h.2 {
                    old(cursor).queue@.push(old(cursor).latest)
                } else {
                    old(cursor).queue@
                })
                &&& ask == h.3
            }),
    {
        let ghost before = mailbox.queue@;
        let ghost told = self.handled(ev, has_keymap).1;
        assert(before + Seq::<QueuedInputEvent>::empty() =~= before);
        match ev {
            XInputEvent::Key { detail, pressed, sym, cp, modifiers_after } => {
                if has_keymap {
                    self.handle_key(mailbox, detail, pressed, sym, cp, modifiers_after);
                }
                InputAsk::Nothing
            },
            XInputEvent::Button { button, pressed, x, y } => {
                if self.handle_button(mailbox, button, x, y, pressed) {
                    InputAsk::Activate
                } else {
                    InputAsk::Nothing
                }
            },
            XInputEvent::Motion { x, y } => {
                self.handle_motion(mailbox, x, y);
                assert(mailbox.queue@ =~= before + told);
                InputAsk::Nothing
            },
            XInputEvent::Enter { x, y } => {
                self.handle_enter(mailbox, cursor, x, y);
                assert(mailbox.queue@ =~= before + told);
                InputAsk::Nothing
            },
            XInputEvent::Leave => {
                self.handle_leave(mailbox);
                assert(mailbox.queue@ =~= before + told);
                InputAsk::Nothing
            },
            XInputEvent::Modifiers(modifiers) => {
                if has_keymap {
                    self.modifiers = modifiers;
                }
                InputAsk::Nothing
            },
            XInputEvent::KeymapChanged => InputAsk::ReloadKeymap,
            XInputEvent::Other => InputAsk::Nothing,
        }
    }
}

/// A button pressed and released leaves the state as it was, and is told as
/// exactly one press and one release.
pub proof fn click_is_told_in_pairs(st: InputState, button: u8, b: MouseButton, x: i32, y: i32)
    requires
        x_button(button) == Some(b),
        !st.buttons.holds(b),
    ensures
        ({
            let down = st.button_events(button, x, y, true);
            let up = down.0.button_events(button, x, y, false);
            &&& up.0 == st
            &&& down.1.len() == 1 && down.1[0] is MouseButton
            &&& up.1.len() == 1 && up.1[0] is MouseButton
        }),
{
}

} // verus!
