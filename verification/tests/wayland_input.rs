use jellium_platform::input_types::cef_to_cursor_icon;
use jellium_platform::input_types::mouse_button;
use jellium_platform::input_types::CursorIcon;
use jellium_platform::input_types::CursorShape;
use jellium_platform::input_types::Mods;
use jellium_platform::input_types::BTN_BACK;
use jellium_platform::input_types::BTN_EXTRA;
use jellium_platform::input_types::BTN_LEFT;
use jellium_platform::input_types::BTN_MIDDLE;
use jellium_platform::input_types::BTN_RIGHT;
use jellium_platform::input_types::EVENTFLAG_ALT_DOWN;
use jellium_platform::input_types::EVENTFLAG_CONTROL_DOWN;
use jellium_platform::input_types::EVENTFLAG_LEFT_MOUSE_BUTTON;
use jellium_platform::input_types::EVENTFLAG_RIGHT_MOUSE_BUTTON;
use jellium_platform::input_types::EVENTFLAG_SHIFT_DOWN;
use jellium_platform::wayland::input::device_is_released;
use jellium_platform::wayland::input::is_context_menu_key;
use jellium_platform::wayland::input::is_menu_surface;
use jellium_platform::wayland::input::surface_matches;
use jellium_platform::wayland::input::CursorChoice;
use jellium_platform::wayland::input::InputEffect;
use jellium_platform::wayland::input::KeyEvent;
use jellium_platform::wayland::input::KeyboardState;
use jellium_platform::wayland::input::Point;
use jellium_platform::wayland::input::PointerEvent;
use jellium_platform::wayland::input::PointerState;
use jellium_platform::wayland::input::Capability;
use jellium_platform::wayland::input::LostDevice;
use jellium_platform::wayland::input::SeatDevices;
use jellium_platform::wayland::input::SeatShared;
use jellium_platform::wayland::input::XK_F10;
use jellium_platform::wayland::input::XK_MENU;

const PLAIN: Mods = Mods { shift: false, ctrl: false, alt: false };
const SHIFT: Mods = Mods { shift: true, ctrl: false, alt: false };

fn at(x: i32, y: i32) -> Point {
    Point { x: x * 256, y: y * 256 }
}

struct Pointer {
    st: PointerState,
    seat: SeatShared,
    menu: bool,
}

impl Pointer {
    fn new() -> Self {
        Pointer { st: PointerState::new(), seat: SeatShared::new(), menu: false }
    }

    fn ev(&mut self, e: PointerEvent) -> (bool, Vec<InputEffect>) {
        let mut out = Vec::new();
        let ends = self.st.pointer_event(&mut self.seat, PLAIN, self.menu, e, &mut out);
        (ends, out)
    }

    fn told(&mut self, e: PointerEvent) -> Vec<InputEffect> {
        self.ev(e).1
    }
}

fn press(button: u32, serial: u32) -> PointerEvent {
    PointerEvent::Press { button, serial }
}

fn release(button: u32) -> PointerEvent {
    PointerEvent::Release { button, serial: 0 }
}

#[test]
fn moves_are_told_in_whole_pixels() {
    let mut p = Pointer::new();
    assert_eq!(
        p.told(PointerEvent::Enter {
            serial: 5,
            at: Point { x: 2 * 256 + 255, y: -300 },
            over_menu: false
        }),
        vec![
            InputEffect::ApplyCursor,
            InputEffect::MouseMove { x: 2, y: -1, mods: 0, leave: false }
        ]
    );
    assert_eq!(
        p.told(PointerEvent::Motion { at: at(7, 8) }),
        vec![InputEffect::MouseMove { x: 7, y: 8, mods: 0, leave: false }]
    );
    assert_eq!(
        p.told(PointerEvent::Leave),
        vec![InputEffect::MouseMove { x: 7, y: 8, mods: 0, leave: true }]
    );
}

#[test]
fn a_click_is_told_and_arms_the_menu() {
    let mut p = Pointer::new();
    p.told(PointerEvent::Motion { at: at(3, 4) });
    let (ends, told) = p.ev(press(BTN_RIGHT, 11));
    assert!(ends);
    assert_eq!(
        told,
        vec![
            InputEffect::MenuArm { x: 3, y: 4, serial: 11 },
            InputEffect::MouseButton {
                button: BTN_RIGHT,
                pressed: true,
                x: 3,
                y: 4,
                mods: EVENTFLAG_RIGHT_MOUSE_BUTTON
            }
        ]
    );
    assert_eq!((p.seat.last_button_serial, p.seat.last_input_serial), (11, 11));
    assert_eq!(
        p.told(release(BTN_RIGHT)),
        vec![
            InputEffect::MouseButton { button: BTN_RIGHT, pressed: false, x: 3, y: 4, mods: 0 },
            InputEffect::MenuDismissIfSpeculative
        ]
    );
    let (ends, told) = p.ev(press(BTN_MIDDLE, 12));
    assert!(!ends);
    assert_eq!(told.len(), 1);
}

#[test]
fn history_buttons_navigate_on_press() {
    let mut p = Pointer::new();
    assert_eq!(p.told(press(BTN_EXTRA, 1)), vec![InputEffect::HistoryNav { forward: true }]);
    assert_eq!(p.told(press(BTN_BACK, 2)), vec![InputEffect::HistoryNav { forward: false }]);
    assert_eq!(p.told(release(BTN_BACK)), vec![]);
    assert_eq!(p.told(press(0x999, 3)), vec![]);
}

#[test]
fn the_opening_click_is_released_to_the_browser() {
    let mut p = Pointer::new();
    p.told(PointerEvent::Motion { at: at(3, 4) });
    p.told(press(BTN_LEFT, 1));
    p.menu = true;
    assert_eq!(
        p.told(PointerEvent::Enter { serial: 2, at: at(1, 1), over_menu: true }),
        vec![InputEffect::MenuMotion(at(1, 1))]
    );
    assert_eq!(
        p.told(release(BTN_LEFT)),
        vec![InputEffect::MouseButton { button: BTN_LEFT, pressed: false, x: 3, y: 4, mods: 0 }]
    );
}

#[test]
fn other_buttons_do_not_redirect_a_release() {
    let mut p = Pointer::new();
    p.menu = true;
    p.told(press(BTN_LEFT, 1));
    p.menu = false;
    assert_eq!(p.told(press(BTN_RIGHT, 2)).len(), 2);
    p.told(PointerEvent::Motion { at: at(5, 5) });
    p.menu = true;
    assert_eq!(p.told(release(BTN_RIGHT)).len(), 1);
    p.menu = false;
    assert_eq!(p.told(release(BTN_LEFT)), vec![]);
    assert_eq!((p.st.buttons.flags(), p.st.swallowed.flags()), (0, 0));
}

#[test]
fn a_press_taken_by_the_menu_is_released_nowhere() {
    let mut p = Pointer::new();
    p.menu = true;
    p.told(PointerEvent::Enter { serial: 2, at: at(1, 2), over_menu: true });
    assert_eq!(p.told(press(BTN_LEFT, 1)), vec![InputEffect::MenuPress(at(1, 2))]);
    p.menu = false;
    assert_eq!(p.told(release(BTN_LEFT)), vec![]);
    assert_eq!(p.told(PointerEvent::Leave), vec![]);
    p.menu = true;
    assert_eq!(p.told(press(BTN_LEFT, 1)), vec![InputEffect::MenuDismiss]);
    assert_eq!(p.told(release(BTN_LEFT)), vec![]);
    assert_eq!(p.told(PointerEvent::Motion { at: at(9, 9) }), vec![]);
    p.menu = false;
    assert_eq!(p.told(press(BTN_LEFT, 1)).len(), 2);
    assert_eq!(p.st.buttons.flags(), EVENTFLAG_LEFT_MOUSE_BUTTON);
}

#[test]
fn wheel_steps_replace_smooth_scrolling() {
    let mut p = Pointer::new();
    p.told(PointerEvent::Motion { at: at(1, 2) });
    p.told(PointerEvent::Axis { value120_x: 0, value120_y: 120 });
    p.told(PointerEvent::Axis { value120_x: -30, value120_y: 120 });
    let mut out = Vec::new();
    assert!(p.st.flush_scroll(PLAIN, false, 5, 6, &mut out));
    assert_eq!(out, vec![InputEffect::Scroll { x: 1, y: 2, dx: 30, dy: -240, mods: 0 }]);
    out.clear();
    assert!(!p.st.flush_scroll(SHIFT, false, 5, 6, &mut out));
    assert_eq!(
        out,
        vec![InputEffect::Scroll { x: 1, y: 2, dx: 5, dy: 6, mods: EVENTFLAG_SHIFT_DOWN }]
    );
    out.clear();
    assert!(!p.st.flush_scroll(PLAIN, false, 0, 0, &mut out));
    assert!(!p.st.flush_scroll(PLAIN, true, 0, 6, &mut out));
    assert!(out.is_empty());
    p.st.menu_focus = true;
    assert!(!p.st.flush_scroll(PLAIN, true, 0, 6, &mut out));
    assert_eq!(out, vec![InputEffect::MenuScroll(6)]);
}

#[test]
fn the_cursor_waits_for_the_first_enter() {
    let mut p = Pointer::new();
    assert_eq!(p.st.apply_cursor(CursorShape::Hand, true), CursorChoice::Leave);
    p.told(PointerEvent::Enter { serial: 5, at: at(0, 0), over_menu: false });
    assert_eq!(
        p.st.apply_cursor(CursorShape::Hand, true),
        CursorChoice::Show(CursorIcon::Pointer)
    );
    assert_eq!(p.st.apply_cursor(CursorShape::Hidden, true), CursorChoice::Hide);
    assert_eq!(p.st.apply_cursor(CursorShape::Hand, false), CursorChoice::Leave);
    p.st.remove_pointer();
    assert_eq!(p.st.apply_cursor(CursorShape::Hand, true), CursorChoice::Leave);
    assert_eq!(cef_to_cursor_icon(CursorShape::MiddlePanning), CursorIcon::AllScroll);
    assert_eq!(cef_to_cursor_icon(CursorShape::Other), CursorIcon::Default);
    assert_eq!(mouse_button(BTN_EXTRA), None);
    assert!(device_is_released(3) && !device_is_released(2));
}

fn key(keysym: u32, raw_code: u32, text: &str) -> KeyEvent {
    KeyEvent { keysym, raw_code, text: text.chars().collect() }
}

fn keyboard() -> KeyboardState {
    let mut k = KeyboardState::new();
    k.update_repeat_info(Some((25, 600)));
    k
}

#[test]
fn a_press_types_and_repeats() {
    let mut k = keyboard();
    k.update_modifiers(Mods { shift: false, ctrl: true, alt: true });
    let mods = EVENTFLAG_CONTROL_DOWN | EVENTFLAG_ALT_DOWN;
    let mut seat = SeatShared::new();
    let mut out = Vec::new();
    k.press_key(&mut seat, at(0, 0), false, 3, 9, true, key(97, 30, "a\u{fc}"), &mut out);
    assert_eq!((seat.last_button_serial, seat.last_input_serial), (0, 3));
    assert_eq!(
        out,
        vec![
            InputEffect::Key { keysym: 97, native_code: 30, mods, pressed: true },
            InputEffect::Char { codepoint: 97, mods, native_code: 30 },
            InputEffect::Char { codepoint: 0xfc, mods, native_code: 30 },
            InputEffect::StartRepeat { generation: 1, delay_ms: 600, period_ms: 40 },
        ]
    );
    out.clear();
    assert!(k.repeat_tick(1, false, &mut out));
    assert_eq!(out.len(), 3);
    assert!(!k.repeat_tick(0, false, &mut out));
    out.clear();
    k.release_key(true, &key(98, 48, ""), &mut out);
    assert!(out.is_empty() && k.repeat_key.is_some());
    k.release_key(false, &key(97, 30, "a"), &mut out);
    assert_eq!(
        out,
        vec![InputEffect::Key { keysym: 97, native_code: 30, mods, pressed: false }]
    );
    assert!(!k.repeat_tick(1, false, &mut out));
}

#[test]
fn repeats_stop_for_menus_and_lost_focus() {
    let mut k = keyboard();
    let mut seat = SeatShared::new();
    let mut out = Vec::new();
    k.press_key(&mut seat, at(0, 0), false, 3, 9, true, key(97, 30, ""), &mut out);
    assert!(!k.repeat_tick(1, true, &mut out));
    assert!(k.repeat_key.is_none());
    k.press_key(&mut seat, at(0, 0), false, 3, 9, true, key(97, 30, ""), &mut out);
    k.leave(&mut seat, false, false, &mut out);
    assert!(k.repeat_key.is_none());
    k.press_key(&mut seat, at(0, 0), false, 3, 9, true, key(97, 30, ""), &mut out);
    k.update_repeat_info(None);
    assert!(k.repeat_key.is_none());
    out.clear();
    k.press_key(&mut seat, at(0, 0), false, 3, 9, true, key(97, 30, ""), &mut out);
    assert_eq!(out.len(), 1);
    k.update_repeat_info(Some((u32::MAX, 1)));
    assert_eq!(k.repeat_rate, -1);
    k.update_repeat_info(Some((5000, 0)));
    out.clear();
    k.press_key(&mut seat, at(0, 0), false, 3, 10, true, key(97, 30, ""), &mut out);
    assert_eq!(out.len(), 1);
    k.press_key(&mut seat, at(0, 0), false, 3, 9, true, key(97, 30, ""), &mut out);
    assert!(matches!(
        out[2],
        InputEffect::StartRepeat { delay_ms: 1, period_ms: 1, .. }
    ));
    k.repeat_timer_failed();
    assert!(k.repeat_key.is_none());
}

#[test]
fn the_context_menu_key_arms_the_menu() {
    assert!(is_context_menu_key(XK_MENU, PLAIN));
    assert!(is_context_menu_key(XK_F10, SHIFT));
    assert!(!is_context_menu_key(XK_F10, PLAIN));
    let mut k = keyboard();
    let mut seat = SeatShared::new();
    let mut out = Vec::new();
    k.press_key(&mut seat, at(4, 5), false, 3, 9, false, key(XK_MENU, 1, ""), &mut out);
    assert_eq!(out[0], InputEffect::MenuArm { x: 4, y: 5, serial: 3 });
    assert_eq!(out.len(), 2);
    out.clear();
    k.press_key(&mut seat, at(4, 5), true, 3, 9, true, key(XK_MENU, 1, ""), &mut out);
    k.repeat_key(true, &key(65, 1, "A"), &mut out);
    assert_eq!(out, vec![InputEffect::MenuKey(XK_MENU), InputEffect::MenuKey(65)]);
    out.clear();
    k.repeat_key(false, &key(65, 1, "A"), &mut out);
    assert_eq!(out.len(), 2);
}

#[test]
fn focus_lost_to_the_menu_is_held_back() {
    let mut k = keyboard();
    let mut seat = SeatShared::new();
    let mut out = Vec::new();
    k.leave(&mut seat, true, true, &mut out);
    assert!(!seat.suppressed_focus_loss);
    k.leave(&mut seat, false, true, &mut out);
    assert!(seat.suppressed_focus_loss && out.is_empty());
    k.enter(&mut seat, true, &mut out);
    assert!(seat.flush_suppressed_focus_loss());
    assert!(!seat.flush_suppressed_focus_loss());
    seat.suppress_focus_loss();
    k.enter(&mut seat, false, &mut out);
    assert_eq!(out, vec![InputEffect::KbFocus(true)]);
    assert!(!seat.suppressed_focus_loss);
    k.leave(&mut seat, false, false, &mut out);
    assert_eq!(out[1], InputEffect::KbFocus(false));
    assert!(is_menu_surface(7, 7) && !is_menu_surface(0, 0) && !is_menu_surface(7, 8));
    assert!(surface_matches(7, 7, true) && !surface_matches(7, 7, false));
}

#[test]
fn one_device_of_each_kind_is_taken() {
    let mut p = Pointer { st: PointerState::new(), seat: SeatShared::new(), menu: false };
    let mut k = keyboard();
    let mut out = Vec::new();
    k.press_key(&mut p.seat, at(0, 0), false, 3, 9, true, key(97, 30, "a"), &mut out);
    p.st.serial = 4;
    let mut d: SeatDevices<u32, char> = SeatDevices::new();
    assert!(d.new_capability(Capability::Pointer) && d.new_capability(Capability::Keyboard));
    assert!(!d.new_capability(Capability::Other));
    d.pointer = Some(7);
    d.keyboard = Some('k');
    assert!(!d.new_capability(Capability::Pointer) && !d.new_capability(Capability::Keyboard));

    assert!(d.remove_capability(Capability::Other, &mut p.st, &mut k).is_none());
    assert!(matches!(
        d.remove_capability(Capability::Pointer, &mut p.st, &mut k),
        Some(LostDevice::Pointer(7))
    ));
    assert_eq!(p.st.serial, 0);
    assert!(k.repeat_key.is_some());
    assert!(matches!(
        d.remove_capability(Capability::Keyboard, &mut p.st, &mut k),
        Some(LostDevice::Keyboard('k'))
    ));
    assert!(k.repeat_key.is_none());
    assert!(d.remove_capability(Capability::Keyboard, &mut p.st, &mut k).is_none());
}
