//! What the browser and the menu are told of the pointer and the keyboard: where
//! it happened, with what held, and in what order.

use vstd::prelude::*;

use crate::input_types::cef_to_cursor_icon;
use crate::input_types::mouse_button;
use crate::input_types::Buttons;
use crate::input_types::CursorIcon;
use crate::input_types::CursorShape;
use crate::input_types::Mods;
use crate::input_types::MouseButton;
use crate::wayland::input::device_is_released;
use crate::wayland::input::is_context_menu_key;
use crate::wayland::input::is_menu_surface;
use crate::wayland::input::others_leave_a_button_alone;
use crate::wayland::input::surface_matches;
use crate::wayland::input::Capability;
use crate::wayland::input::CursorChoice;
use crate::wayland::input::InputEffect;
use crate::wayland::input::KeyEvent;
use crate::wayland::input::KeyboardState;
use crate::wayland::input::LostDevice;
use crate::wayland::input::Point;
use crate::wayland::input::PointerEvent;
use crate::wayland::input::PointerState;
use crate::wayland::input::PointerStep;
use crate::wayland::input::SeatDevices;
use crate::wayland::input::SeatShared;

verus! {

/// The event flags of the modifiers, and no others below the buttons'.
pub open spec fn flags_keys(flags: u32, keys: Mods) -> bool {
    &&& flags as int % 2 == 0
    &&& flags as int / 2 % 2 == 1 <==> keys.shift
    &&& flags as int / 4 % 2 == 1 <==> keys.ctrl
    &&& flags as int / 8 % 2 == 1 <==> keys.alt
}

/// The event flags carry exactly these modifiers and these buttons.
pub open spec fn carries(flags: u32, keys: Mods, held: Buttons) -> bool {
    &&& flags_keys(flags, keys)
    &&& flags as int / 16 % 2 == 1 <==> held.left
    &&& flags as int / 32 % 2 == 1 <==> held.middle
    &&& flags as int / 64 % 2 == 1 <==> held.right
    &&& flags < 128
}

/// `px` is the whole pixel that a position in 256ths lies in, cut towards zero.
pub open spec fn pixel_of(px: i32, v: i32) -> bool {
    &&& v >= 0 ==> 256 * px <= v < 256 * px + 256
    &&& v < 0 ==> 256 * px - 256 < v <= 256 * px && px <= 0
}

/// Everything the browser is told of the pointer from `from` on carries exactly
/// the modifiers, and the buttons held as far as the browser knows.
pub open spec fn flags_agree(e: Seq<InputEffect>, from: int, keys: Mods, held: Buttons) -> bool {
    forall|i: int|
        #![trigger e[i]]
        from <= i < e.len() ==> match e[i] {
            InputEffect::MouseMove { mods, .. } => carries(mods, keys, held),
            InputEffect::MouseButton { mods, .. } => carries(mods, keys, held),
            InputEffect::Scroll { mods, .. } => carries(mods, keys, held),
            _ => true,
        }
}

proof fn cef_mods_carry(st: PointerState, keys: Mods)
    ensures
        carries(st.cef_mods(keys), keys, st.buttons),
{
}

proof fn whole_is_the_pixel(v: i32)
    ensures
        pixel_of(crate::wayland::input::whole(v), v),
{
}

/// Every move, click and scroll the browser is told of carries the flag of each
/// button it has seen pressed and not yet released, of each modifier that is
/// down, and no flag besides.
pub proof fn told_flags_are_what_is_held(
    p: &mut PointerState,
    seat: &mut SeatShared,
    keys: Mods,
    menu: bool,
    event: PointerEvent,
    effects: &mut Vec<InputEffect>,
    r: bool,
)
    requires
        call_ensures(PointerState::pointer_event, (p, seat, keys, menu, event, effects), r),
    ensures
        flags_agree(final(effects)@, old(effects)@.len() as int, keys, final(p).buttons),
        old(effects)@ == final(effects)@.take(old(effects)@.len() as int),
{
    let n = old(effects)@.len() as int;
    let tail = old(p).pointed(keys, menu, event).effects;
    assert(final(effects)@.take(n) =~= old(effects)@);
    cef_mods_carry(*final(p), keys);
    assert forall|i: int| n <= i < final(effects)@.len() implies #[trigger] final(effects)@[i]
        == tail[i - n] by {}
    assert forall|i: int| #![trigger tail[i]] 0 <= i < tail.len() implies match tail[i] {
        InputEffect::MouseMove { mods, .. } => mods == final(p).cef_mods(keys),
        InputEffect::MouseButton { mods, .. } => mods == final(p).cef_mods(keys),
        InputEffect::Scroll { .. } => false,
        _ => true,
    } by {}
}

/// A button counts as held from the press the browser is told of to the release
/// it is told of: no other event changes what it holds.
pub proof fn held_means_told_pressed(
    p: &mut PointerState,
    seat: &mut SeatShared,
    keys: Mods,
    menu: bool,
    event: PointerEvent,
    effects: &mut Vec<InputEffect>,
    r: bool,
)
    requires
        call_ensures(PointerState::pointer_event, (p, seat, keys, menu, event, effects), r),
    ensures
        ({
            let n = old(effects)@.len() as int;
            let e = final(effects)@;
            let (was, is) = (old(p).buttons, final(p).buttons);
            &&& forall|i: int|
                #![trigger e[i]]
                n <= i < e.len() ==> (e[i] matches InputEffect::MouseButton { button, pressed, .. }
                    ==> {
                    &&& button == 0x110 ==> is.left == pressed
                    &&& button == 0x111 ==> is.right == pressed
                    &&& button == 0x112 ==> is.middle == pressed
                })
            &&& is.left != was.left ==> exists|i: int|
                #![trigger e[i]]
                n <= i < e.len() && (e[i] matches InputEffect::MouseButton { button, pressed, .. }
                    && button == 0x110 && pressed == is.left)
            &&& is.right != was.right ==> exists|i: int|
                #![trigger e[i]]
                n <= i < e.len() && (e[i] matches InputEffect::MouseButton { button, pressed, .. }
                    && button == 0x111 && pressed == is.right)
            &&& is.middle != was.middle ==> exists|i: int|
                #![trigger e[i]]
                n <= i < e.len() && (e[i] matches InputEffect::MouseButton { button, pressed, .. }
                    && button == 0x112 && pressed == is.middle)
        }),
{
    let n = old(effects)@.len() as int;
    let e = final(effects)@;
    let tail = old(p).pointed(keys, menu, event).effects;
    assert forall|i: int| n <= i < e.len() implies #[trigger] e[i] == tail[i - n] by {}
    if tail.len() > 0 {
        assert(e[n] == tail[0]);
    }
    if tail.len() > 1 {
        assert(e[n + 1] == tail[1]);
    }
}

/// Dragging is told as dragging: after a press the browser was told of, whatever
/// happens that is not of that button, every move it is told of carries the
/// button's flag.
pub proof fn drag_is_told_as_a_drag(
    p: &mut PointerState,
    seat: &mut SeatShared,
    keys: Mods,
    button: u32,
    serial: u32,
    effects: &mut Vec<InputEffect>,
    r: bool,
    between: Seq<PointerStep>,
    q: &mut PointerState,
    seat2: &mut SeatShared,
    keys2: Mods,
    menu2: bool,
    event2: PointerEvent,
    effects2: &mut Vec<InputEffect>,
    r2: bool,
    b: MouseButton,
)
    requires
        call_ensures(
            PointerState::pointer_event,
            (p, seat, keys, false, PointerEvent::Press { button, serial }, effects),
            r,
        ),
        button == match b {
            MouseButton::Left => 0x110u32,
            MouseButton::Right => 0x111u32,
            MouseButton::Middle => 0x112u32,
        },
        forall|i: int| 0 <= i < between.len() ==> !(#[trigger] between[i]).is_of(b),
        *old(q) == final(p).ran(between),
        event2 is Motion || event2 is Enter || event2 is Leave,
        call_ensures(
            PointerState::pointer_event,
            (q, seat2, keys2, menu2, event2, effects2),
            r2,
        ),
    ensures
        forall|i: int|
            #![trigger final(effects2)@[i]]
            old(effects2)@.len() <= i < final(effects2)@.len()
                ==> (final(effects2)@[i] matches InputEffect::MouseMove { mods, .. } ==> match b {
                MouseButton::Left => mods as int / 16 % 2 == 1,
                MouseButton::Middle => mods as int / 32 % 2 == 1,
                MouseButton::Right => mods as int / 64 % 2 == 1,
            }),
{
    others_leave_a_button_alone(*final(p), between, b);
    told_flags_are_what_is_held(q, seat2, keys2, menu2, event2, effects2, r2);
    let e = final(effects2)@;
    assert(final(q).buttons == old(q).buttons);
    assert(final(q).buttons.holds(b));
    assert forall|i: int|
        #![trigger final(effects2)@[i]]
        old(effects2)@.len() <= i < e.len() implies (e[i] matches InputEffect::MouseMove {
        mods,
        ..
    } ==> carries(mods, keys2, final(q).buttons)) by {}
}

/// A move is told where it happened, in whole pixels, unless a menu takes it: an
/// open menu gets the moves over it and the browser gets none. Entering the main
/// surface tells the move after setting the cursor; entering the menu tells the
/// menu; leaving is told as a move that leaves.
pub proof fn moves_are_told_where_they_happen(
    p: &mut PointerState,
    seat: &mut SeatShared,
    keys: Mods,
    menu: bool,
    event: PointerEvent,
    effects: &mut Vec<InputEffect>,
    r: bool,
)
    requires
        call_ensures(PointerState::pointer_event, (p, seat, keys, menu, event, effects), r),
    ensures
        ({
            let n = old(effects)@.len() as int;
            let e = final(effects)@;
            &&& event matches PointerEvent::Motion { at } ==> {
                &&& final(p).at == at
                &&& !old(p).menu_focus ==> final(p).main_at == at
                &&& old(p).menu_focus ==> final(p).main_at == old(p).main_at
                &&& !menu ==> {
                    &&& e.len() == n + 1
                    &&& e[n] matches InputEffect::MouseMove { x, y, leave, .. }
                    &&& pixel_of(x, at.x) && pixel_of(y, at.y) && !leave
                }
                &&& menu && old(p).menu_focus ==> e.len() == n + 1 && e[n]
                    == InputEffect::MenuMotion(at)
                &&& menu && !old(p).menu_focus ==> e.len() == n
            }
            &&& event matches PointerEvent::Enter { serial, at, over_menu } ==> {
                &&& final(p).at == at && final(p).serial == serial
                &&& final(p).menu_focus == over_menu
                &&& over_menu ==> e.len() == n + 1 && e[n] == InputEffect::MenuMotion(at)
                    && final(p).main_at == old(p).main_at
                &&& !over_menu ==> {
                    &&& final(p).main_at == at
                    &&& e.len() == n + 2 && e[n] is ApplyCursor
                    &&& e[n + 1] matches InputEffect::MouseMove { x, y, leave, .. }
                    &&& pixel_of(x, at.x) && pixel_of(y, at.y) && !leave
                }
            }
            &&& event is Leave ==> {
                &&& final(p).at == old(p).at && final(p).main_at == old(p).main_at
                &&& !final(p).menu_focus
                &&& old(p).menu_focus ==> e.len() == n
                &&& !old(p).menu_focus ==> {
                    &&& e.len() == n + 1
                    &&& e[n] matches InputEffect::MouseMove { x, y, leave, .. }
                    &&& pixel_of(x, old(p).at.x) && pixel_of(y, old(p).at.y) && leave
                }
            }
        }),
{
    whole_is_the_pixel(final(p).at.x);
    whole_is_the_pixel(final(p).at.y);
}

/// A click on the page is told where the pointer is, by its button's own code. A
/// left or right press first arms a menu there, citing its serial, and ends a
/// key repeat; its release drops what was armed.
pub proof fn click_on_the_page_is_told_in_place(
    p: &mut PointerState,
    seat: &mut SeatShared,
    keys: Mods,
    button: u32,
    serial: u32,
    pressed: bool,
    effects: &mut Vec<InputEffect>,
    r: bool,
)
    requires
        call_ensures(
            PointerState::pointer_event,
            (
                p,
                seat,
                keys,
                false,
                if pressed {
                    PointerEvent::Press { button, serial }
                } else {
                    PointerEvent::Release { button, serial }
                },
                effects,
            ),
            r,
        ),
        button == 0x110 || button == 0x111 || button == 0x112,
        !old(p).swallowed.left && !old(p).swallowed.right && !old(p).swallowed.middle,
    ensures
        ({
            let n = old(effects)@.len() as int;
            let e = final(effects)@;
            let arms = button == 0x110 || button == 0x111;
            let k = if arms && pressed {
                n + 1
            } else {
                n
            };
            &&& e[k] matches InputEffect::MouseButton { button: b, pressed: down, x, y, .. }
            &&& b == button && down == pressed
            &&& pixel_of(x, old(p).at.x) && pixel_of(y, old(p).at.y)
            &&& arms && pressed ==> {
                &&& e.len() == n + 2
                &&& e[n] matches InputEffect::MenuArm { x: mx, y: my, serial: s }
                &&& s == serial && pixel_of(mx, old(p).at.x) && pixel_of(my, old(p).at.y)
            }
            &&& arms && !pressed ==> e.len() == n + 2 && e[n + 1] is MenuDismissIfSpeculative
            &&& !arms ==> e.len() == n + 1
            &&& r <==> arms && pressed
            &&& final(p).at == old(p).at && final(p).swallowed == old(p).swallowed
        }),
{
    whole_is_the_pixel(old(p).at.x);
    whole_is_the_pixel(old(p).at.y);
}

/// While a menu is open the browser is told of no press, and of a release only
/// where it has seen the press: at the last place on the page. A press over the
/// menu goes to the menu, one beside it dismisses the menu; its release is told
/// nobody, even when the menu is gone.
pub proof fn menu_takes_the_clicks(
    p: &mut PointerState,
    seat: &mut SeatShared,
    keys: Mods,
    event: PointerEvent,
    effects: &mut Vec<InputEffect>,
    r: bool,
)
    requires
        call_ensures(PointerState::pointer_event, (p, seat, keys, true, event, effects), r),
    ensures
        ({
            let n = old(effects)@.len() as int;
            let e = final(effects)@;
            &&& event is Press ==> {
                &&& e.len() == n + 1
                &&& old(p).menu_focus ==> e[n] == InputEffect::MenuPress(old(p).at)
                &&& !old(p).menu_focus ==> e[n] is MenuDismiss
                &&& event->Press_button == 0x110 ==> final(p).swallowed.left
                &&& event->Press_button == 0x111 ==> final(p).swallowed.right
                &&& event->Press_button == 0x112 ==> final(p).swallowed.middle
                &&& final(p).buttons == old(p).buttons
            }
            &&& event is Release ==> {
                let b = event->Release_button;
                let seen = b == 0x110 && old(p).buttons.left || b == 0x111 && old(p).buttons.right
                    || b == 0x112 && old(p).buttons.middle;
                &&& seen ==> {
                    &&& e.len() == n + 1
                    &&& e[n] matches InputEffect::MouseButton { button, pressed, x, y, .. }
                    &&& button == b && !pressed
                    &&& pixel_of(x, old(p).main_at.x) && pixel_of(y, old(p).main_at.y)
                }
                &&& !seen ==> e.len() == n
            }
            &&& !r
        }),
{
    whole_is_the_pixel(old(p).main_at.x);
    whole_is_the_pixel(old(p).main_at.y);
}

/// The side buttons go through the history, on their press alone: the extra and
/// the forward button forwards, the other two backwards. Buttons without a
/// meaning are told nobody.
pub proof fn side_buttons_go_through_the_history(
    p: &mut PointerState,
    seat: &mut SeatShared,
    keys: Mods,
    button: u32,
    serial: u32,
    effects: &mut Vec<InputEffect>,
    r: bool,
)
    requires
        call_ensures(
            PointerState::pointer_event,
            (p, seat, keys, false, PointerEvent::Press { button, serial }, effects),
            r,
        ),
        button < 0x110 || button > 0x112,
    ensures
        ({
            let n = old(effects)@.len() as int;
            let e = final(effects)@;
            &&& button == 0x114 || button == 0x115 ==> e.len() == n + 1 && e[n] == (
            InputEffect::HistoryNav { forward: true })
            &&& button == 0x113 || button == 0x116 ==> e.len() == n + 1 && e[n] == (
            InputEffect::HistoryNav { forward: false })
            &&& button < 0x113 || button > 0x116 ==> e.len() == n
            &&& *final(p) == *old(p)
        }),
{
}

/// A press is what a later grab cites, for dragging and for a popup alike; no
/// other pointer event is.
pub proof fn press_serial_is_remembered(
    p: &mut PointerState,
    seat: &mut SeatShared,
    keys: Mods,
    menu: bool,
    event: PointerEvent,
    effects: &mut Vec<InputEffect>,
    r: bool,
)
    requires
        call_ensures(PointerState::pointer_event, (p, seat, keys, menu, event, effects), r),
    ensures
        event is Press ==> final(seat).last_button_serial == event->Press_serial
            && final(seat).last_input_serial == event->Press_serial,
        !(event is Press) ==> *final(seat) == *old(seat),
        final(seat).suppressed_focus_loss == old(seat).suppressed_focus_loss,
{
}

/// The wheel steps of a frame add up, axis by axis, and are told once at its
/// end, turned round: content moves against the wheel. Nothing is left for the
/// next frame.
pub proof fn wheel_steps_add_up_and_are_told_once(
    p: &mut PointerState,
    seat: &mut SeatShared,
    keys: Mods,
    menu: bool,
    vx: i32,
    vy: i32,
    effects: &mut Vec<InputEffect>,
    r: bool,
    q: &mut PointerState,
    smooth_x: i32,
    smooth_y: i32,
    effects2: &mut Vec<InputEffect>,
    wheel: bool,
)
    requires
        call_ensures(
            PointerState::pointer_event,
            (
                p,
                seat,
                keys,
                menu,
                PointerEvent::Axis { value120_x: vx, value120_y: vy },
                effects,
            ),
            r,
        ),
        *old(q) == *final(p),
        -0x4000_0000 < old(p).v120_x < 0x4000_0000,
        -0x4000_0000 < old(p).v120_y < 0x4000_0000,
        -0x4000_0000 < vx < 0x4000_0000,
        -0x4000_0000 < vy < 0x4000_0000,
        call_ensures(
            PointerState::flush_scroll,
            (q, keys, menu, smooth_x, smooth_y, effects2),
            wheel,
        ),
    ensures
        final(effects)@ == old(effects)@,
        ({
            let n = old(effects2)@.len() as int;
            let e = final(effects2)@;
            let sum_x = old(p).v120_x + vx;
            let sum_y = old(p).v120_y + vy;
            let wheeled = old(p).have_v120 || vx != 0 || vy != 0;
            let dx = if wheeled {
                -sum_x
            } else {
                smooth_x as int
            };
            let dy = if wheeled {
                -sum_y
            } else {
                smooth_y as int
            };
            &&& wheel == wheeled
            &&& dx == 0 && dy == 0 ==> e.len() == n
            &&& (dx != 0 || dy != 0) && !menu ==> {
                &&& e.len() == n + 1
                &&& e[n] matches InputEffect::Scroll { x, y, dx: tx, dy: ty, mods }
                &&& tx == dx && ty == dy
                &&& pixel_of(x, old(p).at.x) && pixel_of(y, old(p).at.y)
                &&& carries(mods, keys, old(p).buttons)
            }
            &&& (dx != 0 || dy != 0) && menu && old(p).menu_focus ==> e.len() == n + 1 && (
            e[n] matches InputEffect::MenuScroll(d) && d == dy)
            &&& menu && !old(p).menu_focus ==> e.len() == n
            &&& final(q).v120_x == 0 && final(q).v120_y == 0 && !final(q).have_v120
            &&& final(q).buttons == old(p).buttons && final(q).at == old(p).at
        }),
{
    cef_mods_carry(*old(q), keys);
    whole_is_the_pixel(old(p).at.x);
    whole_is_the_pixel(old(p).at.y);
}

/// The kernel's three main buttons are the browser's.
pub proof fn kernel_buttons_are_named(code: u32, r: Option<MouseButton>)
    requires
        call_ensures(mouse_button, (code,), r),
    ensures
        r == Some(MouseButton::Left) <==> code == 0x110,
        r == Some(MouseButton::Right) <==> code == 0x111,
        r == Some(MouseButton::Middle) <==> code == 0x112,
{
}

/// Putting a button into a set, or taking it out, changes that button alone, and
/// the flags of the set are those of its buttons.
pub proof fn button_set_is_its_buttons(s: &mut Buttons, b: MouseButton, on: bool, r: (), flags: u32)
    requires
        call_ensures(Buttons::put, (s, b, on), r),
        call_ensures(Buttons::flags, (*final(s),), flags),
    ensures
        b == MouseButton::Left ==> final(s).left == on && final(s).right == old(s).right
            && final(s).middle == old(s).middle,
        b == MouseButton::Right ==> final(s).right == on && final(s).left == old(s).left
            && final(s).middle == old(s).middle,
        b == MouseButton::Middle ==> final(s).middle == on && final(s).left == old(s).left
            && final(s).right == old(s).right,
        flags as int % 16 == 0 && flags < 128,
        flags as int / 16 % 2 == 1 <==> final(s).left,
        flags as int / 32 % 2 == 1 <==> final(s).middle,
        flags as int / 64 % 2 == 1 <==> final(s).right,
{
}

/// Each modifier has its own flag.
pub proof fn modifiers_have_their_flags(m: Mods, flags: u32)
    requires
        call_ensures(Mods::flags, (m,), flags),
    ensures
        flags_keys(flags, m),
        flags < 16,
{
}

/// A cursor is set only where the pointer is on a surface; a hidden one is
/// hidden, any other shown.
pub proof fn cursor_needs_an_entered_pointer(
    p: PointerState,
    shape: CursorShape,
    has_pointer: bool,
    r: CursorChoice,
    icon: CursorIcon,
)
    requires
        call_ensures(PointerState::apply_cursor, (&p, shape, has_pointer), r),
        call_ensures(cef_to_cursor_icon, (shape,), icon),
    ensures
        r is Leave <==> !has_pointer || p.serial == 0,
        r is Hide <==> has_pointer && p.serial != 0 && shape == CursorShape::Hidden,
        r is Show ==> r->Show_0 == icon,
{
}

/// Each themed cursor stands for the shape of its kind: directions keep their
/// direction, and the three ways of panning share one.
pub proof fn cursors_keep_their_meaning(shape: CursorShape, r: CursorIcon)
    requires
        call_ensures(cef_to_cursor_icon, (shape,), r),
    ensures
        r == CursorIcon::Crosshair <==> shape == CursorShape::Cross,
        r == CursorIcon::Pointer <==> shape == CursorShape::Hand,
        r == CursorIcon::Text <==> shape == CursorShape::IBeam,
        r == CursorIcon::Wait <==> shape == CursorShape::Wait,
        r == CursorIcon::Help <==> shape == CursorShape::Help,
        r == CursorIcon::EResize <==> shape == CursorShape::EastResize,
        r == CursorIcon::NResize <==> shape == CursorShape::NorthResize,
        r == CursorIcon::NeResize <==> shape == CursorShape::NorthEastResize,
        r == CursorIcon::NwResize <==> shape == CursorShape::NorthWestResize,
        r == CursorIcon::SResize <==> shape == CursorShape::SouthResize,
        r == CursorIcon::SeResize <==> shape == CursorShape::SouthEastResize,
        r == CursorIcon::SwResize <==> shape == CursorShape::SouthWestResize,
        r == CursorIcon::WResize <==> shape == CursorShape::WestResize,
        r == CursorIcon::NsResize <==> shape == CursorShape::NorthSouthResize,
        r == CursorIcon::EwResize <==> shape == CursorShape::EastWestResize,
        r == CursorIcon::NeswResize <==> shape == CursorShape::NorthEastSouthWestResize,
        r == CursorIcon::NwseResize <==> shape == CursorShape::NorthWestSouthEastResize,
        r == CursorIcon::ColResize <==> shape == CursorShape::ColumnResize,
        r == CursorIcon::RowResize <==> shape == CursorShape::RowResize,
        r == CursorIcon::Move <==> shape == CursorShape::Move,
        r == CursorIcon::VerticalText <==> shape == CursorShape::VerticalText,
        r == CursorIcon::Cell <==> shape == CursorShape::Cell,
        r == CursorIcon::ContextMenu <==> shape == CursorShape::ContextMenu,
        r == CursorIcon::Alias <==> shape == CursorShape::Alias,
        r == CursorIcon::Progress <==> shape == CursorShape::Progress,
        r == CursorIcon::NoDrop <==> shape == CursorShape::NoDrop,
        r == CursorIcon::Copy <==> shape == CursorShape::Copy,
        r == CursorIcon::NotAllowed <==> shape == CursorShape::NotAllowed,
        r == CursorIcon::ZoomIn <==> shape == CursorShape::ZoomIn,
        r == CursorIcon::ZoomOut <==> shape == CursorShape::ZoomOut,
        r == CursorIcon::Grab <==> shape == CursorShape::Grab,
        r == CursorIcon::Grabbing <==> shape == CursorShape::Grabbing,
        r == CursorIcon::AllScroll <==> shape == CursorShape::MiddlePanning || shape
            == CursorShape::MiddlePanningVertical || shape == CursorShape::MiddlePanningHorizontal,
{
}

/// From `from` on a key press is told: the key, then each character it types, in
/// order, all with the modifiers that are down.
pub open spec fn press_told(e: Seq<InputEffect>, from: int, key: KeyEvent, keys: Mods) -> bool {
    &&& from + 1 + key.text@.len() <= e.len()
    &&& e[from] matches InputEffect::Key { keysym, native_code, mods, pressed }
    &&& keysym == key.keysym && native_code == key.raw_code && pressed
    &&& flags_keys(mods, keys) && mods < 16
    &&& forall|i: int|
        #![trigger e[from + 1 + i]]
        0 <= i < key.text@.len() ==> {
            &&& e[from + 1 + i] matches InputEffect::Char { codepoint, mods: m, native_code: c }
            &&& codepoint == key.text@[i] as u32 && c == key.raw_code && m == mods
        }
}

/// A key press goes to the menu while one is open. Else it is told the browser,
/// after arming a menu at the pointer where it is a context-menu key; a repeating
/// key then arms its timer, unless the compositor repeats by itself.
pub proof fn key_press_is_told_and_repeats(
    k: &mut KeyboardState,
    seat: &mut SeatShared,
    at: Point,
    menu: bool,
    serial: u32,
    version: u32,
    repeats: bool,
    key: KeyEvent,
    effects: &mut Vec<InputEffect>,
    r: (),
)
    requires
        call_ensures(
            KeyboardState::press_key,
            (k, seat, at, menu, serial, version, repeats, key, effects),
            r,
        ),
    ensures
        final(seat).last_input_serial == serial,
        final(seat).last_button_serial == old(seat).last_button_serial,
        final(k).mods == old(k).mods,
        ({
            let n = old(effects)@.len() as int;
            let e = final(effects)@;
            let opens = key.keysym == 0xff67 || key.keysym == 0xffc7 && old(k).mods.shift;
            let told = n + if opens {
                1int
            } else {
                0
            };
            let timed = version < 10 && repeats && old(k).repeat_rate > 0;
            &&& menu ==> e.len() == n + 1 && e[n] == InputEffect::MenuKey(key.keysym) && *final(k)
                == *old(k)
            &&& !menu ==> {
                &&& press_told(e, told, key, old(k).mods)
                &&& opens ==> {
                    &&& e[n] matches InputEffect::MenuArm { x, y, serial: s }
                    &&& s == serial && pixel_of(x, at.x) && pixel_of(y, at.y)
                }
                &&& e.len() == told + 1 + key.text@.len() + if timed {
                    1int
                } else {
                    0
                }
                &&& timed ==> {
                    &&& final(k).repeat_key == Some(key)
                    &&& e[e.len() - 1] matches InputEffect::StartRepeat {
                        generation,
                        delay_ms,
                        period_ms,
                    }
                    &&& generation == final(k).repeat_generation
                    &&& delay_ms >= 1 && (delay_ms == old(k).repeat_delay || old(k).repeat_delay
                        < 1)
                    &&& period_ms >= 1 && (period_ms * old(k).repeat_rate <= 1000 || period_ms == 1)
                    &&& (period_ms + 1) * old(k).repeat_rate > 1000
                }
                &&& !timed && version < 10 && repeats ==> final(k).repeat_key is None
                &&& (version >= 10 || !repeats) && !opens ==> *final(k) == *old(k)
                &&& opens ==> final(k).repeat_generation != old(k).repeat_generation || timed
            }
        }),
{
    whole_is_the_pixel(at.x);
    whole_is_the_pixel(at.y);
    if !menu {
        let n = old(effects)@.len() as int;
        let e = final(effects)@;
        let tail = old(k).key_pressed(at, serial, version < 10 && repeats, key).1;
        assert forall|i: int| n <= i < e.len() implies #[trigger] e[i] == tail[i - n] by {}
        let rate = old(k).repeat_rate as int;
        if rate > 0 {
            let q = 1000int / rate;
            assert(q * rate <= 1000 < (q + 1) * rate && q >= 0) by (nonlinear_arith)
                requires
                    q == 1000int / rate,
                    rate > 0,
            ;
            if q == 0 {
                assert(2 * rate > 1000);
            }
        }
    }
}

/// A release is told the browser unless a menu is open, and ends the repeat of
/// that key and of no other.
pub proof fn key_release_ends_its_repeat(
    k: &mut KeyboardState,
    menu: bool,
    key: KeyEvent,
    effects: &mut Vec<InputEffect>,
    r: (),
)
    requires
        call_ensures(KeyboardState::release_key, (k, menu, &key, effects), r),
    ensures
        ({
            let n = old(effects)@.len() as int;
            let e = final(effects)@;
            &&& menu ==> e.len() == n
            &&& !menu ==> {
                &&& e.len() == n + 1
                &&& e[n] matches InputEffect::Key { keysym, native_code, mods, pressed }
                &&& keysym == key.keysym && native_code == key.raw_code && !pressed
                &&& flags_keys(mods, old(k).mods)
            }
            &&& (old(k).repeat_key matches Some(a) && a.raw_code == key.raw_code)
                ==> final(k).repeat_key is None && final(k).repeat_generation != old(k).repeat_generation
            &&& !(old(k).repeat_key matches Some(a) && a.raw_code == key.raw_code) ==> *final(k)
                == *old(k)
        }),
{
}

/// A repeat timer repeats the key it was armed for, with the modifiers that are
/// down now, for as long as it is the current one and no menu is open.
pub proof fn repeat_repeats_its_key(
    k: &mut KeyboardState,
    generation: u64,
    menu: bool,
    effects: &mut Vec<InputEffect>,
    again: bool,
)
    requires
        call_ensures(KeyboardState::repeat_tick, (k, generation, menu, effects), again),
    ensures
        ({
            let n = old(effects)@.len() as int;
            let e = final(effects)@;
            let current = generation == old(k).repeat_generation;
            &&& !current ==> !again && e.len() == n && *final(k) == *old(k)
            &&& current && old(k).repeat_key is Some && menu ==> !again && e.len() == n
                && final(k).repeat_key is None
            &&& current && old(k).repeat_key is Some && !menu ==> {
                &&& again && *final(k) == *old(k)
                &&& press_told(e, n, old(k).repeat_key->Some_0, old(k).mods)
                &&& e.len() == n + 1 + old(k).repeat_key->Some_0.text@.len()
            }
        }),
{
    if let Some(key) = old(k).repeat_key {
        let n = old(effects)@.len() as int;
        let tail = crate::wayland::input::key_told(key, old(k).mods, true);
        assert forall|i: int| n <= i < n + tail.len() && final(effects)@.len() == n + tail.len()
            && final(effects)@ == old(effects)@ + tail implies #[trigger] final(effects)@[i]
            == tail[i - n] by {}
    }
}

/// A key the compositor repeats goes where a press goes.
pub proof fn compositor_repeat_is_a_press(
    k: KeyboardState,
    menu: bool,
    key: KeyEvent,
    effects: &mut Vec<InputEffect>,
    r: (),
)
    requires
        call_ensures(KeyboardState::repeat_key, (&k, menu, &key, effects), r),
    ensures
        ({
            let n = old(effects)@.len() as int;
            let e = final(effects)@;
            &&& menu ==> e.len() == n + 1 && e[n] == InputEffect::MenuKey(key.keysym)
            &&& !menu ==> press_told(e, n, key, k.mods) && e.len() == n + 1 + key.text@.len()
        }),
{
    let n = old(effects)@.len() as int;
    let tail = crate::wayland::input::key_told(key, k.mods, true);
    if !menu {
        assert forall|i: int| n <= i < final(effects)@.len() implies #[trigger] final(effects)@[i]
            == tail[i - n] by {}
    }
}

/// Focus is told where it comes and goes, but for the menu's own surface. A loss
/// while a menu is engaged is kept back, to be told later or dropped when focus
/// comes back; a loss that is told ends a repeat.
pub proof fn focus_is_told_but_for_the_menu(
    k: &mut KeyboardState,
    seat: &mut SeatShared,
    own: bool,
    engaged: bool,
    effects: &mut Vec<InputEffect>,
    r: (),
    k2: KeyboardState,
    seat2: &mut SeatShared,
    effects2: &mut Vec<InputEffect>,
)
    requires
        call_ensures(KeyboardState::leave, (k, seat, own, engaged, effects), r),
        call_ensures(KeyboardState::enter, (&k2, seat2, own, effects2), r),
    ensures
        ({
            let (n, n2) = (old(effects)@.len() as int, old(effects2)@.len() as int);
            let (e, e2) = (final(effects)@, final(effects2)@);
            &&& own ==> e.len() == n && e2.len() == n2 && *final(seat) == *old(seat)
                && *final(seat2) == *old(seat2)
            &&& !own ==> e2.len() == n2 + 1 && e2[n2] == InputEffect::KbFocus(true)
                && !final(seat2).suppressed_focus_loss
            &&& !own && engaged ==> e.len() == n && final(seat).suppressed_focus_loss
            &&& !own && !engaged ==> e.len() == n + 1 && e[n] == InputEffect::KbFocus(false)
                && final(k).repeat_key is None && final(seat).suppressed_focus_loss
                == old(seat).suppressed_focus_loss
            &&& own || engaged ==> *final(k) == *old(k)
            &&& final(seat).last_button_serial == old(seat).last_button_serial
        }),
{
}

/// A focus loss kept back is delivered exactly once.
pub proof fn kept_focus_loss_is_delivered_once(
    seat: &mut SeatShared,
    r: (),
    s2: &mut SeatShared,
    first: bool,
    s3: &mut SeatShared,
    second: bool,
)
    requires
        call_ensures(SeatShared::suppress_focus_loss, (seat,), r),
        *old(s2) == *final(seat),
        call_ensures(SeatShared::flush_suppressed_focus_loss, (s2,), first),
        *old(s3) == *final(s2),
        call_ensures(SeatShared::flush_suppressed_focus_loss, (s3,), second),
    ensures
        first && !second,
        final(s3).last_button_serial == old(seat).last_button_serial,
        final(s3).last_input_serial == old(seat).last_input_serial,
{
}

/// The compositor's repeat rate and delay are taken over as rate and delay; with
/// repeating off a repeat under way ends and none starts.
pub proof fn repeat_settings_are_taken_over(
    k: &mut KeyboardState,
    rate: u32,
    delay: u32,
    r: (),
    off: &mut KeyboardState,
)
    requires
        call_ensures(KeyboardState::update_repeat_info, (k, Some((rate, delay))), r),
        call_ensures(KeyboardState::update_repeat_info, (off, None::<(u32, u32)>), r),
    ensures
        rate <= 0x7fff_ffff ==> final(k).repeat_rate == rate,
        delay <= 0x7fff_ffff ==> final(k).repeat_delay == delay,
        rate > 0x7fff_ffff ==> final(k).repeat_rate < 0,
        final(k).repeat_key == old(k).repeat_key,
        final(off).repeat_rate == 0 && final(off).repeat_key is None,
        final(off).repeat_generation != old(off).repeat_generation,
{
}

/// The menu key, and F10 with shift, open the context menu.
pub proof fn context_menu_keys(sym: u32, keys: Mods, r: bool)
    requires
        call_ensures(is_context_menu_key, (sym, keys), r),
    ensures
        sym == 0xff67 ==> r,
        sym == 0xffc7 ==> (r <==> keys.shift),
        sym != 0xff67 && sym != 0xffc7 ==> !r,
{
}

/// A surface is the menu's by its id; id zero is no surface. It is the shown
/// menu's only while there is one.
pub proof fn menu_surface_is_known_by_its_id(menu_id: u32, id: u32, has: bool, a: bool, b: bool)
    requires
        call_ensures(is_menu_surface, (menu_id, id), a),
        call_ensures(surface_matches, (menu_id, id, has), b),
    ensures
        a <==> id == menu_id && id != 0,
        b <==> a && has,
{
}

/// A seat's first pointer and first keyboard are taken, no other; one that goes
/// is given back, and with it goes what only it could undo.
pub proof fn lost_device_is_given_back<P, K>(
    s: &mut SeatDevices<P, K>,
    c: Capability,
    p: &mut PointerState,
    k: &mut KeyboardState,
    lost: Option<LostDevice<P, K>>,
    take: bool,
)
    requires
        call_ensures(SeatDevices::<P, K>::new_capability, (&*old(s), c), take),
        call_ensures(SeatDevices::<P, K>::remove_capability, (s, c, p, k), lost),
    ensures
        take ==> lost is None,
        c is Pointer ==> {
            &&& take <==> old(s).pointer is None
            &&& old(s).pointer matches Some(x) ==> lost == Some(LostDevice::<P, K>::Pointer(x))
            &&& final(s).pointer is None && final(s).keyboard == old(s).keyboard
            &&& final(p).serial == 0 && final(p).buttons == old(p).buttons && *final(k) == *old(k)
        },
        c is Keyboard ==> {
            &&& take <==> old(s).keyboard is None
            &&& old(s).keyboard matches Some(x) ==> lost == Some(LostDevice::<P, K>::Keyboard(x))
            &&& final(s).keyboard is None && final(s).pointer == old(s).pointer
            &&& final(k).repeat_key is None && *final(p) == *old(p)
        },
        c is Other ==> !take && lost is None && *final(s) == *old(s),
{
}

/// A repeat that is ended, by a release or because its timer could not be had,
/// repeats nothing more, and the rest of the keyboard stays; new modifiers are
/// the ones from then on. A timer armed before the end is stale.
pub proof fn ended_repeat_stays_ended(
    a: &mut KeyboardState,
    b: &mut KeyboardState,
    c: &mut KeyboardState,
    mods: Mods,
    u: (),
    k: KeyboardState,
)
    requires
        call_ensures(KeyboardState::disarm_repeat, (a,), u),
        call_ensures(KeyboardState::repeat_timer_failed, (b,), u),
        call_ensures(KeyboardState::update_modifiers, (c, mods), u),
        call_ensures(KeyboardState::new, (), k),
    ensures
        final(a).repeat_key is None && final(a).repeat_generation != old(a).repeat_generation,
        final(a).repeat_rate == old(a).repeat_rate && final(a).repeat_delay == old(a).repeat_delay
            && final(a).mods == old(a).mods,
        final(b).repeat_key is None && final(b).mods == old(b).mods && final(b).repeat_generation
            == old(b).repeat_generation,
        final(c).mods == mods && final(c).repeat_key == old(c).repeat_key
            && final(c).repeat_generation == old(c).repeat_generation,
        k.repeat_key is None && k.repeat_rate == 0 && k.repeat_delay == 0 && !k.mods.shift
            && !k.mods.ctrl && !k.mods.alt,
{
}

/// A pointer that is lost has entered nothing; what it held stays known. A seat
/// starts without devices, serials or a held-back focus loss, and forgets one it
/// is told to. Devices are given back from version three on.
pub proof fn seat_starts_empty<P, K>(
    p: PointerState,
    a: &mut PointerState,
    u: (),
    s: SeatShared,
    b: &mut SeatShared,
    d: SeatDevices<P, K>,
    version: u32,
    released: bool,
    none: Buttons,
    which: MouseButton,
    held: bool,
    mods: Mods,
)
    requires
        call_ensures(PointerState::new, (), p),
        call_ensures(PointerState::remove_pointer, (a,), u),
        call_ensures(SeatShared::new, (), s),
        call_ensures(SeatShared::discard_suppressed_focus_loss, (b,), u),
        call_ensures(SeatDevices::<P, K>::new, (), d),
        call_ensures(device_is_released, (version,), released),
        call_ensures(Buttons::empty, (), none),
        call_ensures(Buttons::contains, (none, which), held),
        call_ensures(Mods::empty, (), mods),
    ensures
        p.serial == 0 && !p.buttons.left && !p.buttons.middle && !p.buttons.right
            && !p.swallowed.left && !p.menu_focus && !p.have_v120 && p.at.x == 0 && p.at.y == 0,
        final(a).serial == 0 && final(a).buttons == old(a).buttons && final(a).at == old(a).at
            && final(a).menu_focus == old(a).menu_focus && final(a).swallowed == old(a).swallowed,
        s.last_button_serial == 0 && s.last_input_serial == 0 && !s.suppressed_focus_loss,
        !final(b).suppressed_focus_loss && final(b).last_button_serial == old(b).last_button_serial
            && final(b).last_input_serial == old(b).last_input_serial,
        d.pointer is None && d.keyboard is None,
        released <==> version > 2,
        !held,
        !mods.shift && !mods.ctrl && !mods.alt,
{
}

} // verus!
