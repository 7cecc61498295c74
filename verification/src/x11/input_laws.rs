//! What the browser is told of keys, buttons and motion on X11, and which cursor
//! is shown.

use vstd::prelude::*;

use crate::input_types::Buttons;
use crate::input_types::CursorShape;
use crate::input_types::MouseButton;
use crate::x11::geometry::RootMessage;
use crate::x11::input::activate_parent;
use crate::x11::input::cursor_source;
use crate::x11::input::input_thread_step;
use crate::x11::input::mailbox_thread_step;
use crate::x11::input::set_cursor;
use crate::x11::input::CursorCache;
use crate::x11::input::CursorMailbox;
use crate::x11::input::CursorNeed;
use crate::x11::input::CursorSource;
use crate::x11::input::InputAsk;
use crate::x11::input::InputMailbox;
use crate::x11::input::InputState;
use crate::x11::input::QueuedInputEvent;
use crate::x11::input::ThreadStep;
use crate::x11::input::Waited;
use crate::x11::input::XInputEvent;
use crate::x11::x11_state::HostServices;

verus! {

/// The flags carry the modifiers, and the flag of each button that is held.
pub open spec fn carries(flags: u32, modifiers: u32, held: Buttons) -> bool {
    &&& flags & 0x10 != 0 <==> held.left || modifiers & 0x10 != 0
    &&& flags & 0x20 != 0 <==> held.middle || modifiers & 0x20 != 0
    &&& flags & 0x40 != 0 <==> held.right || modifiers & 0x40 != 0
    &&& flags & 0xffff_ff8f == modifiers & 0xffff_ff8f
}

proof fn flags_carry_bits(m: u32, l: bool, c: bool, r: bool)
    by (bit_vector)
    ensures
        ({
            let b = ((if l {
                16u32
            } else {
                0u32
            }) + (if c {
                32u32
            } else {
                0u32
            }) + (if r {
                64u32
            } else {
                0u32
            })) as u32;
            let f = m | b;
            &&& (f & 0x10 != 0) == (l || m & 0x10 != 0)
            &&& (f & 0x20 != 0) == (c || m & 0x20 != 0)
            &&& (f & 0x40 != 0) == (r || m & 0x40 != 0)
            &&& f & 0xffff_ff8f == m & 0xffff_ff8f
        }),
{
}

proof fn flags_carry(st: InputState)
    ensures
        carries(st.cef_mods(), st.modifiers, st.buttons),
{
    flags_carry_bits(st.modifiers, st.buttons.left, st.buttons.middle, st.buttons.right);
}

/// Every pointer event that is told carries the modifiers and exactly the buttons
/// that are held.
pub proof fn told_flags_are_what_is_held(
    s: &mut InputState,
    mailbox: &mut InputMailbox,
    cursor: &mut CursorMailbox,
    ev: XInputEvent,
    keymap: bool,
    ask: InputAsk,
)
    requires
        call_ensures(InputState::handle_event, (s, mailbox, cursor, ev, keymap), ask),
    ensures
        ({
            let n = old(mailbox).queue@.len() as int;
            let q = final(mailbox).queue@;
            &&& q.take(n) == old(mailbox).queue@
            &&& q.len() > n ==> final(mailbox).wake
            &&& forall|i: int|
                #![trigger q[i]]
                n <= i < q.len() ==> match q[i] {
                    QueuedInputEvent::MouseMove { modifiers, .. } => carries(
                        modifiers,
                        final(s).modifiers,
                        final(s).buttons,
                    ),
                    QueuedInputEvent::MouseButton { modifiers, .. } => carries(
                        modifiers,
                        final(s).modifiers,
                        final(s).buttons,
                    ),
                    QueuedInputEvent::Scroll { modifiers, .. } => carries(
                        modifiers,
                        final(s).modifiers,
                        final(s).buttons,
                    ),
                    _ => true,
                }
        }),
{
    let n = old(mailbox).queue@.len() as int;
    let q = final(mailbox).queue@;
    let tail = old(s).handled(ev, keymap).1;
    flags_carry(*final(s));
    assert(q.take(n) =~= old(mailbox).queue@);
    assert forall|i: int| n <= i < q.len() implies #[trigger] q[i] == tail[i - n] by {}
}

/// Moves are told where they happened; entering sets the cursor last asked for
/// again, and leaving is told as a move that leaves, from where the pointer was.
pub proof fn motion_is_told_in_place(
    s: &mut InputState,
    mailbox: &mut InputMailbox,
    cursor: &mut CursorMailbox,
    ev: XInputEvent,
    keymap: bool,
    ask: InputAsk,
)
    requires
        call_ensures(InputState::handle_event, (s, mailbox, cursor, ev, keymap), ask),
    ensures
        ({
            let n = old(mailbox).queue@.len() as int;
            let q = final(mailbox).queue@;
            let c = final(cursor).queue@;
            &&& ev matches XInputEvent::Motion { x, y } ==> {
                &&& q.len() == n + 1
                &&& q[n] matches QueuedInputEvent::MouseMove { x: tx, y: ty, leave, .. }
                &&& tx == x && ty == y && !leave
                &&& final(s).ptr_x == x && final(s).ptr_y == y && final(s).buttons
                    == old(s).buttons
                &&& c == old(cursor).queue@
            }
            &&& ev matches XInputEvent::Enter { x, y } ==> {
                &&& q.len() == n + 1
                &&& q[n] matches QueuedInputEvent::MouseMove { x: tx, y: ty, leave, .. }
                &&& tx == x && ty == y && !leave
                &&& final(s).ptr_x == x && final(s).ptr_y == y
                &&& c.len() == old(cursor).queue@.len() + 1 && c.last() == old(cursor).latest
                &&& final(cursor).wake
            }
            &&& ev is Leave ==> {
                &&& q.len() == n + 1
                &&& q[n] matches QueuedInputEvent::MouseMove { x: tx, y: ty, leave, .. }
                &&& tx == old(s).ptr_x && ty == old(s).ptr_y && leave
                &&& *final(s) == *old(s)
            }
            &&& final(cursor).latest == old(cursor).latest
        }),
{
}

/// The mouse's own three buttons are told by their kernel codes, where they
/// happened, and are held from press to release; a press brings the app's window
/// forward. Four buttons scroll one step, up, down, left or right; two walk the
/// history. Only presses of those count.
pub proof fn buttons_are_told_by_number(
    s: &mut InputState,
    mailbox: &mut InputMailbox,
    cursor: &mut CursorMailbox,
    button: u8,
    pressed: bool,
    x: i32,
    y: i32,
    keymap: bool,
    ask: InputAsk,
)
    requires
        call_ensures(
            InputState::handle_event,
            (s, mailbox, cursor, XInputEvent::Button { button, pressed, x, y }, keymap),
            ask,
        ),
    ensures
        ({
            let n = old(mailbox).queue@.len() as int;
            let q = final(mailbox).queue@;
            let own = button == 1 || button == 2 || button == 3;
            &&& own ==> {
                &&& q.len() == n + 1
                &&& q[n] matches QueuedInputEvent::MouseButton { code, pressed: p, x: tx, y: ty, .. }
                &&& p == pressed && tx == x && ty == y
                &&& button == 1 ==> code == 0x110 && final(s).buttons.left == pressed
                &&& button == 2 ==> code == 0x112 && final(s).buttons.middle == pressed
                &&& button == 3 ==> code == 0x111 && final(s).buttons.right == pressed
                &&& button != 1 ==> final(s).buttons.left == old(s).buttons.left
                &&& button != 2 ==> final(s).buttons.middle == old(s).buttons.middle
                &&& button != 3 ==> final(s).buttons.right == old(s).buttons.right
            }
            &&& ask is Activate <==> own && pressed
            &&& 4 <= button <= 7 && pressed ==> {
                &&& q.len() == n + 1
                &&& q[n] matches QueuedInputEvent::Scroll { x: tx, y: ty, dx, dy, .. }
                &&& tx == x && ty == y
                &&& button == 4 ==> dx == 0 && dy == 120
                &&& button == 5 ==> dx == 0 && dy == -120
                &&& button == 6 ==> dx == 120 && dy == 0
                &&& button == 7 ==> dx == -120 && dy == 0
            }
            &&& button == 8 && pressed ==> q.len() == n + 1 && q[n] == (
            QueuedInputEvent::HistoryNav { forward: false })
            &&& button == 9 && pressed ==> q.len() == n + 1 && q[n] == (
            QueuedInputEvent::HistoryNav { forward: true })
            &&& button >= 4 && !pressed ==> q.len() == n
            &&& button == 0 || button > 9 ==> q.len() == n
            &&& !own ==> *final(s) == *old(s)
            &&& final(s).modifiers == old(s).modifiers
        }),
{
}

/// Keys are told raw, by symbol and kernel code, with the modifiers from before
/// them, and a press that types something is followed by its character. The two
/// history keys walk the history instead. Without a keymap nothing is told.
pub proof fn keys_are_told_with_what_they_type(
    s: &mut InputState,
    mailbox: &mut InputMailbox,
    cursor: &mut CursorMailbox,
    detail: u8,
    pressed: bool,
    sym: u32,
    cp: u32,
    after: u32,
    keymap: bool,
    ask: InputAsk,
)
    requires
        call_ensures(
            InputState::handle_event,
            (
                s,
                mailbox,
                cursor,
                XInputEvent::Key { detail, pressed, sym, cp, modifiers_after: after },
                keymap,
            ),
            ask,
        ),
    ensures
        ({
            let n = old(mailbox).queue@.len() as int;
            let q = final(mailbox).queue@;
            let back = sym == 0x1008ff26;
            let forward = sym == 0x1008ff27;
            &&& !keymap ==> q.len() == n && *final(s) == *old(s)
            &&& keymap && !back && !forward ==> {
                &&& q.len() == n + if pressed && cp > 0 {
                    2int
                } else {
                    1
                }
                &&& q[n] matches QueuedInputEvent::KeyRaw { sym: ts, native, modifiers, pressed: p }
                &&& ts == sym && p == pressed && modifiers == old(s).modifiers
                &&& detail >= 8 ==> native + 8 == detail
                &&& final(s).modifiers == after
                &&& pressed && cp > 0 ==> {
                    &&& q[n + 1] matches QueuedInputEvent::Char { cp: tc, modifiers: m2, native: n2 }
                    &&& tc == cp && m2 == old(s).modifiers && n2 == native
                }
            }
            &&& keymap && (back || forward) ==> *final(s) == *old(s) && (if pressed {
                q.len() == n + 1 && q[n] == (QueuedInputEvent::HistoryNav { forward })
            } else {
                q.len() == n
            })
            &&& ask is Nothing
            &&& final(s).buttons == old(s).buttons && final(s).ptr_x == old(s).ptr_x
        }),
{
    let n = old(mailbox).queue@.len() as int;
    let q = final(mailbox).queue@;
    let tail = old(s).handled(
        XInputEvent::Key { detail, pressed, sym, cp, modifiers_after: after },
        keymap,
    ).1;
    assert forall|i: int| n <= i < q.len() implies #[trigger] q[i] == tail[i - n] by {}
}

/// Modifiers that change are taken over where there is a keymap, and a changed
/// keymap is read anew.
pub proof fn keyboard_changes_are_taken_over(
    s: &mut InputState,
    mailbox: &mut InputMailbox,
    cursor: &mut CursorMailbox,
    m: u32,
    keymap: bool,
    ask: InputAsk,
    s2: &mut InputState,
    mailbox2: &mut InputMailbox,
    cursor2: &mut CursorMailbox,
    ask2: InputAsk,
)
    requires
        call_ensures(
            InputState::handle_event,
            (s, mailbox, cursor, XInputEvent::Modifiers(m), keymap),
            ask,
        ),
        call_ensures(
            InputState::handle_event,
            (s2, mailbox2, cursor2, XInputEvent::KeymapChanged, keymap),
            ask2,
        ),
    ensures
        keymap ==> final(s).modifiers == m,
        !keymap ==> *final(s) == *old(s),
        final(mailbox).queue@ == old(mailbox).queue@ && ask is Nothing,
        ask2 is ReloadKeymap && *final(s2) == *old(s2),
        final(s).buttons == old(s).buttons,
{
}

/// Events and cursor shapes are taken in the order they were put in, all of them
/// and once; putting one in wakes the thread, and so does the end.
pub proof fn mailboxes_keep_order(
    m: &mut InputMailbox,
    ev: QueuedInputEvent,
    u: (),
    m2: &mut InputMailbox,
    r: Vec<QueuedInputEvent>,
    c: &mut CursorMailbox,
    shape: CursorShape,
    c2: &mut CursorMailbox,
    shapes: Vec<CursorShape>,
    e: &mut InputMailbox,
)
    requires
        call_ensures(InputMailbox::push, (m, ev), u),
        old(m2).queue@ == final(m).queue@,
        call_ensures(InputMailbox::drain, (m2,), r),
        call_ensures(set_cursor, (c, shape), u),
        old(c2).queue@ == final(c).queue@,
        call_ensures(CursorMailbox::drain, (c2,), shapes),
        call_ensures(InputMailbox::shutdown, (e,), u),
    ensures
        r@.len() == old(m).queue@.len() + 1 && r@.last() == ev && r@.drop_last()
            == old(m).queue@,
        final(m).wake && final(m2).queue@.len() == 0,
        shapes@.len() == old(c).queue@.len() + 1 && shapes@.last() == shape && shapes@.drop_last()
            == old(c).queue@,
        final(c).latest == shape && final(c).wake && final(c2).queue@.len() == 0,
        final(e).shutdown && final(e).wake && final(e).queue@ == old(e).queue@,
{
    assert(r@.drop_last() =~= old(m).queue@);
    assert(shapes@.drop_last() =~= old(c).queue@);
}

/// A cursor is made once per shape: what was made is shown from then on, and no
/// other shape's cursor is touched. The hidden one is made blank. Without a
/// window there is nothing to show it on.
pub proof fn cursor_is_made_once(
    c: &mut CursorCache,
    shape: CursorShape,
    made: Option<u32>,
    show: Option<u32>,
    overlays: Vec<u32>,
    again: CursorNeed,
    other: CursorShape,
    first: CursorNeed,
    source: CursorSource,
)
    requires
        old(c).cursor(shape) is None,
        call_ensures(CursorCache::apply_cursor, (&*old(c), shape, &overlays), first),
        call_ensures(CursorCache::cursor_made, (c, shape, made), show),
        call_ensures(CursorCache::apply_cursor, (&*final(c), shape, &overlays), again),
        call_ensures(cursor_source, (shape,), source),
        other != shape,
    ensures
        source is Blank <==> shape == CursorShape::Hidden,
        overlays@.len() == 0 ==> first is Nothing && again is Nothing,
        overlays@.len() > 0 ==> first == CursorNeed::Make(source),
        overlays@.len() > 0 && show is Some ==> again == CursorNeed::Have(show->Some_0),
        overlays@.len() > 0 && show is None ==> again == CursorNeed::Make(source),
        show is Some ==> show == made,
        made is Some && made != Some(0u32) ==> show == made,
        final(c).cursor(other) == old(c).cursor(other),
{
    let after = *final(c);
    assert(after.cursor(shape) == show);
}

/// A thread goes on after an interruption, stops where waiting fails or it is
/// told to, and else serves what there is.
pub proof fn threads_stop_when_told(
    waited: Waited,
    stop: bool,
    lost: bool,
    a: ThreadStep,
    b: ThreadStep,
)
    requires
        call_ensures(input_thread_step, (waited, stop, lost), a),
        call_ensures(mailbox_thread_step, (waited, lost, stop), b),
    ensures
        waited is Interrupted ==> a is Again && b is Again,
        waited is Failed ==> a is Stop && b is Stop,
        waited is Ready ==> (a is Stop <==> stop || lost) && (a is Serve <==> !stop && !lost),
        waited is Ready ==> (b is Stop <==> lost && stop) && (b is Serve <==> lost && !stop),
{
}

/// The window that is brought forward is the one that was pressed on, where there
/// is a root to ask and a way to ask it.
pub proof fn pressed_window_is_activated(host: Option<HostServices>, window: u32, r: Option<RootMessage>)
    requires
        call_ensures(activate_parent, (&host, window), r),
    ensures
        r is Some <==> host is Some && host->Some_0.root != 0
            && host->Some_0.atoms.net_active_window != 0,
        r matches Some(m) ==> m.root == host->Some_0.root && m.message.window == window
            && m.message.type_ == host->Some_0.atoms.net_active_window && m.message.data@[0] == 2,
{
}

} // verus!
