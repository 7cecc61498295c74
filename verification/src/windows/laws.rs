//! What holds of mpv's window, of the surfaces on it and of the media controls,
//! whatever is read, asked and told.

use vstd::prelude::*;

use crate::windows::backend::after_offer;
use crate::windows::backend::execution_state;
use crate::windows::backend::native_path;
use crate::windows::backend::opens_external_url;
use crate::windows::backend::theme_colorref;
use crate::windows::backend::ClipboardNext;
use crate::windows::backend::IdleInhibitLevel;
use crate::windows::backend::MenuDelivery;
use crate::windows::backend::MenuKind;
use crate::windows::backend::WindowsMpvHost;
use crate::windows::backend::WindowsPlatform;
use crate::windows::platform::style_is_fullscreen;
use crate::windows::platform::PlayerCall;
use crate::windows::platform::WinAction;
use crate::windows::platform::WinMessage;
use crate::windows::platform::WinState;
use crate::windows::render::entry_at;
use crate::windows::render::entry_at_is_first;
use crate::windows::render::restack_keeps_every_surface;
use crate::windows::render::restacked;
use crate::windows::render::sorted_out;
use crate::windows::render::Entry;
use crate::windows::render::Frame;
use crate::windows::render::Layer;
use crate::windows::render::Painted;
use crate::windows::render::Part;
use crate::windows::render::PresentOutcome;
use crate::windows::render::PresentPlan;
use crate::windows::render::Registry;
use crate::windows::sink::comma_at;
use crate::windows::sink::on_button_pressed;
use crate::windows::sink::payload_start;
use crate::windows::sink::seek_ms;
use crate::windows::sink::ControlButton;
use crate::windows::sink::MediaCommand;
use crate::windows::sink::MediaMetadata;
use crate::windows::sink::MediaType;
use crate::windows::sink::Phase;
use crate::windows::sink::SinkEffect;
use crate::windows::sink::SinkEvent;
use crate::windows::sink::SinkState;
use crate::windows::window::needs_seed;
use crate::windows::window::publish_deferred;
use crate::windows::window::published;
use crate::windows::window::reading_ok;
use crate::windows::window::sample;
use crate::windows::window::start_notifier;
use crate::windows::window::stop_notifier;
use crate::windows::window::NotifyNext;
use crate::windows::window::NotifyState;
use crate::windows::window::PhysicalSize;
use crate::windows::window::Reading;
use crate::windows::window::Rect;
use crate::windows::window::WindowSnapshot;

verus! {

/// A reading has a client area.
pub open spec fn has_client(r: Reading) -> bool {
    r.client.left < r.client.right && r.client.top < r.client.bottom
}

/// `b` is `a` moved by (dx, dy).
pub open spec fn moved(a: Rect, b: Rect, dx: int, dy: int) -> bool {
    &&& b.left == a.left + dx && b.right == a.right + dx
    &&& b.top == a.top + dy && b.bottom == a.bottom + dy
}

/// A window's position is its frame's offset from the working area, along each
/// axis: a frame moved by (dx, dy) is that much further, one whose working area
/// moves with it stays, and one at the working area's corner is at the origin.
pub proof fn position_is_the_offset_from_the_working_area(
    a: Reading,
    b: Reading,
    stored_a: &mut Option<WindowSnapshot>,
    stored_b: &mut Option<WindowSnapshot>,
    ra: Option<(PhysicalSize, bool)>,
    rb: Option<(PhysicalSize, bool)>,
    fa: Rect,
    fb: Rect,
    wa: Rect,
    wb: Rect,
    dx: int,
    dy: int,
)
    requires
        reading_ok(a) && reading_ok(b),
        has_client(a) && has_client(b),
        a.frame == Some(fa) && a.work == Some(wa),
        b.frame == Some(fb) && b.work == Some(wb),
        moved(fa, fb, dx, dy),
        call_ensures(sample, (stored_a, a), ra),
        call_ensures(sample, (stored_b, b), rb),
    ensures
        ({
            let pa = final(stored_a)->Some_0.position;
            let pb = final(stored_b)->Some_0.position;
            &&& *final(stored_a) is Some && *final(stored_b) is Some
            &&& pa is Some && pb is Some
            &&& wa == wb ==> pb->Some_0.x == pa->Some_0.x + dx && pb->Some_0.y == pa->Some_0.y + dy
            &&& moved(wa, wb, dx, dy) ==> pa == pb
            &&& fa.left == wa.left ==> pa->Some_0.x == 0
            &&& fa.top == wa.top ==> pa->Some_0.y == 0
            &&& pa->Some_0.x > 0 <==> fa.left > wa.left
            &&& pa->Some_0.y > 0 <==> fa.top > wa.top
        }),
{
}

/// The client size is what lies between the client's edges, its scale the dots
/// per inch that were read, and the two modes exclude each other. Without a
/// client area nothing that was known is lost.
pub proof fn sampled_window_is_what_was_read(
    stored: &mut Option<WindowSnapshot>,
    r: Reading,
    ret: Option<(PhysicalSize, bool)>,
)
    requires
        reading_ok(r),
        call_ensures(sample, (stored, r), ret),
    ensures
        ret is Some <==> has_client(r),
        !has_client(r) ==> *final(stored) == *old(stored),
        has_client(r) ==> {
            &&& *final(stored) matches Some(s)
            &&& s.extent matches Some(e)
            &&& r.client.left + e.size.w == r.client.right
            &&& r.client.top + e.size.h == r.client.bottom
            &&& ret->Some_0.0 == e.size
            &&& e.dpi > 0 && (r.dpi > 0 ==> e.dpi == r.dpi) && (r.dpi == 0 ==> e.dpi == 96)
            &&& s.fullscreen == r.fullscreen
            &&& !(s.maximized && s.fullscreen)
            &&& !r.fullscreen ==> s.maximized == r.zoomed
            &&& s.position is Some <==> r.frame is Some && r.work is Some
            &&& ret->Some_0.1 <==> !(*old(stored) matches Some(o) && o.extent == Some(e))
        },
{
}

/// The same window read again has not changed its extent.
pub proof fn same_reading_changes_nothing(
    stored: &mut Option<WindowSnapshot>,
    r: Reading,
    first: Option<(PhysicalSize, bool)>,
    again: &mut Option<WindowSnapshot>,
    second: Option<(PhysicalSize, bool)>,
)
    requires
        reading_ok(r),
        has_client(r),
        call_ensures(sample, (stored, r), first),
        *old(again) == *final(stored),
        call_ensures(sample, (again, r), second),
    ensures
        second is Some && !second->Some_0.1,
        *final(again) == *final(stored),
{
}

/// What is handed out is what is stored; while nothing is, the window has to be
/// read first.
pub proof fn stored_snapshot_is_handed_out(stored: Option<WindowSnapshot>, r: WindowSnapshot, seed: bool)
    requires
        call_ensures(published, (&stored,), r),
        call_ensures(needs_seed, (&stored,), seed),
    ensures
        seed <==> stored is None,
        !seed ==> stored == Some(r),
        seed ==> r.extent is None && r.position is None && !r.maximized && !r.fullscreen,
{
}

/// A deferred publishing stores the reading as a direct one does, and the next
/// wake-up of a running notifier tells everybody, once.
pub proof fn deferred_publishing_is_told_once(
    stored: &mut Option<WindowSnapshot>,
    notify: &mut NotifyState,
    r: Reading,
    ret: Option<PhysicalSize>,
    direct: &mut Option<WindowSnapshot>,
    dret: Option<(PhysicalSize, bool)>,
    n1: &mut NotifyState,
    first: NotifyNext,
    n2: &mut NotifyState,
    second: NotifyNext,
)
    requires
        reading_ok(r),
        call_ensures(publish_deferred, (stored, notify, r), ret),
        call_ensures(sample, (direct, r), dret),
        *old(direct) == *old(stored),
        *old(n1) == *final(notify),
        call_ensures(NotifyState::next, (n1,), first),
        *old(n2) == *final(n1),
        call_ensures(NotifyState::next, (n2,), second),
    ensures
        *final(stored) == *final(direct),
        ret is Some <==> has_client(r),
        ret is Some ==> ret->Some_0.w == r.client.right - r.client.left && ret->Some_0.h
            == r.client.bottom - r.client.top,
        ret is None ==> *final(notify) == *old(notify),
        ret is Some && !old(notify).stop ==> first == NotifyNext::Notify && second
            == NotifyNext::Sleep,
        old(notify).stop ==> first == NotifyNext::Stop,
{
}

/// A notifier is started once and stopped once.
pub proof fn notifier_runs_once<H>(
    thread: Option<H>,
    notify: &mut NotifyState,
    spawn: bool,
    t2: &mut Option<H>,
    n2: &mut NotifyState,
    stopped: Option<H>,
)
    requires
        call_ensures(start_notifier::<H>, (&thread, notify), spawn),
        call_ensures(stop_notifier::<H>, (t2, n2), stopped),
    ensures
        spawn <==> thread is None,
        spawn ==> !final(notify).dirty && !final(notify).stop,
        !spawn ==> *final(notify) == *old(notify),
        stopped == *old(t2) && *final(t2) is None,
        stopped is Some ==> final(n2).stop,
        stopped is None ==> *final(n2) == *old(n2),
        final(n2).dirty == old(n2).dirty,
{
}

/// Going fullscreen and back maximizes again exactly where the window was
/// maximized before. Each asks mpv for its own direction, and for nothing where
/// the window is there already.
pub proof fn fullscreen_and_back(
    s: &mut WinState,
    zoomed: bool,
    enter: Vec<PlayerCall>,
    t: &mut WinState,
    later: bool,
    leave: Vec<PlayerCall>,
    u: &mut WinState,
    on: bool,
    idle: Vec<PlayerCall>,
)
    requires
        old(s).hwnd != 0,
        call_ensures(WinState::win_set_fullscreen, (s, true, true, false, zoomed), enter),
        *old(t) == *final(s),
        call_ensures(WinState::win_set_fullscreen, (t, false, true, true, later), leave),
        call_ensures(WinState::win_set_fullscreen, (u, on, true, on, zoomed), idle),
    ensures
        enter@.len() == 2 && enter@[0] == PlayerCall::SetMinimized(false) && enter@[1]
            == PlayerCall::SetFullscreen(true),
        leave@.len() == (if zoomed {
            2int
        } else {
            1
        }) && leave@[0] == PlayerCall::SetFullscreen(false),
        zoomed ==> leave@[1] == PlayerCall::SetMaximized(true),
        !final(t).restore_maximized_on_unfullscreen,
        idle@.len() == 0 && *final(u) == *old(u),
        final(t).hwnd == old(s).hwnd && final(t).was_minimized == old(s).was_minimized,
{
}

/// Toggling goes the other way, like asking for it, and does nothing without a
/// player or a window.
pub proof fn toggle_goes_the_other_way(
    s: &mut WinState,
    player: bool,
    is_fullscreen: bool,
    zoomed: bool,
    r: Vec<PlayerCall>,
    t: &mut WinState,
    q: Vec<PlayerCall>,
)
    requires
        *old(t) == *old(s),
        call_ensures(WinState::win_toggle_fullscreen, (s, player, is_fullscreen, zoomed), r),
        call_ensures(
            WinState::win_set_fullscreen,
            (t, !is_fullscreen, player, is_fullscreen, zoomed),
            q,
        ),
    ensures
        *final(s) == *final(t),
        r@.len() == q@.len(),
        !player || old(s).hwnd == 0 ==> r@.len() == 0 && *final(s) == *old(s),
        player && old(s).hwnd != 0 && !is_fullscreen ==> r@.len() == 2 && r@[0]
            == PlayerCall::SetMinimized(false) && r@[1] == PlayerCall::ToggleFullscreen,
        player && old(s).hwnd != 0 && is_fullscreen ==> r@[0] == PlayerCall::ToggleFullscreen && (
        r@.len() == 2 <==> old(s).restore_maximized_on_unfullscreen),
{
}

/// mpv's window messages mean what they say: minimizing hides once, restoring
/// publishes and shows once, a move is sampled, a new scale or style published,
/// and closing ends the app. Messages to other windows mean nothing.
pub proof fn messages_mean_what_they_say(
    s: &mut WinState,
    code: i32,
    window: u64,
    msg: WinMessage,
    r: Vec<WinAction>,
)
    requires
        call_ensures(WinState::mpv_wndproc_hook, (s, code, window, msg), r),
    ensures
        code < 0 || window != old(s).hwnd ==> r@.len() == 0 && *final(s) == *old(s),
        code >= 0 && window == old(s).hwnd ==> {
            &&& msg == (WinMessage::Size { minimized: true }) ==> {
                &&& final(s).was_minimized
                &&& old(s).was_minimized ==> r@.len() == 0
                &&& !old(s).was_minimized ==> r@.len() == 1 && r@[0] == WinAction::SetVisible(false)
            }
            &&& msg == (WinMessage::Size { minimized: false }) ==> {
                &&& !final(s).was_minimized
                &&& r@.len() >= 1 && r@[0] == WinAction::PublishAndResize
                &&& r@.len() == 2 <==> old(s).was_minimized
                &&& old(s).was_minimized ==> r@[1] == WinAction::SetVisible(true)
                &&& !old(s).was_minimized ==> r@.len() == 1
            }
            &&& msg is Move ==> r@.len() == 1 && r@[0] == WinAction::Sample
            &&& msg is DpiChanged || msg is StyleChanged ==> r@.len() == 1 && r@[0]
                == WinAction::Publish
            &&& msg is Close ==> r@.len() == 1 && r@[0] == WinAction::Shutdown
            &&& msg is Other ==> r@.len() == 0
            &&& !(msg is Size) ==> *final(s) == *old(s)
        },
        final(s).hwnd == old(s).hwnd && final(s).hook == old(s).hook,
{
}

/// The first window mpv reports is kept; zero is no window.
pub proof fn first_window_is_kept(s: &mut WinState, id: Option<u64>, r: Option<u64>, after: Option<u64>)
    requires
        call_ensures(WinState::win_ensure_hwnd, (s, id), r),
        call_ensures(WinState::win_hwnd, (&*final(s),), after),
    ensures
        after == r,
        old(s).hwnd != 0 ==> r == Some(old(s).hwnd),
        old(s).hwnd == 0 && id is Some && id->Some_0 != 0 ==> r == id,
        old(s).hwnd == 0 && (id is None || id == Some(0u64)) ==> r is None,
        final(s).hook == old(s).hook,
{
}

/// Setting up succeeds where the window is known, rendering has started and the
/// messages are hooked; taking down gives that hook back, once.
pub proof fn hook_is_given_back_once(
    s: &mut WinState,
    id: Option<u64>,
    rendering: bool,
    hook: Option<u64>,
    ok: bool,
    t: &mut WinState,
    gone: Option<u64>,
    u: &mut WinState,
    again: Option<u64>,
)
    requires
        call_ensures(WinState::win_init, (s, id, rendering, hook), ok),
        *old(t) == *final(s),
        call_ensures(WinState::win_cleanup, (t,), gone),
        *old(u) == *final(t),
        call_ensures(WinState::win_cleanup, (u,), again),
    ensures
        ok <==> final(s).hwnd != 0 && rendering && hook is Some,
        ok && hook->Some_0 != 0 ==> gone == hook,
        !ok && old(s).hook == 0 ==> gone is None,
        again is None,
        final(t).hwnd == 0,
        old(s).hwnd != 0 ==> final(s).hwnd == old(s).hwnd,
        old(s).hwnd == 0 && id is Some ==> final(s).hwnd == id->Some_0,
{
}

/// A window is fullscreen exactly where it has neither caption nor frame: none
/// of the three style bits is set.
pub proof fn fullscreen_has_no_frame(style: u32, r: bool)
    requires
        call_ensures(style_is_fullscreen, (style,), r),
    ensures
        r <==> style & 0x00C4_0000 == 0,
{
    assert((style & 0x00C0_0000 == 0 && style & 0x0004_0000 == 0) == (style & 0x00C4_0000 == 0))
        by (bit_vector);
}

/// The titlebar's color has the theme's red as its lowest byte, green in the
/// middle and blue above, and nothing else.
pub proof fn titlebar_color_is_turned_round(red: u32, green: u32, blue: u32, alpha: u32, r: u32)
    requires
        red < 256 && green < 256 && blue < 256 && alpha < 256,
        call_ensures(
            theme_colorref,
            ((alpha * 0x100_0000 + red * 0x1_0000 + green * 0x100 + blue) as u32,),
            r,
        ),
    ensures
        r == blue * 0x1_0000 + green * 0x100 + red,
{
    let c = alpha * 0x100_0000 + red * 0x1_0000 + green * 0x100 + blue;
    let x = alpha * 0x100 + red;
    let y = x * 0x100 + green;
    assert(c == y * 0x100 + blue);
    assert(c / 0x100 == y && c % 0x100 == blue);
    assert(c / 0x1_0000 == x) by {
        assert(c == x * 0x1_0000 + (green * 0x100 + blue));
        assert(0 <= green * 0x100 + blue < 0x1_0000);
    }
    assert(y % 0x100 == green && x % 0x100 == red);
}

/// Keeping the display on keeps the system on too, and either lasts until it is
/// taken back.
pub proof fn idle_levels_build_on_each_other(
    none: u32,
    system: u32,
    display: u32,
)
    requires
        call_ensures(execution_state, (IdleInhibitLevel::Nothing,), none),
        call_ensures(execution_state, (IdleInhibitLevel::System,), system),
        call_ensures(execution_state, (IdleInhibitLevel::Display,), display),
    ensures
        none == 0x8000_0000,
        system == none + 1,
        display == system + 2,
{
}

/// What a refused hand-off removed is put back, where there was anything.
pub proof fn refused_text_is_put_back(emptied: bool, offered: bool, had: bool, r: ClipboardNext)
    requires
        call_ensures(after_offer, (emptied, offered, had), r),
    ensures
        offered ==> r == ClipboardNext::Done,
        !emptied || !had ==> r == ClipboardNext::Done,
        emptied && had && !offered ==> r == ClipboardNext::RestorePrevious,
{
}

/// Slashes are turned to the native separator, every other character kept in its
/// place.
pub proof fn path_keeps_its_characters(path: Vec<char>, r: Vec<char>, i: int)
    requires
        call_ensures(native_path, (&path,), r),
        0 <= i < path@.len(),
    ensures
        r@.len() == path@.len(),
        path@[i] == '/' ==> r@[i] == '\\',
        path@[i] != '/' ==> r@[i] == path@[i],
        r@[i] != '/',
{
}

/// Context menus are native, dropdowns the page's.
pub proof fn dropdowns_stay_in_the_page(p: WindowsPlatform, kind: MenuKind, r: MenuDelivery)
    requires
        call_ensures(WindowsPlatform::menu_delivery, (&p, kind), r),
    ensures
        r == MenuDelivery::Host <==> kind == MenuKind::ContextMenu,
        r == MenuDelivery::Page <==> kind == MenuKind::Dropdown,
{
}

/// An empty address is not opened, any other is.
pub proof fn empty_address_is_not_opened(url: &str, r: bool)
    requires
        call_ensures(opens_external_url, (url,), r),
    ensures
        r <==> url@ != Seq::<char>::empty(),
{
    if url@.len() == 0 {
        assert(url@ =~= Seq::<char>::empty());
    }
}

/// The surface with this id is the one at `i`.
pub open spec fn stands_at(s: Seq<Entry>, id: u64, i: int) -> bool {
    0 <= i < s.len() && s[i].id == id
}

/// There is a surface with this id.
pub open spec fn lives(s: Seq<Entry>, id: u64) -> bool {
    exists|i: int| #![trigger s[i]] stands_at(s, id, i)
}

/// No surface has this id.
pub open spec fn unknown(s: Seq<Entry>, id: u64) -> bool {
    forall|i: int| 0 <= i < s.len() ==> (#[trigger] s[i]).id != id
}

/// All surfaces but the one at `i` are as they were, in the same places.
pub open spec fn others_same(a: Seq<Entry>, b: Seq<Entry>, i: int) -> bool {
    &&& a.len() == b.len()
    &&& forall|k: int| 0 <= k < a.len() && k != i ==> #[trigger] b[k] == a[k]
}

/// A new surface comes on top of all others, under an id none has had, with its
/// content shown and its popup not, and nothing painted. Without devices, or
/// where it could not be made, there is none and nothing changes.
pub proof fn new_surface_is_on_top(reg: &mut Registry, created: bool, id: u64)
    requires
        old(reg).wf(),
        old(reg).next_id < u64::MAX,
        call_ensures(Registry::alloc_surface, (reg, created), id),
    ensures
        ({
            let (a, b) = (old(reg).surfaces@, final(reg).surfaces@);
            &&& id != 0 <==> old(reg).devices && created
            &&& id == 0 ==> a == b && final(reg).next_id == old(reg).next_id
            &&& id != 0 ==> {
                &&& b.len() == a.len() + 1
                &&& forall|k: int| 0 <= k < a.len() ==> b[k] == a[k]
                &&& b[b.len() - 1].id == id
                &&& b[b.len() - 1].content.visible && !b[b.len() - 1].content.painter
                &&& !b[b.len() - 1].popup.visible && !b[b.len() - 1].popup.painter
                &&& unknown(a, id)
                &&& final(reg).next_id > id
            }
        }),
{
}

/// Freeing takes away exactly the surface of that id; the others keep their
/// order.
pub proof fn freed_surface_is_gone(reg: &mut Registry, id: u64, r: bool, i: int)
    requires
        old(reg).wf(),
        call_ensures(Registry::free_surface, (reg, id), r),
    ensures
        ({
            let (a, b) = (old(reg).surfaces@, final(reg).surfaces@);
            &&& stands_at(a, id, i) ==> {
                &&& r
                &&& b.len() == a.len() - 1
                &&& forall|k: int| 0 <= k < i ==> b[k] == a[k]
                &&& forall|k: int| i <= k < b.len() ==> b[k] == a[k + 1]
            }
            &&& unknown(a, id) ==> !r && a == b
        }),
{
    entry_at_is_first(old(reg).surfaces@, id);
    if stands_at(old(reg).surfaces@, id, i) {
        let j = entry_at(old(reg).surfaces@, id)->Some_0;
        if i < j {
        } else if j < i {
            assert(old(reg).surfaces@[j].id != old(reg).surfaces@[i].id);
        }
    }
}

/// Showing or hiding a part of a surface sets that part of that surface alone. A
/// commit is asked for exactly where it changes something.
pub proof fn only_the_named_part_is_shown(
    reg: &mut Registry,
    id: u64,
    part: Part,
    visible: bool,
    commit: bool,
    i: int,
)
    requires
        old(reg).wf(),
        call_ensures(Registry::set_visible, (reg, id, part, visible), commit),
    ensures
        ({
            let (a, b) = (old(reg).surfaces@, final(reg).surfaces@);
            &&& stands_at(a, id, i) ==> {
                &&& others_same(a, b, i)
                &&& b[i].id == id
                &&& b[i].content.painter == a[i].content.painter
                &&& b[i].popup.painter == a[i].popup.painter
                &&& part is Content ==> b[i].content.visible == visible && b[i].popup == a[i].popup
                    && (commit <==> a[i].content.visible != visible)
                &&& part is Popup ==> b[i].popup.visible == visible && b[i].content == a[i].content
                    && (commit <==> a[i].popup.visible != visible)
            }
            &&& unknown(a, id) ==> !commit && a == b
        }),
{
    entry_at_is_first(old(reg).surfaces@, id);
    if stands_at(old(reg).surfaces@, id, i) {
        let j = entry_at(old(reg).surfaces@, id)->Some_0;
        if j < i {
            assert(old(reg).surfaces@[j].id != old(reg).surfaces@[i].id);
        }
    }
}

/// A popup is shown and hidden on its own surface alone. Showing always commits,
/// its place being new; hiding commits where it was shown.
pub proof fn popup_is_shown_and_hidden(
    reg: &mut Registry,
    id: u64,
    shown: bool,
    reg2: &mut Registry,
    hidden: bool,
    i: int,
)
    requires
        old(reg).wf() && old(reg2).wf(),
        call_ensures(Registry::popup_show, (reg, id), shown),
        old(reg2).surfaces@ == final(reg).surfaces@,
        call_ensures(Registry::popup_hide, (reg2, id), hidden),
    ensures
        ({
            let (a, b, c) = (old(reg).surfaces@, final(reg).surfaces@, final(reg2).surfaces@);
            &&& stands_at(a, id, i) ==> {
                &&& shown && hidden
                &&& others_same(a, b, i) && others_same(b, c, i)
                &&& b[i].popup.visible && !c[i].popup.visible
                &&& b[i].content == a[i].content && c[i].content == a[i].content
                &&& c[i].popup.painter == a[i].popup.painter
            }
            &&& unknown(a, id) ==> !shown && !hidden && a == c
        }),
{
    entry_at_is_first(old(reg).surfaces@, id);
    entry_at_is_first(final(reg).surfaces@, id);
    if stands_at(old(reg).surfaces@, id, i) {
        let j = entry_at(old(reg).surfaces@, id)->Some_0;
        if j < i {
            assert(old(reg).surfaces@[j].id != old(reg).surfaces@[i].id);
        }
        assert(final(reg).surfaces@[i].id == id);
        let k = entry_at(final(reg).surfaces@, id)->Some_0;
        if k < i {
            assert(old(reg).surfaces@[k].id != old(reg).surfaces@[i].id);
        }
    }
}

/// A frame is painted exactly where there are devices, its surface lives, the
/// addressed part is shown and the frame is one: then at its own size, by the
/// part's own painter, which is built where there is none.
pub proof fn frame_is_painted_where_it_can_be(
    reg: Registry,
    id: u64,
    part: Part,
    frame: Frame,
    r: PresentPlan,
    i: int,
)
    requires
        reg.wf(),
        call_ensures(Registry::plan_present, (&reg, id, part, frame), r),
    ensures
        ({
            let s = reg.surfaces@;
            let usable = match frame {
                Frame::Accelerated { has_handle, .. } => has_handle,
                Frame::Software { size, len } => len > 0 && size.w > 0 && size.h > 0,
            };
            let size = match frame {
                Frame::Accelerated { coded, .. } => coded,
                Frame::Software { size, .. } => size,
            };
            &&& unknown(s, id) || !reg.devices || !usable ==> r is Refused
            &&& stands_at(s, id, i) && reg.devices && usable && part is Content ==> (r
                == if s[i].content.visible {
                PresentPlan::Paint { build: !s[i].content.painter, size }
            } else {
                PresentPlan::Refused
            })
            &&& stands_at(s, id, i) && reg.devices && usable && part is Popup ==> (r
                == if s[i].popup.visible {
                PresentPlan::Paint { build: !s[i].popup.painter, size }
            } else {
                PresentPlan::Refused
            })
        }),
{
    entry_at_is_first(reg.surfaces@, id);
    if stands_at(reg.surfaces@, id, i) {
        let j = entry_at(reg.surfaces@, id)->Some_0;
        if j < i {
            assert(reg.surfaces@[j].id != reg.surfaces@[i].id);
        }
    }
}

/// A frame is on screen exactly where the painter says so. A painter that was
/// there to paint is kept, a lost one is dropped with a commit that severs its
/// content, and visibility is nobody's business here.
pub proof fn lost_painter_is_dropped(
    reg: &mut Registry,
    id: u64,
    part: Part,
    painted: Painted,
    r: PresentOutcome,
    i: int,
)
    requires
        old(reg).wf(),
        stands_at(old(reg).surfaces@, id, i),
        call_ensures(Registry::conclude_present, (reg, id, part, painted), r),
    ensures
        ({
            let (a, b) = (old(reg).surfaces@, final(reg).surfaces@);
            let other = |e: Entry| if part is Content { e.popup } else { e.content };
            let own = |e: Entry| if part is Content { e.content } else { e.popup };
            &&& r.presented <==> (painted matches Painted::Done { shown, .. } && shown)
            &&& r.needs_commit <==> painted is Failed || (painted matches Painted::Done {
                configured,
                ..
            } && configured)
            &&& others_same(a, b, i)
            &&& other(b[i]) == other(a[i]) && own(b[i]).visible == own(a[i]).visible
            &&& painted is Done ==> own(b[i]).painter
            &&& painted is Failed ==> !own(b[i]).painter
            &&& painted is NoPainter ==> own(b[i]).painter == own(a[i]).painter
        }),
{
    entry_at_is_first(old(reg).surfaces@, id);
    let j = entry_at(old(reg).surfaces@, id)->Some_0;
    if j < i {
        assert(old(reg).surfaces@[j].id != old(reg).surfaces@[i].id);
    }
}

/// Devices exist where there is a GPU and they could be made, and are kept until
/// the backend goes; then every surface goes with them.
pub proof fn devices_are_kept_until_the_end(
    reg: &mut Registry,
    adapter: bool,
    created: bool,
    r: bool,
    end: &mut Registry,
    u: (),
)
    requires
        old(reg).wf(),
        call_ensures(Registry::init, (reg, adapter, created), r),
        call_ensures(Registry::cleanup, (end,), u),
    ensures
        r ==> final(reg).devices && adapter,
        adapter && created ==> r,
        adapter && old(reg).devices ==> r,
        !adapter ==> !r,
        old(reg).devices ==> final(reg).devices,
        final(reg).surfaces@ == old(reg).surfaces@,
        !final(end).devices && final(end).surfaces@.len() == 0,
        final(end).next_id == old(end).next_id,
{
}

/// `x` stands below `y`.
pub open spec fn below(whole: Seq<Entry>, x: Entry, y: Entry) -> bool {
    exists|p: int, q: int|
        #![trigger whole[p], whole[q]]
        0 <= p < q < whole.len() && whole[p] == x && whole[q] == y
}

/// Positions in `part` follow those in `whole`.
pub open spec fn in_order(part: Seq<Entry>, whole: Seq<Entry>) -> bool {
    forall|i: int, j: int|
        0 <= i < j < part.len() ==> #[trigger] below(whole, part[i], part[j])
}

proof fn rest_in_order(surfaces: Seq<Entry>, ordered: Seq<u64>)
    ensures
        in_order(sorted_out(surfaces, ordered).1, surfaces),
    decreases ordered.len(),
{
    let rest = sorted_out(surfaces, ordered).1;
    if ordered.len() == 0 {
        assert forall|i: int, j: int| 0 <= i < j < rest.len() implies #[trigger] below(
            surfaces,
            rest[i],
            rest[j],
        ) by {
            assert(surfaces[i] == rest[i] && surfaces[j] == rest[j]);
        }
    } else {
        rest_in_order(surfaces, ordered.drop_last());
        let r0 = sorted_out(surfaces, ordered.drop_last()).1;
        entry_at_is_first(r0, ordered.last());
        if let Some(k) = entry_at(r0, ordered.last()) {
            assert forall|i: int, j: int| 0 <= i < j < rest.len() implies #[trigger] below(
                surfaces,
                rest[i],
                rest[j],
            ) by {
                let i0 = if i < k {
                    i
                } else {
                    i + 1
                };
                let j0 = if j < k {
                    j
                } else {
                    j + 1
                };
                assert(rest[i] == r0[i0] && rest[j] == r0[j0]);
                assert(below(surfaces, r0[i0], r0[j0]));
            }
        }
    }
}

proof fn named_in_order(surfaces: Seq<Entry>, ordered: Seq<u64>)
    requires
        forall|i: int, j: int|
            0 <= i < j < surfaces.len() ==> (#[trigger] surfaces[i]).id != (
            #[trigger] surfaces[j]).id,
        forall|i: int, j: int| 0 <= i < j < ordered.len() ==> ordered[i] != ordered[j],
        forall|k: int| 0 <= k < ordered.len() ==> lives(surfaces, #[trigger] ordered[k]),
    ensures
        ({
            let named = sorted_out(surfaces, ordered).0;
            &&& named.len() == ordered.len()
            &&& forall|k: int| 0 <= k < named.len() ==> (#[trigger] named[k]).id == ordered[k]
        }),
    decreases ordered.len(),
{
    broadcast use vstd::seq_lib::group_to_multiset_ensures;

    if ordered.len() > 0 {
        let front = ordered.drop_last();
        assert forall|k: int| 0 <= k < front.len() implies lives(surfaces, #[trigger] front[k]) by {
            assert(ordered[k] == front[k]);
        }
        named_in_order(surfaces, front);
        let (n0, r0) = sorted_out(surfaces, front);
        restack_keeps_every_surface(surfaces, front);
        entry_at_is_first(r0, ordered.last());
        assert(ordered[ordered.len() - 1] == ordered.last());
        let i = choose|i: int| #![trigger surfaces[i]] stands_at(surfaces, ordered.last(), i);
        let all = n0 + r0;
        assert(all == restacked(surfaces, front));
        assert(surfaces.to_multiset().count(surfaces[i]) > 0);
        assert(all.contains(surfaces[i]));
        let p = choose|p: int| 0 <= p < all.len() && all[p] == surfaces[i];
        if p < n0.len() {
            assert(n0[p].id == front[p]);
            assert(ordered[p] != ordered[ordered.len() - 1]);
        } else {
            assert(r0[p - n0.len()].id == ordered.last());
        }
    }
}

/// Surfaces are stacked as they are named, bottom to top, and those that are not
/// named stay above them in the order they had.
pub proof fn stacked_as_named(reg: &mut Registry, ordered: &[u64], r: ())
    requires
        old(reg).wf(),
        old(reg).devices,
        forall|i: int, j: int| 0 <= i < j < ordered@.len() ==> ordered@[i] != ordered@[j],
        forall|k: int|
            0 <= k < ordered@.len() ==> lives(old(reg).surfaces@, #[trigger] ordered@[k]),
        call_ensures(Registry::restack, (reg, ordered), r),
    ensures
        ({
            let (a, b) = (old(reg).surfaces@, final(reg).surfaces@);
            &&& b.to_multiset() == a.to_multiset()
            &&& ordered@.len() <= b.len()
            &&& forall|k: int| 0 <= k < ordered@.len() ==> (#[trigger] b[k]).id == ordered@[k]
            &&& in_order(b.skip(ordered@.len() as int), a)
        }),
{
    let (a, b) = (old(reg).surfaces@, final(reg).surfaces@);
    named_in_order(a, ordered@);
    rest_in_order(a, ordered@);
    restack_keeps_every_surface(a, ordered@);
    let (named, rest) = sorted_out(a, ordered@);
    assert(b.skip(ordered@.len() as int) =~= rest);
}

/// A button gives the command of its name.
pub proof fn buttons_command_by_name(button: ControlButton, r: Option<MediaCommand>)
    requires
        call_ensures(on_button_pressed, (button,), r),
    ensures
        r == Some(MediaCommand::Play) <==> button == ControlButton::Play,
        r == Some(MediaCommand::Pause) <==> button == ControlButton::Pause,
        r == Some(MediaCommand::Stop) <==> button == ControlButton::Stop,
        r == Some(MediaCommand::Next) <==> button == ControlButton::Next,
        r == Some(MediaCommand::Previous) <==> button == ControlButton::Previous,
        r is None <==> button == ControlButton::Other,
{
}

/// A seek's milliseconds are its ticks, ten thousand to one, cut towards zero.
pub proof fn seek_is_ten_thousand_ticks_a_millisecond(ticks: i64, r: i64)
    requires
        call_ensures(seek_ms, (ticks,), r),
    ensures
        ticks >= 0 ==> r * 10000 <= ticks < r * 10000 + 10000,
        ticks <= 0 ==> r * 10000 - 10000 < ticks <= r * 10000,
{
}

proof fn comma_is_first(uri: Seq<u8>)
    ensures
        match comma_at(uri) {
            Some(c) => 0 <= c < uri.len() && uri[c] == 0x2c && forall|j: int|
                0 <= j < c ==> uri[j] != 0x2c,
            None => forall|j: int| 0 <= j < uri.len() ==> uri[j] != 0x2c,
        },
    decreases uri.len(),
{
    if uri.len() > 0 {
        let front = uri.drop_last();
        comma_is_first(front);
        assert forall|j: int| 0 <= j < front.len() implies front[j] == #[trigger] uri[j] by {}
        if comma_at(front) is None {
            assert forall|j: int| 0 <= j < front.len() implies uri[j] != 0x2c by {
                assert(front[j] != 0x2c);
            }
        } else {
            let c = comma_at(front)->Some_0;
            assert(front[c] == 0x2c);
            assert forall|j: int| 0 <= j < c implies uri[j] != 0x2c by {
                assert(front[j] != 0x2c);
            }
        }
    }
}

/// A data URI's payload begins right behind its first comma.
pub proof fn payload_follows_the_first_comma(uri: &[u8], r: Option<usize>)
    requires
        call_ensures(payload_start, (uri,), r),
    ensures
        r is None <==> forall|j: int| 0 <= j < uri@.len() ==> uri@[j] != 0x2c,
        r matches Some(i) ==> {
            &&& 1 <= i <= uri@.len()
            &&& uri@[i - 1] == 0x2c
            &&& forall|j: int| 0 <= j < i - 1 ==> uri@[j] != 0x2c
        },
{
    comma_is_first(uri@);
    if let Some(c) = comma_at(uri@) {
        assert(uri@[c] == 0x2c);
    }
}

/// The timeline among what was told from `from` on: at most one, and then the
/// duration and the position in tenths of microseconds.
pub open spec fn timeline_told(e: Seq<SinkEffect>, from: int, st: SinkState) -> bool {
    &&& forall|i: int|
        #![trigger e[i]]
        from <= i < e.len() ==> (e[i] matches SinkEffect::Timeline { end, position } ==> end
            == st.metadata.duration_us * 10 && position == st.position_us * 10)
    &&& st.metadata.duration_us > 0 <==> exists|i: int|
        #![trigger e[i]]
        from <= i < e.len() && e[i] is Timeline
}

/// While something plays, the controls show its phase first, then what it is: as
/// music with its track number, or as video; then its picture where there is one,
/// its duration and position, and the next position goes through.
pub proof fn playing_is_shown(
    s: &mut SinkState,
    effects: &mut Vec<SinkEffect>,
    r: (),
)
    requires
        call_ensures(
            SinkState::deliver,
            (s, SinkEvent::PhaseChanged(Phase::Playing), true, effects),
            r,
        ),
        old(s).metadata.duration_us < 0x0ccc_cccc_cccc_cccc,
        -0x0ccc_cccc_cccc_cccc < old(s).position_us < 0x0ccc_cccc_cccc_cccc,
    ensures
        ({
            let n = old(effects)@.len() as int;
            let e = final(effects)@;
            &&& final(s).phase == Some(Phase::Playing)
            &&& final(s).metadata == old(s).metadata && final(s).position_us == old(s).position_us
            &&& e.len() >= n + 5
            &&& e[n] == SinkEffect::SetStatus(Phase::Playing)
            &&& e[n + 1] is ClearAll
            &&& old(s).metadata.media_type == MediaType::Audio <==> e[n + 2] is ShowMusic
            &&& old(s).metadata.media_type == MediaType::Video <==> e[n + 2] is ShowVideo
            &&& e[n + 2] matches SinkEffect::ShowMusic { track } ==> {
                &&& track is Some <==> old(s).metadata.track_number > 0
                &&& track matches Some(t) ==> t == old(s).metadata.track_number
            }
            &&& e[n + 2] matches SinkEffect::ShowVideo { subtitle } ==> (subtitle
                <==> old(s).metadata.artist@.len() > 0)
            &&& old(s).thumbnail <==> e[n + 3] is ShowThumbnail
            &&& e[n + 3] is ShowThumbnail || e[n + 3] is Update
            &&& e[e.len() - 1] is ForceNextPosition
            &&& timeline_told(e, n, *final(s))
        }),
{
    let n = old(effects)@.len() as int;
    let e = final(effects)@;
    let st = SinkState { phase: Some(Phase::Playing), ..*old(s) };
    let tail = seq![SinkEffect::SetStatus(Phase::Playing)] + crate::windows::sink::display(st) + seq![
        SinkEffect::ForceNextPosition,
    ];
    assert forall|i: int| n <= i < e.len() implies #[trigger] e[i] == tail[i - n] by {}
    if st.metadata.duration_us > 0 {
        assert(e[e.len() - 2] is Timeline);
    }
}

/// A pause is shown with where it is; a stop forgets everything and clears the
/// controls.
pub proof fn pausing_and_stopping_are_shown(
    s: &mut SinkState,
    phase: Phase,
    effects: &mut Vec<SinkEffect>,
    r: (),
)
    requires
        call_ensures(SinkState::deliver, (s, SinkEvent::PhaseChanged(phase), true, effects), r),
        old(s).metadata.duration_us < 0x0ccc_cccc_cccc_cccc,
        -0x0ccc_cccc_cccc_cccc < old(s).position_us < 0x0ccc_cccc_cccc_cccc,
    ensures
        ({
            let n = old(effects)@.len() as int;
            let e = final(effects)@;
            &&& final(s).phase == Some(phase)
            &&& phase is Paused ==> {
                &&& e[n] == SinkEffect::SetStatus(Phase::Paused)
                &&& e[e.len() - 1] is ForceNextPosition
                &&& timeline_told(e, n, *old(s))
                &&& final(s).metadata == old(s).metadata && final(s).position_us
                    == old(s).position_us && final(s).thumbnail == old(s).thumbnail
            }
            &&& phase is Stopped ==> {
                &&& e.len() == n + 4
                &&& e[n] is DropThumbnail && e[n + 1] is ClearAll && e[n + 2] is Update
                &&& e[n + 3] == SinkEffect::SetStatus(Phase::Stopped)
                &&& final(s).position_us == 0 && !final(s).thumbnail
                &&& final(s).metadata.duration_us == 0 && final(s).metadata.title@.len() == 0
                &&& final(s).metadata.id@.len() == 0 && final(s).metadata.artist@.len() == 0
            }
        }),
{
    let n = old(effects)@.len() as int;
    let e = final(effects)@;
    let st = SinkState { phase: Some(phase), ..*old(s) };
    if phase is Paused {
        let tail = seq![SinkEffect::SetStatus(Phase::Paused)] + crate::windows::sink::timeline(st)
            + seq![SinkEffect::ForceNextPosition];
        assert forall|i: int| n <= i < e.len() implies #[trigger] e[i] == tail[i - n] by {}
        if st.metadata.duration_us > 0 {
            assert(e[n + 1] is Timeline);
        }
    }
}

/// Positions are always remembered and told where they are due; queue buttons
/// are told side by side; new metadata replaces the old, unless it is that of
/// the same item; a picture is kept and shown where there is one.
pub proof fn other_events_are_told_as_they_come(
    s: &mut SinkState,
    ev: SinkEvent,
    controls: bool,
    effects: &mut Vec<SinkEffect>,
    r: (),
)
    requires
        call_ensures(SinkState::deliver, (s, ev, controls, effects), r),
        !(ev is PhaseChanged),
        old(s).metadata.duration_us < 0x0ccc_cccc_cccc_cccc,
        ev matches SinkEvent::Position { position_us, .. } ==> -0x0ccc_cccc_cccc_cccc < position_us
            < 0x0ccc_cccc_cccc_cccc,
    ensures
        ({
            let n = old(effects)@.len() as int;
            let e = final(effects)@;
            &&& final(s).phase == old(s).phase
            &&& ev matches SinkEvent::Position { position_us, due } ==> {
                &&& final(s).position_us == position_us
                &&& final(s).metadata == old(s).metadata
                &&& controls && due ==> timeline_told(e, n, *final(s)) && e.len() <= n + 1
                &&& !controls || !due ==> e.len() == n
            }
            &&& ev matches SinkEvent::QueueCapsChanged { next, previous } ==> {
                &&& *final(s) == *old(s)
                &&& controls ==> e.len() == n + 2 && e[n] == SinkEffect::SetNextEnabled(next) && e[n
                    + 1] == SinkEffect::SetPreviousEnabled(previous)
                &&& !controls ==> e.len() == n
            }
            &&& ev matches SinkEvent::MetadataChanged(m) ==> {
                &&& e.len() == n
                &&& m.id@.len() == 0 || m.id@ != old(s).metadata.id@ ==> final(s).metadata == m
                &&& m.id@.len() > 0 && m.id@ == old(s).metadata.id@
                    ==> final(s).metadata == old(s).metadata
                &&& final(s).position_us == old(s).position_us
            }
            &&& ev matches SinkEvent::Artwork { uri, picture } ==> {
                let whole = controls && picture && exists|j: int|
                    0 <= j < uri@.len() && #[trigger] uri@[j] == 0x2c;
                &&& whole ==> final(s).thumbnail && e.len() == n + 2 && e[n] is ShowThumbnail && e[n
                    + 1] is Update
                &&& !whole ==> *final(s) == *old(s) && e.len() == n
                &&& final(s).metadata == old(s).metadata
            }
        }),
{
    let n = old(effects)@.len() as int;
    let e = final(effects)@;
    if let SinkEvent::Artwork { uri, picture } = ev {
        comma_is_first(uri@);
        if let Some(c) = comma_at(uri@) {
            assert(uri@[c] == 0x2c);
        }
    }
    if let SinkEvent::Position { position_us, due } = ev {
        if controls && due && old(s).metadata.duration_us > 0 {
            assert(e[n] is Timeline);
        }
    }
}

/// A layer is shown or hidden as told, and says whether that changed anything;
/// everything starts empty, and the identifiers of surfaces start at one.
pub proof fn states_start_empty(
    l: &mut Layer,
    visible: bool,
    changed: bool,
    m: &mut Layer,
    again: bool,
    w: WinState,
    r: Registry,
    n: NotifyState,
    s: SinkState,
    blank: MediaMetadata,
)
    requires
        call_ensures(Layer::set_visible, (l, visible), changed),
        *old(m) == *final(l),
        call_ensures(Layer::set_visible, (m, visible), again),
        call_ensures(WinState::new, (), w),
        call_ensures(Registry::new, (), r),
        call_ensures(NotifyState::started, (), n),
        call_ensures(SinkState::new, (), s),
        call_ensures(MediaMetadata::blank, (), blank),
    ensures
        changed <==> old(l).visible != visible,
        final(l).visible == visible && final(l).painter == old(l).painter && !again,
        w.hwnd == 0 && w.hook == 0 && !w.was_minimized && !w.restore_maximized_on_unfullscreen,
        !r.devices && r.surfaces@.len() == 0 && r.next_id == 1,
        !n.dirty && !n.stop,
        s.phase is None && s.position_us == 0 && !s.thumbnail,
        blank.id@.len() == 0 && blank.title@.len() == 0 && blank.artist@.len() == 0
            && blank.album@.len() == 0 && blank.track_number == 0 && blank.duration_us == 0,
        s.metadata.title@.len() == 0 && s.metadata.duration_us == 0,
{
}

/// The browser comes up before mpv's window, shares its textures and pastes from
/// the clipboard; decorations are not a choice. mpv's window has the app's icon.
pub proof fn platform_offers_what_it_has(
    p: WindowsPlatform,
    first: bool,
    decorations: bool,
    shares: bool,
    pastes: bool,
    h: WindowsMpvHost,
    icon: (&'static str, &'static str),
)
    requires
        call_ensures(WindowsPlatform::cef_init_precedes_mpv_window, (&p,), first),
        call_ensures(WindowsPlatform::window_decorations_supported, (&p,), decorations),
        call_ensures(WindowsPlatform::shared_texture_supported, (&p,), shares),
        call_ensures(WindowsPlatform::web_paste_reads_clipboard, (&p,), pastes),
        call_ensures(WindowsMpvHost::prepare, (&h,), icon),
    ensures
        first && shares && pastes && !decorations,
        icon.0@ == "MPV_WINDOW_ICON"@,
        icon.1@ == "IDI_ICON1"@,
{
}

} // verus!
