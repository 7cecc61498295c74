//! What holds of the root window across events.

use vstd::prelude::*;

use crate::abi::MenuPlacement;
use crate::wayland::popup_place::Placed;
use crate::wayland::presentation::planned;
use crate::wayland::presentation::ScaleDiscovery;
use crate::wayland::presentation::Step;
use crate::wayland::root_settle::settled_one;
use crate::wayland::root_settle::Settle;
use crate::wayland::root_settle::SettlePhase;
use crate::wayland::root_window::FsRequest;
use crate::wayland::root_window::MenuPopup;
use crate::wayland::root_window::PopupCommand;
use crate::wayland::root_window::RootEffect;
use crate::wayland::root_window::RootFlags;
use crate::wayland::root_window::RootState;
use crate::wayland::root_window::WindowCommand;
use crate::wayland::root_window::WindowConfigure;
use crate::wayland::window_state::WindowMode;
use crate::wayland::window_state::WindowState;

verus! {

/// What can happen to the scale discovery.
pub ghost enum DiscoveryEvent {
    /// A presentation step inside a callback asks for a scale.
    Request,
    /// The event batch is drained, with a scale known or not.
    Drained(bool),
}

/// The discovery after some events, and how many probes were spawned.
pub open spec fn discovered(d: ScaleDiscovery, events: Seq<DiscoveryEvent>) -> (ScaleDiscovery, nat)
    decreases events.len(),
{
    if events.len() == 0 {
        (d, 0)
    } else {
        let before = discovered(d, events.drop_last());
        match events.last() {
            DiscoveryEvent::Request => (before.0.requested(), before.1),
            DiscoveryEvent::Drained(known) => {
                let (next, spawn) = before.0.drained(known);
                (
                    next,
                    before.1 + if spawn {
                        1nat
                    } else {
                        0nat
                    },
                )
            },
        }
    }
}

/// However often a scale is missed, at most one probe is ever spawned, and
/// never inside a callback.
pub proof fn probe_spawned_at_most_once(events: Seq<DiscoveryEvent>)
    ensures
        ({
            let r = discovered(ScaleDiscovery::Idle, events);
            &&& r.1 <= 1
            &&& r.1 == 1 <==> r.0 == ScaleDiscovery::Spawned
            &&& (forall|i: int| 0 <= i < events.len() ==> #[trigger] events[i] is Request)
                ==> r.1 == 0
        }),
    decreases events.len(),
{
    if events.len() > 0 {
        let front = events.drop_last();
        probe_spawned_at_most_once(front);
        if forall|i: int| 0 <= i < events.len() ==> #[trigger] events[i] is Request {
            assert forall|i: int| 0 <= i < front.len() implies #[trigger] front[i] is Request by {
                assert(events[i] is Request);
            }
            assert(events[events.len() - 1] is Request);
        }
    }
}

/// Nothing is presented before a configure was acked: until then a presentation
/// step makes no call at all, and the one root commit stays latched.
pub proof fn nothing_before_the_first_configure(
    st: RootState,
    flags: RootFlags,
    window: WindowState,
    commands: Seq<WindowCommand>,
    progressed: bool,
)
    requires
        !st.presented,
        !st.pending_configure,
    ensures
        st.tried(flags, window).effects.len() == 0,
        st.tried(flags, window).st == st,
        ({
            let latch = settled_one(
                Settle { phase: SettlePhase::Latch, progressed },
                st,
                flags,
                commands,
                window,
            );
            &&& !latch.root.effects.contains(RootEffect::CommitRoot)
            &&& latch.root.flags.pending_present == flags.pending_present
        }),
{
    reveal(RootState::tried);
}

/// A scale missing before the first map is looked for exactly when a configure
/// waits; once mapped, no probe is requested any more.
pub proof fn mapped_window_never_probes(
    st: RootState,
    flags: RootFlags,
    window: WindowState,
)
    requires
        st.presented,
    ensures
        st.tried(flags, window).st.scale_discovery == st.scale_discovery,
        st.tried(flags, window).st.presented,
        planned(st.inputs(window)) != Step::DiscoverScale,
{
    reveal(RootState::tried);
}

/// A first configure with a known scale and a resolvable size is presented at
/// once: geometry, background and sizes go out, and a commit is latched.
pub proof fn first_configure_presents(
    st: RootState,
    c: WindowConfigure,
    flags: RootFlags,
    window: WindowState,
)
    requires
        window.scale is Some,
        st.absorbed(c, flags).0.logical() is Some,
    ensures
        ({
            let r = st.configured(c, flags, window);
            &&& r.st.presented
            &&& !r.st.pending_configure
            &&& r.flags.pending_present
            &&& r.st.current_size == st.absorbed(c, flags).0.logical()
        }),
{
    reveal(RootState::tried);
}

/// A run of popup and other commands.
pub open spec fn commanded_all(st: RootState, commands: Seq<WindowCommand>) -> RootState
    decreases commands.len(),
{
    if commands.len() == 0 {
        st
    } else {
        commanded_all(st, commands.drop_last()).commanded(commands.last()).0
    }
}

/// A generation once created is never created again, whatever happens in
/// between: a destroyed popup stays gone, and a late create of an older menu
/// does not replace a newer one.
pub proof fn destroyed_menu_stays_gone(
    st: RootState,
    commands: Seq<WindowCommand>,
    create: PopupCommand,
)
    requires
        create is Create,
        create->Create_generation.id <= st.armed_gen,
    ensures
        commanded_all(st, commands).armed_gen >= st.armed_gen,
        commanded_all(st, commands).popped(create) == (
            commanded_all(st, commands),
            Seq::<RootEffect>::empty(),
        ),
    decreases commands.len(),
{
    if commands.len() > 0 {
        destroyed_menu_stays_gone(st, commands.drop_last(), create);
    }
}

/// A request of a menu that no longer stands changes nothing and reaches no
/// compositor.
pub proof fn stale_menu_requests_are_inert(st: RootState, cmd: PopupCommand)
    requires
        match cmd {
            PopupCommand::Create { generation, .. } => generation.id <= st.armed_gen,
            PopupCommand::Reposition { generation, .. } => st.menu.owner() != Some(generation),
            PopupCommand::Paint(paint) => st.menu.owner() != Some(paint.generation),
            PopupCommand::Destroy { generation } => st.menu.owner() != Some(generation),
        },
    ensures
        st.popped(cmd) == (st, Seq::<RootEffect>::empty()),
{
}

/// An unmapped popup is never repositioned: what is wanted meanwhile is held,
/// and the commit that maps the popup is followed by the last want, unless the
/// compositor already has it.
pub proof fn unmapped_menu_holds_its_placement(
    st: RootState,
    place: Placed,
    cmd: PopupCommand,
)
    requires
        cmd is Reposition,
        st.menu == (MenuPopup::Unmapped { generation: cmd->Reposition_generation, place }),
    ensures
        st.popped(cmd).1.len() == 0,
        ({
            let want = cmd->Reposition_place;
            let after = st.popped(cmd).0;
            let painted = after.menu_after_paint();
            &&& painted.0.menu matches MenuPopup::Mapped { place: p, .. }
            &&& p == (Placed { sent: want, held: None })
            &&& want == place.sent ==> painted.1.len() == 0
            &&& want != place.sent ==> painted.1.len() == 1
        }),
{
}

/// What a mapped popup puts on the wire for a run of wants.
pub open spec fn sends(p: Placed, wants: Seq<MenuPlacement>) -> Seq<MenuPlacement>
    decreases wants.len(),
{
    if wants.len() == 0 {
        seq![]
    } else {
        let want = wants[0];
        let rest = sends(Placed { sent: want, ..p }, wants.drop_first());
        if want == p.sent {
            rest
        } else {
            seq![want] + rest
        }
    }
}

/// A mapped popup never sends the compositor a placement it already holds.
pub proof fn no_placement_is_sent_twice_in_a_row(p: Placed, wants: Seq<MenuPlacement>)
    ensures
        ({
            let s = seq![p.sent] + sends(p, wants);
            &&& forall|i: int| 0 <= i < s.len() - 1 ==> #[trigger] s[i] != s[i + 1]
            &&& wants.len() > 0 ==> s.last() == wants.last()
        }),
    decreases wants.len(),
{
    if wants.len() > 0 {
        let want = wants[0];
        let next = Placed { sent: want, ..p };
        let rest = wants.drop_first();
        no_placement_is_sent_twice_in_a_row(next, rest);
        let s = seq![p.sent] + sends(p, wants);
        let t = seq![want] + sends(next, rest);
        if want == p.sent {
            assert(s =~= t);
        } else {
            assert(s =~= seq![p.sent] + t);
            assert forall|i: int| 0 <= i < s.len() - 1 implies #[trigger] s[i] != s[i + 1] by {
                if i > 0 {
                    assert(s[i] == t[i - 1] && s[i + 1] == t[i]);
                }
            }
        }
        if rest.len() > 0 {
            assert(rest.last() == wants.last());
        }
    }
}

/// Leaving fullscreen maximizes again exactly where the window was maximized
/// before it went fullscreen, however often fullscreen was asked for.
pub proof fn fullscreen_round_trip_restores_maximized(st: RootState, again: nat)
    requires
        st.mode != WindowMode::Fullscreen,
    ensures
        ({
            let entered = RootState { mode: WindowMode::Fullscreen, ..st.fullscreened(true).0 };
            let left = entered_again(entered, again).fullscreened(false);
            &&& left.1.contains(RootEffect::SetMaximized) <==> st.mode == WindowMode::Maximized
            &&& !left.0.pre_fs_maximized
        }),
{
    let entered = RootState { mode: WindowMode::Fullscreen, ..st.fullscreened(true).0 };
    entering_again_changes_nothing(entered, again);
    let left = entered_again(entered, again).fullscreened(false);
    if st.mode == WindowMode::Maximized {
        assert(left.1[1] == RootEffect::SetMaximized);
    }
}

pub open spec fn entered_again(st: RootState, n: nat) -> RootState
    decreases n,
{
    if n == 0 {
        st
    } else {
        entered_again(st, (n - 1) as nat).fullscreened(true).0
    }
}

proof fn entering_again_changes_nothing(st: RootState, n: nat)
    requires
        st.mode == WindowMode::Fullscreen,
    ensures
        entered_again(st, n) == st,
    decreases n,
{
    if n > 0 {
        entering_again_changes_nothing(st, (n - 1) as nat);
    }
}

/// Nothing waits for the dispatch thread.
pub open spec fn quiescent(
    st: RootState,
    flags: RootFlags,
    commands: Seq<WindowCommand>,
) -> bool {
    &&& !flags.scale_fallback_fed
    &&& st.scale_discovery != ScaleDiscovery::Requested
    &&& flags.pending_fs == FsRequest::Nothing
    &&& commands.len() == 0
    &&& flags.pending_bg matches Some(bg) ==> bg == st.bg
    &&& !(st.presented && flags.pending_present)
}

/// What a pass without progress has already found idle.
pub open spec fn pass_ok(
    s: Settle,
    st: RootState,
    flags: RootFlags,
    commands: Seq<WindowCommand>,
) -> bool {
    !s.progressed ==> {
        &&& !(s.phase is Fallback) ==> !flags.scale_fallback_fed
        &&& (s.phase is Fullscreen || s.phase is Commands || s.phase is Background
            || s.phase is Latch) ==> st.scale_discovery != ScaleDiscovery::Requested
        &&& (s.phase is Commands || s.phase is Background || s.phase is Latch) ==> flags.pending_fs
            == FsRequest::Nothing
        &&& (s.phase is Background || s.phase is Latch) ==> commands.len() == 0
        &&& s.phase is Latch ==> (flags.pending_bg matches Some(bg) ==> bg == st.bg)
    }
}

/// The thread goes to sleep only with nothing left to do.
pub proof fn asleep_means_settled(
    s: Settle,
    st: RootState,
    flags: RootFlags,
    commands: Seq<WindowCommand>,
    window: WindowState,
)
    requires
        pass_ok(s, st, flags, commands),
    ensures
        ({
            let r = settled_one(s, st, flags, commands, window);
            &&& pass_ok(r.settle, r.root.st, r.root.flags, r.commands)
            &&& r.next is Asleep ==> quiescent(r.root.st, r.root.flags, r.commands)
        }),
{
    reveal(RootState::tried);
}

} // verus!
