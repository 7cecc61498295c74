//! Everything that must happen before the dispatch thread sleeps, repeated
//! until it stops making progress: a step's effects (a fed scale raising the
//! present latch, a command queued by a popup callback) are themselves work for
//! the steps around it, so one pass can leave the state unsettled.

use vstd::prelude::*;

use crate::abi::EffectiveDecorations;
use crate::wayland::root_window::DecorationRequest;
use crate::wayland::root_window::FsRequest;
use crate::wayland::root_window::RootEffect;
use crate::wayland::root_window::RootFlags;
use crate::wayland::root_window::RootShared;
use crate::wayland::root_window::RootState;
use crate::wayland::root_window::RootStep;
use crate::wayland::root_window::WindowCommand;
use crate::wayland::scale::Scale120;
use crate::wayland::window_state::ScaleProvenance;
use crate::wayland::window_state::WindowMode;
use crate::wayland::window_state::WindowState;

verus! {

#[derive(Clone, Copy, PartialEq, Eq, Structural, Debug)]
pub enum SettlePhase {
    /// A probe may have fed a scale.
    Fallback,
    /// The batch is drained: a scale still missing is genuinely absent.
    Discovery,
    Fullscreen,
    Commands,
    Background,
    /// The one root commit. Gated on a presented configure, so an earlier
    /// request stays latched, not lost.
    Latch,
}

#[derive(Clone, Copy, PartialEq, Eq, Structural, Debug)]
pub enum SettleNext {
    /// Make the calls that came out, then go on.
    More,
    /// Start the bounded scale probe, then go on.
    SpawnProbe,
    /// Nothing is left to do.
    Asleep,
}

#[derive(Clone, Copy, PartialEq, Eq, Structural, Debug)]
pub struct Settle {
    pub phase: SettlePhase,
    pub progressed: bool,
}

/// One step of settling.
pub ghost struct SettleStep {
    pub settle: Settle,
    pub root: RootStep,
    pub commands: Seq<WindowCommand>,
    pub next: SettleNext,
}

/// What leaves the state alone.
pub open spec fn unchanged(st: RootState, flags: RootFlags, window: WindowState) -> RootStep {
    RootStep { st, flags, window, effects: seq![] }
}

/// Whether a fullscreen request asks for fullscreen; `None` where there is none.
pub open spec fn fullscreen_wanted(r: FsRequest, mode: WindowMode) -> Option<bool> {
    match r {
        FsRequest::Nothing => None,
        FsRequest::On => Some(true),
        FsRequest::Off => Some(false),
        FsRequest::Toggle => Some(mode != WindowMode::Fullscreen),
    }
}

/// What a new background color does.
pub open spec fn recolored(st: RootState, flags: RootFlags, window: WindowState) -> RootStep {
    match flags.pending_bg {
        Some(bg) if bg != st.bg => match st.current_size {
            Some(size) if st.presented => RootStep {
                st: RootState { bg, ..st },
                flags: RootFlags { pending_present: true, ..flags },
                window,
                effects: seq![RootEffect::RebuildBackground { w: size.w(), h: size.h() }],
            },
            _ => RootStep { st: RootState { bg, ..st }, flags, window, effects: seq![] },
        },
        _ => unchanged(st, flags, window),
    }
}

pub open spec fn settled_one(
    s: Settle,
    st: RootState,
    flags: RootFlags,
    commands: Seq<WindowCommand>,
    window: WindowState,
) -> SettleStep {
    match s.phase {
        SettlePhase::Fallback => SettleStep {
            settle: Settle {
                phase: SettlePhase::Discovery,
                progressed: s.progressed || flags.scale_fallback_fed,
            },
            root: if flags.scale_fallback_fed {
                st.tried(RootFlags { scale_fallback_fed: false, ..flags }, window)
            } else {
                unchanged(st, flags, window)
            },
            commands,
            next: SettleNext::More,
        },
        SettlePhase::Discovery => {
            let (discovery, spawn) = st.scale_discovery.drained(window.scale is Some);
            SettleStep {
                settle: Settle { phase: SettlePhase::Fullscreen, ..s },
                root: unchanged(RootState { scale_discovery: discovery, ..st }, flags, window),
                commands,
                next: if spawn {
                    SettleNext::SpawnProbe
                } else {
                    SettleNext::More
                },
            }
        },
        SettlePhase::Fullscreen => {
            let flags2 = RootFlags { pending_fs: FsRequest::Nothing, ..flags };
            let wanted = fullscreen_wanted(flags.pending_fs, st.mode);
            SettleStep {
                settle: Settle {
                    phase: SettlePhase::Commands,
                    progressed: s.progressed || wanted is Some,
                },
                root: match wanted {
                    Some(on) => RootStep {
                        st: st.fullscreened(on).0,
                        flags: flags2,
                        window,
                        effects: st.fullscreened(on).1,
                    },
                    None => unchanged(st, flags2, window),
                },
                commands,
                next: SettleNext::More,
            }
        },
        SettlePhase::Commands => if commands.len() == 0 {
            SettleStep {
                settle: Settle { phase: SettlePhase::Background, ..s },
                root: unchanged(st, flags, window),
                commands,
                next: SettleNext::More,
            }
        } else {
            SettleStep {
                settle: Settle { phase: SettlePhase::Commands, progressed: true },
                root: RootStep {
                    st: st.commanded(commands[0]).0,
                    flags,
                    window,
                    effects: st.commanded(commands[0]).1,
                },
                commands: commands.drop_first(),
                next: SettleNext::More,
            }
        },
        SettlePhase::Background => SettleStep {
            settle: Settle {
                phase: SettlePhase::Latch,
                progressed: s.progressed || (flags.pending_bg matches Some(bg) && bg != st.bg),
            },
            root: recolored(st, flags, window),
            commands,
            next: SettleNext::More,
        },
        SettlePhase::Latch => if st.presented && flags.pending_present {
            SettleStep {
                settle: Settle { phase: SettlePhase::Fallback, progressed: false },
                root: RootStep {
                    st,
                    flags: RootFlags { pending_present: false, ..flags },
                    window,
                    effects: seq![RootEffect::CommitRoot],
                },
                commands,
                next: SettleNext::More,
            }
        } else {
            SettleStep {
                settle: Settle { phase: SettlePhase::Fallback, progressed: false },
                root: RootStep {
                    st,
                    flags,
                    window,
                    effects: if s.progressed {
                        seq![]
                    } else {
                        seq![RootEffect::Flush]
                    },
                },
                commands,
                next: if s.progressed {
                    SettleNext::More
                } else {
                    SettleNext::Asleep
                },
            }
        },
    }
}

impl Settle {
    pub fn new() -> (s: Settle)
        ensures
            s == (Settle { phase: SettlePhase::Fallback, progressed: false }),
    {
        Settle { phase: SettlePhase::Fallback, progressed: false }
    }

    /// Does the next piece of work. The calls that come out are to be made
    /// before the next step.
    pub fn step(
        &mut self,
        st: &mut RootState,
        shared: &mut RootShared,
        window: &mut WindowState,
        effects: &mut Vec<RootEffect>,
    ) -> (next: SettleNext)
        ensures
            ({
                let r = settled_one(
                    *old(self),
                    *old(st),
                    old(shared).flags,
                    old(shared).commands@,
                    *old(window),
                );
                &&& *final(self) == r.settle
                &&& *final(st) == r.root.st
                &&& final(shared).flags == r.root.flags
                &&& final(shared).commands@ == r.commands
                &&& *final(window) == r.root.window
                &&& final(effects)@ == old(effects)@ + r.root.effects
                &&& next == r.next
            }),
    {
        match self.phase {
            SettlePhase::Fallback => self.take_fallback(st, shared, window, effects),
            SettlePhase::Discovery => self.discover(st, shared, window, effects),
            SettlePhase::Fullscreen => self.take_fullscreen(st, shared, window, effects),
            SettlePhase::Commands => self.take_command(st, shared, window, effects),
            SettlePhase::Background => self.take_background(st, shared, window, effects),
            SettlePhase::Latch => self.take_latch(st, shared, window, effects),
        }
    }

    /// A scale the probe fed lets a waiting configure be presented.
    fn take_fallback(
        &mut self,
        st: &mut RootState,
        shared: &mut RootShared,
        window: &mut WindowState,
        effects: &mut Vec<RootEffect>,
    ) -> (next: SettleNext)
        requires
            old(self).phase == SettlePhase::Fallback,
        ensures
            ({
                let r = settled_one(
                    *old(self),
                    *old(st),
                    old(shared).flags,
                    old(shared).commands@,
                    *old(window),
                );
                &&& *final(self) == r.settle
                &&& *final(st) == r.root.st
                &&& final(shared).flags == r.root.flags
                &&& final(shared).commands@ == r.commands
                &&& *final(window) == r.root.window
                &&& final(effects)@ == old(effects)@ + r.root.effects
                &&& next == r.next
            }),
    {
        let ghost before = effects@;
        assert(before + Seq::<RootEffect>::empty() =~= before);
        self.phase = SettlePhase::Discovery;
        if shared.flags.scale_fallback_fed {
            shared.flags.scale_fallback_fed = false;
            self.progressed = true;
            st.try_present(&mut shared.flags, window, effects);
        }
        SettleNext::More
    }

    /// A scale still missing after the batch has to be probed for.
    fn discover(
        &mut self,
        st: &mut RootState,
        shared: &mut RootShared,
        window: &mut WindowState,
        effects: &mut Vec<RootEffect>,
    ) -> (next: SettleNext)
        requires
            old(self).phase == SettlePhase::Discovery,
        ensures
            ({
                let r = settled_one(
                    *old(self),
                    *old(st),
                    old(shared).flags,
                    old(shared).commands@,
                    *old(window),
                );
                &&& *final(self) == r.settle
                &&& *final(st) == r.root.st
                &&& final(shared).flags == r.root.flags
                &&& final(shared).commands@ == r.commands
                &&& *final(window) == r.root.window
                &&& final(effects)@ == old(effects)@ + r.root.effects
                &&& next == r.next
            }),
    {
        let ghost before = effects@;
        assert(before + Seq::<RootEffect>::empty() =~= before);
        self.phase = SettlePhase::Fullscreen;
        if st.service_scale_discovery(window) {
            SettleNext::SpawnProbe
        } else {
            SettleNext::More
        }
    }

    /// Applies the pending fullscreen request.
    fn take_fullscreen(
        &mut self,
        st: &mut RootState,
        shared: &mut RootShared,
        window: &mut WindowState,
        effects: &mut Vec<RootEffect>,
    ) -> (next: SettleNext)
        requires
            old(self).phase == SettlePhase::Fullscreen,
        ensures
            ({
                let r = settled_one(
                    *old(self),
                    *old(st),
                    old(shared).flags,
                    old(shared).commands@,
                    *old(window),
                );
                &&& *final(self) == r.settle
                &&& *final(st) == r.root.st
                &&& final(shared).flags == r.root.flags
                &&& final(shared).commands@ == r.commands
                &&& *final(window) == r.root.window
                &&& final(effects)@ == old(effects)@ + r.root.effects
                &&& next == r.next
            }),
    {
        let ghost before = effects@;
        assert(before + Seq::<RootEffect>::empty() =~= before);
        self.phase = SettlePhase::Commands;
        let wanted: Option<bool> = match shared.flags.pending_fs {
            FsRequest::Nothing => None,
            FsRequest::On => Some(true),
            FsRequest::Off => Some(false),
            FsRequest::Toggle => Some(st.mode != WindowMode::Fullscreen),
        };
        shared.flags.pending_fs = FsRequest::Nothing;
        if let Some(on) = wanted {
            self.progressed = true;
            st.apply_fullscreen(on, effects);
        }
        SettleNext::More
    }

    /// Applies the command at the head of the queue.
    fn take_command(
        &mut self,
        st: &mut RootState,
        shared: &mut RootShared,
        window: &mut WindowState,
        effects: &mut Vec<RootEffect>,
    ) -> (next: SettleNext)
        requires
            old(self).phase == SettlePhase::Commands,
        ensures
            ({
                let r = settled_one(
                    *old(self),
                    *old(st),
                    old(shared).flags,
                    old(shared).commands@,
                    *old(window),
                );
                &&& *final(self) == r.settle
                &&& *final(st) == r.root.st
                &&& final(shared).flags == r.root.flags
                &&& final(shared).commands@ == r.commands
                &&& *final(window) == r.root.window
                &&& final(effects)@ == old(effects)@ + r.root.effects
                &&& next == r.next
            }),
    {
        let ghost before = effects@;
        assert(before + Seq::<RootEffect>::empty() =~= before);
        if shared.commands.len() == 0 {
            self.phase = SettlePhase::Background;
        } else {
            let ghost queue = shared.commands@;
            let cmd = shared.commands.remove(0);
            assert(queue.remove(0) =~= queue.drop_first());
            self.progressed = true;
            st.apply_command(cmd, effects);
        }
        SettleNext::More
    }

    /// Takes over a new background color.
    fn take_background(
        &mut self,
        st: &mut RootState,
        shared: &mut RootShared,
        window: &mut WindowState,
        effects: &mut Vec<RootEffect>,
    ) -> (next: SettleNext)
        requires
            old(self).phase == SettlePhase::Background,
        ensures
            ({
                let r = settled_one(
                    *old(self),
                    *old(st),
                    old(shared).flags,
                    old(shared).commands@,
                    *old(window),
                );
                &&& *final(self) == r.settle
                &&& *final(st) == r.root.st
                &&& final(shared).flags == r.root.flags
                &&& final(shared).commands@ == r.commands
                &&& *final(window) == r.root.window
                &&& final(effects)@ == old(effects)@ + r.root.effects
                &&& next == r.next
            }),
    {
        let ghost before = effects@;
        assert(before + Seq::<RootEffect>::empty() =~= before);
        self.phase = SettlePhase::Latch;
        if let Some(bg) = shared.flags.pending_bg {
            if bg != st.bg {
                st.bg = bg;
                self.progressed = true;
                // A size is only current once presented.
                if let Some(size) = st.current_size {
                    if st.presented {
                        effects.push(RootEffect::RebuildBackground { w: size.w(), h: size.h() });
                        shared.flags.pending_present = true;
                    }
                }
            }
        }
        assert(effects@ =~= before + recolored(*old(st), old(shared).flags, *old(window)).effects);
        SettleNext::More
    }

    /// Makes the one root commit, and ends the pass.
    fn take_latch(
        &mut self,
        st: &mut RootState,
        shared: &mut RootShared,
        window: &mut WindowState,
        effects: &mut Vec<RootEffect>,
    ) -> (next: SettleNext)
        requires
            old(self).phase == SettlePhase::Latch,
        ensures
            ({
                let r = settled_one(
                    *old(self),
                    *old(st),
                    old(shared).flags,
                    old(shared).commands@,
                    *old(window),
                );
                &&& *final(self) == r.settle
                &&& *final(st) == r.root.st
                &&& final(shared).flags == r.root.flags
                &&& final(shared).commands@ == r.commands
                &&& *final(window) == r.root.window
                &&& final(effects)@ == old(effects)@ + r.root.effects
                &&& next == r.next
            }),
    {
        let ghost before = effects@;
        assert(before + Seq::<RootEffect>::empty() =~= before);
        self.phase = SettlePhase::Fallback;
        let progressed = self.progressed;
        self.progressed = false;
        if st.presented && shared.flags.pending_present {
            shared.flags.pending_present = false;
            effects.push(RootEffect::CommitRoot);
            assert(effects@ =~= before + seq![RootEffect::CommitRoot]);
            return SettleNext::More;
        }
        if progressed {
            SettleNext::More
        } else {
            effects.push(RootEffect::Flush);
            assert(effects@ =~= before + seq![RootEffect::Flush]);
            SettleNext::Asleep
        }
    }
}

/// Whether the toplevel is created now: once, as soon as there is a display to
/// create it on. Asked again and again until then.
pub fn ensure_started(started: &mut bool, has_display: bool) -> (start: bool)
    ensures
        start == (!*old(started) && has_display),
        *final(started) == (*old(started) || has_display),
{
    if *started || !has_display {
        return false;
    }
    *started = true;
    true
}

/// The globals without which there is no toplevel.
#[derive(Clone, Copy, PartialEq, Eq, Structural, Debug)]
pub enum RequiredGlobal {
    Compositor,
    Shm,
    WmBase,
}

impl RequiredGlobal {
    pub fn interface(self) -> (r: &'static str)
        ensures
            r@ == match self {
                RequiredGlobal::Compositor => "wl_compositor"@,
                RequiredGlobal::Shm => "wl_shm"@,
                RequiredGlobal::WmBase => "xdg_wm_base"@,
            },
    {
        match self {
            RequiredGlobal::Compositor => "wl_compositor",
            RequiredGlobal::Shm => "wl_shm",
            RequiredGlobal::WmBase => "xdg_wm_base",
        }
    }
}

/// Whether all required globals could be bound, or the first that could not.
pub fn bind_required(compositor: bool, shm: bool, wm_base: bool) -> (r: Result<(), RequiredGlobal>)
    ensures
        r == (if !compositor {
            Err::<(), RequiredGlobal>(RequiredGlobal::Compositor)
        } else if !shm {
            Err::<(), RequiredGlobal>(RequiredGlobal::Shm)
        } else if !wm_base {
            Err::<(), RequiredGlobal>(RequiredGlobal::WmBase)
        } else {
            Ok::<(), RequiredGlobal>(())
        }),
{
    if !compositor {
        return Err(RequiredGlobal::Compositor);
    }
    if !shm {
        return Err(RequiredGlobal::Shm);
    }
    if !wm_base {
        return Err(RequiredGlobal::WmBase);
    }
    Ok(())
}

/// What starting the toplevel does before its first configure.
pub open spec fn booted(
    flags: RootFlags,
    decorations_negotiated: bool,
) -> (RootFlags, Seq<RootEffect>) {
    let served = !decorations_negotiated && flags.decoration_request
        == DecorationRequest::ServerSide;
    (
        if served {
            RootFlags { effective: EffectiveDecorations::ServerSide, ..flags }
        } else {
            flags
        },
        (if flags.boot.maximized {
            seq![RootEffect::SetMaximized]
        } else {
            seq![]
        }) + (if served && flags.effective != EffectiveDecorations::ServerSide {
            seq![RootEffect::NotifyDecorations(EffectiveDecorations::ServerSide)]
        } else {
            seq![]
        }) + seq![
            RootEffect::SetWindowGeometry { w: flags.boot.w, h: flags.boot.h },
            RootEffect::CommitRoot,
            RootEffect::Flush,
        ],
    )
}

/// Starts the toplevel. The commit carries no buffer: it elicits the first
/// configure, and on some compositors the first scale, so it must not wait for
/// either. Without a fractional-scale protocol no scale will ever arrive and
/// 1.0 is assumed; without a decoration protocol a server-side request means
/// that nobody draws a titlebar.
pub fn start_toplevel(
    shared: &mut RootShared,
    window: &mut WindowState,
    fractional_scale: bool,
    decorations_negotiated: bool,
    effects: &mut Vec<RootEffect>,
)
    ensures
        ({
            let r = booted(old(shared).flags, decorations_negotiated);
            &&& final(shared).flags == r.0
            &&& final(shared).commands@ == old(shared).commands@
            &&& final(effects)@ == old(effects)@ + r.1
            &&& fractional_scale ==> *final(window) == *old(window)
            &&& !fractional_scale ==> *final(window) == old(window).fed(
                Scale120::of(120),
                ScaleProvenance::Provisional,
            )
        }),
{
    let ghost before = effects@;
    if shared.flags.boot.maximized {
        effects.push(RootEffect::SetMaximized);
    }
    if !fractional_scale {
        window.feed_unit_scale();
    }
    if !decorations_negotiated && shared.flags.decoration_request == DecorationRequest::ServerSide {
        let changed = shared.flags.effective != EffectiveDecorations::ServerSide;
        shared.flags.effective = EffectiveDecorations::ServerSide;
        if changed {
            effects.push(RootEffect::NotifyDecorations(EffectiveDecorations::ServerSide));
        }
    }
    effects.push(
        RootEffect::SetWindowGeometry { w: shared.flags.boot.w, h: shared.flags.boot.h },
    );
    effects.push(RootEffect::CommitRoot);
    effects.push(RootEffect::Flush);
    assert(effects@ =~= before + booted(old(shared).flags, decorations_negotiated).1);
}

} // verus!
