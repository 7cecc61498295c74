//! mpv's window: when it is known, how it goes fullscreen and back, and what
//! its messages mean.

use vstd::prelude::*;

verus! {

pub const WS_CAPTION: u32 = 0x00C0_0000;
pub const WS_THICKFRAME: u32 = 0x0004_0000;

/// What the backend knows of mpv's window.
#[derive(Clone, Copy, PartialEq, Eq, Structural, Debug)]
pub struct WinState {
    /// The window handle; 0 before it is known and after cleanup.
    pub hwnd: u64,
    pub was_minimized: bool,
    pub restore_maximized_on_unfullscreen: bool,
    /// The message hook; 0 where there is none.
    pub hook: u64,
}

/// What mpv is asked for.
#[derive(Clone, Copy, PartialEq, Eq, Structural, Debug)]
pub enum PlayerCall {
    SetMinimized(bool),
    SetFullscreen(bool),
    ToggleFullscreen,
    SetMaximized(bool),
}

/// A message to mpv's window.
#[derive(Clone, Copy, PartialEq, Eq, Structural, Debug)]
pub enum WinMessage {
    Size { minimized: bool },
    Move,
    DpiChanged,
    StyleChanged,
    Close,
    Other,
}

/// What a message asks for, in order.
#[derive(Clone, Copy, PartialEq, Eq, Structural, Debug)]
pub enum WinAction {
    SetVisible(bool),
    /// Sample the window, tell everybody later, resize the input window.
    PublishAndResize,
    Publish,
    Sample,
    Shutdown,
}

/// A window without caption and sizing frame is fullscreen.
pub fn style_is_fullscreen(style: u32) -> (r: bool)
    ensures
        r == (style & WS_CAPTION == 0 && style & WS_THICKFRAME == 0),
{
    (style & WS_CAPTION) == 0 && (style & WS_THICKFRAME) == 0
}

impl WinState {
    pub fn new() -> (s: WinState)
        ensures
            s == (WinState {
                hwnd: 0,
                was_minimized: false,
                restore_maximized_on_unfullscreen: false,
                hook: 0,
            }),
    {
        WinState {
            hwnd: 0,
            was_minimized: false,
            restore_maximized_on_unfullscreen: false,
            hook: 0,
        }
    }

    pub fn win_hwnd(&self) -> (r: Option<u64>)
        ensures
            r == (if self.hwnd != 0 {
                Some(self.hwnd)
            } else {
                None
            }),
    {
        if self.hwnd != 0 {
            Some(self.hwnd)
        } else {
            None
        }
    }

    /// The window, taken from what mpv reported on first use.
    pub fn win_ensure_hwnd(&mut self, window_id: Option<u64>) -> (r: Option<u64>)
        ensures
            old(self).hwnd != 0 ==> r == Some(old(self).hwnd) && *final(self) == *old(self),
            old(self).hwnd == 0 ==> match window_id {
                Some(id) => if id != 0 {
                    r == Some(id) && *final(self) == (WinState { hwnd: id, ..*old(self) })
                } else {
                    r is None && *final(self) == *old(self)
                },
                None => r is None && *final(self) == *old(self),
            },
    {
        if self.hwnd != 0 {
            return Some(self.hwnd);
        }
        match window_id {
            Some(id) => {
                if id == 0 {
                    return None;
                }
                self.hwnd = id;
                Some(id)
            },
            None => None,
        }
    }

    /// Sets the backend up: mpv's window has to be known, its renderer to start
    /// and its messages to be hooked, in that order. Returns whether all did.
    pub fn win_init(&mut self, window_id: Option<u64>, rendering: bool, hook: Option<u64>) -> (r:
        bool)
        ensures
            ({
                let known = if old(self).hwnd != 0 {
                    old(self).hwnd
                } else {
                    match window_id {
                        Some(id) => id,
                        None => 0,
                    }
                };
                &&& r == (known != 0 && rendering && hook is Some)
                &&& *final(self) == (WinState {
                    hwnd: known,
                    hook: match hook {
                        Some(h) => if known != 0 && rendering {
                            h
                        } else {
                            old(self).hook
                        },
                        None => old(self).hook,
                    },
                    ..*old(self)
                })
            }),
    {
        if self.win_ensure_hwnd(window_id).is_none() {
            return false;
        }
        if !rendering {
            return false;
        }
        match hook {
            Some(h) => {
                self.hook = h;
                true
            },
            None => false,
        }
    }

    /// What going to or from fullscreen does, with `flip` being how mpv is asked.
    pub open spec fn flipped(self, fullscreen: bool, zoomed: bool, flip: PlayerCall) -> (
        WinState,
        Seq<PlayerCall>,
    ) {
        if fullscreen {
            (
                WinState { restore_maximized_on_unfullscreen: zoomed, ..self },
                seq![PlayerCall::SetMinimized(false), flip],
            )
        } else {
            (
                WinState { restore_maximized_on_unfullscreen: false, ..self },
                if self.restore_maximized_on_unfullscreen {
                    seq![flip, PlayerCall::SetMaximized(true)]
                } else {
                    seq![flip]
                },
            )
        }
    }

    fn flip(&mut self, fullscreen: bool, zoomed: bool, flip: PlayerCall) -> (r: Vec<PlayerCall>)
        ensures
            *final(self) == old(self).flipped(fullscreen, zoomed, flip).0,
            r@ == old(self).flipped(fullscreen, zoomed, flip).1,
    {
        let mut r: Vec<PlayerCall> = Vec::new();
        if fullscreen {
            self.restore_maximized_on_unfullscreen = zoomed;
            r.push(PlayerCall::SetMinimized(false));
            r.push(flip);
        } else {
            let restore = self.restore_maximized_on_unfullscreen;
            self.restore_maximized_on_unfullscreen = false;
            r.push(flip);
            if restore {
                r.push(PlayerCall::SetMaximized(true));
            }
        }
        assert(r@ =~= old(self).flipped(fullscreen, zoomed, flip).1);
        r
    }

    /// Goes to or from fullscreen. Nothing happens without a player or a
    /// window, nor where that is the state already.
    pub fn win_set_fullscreen(
        &mut self,
        fullscreen: bool,
        has_player: bool,
        is_fullscreen: bool,
        zoomed: bool,
    ) -> (r: Vec<PlayerCall>)
        ensures
            ({
                let acts = has_player && is_fullscreen != fullscreen && old(self).hwnd != 0;
                let f = old(self).flipped(
                    fullscreen,
                    zoomed,
                    PlayerCall::SetFullscreen(fullscreen),
                );
                &&& acts ==> *final(self) == f.0 && r@ == f.1
                &&& !acts ==> *final(self) == *old(self) && r@.len() == 0
            }),
    {
        if !has_player || is_fullscreen == fullscreen || self.hwnd == 0 {
            return Vec::new();
        }
        self.flip(fullscreen, zoomed, PlayerCall::SetFullscreen(fullscreen))
    }

    /// Goes the other way.
    pub fn win_toggle_fullscreen(
        &mut self,
        has_player: bool,
        is_fullscreen: bool,
        zoomed: bool,
    ) -> (r: Vec<PlayerCall>)
        ensures
            ({
                let acts = has_player && old(self).hwnd != 0;
                let f = old(self).flipped(!is_fullscreen, zoomed, PlayerCall::ToggleFullscreen);
                &&& acts ==> *final(self) == f.0 && r@ == f.1
                &&& !acts ==> *final(self) == *old(self) && r@.len() == 0
            }),
    {
        if !has_player || self.hwnd == 0 {
            return Vec::new();
        }
        self.flip(!is_fullscreen, zoomed, PlayerCall::ToggleFullscreen)
    }

    /// What a message to a window means. Only messages to mpv's window count.
    pub open spec fn hooked(self, window: u64, msg: WinMessage) -> (WinState, Seq<WinAction>) {
        if window != self.hwnd {
            (self, seq![])
        } else {
            match msg {
                WinMessage::Size { minimized } => if minimized {
                    (
                        WinState { was_minimized: true, ..self },
                        if self.was_minimized {
                            seq![]
                        } else {
                            seq![WinAction::SetVisible(false)]
                        },
                    )
                } else {
                    (
                        WinState { was_minimized: false, ..self },
                        if self.was_minimized {
                            seq![WinAction::PublishAndResize, WinAction::SetVisible(true)]
                        } else {
                            seq![WinAction::PublishAndResize]
                        },
                    )
                },
                WinMessage::Move => (self, seq![WinAction::Sample]),
                WinMessage::DpiChanged => (self, seq![WinAction::Publish]),
                WinMessage::StyleChanged => (self, seq![WinAction::Publish]),
                WinMessage::Close => (self, seq![WinAction::Shutdown]),
                WinMessage::Other => (self, seq![]),
            }
        }
    }

    /// The message hook. With a negative `code` the message only passes through.
    pub fn mpv_wndproc_hook(&mut self, code: i32, window: u64, msg: WinMessage) -> (r: Vec<
        WinAction,
    >)
        ensures
            code >= 0 ==> {
                &&& *final(self) == old(self).hooked(window, msg).0
                &&& r@ == old(self).hooked(window, msg).1
            },
            code < 0 ==> *final(self) == *old(self) && r@.len() == 0,
    {
        let mut r: Vec<WinAction> = Vec::new();
        if code < 0 {
            return r;
        }
        if window == self.hwnd {
            match msg {
                WinMessage::Size { minimized } => {
                    let was = self.was_minimized;
                    self.was_minimized = minimized;
                    if minimized {
                        if !was {
                            r.push(WinAction::SetVisible(false));
                        }
                    } else {
                        r.push(WinAction::PublishAndResize);
                        if was {
                            r.push(WinAction::SetVisible(true));
                        }
                    }
                },
                WinMessage::Move => r.push(WinAction::Sample),
                WinMessage::DpiChanged => r.push(WinAction::Publish),
                WinMessage::StyleChanged => r.push(WinAction::Publish),
                WinMessage::Close => r.push(WinAction::Shutdown),
                WinMessage::Other => {},
            }
        }
        assert(r@ =~= old(self).hooked(window, msg).1);
        r
    }

    /// Takes the backend down. Returns the hook to remove, where there is one.
    pub fn win_cleanup(&mut self) -> (hook: Option<u64>)
        ensures
            hook == (if old(self).hook != 0 {
                Some(old(self).hook)
            } else {
                None
            }),
            *final(self) == (WinState { hook: 0, hwnd: 0, ..*old(self) }),
    {
        let hook: u64 = self.hook;
        self.hook = 0;
        self.hwnd = 0;
        if hook != 0 {
            Some(hook)
        } else {
            None
        }
    }
}

/// A window that was maximized before it went fullscreen is maximized again
/// after, and only such a one.
pub proof fn unfullscreen_restores_maximized(s: WinState, zoomed: bool, later: bool)
    ensures
        ({
            let entered = s.flipped(true, zoomed, PlayerCall::SetFullscreen(true)).0;
            let left = entered.flipped(false, later, PlayerCall::SetFullscreen(false));
            &&& left.1.contains(PlayerCall::SetMaximized(true)) <==> zoomed
            &&& !left.0.restore_maximized_on_unfullscreen
        }),
{
    let entered = s.flipped(true, zoomed, PlayerCall::SetFullscreen(true)).0;
    let left = entered.flipped(false, later, PlayerCall::SetFullscreen(false));
    if zoomed {
        assert(left.1[1] == PlayerCall::SetMaximized(true));
    }
}

/// Visibility is told once per change, however many size messages come.
pub proof fn visibility_is_told_on_edges(s: WinState, window: u64)
    requires
        window == s.hwnd,
    ensures
        ({
            let down = s.hooked(window, WinMessage::Size { minimized: true });
            let again = down.0.hooked(window, WinMessage::Size { minimized: true });
            let up = again.0.hooked(window, WinMessage::Size { minimized: false });
            let more = up.0.hooked(window, WinMessage::Size { minimized: false });
            &&& again.1.len() == 0
            &&& up.1.contains(WinAction::SetVisible(true))
            &&& !more.1.contains(WinAction::SetVisible(true))
        }),
{
    let down = s.hooked(window, WinMessage::Size { minimized: true });
    let again = down.0.hooked(window, WinMessage::Size { minimized: true });
    let up = again.0.hooked(window, WinMessage::Size { minimized: false });
    assert(up.1[1] == WinAction::SetVisible(true));
}

} // verus!
