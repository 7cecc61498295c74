//! Lifecycle of the X11 input thread.

use vstd::prelude::*;

use crate::x11::x11_state::HostServices;

verus! {

/// The screen whose cursors the input thread loads.
pub open spec fn input_screen(host: Option<HostServices>) -> i32 {
    match host {
        Some(h) => h.screen_num,
        None => 0,
    }
}

/// The screen the input thread is started on.
pub fn start_screen(host: &Option<HostServices>) -> (r: i32)
    ensures
        r == input_screen(*host),
{
    match host {
        Some(h) => h.screen_num,
        None => 0,
    }
}

/// Takes over a started input thread; one that could not be started leaves
/// things as they are. Returns the thread that was there before.
pub fn start<H>(slot: &mut Option<H>, started: Option<H>) -> (replaced: Option<H>)
    ensures
        started is Some ==> *final(slot) == started && replaced == *old(slot),
        started is None ==> *final(slot) == *old(slot) && replaced is None,
{
    match started {
        Some(h) => {
            let replaced = slot.take();
            *slot = Some(h);
            replaced
        },
        None => None,
    }
}

/// Takes the input thread's handle, to be joined; a second call finds none.
pub fn cleanup<H>(slot: &mut Option<H>) -> (r: Option<H>)
    ensures
        r == *old(slot),
        *final(slot) is None,
{
    slot.take()
}

} // verus!
