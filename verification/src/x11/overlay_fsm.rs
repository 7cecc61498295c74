//! Placement state machine for one browser overlay tracking the mpv parent.
//! The geometry thread is the executor: it snapshots parent truth, calls
//! [`step`] per overlay, and applies the effects.
//!
//! Fullscreen escape works by flipping the overlay to `override_redirect` (an
//! unmanaged window the WM won't strut-clamp), positioned at the parent's
//! fullscreen rect. Windowed overlays stay WM-managed transients.

use vstd::prelude::*;

verus! {

/// Absolute screen rect: `(x, y, w, h)`.
pub type Geom = (i32, i32, i32, i32);

#[derive(Clone, Copy, PartialEq, Eq, Structural, Debug)]
pub struct OverlayState {
    pub mapped: bool,
    /// `override_redirect` is set (unmanaged): true exactly while fullscreen.
    pub unmanaged: bool,
}

impl OverlayState {
    pub fn new_mapped(parent_fullscreen: bool) -> (s: Self)
        ensures
            s == (OverlayState { mapped: true, unmanaged: parent_fullscreen }),
    {
        OverlayState { mapped: true, unmanaged: parent_fullscreen }
    }
}

/// Parent truth and this overlay's wants, snapshotted once per handler pass.
#[derive(Clone, Copy, PartialEq, Eq, Debug)]
pub struct Inputs {
    /// Absolute parent geometry; in fullscreen this is the monitor rect.
    pub parent_geom: Geom,
    /// From the parent's `_NET_WM_STATE`, never mpv's flag, which can lag the
    /// WM.
    pub parent_fullscreen: bool,
    pub want_visible: bool,
    pub observed: Option<Geom>,
    /// The window's actual server map state, if known. Lets the machine recover
    /// when the WM withdraws the window during the flip: it is just re-mapped
    /// until it sticks.
    pub observed_mapped: Option<bool>,
}

#[derive(Clone, Copy, PartialEq, Eq, Structural, Debug)]
pub enum Effect {
    /// Unmap (if mapped) and set the `override_redirect` attribute; leaves the
    /// window unmapped. The WM only re-reads the attribute at map time, so the
    /// flip must round-trip through a remap.
    SetOverrideRedirect(bool),
    /// Map, re-establish the passive button grab, raise above the parent.
    MapAndRaise,
    Unmap,
    /// Reassert position and size from the parent geometry in one configure.
    /// Emitted only when the observed rect differs (or a just-mapped overlay
    /// has no trustworthy sample), which keeps our own ConfigureNotify from
    /// looping.
    Place,
}

/// Whether the flip has to be made.
pub open spec fn flips(st: OverlayState, i: Inputs) -> bool {
    st.unmanaged != i.parent_fullscreen
}

/// Whether the window is mapped once server truth and the flip are accounted
/// for.
pub open spec fn still_mapped(st: OverlayState, i: Inputs) -> bool {
    st.mapped && i.observed_mapped != Some(false) && !flips(st, i)
}

/// The state after a pass: managed as the parent is, mapped as wanted.
pub open spec fn stepped(i: Inputs) -> OverlayState {
    OverlayState { mapped: i.want_visible, unmanaged: i.parent_fullscreen }
}

/// What a pass emits: the flip, then the change of visibility, then the
/// placement.
pub open spec fn emitted(st: OverlayState, i: Inputs) -> Seq<Effect> {
    (if flips(st, i) {
        seq![Effect::SetOverrideRedirect(i.parent_fullscreen)]
    } else {
        seq![]
    }) + (if i.want_visible {
        if still_mapped(st, i) {
            if i.observed == Some(i.parent_geom) {
                seq![]
            } else {
                seq![Effect::Place]
            }
        } else {
            seq![Effect::MapAndRaise, Effect::Place]
        }
    } else if still_mapped(st, i) {
        seq![Effect::Unmap]
    } else {
        seq![]
    })
}

fn rect_differs(observed: Option<Geom>, geom: Geom) -> (r: bool)
    ensures
        r == (observed != Some(geom)),
{
    match observed {
        Some(o) => o.0 != geom.0 || o.1 != geom.1 || o.2 != geom.2 || o.3 != geom.3,
        None => true,
    }
}

/// Re-derive this overlay's desired placement from `inputs` and emit the
/// minimal idempotent effects to converge `state`. A converged, unchanged state
/// yields nothing.
pub fn step(state: &mut OverlayState, inputs: &Inputs) -> (effects: Vec<Effect>)
    ensures
        *final(state) == stepped(*inputs),
        effects@ == emitted(*old(state), *inputs),
{
    let mut effects: Vec<Effect> = Vec::new();
    let mut force = false;
    // Server truth wins.
    if let Some(mapped) = inputs.observed_mapped {
        if !mapped {
            state.mapped = false;
        }
    }
    // The flip can only take effect through a remap, so it drops the window to
    // unmapped and the visibility block below maps it back.
    if state.unmanaged != inputs.parent_fullscreen {
        state.unmanaged = inputs.parent_fullscreen;
        state.mapped = false;
        effects.push(Effect::SetOverrideRedirect(inputs.parent_fullscreen));
    }
    if !inputs.want_visible {
        if state.mapped {
            state.mapped = false;
            effects.push(Effect::Unmap);
        }
        assert(effects@ =~= emitted(*old(state), *inputs));
        return effects;
    }
    // A just-mapped overlay has no trustworthy observed geometry yet.
    if !state.mapped {
        state.mapped = true;
        effects.push(Effect::MapAndRaise);
        force = true;
    }
    if force || rect_differs(inputs.observed, inputs.parent_geom) {
        effects.push(Effect::Place);
    }
    assert(effects@ =~= emitted(*old(state), *inputs));
    effects
}

/// Once the effects of a pass have taken hold, the next pass emits nothing:
/// the machine converges in one step and does not answer its own events.
pub proof fn converged_step_is_silent(st: OverlayState, i: Inputs)
    ensures
        ({
            let settled = Inputs {
                observed: Some(i.parent_geom),
                observed_mapped: Some(i.want_visible),
                ..i
            };
            emitted(stepped(i), settled) == Seq::<Effect>::empty()
        }),
{
    let settled = Inputs {
        observed: Some(i.parent_geom),
        observed_mapped: Some(i.want_visible),
        ..i
    };
    assert(emitted(stepped(i), settled) =~= Seq::<Effect>::empty());
}

/// An overlay is unmanaged after a pass exactly while its parent is fullscreen,
/// and the flip is always followed by a remap of a visible overlay.
pub proof fn flip_goes_through_a_remap(st: OverlayState, i: Inputs)
    requires
        flips(st, i),
        i.want_visible,
    ensures
        stepped(i).unmanaged == i.parent_fullscreen,
        emitted(st, i) == seq![
            Effect::SetOverrideRedirect(i.parent_fullscreen),
            Effect::MapAndRaise,
            Effect::Place,
        ],
{
    assert(emitted(st, i) =~= seq![
        Effect::SetOverrideRedirect(i.parent_fullscreen),
        Effect::MapAndRaise,
        Effect::Place,
    ]);
}

} // verus!
