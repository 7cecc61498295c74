use jellium_platform::x11::overlay_fsm::step;
use jellium_platform::x11::overlay_fsm::Effect;
use jellium_platform::x11::overlay_fsm::Geom;
use jellium_platform::x11::overlay_fsm::Inputs;
use jellium_platform::x11::overlay_fsm::OverlayState;

const WIN: Geom = (100, 50, 800, 600);
const FS: Geom = (0, 0, 1920, 1080);

fn managed() -> OverlayState {
    OverlayState {
        mapped: true,
        unmanaged: false,
    }
}

fn unmanaged() -> OverlayState {
    OverlayState {
        mapped: true,
        unmanaged: true,
    }
}

fn inputs(parent: Geom, fs: bool, observed: Option<Geom>) -> Inputs {
    Inputs {
        parent_geom: parent,
        parent_fullscreen: fs,
        want_visible: true,
        observed,
        observed_mapped: Some(true),
    }
}

fn place_pos(effects: &[Effect]) -> Option<usize> {
    effects.iter().position(|e| matches!(e, Effect::Place))
}

// Entering fullscreen flips to override_redirect (remap), then places it at
// the fullscreen rect - ordering matters: setattr then map then place.
#[test]
fn entering_fullscreen_flips_then_places() {
    let mut s = managed();
    let e = step(&mut s, &inputs(FS, true, Some(WIN)));
    assert_eq!(e[0], Effect::SetOverrideRedirect(true));
    assert_eq!(e[1], Effect::MapAndRaise);
    assert!(e.contains(&Effect::Place));
    let or = e
        .iter()
        .position(|x| *x == Effect::SetOverrideRedirect(true));
    let map = e.iter().position(|x| *x == Effect::MapAndRaise);
    assert!(or < map && map < place_pos(&e));
    assert!(s.unmanaged && s.mapped);
}

#[test]
fn leaving_fullscreen_flips_back() {
    let mut s = unmanaged();
    let e = step(&mut s, &inputs(WIN, false, Some(FS)));
    assert_eq!(e[0], Effect::SetOverrideRedirect(false));
    assert!(e.contains(&Effect::MapAndRaise));
    assert!(e.contains(&Effect::Place));
    assert!(!s.unmanaged);
}

// The WM withdrew (unmapped) the window during the flip - server truth says
// unmapped, so re-map even though our state believed mapped.
#[test]
fn server_unmapped_triggers_remap() {
    let mut s = unmanaged();
    let mut i = inputs(FS, true, Some(FS));
    i.observed_mapped = Some(false);
    let e = step(&mut s, &i);
    assert!(e.contains(&Effect::MapAndRaise));
}

#[test]
fn fullscreen_converged_is_noop() {
    let mut s = unmanaged();
    let e = step(&mut s, &inputs(FS, true, Some(FS)));
    assert_eq!(e, vec![]);
}

#[test]
fn windowed_converged_is_noop() {
    let mut s = managed();
    let e = step(&mut s, &inputs(WIN, false, Some(WIN)));
    assert_eq!(e, vec![]);
}

// No flip while staying fullscreen: a WM clamp shows as a rect mismatch and
// is corrected by a plain place (we own the unmanaged geometry).
#[test]
fn fullscreen_drift_replaces_without_flip() {
    let mut s = unmanaged();
    let clamped = (0, 27, 1920, 1053);
    let e = step(&mut s, &inputs(FS, true, Some(clamped)));
    assert!(
        !e.iter()
            .any(|x| matches!(x, Effect::SetOverrideRedirect(_)))
    );
    assert!(e.contains(&Effect::Place));
}

#[test]
fn windowed_move_replaces() {
    let mut s = managed();
    let moved = (300, 200, 800, 600);
    let e = step(&mut s, &inputs(moved, false, Some(WIN)));
    assert!(e.contains(&Effect::Place));
}

// A pure size mismatch (same origin) still triggers a place - the geometry
// thread is the sole sizer.
#[test]
fn size_mismatch_replaces() {
    let mut s = managed();
    let bigger = (100, 50, 1024, 768);
    let e = step(&mut s, &inputs(bigger, false, Some(WIN)));
    assert!(e.contains(&Effect::Place));
}

#[test]
fn hidden_overlay_unmaps_and_stops() {
    let mut s = managed();
    let mut i = inputs(WIN, false, Some(WIN));
    i.want_visible = false;
    let e = step(&mut s, &i);
    assert_eq!(e, vec![Effect::Unmap]);
    assert!(!s.mapped);
}

#[test]
fn remap_forces_placement() {
    let mut s = OverlayState {
        mapped: false,
        unmanaged: false,
    };
    let e = step(&mut s, &inputs(WIN, false, Some(WIN)));
    assert!(e.contains(&Effect::MapAndRaise));
    assert!(place_pos(&e).is_some());
}

#[test]
fn converges_in_one_step() {
    let mut s = OverlayState::new_mapped(false);
    let mut i = inputs(FS, true, Some(WIN));
    assert_eq!(
        step(&mut s, &i),
        vec![Effect::SetOverrideRedirect(true), Effect::MapAndRaise, Effect::Place]
    );
    i.observed = Some(FS);
    assert_eq!(step(&mut s, &i), vec![]);
    assert_eq!(step(&mut s, &i), vec![]);
}
