use jellium_platform::wayland::scale::Scale120;
use jellium_platform::wayland::scale_probe::candidate;
use jellium_platform::wayland::scale_probe::collect_candidates;
use jellium_platform::wayland::scale_probe::probe_scale;
use jellium_platform::wayland::scale_probe::probe_scale_bounded;
use jellium_platform::wayland::scale_probe::select_scale;
use jellium_platform::wayland::scale_probe::transform_swaps_axes;
use jellium_platform::wayland::scale_probe::OutputCandidate;
use jellium_platform::wayland::scale_probe::OutputInfo;
use jellium_platform::wayland::scale_probe::OutputMode;
use jellium_platform::wayland::scale_probe::ProbeReply;
use jellium_platform::wayland::scale_probe::ProbeTarget;
use jellium_platform::wayland::scale_probe::ScaleProbeError;
use jellium_platform::wayland::scale_probe::Transform;
use jellium_platform::wayland::window_state::ScaleProvenance;
use jellium_platform::wayland::window_state::WindowMode;
use jellium_platform::wayland::window_state::WindowSize;
use jellium_platform::wayland::window_state::WindowState;

fn ratio_f32(s: Scale120) -> f32 {
    s.raw() as f32 / Scale120::BASE as f32
}

fn ratio_text(s: Scale120) -> String {
    format!("{}", f64::from(s.raw()) / f64::from(Scale120::BASE))
}

#[test]
fn wire_zero_rejected() {
    assert_eq!(Scale120::from_wire(0), None);
}

#[test]
fn wire_roundtrip() {
    let s = Scale120::from_wire(150).unwrap();
    assert_eq!(ratio_f32(s), 1.25);
}

#[test]
fn rational_matches_exact_ratios() {
    let logical = 1920;
    assert_eq!(Scale120::from_physical_logical(1920, logical), Some(Scale120::unit()));
    assert_eq!(Scale120::from_physical_logical(2400, logical), Scale120::from_wire(150));
    assert_eq!(Scale120::from_physical_logical(2880, logical), Scale120::from_wire(180));
}

#[test]
fn rational_rounds_half_up_and_rejects_zero() {
    assert_eq!(Scale120::from_physical_logical(0, 1), None);
    assert_eq!(Scale120::from_physical_logical(1, 240), Scale120::from_wire(1));
}

#[test]
fn rational_rejects_overflowing_result() {
    assert_eq!(Scale120::from_physical_logical(u32::MAX, 1), None);
}

#[test]
fn a_dimension_scaled_to_nothing_is_refused() {
    let tiny = Scale120::from_wire(1).unwrap();
    assert_eq!(tiny.scale_dim(1), None);
    assert_eq!(tiny.scale_dim(59), None);
    assert_eq!(tiny.scale_dim(60), Some(1));
    assert_eq!(Scale120::unit().scale_dim(0), None);
    assert_eq!(Scale120::unit().scale_dim(-5), None);
    assert_eq!(Scale120::unit().scale_dim(i32::MAX), Some(i32::MAX));
    assert_eq!(Scale120::from_wire(121).unwrap().scale_dim(i32::MAX), None);
}

#[test]
fn physical_size_rounds_half_up() {
    let s = Scale120::from_wire(150).unwrap();
    let logical = WindowSize::new(1280, 721).unwrap();
    let physical = s.physical_size(logical).unwrap();
    assert_eq!(physical.w(), 1600);
    assert_eq!(physical.h(), 901);
    let s = Scale120::from_wire(180).unwrap();
    let physical = s.physical_size(WindowSize::new(1, 1).unwrap()).unwrap();
    assert_eq!(physical.w(), 2);
}

#[test]
fn physical_size_rejects_dimension_overflow() {
    let s = Scale120::from_wire(240).unwrap();
    let logical = WindowSize::new(i32::MAX, 100).unwrap();
    assert_eq!(s.physical_size(logical), None);
}

#[test]
fn physical_size_survives_extreme_scale_times_extreme_dim() {
    let s = Scale120::from_wire(u32::MAX).unwrap();
    let logical = WindowSize::new(i32::MAX, i32::MAX).unwrap();
    assert_eq!(s.physical_size(logical), None);
}

#[test]
fn unit_scale_is_identity() {
    let logical = WindowSize::new(1280, 720).unwrap();
    assert_eq!(Scale120::unit().physical_size(logical), Some(logical));
}

#[test]
fn display_formats_as_ratio() {
    assert_eq!(ratio_text(Scale120::unit()), "1");
    assert_eq!(ratio_text(Scale120::from_wire(150).unwrap()), "1.25");
}

fn lcg(seed: u64) -> impl FnMut() -> u64 {
    let mut s = seed;
    move || {
        s = s.wrapping_mul(6364136223846793005).wrapping_add(1442695040888963407);
        s
    }
}

const WIRE_EDGES: [u32; 6] = [1, 119, 120, 121, 240, u32::MAX];
const DIM_EDGES: [i32; 5] = [1, 2, 120, i32::MAX - 1, i32::MAX];

#[test]
fn physical_size_agrees_with_exact_rational_oracle() {
    let mut next = lcg(0x5CA1E);
    let check = |wire: u32, w: i32, h: i32| {
        let (Some(scale), Some(logical)) = (Scale120::from_wire(wire), WindowSize::new(w, h))
        else {
            return;
        };
        let oracle = |d: i32| (i128::from(d) * i128::from(wire) + 60) / 120;
        let (ow, oh) = (oracle(w), oracle(h));
        let representable = |d: i128| (1..=i128::from(i32::MAX)).contains(&d);
        match scale.physical_size(logical) {
            Some(p) => {
                assert_eq!(i128::from(p.w()), ow, "wire={wire} w={w}");
                assert_eq!(i128::from(p.h()), oh, "wire={wire} h={h}");
            }
            None => {
                assert!(
                    !representable(ow) || !representable(oh),
                    "wire={wire} {w}x{h} rejected but representable"
                );
            }
        }
    };
    for wire in WIRE_EDGES {
        for w in DIM_EDGES {
            for h in DIM_EDGES {
                check(wire, w, h);
            }
        }
    }
    for _ in 0..10_000 {
        let wire = (next() % 1200 + 1) as u32;
        let w = (next() % 20_000 + 1) as i32;
        let h = (next() % 20_000 + 1) as i32;
        check(wire, w, h);
    }
}

#[test]
fn from_physical_logical_agrees_with_exact_rational_oracle() {
    let mut next = lcg(0xF00D);
    let check = |physical: u32, logical: u32| {
        if logical == 0 {
            return;
        }
        let oracle = (u128::from(physical) * 120 + u128::from(logical) / 2) / u128::from(logical);
        match Scale120::from_physical_logical(physical, logical) {
            Some(s) => assert_eq!(
                Scale120::from_wire(u32::try_from(oracle).unwrap()),
                Some(s),
                "{physical}/{logical}"
            ),
            None => assert!(
                oracle == 0 || oracle > u128::from(u32::MAX),
                "{physical}/{logical} rejected but oracle={oracle}"
            ),
        }
    };
    for physical in [0u32, 1, 119, 120, 1920, 3840, u32::MAX] {
        for logical in [1u32, 2, 120, 1920, u32::MAX] {
            check(physical, logical);
        }
    }
    for _ in 0..10_000 {
        let physical = (next() % 20_000) as u32;
        let logical = (next() % 20_000 + 1) as u32;
        check(physical, logical);
    }
}

#[test]
fn scale_then_rederive_roundtrips_within_one_120th() {
    let mut next = lcg(0xB0BA);
    for _ in 0..10_000 {
        let wire = (next() % 421 + 60) as u32;
        let w = (next() % 7_500 + 120) as i32;
        let scale = Scale120::from_wire(wire).unwrap();
        let logical = WindowSize::new(w, w).unwrap();
        let Some(physical) = scale.physical_size(logical) else {
            continue;
        };
        let rederived = Scale120::from_physical_logical(
            u32::try_from(physical.w()).unwrap(),
            u32::try_from(w).unwrap(),
        )
        .unwrap();
        assert!(
            [wire - 1, wire, wire + 1]
                .into_iter()
                .any(|cand| Scale120::from_wire(cand) == Some(rederived)),
            "wire={wire} w={w} rederived out of tolerance"
        );
    }
}

fn landscape() -> OutputCandidate {
    OutputCandidate::new((0, 0), (2560, 1440), (3840, 2160), false)
}

fn portrait() -> OutputCandidate {
    OutputCandidate::new((2560, 0), (1440, 2560), (3840, 2160), true)
}

fn scale_of(r: Result<Scale120, ScaleProbeError>) -> f32 {
    ratio_f32(r.unwrap())
}

#[test]
fn first_output_uses_first_usable() {
    assert_eq!(
        scale_of(select_scale(&[landscape(), portrait()], ProbeTarget::FirstOutput)),
        1.5
    );
}

#[test]
fn point_selects_containing_output() {
    let outs = [landscape(), portrait()];
    assert_eq!(scale_of(select_scale(&outs, ProbeTarget::Point { x: 100, y: 100 })), 1.5);
    assert_eq!(scale_of(select_scale(&outs, ProbeTarget::Point { x: 2560, y: 0 })), 1.5);
}

#[test]
fn rotated_output_uses_swapped_mode_axis() {
    assert_eq!(scale_of(select_scale(&[portrait()], ProbeTarget::FirstOutput)), 1.5);
}

#[test]
fn point_outside_every_output_falls_back_to_first() {
    assert_eq!(
        scale_of(select_scale(&[landscape()], ProbeTarget::Point { x: -5000, y: -5000 })),
        1.5
    );
}

#[test]
fn no_outputs_is_an_error() {
    assert_eq!(
        select_scale(&[], ProbeTarget::FirstOutput),
        Err(ScaleProbeError::NoUsableOutput)
    );
}

#[test]
fn degenerate_geometry_is_skipped_not_divided_by() {
    let zero_logical = OutputCandidate::new((0, 0), (0, 0), (3840, 2160), false);
    let negative_mode = OutputCandidate::new((0, 0), (2560, 1440), (-1, -1), false);
    assert_eq!(
        select_scale(&[zero_logical, negative_mode], ProbeTarget::FirstOutput),
        Err(ScaleProbeError::NoUsableOutput)
    );
    assert_eq!(
        scale_of(select_scale(&[zero_logical, landscape()], ProbeTarget::FirstOutput)),
        1.5
    );
}

#[test]
fn unusable_containing_output_falls_back() {
    let broken_at_origin = OutputCandidate::new((0, 0), (2560, 1440), (0, 0), false);
    assert_eq!(
        scale_of(select_scale(
            &[broken_at_origin, portrait()],
            ProbeTarget::Point { x: 10, y: 10 }
        )),
        1.5
    );
}

#[test]
fn huge_extents_do_not_overflow_containment() {
    let o = OutputCandidate::new((i32::MAX - 10, 0), (i32::MAX, 100), (100, 100), false);
    assert!(o.contains(i32::MAX - 1, 50));
}

#[test]
fn point_prefers_the_output_it_lies_on() {
    let plain = OutputCandidate::new((0, 0), (1920, 1080), (1920, 1080), false);
    let dense = OutputCandidate::new((1920, 0), (1920, 1080), (3840, 2160), false);
    let outs = [plain, dense];
    assert_eq!(scale_of(select_scale(&outs, ProbeTarget::Point { x: 2000, y: 5 })), 2.0);
    assert_eq!(scale_of(select_scale(&outs, ProbeTarget::FirstOutput)), 1.0);
}

#[test]
fn candidates_need_complete_metadata() {
    let info = |pos, size, modes| OutputInfo {
        logical_position: pos,
        logical_size: size,
        modes,
        transform: Transform::Flipped270,
    };
    let mode = |w, current| OutputMode { dimensions: (w, 100), current };
    assert!(candidate(&info(None, Some((1, 1)), vec![mode(1, true)])).is_none());
    assert!(candidate(&info(Some((0, 0)), None, vec![mode(1, true)])).is_none());
    assert!(candidate(&info(Some((0, 0)), Some((1, 1)), vec![])).is_none());
    let c = candidate(&info(Some((0, 0)), Some((1, 1)), vec![mode(1, false), mode(2, true)]));
    assert_eq!(c.unwrap().mode, (2, 100));
    let c = candidate(&info(Some((0, 0)), Some((1, 1)), vec![mode(1, false), mode(2, false)]));
    assert_eq!(c.unwrap().mode, (1, 100));
    assert!(c.unwrap().swaps_axes);
    let all = collect_candidates(&[
        info(None, None, vec![]),
        info(Some((5, 6)), Some((7, 8)), vec![mode(9, true)]),
    ]);
    assert_eq!(all.len(), 1);
    assert_eq!(all[0].logical_pos, (5, 6));
    assert!(!transform_swaps_axes(Transform::Rotated180));
    assert!(transform_swaps_axes(Transform::Rotated90));
}

#[test]
fn a_probe_says_what_stopped_it() {
    let outputs = Some(vec![OutputInfo {
        logical_position: Some((0, 0)),
        logical_size: Some((2560, 1440)),
        modes: vec![OutputMode { dimensions: (3840, 2160), current: true }],
        transform: Transform::Normal,
    }]);
    let target = ProbeTarget::FirstOutput;
    assert_eq!(probe_scale(false, &outputs, target), Err(ScaleProbeError::NoWaylandSession));
    assert_eq!(probe_scale(true, &None, target), Err(ScaleProbeError::Connection));
    assert_eq!(probe_scale(true, &Some(vec![]), target), Err(ScaleProbeError::NoUsableOutput));
    let probed = probe_scale(true, &outputs, target);
    assert_eq!(ratio_f32(probed.unwrap()), 1.5);
    assert_eq!(probe_scale_bounded(ProbeReply::Probed(probed)), probed);
    assert_eq!(probe_scale_bounded(ProbeReply::NotStarted), Err(ScaleProbeError::Connection));
    assert_eq!(probe_scale_bounded(ProbeReply::Nothing), Err(ScaleProbeError::Timeout));
}

#[test]
fn probe_errors_say_what_is_wrong() {
    assert_eq!(ScaleProbeError::NoWaylandSession.message(), "no Wayland session");
    assert_eq!(ScaleProbeError::Connection.message(), "probe connection failed");
    assert_eq!(ScaleProbeError::NoUsableOutput.message(), "no usable output");
    assert_eq!(ScaleProbeError::Timeout.message(), "probe timed out");
}

#[test]
fn published_extent_scales_the_logical_size() {
    let mut w = WindowState::new();
    assert!(w.window_extent().is_none());
    w.publish(WindowSize::new(100, 50).unwrap(), WindowMode::Tiled);
    assert!(w.window_extent().is_none());
    w.feed_unit_scale();
    assert_eq!(w.window_extent().unwrap().physical.w(), 100);
    w.feed_scale(Scale120::from_wire(180).unwrap(), ScaleProvenance::Authoritative);
    w.feed_unit_scale();
    let e = w.window_extent().unwrap();
    assert_eq!((e.physical.w(), e.physical.h(), e.scale.raw()), (150, 75, 180));
}
