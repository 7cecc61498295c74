use jellium_platform::abi::FrameSize;
use jellium_platform::abi::JfnRect;
use jellium_platform::wayland::layer::Present;
use jellium_platform::wayland::layer::PresentError;
use jellium_platform::wayland::layer::SharedTexture;
use jellium_platform::wayland::layer::ViewportState;
use jellium_platform::wayland::layer_actor::Kind;
use jellium_platform::wayland::layer_actor::LayerActor;
use jellium_platform::wayland::layer_actor::PendingFrame;
use jellium_platform::wayland::scale::Scale120;
use jellium_platform::wayland::window_state::PublishedExtent;
use jellium_platform::wayland::window_state::ScaleProvenance;
use jellium_platform::wayland::window_state::WindowMode;
use jellium_platform::wayland::window_state::WindowSize;
use jellium_platform::wayland::window_state::WindowState;
use jellium_platform::wayland::wl_ops::extent_or;
use jellium_platform::wayland::wl_ops::layer_kind;
use jellium_platform::wayland::wl_ops::PlatformSurface;
use jellium_platform::wayland::wl_ops::SurfaceStack;

fn window() -> Option<PublishedExtent> {
    let mut w = WindowState::new();
    w.publish(WindowSize::new(100, 50).unwrap(), WindowMode::Floating);
    assert_eq!(w.window_extent(), None);
    w.feed_scale(Scale120::from_wire(180).unwrap(), ScaleProvenance::Authoritative);
    w.window_extent()
}

fn surface(kind: Kind) -> PlatformSurface<u32> {
    let mut s = PlatformSurface::new();
    s.has_surface = true;
    s.actor = Some(LayerActor::new(kind, extent_or(&None, 0, 0), false));
    s
}

fn texture(w: i32, h: i32) -> SharedTexture<u32> {
    SharedTexture {
        coded: FrameSize { w, h },
        visible: FrameSize { w, h },
        modifier: 0,
        planes: vec![],
    }
}

#[test]
fn the_window_extent_replaces_the_frames() {
    assert_eq!(extent_or(&None, 3, 4), ViewportState { lw: 3, lh: 4, pw: 3, ph: 4 });
    assert_eq!(extent_or(&window(), 3, 4), ViewportState { lw: 100, lh: 50, pw: 150, ph: 75 });
    assert_eq!(layer_kind(true, true), Kind::Gpu);
    assert_eq!(layer_kind(true, false), Kind::Shm);
    assert_eq!(layer_kind(false, true), Kind::Shm);
}

#[test]
fn showing_paints_a_placeholder_on_shared_memory() {
    let mut s = surface(Kind::Shm);
    assert!(!s.surface_set_visible(false, false, 1, 2, 3));
    assert!(s.surface_set_visible(true, false, 1, 2, 3));
    let a = s.actor.as_ref().unwrap();
    assert!(matches!(a.state.pending, Some(PendingFrame::Placeholder(1, 2, 3))));
    assert!(s.surface_set_visible(false, false, 1, 2, 3));
    assert!(s.null_attached);
    assert!(s.actor.as_ref().unwrap().state.pending.is_none());
    assert!(s.surface_set_visible(true, true, 1, 2, 3));
    assert!(s.actor.as_ref().unwrap().state.pending.is_none());
    s.has_surface = false;
    assert!(!s.surface_set_visible(false, true, 1, 2, 3));
    assert!(!s.visible);
}

#[test]
fn textures_far_from_the_window_wait() {
    let mut s = surface(Kind::Shm);
    let skipped = Ok(Present::Skipped);
    assert_eq!(s.surface_present(texture(8, 8), true, true, &None), skipped);
    s.visible = true;
    assert_eq!(s.surface_present(texture(8, 8), false, true, &None), skipped);
    assert_eq!(s.surface_present(texture(8, 8), true, false, &None), skipped);
    s.null_attached = true;
    assert_eq!(
        s.surface_present(texture(8, 8), true, false, &window()),
        Ok(Present::Committed)
    );
    assert!(!s.null_attached);
    let a = s.actor.as_ref().unwrap();
    assert!(matches!(a.state.pending, Some(PendingFrame::Dmabuf(_))));
    assert_eq!((a.state.viewport.pw, a.state.viewport.ph), (150, 75));
    assert_eq!(
        s.surface_present(texture(0, 8), true, true, &None),
        Err(PresentError::BadDimensions(0, 8))
    );
    s.actor = None;
    assert_eq!(s.surface_present(texture(8, 8), true, true, &None), skipped);
}

#[test]
fn software_frames_reach_the_layer() {
    let mut s = surface(Kind::Shm);
    let all = [JfnRect { x: 0, y: 0, w: 1, h: 1 }];
    let px = [1u8, 2, 3, 4];
    assert_eq!(
        s.surface_present_software(&all, &px, 0, 1, &None),
        Err(PresentError::BadDimensions(0, 1))
    );
    assert_eq!(s.surface_present_software(&all, &px, 1, 1, &None), Ok(Present::Skipped));
    s.visible = true;
    assert_eq!(
        s.surface_present_software(&all, &px, 1, 2, &None),
        Err(PresentError::ShortBuffer { have: 4, need: 8 })
    );
    assert_eq!(s.surface_present_software(&all, &px, 1, 1, &None), Ok(Present::Committed));
    let a = s.actor.as_ref().unwrap();
    let Some(PendingFrame::Shm(p)) = &a.state.pending else {
        panic!("expected a software frame");
    };
    assert_eq!(p.full_pixels.as_deref(), Some(&px[..]));
    assert_eq!(a.state.viewport, ViewportState { lw: 1, lh: 1, pw: 1, ph: 1 });
    s.on_configure(&window().unwrap());
    assert_eq!(s.actor.as_ref().unwrap().state.viewport.lw, 100);

    let mut s = surface(Kind::Gpu);
    s.visible = true;
    assert_eq!(s.surface_present_software(&all, &px, 1, 1, &None), Ok(Present::Committed));
    let Some(PendingFrame::Gpu(p)) = &s.actor.as_ref().unwrap().state.pending else {
        panic!("expected a frame for the painter");
    };
    assert_eq!((p.width, p.height, p.stride), (1, 1, 4));
}

#[test]
fn null_surfaces_are_not_stacked() {
    let mut st = SurfaceStack::new();
    assert_eq!(st.restack(&[3, 0, 5, 3]), vec![3, 5, 3]);
    assert_eq!(st.stack, vec![3, 0, 5, 3]);
    st.free_surface(3);
    assert_eq!(st.stack, vec![0, 5]);
    assert_eq!(st.on_configure(true, &None), Vec::<u64>::new());
    assert!(!st.was_fullscreen);
    assert_eq!(st.on_configure(true, &window()), vec![5]);
    assert!(st.was_fullscreen);
}
