use jellium_platform::abi::FrameSize;
use jellium_platform::abi::JfnRect;
use jellium_platform::wayland::layer::DmabufPlane;
use jellium_platform::wayland::layer::Present;
use jellium_platform::wayland::layer::PresentError;
use jellium_platform::wayland::layer::SharedTexture;
use jellium_platform::wayland::layer::ViewportState;
use jellium_platform::wayland::layer_actor::route_software;
use jellium_platform::wayland::layer_actor::validate_present_dims;
use jellium_platform::wayland::layer_actor::Kind;
use jellium_platform::wayland::layer_actor::LayerActor;
use jellium_platform::wayland::layer_actor::LayerState;
use jellium_platform::wayland::layer_actor::PendingFrame;
use jellium_platform::wayland::layer_actor::Route;
use jellium_platform::wayland::layer_actor::ShadowState;
use jellium_platform::wayland::layer_worker::decide;
use jellium_platform::wayland::layer_worker::degrade;
use jellium_platform::wayland::layer_worker::hide_detaches;
use jellium_platform::wayland::layer_worker::is_degrading_error;
use jellium_platform::wayland::layer_worker::gpu_presented;
use jellium_platform::wayland::layer_worker::lease_request;
use jellium_platform::wayland::layer_worker::next_content;
use jellium_platform::wayland::layer_worker::take_snapshot;
use jellium_platform::wayland::layer_worker::wants_worker;
use jellium_platform::wayland::layer_worker::Action;
use jellium_platform::wayland::layer_worker::Backend;
use jellium_platform::wayland::layer_worker::DmabufKey;
use jellium_platform::wayland::layer_worker::LeaseRequest;
use jellium_platform::wayland::layer_worker::DmabufLease;
use jellium_platform::wayland::layer_worker::Painted;
use jellium_platform::wayland::layer_worker::FrameTask;
use jellium_platform::wayland::layer_worker::Runner;
use jellium_platform::wayland::shm_shadow::apply_dirty_to_shadow;
use jellium_platform::wayland::shm_shadow::compose_shm_shadow;
use jellium_platform::wayland::shm_shadow::copy_dirty_rect;
use jellium_platform::wayland::shm_shadow::ShmPayload;
use jellium_platform::wayland::shm_shadow::ShmRect;
use jellium_platform::wayland::shm_shadow::ShmShadow;

fn vp() -> ViewportState {
    ViewportState { lw: 100, lh: 100, pw: 100, ph: 100 }
}

fn rect(x: i32, y: i32, w: i32, h: i32) -> JfnRect {
    JfnRect { x, y, w, h }
}

fn state() -> LayerState<u32> {
    LayerState::new(vp(), true)
}

#[test]
fn coalesced_hide_then_show_frame_presents() {
    assert_eq!(decide(Some(7u32), false, true, false, false), Action::Present(7));
}

#[test]
fn hide_alone_hides() {
    assert_eq!(decide(None::<u32>, false, false, true, false), Action::Hide);
}

#[test]
fn placeholder_honored_again_after_hide() {
    assert_eq!(decide(Some(0u32), true, true, false, false), Action::Present(0));
}

#[test]
fn placeholder_skipped_when_content_present() {
    assert_eq!(decide(Some(0u32), true, true, true, false), Action::Nop);
}

#[test]
fn next_content_transition_table() {
    assert!(!next_content(true, &Action::<()>::Hide, true, false));
    assert!(next_content(false, &Action::Present(()), true, false));
    assert!(!next_content(false, &Action::Present(()), true, true));
    assert!(next_content(true, &Action::Present(()), false, false));
    assert!(!next_content(false, &Action::Present(()), false, false));
    assert!(!next_content(false, &Action::<()>::ReapplyViewport, true, false));
    assert!(next_content(true, &Action::<()>::Nop, false, false));
}

#[test]
fn viewport_dirty_snapshot_reapplies_viewport() {
    assert_eq!(decide(None::<u32>, false, true, false, true), Action::ReapplyViewport);
}

fn test_rect(tag: u8) -> ShmRect {
    ShmRect { x: 0, y: 0, w: 1, h: 1, pixels: vec![tag; 4] }
}

#[test]
fn store_shm_merges_dirty_only_same_dims() {
    let mut mb = state();
    mb.store_shm(vec![test_rect(1)], None, 100, 100);
    mb.store_shm(vec![test_rect(2)], None, 100, 100);
    let Some(PendingFrame::Shm(p)) = &mb.pending else {
        panic!("expected shm payload");
    };
    assert_eq!(p.rects.len(), 2);
}

#[test]
fn store_shm_replaces_on_dim_mismatch() {
    let mut mb = state();
    mb.store_shm(vec![test_rect(1)], None, 100, 100);
    mb.store_shm(vec![test_rect(2)], None, 200, 200);
    let Some(PendingFrame::Shm(p)) = &mb.pending else {
        panic!("expected shm payload");
    };
    assert_eq!(p.rects.len(), 1);
    assert_eq!((p.width, p.height), (200, 200));
}

#[test]
fn store_shm_replaces_when_pending_has_full() {
    let mut mb = state();
    mb.store_shm(vec![], Some(vec![0u8; 4]), 1, 1);
    mb.store_shm(vec![test_rect(2)], None, 1, 1);
    let Some(PendingFrame::Shm(p)) = &mb.pending else {
        panic!("expected shm payload");
    };
    assert!(p.full_pixels.is_none());
    assert_eq!(p.rects.len(), 1);
}

#[test]
fn full_copy_marks_shadow_valid() {
    let mut mb = state();
    assert!(matches!(mb.shadow, ShadowState::Stale));
    mb.store_shm(vec![], Some(vec![0u8; 4]), 1, 1);
    assert!(matches!(mb.shadow, ShadowState::Valid { size: (1, 1) }));
}

#[test]
fn valid_shadow_at_wrong_size_still_full_copies() {
    let mut mb = state();
    mb.store_shm(vec![], Some(vec![0u8; 4 * 100 * 100]), 100, 100);
    mb.pending = None;
    assert!(!mb.needs_full_copy(100, 100));
    assert!(mb.needs_full_copy(200, 200));
}

#[test]
fn placeholder_invalidates_shadow_forcing_full_copy() {
    let mut mb = state();
    mb.store_shm(vec![], Some(vec![0u8; 4 * 100 * 100]), 100, 100);
    assert!(matches!(mb.shadow, ShadowState::Valid { .. }));
    mb.pending = None;
    assert!(!mb.needs_full_copy(100, 100));
    mb.request_placeholder(0, 0, 0);
    assert!(matches!(mb.shadow, ShadowState::Stale));
    assert!(mb.needs_full_copy(100, 100));
}

fn dmabuf_frame(coded_w: i32, coded_h: i32) -> SharedTexture<u32> {
    let size = FrameSize { w: coded_w, h: coded_h };
    SharedTexture {
        coded: size,
        visible: size,
        modifier: 0,
        planes: vec![DmabufPlane { fd: 3, offset: 0, stride: 0 }],
    }
}

fn valid_shadow() -> ShadowState {
    ShadowState::Valid { size: (100, 100) }
}

#[test]
fn resize_noop_when_unchanged() {
    let mut mb = state();
    mb.shadow = valid_shadow();
    mb.resize(vp());
    assert!(!mb.viewport_dirty);
    assert!(matches!(mb.shadow, ShadowState::Valid { .. }));

    mb.resize(ViewportState { lw: 200, lh: 200, pw: 200, ph: 200 });
    assert!(mb.viewport_dirty);
    assert!(matches!(mb.shadow, ShadowState::Stale));
}

#[test]
fn dmabuf_hide_and_resize_invalidate_shadow() {
    let mut mb = state();
    mb.shadow = valid_shadow();
    mb.present_dmabuf(dmabuf_frame(64, 64));
    assert!(matches!(mb.shadow, ShadowState::Stale));

    mb.shadow = valid_shadow();
    mb.set_visible(false);
    assert!(matches!(mb.shadow, ShadowState::Stale));

    let mut mb = state();
    mb.shadow = valid_shadow();
    mb.resize(ViewportState { lw: 200, lh: 200, pw: 200, ph: 200 });
    assert!(matches!(mb.shadow, ShadowState::Stale));
}

#[test]
fn route_software_falls_back_after_gpu_failure() {
    assert_eq!(route_software(Kind::Gpu, false), Route::Gpu);
    assert_eq!(route_software(Kind::Gpu, true), Route::Shm);
    assert_eq!(route_software(Kind::Shm, false), Route::Shm);
    assert_eq!(route_software(Kind::Shm, true), Route::Shm);
}

#[test]
fn gpu_hide_performs_no_surface_op() {
    assert!(!hide_detaches(&Backend::<u32>::Gpu { painter: None }));
    assert!(hide_detaches(&Backend::<u32>::Shm { shadow: ShmShadow::default() }));
}

#[test]
fn gpu_error_degrades_backend() {
    assert!(!is_degrading_error(&PresentError::ShmAlloc));
    assert!(!is_degrading_error(&PresentError::DmabufCreate));
    assert!(!is_degrading_error(&PresentError::BadDimensions(0, 0)));

    let mut backend = Backend::<u32>::Gpu { painter: None };
    let mut flag = false;
    let old = degrade(&mut backend, &mut flag);
    assert!(old.is_none());
    assert!(matches!(backend, Backend::Shm { .. }));
    assert!(flag);
}

#[test]
fn dmabuf_producer_rejects_bad_dimensions() {
    assert!(matches!(validate_present_dims(0, 64), Err(PresentError::BadDimensions(0, 64))));
    assert!(matches!(validate_present_dims(64, -1), Err(PresentError::BadDimensions(64, -1))));
    assert!(validate_present_dims(64, 64).is_ok());
}

#[test]
fn first_post_fallback_frame_full_copies() {
    let mb = state();
    assert!(mb.needs_full_copy(100, 100));
}

#[test]
fn copy_dirty_rect_clamps_negative_origin() {
    let pixels = vec![0xABu8; 4 * 4 * 4];
    let r = copy_dirty_rect(&pixels, 16, 4, 4, &rect(-2, -2, 4, 4)).unwrap();
    assert_eq!((r.x, r.y, r.w, r.h), (0, 0, 2, 2));
    assert_eq!(r.pixels.len(), 2 * 2 * 4);
}

#[test]
fn copy_dirty_rect_clamps_overflow() {
    let pixels = vec![0u8; 4 * 4 * 4];
    let r = copy_dirty_rect(&pixels, 16, 4, 4, &rect(2, 2, 10, 10)).unwrap();
    assert_eq!((r.w, r.h), (2, 2));
}

#[test]
fn copy_dirty_rect_rejects_zero_area() {
    let pixels = vec![0u8; 4 * 4 * 4];
    assert!(copy_dirty_rect(&pixels, 16, 4, 4, &rect(0, 0, 0, 5)).is_none());
    assert!(copy_dirty_rect(&pixels, 16, 4, 4, &rect(4, 0, 4, 4)).is_none());
}

#[test]
fn copy_dirty_rect_skips_row_past_buffer() {
    let pixels = vec![0u8; 8];
    let r = copy_dirty_rect(&pixels, 1_000, 2, 2, &rect(0, 0, 2, 2)).unwrap();
    assert_eq!(r.pixels.len(), 8);
}

#[test]
fn copy_dirty_rect_extreme_extent_does_not_panic() {
    let pixels = vec![0u8; 4 * 4 * 4];
    let r = copy_dirty_rect(&pixels, 16, 4, 4, &rect(3, 3, i32::MAX, i32::MAX)).unwrap();
    assert_eq!((r.w, r.h), (1, 1));
    assert!(copy_dirty_rect(&pixels, 16, 4, 4, &rect(i32::MAX, 0, i32::MAX, 4)).is_none());
}

#[test]
fn apply_dirty_to_shadow_extreme_offsets_do_not_panic() {
    let mut shadow = vec![0u8; 4 * 2 * 2];
    let rects = vec![ShmRect {
        x: i32::MAX,
        y: i32::MAX,
        w: i32::MAX,
        h: 1,
        pixels: vec![0xFF; 4],
    }];
    apply_dirty_to_shadow(&mut shadow, 2, &rects);
    assert_eq!(shadow, vec![0u8; 16]);
}

#[test]
fn apply_dirty_to_shadow_writes_offsets() {
    let mut shadow = vec![0u8; 4 * 2 * 2];
    let rects = vec![ShmRect { x: 1, y: 1, w: 1, h: 1, pixels: vec![0xFF; 4] }];
    apply_dirty_to_shadow(&mut shadow, 2, &rects);
    assert_eq!(&shadow[12..16], &[0xFF; 4]);
    assert_eq!(&shadow[0..12], &[0u8; 12]);
}

#[test]
fn apply_dirty_to_shadow_skips_rect_exceeding_shadow() {
    let mut shadow = vec![0u8; 4 * 2 * 2];
    let rects = vec![ShmRect { x: 5, y: 5, w: 1, h: 1, pixels: vec![0xFF; 4] }];
    apply_dirty_to_shadow(&mut shadow, 2, &rects);
    assert_eq!(shadow, vec![0u8; 16]);
}

#[test]
fn compose_shm_shadow_full_copy_is_byte_exact() {
    assert_eq!(route_software(Kind::Gpu, true), Route::Shm);

    let (w, h) = (3, 2);
    let source: Vec<u8> = (0..u8::try_from(w * h * 4).unwrap()).collect();
    let payload = ShmPayload {
        rects: Vec::new(),
        full_pixels: Some(source.clone()),
        width: w,
        height: h,
    };
    let mut shadow = ShmShadow::default();
    compose_shm_shadow(&mut shadow, &payload).unwrap();
    assert_eq!(shadow.pixels, source);
    assert_eq!(shadow.size, (w, h));
}

#[test]
fn a_negative_extent_leaves_the_picture_alone() {
    for (width, height) in [(-1, 2), (2, -1), (-3, -4), (i32::MIN, 2), (1, i32::MIN)] {
        let mut shadow = ShmShadow { pixels: vec![9, 9, 9, 9], size: (1, 1) };
        let p = ShmPayload { rects: vec![], full_pixels: None, width, height };
        assert_eq!(
            compose_shm_shadow(&mut shadow, &p),
            Err(PresentError::BadDimensions(width, height))
        );
        assert_eq!((shadow.pixels, shadow.size), (vec![9, 9, 9, 9], (1, 1)));
    }
    for (width, height) in [(0, 0), (0, 5), (5, 0), (0, -2), (-2, 0)] {
        let mut shadow = ShmShadow { pixels: vec![9, 9, 9, 9], size: (1, 1) };
        let rects = vec![ShmRect { x: 0, y: 0, w: 1, h: 1, pixels: vec![1; 4] }];
        let p = ShmPayload { rects, full_pixels: Some(vec![7]), width, height };
        assert_eq!(compose_shm_shadow(&mut shadow, &p), Ok(()));
        assert_eq!((shadow.pixels, shadow.size), (vec![], (width, height)));
    }
}

#[test]
fn frames_are_shown_by_their_kind() {
    let mut runner: Runner<u32, u32> = Runner::new(false);
    let p = ShmPayload { rects: vec![], full_pixels: None, width: 2, height: 1 };
    let shm: PendingFrame<u32> = PendingFrame::Shm(p);
    assert!(matches!(
        runner.present(&shm, vp(), false),
        Ok(FrameTask::Draw(c)) if c.buf_w == 2 && c.buf_h == 1
    ));
    let p = ShmPayload { rects: vec![], full_pixels: None, width: -2, height: 1 << 20 };
    assert!(matches!(
        runner.present(&PendingFrame::<u32>::Shm(p), vp(), false),
        Err(PresentError::BadDimensions(-2, _))
    ));
    let fill: PendingFrame<u32> = PendingFrame::Placeholder(1, 2, 3);
    assert!(matches!(
        runner.present(&fill, vp(), false),
        Ok(FrameTask::Fill([3, 2, 1, 255], c)) if c.buf_w == 1
    ));
    let mut gpu: Runner<u32, u32> = Runner::new(true);
    assert!(matches!(gpu.present(&shm, vp(), true), Ok(FrameTask::Skip)));
}

#[test]
fn patched_picture_follows_the_source() {
    let (w, h) = (4, 3);
    let mut frame: Vec<u8> = (0..48).collect();
    let mut actor: LayerActor<u32> = LayerActor::new(Kind::Shm, vp(), true);
    let mut shadow = ShmShadow::default();
    assert_eq!(actor.present_software(&frame, w, h, &[]), Ok(Present::Committed));
    let mut runner: Runner<u32, u32> = Runner::new(false);
    let snap = take_snapshot(&mut actor.state);
    let Some(PendingFrame::Shm(p)) = snap.pending else {
        panic!("expected shm payload");
    };
    assert!(p.full_pixels.is_some());
    compose_shm_shadow(&mut shadow, &p).unwrap();
    assert_eq!(shadow.pixels, frame);

    for (i, x) in [(5usize, 1i32), (6, 2)] {
        frame[i * 4] = 0xEE;
        assert_eq!(
            actor.present_software(&frame, w, h, &[rect(x, 1, 1, 1)]),
            Ok(Present::Committed)
        );
    }
    let snap = take_snapshot(&mut actor.state);
    let Some(PendingFrame::Shm(p)) = snap.pending else {
        panic!("expected shm payload");
    };
    assert!(p.full_pixels.is_none());
    assert_eq!(p.rects.len(), 2);
    compose_shm_shadow(&mut shadow, &p).unwrap();
    assert_eq!(shadow.pixels, frame);

    let commit = runner.present_shm(vp(), &p).unwrap().unwrap();
    assert_eq!((commit.buf_w, commit.src_w, commit.dst_w), (4, 4, 100));
}

#[test]
fn software_frame_errors() {
    let mut actor: LayerActor<u32> = LayerActor::new(Kind::Shm, vp(), true);
    assert_eq!(
        actor.present_software(&[], 0, 5, &[]),
        Err(PresentError::BadDimensions(0, 5))
    );
    assert_eq!(
        actor.present_software(&[0; 15], 2, 2, &[]),
        Err(PresentError::ShortBuffer { have: 15, need: 16 })
    );
    assert_eq!(
        actor.present_dmabuf(dmabuf_frame(0, 1)),
        Err(PresentError::BadDimensions(0, 1))
    );
    assert!(actor.state.pending.is_none());
}

#[test]
fn unchanged_frame_on_a_valid_shadow_is_skipped() {
    let mut actor: LayerActor<u32> = LayerActor::new(Kind::Shm, vp(), true);
    assert_eq!(actor.present_software(&[1; 16], 2, 2, &[]), Ok(Present::Committed));
    let _ = take_snapshot(&mut actor.state);
    assert_eq!(actor.present_software(&[1; 16], 2, 2, &[]), Ok(Present::Skipped));
    actor.set_visible(false);
    actor.set_visible(true);
    assert_eq!(actor.present_software(&[1; 16], 2, 2, &[]), Ok(Present::Committed));
}

#[test]
fn gpu_frame_is_queued_with_its_stride() {
    let mut actor: LayerActor<u32> = LayerActor::new(Kind::Gpu, vp(), true);
    assert_eq!(
        actor.present_software(&[9; 20], 2, 2, &[rect(0, 0, 1, 1)]),
        Ok(Present::Committed)
    );
    let Some(PendingFrame::Gpu(p)) = &actor.state.pending else {
        panic!("expected gpu payload");
    };
    assert_eq!((p.pixels.len(), p.width, p.height, p.stride, p.dirty.len()), (16, 2, 2, 8, 1));
    actor.gpu_failed = true;
    assert_eq!(actor.present_software(&[9; 16], 2, 2, &[]), Ok(Present::Committed));
    assert!(matches!(actor.state.pending, Some(PendingFrame::Shm(_))));
}

#[test]
fn resize_without_pixels_is_ignored_and_shutdown_drops_the_frame() {
    let mut actor: LayerActor<u32> = LayerActor::new(Kind::Shm, vp(), true);
    actor.resize(10, 10, 0, 10);
    assert!(!actor.state.viewport_dirty);
    actor.resize(10, 10, 20, 20);
    assert!(actor.state.viewport_dirty);
    actor.request_placeholder(1, 2, 3);
    assert!(wants_worker(&actor.state));
    actor.shutdown();
    assert!(actor.state.pending.is_none());
    let snap = take_snapshot(&mut actor.state);
    let runner: Runner<u32, u32> = Runner::new(false);
    assert!(runner.begin(snap).is_none());
}

#[test]
fn worker_iteration_concludes() {
    let mut st = state();
    st.request_placeholder(1, 2, 3);
    st.resize(ViewportState { lw: 7, lh: 7, pw: 7, ph: 7 });
    let mut runner: Runner<u32, u32> = Runner::new(true);
    let it = runner.begin(take_snapshot(&mut st)).unwrap();
    assert!(matches!(it.action, Action::Present(PendingFrame::Placeholder(1, 2, 3))));
    let c = runner.conclude(&it, Err(PresentError::Gpu));
    assert!(c.degraded && c.log_failure && c.reapply_viewport && c.flush);
    assert!(runner.gpu_failed && !runner.has_content);
    assert!(matches!(runner.backend, Backend::Shm { .. }));
    let c = runner.conclude(&it, Err(PresentError::ShmAlloc));
    assert!(!c.log_failure && !c.degraded);
    let c = runner.conclude(&it, Ok(Present::Committed));
    assert!(c.flush && !c.reapply_viewport);
    assert!(!runner.present_failing && !runner.has_content);

    let (pixel, commit) = Runner::<u32, u32>::present_placeholder(1, 2, 3, vp());
    assert_eq!(pixel, [3, 2, 1, 0xFF]);
    assert_eq!((commit.buf_w, commit.dst_w), (1, 100));
}

#[test]
fn gpu_paint_is_cut_to_the_surface() {
    let runner: Runner<u32, u32> = Runner::new(true);
    let mut actor: LayerActor<u32> = LayerActor::new(Kind::Gpu, vp(), true);
    let _ = actor.present_software(&vec![0; 120 * 10 * 4], 120, 10, &[]);
    let Some(PendingFrame::Gpu(p)) = &actor.state.pending else {
        panic!("expected gpu payload");
    };
    let plan = runner.present_gpu(ViewportState { lw: 50, lh: 50, pw: 100, ph: 0 }, p, true).unwrap();
    assert!(plan.create);
    assert_eq!((plan.surface.w, plan.surface.h), (100, 1));
    assert_eq!((plan.src_w, plan.src_h), (100, 0));
    let shm: Runner<u32, u32> = Runner::new(false);
    assert!(runner.present_gpu(vp(), p, false).is_none());
    assert!(shm.present_gpu(vp(), p, true).is_none());
}

fn key(id: u64, w: i32) -> DmabufKey {
    DmabufKey { id: (1, id), w, h: 8, stride: 32, modifier: 0 }
}

#[test]
fn dmabuf_pool_reuses_idle_buffers_and_forgets_stale_ones() {
    let mut r: Runner<u32, u32> = Runner::new(false);
    for id in 0..20u64 {
        let k = key(id, 8);
        assert_eq!(r.pool_hit(&k), None);
        assert!(!r.lease_dmabuf(&k, false));
        r.pool_insert(k, id as u32);
    }
    assert_eq!(r.dmabuf_pool.len(), 16);
    assert_eq!(r.pool_hit(&key(3, 8)), None);
    assert_eq!(r.pool_hit(&key(10, 8)), Some(9));
    assert!(r.lease_dmabuf(&key(10, 8), true));
    assert_eq!(r.dmabuf_pool[0].buf, 10);
    assert!(!r.lease_dmabuf(&key(10, 8), false));
    assert_eq!(r.dmabuf_pool.len(), 15);
    assert!(!r.lease_dmabuf(&key(11, 9), true));
    assert_eq!(r.pool_hit(&key(11, 8)), None);
    assert_eq!(r.dmabuf_pool.len(), 14);
}

#[test]
fn lease_needs_support_planes_and_identity() {
    let frame = dmabuf_frame(8, 4);
    assert_eq!(lease_request(false, &frame, Some((1, 2))), LeaseRequest::Unavailable);
    assert_eq!(lease_request(true, &frame, None), LeaseRequest::OneShot { stride: 0 });
    let empty = SharedTexture::<u32> { planes: vec![], ..dmabuf_frame(8, 4) };
    assert_eq!(lease_request(true, &empty, Some((1, 2))), LeaseRequest::Unavailable);
    assert_eq!(
        lease_request(true, &frame, Some((1, 2))),
        LeaseRequest::Pooled(DmabufKey { id: (1, 2), w: 8, h: 4, stride: 0, modifier: 0 })
    );
    let c = Runner::<u32, u32>::present_dmabuf(vp(), &frame);
    assert_eq!((c.buf_w, c.buf_h, c.src_w, c.dst_h), (8, 4, 8, 100));
}

#[test]
fn an_attached_buffer_is_held() {
    let mut r: Runner<u32, u32> = Runner::new(false);
    assert_eq!(r.attach_drawn(None), Err(PresentError::ShmAlloc));
    assert_eq!(r.attach_drawn(Some(4)), Ok(Present::Committed));
    assert_eq!(r.current, Some(4));
    assert_eq!(r.attach_leased(None), Err(PresentError::DmabufCreate));
    assert_eq!(r.current, Some(4));
    assert_eq!(r.attach_leased(Some(DmabufLease::OneShot(5))), Ok(Present::Committed));
    assert_eq!(r.current, Some(5));
    assert_eq!(r.attach_leased(Some(DmabufLease::Pooled)), Ok(Present::Committed));
    assert_eq!(r.current, None);

    let _ = r.attach_drawn(Some(6));
    let mut st = state();
    st.set_visible(false);
    let it = r.begin(take_snapshot(&mut st)).unwrap();
    assert!(!it.hide_painter);
    assert!(r.conclude(&it, Ok(Present::Skipped)).flush);
    assert_eq!(r.current, None);

    r.pool_insert(key(1, 8), 7);
    let _ = r.attach_drawn(Some(8));
    assert_eq!(r.shutdown(), None);
    assert!(r.current.is_none() && r.dmabuf_pool.is_empty());
}

#[test]
fn a_hidden_gpu_layer_is_left_alone() {
    let mut r: Runner<u32, u32> = Runner::new(true);
    r.backend = Backend::Gpu { painter: Some(3) };
    r.current = Some(9);
    let mut st = state();
    st.resize(ViewportState { lw: 7, lh: 7, pw: 7, ph: 7 });
    st.set_visible(false);
    let it = r.begin(take_snapshot(&mut st)).unwrap();
    assert!(it.hide_painter && matches!(it.action, Action::Hide));
    let c = r.conclude(&it, Ok(Present::Skipped));
    assert!(!c.flush && !c.reapply_viewport);
    assert_eq!(r.current, Some(9));
    assert_eq!(r.shutdown(), Some(3));
    assert_eq!(gpu_presented(Painted::Yes), Ok(Present::Committed));
    assert_eq!(gpu_presented(Painted::Skipped), Ok(Present::Skipped));
    assert_eq!(gpu_presented(Painted::Failed), Err(PresentError::Gpu));
}
