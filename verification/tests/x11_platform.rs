use jellium_platform::abi::FrameSize;
use jellium_platform::abi::Generation;
use jellium_platform::abi::MenuPaint;
use jellium_platform::abi::MenuPlacement;
use jellium_platform::abi::WindowDecorations;
use jellium_platform::input_types::CursorIcon;
use jellium_platform::input_types::CursorShape;
use jellium_platform::input_types::BTN_LEFT;
use jellium_platform::input_types::BTN_RIGHT;
use jellium_platform::input_types::EVENTFLAG_LEFT_MOUSE_BUTTON;
use jellium_platform::wayland::layer::DmabufPlane;
use jellium_platform::wayland::layer::SharedTexture;
use jellium_platform::x11::gpu_paint_worker::needs_configure;
use jellium_platform::x11::gpu_paint_worker::Painting;
use jellium_platform::x11::gpu_paint_worker::PendingFrame;
use jellium_platform::x11::gpu_paint_worker::SizeRequest;
use jellium_platform::x11::gpu_paint_worker::WorkerStep;
use jellium_platform::x11::gpu_paint_worker::X11GpuPaintWorker;
use jellium_platform::x11::input::activate_parent;
use jellium_platform::x11::input::cursor_source;
use jellium_platform::x11::input::input_thread_step;
use jellium_platform::x11::input::mailbox_thread_step;
use jellium_platform::x11::input::set_cursor;
use jellium_platform::x11::input::CursorCache;
use jellium_platform::x11::input::CursorMailbox;
use jellium_platform::x11::input::CursorNeed;
use jellium_platform::x11::input::CursorSource;
use jellium_platform::x11::input::InputAsk;
use jellium_platform::x11::input::InputMailbox;
use jellium_platform::x11::input::InputState;
use jellium_platform::x11::input::QueuedInputEvent;
use jellium_platform::x11::input::ThreadStep;
use jellium_platform::x11::input::Waited;
use jellium_platform::x11::input::XInputEvent;
use jellium_platform::x11::input::XKB_KEY_XF86BACK;
use jellium_platform::x11::input::XKB_KEY_XF86FORWARD;
use jellium_platform::x11::input_lifecycle;
use jellium_platform::x11::lifecycle::app_title;
use jellium_platform::x11::lifecycle::boot_window;
use jellium_platform::x11::lifecycle::clamp_window_geometry;
use jellium_platform::x11::lifecycle::cleanup;
use jellium_platform::x11::lifecycle::cm_atom_name;
use jellium_platform::x11::lifecycle::compositor_present;
use jellium_platform::x11::lifecycle::ensure_host_window;
use jellium_platform::x11::lifecycle::find_argb_visual;
use jellium_platform::x11::lifecycle::host_requests;
use jellium_platform::x11::lifecycle::host_window_needed;
use jellium_platform::x11::lifecycle::init;
use jellium_platform::x11::lifecycle::setup_sync_counter;
use jellium_platform::x11::lifecycle::shm_usable;
use jellium_platform::x11::lifecycle::toplevel_protocols;
use jellium_platform::x11::lifecycle::wm_class;
use jellium_platform::x11::lifecycle::BootGeometry;
use jellium_platform::x11::lifecycle::Depth;
use jellium_platform::x11::lifecycle::HostMade;
use jellium_platform::x11::lifecycle::HostPlan;
use jellium_platform::x11::lifecycle::HostRequest;
use jellium_platform::x11::lifecycle::InitError;
use jellium_platform::x11::lifecycle::InitFacts;
use jellium_platform::x11::lifecycle::SyncSetup;
use jellium_platform::x11::lifecycle::Visual;
use jellium_platform::x11::lifecycle::VisualClass;
use jellium_platform::x11::geometry_pass::Configure;
use jellium_platform::x11::geometry_pass::OverlayCreate;
use jellium_platform::x11::menu::build;
use jellium_platform::x11::menu::can_place;
use jellium_platform::x11::menu::copy_paint;
use jellium_platform::x11::menu::menu_screen;
use jellium_platform::x11::menu::place;
use jellium_platform::x11::menu::snapshot;
use jellium_platform::x11::menu::tear_down_requests;
use jellium_platform::x11::menu::warm;
use jellium_platform::x11::menu::CreateNext;
use jellium_platform::x11::menu::GrabNext;
use jellium_platform::x11::menu::Keymap;
use jellium_platform::x11::menu::MenuIds;
use jellium_platform::x11::menu::MenuInput;
use jellium_platform::x11::menu::MenuRequest;
use jellium_platform::x11::menu::MenuSnap;
use jellium_platform::x11::menu::MenuWindow;
use jellium_platform::x11::menu::Op;
use jellium_platform::x11::menu::Phase;
use jellium_platform::x11::menu::PopupEvent;
use jellium_platform::x11::menu::PopupQueue;
use jellium_platform::x11::menu::PutImage;
use jellium_platform::x11::menu::Screen;
use jellium_platform::x11::menu::GRAB_ATTEMPTS;
use jellium_platform::x11::platform::paint_name;
use jellium_platform::x11::platform::resolve_tier;
use jellium_platform::x11::platform::to_dmabuf_frame;
use jellium_platform::x11::platform::wants_gpu;
use jellium_platform::x11::platform::AcceleratedPaint;
use jellium_platform::x11::platform::ColorType;
use jellium_platform::x11::platform::PaintTier;
use jellium_platform::x11::platform::X11MpvHost;
use jellium_platform::x11::platform::X11PaintOverride;
use jellium_platform::x11::platform::X11Platform;
use jellium_platform::x11::platform::X11WindowSource;
use jellium_platform::x11::x11_state::Atoms;
use jellium_platform::x11::x11_state::HostServices;
use jellium_platform::x11::mpv_proxy::SharedEmbed;
use jellium_platform::x11::x11_state::PaintServices;
use jellium_platform::x11::x11_state::ParentSnapshot;
use jellium_platform::x11::x11_state::X11State;

fn atoms(sync_request: u32, counter: u32) -> Atoms {
    Atoms {
        net_wm_window_type: 0,
        net_wm_window_type_normal: 0,
        net_wm_state: 0,
        net_wm_state_skip_taskbar: 0,
        net_wm_state_skip_pager: 0,
        net_wm_state_fullscreen: 0,
        net_wm_state_maximized_vert: 0,
        net_wm_state_maximized_horz: 0,
        wm_protocols: 0,
        wm_delete_window: 7,
        net_wm_sync_request: sync_request,
        net_wm_sync_request_counter: counter,
        cardinal: 0,
        motif_wm_hints: 0,
        net_active_window: 0,
    }
}

fn host() -> HostServices {
    HostServices {
        screen_num: 3,
        root: 1,
        toplevel: 2,
        video_host: 4_000_000_000,
        atoms: atoms(0, 0),
        sync_counter: 0,
    }
}

#[test]
fn the_first_true_color_visual_of_depth_32_is_used() {
    let tc = |id| Visual { id, class: VisualClass::TrueColor };
    let other = |id| Visual { id, class: VisualClass::Other };
    let depths = vec![
        Depth { depth: 24, visuals: vec![tc(1)] },
        Depth { depth: 32, visuals: vec![other(2)] },
        Depth { depth: 32, visuals: vec![other(3), tc(4), tc(5)] },
    ];
    assert_eq!(find_argb_visual(&depths), Some(4));
    assert_eq!(find_argb_visual(&vec![]), None);
    assert_eq!(find_argb_visual(&vec![Depth { depth: 24, visuals: vec![tc(1)] }]), None);
}

#[test]
fn the_sync_protocol_needs_its_counter() {
    assert_eq!(toplevel_protocols(&atoms(8, 9), 5), vec![7, 8]);
    assert_eq!(toplevel_protocols(&atoms(8, 9), 0), vec![7]);
    assert_eq!(toplevel_protocols(&atoms(0, 9), 5), vec![7]);
    let s = SyncSetup { extension: true, counter: Some(5), created: true, advertised: true };
    assert_eq!(setup_sync_counter(&atoms(8, 9), s), (5, false));
    assert_eq!(setup_sync_counter(&atoms(8, 0), s), (0, false));
    assert_eq!(setup_sync_counter(&atoms(8, 9), SyncSetup { extension: false, ..s }), (0, false));
    assert_eq!(setup_sync_counter(&atoms(8, 9), SyncSetup { counter: None, ..s }), (0, false));
    assert_eq!(setup_sync_counter(&atoms(8, 9), SyncSetup { created: false, ..s }), (0, false));
    assert_eq!(setup_sync_counter(&atoms(8, 9), SyncSetup { advertised: false, ..s }), (0, true));
    assert_eq!(cm_atom_name(0), "_NET_WM_CM_S0");
    assert_eq!(cm_atom_name(-12), "_NET_WM_CM_S-12");
}

#[test]
fn the_window_starts_where_it_was() {
    let b = boot_window(None, 3);
    assert_eq!((b.x, b.y, b.w, b.h), (0, 0, 2400, 1350));
    assert!(!b.user_position && !b.maximized);
    let saved =
        BootGeometry { physical: (0, 40), position: Some((-5, 6)), maximized: true };
    let b = boot_window(Some(saved), 3);
    assert_eq!((b.x, b.y, b.w, b.h), (-5, 6, 1, 40));
    assert!(b.user_position && b.maximized);
    let (mut w, mut h) = (3000, 500);
    clamp_window_geometry(&mut w, &mut h, Some((1920, 1080)));
    assert_eq!((w, h), (1920, 500));
    clamp_window_geometry(&mut w, &mut h, Some((0, 100)));
    assert_eq!((w, h), (1920, 100));
    clamp_window_geometry(&mut w, &mut h, None);
    assert_eq!((w, h), (1920, 100));
}

#[test]
fn init_names_the_first_missing_thing() {
    let all = InitFacts {
        control_connection: true,
        interop_connection: true,
        screen: true,
        argb_visual: Some(5),
        colormap: Some(6),
        shm: true,
        no_connection_yet: true,
    };
    let made = Some(PaintServices { argb_visual: 5, argb_depth: 32, colormap: 6 });
    let fresh = || {
        let mut s = X11State::new();
        s.set_host_services(host());
        s
    };
    let mut s = fresh();
    assert_eq!(init(&mut s, all), Ok(host().toplevel));
    assert_eq!(s.paint, made);
    assert_eq!(init(&mut s, all), Err(InitError::PaintAlreadySet));
    let mut f = InitFacts { no_connection_yet: false, ..all };
    let mut s = fresh();
    assert_eq!(init(&mut s, f), Err(InitError::ConnectionAlreadySet));
    assert_eq!(s.paint, made);
    f.shm = false;
    let mut s = fresh();
    assert_eq!(init(&mut s, f), Err(InitError::NoShm));
    assert_eq!(s.paint, None);
    f.colormap = None;
    assert_eq!(init(&mut s, f), Err(InitError::NoColormap));
    f.argb_visual = None;
    assert_eq!(init(&mut s, f), Err(InitError::NoArgbVisual));
    f.screen = false;
    assert_eq!(init(&mut s, f), Err(InitError::NoScreen));
    f.interop_connection = false;
    assert_eq!(init(&mut s, f), Err(InitError::NoInteropConnection));
    f.control_connection = false;
    assert_eq!(init(&mut s, f), Err(InitError::NoControlConnection));
    assert_eq!(init(&mut X11State::new(), f), Err(InitError::NoHostWindow));
    assert!(shm_usable(Some((1, 2))) && shm_usable(Some((2, 0))));
    assert!(!shm_usable(Some((1, 1))) && !shm_usable(None));
}

#[test]
fn the_host_is_set_up_and_then_mapped() {
    let atoms = host().atoms;
    let plan = HostPlan {
        toplevel: 10,
        video_host: 11,
        sync_counter: 0,
        utf8_string: 5,
        net_wm_name: 6,
    };
    let boot = BootGeometry { physical: (70000, 600), position: Some((3, -4)), maximized: true };
    let r = host_requests(plan, &atoms, boot_window(Some(boot), 2));
    assert_eq!(r.len(), 10);
    assert!(matches!(
        r[0],
        HostRequest::CreateToplevel { window: 10, x: 3, y: -4, w: 4464, h: 600 }
    ));
    assert!(matches!(r[1], HostRequest::SetIdentity { window: 10 }));
    assert!(matches!(r[2], HostRequest::SetNetName { window: 10, property: 6, kind: 5 }));
    let HostRequest::SetProtocols { window: 10, protocols } = &r[3] else {
        panic!("expected protocols");
    };
    assert_eq!(protocols, &vec![atoms.wm_delete_window]);
    assert!(matches!(r[4], HostRequest::SetWindowType { window: 10, .. }));
    assert!(matches!(
        r[5],
        HostRequest::SetNormalHints { window: 10, x: 3, y: -4, w: 70000, h: 600 }
    ));
    assert!(matches!(
        r[6],
        HostRequest::CreateVideoHost { window: 11, parent: 10, w: 4464, h: 600 }
    ));
    assert!(matches!(r[7], HostRequest::SetInitialState { window: 10, .. }));
    assert!(matches!(r[8], HostRequest::MapWindow { window: 11 }));
    assert!(matches!(r[9], HostRequest::MapWindow { window: 10 }));
    let plain = HostPlan { utf8_string: 0, ..plan };
    assert_eq!(host_requests(plain, &atoms, boot_window(None, 2)).len(), 7);
    assert!(wm_class().starts_with("net.nullsum.JelliumDesktop\0"));
    assert_eq!(app_title(), "Jellium Desktop");
}

#[test]
fn host_facts_are_published_once() {
    let mut s = X11State::new();
    let mut e = SharedEmbed::new();
    let b = boot_window(None, 2);
    let made = HostMade {
        services: host(),
        boot: b,
        queried: None,
        scale_halves: 2,
        xfixes_opcode: Some(9),
    };
    assert!(host_window_needed(&s));
    assert!(!ensure_host_window(&mut s, &mut e, true, None));
    assert!(host_window_needed(&s) && e.ctx.is_none());
    assert!(ensure_host_window(&mut s, &mut e, true, Some(made)));
    assert_eq!((s.parent.width, s.parent.height, s.parent.scale_halves), (1600, 900, 2));
    let ctx = e.ctx.unwrap();
    assert_eq!(ctx.video_host, host().video_host);
    assert_eq!((ctx.published, ctx.xfixes_opcode), ((1600, 900), Some(9)));
    // Once there are host windows, none are needed and nothing changes.
    assert!(!host_window_needed(&s));
    assert!(ensure_host_window(&mut s, &mut e, false, None));
    let other = HostMade { queried: Some((1, 2, 0, 4)), scale_halves: 3, ..made };
    assert!(!ensure_host_window(&mut s, &mut e, true, Some(other)));
    assert_eq!(s.parent.width, 1600);
    let mut s = X11State::new();
    assert!(ensure_host_window(&mut s, &mut e, true, Some(other)));
    assert_eq!((s.parent.origin_x, s.parent.origin_y), (1, 2));
    assert_eq!(e.ctx.unwrap().published, (1, 4));

    assert!(compositor_present(None) && compositor_present(Some(4)));
    assert!(!compositor_present(Some(0)));
    let p = PaintServices { argb_visual: 1, argb_depth: 32, colormap: 7 };
    assert_eq!(cleanup(Some(p), true), Some(7));
    assert_eq!(cleanup(Some(p), false), None);
    assert_eq!(cleanup(Some(PaintServices { colormap: 0, ..p }), true), None);
    assert_eq!(cleanup(None, true), None);
}

#[test]
fn threads_are_started_and_stopped_once() {
    let mut slot: Option<u32> = None;
    assert_eq!(input_lifecycle::start(&mut slot, None), None);
    assert_eq!(input_lifecycle::start(&mut slot, Some(1)), None);
    assert_eq!(input_lifecycle::start(&mut slot, Some(2)), Some(1));
    assert_eq!(input_lifecycle::cleanup(&mut slot), Some(2));
    assert_eq!(input_lifecycle::cleanup(&mut slot), None);
    assert_eq!(input_lifecycle::start_screen(&None), 0);
    assert_eq!(input_lifecycle::start_screen(&Some(host())), 3);
    let mut started = false;
    assert!(warm(&mut started));
    assert!(!warm(&mut started));
}

#[test]
fn an_unusable_tier_degrades() {
    let dmabuf = PaintTier { gpu: true, use_dmabuf: true };
    let gpu = PaintTier { gpu: true, use_dmabuf: false };
    let shm = PaintTier { gpu: false, use_dmabuf: false };
    let ask = Some(X11PaintOverride::Dmabuf);
    assert_eq!(resolve_tier(None, true, true, true), (dmabuf, None));
    assert_eq!(resolve_tier(ask, true, true, true), (dmabuf, None));
    assert_eq!(resolve_tier(ask, true, false, true), (gpu, Some(X11PaintOverride::Gpu)));
    assert_eq!(resolve_tier(ask, true, true, false), (gpu, Some(X11PaintOverride::Gpu)));
    assert_eq!(resolve_tier(ask, false, true, true), (shm, Some(X11PaintOverride::Shm)));
    assert_eq!(resolve_tier(Some(X11PaintOverride::Gpu), true, true, true), (gpu, None));
    assert_eq!(resolve_tier(Some(X11PaintOverride::Shm), true, true, true), (shm, None));
    assert_eq!(resolve_tier(None, false, true, true), (shm, None));
    assert!(wants_gpu(None) && !wants_gpu(Some(X11PaintOverride::Shm)));
    assert_eq!(paint_name(X11PaintOverride::Dmabuf), "dmabuf");
    assert_eq!(paint_name(X11PaintOverride::Gpu), "gpu");
    assert_eq!(paint_name(X11PaintOverride::Shm), "shm");
    assert!(X11Platform.shared_texture_supported(Some(dmabuf)));
    assert!(!X11Platform.shared_texture_supported(Some(gpu)));
    assert!(!X11Platform.shared_texture_supported(None));
}

fn paint(plane_count: i32, planes: usize) -> AcceleratedPaint<u32> {
    AcceleratedPaint {
        plane_count,
        planes: (0..planes)
            .map(|i| DmabufPlane { fd: i as u32, offset: 0, stride: 4 })
            .collect(),
        format: ColorType::Bgra8888,
        coded: FrameSize { w: 4, h: 2 },
        visible: FrameSize { w: -1, h: 2 },
        modifier: 9,
    }
}

#[test]
fn frames_are_taken_over_with_their_planes() {
    let (t, format) = to_dmabuf_frame(paint(2, 3)).unwrap();
    assert_eq!(format, ColorType::Bgra8888);
    assert_eq!((t.coded, t.visible), (FrameSize { w: 4, h: 2 }, FrameSize { w: 0, h: 2 }));
    assert_eq!((t.modifier, t.planes.len(), t.planes[1].fd), (9, 2, 1));
    assert_eq!(to_dmabuf_frame(paint(5, 3)).unwrap().0.planes.len(), 3);
    assert!(to_dmabuf_frame(paint(0, 3)).is_none());
    assert!(to_dmabuf_frame(paint(1, 0)).is_none());
    let mut p = paint(1, 1);
    p.format = ColorType::Other;
    assert!(to_dmabuf_frame(p).is_none());
    let mut p = paint(1, 1);
    p.coded.h = 0;
    assert!(to_dmabuf_frame(p).is_none());
}

#[test]
fn the_platform_answers() {
    let p = X11Platform;
    let server = WindowDecorations::Server;
    let themed = WindowDecorations::ServerThemed;
    assert_eq!(p.resolve_window_decorations(Some(WindowDecorations::Csd), themed), server);
    assert_eq!(p.resolve_window_decorations(None, themed), themed);
    assert!(p.window_decorations_supported() && !p.clipboard_text_supported());
    assert!(p.set_fullscreen(true, Some(false)));
    assert!(!p.set_fullscreen(true, Some(true)));
    assert!(!p.set_fullscreen(true, None));
    let mut s = X11State::new();
    s.publish_parent(ParentSnapshot {
        origin_x: 1,
        origin_y: 2,
        width: 3,
        height: 4,
        fullscreen: true,
        maximized: true,
        scale_halves: 5,
    });
    let w = X11WindowSource.snapshot(&s);
    assert_eq!((w.extent, w.position, w.maximized, w.fullscreen), (None, None, false, false));
    assert_eq!(X11MpvHost.embed_wid(&s), None);
    assert!(!X11MpvHost.host_ready(&s));
    s.set_host_services(host());
    let w = X11WindowSource.snapshot(&s);
    assert_eq!((w.extent, w.position), (Some((3, 4, 5)), Some((1, 2))));
    assert!(w.maximized && w.fullscreen);
    assert_eq!(X11MpvHost.embed_wid(&s), Some(4_000_000_000));
    assert!(X11MpvHost.host_ready(&s));
    s.parent.height = 0;
    assert_eq!(X11WindowSource.snapshot(&s).extent, None);
}

#[test]
fn the_latest_frame_is_painted() {
    let mut w: X11GpuPaintWorker<u32> = X11GpuPaintWorker::new((4, 4), true);
    assert!(matches!(w.next(), WorkerStep::Wait));
    assert!(!w.submit_frame(&[0; 7], 1, 2, vec![]));
    assert!(w.submit_frame(&[1, 2, 3, 4, 5, 6, 7, 8, 9], 1, 2, vec![]));
    w.resize((0, 5));
    w.resize((8, 9));
    let WorkerStep::Paint { frame, target_size } = w.next() else {
        panic!("expected a frame");
    };
    assert_eq!(target_size, (8, 9));
    assert_eq!(frame.size(), (1, 2));
    let PendingFrame::Pixels { pixels, width, height, stride, .. } = frame else {
        panic!("expected pixels");
    };
    assert_eq!((pixels.len(), width, height, stride), (8, 1, 2, 4));
    let texture = SharedTexture {
        coded: FrameSize { w: 1, h: 1 },
        visible: FrameSize { w: 1, h: 1 },
        modifier: 0,
        planes: vec![],
    };
    assert!(w.submit_dmabuf(texture));
    w.set_visible(false);
    assert!(matches!(w.next(), WorkerStep::Drop));
    assert!(!w.paint_failed(false, true));
    assert!(!w.failed());
    assert!(w.paint_failed(false, false));
    assert!(w.failed());
    assert!(!w.submit_frame(&[0; 8], 1, 2, vec![]));
    w.shutdown();
    assert!(matches!(w.next(), WorkerStep::Stop));
    assert!(needs_configure(None, (1, 1)) && needs_configure(Some((1, 2)), (1, 1)));
    assert!(!needs_configure(Some((1, 1)), (1, 1)));
}

#[test]
fn cursors_are_set_in_order() {
    let mut m = CursorMailbox::new();
    assert_eq!(m.latest, CursorShape::Pointer);
    set_cursor(&mut m, CursorShape::Hand);
    set_cursor(&mut m, CursorShape::Hidden);
    assert!(m.wake);
    assert_eq!(m.drain(), vec![CursorShape::Hand, CursorShape::Hidden]);
    assert_eq!(m.latest, CursorShape::Hidden);
    m.shutdown();
    assert!(m.shutdown);
    assert_eq!(cursor_source(CursorShape::Hidden), CursorSource::Blank);
    assert_eq!(cursor_source(CursorShape::IBeam), CursorSource::Themed(CursorIcon::Text));
}

#[test]
fn keys_are_told_raw_and_as_characters() {
    let mut st = InputState::new();
    let mut m = InputMailbox::new();
    st.handle_key(&mut m, 38, true, 97, 97, 2);
    st.handle_key(&mut m, 38, false, 97, 97, 0);
    st.handle_key(&mut m, 3, true, 65, 0, 4);
    assert_eq!(
        m.drain(),
        vec![
            QueuedInputEvent::KeyRaw { sym: 97, native: 30, modifiers: 0, pressed: true },
            QueuedInputEvent::Char { cp: 97, modifiers: 0, native: 30 },
            QueuedInputEvent::KeyRaw { sym: 97, native: 30, modifiers: 2, pressed: false },
            QueuedInputEvent::KeyRaw { sym: 65, native: u32::MAX - 4, modifiers: 0, pressed: true },
        ]
    );
    assert_eq!(st.modifiers, 4);
    st.handle_key(&mut m, 1, true, XKB_KEY_XF86BACK, 0, 9);
    st.handle_key(&mut m, 1, true, XKB_KEY_XF86FORWARD, 0, 9);
    st.handle_key(&mut m, 1, false, XKB_KEY_XF86FORWARD, 0, 9);
    assert_eq!(
        m.drain(),
        vec![
            QueuedInputEvent::HistoryNav { forward: false },
            QueuedInputEvent::HistoryNav { forward: true },
        ]
    );
    assert_eq!(st.modifiers, 4);
    m.shutdown();
    assert!(m.shutdown && m.wake);
}

#[test]
fn buttons_scroll_navigate_or_click() {
    let mut st = InputState::new();
    let mut m = InputMailbox::new();
    assert!(st.handle_button(&mut m, 1, 5, 6, true));
    assert!(!st.handle_button(&mut m, 4, 5, 6, true));
    assert!(!st.handle_button(&mut m, 7, 5, 6, true));
    assert!(!st.handle_button(&mut m, 7, 5, 6, false));
    assert!(!st.handle_button(&mut m, 9, 5, 6, true));
    assert!(!st.handle_button(&mut m, 1, 5, 6, false));
    assert!(!st.handle_button(&mut m, 20, 5, 6, true));
    assert!(st.handle_button(&mut m, 3, 5, 6, true));
    let left = EVENTFLAG_LEFT_MOUSE_BUTTON;
    let q = m.drain();
    assert_eq!(
        q[..5],
        [
            QueuedInputEvent::MouseButton { code: BTN_LEFT, pressed: true, x: 5, y: 6, modifiers: left },
            QueuedInputEvent::Scroll { x: 5, y: 6, dx: 0, dy: 120, modifiers: left },
            QueuedInputEvent::Scroll { x: 5, y: 6, dx: -120, dy: 0, modifiers: left },
            QueuedInputEvent::HistoryNav { forward: true },
            QueuedInputEvent::MouseButton { code: BTN_LEFT, pressed: false, x: 5, y: 6, modifiers: 0 },
        ]
    );
    assert!(matches!(q[5], QueuedInputEvent::MouseButton { code: BTN_RIGHT, .. }));
    assert_eq!(q.len(), 6);
}

#[test]
fn entering_sets_the_cursor_again() {
    let mut st = InputState::new();
    let mut m = InputMailbox::new();
    let mut c = CursorMailbox::new();
    c.latest = CursorShape::Help;
    st.handle_enter(&mut m, &mut c, 1, 2);
    st.handle_motion(&mut m, 3, 4);
    st.handle_leave(&mut m);
    assert_eq!(c.drain(), vec![CursorShape::Help]);
    assert_eq!(
        m.drain(),
        vec![
            QueuedInputEvent::MouseMove { x: 1, y: 2, modifiers: 0, leave: false },
            QueuedInputEvent::MouseMove { x: 3, y: 4, modifiers: 0, leave: false },
            QueuedInputEvent::MouseMove { x: 3, y: 4, modifiers: 0, leave: true },
        ]
    );
    st.modifiers = 2;
    assert_eq!(st.cef_modifiers(), 2);
}

#[test]
fn cursors_are_made_once() {
    let mut c = CursorCache::new();
    let overlays = vec![7u32, 8];
    let hand = CursorNeed::Make(cursor_source(CursorShape::Hand));
    assert_eq!(c.apply_cursor(CursorShape::Hand, &Vec::new()), CursorNeed::Nothing);
    assert_eq!(c.apply_cursor(CursorShape::Hand, &overlays), hand);
    assert_eq!(c.cursor_made(CursorShape::Hand, None), None);
    assert_eq!(c.cursor_made(CursorShape::Hand, Some(0)), None);
    assert_eq!(c.apply_cursor(CursorShape::Hand, &overlays), hand);
    assert_eq!(c.cursor_made(CursorShape::Hand, Some(40)), Some(40));
    assert_eq!(
        c.apply_cursor(CursorShape::Hidden, &overlays),
        CursorNeed::Make(CursorSource::Blank)
    );
    assert_eq!(c.cursor_made(CursorShape::Hidden, Some(41)), Some(41));
    assert_eq!(c.apply_cursor(CursorShape::Hand, &overlays), CursorNeed::Have(40));
    assert_eq!(c.apply_cursor(CursorShape::Hidden, &overlays), CursorNeed::Have(41));
    assert_eq!(c.apply_cursor(CursorShape::Hand, &Vec::new()), CursorNeed::Nothing);
}

#[test]
fn events_go_to_their_handlers() {
    let mut st = InputState::new();
    let mut m = InputMailbox::new();
    let mut c = CursorMailbox::new();
    let key = XInputEvent::Key { detail: 38, pressed: false, sym: 97, cp: 97, modifiers_after: 2 };
    assert_eq!(st.handle_event(&mut m, &mut c, key, false), InputAsk::Nothing);
    assert_eq!(st.handle_event(&mut m, &mut c, XInputEvent::Modifiers(4), false), InputAsk::Nothing);
    assert!(m.queue.is_empty() && !m.wake && st.modifiers == 0);
    st.handle_event(&mut m, &mut c, key, true);
    assert_eq!(st.modifiers, 2);
    st.handle_event(&mut m, &mut c, XInputEvent::Modifiers(4), true);
    assert_eq!(st.modifiers, 4);
    let press = XInputEvent::Button { button: 1, pressed: true, x: 5, y: 6 };
    assert_eq!(st.handle_event(&mut m, &mut c, press, true), InputAsk::Activate);
    let release = XInputEvent::Button { button: 1, pressed: false, x: 5, y: 6 };
    assert_eq!(st.handle_event(&mut m, &mut c, release, true), InputAsk::Nothing);
    st.handle_event(&mut m, &mut c, XInputEvent::Motion { x: 1, y: 2 }, true);
    assert!(c.queue.is_empty());
    st.handle_event(&mut m, &mut c, XInputEvent::Enter { x: 3, y: 4 }, true);
    assert_eq!(c.drain(), vec![CursorShape::Pointer]);
    st.handle_event(&mut m, &mut c, XInputEvent::Leave, true);
    assert_eq!(
        st.handle_event(&mut m, &mut c, XInputEvent::KeymapChanged, true),
        InputAsk::ReloadKeymap
    );
    assert_eq!(st.handle_event(&mut m, &mut c, XInputEvent::Other, true), InputAsk::Nothing);
    let left = 4 | EVENTFLAG_LEFT_MOUSE_BUTTON;
    assert_eq!(
        m.drain(),
        vec![
            QueuedInputEvent::KeyRaw { sym: 97, native: 30, modifiers: 0, pressed: false },
            QueuedInputEvent::MouseButton { code: BTN_LEFT, pressed: true, x: 5, y: 6, modifiers: left },
            QueuedInputEvent::MouseButton { code: BTN_LEFT, pressed: false, x: 5, y: 6, modifiers: 4 },
            QueuedInputEvent::MouseMove { x: 1, y: 2, modifiers: 4, leave: false },
            QueuedInputEvent::MouseMove { x: 3, y: 4, modifiers: 4, leave: false },
            QueuedInputEvent::MouseMove { x: 3, y: 4, modifiers: 4, leave: true },
        ]
    );
}

#[test]
fn activation_needs_a_root_and_an_atom() {
    assert!(activate_parent(&None, 7).is_none());
    let mut h = host();
    h.root = 4;
    h.atoms.net_active_window = 9;
    let m = activate_parent(&Some(h), 7).unwrap();
    assert_eq!((m.root, m.message.window, m.message.type_), (4, 7, 9));
    assert_eq!(m.message.data, [2, 0, 0, 0, 0]);
    h.atoms.net_active_window = 0;
    assert!(activate_parent(&Some(h), 7).is_none());
    h.atoms.net_active_window = 9;
    h.root = 0;
    assert!(activate_parent(&Some(h), 7).is_none());
}

#[test]
fn input_threads_wait_serve_and_stop() {
    assert_eq!(input_thread_step(Waited::Interrupted, true, true), ThreadStep::Again);
    assert_eq!(input_thread_step(Waited::Failed, false, false), ThreadStep::Stop);
    assert_eq!(input_thread_step(Waited::Ready, true, false), ThreadStep::Stop);
    assert_eq!(input_thread_step(Waited::Ready, false, true), ThreadStep::Stop);
    assert_eq!(input_thread_step(Waited::Ready, false, false), ThreadStep::Serve);
    assert_eq!(mailbox_thread_step(Waited::Interrupted, true, true), ThreadStep::Again);
    assert_eq!(mailbox_thread_step(Waited::Failed, true, false), ThreadStep::Stop);
    assert_eq!(mailbox_thread_step(Waited::Ready, false, true), ThreadStep::Again);
    assert_eq!(mailbox_thread_step(Waited::Ready, true, true), ThreadStep::Stop);
    assert_eq!(mailbox_thread_step(Waited::Ready, true, false), ThreadStep::Serve);
}

fn gen(id: u64) -> Generation {
    Generation { id }
}

fn want(pw: i32, ph: i32) -> MenuPlacement {
    MenuPlacement { x: 0, y: 0, lw: pw, lh: ph, pw, ph }
}

#[test]
fn popups_stay_on_screen() {
    assert_eq!(place(10, 20, 5, 6, want(100, 50), 1920, 1080), (15, 26));
    assert_eq!(place(1900, 20, 5, 6, want(100, 50), 1920, 1080), (1820, 26));
    assert_eq!(place(10, 1060, 5, 6, want(100, 50), 1920, 1080), (15, 1016));
    assert_eq!(place(10, 20, 0, 0, want(100, 2000), 1920, 1080), (10, 0));
    assert_eq!(place(-50, -60, 0, 0, want(0, 0), 1920, 1080), (0, 0));
}

#[test]
fn grabbing_gives_up_after_a_while() {
    let keys = Keymap::new(8, Some((2, vec![10, 11, 20, 21])));
    let mut p: Phase<u32> = Phase::Idle;
    assert_eq!(p.on_grab_retry(true), GrabNext::Stale);
    assert_eq!(p.create(gen(1), Some(7), true), CreateNext::Grabbing);
    assert!(p.owns(gen(1)) && !p.owns(gen(2)));
    assert_eq!(p.on_event(PopupEvent::Expose, &keys), None);
    for _ in 1..GRAB_ATTEMPTS {
        assert_eq!(p.on_grab_retry(false), GrabNext::Retry);
    }
    assert_eq!(p.on_grab_retry(false), GrabNext::GiveUp { generation: gen(1), window: 7 });
    assert_eq!(p.tear_down(), None);
    assert_eq!(p.create(gen(2), Some(8), true), CreateNext::Grabbing);
    assert_eq!(p.on_grab_retry(true), GrabNext::Ready(gen(2)));
    assert_eq!(p.on_event(PopupEvent::Expose, &keys), Some(MenuInput::Expose));
    assert_eq!(
        p.on_event(PopupEvent::Motion { x: 3, y: -4 }, &keys),
        Some(MenuInput::Motion { x: 3, y: -4 })
    );
    assert_eq!(
        p.on_event(PopupEvent::ButtonPress { x: 5, y: 6 }, &keys),
        Some(MenuInput::Press { x: 5, y: 6 })
    );
    assert_eq!(
        p.on_event(PopupEvent::KeyPress { keycode: 9 }, &keys),
        Some(MenuInput::Key { keysym: 20 })
    );
    assert_eq!(p.on_event(PopupEvent::Other, &keys), None);
    assert_eq!(p.destroy(gen(1)), None);
    assert_eq!(p.destroy(gen(2)), Some(8));
    assert!(matches!(p, Phase::Idle));
}

#[test]
fn a_painter_is_made_once_and_a_window_sized_for_textures() {
    let texture = |w, h| -> PendingFrame<u32> {
        PendingFrame::Dmabuf(SharedTexture {
            coded: FrameSize { w, h },
            visible: FrameSize { w, h },
            modifier: 0,
            planes: vec![],
        })
    };
    let pixels: PendingFrame<u32> =
        PendingFrame::Pixels { pixels: vec![], dirty: vec![], width: 5, height: 6, stride: 20 };
    let mut p = Painting::new();
    assert_eq!(p.wants_painter(&pixels), Some((5, 6)));
    assert_eq!(p.plan(&texture(1, 2), (8, 9), false, Some(3), true), None);
    assert_eq!(p, Painting::new());
    let plan = p.plan(&pixels, (8, 9), true, Some(3), true).unwrap();
    assert_eq!((plan.resize, plan.configure), ((8, 9), None));
    assert_eq!(p.wants_painter(&pixels), None);
    // Neither without a window nor without a connection is a size remembered.
    let f = texture(1, 2);
    assert_eq!(p.plan(&f, (8, 9), false, None, true).unwrap().configure, None);
    assert_eq!(p.plan(&f, (8, 9), false, Some(3), false).unwrap().configure, None);
    assert_eq!(p.last_configured, None);
    let sized = Some(SizeRequest { window: 3, w: 1, h: 2 });
    assert_eq!(p.plan(&f, (8, 9), false, Some(3), true).unwrap().configure, sized);
    assert_eq!(p.last_configured, Some((1, 2)));
    assert_eq!(p.plan(&f, (8, 9), false, Some(3), true).unwrap().configure, None);
    let other = p.plan(&texture(2, 2), (8, 9), false, Some(3), true).unwrap();
    assert_eq!(other.configure, Some(SizeRequest { window: 3, w: 2, h: 2 }));
    assert!(p.end());
    assert!(!p.end());
}

fn menu_snap() -> MenuSnap {
    MenuSnap {
        visual: 7,
        depth: 32,
        colormap: 9,
        root: 4,
        parent_x: 10,
        parent_y: 20,
        root_w: 1920,
        root_h: 1080,
    }
}

#[test]
fn menus_are_made_by_what_is_known() {
    let mut s = X11State::new();
    s.parent.origin_x = 10;
    s.parent.origin_y = 20;
    let mut h = host();
    h.root = 4;
    let screens = vec![Screen { root: 3, w: 1, h: 1 }, Screen { root: 4, w: 1920, h: 1080 }];
    assert_eq!(snapshot(&s, &screens), None);
    s.set_host_services(h);
    assert_eq!(snapshot(&s, &screens), None);
    s.set_paint_services(PaintServices { argb_visual: 7, argb_depth: 32, colormap: 9 });
    assert_eq!(snapshot(&s, &screens), Some(menu_snap()));
    assert_eq!(snapshot(&s, &vec![]), None);
    let elsewhere = MenuSnap { root_w: 1, root_h: 1, ..menu_snap() };
    assert_eq!(snapshot(&s, &vec![Screen { root: 3, w: 1, h: 1 }]), Some(elsewhere));
}

#[test]
fn a_menu_window_is_made_whole_or_not_at_all() {
    let all = MenuIds { window: Some(50), created: true, gc: Some(51) };
    let create = MenuRequest::CreateWindow(OverlayCreate {
        window: 50,
        parent: 4,
        depth: 32,
        visual: 7,
        colormap: 9,
        x: 15,
        y: 26,
        w: 100,
        h: 1,
        border_width: 0,
        background_pixel: 0,
        border_pixel: 0,
        override_redirect: true,
        event_mask: 0x8000,
    });
    assert!(can_place(&menu_snap(), 5, 6, want(100, 0)));
    assert!(!can_place(&menu_snap(), i32::MAX, 6, want(100, 0)));
    assert!(can_place(&menu_snap(), 5, i32::MIN, want(100, 0)));
    assert!(!can_place(&menu_snap(), 5, i32::MIN, want(100, 50)));
    let made = |ids| build(&menu_snap(), 5, 6, want(100, 0), ids);
    let window = MenuWindow { win: 50, gc: 51 };
    assert_eq!(
        made(all),
        (
            vec![
                create,
                MenuRequest::CreateGc { gc: 51, window: 50 },
                MenuRequest::MapWindow { window: 50 },
                MenuRequest::Raise { window: 50 },
            ],
            Some(window)
        )
    );
    assert_eq!(made(MenuIds { window: None, ..all }), (vec![], None));
    assert_eq!(made(MenuIds { created: false, ..all }), (vec![create], None));
    assert_eq!(
        made(MenuIds { gc: None, ..all }),
        (vec![create, MenuRequest::DestroyWindow { window: 50 }], None)
    );
    assert_eq!(
        tear_down_requests(window),
        vec![
            MenuRequest::UngrabPointer,
            MenuRequest::UngrabKeyboard,
            MenuRequest::FreeBuffer,
            MenuRequest::FreeGc { gc: 51 },
            MenuRequest::DestroyWindow { window: 50 },
        ]
    );
}

#[test]
fn only_the_menu_that_stands_is_moved_and_shown() {
    let window = MenuWindow { win: 50, gc: 51 };
    let p = Phase::Open { generation: gen(3), window };
    let snap = Some(menu_snap());
    assert_eq!(
        p.reposition(gen(3), snap, 5, 6, want(0, 30)),
        Some(Configure { window: 50, x: 15, y: 26, w: 1, h: 30 })
    );
    assert_eq!(p.reposition(gen(4), snap, 5, 6, want(0, 30)), None);
    assert_eq!(p.reposition(gen(3), None, 5, 6, want(0, 30)), None);
    assert_eq!(Phase::Idle.reposition(gen(3), snap, 5, 6, want(0, 30)), None);
    let paint = |id| MenuPaint {
        generation: gen(id),
        pixels: vec![1, 2],
        pw: 0,
        ph: 8,
        lw: 1,
        lh: 1,
        view_ph: 1,
        scroll: 0,
    };
    assert_eq!(p.buffer_extent(&paint(3)), Some((1, 8)));
    assert_eq!(p.buffer_extent(&paint(4)), None);
    let mut pixels = vec![0; 3];
    assert_eq!(p.present(&paint(4), Some(60), &mut pixels), None);
    assert_eq!(p.present(&paint(3), None, &mut pixels), None);
    assert_eq!(pixels, vec![0, 0, 0]);
    assert_eq!(
        p.present(&paint(3), Some(60), &mut pixels),
        Some(PutImage { window: 50, gc: 51, w: 1, h: 8, depth: 32, seg: 60 })
    );
    assert_eq!(pixels, vec![1, 2, 0]);
}

#[test]
fn a_menu_without_window_or_timer_is_dismissed() {
    let mut p: Phase<u32> = Phase::Idle;
    assert_eq!(p.create(gen(1), None, true), CreateNext::Dismiss { window: None });
    assert_eq!(p.create(gen(1), Some(4), false), CreateNext::Dismiss { window: Some(4) });
    assert!(matches!(p, Phase::Idle));
    assert_eq!(menu_screen(&vec![3, 5, 5], 5), Some(1));
    assert_eq!(menu_screen(&vec![3, 5], 6), Some(0));
    assert_eq!(menu_screen(&vec![], 6), None);
    assert_eq!(Keymap::new(8, None).lookup(8), 0);
}

#[test]
fn queued_menus_are_dismissed_when_the_thread_ends() {
    let mut q = PopupQueue::new();
    assert!(q.create(gen(1), want(1, 1)));
    q.open = true;
    assert!(!q.create(gen(2), want(1, 1)));
    assert!(q.send(Op::Reposition { generation: gen(2), place: want(1, 1) }));
    assert!(q.send(Op::Destroy { generation: gen(2) }));
    assert!(!q.create(gen(3), want(1, 1)));
    let paint = MenuPaint {
        generation: gen(3),
        pixels: vec![1, 2, 3],
        pw: 1,
        ph: 1,
        lw: 1,
        lh: 1,
        view_ph: 1,
        scroll: 0,
    };
    let mut buf = vec![0; 4];
    copy_paint(&mut buf, &paint.pixels);
    assert_eq!(buf, vec![1, 2, 3, 0]);
    let mut short = vec![9; 2];
    copy_paint(&mut short, &paint.pixels);
    assert_eq!(short, vec![1, 2]);
    assert!(q.send(Op::Present(paint)));
    assert_eq!(q.close(true), vec![gen(2), gen(3)]);
    q.open = true;
    assert!(!q.create(gen(4), want(1, 1)));
    assert!(q.close(false).is_empty());
    assert!(!q.send(Op::Destroy { generation: gen(2) }));
}

#[test]
fn keycodes_map_to_their_first_symbol() {
    let k = Keymap { min_keycode: 8, per: 2, syms: vec![10, 11, 20, 21] };
    assert_eq!((k.lookup(8), k.lookup(9), k.lookup(10), k.lookup(7)), (10, 20, 0, 0));
    assert_eq!(Keymap { min_keycode: 8, per: 0, syms: vec![1] }.lookup(8), 0);
}
