use jellium_platform::abi::Generation;
use jellium_platform::abi::MenuPlacement;
use jellium_platform::abi::Rgb;
use jellium_platform::abi::WindowDecorations;
use jellium_platform::wayland::input::SeatShared;
use jellium_platform::wayland::layer::Present;
use jellium_platform::wayland::layer::PresentError;
use jellium_platform::wayland::mpv_proxy::find_mpv_surface;
use jellium_platform::wayland::mpv_proxy::forwards_destination;
use jellium_platform::wayland::mpv_proxy::app_shim;
use jellium_platform::wayland::mpv_proxy::mpv_loop_ends;
use jellium_platform::wayland::mpv_proxy::mpv_shim;
use jellium_platform::wayland::mpv_proxy::AppShell;
use jellium_platform::wayland::mpv_proxy::BoundGlobal;
use jellium_platform::wayland::mpv_proxy::DisplayState;
use jellium_platform::wayland::mpv_proxy::MpvShell;
use jellium_platform::wayland::mpv_proxy::ProxyShared;
use jellium_platform::wayland::mpv_proxy::Shim;
use jellium_platform::wayland::mpv_proxy::SpliceRequest;
use jellium_platform::wayland::mpv_proxy::StartNext;
use jellium_platform::wayland::mpv_proxy::StartStage;
use jellium_platform::wayland::platform::create_popup;
use jellium_platform::wayland::platform::destroy_popup;
use jellium_platform::wayland::platform::has_decoration_manager;
use jellium_platform::wayland::platform::hex_color;
use jellium_platform::wayland::platform::lifecycle_cleanup;
use jellium_platform::wayland::platform::menu_clamp;
use jellium_platform::wayland::platform::present_ok;
use jellium_platform::wayland::platform::probe_decorations;
use jellium_platform::wayland::platform::split_rgb;
use jellium_platform::wayland::platform::MenuClose;
use jellium_platform::wayland::platform::WaylandMpvHost;
use jellium_platform::wayland::platform::WaylandPlatform;
use jellium_platform::wayland::platform::WaylandWindowSource;
use jellium_platform::wayland::root_window::DecorationRequest;
use jellium_platform::wayland::root_window::PopupCommand;
use jellium_platform::wayland::root_window::RootShared;
use jellium_platform::wayland::root_window::WindowCommand;
use jellium_platform::wayland::window_state::WindowMode;
use jellium_platform::wayland::window_state::WindowSize;
use jellium_platform::wayland::window_state::WindowState;

#[test]
fn a_skip_is_not_a_failure() {
    assert!(present_ok(&Ok(Present::Skipped)));
    assert!(present_ok(&Ok(Present::Committed)));
    assert!(!present_ok(&Err(PresentError::ShmAlloc)));
}

#[test]
fn colors_are_split_and_written() {
    let c = split_rgb(0xff12_ab09);
    assert_eq!(c, Rgb { r: 0x12, g: 0xab, b: 0x09 });
    assert_eq!(&hex_color(c), b"#12ab09");
    let mut root = RootShared::new();
    assert_eq!(WaylandPlatform::new().set_theme_color(&mut root, 0x010203), split_rgb(0x010203));
    assert_eq!(root.flags.pending_bg, Some(Rgb { r: 1, g: 2, b: 3 }));
    assert!(root.flags.wake);
}

#[test]
fn support_is_withdrawn_for_good() {
    let mut p = WaylandPlatform::default();
    assert!(p.shared_texture_supported() && p.clipboard_text_supported());
    p.set_shared_texture_unsupported();
    p.clear_clipboard_handler();
    assert!(!p.shared_texture_supported() && !p.clipboard_text_supported());
    assert_eq!(p.software_len(true, 3, 2), Some(24));
    assert_eq!(p.software_len(false, 3, 2), None);
    assert_eq!(p.software_len(true, 0, 2), None);
    assert_eq!(p.software_len(true, 2, -1), None);
}

#[test]
fn the_snapshot_is_of_one_generation() {
    let mut w = WindowState::new();
    w.publish(WindowSize::new(10, 20).unwrap(), WindowMode::Maximized);
    let s = WaylandWindowSource.snapshot(&w);
    assert!(s.extent.is_none() && !s.maximized && !s.fullscreen);
    assert!(!WaylandMpvHost.host_ready(&w));
    w.feed_unit_scale();
    assert!(WaylandMpvHost.host_ready(&w));
    let s = WaylandWindowSource.snapshot(&w);
    assert!(s.maximized && !s.fullscreen);
    assert_eq!(menu_clamp(&s.extent), Some(20));
    assert_eq!(menu_clamp(&None), None);
    w.publish(WindowSize::new(10, 20).unwrap(), WindowMode::Fullscreen);
    assert!(WaylandWindowSource.snapshot(&w).fullscreen);
}

#[test]
fn decorations_take_effect_with_the_first_named_proxy() {
    let mut proxy = ProxyShared::new();
    let mut root = RootShared::new();
    let csd = Some(WindowDecorations::Csd);
    assert!(WaylandMpvHost.proxy_started(&mut proxy, &mut root, csd, true));
    assert_eq!(root.flags.decoration_request, DecorationRequest::ClientSide);
    assert!(!WaylandMpvHost.proxy_started(&mut proxy, &mut root, None, true));
    assert_eq!(root.flags.decoration_request, DecorationRequest::ClientSide);
    let mut proxy = ProxyShared::new();
    assert!(!WaylandMpvHost.proxy_started(&mut proxy, &mut root, None, false));
}

#[test]
fn menus_cite_the_last_press() {
    let mut root = RootShared::new();
    let mut seat = SeatShared::new();
    seat.last_input_serial = 44;
    let g = Generation { id: 1 };
    let place = MenuPlacement { x: 0, y: 0, lw: 1, lh: 1, pw: 1, ph: 1 };
    create_popup(&mut root, &seat, g, place, 0);
    create_popup(&mut root, &seat, g, place, 9);
    let serial = |c: &WindowCommand| match c {
        WindowCommand::Popup(PopupCommand::Create { serial, .. }) => *serial,
        _ => 0,
    };
    assert_eq!((serial(&root.commands[0]), serial(&root.commands[1])), (44, 9));
    seat.suppress_focus_loss();
    assert!(!destroy_popup(&mut root, &mut seat, g, MenuClose::Finished));
    assert!(seat.suppressed_focus_loss);
    assert!(destroy_popup(&mut root, &mut seat, g, MenuClose::External));
    assert!(!destroy_popup(&mut root, &mut seat, g, MenuClose::External));
    seat.suppress_focus_loss();
    assert!(!destroy_popup(&mut root, &mut seat, g, MenuClose::Speculative));
    assert!(!seat.suppressed_focus_loss);
    assert_eq!(root.commands.len(), 6);
    let mut handle = Some(5);
    assert_eq!(lifecycle_cleanup(&mut handle), Some(5));
    assert_eq!(lifecycle_cleanup(&mut handle), None);
}

fn size(w: i32, h: i32) -> WindowSize {
    WindowSize::new(w, h).unwrap()
}

#[test]
fn mpv_mirrors_the_published_size() {
    let mut shared = ProxyShared::new();
    let mut mpv = MpvShell::new();
    let mut seen = 0;
    assert_eq!(mpv.apply_window_size_mpv(&shared, &mut seen), None);
    shared.set_window_size(size(10, 20));
    assert!(shared.wake_mpv);
    assert_eq!(mpv.apply_window_size_mpv(&shared, &mut seen), None);
    assert_eq!(seen, 0);
    let c = mpv.get_toplevel(&shared).unwrap();
    assert_eq!((c.size, c.serial), (size(10, 20), 1));
    let c = mpv.apply_window_size_mpv(&shared, &mut seen).unwrap();
    assert_eq!((c.size, c.serial, seen), (size(10, 20), 2, 1));
    assert_eq!(mpv.apply_window_size_mpv(&shared, &mut seen), None);
    shared.set_window_size(size(10, 20));
    assert!(mpv.apply_window_size_mpv(&shared, &mut seen).is_some());
    assert_eq!(mpv.reassert_mpv_state(&shared).unwrap().serial, 4);
    assert_eq!(shared.window_size(), Some(size(10, 20)));
    assert_eq!(mpv.next_serial(), 5);
}

#[test]
fn the_descriptor_is_taken_once() {
    let mut shared = ProxyShared::new();
    assert_eq!(shared.take_app_client_fd(), None);
    shared.app_client_fd = 7;
    assert_eq!(shared.take_app_client_fd(), Some(7));
    assert_eq!(shared.take_app_client_fd(), None);
}

#[test]
fn destinations_without_area_are_held_back() {
    assert!(forwards_destination(-1, -1));
    assert!(forwards_destination(1, 1));
    assert!(!forwards_destination(0, 5));
    assert!(!forwards_destination(-1, 5));
}

#[test]
fn the_splice_waits_for_its_globals() {
    let mut app = AppShell::new();
    assert_eq!(app.ensure_root(), None);
    app.get_registry(7);
    app.get_registry(8);
    assert_eq!(app.ensure_root(), Some(7));
    assert_eq!(app.ensure_root(), None);
    assert_eq!(app.handle_global("wl_compositor", 9), Some((BoundGlobal::Compositor, 6)));
    assert_eq!(app.handle_global("wl_subcompositor", 3), Some((BoundGlobal::Subcompositor, 1)));
    assert_eq!(app.handle_global("wl_shm", 1), None);
    assert!(!app.roundtrip_done());
    assert_eq!(app.handle_global("xdg_wm_base", 2), Some((BoundGlobal::WmBase, 2)));
    assert!(app.roundtrip_done());
    assert!(!app.wants_splice() && app.can_splice().is_none());
    app.get_toplevel(20);
    app.get_toplevel(21);
    assert!(app.wants_splice());
    assert_eq!(app.can_splice(), Some(21));
    assert_eq!(app.mpv_surface(&[Some(4), Some(9)], 9), None);
    app.add_mpv_client(30);
    assert_eq!(app.mpv_surface(&[Some(4), Some(9)], 9), Some(1));
    assert_eq!(app.mpv_surface(&[Some(4), Some(0)], 0), None);
    assert!(app.splice_result(false).is_empty());
    assert!(app.wants_splice());
    let requests = app.splice_result(true);
    assert_eq!(requests[0], SpliceRequest::SetPosition { x: 0, y: 0 });
    assert_eq!(requests[6], SpliceRequest::CommitRoot);
    assert_eq!(requests.len(), 7);
    assert!(!app.wants_splice() && app.can_splice().is_none());
    assert_eq!(app.drop_mpv_client(), Some(30));
    assert_eq!(app.drop_mpv_client(), None);
    assert_eq!(find_mpv_surface(&[None, Some(4), Some(9), Some(9)], 9), Some(2));
    assert_eq!(find_mpv_surface(&[None, Some(0)], 0), None);
    assert_eq!(find_mpv_surface(&[None, Some(4)], 9), None);
}

#[test]
fn a_spent_descriptor_decides() {
    let mut d = DisplayState::Unattempted;
    assert!(d.wants_connect());
    assert!(!d.attempted(None));
    assert!(d.wants_connect());
    assert!(d.attempted(Some(true)));
    assert!(d.attempted(Some(false)));
    let mut d = DisplayState::Unattempted;
    assert!(!d.attempted(Some(false)));
    assert!(!d.attempted(Some(true)));
    assert!(!d.wants_connect());
}

#[test]
fn mpv_is_kept_from_input_and_from_a_window() {
    assert_eq!(app_shim("wl_seat"), Some(Shim::ForwardSeat));
    assert_eq!(mpv_shim("wl_seat"), Some(Shim::BlockSeat));
    assert_eq!(app_shim("xdg_wm_base"), Some(Shim::AppShell));
    assert_eq!(mpv_shim("xdg_wm_base"), Some(Shim::MpvShell));
    assert_eq!(app_shim("wp_viewporter"), None);
    assert_eq!(mpv_shim("wp_viewporter"), Some(Shim::Viewporter));
    assert_eq!(app_shim("wp_fractional_scale_manager_v1"), Some(Shim::FractionalScale));
    assert_eq!(mpv_shim("wp_fractional_scale_manager_v1"), Some(Shim::FractionalScale));
    assert_eq!(mpv_shim("wl_shm"), None);
    let mut shared = ProxyShared::new();
    assert!(!shared.get_xdg_surface(None));
    assert_eq!(shared.mpv_video_surface_id, 0);
    assert!(!shared.get_xdg_surface(Some(8)));
    assert!(!shared.get_xdg_surface(None));
    assert_eq!(shared.mpv_video_surface_id, 8);
}

/// The steps of a start of which the first `n` succeed, and how it ends.
fn start(first: StartStage, n: usize) -> (usize, Option<String>) {
    let mut stage = first;
    let mut steps = 0;
    loop {
        match stage.next(steps < n) {
            StartNext::Stage(next) => stage = next,
            StartNext::Run => return (steps, None),
            StartNext::Report(text) => return (steps, Some(String::from(text))),
            StartNext::Quit => return (steps, Some(String::from("quit"))),
        }
        steps += 1;
    }
}

#[test]
fn a_failed_start_names_its_step() {
    assert_eq!(start(StartStage::AppState, 0), (0, Some(String::from("S_app build: "))));
    assert_eq!(start(StartStage::AppState, 2), (2, Some(String::from("S_app mpv bridge: "))));
    assert_eq!(start(StartStage::AppState, 4), (4, Some(String::new())));
    assert_eq!(start(StartStage::AppState, 5), (5, Some(String::from("quit"))));
    assert_eq!(start(StartStage::AppState, 9), (5, None));
    assert_eq!(start(StartStage::MpvState, 2), (2, Some(String::from("display name has NUL: "))));
    assert_eq!(start(StartStage::MpvState, 6), (6, Some(String::from("S_mpv poll source: "))));
    assert_eq!(start(StartStage::MpvState, 7), (7, Some(String::from("quit"))));
    assert_eq!(start(StartStage::MpvState, 9), (7, None));
    assert!(mpv_loop_ends(false, true) && mpv_loop_ends(true, false));
    assert!(!mpv_loop_ends(true, true));
}

#[test]
fn the_palette_manager_makes_titlebars_tintable() {
    let palette = String::from("org_kde_kwin_server_decoration_palette_manager");
    assert!(!has_decoration_manager(&vec![palette.clone()]));
    assert!(has_decoration_manager(&vec![String::from("zxdg_decoration_manager_v1")]));
    assert!(!probe_decorations(&None).kde_palette);
    assert!(!probe_decorations(&Some(vec![String::from("wl_shm")])).kde_palette);
    assert!(probe_decorations(&Some(vec![String::from("wl_shm"), palette])).kde_palette);
}
