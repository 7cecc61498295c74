use jellium_platform::x11::geometry::activate_parent;
use jellium_platform::x11::geometry::cleanup;
use jellium_platform::x11::geometry::drop_toplevel_connection;
use jellium_platform::x11::geometry::find_frame_step;
use jellium_platform::x11::geometry::is_wm_delete;
use jellium_platform::x11::geometry::overlay_properties;
use jellium_platform::x11::geometry::parse_sync_request;
use jellium_platform::x11::geometry::read_wm_state;
use jellium_platform::x11::geometry::set_parent_fullscreen;
use jellium_platform::x11::geometry::ClientMessage;
use jellium_platform::x11::geometry::CommandAsk;
use jellium_platform::x11::geometry::GeoAsk;
use jellium_platform::x11::geometry::GeoEvent;
use jellium_platform::x11::geometry::GeoLoop;
use jellium_platform::x11::geometry::GeoWork;
use jellium_platform::x11::geometry::OverlayOp;
use jellium_platform::x11::geometry::ParentReading;
use jellium_platform::x11::geometry::Pending;
use jellium_platform::x11::geometry::Phase;
use jellium_platform::x11::geometry::RESOURCE_MANAGER;
use jellium_platform::x11::geometry_pass::create_overlay_window;
use jellium_platform::x11::geometry_pass::CommandDone;
use jellium_platform::x11::geometry_pass::Configure;
use jellium_platform::x11::geometry_pass::OverlayCreate;
use jellium_platform::x11::geometry_pass::OverlaySeen;
use jellium_platform::x11::mpv_proxy::set_embed_context;
use jellium_platform::x11::mpv_proxy::SharedEmbed;
use jellium_platform::x11::registry::GeometryCommand;
use jellium_platform::x11::registry::GeometryQueue;
use jellium_platform::x11::registry::SurfaceHandle;
use jellium_platform::x11::registry::SurfaceId;
use jellium_platform::x11::x11_state::overlay_windows;
use jellium_platform::x11::x11_state::parent_snapshot;
use jellium_platform::x11::x11_state::Atoms;
use jellium_platform::x11::x11_state::HostServices;
use jellium_platform::x11::x11_state::PaintServices;
use jellium_platform::x11::x11_state::ParentSnapshot;
use jellium_platform::x11::x11_state::ShmBuffer;
use jellium_platform::x11::x11_state::X11State;

const PARENT: u32 = 10;
const VIDEO: u32 = 11;
const ROOT: u32 = 1;

fn atoms() -> Atoms {
    Atoms {
        net_wm_window_type: 101,
        net_wm_window_type_normal: 102,
        net_wm_state: 103,
        net_wm_state_skip_taskbar: 104,
        net_wm_state_skip_pager: 105,
        net_wm_state_fullscreen: 106,
        net_wm_state_maximized_vert: 107,
        net_wm_state_maximized_horz: 108,
        wm_protocols: 109,
        wm_delete_window: 110,
        net_wm_sync_request: 111,
        net_wm_sync_request_counter: 112,
        cardinal: 113,
        motif_wm_hints: 114,
        net_active_window: 115,
    }
}

fn host() -> HostServices {
    HostServices {
        screen_num: 0,
        root: ROOT,
        toplevel: PARENT,
        video_host: VIDEO,
        atoms: atoms(),
        sync_counter: 77,
    }
}

fn snap(fullscreen: bool) -> ParentSnapshot {
    ParentSnapshot {
        origin_x: 5,
        origin_y: 6,
        width: 800,
        height: 0,
        fullscreen,
        maximized: false,
        scale_halves: 2,
    }
}

fn id(n: u64) -> SurfaceId {
    SurfaceId::from_handle(SurfaceHandle { id: (1 << 32) | n })
}

fn work(fullscreen: bool) -> GeoWork {
    GeoWork::new(snap(fullscreen), 77)
}

fn geo() -> GeoLoop {
    GeoLoop::new(work(false), PARENT, VIDEO, ROOT, 12)
}

fn message(data: [u32; 5]) -> ClientMessage {
    ClientMessage { window: PARENT, type_: 109, data }
}

#[test]
fn overlays_are_born_where_the_parent_is() {
    let mut w = work(true);
    let cmd = GeometryCommand::Create { id: id(1) };
    assert!(matches!(w.apply_command(&cmd, Some(PARENT), false), CommandAsk::Nothing));
    let cmd = GeometryCommand::Create { id: id(1) };
    let CommandAsk::CreateWindow { id: created, birth } = w.apply_command(&cmd, Some(PARENT), true)
    else {
        panic!("expected a window to be created");
    };
    assert_eq!(created, id(1));
    assert_eq!((birth.x, birth.y, birth.w, birth.h), (5, 6, 800, 1));
    assert!(birth.override_redirect);
    w.handle_create(id(1), 31);
    assert!(!w.fsm[&id(1).to_handle().id].mapped);
    assert!(w.fsm[&id(1).to_handle().id].unmanaged);
    assert_eq!(w.publish_windows(), vec![31]);
}

#[test]
fn reordering_keeps_every_window() {
    let mut w = work(false);
    for n in 1..4 {
        w.handle_create(id(n), 30 + n as u32);
    }
    let cmd = GeometryCommand::SetOrder { ids: vec![id(3), id(9), id(1)] };
    let CommandAsk::Stack(stack) = w.apply_command(&cmd, Some(PARENT), true) else {
        panic!("expected a stacking");
    };
    assert_eq!(stack, vec![(33, PARENT), (31, 33), (32, 31)]);
    assert_eq!(w.publish_windows(), vec![33, 31, 32]);
    let cmd = GeometryCommand::Destroy { id: id(1) };
    assert!(matches!(
        w.apply_command(&cmd, None, true),
        CommandAsk::DestroyWindow { window: 31 }
    ));
    let cmd = GeometryCommand::Destroy { id: id(1) };
    assert!(matches!(w.apply_command(&cmd, None, true), CommandAsk::Nothing));
    let cmd = GeometryCommand::SetOrder { ids: vec![id(2)] };
    assert!(matches!(w.apply_command(&cmd, None, true), CommandAsk::Nothing));
    assert_eq!(w.publish_windows(), vec![32, 33]);
    let cmd = GeometryCommand::SetVisible { id: id(2), visible: true };
    assert!(matches!(
        w.apply_command(&cmd, None, true),
        CommandAsk::Record { visible: true, .. }
    ));
}

#[test]
fn a_reading_is_published_to_the_proxy() {
    let mut w = work(false);
    let mut embed = SharedEmbed::new();
    set_embed_context(&mut embed, VIDEO, 103, None, 1, 1);
    let reading = ParentReading {
        geom: (1, 2, 640, 0),
        fullscreen: false,
        maximized: true,
        root_size: Some((1920, 1080)),
    };
    let pass = w.read_parent(reading, &mut embed);
    assert!(pass.changed);
    assert_eq!((pass.fill_w, pass.fill_h), (640, 1));
    assert_eq!(embed.ctx.as_ref().unwrap().published, (640, 1));
    assert_eq!((w.snap.origin_x, w.snap.width, w.snap.height), (1, 640, 0));
    assert!(w.snap.maximized && !w.snap.fullscreen);
    assert!(!w.read_parent(reading, &mut embed).changed);
    let covering = ParentReading { geom: (0, 0, 1920, 1080), ..reading };
    w.read_parent(covering, &mut embed);
    assert!(w.snap.fullscreen);
    let unknown = ParentReading { root_size: None, ..covering };
    w.read_parent(unknown, &mut embed);
    assert!(!w.snap.fullscreen);
}

#[test]
fn overlays_follow_the_parent() {
    let mut g = geo();
    assert!(g.reconcile_overlay(id(1), None, None, Some(true), false).is_none());
    g.work.handle_create(id(1), 31);
    assert!(g.reconcile_overlay(id(1), None, None, None, false).is_none());
    let (window, ops) = g.reconcile_overlay(id(1), None, None, Some(true), false).unwrap();
    assert_eq!(window, 31);
    let place = OverlayOp::PlaceAndSize { x: 5, y: 6, w: 800, h: 1 };
    assert_eq!(
        ops,
        vec![OverlayOp::MapWindow, OverlayOp::GrabInput, OverlayOp::Raise, place]
    );
    let settled = Some((5, 6, 800, 0));
    let (_, ops) = g.reconcile_overlay(id(1), settled, Some(true), Some(true), true).unwrap();
    assert_eq!(ops, vec![]);
    g.parent_mapped = false;
    let (_, ops) = g.reconcile_overlay(id(1), settled, Some(true), Some(true), true).unwrap();
    assert_eq!(ops, vec![OverlayOp::Unmap]);
    g.parent_mapped = true;
    g.work.snap.fullscreen = true;
    let (_, ops) = g.reconcile_overlay(id(1), settled, Some(true), Some(true), true).unwrap();
    assert_eq!(ops[0], OverlayOp::SetOverrideRedirect(true));
    assert_eq!(ops[5], OverlayOp::Raise);
    assert_eq!(ops.len(), 6);
}

#[test]
fn a_resize_is_acknowledged_after_its_configure() {
    let mut g = geo();
    let h = Some(host());
    let request = GeoEvent::ClientMessage(message([111, 0, 7, u32::MAX, 0]));
    assert_eq!(g.on_event(&h, request), GeoAsk::Nothing);
    assert_eq!(g.work.commit_resize(), None);
    g.on_event(&h, GeoEvent::ConfigureNotify { window: 12 });
    assert_eq!(g.work.commit_resize(), None);
    g.on_event(&h, GeoEvent::ConfigureNotify { window: PARENT });
    assert_eq!(g.work.commit_resize(), Some((-1, 7)));
    assert_eq!(g.work.commit_resize(), None);
    g.on_event(&h, request);
    assert_eq!(g.work.commit_resize(), None);
    assert_eq!(parse_sync_request(&HostServices { sync_counter: 0, ..host() }, &message([111; 5])), None);
    let mut w = GeoWork::new(snap(false), 0);
    w.latch_sync(1, 2);
    assert_eq!(w.sync_pending, None);
}

#[test]
fn events_ask_for_as_much_settling_as_they_need() {
    let h = Some(host());
    let mut g = geo();
    assert_eq!(g.settle(), Some((true, false)));
    assert_eq!(g.settle(), None);
    for (ev, ask, settle) in [
        (GeoEvent::Other, GeoAsk::Nothing, None),
        (
            GeoEvent::CreateNotify { parent: VIDEO, window: 40 },
            GeoAsk::Nothing,
            Some((false, false)),
        ),
        (GeoEvent::CreateNotify { parent: ROOT, window: 41 }, GeoAsk::Nothing, None),
        (GeoEvent::ConfigureNotify { window: 12 }, GeoAsk::Nothing, Some((true, false))),
        (GeoEvent::ConfigureNotify { window: 50 }, GeoAsk::Nothing, Some((false, false))),
        (GeoEvent::CirculateNotify { window: PARENT }, GeoAsk::Nothing, Some((true, false))),
        (GeoEvent::PropertyNotify { window: PARENT, atom: 1 }, GeoAsk::Nothing, Some((true, false))),
        (
            GeoEvent::PropertyNotify { window: ROOT, atom: RESOURCE_MANAGER },
            GeoAsk::RefreshScale,
            None,
        ),
        (GeoEvent::PropertyNotify { window: ROOT, atom: 1 }, GeoAsk::Nothing, None),
        (GeoEvent::ReparentNotify { window: PARENT }, GeoAsk::FindFrame, Some((true, false))),
        (GeoEvent::MapNotify { window: PARENT }, GeoAsk::Visible(true), Some((true, true))),
        (GeoEvent::MapNotify { window: 50 }, GeoAsk::Nothing, None),
        (GeoEvent::UnmapNotify { window: 50 }, GeoAsk::Nothing, Some((false, false))),
        (GeoEvent::UnmapNotify { window: PARENT }, GeoAsk::Visible(false), Some((false, false))),
        (GeoEvent::DestroyNotify { window: PARENT }, GeoAsk::Shutdown, None),
        (
            GeoEvent::ClientMessage(message([110, 0, 0, 0, 0])),
            GeoAsk::Shutdown,
            None,
        ),
        (
            GeoEvent::SelectionOwner { owner: 3 },
            GeoAsk::CompositorDetected(true),
            Some((true, false)),
        ),
        (GeoEvent::SelectionOwner { owner: 0 }, GeoAsk::CompositorDetected(false), None),
    ] {
        assert_eq!(g.on_event(&h, ev), ask, "{ev:?}");
        assert_eq!(g.settle(), settle, "{ev:?}");
    }
    assert_eq!(g.embed, Some(40));
    assert!(!g.parent_mapped);
    g.on_event(&h, GeoEvent::DestroyNotify { window: 40 });
    assert_eq!(g.embed, None);
    g.raise_to(Pending::Refocus);
    g.raise_to(Pending::Reconcile);
    assert_eq!(g.phase, Phase::Running(Pending::Refocus));
    assert_eq!(g.shutdown(), PARENT);
    g.raise_to(Pending::Refocus);
    assert_eq!(g.settle(), None);
}

#[test]
fn the_scale_falls_back_to_unscaled() {
    let mut g = geo();
    g.settle();
    assert!(!g.display_scale_queried(None));
    assert!(g.display_scale_queried(Some(3)));
    assert_eq!(g.settle(), Some((false, false)));
    assert_eq!(g.work.snap.scale_halves, 3);
    assert!(g.display_scale_queried(None));
    assert!(g.reparented(99));
    assert!(!g.reparented(PARENT));
    assert_eq!(find_frame_step(Some(8), ROOT), Some(8));
    assert_eq!(find_frame_step(Some(ROOT), ROOT), None);
    assert_eq!(find_frame_step(Some(0), ROOT), None);
    assert_eq!(find_frame_step(None, ROOT), None);
}

#[test]
fn the_window_manager_is_told() {
    let mut q = GeometryQueue::new();
    assert!(set_parent_fullscreen(&None, &mut q, true).is_none());
    assert!(q.resync);
    let m = set_parent_fullscreen(&Some(host()), &mut q, true).unwrap();
    assert_eq!((m.root, m.message.window, m.message.type_), (ROOT, PARENT, 103));
    assert_eq!(m.message.data, [1, 106, 0, 1, 0]);
    let bare = HostServices { toplevel: 0, ..host() };
    assert!(set_parent_fullscreen(&Some(bare), &mut q, false).is_none());
    let m = activate_parent(&host(), ROOT, PARENT);
    assert_eq!((m.message.type_, m.message.data), (115, [2, 0, 0, 0, 0]));
    assert!(is_wm_delete(&host(), &message([110, 0, 0, 0, 0])));
    assert!(!is_wm_delete(&host(), &message([111, 0, 0, 0, 0])));
    assert_eq!(read_wm_state(&atoms(), &[106]), (true, false));
    assert_eq!(read_wm_state(&atoms(), &[108, 107]), (false, true));
    assert_eq!(read_wm_state(&atoms(), &[107]), (false, false));
    assert_eq!(read_wm_state(&atoms(), &[]), (false, false));
}

#[test]
fn a_pass_sizes_the_host_and_every_overlay() {
    let mut g = geo();
    let mut s = X11State::new();
    let mut embed = SharedEmbed::new();
    set_embed_context(&mut embed, VIDEO, 103, None, 1, 1);
    g.work.handle_create(id(1), 31);
    g.work.handle_create(id(2), 32);
    let unseen = OverlaySeen { observed: None, mapped: None, visible: None };
    let shown = OverlaySeen { observed: Some((0, 0, 1, 1)), mapped: Some(true), visible: Some(true) };
    let seen = vec![unseen, shown];
    assert!(g.reconcile(&mut s, &mut embed, None, &seen, true).is_none());
    assert_eq!(embed.ctx.as_ref().unwrap().published, (1, 1));
    let reading = ParentReading {
        geom: (1, 2, 640, 0),
        fullscreen: false,
        maximized: true,
        root_size: None,
    };
    let done = g.reconcile(&mut s, &mut embed, Some(reading), &seen, true).unwrap();
    assert_eq!(done.fills, vec![Configure { window: VIDEO, x: 0, y: 0, w: 640, h: 1 }]);
    assert!(done.changed);
    assert_eq!(done.acknowledge, None);
    assert_eq!(done.overlays.len(), 2);
    let (first, second) = (&done.overlays[0], &done.overlays[1]);
    assert_eq!((first.window, first.watch, first.resize), (31, false, None));
    assert!(first.ops.is_empty());
    assert_eq!((second.window, second.watch, second.resize), (32, true, Some((640, 0))));
    assert!(second.ops.contains(&OverlayOp::PlaceAndSize { x: 1, y: 2, w: 640, h: 1 }));
    assert_eq!(embed.ctx.as_ref().unwrap().published, (640, 1));
    assert_eq!((s.parent.width, s.parent.maximized), (640, true));

    g.embed = Some(77);
    g.work.latch_sync(1, 2);
    g.work.sync_armed = true;
    let done = g.reconcile(&mut s, &mut embed, Some(reading), &seen, false).unwrap();
    assert_eq!(done.fills[1], Configure { window: 77, x: 0, y: 0, w: 640, h: 1 });
    assert!(!done.changed);
    assert_eq!(done.acknowledge, if g.work.sync_counter == 0 { None } else { Some((1, 2)) });
}

#[test]
fn queued_commands_are_applied_in_order() {
    let mut g = geo();
    let mut s = X11State::new();
    g.settle();
    assert!(g.on_resync(&mut s, &Vec::new(), &Vec::new()).is_empty());
    assert_eq!(g.phase, Phase::Running(Pending::Restack));
    let cmds = vec![GeometryCommand::Create { id: id(1) }];
    let done = g.on_resync(&mut s, &cmds, &vec![Some(31)]);
    assert!(matches!(done[0], CommandDone::Nothing));
    s.set_host_services(host());
    s.set_paint_services(PaintServices { argb_visual: 1, argb_depth: 32, colormap: 2 });
    let cmds = vec![
        GeometryCommand::Create { id: id(1) },
        GeometryCommand::Create { id: id(2) },
        GeometryCommand::Create { id: id(3) },
        GeometryCommand::SetOrder { ids: vec![id(3)] },
        GeometryCommand::SetVisible { id: id(3), visible: false },
        GeometryCommand::Destroy { id: id(1) },
        GeometryCommand::Destroy { id: id(2) },
    ];
    let made = vec![Some(31), None, Some(33), None, None, None, None];
    let done = g.on_resync(&mut s, &cmds, &made);
    assert!(matches!(done[0], CommandDone::Attached { window: 31, .. }));
    assert!(matches!(done[1], CommandDone::Nothing));
    assert!(matches!(done[2], CommandDone::Attached { window: 33, .. }));
    let CommandDone::Stack(pairs) = &done[3] else {
        panic!("expected a stacking");
    };
    assert_eq!(pairs, &vec![(33, PARENT), (31, 33)]);
    assert!(matches!(done[4], CommandDone::Record { visible: false, .. }));
    assert!(matches!(done[5], CommandDone::DestroyWindow { window: 31 }));
    assert!(matches!(done[6], CommandDone::Nothing));
    assert_eq!(overlay_windows(&s), vec![33]);
}

#[test]
fn overlay_windows_are_made_beside_the_top_level() {
    let paint = PaintServices { argb_visual: 7, argb_depth: 32, colormap: 9 };
    let birth = work(true).birth();
    assert!(create_overlay_window(&host(), &paint, birth, None).is_none());
    let (made, properties) = create_overlay_window(&host(), &paint, birth, Some(50)).unwrap();
    assert_eq!(
        made,
        OverlayCreate {
            window: 50,
            parent: ROOT,
            depth: 32,
            visual: 7,
            colormap: 9,
            x: 5,
            y: 6,
            w: 800,
            h: 1,
            border_width: 0,
            background_pixel: 0,
            border_pixel: 0,
            override_redirect: true,
            event_mask: 0x8000,
        }
    );
    assert_eq!(properties.len(), 6);
}

#[test]
fn overlays_describe_themselves() {
    let p = overlay_properties(&host());
    let all: Vec<(u32, u32, &[u32])> =
        p.iter().map(|p| (p.property, p.type_, p.values.as_slice())).collect();
    assert_eq!(
        all,
        vec![
            (68, 33, &[PARENT][..]),
            (101, 4, &[102][..]),
            (103, 4, &[104, 105][..]),
            (114, 114, &[2, 0, 0, 0, 0][..]),
            (35, 35, &[1, 0, 0, 0, 0, 0, 0, 0, 0][..]),
            (109, 4, &[110][..]),
        ]
    );
}

#[test]
fn shared_facts_are_set_once() {
    let mut s = X11State::new();
    assert!(s.set_host_services(host()));
    assert!(!s.set_host_services(HostServices { root: 9, ..host() }));
    assert_eq!(s.host.unwrap().root, ROOT);
    let p = PaintServices { argb_visual: 1, argb_depth: 32, colormap: 2 };
    assert!(s.set_paint_services(p));
    assert!(!s.set_paint_services(p));
    s.publish_parent(snap(true));
    s.publish_overlay_windows(vec![4, 5]);
    assert_eq!(parent_snapshot(&s), snap(true));
    let seen = overlay_windows(&s);
    s.publish_overlay_windows(vec![6]);
    assert_eq!(seen, vec![4, 5]);
    assert_eq!(overlay_windows(&s), vec![6]);
    let mut b: ShmBuffer<u8> = ShmBuffer::empty();
    assert!(!b.is_mapped());
    b.set(3, 9, 10, 20);
    assert_eq!((b.seg(), b.dims(), b.is_mapped()), (3, (10, 20), true));
    b.clear();
    assert_eq!((b.seg(), b.dims(), b.is_mapped()), (0, (0, 0), false));
    let mut held = Some(1);
    drop_toplevel_connection(&mut held);
    assert_eq!(held, None);
    let mut thread = Some(2);
    assert_eq!(cleanup(&mut thread), Some(2));
    assert_eq!(cleanup(&mut thread), None);
}
