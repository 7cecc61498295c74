use jellium_platform::abi::FrameSize;
use jellium_platform::windows::backend::after_offer;
use jellium_platform::windows::backend::execution_state;
use jellium_platform::windows::backend::native_path;
use jellium_platform::windows::backend::opens_external_url;
use jellium_platform::windows::backend::theme_colorref;
use jellium_platform::windows::backend::ClipboardNext;
use jellium_platform::windows::backend::IdleInhibitLevel;
use jellium_platform::windows::backend::MenuDelivery;
use jellium_platform::windows::backend::MenuKind;
use jellium_platform::windows::backend::WindowsMpvHost;
use jellium_platform::windows::backend::WindowsPlatform;
use jellium_platform::windows::platform::style_is_fullscreen;
use jellium_platform::windows::platform::PlayerCall;
use jellium_platform::windows::platform::WinAction;
use jellium_platform::windows::platform::WinMessage;
use jellium_platform::windows::platform::WinState;
use jellium_platform::windows::platform::WS_CAPTION;
use jellium_platform::windows::platform::WS_THICKFRAME;
use jellium_platform::windows::render::Frame;
use jellium_platform::windows::render::Painted;
use jellium_platform::windows::render::Part;
use jellium_platform::windows::render::PresentPlan;
use jellium_platform::windows::render::Registry;
use jellium_platform::windows::sink::on_button_pressed;
use jellium_platform::windows::sink::payload_start;
use jellium_platform::windows::sink::seek_ms;
use jellium_platform::windows::sink::ControlButton;
use jellium_platform::windows::sink::MediaCommand;
use jellium_platform::windows::sink::MediaMetadata;
use jellium_platform::windows::sink::MediaType;
use jellium_platform::windows::sink::Phase;
use jellium_platform::windows::sink::SinkEffect;
use jellium_platform::windows::sink::SinkEvent;
use jellium_platform::windows::sink::SinkState;
use jellium_platform::windows::window::needs_seed;
use jellium_platform::windows::window::publish_deferred;
use jellium_platform::windows::window::published;
use jellium_platform::windows::window::sample;
use jellium_platform::windows::window::start_notifier;
use jellium_platform::windows::window::stop_notifier;
use jellium_platform::windows::window::NotifyNext;
use jellium_platform::windows::window::NotifyState;
use jellium_platform::windows::window::PhysicalSize;
use jellium_platform::windows::window::Reading;
use jellium_platform::windows::window::Rect;
use jellium_platform::windows::window::WindowPos;

#[test]
fn colors_and_power_states() {
    assert_eq!(theme_colorref(0x0012_ab09), 0x0009_ab12);
    assert_eq!(theme_colorref(theme_colorref(0x0012_ab09)), 0x0012_ab09);
    assert_eq!(execution_state(IdleInhibitLevel::Nothing), 0x8000_0000);
    assert_eq!(execution_state(IdleInhibitLevel::System), 0x8000_0001);
    assert_eq!(execution_state(IdleInhibitLevel::Display), 0x8000_0003);
    let path: Vec<char> = "C:/a/b\\c".chars().collect();
    assert_eq!(native_path(&path).into_iter().collect::<String>(), "C:\\a\\b\\c");
}

#[test]
fn a_refused_hand_off_restores_the_clipboard() {
    assert_eq!(after_offer(true, false, true), ClipboardNext::RestorePrevious);
    assert_eq!(after_offer(true, true, true), ClipboardNext::Done);
    assert_eq!(after_offer(false, false, true), ClipboardNext::Done);
    assert_eq!(after_offer(true, false, false), ClipboardNext::Done);
}

#[test]
fn the_windows_platform_answers() {
    let p = WindowsPlatform;
    assert!(p.cef_init_precedes_mpv_window() && p.shared_texture_supported());
    assert!(p.web_paste_reads_clipboard() && !p.window_decorations_supported());
    assert_eq!(p.menu_delivery(MenuKind::ContextMenu), MenuDelivery::Host);
    assert_eq!(p.menu_delivery(MenuKind::Dropdown), MenuDelivery::Page);
    assert_eq!(WindowsMpvHost.prepare(), ("MPV_WINDOW_ICON", "IDI_ICON1"));
}

#[test]
fn the_window_is_taken_from_the_first_report() {
    let mut s = WinState::new();
    assert_eq!(s.win_hwnd(), None);
    assert_eq!(s.win_ensure_hwnd(None), None);
    assert_eq!(s.win_ensure_hwnd(Some(0)), None);
    assert_eq!(s.win_ensure_hwnd(Some(5)), Some(5));
    assert_eq!(s.win_ensure_hwnd(Some(6)), Some(5));
    assert_eq!(s.win_hwnd(), Some(5));
    assert_eq!(s.win_cleanup(), None);
    s.hook = 3;
    assert_eq!(s.win_cleanup(), Some(3));
    assert_eq!(s.win_hwnd(), None);
}

#[test]
fn setting_up_needs_window_renderer_and_hook() {
    let mut s = WinState::new();
    assert!(!s.win_init(None, true, Some(3)));
    assert!(!s.win_init(Some(5), false, Some(3)));
    assert_eq!((s.hwnd, s.hook), (5, 0));
    assert!(!s.win_init(None, true, None));
    assert!(s.win_init(Some(6), true, Some(3)));
    assert_eq!((s.hwnd, s.hook), (5, 3));
}

#[test]
fn leaving_fullscreen_maximizes_again() {
    let mut s = WinState::new();
    assert!(s.win_set_fullscreen(true, true, false, true).is_empty());
    s.hwnd = 5;
    assert!(s.win_set_fullscreen(true, false, false, true).is_empty());
    assert!(s.win_set_fullscreen(true, true, true, true).is_empty());
    assert_eq!(
        s.win_set_fullscreen(true, true, false, true),
        vec![PlayerCall::SetMinimized(false), PlayerCall::SetFullscreen(true)]
    );
    assert_eq!(
        s.win_toggle_fullscreen(true, true, false),
        vec![PlayerCall::ToggleFullscreen, PlayerCall::SetMaximized(true)]
    );
    assert_eq!(
        s.win_toggle_fullscreen(true, false, false),
        vec![PlayerCall::SetMinimized(false), PlayerCall::ToggleFullscreen]
    );
    assert_eq!(
        s.win_set_fullscreen(false, true, true, false),
        vec![PlayerCall::SetFullscreen(false)]
    );
    assert!(s.win_toggle_fullscreen(false, false, false).is_empty());
    assert!(style_is_fullscreen(0x1000_0000));
    assert!(!style_is_fullscreen(WS_CAPTION) && !style_is_fullscreen(WS_THICKFRAME));
}

#[test]
fn messages_to_other_windows_mean_nothing() {
    let mut s = WinState::new();
    s.hwnd = 5;
    let min = WinMessage::Size { minimized: true };
    let shown = WinMessage::Size { minimized: false };
    assert_eq!(s.mpv_wndproc_hook(0, 6, WinMessage::Close), vec![]);
    assert_eq!(s.mpv_wndproc_hook(-1, 5, min), vec![]);
    assert!(!s.was_minimized);
    assert_eq!(s.mpv_wndproc_hook(0, 5, min), vec![WinAction::SetVisible(false)]);
    assert_eq!(s.mpv_wndproc_hook(0, 5, min), vec![]);
    assert_eq!(
        s.mpv_wndproc_hook(0, 5, shown),
        vec![WinAction::PublishAndResize, WinAction::SetVisible(true)]
    );
    assert_eq!(s.mpv_wndproc_hook(0, 5, shown), vec![WinAction::PublishAndResize]);
    assert_eq!(s.mpv_wndproc_hook(0, 5, WinMessage::Move), vec![WinAction::Sample]);
    assert_eq!(s.mpv_wndproc_hook(0, 5, WinMessage::DpiChanged), vec![WinAction::Publish]);
    assert_eq!(s.mpv_wndproc_hook(0, 5, WinMessage::StyleChanged), vec![WinAction::Publish]);
    assert_eq!(s.mpv_wndproc_hook(0, 5, WinMessage::Close), vec![WinAction::Shutdown]);
    assert_eq!(s.mpv_wndproc_hook(0, 5, WinMessage::Other), vec![]);
}

fn rect(left: i32, top: i32, right: i32, bottom: i32) -> Rect {
    Rect { left, top, right, bottom }
}

#[test]
fn one_reading_makes_a_snapshot() {
    let mut stored = None;
    let r = Reading {
        client: rect(0, 0, 640, 480),
        dpi: 144,
        frame: Some(rect(110, 60, 800, 600)),
        work: Some(rect(100, 50, 2000, 1000)),
        zoomed: true,
        fullscreen: false,
    };
    assert!(needs_seed(&stored));
    assert!(published(&stored).extent.is_none());
    let size = PhysicalSize { w: 640, h: 480 };
    assert_eq!(sample(&mut stored, r), Some((size, true)));
    assert_eq!(sample(&mut stored, r), Some((size, false)));
    let s = published(&stored);
    assert_eq!(s.extent.unwrap().dpi, 144);
    assert_eq!(s.position, Some(WindowPos { x: 10, y: 10 }));
    assert!(s.maximized && !s.fullscreen && !needs_seed(&stored));
    let empty = Reading { client: rect(0, 0, 0, 480), ..r };
    assert_eq!(sample(&mut stored, empty), None);
    assert_eq!(published(&stored), s);
    let bare = Reading { dpi: 0, frame: None, fullscreen: true, ..r };
    assert_eq!(sample(&mut stored, bare), Some((size, true)));
    let s = published(&stored);
    assert_eq!((s.extent.unwrap().dpi, s.position), (96, None));
    assert!(!s.maximized && s.fullscreen);
}

#[test]
fn the_notifier_tells_once_per_change() {
    let mut n = NotifyState::started();
    assert_eq!(n.next(), NotifyNext::Sleep);
    n.dirty = true;
    assert_eq!(n.next(), NotifyNext::Notify);
    assert_eq!(n.next(), NotifyNext::Sleep);
    n.dirty = true;
    n.stop = true;
    assert_eq!(n.next(), NotifyNext::Stop);
}

#[test]
fn an_empty_url_is_not_opened() {
    assert!(opens_external_url("https://example.org"));
    assert!(!opens_external_url(""));
}

#[test]
fn deferred_publishing_wakes_the_notifier() {
    let mut n = NotifyState { dirty: true, stop: true };
    let mut thread: Option<u8> = None;
    assert!(start_notifier(&thread, &mut n));
    assert_eq!((n.dirty, n.stop), (false, false));
    thread = Some(1);
    assert!(!start_notifier(&thread, &mut n));
    let mut stored = None;
    let client = Rect { left: 0, top: 0, right: 8, bottom: 6 };
    let r = Reading {
        client,
        dpi: 96,
        frame: None,
        work: None,
        zoomed: false,
        fullscreen: false,
    };
    let empty = Reading { client: Rect { right: 0, ..client }, ..r };
    assert_eq!(publish_deferred(&mut stored, &mut n, empty), None);
    assert!(!n.dirty && stored.is_none());
    assert_eq!(publish_deferred(&mut stored, &mut n, r), Some(PhysicalSize { w: 8, h: 6 }));
    assert_eq!(n.next(), NotifyNext::Notify);
    assert_eq!(n.next(), NotifyNext::Sleep);
    assert_eq!(stop_notifier(&mut thread, &mut n), Some(1));
    assert_eq!(stop_notifier(&mut thread, &mut n), None);
    assert_eq!(n.next(), NotifyNext::Stop);
}

fn ids(r: &Registry) -> Vec<u64> {
    r.surfaces.iter().map(|e| e.id).collect()
}

#[test]
fn surfaces_are_stacked_and_never_reused() {
    let mut r = Registry::new();
    assert_eq!(r.alloc_surface(true), 0);
    assert!(!r.init(false, true) && !r.init(true, false));
    assert!(!r.devices);
    assert!(r.init(true, true));
    // Devices that exist are kept.
    assert!(r.init(true, false) && r.devices);
    assert_eq!(r.alloc_surface(false), 0);
    for id in 1..5 {
        assert_eq!(r.alloc_surface(true), id);
    }
    r.restack(&[3, 9, 1, 3]);
    assert_eq!(ids(&r), vec![3, 1, 2, 4]);
    assert!(r.free_surface(1));
    assert!(!r.free_surface(1));
    assert_eq!(ids(&r), vec![3, 2, 4]);
    assert_eq!(r.alloc_surface(true), 5);
    r.cleanup();
    assert!(ids(&r).is_empty() && !r.devices);
    r.restack(&[1]);
    r.devices = true;
    assert_eq!(r.alloc_surface(true), 6);
}

#[test]
fn frames_are_painted_on_visible_parts() {
    let mut r = Registry::new();
    r.devices = true;
    let id = r.alloc_surface(true);
    let size = FrameSize { w: 2, h: 1 };
    let frame = Frame::Software { size, len: 8 };
    let build = |build| PresentPlan::Paint { build, size };
    assert_eq!(r.plan_present(id, Part::Content, frame), build(true));
    assert_eq!(r.plan_present(id, Part::Popup, frame), PresentPlan::Refused);
    assert_eq!(r.plan_present(9, Part::Content, frame), PresentPlan::Refused);
    for bad in [
        Frame::Software { size, len: 0 },
        Frame::Software { size: FrameSize { w: 0, h: 1 }, len: 8 },
        Frame::Accelerated { has_handle: false, coded: size },
    ] {
        assert_eq!(r.plan_present(id, Part::Content, bad), PresentPlan::Refused);
    }
    let done = Painted::Done { shown: true, configured: true };
    let o = r.conclude_present(id, Part::Content, done);
    assert!(o.presented && o.needs_commit);
    assert_eq!(
        r.plan_present(id, Part::Content, Frame::Accelerated { has_handle: true, coded: size }),
        build(false)
    );
    let o = r.conclude_present(id, Part::Content, Painted::Failed);
    assert!(!o.presented && o.needs_commit);
    assert_eq!(r.plan_present(id, Part::Content, frame), build(true));
    let o = r.conclude_present(id, Part::Content, Painted::NoPainter);
    assert!(!o.presented && !o.needs_commit);
    assert!(r.set_visible(id, Part::Content, false));
    assert!(!r.set_visible(id, Part::Content, false));
    assert!(!r.set_visible(9, Part::Content, false));
    assert_eq!(r.plan_present(id, Part::Content, frame), PresentPlan::Refused);
    assert!(!r.popup_hide(id) && !r.popup_show(9));
    assert!(r.popup_show(id) && r.popup_show(id));
    assert_eq!(r.plan_present(id, Part::Popup, frame), build(true));
    assert!(r.popup_hide(id));
    r.devices = false;
    assert_eq!(r.plan_present(id, Part::Popup, frame), PresentPlan::Refused);
}

fn track(id: &str, media_type: MediaType) -> MediaMetadata {
    MediaMetadata {
        id: String::from(id),
        title: String::from("t"),
        artist: String::from("a"),
        album: String::from("b"),
        track_number: 3,
        duration_us: 1000,
        media_type,
    }
}

fn told(s: &mut SinkState, ev: SinkEvent) -> Vec<SinkEffect> {
    let mut out = Vec::new();
    s.deliver(ev, true, &mut out);
    out
}

#[test]
fn the_media_controls_follow_playback() {
    let mut s = SinkState::new();
    assert_eq!(told(&mut s, SinkEvent::MetadataChanged(track("x", MediaType::Audio))), vec![]);
    let art = |uri: &str, picture| SinkEvent::Artwork { uri: uri.as_bytes().to_vec(), picture };
    assert_eq!(told(&mut s, art("", true)), vec![]);
    assert_eq!(told(&mut s, art("data:image/png", true)), vec![]);
    assert_eq!(told(&mut s, art("data:image/png;base64,AA==", false)), vec![]);
    let mut none = Vec::new();
    s.deliver(art("data:image/png;base64,AA==", true), false, &mut none);
    assert!(none.is_empty() && !s.thumbnail);
    assert_eq!(
        told(&mut s, art("data:image/png;base64,AA==", true)),
        vec![SinkEffect::ShowThumbnail, SinkEffect::Update]
    );
    assert_eq!(
        told(&mut s, SinkEvent::PhaseChanged(Phase::Playing)),
        vec![
            SinkEffect::SetStatus(Phase::Playing),
            SinkEffect::ClearAll,
            SinkEffect::ShowMusic { track: Some(3) },
            SinkEffect::ShowThumbnail,
            SinkEffect::Update,
            SinkEffect::Timeline { end: 10000, position: 0 },
            SinkEffect::ForceNextPosition,
        ]
    );
    assert_eq!(
        told(&mut s, SinkEvent::Position { position_us: 7, due: true }),
        vec![SinkEffect::Timeline { end: 10000, position: 70 }]
    );
    assert_eq!(told(&mut s, SinkEvent::Position { position_us: 8, due: false }), vec![]);
    assert_eq!(
        told(&mut s, SinkEvent::PhaseChanged(Phase::Paused)),
        vec![
            SinkEffect::SetStatus(Phase::Paused),
            SinkEffect::Timeline { end: 10000, position: 80 },
            SinkEffect::ForceNextPosition,
        ]
    );
    let mut video = track("x", MediaType::Video);
    video.artist = String::new();
    told(&mut s, SinkEvent::MetadataChanged(video));
    assert_eq!(s.metadata.media_type, MediaType::Audio);
    let mut video = track("y", MediaType::Video);
    video.artist = String::new();
    told(&mut s, SinkEvent::MetadataChanged(video));
    let mut out = Vec::new();
    s.thumbnail = false;
    s.deliver(SinkEvent::PhaseChanged(Phase::Playing), true, &mut out);
    assert_eq!(out[2], SinkEffect::ShowVideo { subtitle: false });
    assert_eq!(out[3], SinkEffect::Update);
    assert_eq!(
        told(&mut s, SinkEvent::QueueCapsChanged { next: true, previous: false }),
        vec![SinkEffect::SetNextEnabled(true), SinkEffect::SetPreviousEnabled(false)]
    );
    assert_eq!(
        told(&mut s, SinkEvent::PhaseChanged(Phase::Stopped)),
        vec![
            SinkEffect::DropThumbnail,
            SinkEffect::ClearAll,
            SinkEffect::Update,
            SinkEffect::SetStatus(Phase::Stopped),
        ]
    );
    assert_eq!((s.metadata.id.as_str(), s.metadata.duration_us, s.position_us), ("", 0, 0));
    assert_eq!(told(&mut s, SinkEvent::Position { position_us: i64::MAX, due: true }), vec![]);
    out.clear();
    s.deliver(SinkEvent::PhaseChanged(Phase::Playing), false, &mut out);
    assert!(out.is_empty());
    assert_eq!(s.phase, Some(Phase::Playing));
}

#[test]
fn buttons_seeks_and_artwork() {
    assert_eq!(on_button_pressed(ControlButton::Play), Some(MediaCommand::Play));
    assert_eq!(on_button_pressed(ControlButton::Pause), Some(MediaCommand::Pause));
    assert_eq!(on_button_pressed(ControlButton::Stop), Some(MediaCommand::Stop));
    assert_eq!(on_button_pressed(ControlButton::Next), Some(MediaCommand::Next));
    assert_eq!(on_button_pressed(ControlButton::Previous), Some(MediaCommand::Previous));
    assert_eq!(on_button_pressed(ControlButton::Other), None);
    assert_eq!((seek_ms(19_999), seek_ms(-19_999), seek_ms(i64::MIN)), (1, -1, i64::MIN / 10000));
    assert_eq!(payload_start(b"data:image/png;base64,AA,"), Some(22));
    assert_eq!(payload_start(b"no payload"), None);
    assert_eq!(payload_start(b""), None);
}
