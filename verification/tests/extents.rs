use jellium_platform::abi::MenuPlacement;
use jellium_platform::wayland::presentation::FloatingRestore;
use jellium_platform::wayland::root_window::build_menu_positioner;
use jellium_platform::wayland::shm_shadow::checked_frame_len;
use jellium_platform::wayland::window_state::WindowMode;
use jellium_platform::x11::geometry::geometric_fullscreen;

#[test]
fn only_a_floating_size_is_gone_back_to() {
    let mut r = FloatingRestore::empty();
    r.record(WindowMode::Maximized, 800, 600);
    assert!(r.size().is_none());
    r.record(WindowMode::Floating, 640, 480);
    r.record(WindowMode::Fullscreen, 1920, 1080);
    let size = r.size().unwrap();
    assert_eq!((size.w(), size.h()), (640, 480));
}

#[test]
fn a_popup_has_at_least_one_pixel() {
    let p = build_menu_positioner(MenuPlacement { x: 3, y: 4, lw: 0, lh: -2, pw: 9, ph: 9 });
    assert_eq!((p.w, p.h, p.anchor_x, p.anchor_y), (1, 1, 3, 4));
    let p = build_menu_positioner(MenuPlacement { x: -3, y: 0, lw: 20, lh: 30, pw: 0, ph: 0 });
    assert_eq!((p.w, p.h, p.anchor_x, p.anchor_y), (20, 30, -3, 0));
}

#[test]
fn frames_are_counted_in_four_byte_pixels() {
    assert_eq!(checked_frame_len(3, 5), Some(60));
    assert_eq!(checked_frame_len(0, 5), Some(0));
    assert_eq!(checked_frame_len(i32::MAX, 2), (i32::MAX as usize).checked_mul(8));
    assert_eq!(checked_frame_len(-1, 2), None);
    assert_eq!(checked_frame_len(2, -1), None);
    assert_eq!(checked_frame_len(-1, -1), None);
    assert_eq!(checked_frame_len(-1, 0), Some(0));
    assert_eq!(checked_frame_len(0, -1), Some(0));
}

#[test]
fn a_window_as_large_as_the_root_is_fullscreen() {
    assert!(geometric_fullscreen((0, 0, 1920, 1080), Some((1920, 1080))));
    assert!(!geometric_fullscreen((0, 0, 1920, 1079), Some((1920, 1080))));
    assert!(!geometric_fullscreen((0, 0, 1920, 1080), None));
}
