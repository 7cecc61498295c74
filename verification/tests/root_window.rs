use jellium_platform::abi::EffectiveDecorations;
use jellium_platform::abi::Generation;
use jellium_platform::abi::MenuPaint;
use jellium_platform::abi::MenuPlacement;
use jellium_platform::abi::Rgb;
use jellium_platform::abi::WindowDecorations;
use jellium_platform::wayland::input::SeatShared;
use jellium_platform::wayland::popup_place::Placed;
use jellium_platform::wayland::presentation::logical_extent;
use jellium_platform::wayland::presentation::plan;
use jellium_platform::wayland::presentation::resolve_logical_size;
use jellium_platform::wayland::presentation::Inputs;
use jellium_platform::wayland::presentation::ScaleDiscovery;
use jellium_platform::wayland::presentation::Step;
use jellium_platform::wayland::root_settle::bind_required;
use jellium_platform::wayland::root_settle::ensure_started;
use jellium_platform::wayland::root_settle::start_toplevel;
use jellium_platform::wayland::root_settle::RequiredGlobal;
use jellium_platform::wayland::root_settle::Settle;
use jellium_platform::wayland::root_settle::SettleNext;
use jellium_platform::wayland::root_window::DecorationRequest;
use jellium_platform::wayland::root_window::FsRequest;
use jellium_platform::wayland::root_window::MenuPopup;
use jellium_platform::wayland::root_window::PopupCommand;
use jellium_platform::wayland::root_window::RootEffect;
use jellium_platform::wayland::root_window::RootShared;
use jellium_platform::wayland::root_window::RootState;
use jellium_platform::wayland::root_window::WindowCommand;
use jellium_platform::wayland::root_window::WindowConfigure;
use jellium_platform::wayland::scale::Scale120;
use jellium_platform::wayland::window_state::scale_displaces;
use jellium_platform::wayland::window_state::ScaleProvenance;
use jellium_platform::wayland::window_state::WindowMode;
use jellium_platform::wayland::window_state::WindowSize;
use jellium_platform::wayland::window_state::WindowState;


struct Model {
    mapped: bool,
    pending_configure: bool,
    scale: Option<ScaleProvenance>,
    discovery: ScaleDiscovery,
    configures: u32,
    commits: u32,
    probe_spawns: u32,
}

#[derive(Clone, Copy)]
enum Ev {
    /// WindowHandler::configure dispatches (SCTK has acked the serial).
    Configure,
    /// wp_fractional_scale.preferred_scale dispatches.
    PreferredScale,
    /// dispatch_pending returned: the current batch is fully drained.
    BatchDrained,
    /// The bounded fallback probe fed a provisional scale (probe result or
    /// unit fallback - identical control flow).
    ProbeCompletes,
    /// Boot found no wp_fractional_scale_manager_v1.
    BootUnitScale,
}

impl Model {
    fn new() -> Self {
        Self {
            mapped: false,
            pending_configure: false,
            scale: None,
            discovery: ScaleDiscovery::Idle,
            configures: 0,
            commits: 0,
            probe_spawns: 0,
        }
    }

    fn feed(&mut self, incoming: ScaleProvenance) {
        if scale_displaces(self.scale, incoming) {
            self.scale = Some(incoming);
        }
    }

    /// Mirrors `RootState::try_present`.
    fn drive(&mut self) {
        let step = plan(Inputs {
            mapped: self.mapped,
            pending_configure: self.pending_configure,
            scale_known: self.scale.is_some(),
            // The boot floating size is always recorded, so a floating
            // root always resolves; size-resolution corner cases are
            // covered by the resolve_logical_size tests.
            size: WindowSize::new(1280, 720),
        });
        match step {
            Step::Wait => {}
            Step::DiscoverScale => self.discovery = self.discovery.request(),
            Step::Present => {
                assert!(
                    self.pending_configure || self.mapped,
                    "present without any configure"
                );
                if self.pending_configure {
                    self.pending_configure = false;
                    self.configures += 1;
                    self.mapped = true;
                }
                // One latch raise = exactly one root commit per transaction.
                self.commits += 1;
            }
        }
    }

    fn ev(&mut self, e: Ev) {
        match e {
            Ev::Configure => {
                self.pending_configure = true;
                self.drive();
            }
            Ev::PreferredScale => {
                self.feed(ScaleProvenance::Authoritative);
                self.drive();
            }
            Ev::BatchDrained => {
                let (next, spawn) = self.discovery.after_batch_drained(self.scale.is_some());
                self.discovery = next;
                if spawn {
                    self.probe_spawns += 1;
                }
            }
            Ev::ProbeCompletes => {
                self.feed(ScaleProvenance::Provisional);
                self.drive();
            }
            Ev::BootUnitScale => self.feed(ScaleProvenance::Provisional),
        }
    }

    fn run(&mut self, evs: &[Ev]) {
        for &e in evs {
            self.ev(e);
        }
    }
}

#[test]
fn preferred_scale_before_configure() {
    let mut m = Model::new();
    m.run(&[Ev::PreferredScale]);
    // Scale alone must not touch the surface before the first configure.
    assert_eq!(m.commits, 0);
    m.run(&[Ev::Configure, Ev::BatchDrained]);
    assert_eq!((m.configures, m.commits, m.probe_spawns), (1, 1, 0));
    assert_eq!(m.discovery, ScaleDiscovery::Idle);
}

#[test]
fn preferred_scale_later_in_same_batch_wins_without_probe() {
    let mut m = Model::new();
    m.run(&[Ev::Configure]);
    // Mid-batch: the callback only requested discovery - it must not probe.
    assert_eq!(m.discovery, ScaleDiscovery::Requested);
    assert_eq!(m.commits, 0);
    m.run(&[Ev::PreferredScale, Ev::BatchDrained]);
    assert_eq!((m.configures, m.commits, m.probe_spawns), (1, 1, 0));
    assert_eq!(m.discovery, ScaleDiscovery::Idle);
}

#[test]
fn withheld_scale_probes_after_drain_then_authoritative_corrects() {
    let mut m = Model::new();
    m.run(&[Ev::Configure, Ev::BatchDrained]);
    // Hyprland style: nothing else in the batch, so exactly one probe.
    assert_eq!(m.probe_spawns, 1);
    assert_eq!(m.commits, 0);
    m.run(&[Ev::ProbeCompletes]);
    assert_eq!((m.configures, m.commits), (1, 1));
    assert_eq!(m.scale, Some(ScaleProvenance::Provisional));
    m.run(&[Ev::PreferredScale]);
    assert_eq!(m.scale, Some(ScaleProvenance::Authoritative));
    assert_eq!((m.configures, m.commits), (1, 2));
}

#[test]
fn probe_failure_presents_with_unit_fallback() {
    // A failed probe feeds the unit scale through the identical path, so
    // startup still completes.
    let mut m = Model::new();
    m.run(&[Ev::Configure, Ev::BatchDrained, Ev::ProbeCompletes]);
    assert_eq!((m.configures, m.commits), (1, 1));
    assert_eq!(m.scale, Some(ScaleProvenance::Provisional));
}

#[test]
fn late_probe_result_never_clobbers_authoritative_scale() {
    let mut m = Model::new();
    m.run(&[
        Ev::Configure,
        Ev::BatchDrained,
        Ev::PreferredScale,
        Ev::ProbeCompletes,
    ]);
    assert_eq!(m.scale, Some(ScaleProvenance::Authoritative));
}

#[test]
fn no_fractional_scale_manager_uses_unit_scale_without_discovery() {
    let mut m = Model::new();
    m.run(&[Ev::BootUnitScale, Ev::Configure, Ev::BatchDrained]);
    assert_eq!((m.configures, m.commits, m.probe_spawns), (1, 1, 0));
    assert_eq!(m.discovery, ScaleDiscovery::Idle);
}

#[test]
fn repeated_unchanged_scales_re_present_without_new_ack_or_probe() {
    let mut m = Model::new();
    m.run(&[Ev::PreferredScale, Ev::Configure, Ev::BatchDrained]);
    m.run(&[Ev::PreferredScale, Ev::PreferredScale, Ev::BatchDrained]);
    assert_eq!((m.configures, m.commits, m.probe_spawns), (1, 3, 0));
}

#[test]
fn output_migration_scale_without_configure_re_presents() {
    let mut m = Model::new();
    m.run(&[Ev::PreferredScale, Ev::Configure, Ev::BatchDrained]);
    // Moving to another output delivers only a new preferred_scale.
    m.run(&[Ev::PreferredScale, Ev::BatchDrained]);
    assert_eq!((m.configures, m.commits), (1, 2));
}

#[test]
fn bare_configure_ack_after_map() {
    let mut m = Model::new();
    m.run(&[Ev::PreferredScale, Ev::Configure, Ev::BatchDrained]);
    m.run(&[Ev::Configure, Ev::BatchDrained]);
    assert_eq!((m.configures, m.commits), (2, 2));
}

#[test]
fn pending_fallback_never_respawns_and_never_blocks_shutdown() {
    let mut m = Model::new();
    m.run(&[Ev::Configure, Ev::BatchDrained]);
    assert_eq!(m.probe_spawns, 1);
    // The probe never completes (wedged compositor): further drains must
    // not spawn again - the loop stays free to exit at shutdown, and the
    // orphaned probe thread owns only its private connection.
    m.run(&[Ev::BatchDrained, Ev::BatchDrained]);
    assert_eq!(m.probe_spawns, 1);
    assert_eq!(m.discovery, ScaleDiscovery::Spawned);
    assert_eq!(m.commits, 0);
}

#[test]
fn callbacks_never_spawn_probes() {
    // Spawning happens only on BatchDrained, whatever callbacks arrive.
    let mut m = Model::new();
    m.run(&[
        Ev::Configure,
        Ev::Configure,
        Ev::PreferredScale,
        Ev::Configure,
    ]);
    assert_eq!(m.probe_spawns, 0);
}

fn place(x: i32) -> MenuPlacement {
    MenuPlacement {
        x,
        y: 0,
        lw: 10,
        lh: 10,
        pw: 10,
        ph: 10,
    }
}

#[test]
fn an_unmapped_popup_holds_a_placement_until_the_map() {
    let mut p = Placed::created(place(0));
    p.hold(place(1));
    p.hold(place(2));
    assert_eq!(p.on_map(), Some(place(2)));
}

#[test]
fn a_held_placement_equal_to_the_create_never_reaches_the_wire() {
    let mut p = Placed::created(place(0));
    p.hold(place(1));
    p.hold(place(0));
    assert_eq!(p.on_map(), None);
}

#[test]
fn a_mapped_popup_sends_only_a_changed_placement() {
    let mut p = Placed::created(place(0));
    assert_eq!(p.send(place(0)), None);
    assert_eq!(p.send(place(1)), Some(place(1)));
    assert_eq!(p.send(place(1)), None);
}

#[test]
fn a_consumed_hold_is_not_replayed_by_a_later_map() {
    let mut p = Placed::created(place(0));
    p.hold(place(1));
    assert_eq!(p.on_map(), Some(place(1)));
    assert_eq!(p.on_map(), None);
    // The consumed hold is now what the compositor holds.
    assert_eq!(p.send(place(1)), None);
}

#[test]
fn discovery_request_is_idempotent_and_never_downgrades() {
    assert_eq!(ScaleDiscovery::Idle.request(), ScaleDiscovery::Requested);
    assert_eq!(
        ScaleDiscovery::Requested.request(),
        ScaleDiscovery::Requested
    );
    // A spawned probe must not be re-requested by later configures.
    assert_eq!(ScaleDiscovery::Spawned.request(), ScaleDiscovery::Spawned);
}

#[test]
fn discovery_batch_drain_transitions() {
    assert_eq!(
        ScaleDiscovery::Requested.after_batch_drained(true),
        (ScaleDiscovery::Idle, false)
    );
    assert_eq!(
        ScaleDiscovery::Requested.after_batch_drained(false),
        (ScaleDiscovery::Spawned, true)
    );
    for known in [false, true] {
        assert_eq!(
            ScaleDiscovery::Idle.after_batch_drained(known),
            (ScaleDiscovery::Idle, false)
        );
        assert_eq!(
            ScaleDiscovery::Spawned.after_batch_drained(known),
            (ScaleDiscovery::Spawned, false)
        );
    }
}

fn inputs(mapped: bool, pending_configure: bool, scale_known: bool, size: bool) -> Inputs {
    Inputs {
        mapped,
        pending_configure,
        scale_known,
        size: size.then(|| WindowSize::new(1280, 720).unwrap()),
    }
}

#[test]
fn no_configure_and_unmapped_waits() {
    // Whatever else is known, nothing may happen before the first configure.
    for scale_known in [false, true] {
        for size in [false, true] {
            assert_eq!(plan(inputs(false, false, scale_known, size)), Step::Wait);
        }
    }
}

#[test]
fn first_configure_without_scale_discovers() {
    for size in [false, true] {
        assert_eq!(plan(inputs(false, true, false, size)), Step::DiscoverScale);
    }
}

#[test]
fn mapped_without_scale_waits_instead_of_probing() {
    // After map the compositor owns the scale; a re-present must not probe.
    assert_eq!(plan(inputs(true, true, false, true)), Step::Wait);
    assert_eq!(plan(inputs(true, false, false, true)), Step::Wait);
}

#[test]
fn unresolvable_size_waits() {
    assert_eq!(plan(inputs(false, true, true, false)), Step::Wait);
    assert_eq!(plan(inputs(true, false, true, false)), Step::Wait);
}

#[test]
fn presents_once_configured_scaled_and_sized() {
    assert_eq!(plan(inputs(false, true, true, true)), Step::Present);
    assert_eq!(plan(inputs(true, true, true, true)), Step::Present);
    // Re-present without a new configure (scale/size change after map).
    assert_eq!(plan(inputs(true, false, true, true)), Step::Present);
}

const NONE: (Option<i32>, Option<i32>) = (None, None);

fn pending(w: i32, h: i32) -> (Option<i32>, Option<i32>) {
    (Some(w), Some(h))
}

fn size(w: i32, h: i32) -> Option<WindowSize> {
    WindowSize::new(w, h)
}

#[test]
fn maximized_without_compositor_size_defers() {
    assert_eq!(
        resolve_logical_size(NONE, None, size(1280, 720), WindowMode::Maximized),
        None
    );
    assert_eq!(
        resolve_logical_size(NONE, None, size(1280, 720), WindowMode::Fullscreen),
        None
    );
}

#[test]
fn tiled_defers_like_maximized_not_floating() {
    // Tiled is compositor-dictated: without a compositor size it must defer,
    // not fall back to the saved floating size.
    assert_eq!(
        resolve_logical_size(NONE, None, size(1280, 720), WindowMode::Tiled),
        None
    );
    assert!(!WindowMode::Tiled.uses_floating_restore());
}

#[test]
fn floating_without_compositor_size_uses_floating() {
    assert_eq!(
        resolve_logical_size(NONE, None, size(1280, 720), WindowMode::Floating),
        size(1280, 720)
    );
}

#[test]
fn unmaximize_uses_floating_not_stale_cur() {
    assert_eq!(
        resolve_logical_size(NONE, size(1920, 1080), size(800, 600), WindowMode::Floating),
        size(800, 600)
    );
}

#[test]
fn compositor_size_wins_for_every_mode() {
    for mode in [
        WindowMode::Floating,
        WindowMode::Tiled,
        WindowMode::Maximized,
        WindowMode::Fullscreen,
    ] {
        assert_eq!(
            resolve_logical_size(pending(2560, 1440), size(800, 600), size(1280, 720), mode),
            size(2560, 1440)
        );
    }
}

#[test]
fn last_completed_size_bridges_a_bare_configure() {
    assert_eq!(
        resolve_logical_size(
            NONE,
            size(2560, 1440),
            size(1280, 720),
            WindowMode::Maximized
        ),
        size(2560, 1440)
    );
}

struct Root {
    st: RootState,
    shared: RootShared,
    window: WindowState,
    effects: Vec<RootEffect>,
}

fn root() -> Root {
    let shared = RootShared::new();
    Root {
        st: RootState::new(&shared, true, true, true),
        shared,
        window: WindowState::new(),
        effects: Vec::new(),
    }
}

fn configure(w: u32, h: u32) -> WindowConfigure {
    WindowConfigure {
        w: Some(w),
        h: Some(h),
        fullscreen: false,
        maximized: false,
        tiled: false,
        suspended: false,
        decorations: EffectiveDecorations::ClientSide,
    }
}

impl Root {
    fn configure(&mut self, c: WindowConfigure) {
        self.st.configure(c, &mut self.shared.flags, &mut self.window, &mut self.effects);
    }

    fn scale(&mut self, wire: u32) {
        self.st.preferred_scale(
            wire,
            &mut self.shared.flags,
            &mut self.window,
            &mut self.effects,
        );
    }

    fn settle(&mut self) -> u32 {
        let mut probes = 0;
        let mut settle = Settle::new();
        loop {
            match settle.step(
                &mut self.st,
                &mut self.shared,
                &mut self.window,
                &mut self.effects,
            ) {
                SettleNext::More => {}
                SettleNext::SpawnProbe => probes += 1,
                SettleNext::Asleep => return probes,
            }
        }
    }

    fn commits(&self) -> usize {
        self.effects.iter().filter(|e| matches!(e, RootEffect::CommitRoot)).count()
    }
}

#[test]
fn a_configure_with_a_scale_is_presented_and_committed_once() {
    let mut r = root();
    r.scale(0);
    assert!(r.window.known_scale().is_none());
    r.scale(150);
    assert_eq!(r.settle(), 0);
    assert_eq!(r.commits(), 0);
    r.configure(configure(800, 600));
    assert!(r.st.presented && !r.st.pending_configure);
    assert_eq!(r.commits(), 0);
    assert_eq!(r.settle(), 0);
    assert_eq!(r.commits(), 1);
    assert!(matches!(r.effects[1], RootEffect::SetWindowGeometry { w: 800, h: 600 }));
    assert!(matches!(
        r.effects[2],
        RootEffect::FillBackground { w: 800, h: 600, build: true }
    ));
    assert_eq!(r.window.window_extent().unwrap().physical.w(), 1000);
}

#[test]
fn a_withheld_scale_is_probed_for_once() {
    let mut r = root();
    r.configure(configure(800, 600));
    assert_eq!(r.st.scale_discovery, ScaleDiscovery::Requested);
    assert_eq!(r.settle(), 1);
    assert_eq!(r.settle(), 0);
    assert_eq!(r.commits(), 0);
    r.shared.probe_finished(&mut r.window, Scale120::from_wire(180));
    assert!(r.shared.flags.wake);
    assert_eq!(r.settle(), 0);
    assert_eq!(r.commits(), 1);
    assert_eq!(r.window.known_scale().unwrap().raw(), 180);
    r.scale(150);
    r.shared.probe_finished(&mut r.window, None);
    assert_eq!(r.window.known_scale().unwrap().raw(), 150);

    let mut r = root();
    r.configure(configure(800, 600));
    r.st.probe_spawn_failed(&mut r.shared.flags, &mut r.window, &mut r.effects);
    assert!(r.st.presented);
    assert_eq!(r.window.known_scale().unwrap().raw(), 120);
}

#[test]
fn mode_and_notifications_follow_the_configure() {
    let mut r = root();
    r.scale(120);
    let mut c = configure(0, u32::MAX);
    c.maximized = true;
    c.tiled = true;
    c.suspended = true;
    c.decorations = EffectiveDecorations::ServerSide;
    r.configure(c);
    assert_eq!(r.st.mode, WindowMode::Maximized);
    assert_eq!((r.st.pending_w, r.st.pending_h), (None, None));
    assert!(!r.st.presented);
    assert!(matches!(r.effects[0], RootEffect::NotifySuspended(true)));
    assert!(matches!(
        r.effects[1],
        RootEffect::NotifyDecorations(EffectiveDecorations::ServerSide)
    ));
    assert_eq!(r.shared.effective_decorations(), EffectiveDecorations::ServerSide);
    c.fullscreen = true;
    r.configure(c);
    assert_eq!(r.st.mode, WindowMode::Fullscreen);
    assert_eq!(r.effects.len(), 2);
    c.fullscreen = false;
    c.maximized = false;
    r.configure(c);
    assert_eq!(r.st.mode, WindowMode::Tiled);
    assert_eq!(logical_extent(5), Some(5));
    assert_eq!(logical_extent(u32::MAX), None);
}

#[test]
fn fullscreen_remembers_the_maximized_window() {
    let mut r = root();
    r.st.mode = WindowMode::Maximized;
    r.shared.toggle_fullscreen();
    r.settle();
    assert!(matches!(r.effects[0], RootEffect::SetFullscreen));
    assert_eq!(r.shared.flags.pending_fs, FsRequest::Nothing);
    r.st.mode = WindowMode::Fullscreen;
    r.shared.set_fullscreen(true);
    r.settle();
    r.effects.clear();
    r.shared.toggle_fullscreen();
    r.settle();
    assert!(matches!(r.effects[0], RootEffect::UnsetFullscreen));
    assert!(matches!(r.effects[1], RootEffect::SetMaximized));
    r.effects.clear();
    r.shared.set_fullscreen(false);
    r.settle();
    assert!(matches!(r.effects[0], RootEffect::UnsetFullscreen));
    assert!(matches!(r.effects[1], RootEffect::Flush));
}

#[test]
fn window_commands_are_applied_in_order() {
    let mut r = root();
    let mut seat = SeatShared::new();
    seat.last_button_serial = 7;
    seat.last_input_serial = 99;
    r.shared.start_move(&seat);
    r.shared.start_resize(&seat, 3);
    seat.last_button_serial = 9;
    r.shared.start_resize(&seat, 10);
    r.shared.toggle_maximize();
    r.shared.toggle_maximize();
    r.shared.set_minimized();
    r.shared.set_titlebar_palette(String::from("p"));
    r.shared.sync_maximized_command_state(true);
    assert!(r.shared.flags.wake && r.shared.flags.maximized);
    r.settle();
    let kinds: Vec<&RootEffect> =
        r.effects.iter().filter(|e| !matches!(e, RootEffect::Flush)).collect();
    assert_eq!(kinds.len(), 6);
    assert!(matches!(kinds[0], RootEffect::Move { serial: 7 }));
    assert!(matches!(kinds[1], RootEffect::Resize { serial: 9, edge: 10 }));
    assert!(matches!(kinds[2], RootEffect::SetMaximized));
    assert!(matches!(kinds[3], RootEffect::UnsetMaximized));
    assert!(matches!(kinds[4], RootEffect::Minimize));
    assert!(matches!(kinds[5], RootEffect::SetTitlebarPalette(_)));
    assert!(r.shared.commands.is_empty());
    r.st.has_seat = false;
    r.effects.clear();
    r.shared.start_move(&seat);
    r.settle();
    assert!(r.effects.iter().all(|e| matches!(e, RootEffect::Flush)));
}

#[test]
fn a_new_background_is_committed_once_presented() {
    let mut r = root();
    r.shared.set_background_color(1, 2, 3);
    r.settle();
    assert_eq!(r.st.bg, Rgb { r: 1, g: 2, b: 3 });
    assert_eq!(r.commits(), 0);
    r.scale(120);
    r.configure(configure(10, 20));
    r.settle();
    r.st.background_built();
    r.effects.clear();
    r.shared.set_background_color(4, 5, 6);
    r.settle();
    assert!(matches!(r.effects[0], RootEffect::RebuildBackground { w: 10, h: 20 }));
    assert_eq!(r.commits(), 1);
    r.effects.clear();
    r.shared.request_present();
    r.settle();
    assert_eq!(r.commits(), 1);
}

fn popup(r: &mut Root, cmd: PopupCommand) {
    r.effects.clear();
    r.st.apply_command(WindowCommand::Popup(cmd), &mut r.effects);
}

#[test]
fn menus_are_created_once_and_repositioned_when_mapped() {
    let mut r = root();
    let g = Generation { id: 5 };
    popup(&mut r, PopupCommand::Create { generation: g, place: place(0), serial: 9 });
    assert!(matches!(r.effects[1], RootEffect::CreateMenu { grab: Some(9), .. }));
    r.st.menu_created(&mut r.shared.flags, g, place(0), 77);
    assert_eq!(r.shared.flags.menu_surface_id, 77);
    popup(&mut r, PopupCommand::Reposition { generation: g, place: place(4) });
    assert_eq!(r.effects.len(), 1);
    let paint = |g| MenuPaint {
        generation: g,
        pixels: vec![],
        pw: 1,
        ph: 1,
        lw: 1,
        lh: 1,
        view_ph: 1,
        scroll: 0,
    };
    popup(&mut r, PopupCommand::Paint(paint(Generation { id: 4 })));
    assert_eq!(r.effects.len(), 1);
    popup(&mut r, PopupCommand::Paint(paint(g)));
    assert!(matches!(r.effects[0], RootEffect::PaintMenu(_)));
    r.effects.clear();
    r.st.menu_painted(&mut r.effects);
    let RootEffect::RepositionMenu(p) = &r.effects[0] else {
        panic!("expected a reposition");
    };
    assert_eq!((p.anchor_x, p.w, p.h), (4, 10, 10));
    popup(&mut r, PopupCommand::Reposition { generation: g, place: place(4) });
    assert_eq!(r.effects.len(), 1);
    popup(&mut r, PopupCommand::Reposition { generation: g, place: place(6) });
    assert_eq!(r.effects.len(), 2);
    popup(&mut r, PopupCommand::Destroy { generation: Generation { id: 4 } });
    assert!(matches!(r.st.menu, MenuPopup::Mapped { .. }));
    popup(&mut r, PopupCommand::Destroy { generation: g });
    assert!(matches!(r.st.menu, MenuPopup::NoMenu));
    popup(&mut r, PopupCommand::Create { generation: g, place: place(0), serial: 9 });
    assert_eq!(r.effects.len(), 1);
}

#[test]
fn starting_commits_without_a_buffer() {
    let mut r = root();
    r.shared.set_decorations(Some(WindowDecorations::ServerThemed));
    assert_eq!(r.shared.flags.decoration_request, DecorationRequest::ServerSide);
    r.shared.set_boot_geometry(640, 0, true);
    assert_eq!((r.shared.flags.boot.w, r.shared.flags.boot.h), (1280, 720));
    r.shared.set_boot_geometry(640, 480, true);
    start_toplevel(&mut r.shared, &mut r.window, false, false, &mut r.effects);
    assert!(matches!(r.effects[0], RootEffect::SetMaximized));
    assert!(matches!(r.effects[1], RootEffect::NotifyDecorations(_)));
    assert!(matches!(r.effects[2], RootEffect::SetWindowGeometry { w: 640, h: 480 }));
    assert!(matches!(r.effects[3], RootEffect::CommitRoot));
    assert_eq!(r.window.known_scale().unwrap().raw(), 120);
}

#[test]
fn the_toplevel_is_started_once_there_is_a_display() {
    let mut started = false;
    assert!(!ensure_started(&mut started, false));
    assert!(ensure_started(&mut started, true));
    assert!(!ensure_started(&mut started, true));
    assert_eq!(bind_required(true, true, true), Ok(()));
    assert_eq!(bind_required(false, false, false), Err(RequiredGlobal::Compositor));
    assert_eq!(bind_required(true, false, false), Err(RequiredGlobal::Shm));
    assert_eq!(bind_required(true, true, false), Err(RequiredGlobal::WmBase));
    assert_eq!(RequiredGlobal::Compositor.interface(), "wl_compositor");
    assert_eq!(RequiredGlobal::Shm.interface(), "wl_shm");
    assert_eq!(RequiredGlobal::WmBase.interface(), "xdg_wm_base");
}
