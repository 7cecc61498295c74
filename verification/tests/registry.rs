use jellium_platform::x11::registry::split_capabilities;
use jellium_platform::x11::registry::GeometryCommand;
use jellium_platform::x11::registry::GeometryQueue;
use jellium_platform::x11::registry::SurfaceHandle;
use jellium_platform::x11::registry::SurfaceId;
use jellium_platform::x11::registry::SurfaceRecord;
use jellium_platform::x11::registry::SurfaceRegistry;
use slotmap::Key;
use slotmap::SlotMap;

#[test]
fn surface_id_handle_round_trips() {
    let mut sm = SurfaceRegistry::new();
    let id = sm.insert(SurfaceRecord { visible: true });
    let handle = id.to_handle();
    assert!(!handle.is_none());
    assert_eq!(SurfaceId::from_handle(handle), id);
}

#[test]
fn freed_handle_cannot_reach_successor() {
    let mut sm = SurfaceRegistry::new();
    let a = sm.insert(SurfaceRecord { visible: false });
    let a_handle = a.to_handle();
    sm.remove(a);
    let b = sm.insert(SurfaceRecord { visible: true });
    assert_ne!(a, b);
    let stale = SurfaceId::from_handle(a_handle);
    assert!(sm.get(stale).is_none());
    assert_eq!(sm.get(b), Some(SurfaceRecord { visible: true }));
}

#[test]
fn handles_carry_the_bits_of_the_arena() {
    let mut sm: SlotMap<slotmap::DefaultKey, u32> = SlotMap::new();
    let k = sm.insert(1);
    let bits = k.data().as_ffi();
    assert_eq!(SurfaceId::from_handle(SurfaceHandle { id: bits }).to_handle().id, bits);
    assert_eq!(SurfaceId::from_handle(SurfaceHandle { id: 5 }).to_handle().id, (1 << 32) | 5);
}

#[test]
fn visibility_is_kept_per_surface() {
    let mut sm = SurfaceRegistry::new();
    let a = sm.insert(SurfaceRecord { visible: false });
    let b = sm.insert(SurfaceRecord { visible: false });
    assert!(sm.set_visible(a, true));
    assert_eq!(sm.get(a), Some(SurfaceRecord { visible: true }));
    assert_eq!(sm.get(b), Some(SurfaceRecord { visible: false }));
    assert_eq!(sm.remove(a), Some(SurfaceRecord { visible: true }));
    assert!(!sm.set_visible(a, true));
    assert_eq!(sm.remove(a), None);
}

#[test]
fn commands_wait_for_the_thread() {
    let mut q = GeometryQueue::new();
    let id = SurfaceId::from_handle(SurfaceHandle { id: 9 });
    q.enqueue(GeometryCommand::Create { id });
    assert!(q.resync && q.commands.is_empty());
    q.install_command_channel();
    q.enqueue(GeometryCommand::Create { id });
    q.enqueue(GeometryCommand::Destroy { id });
    let cmds = q.drain_commands();
    assert_eq!(cmds.len(), 2);
    assert!(matches!(cmds[1], GeometryCommand::Destroy { .. }));
    assert!(q.drain_commands().is_empty());
    let (s, c) = split_capabilities(3, 4);
    assert_eq!((s.window, c.window, c.gc), (3, 3, 4));
}

#[test]
fn draining_hands_out_every_surface_once() {
    let mut sm = SurfaceRegistry::new();
    let a = sm.insert(SurfaceRecord { visible: false });
    let b = sm.insert(SurfaceRecord { visible: true });
    let c = sm.insert(SurfaceRecord { visible: true });
    sm.remove(b);
    let mut all = sm.drain();
    all.sort_by_key(|e| e.1.visible);
    assert_eq!(
        all,
        vec![(a, SurfaceRecord { visible: false }), (c, SurfaceRecord { visible: true })]
    );
    assert!(sm.get(a).is_none() && sm.get(c).is_none());
    assert!(sm.drain().is_empty());
    let d = sm.insert(SurfaceRecord { visible: false });
    assert!(d != a && d != b && d != c);
}
