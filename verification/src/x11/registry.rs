//! Owned surface arena, capability newtypes, and the geometry-command queue.
//!
//! Each overlay's window is created once and immediately split into two
//! capability handles that never travel together again: [`StructureSurface`]
//! (place, size, map, restack, destroy; held by the geometry thread) and
//! [`ContentSurface`] (pixel upload only; moved to the surface's painter).

use slotmap::DefaultKey;
use slotmap::Key;
use slotmap::KeyData;
use slotmap::SlotMap;
use vstd::prelude::*;

verus! {

/// A surface as the browser holds it; 0 is none.
#[derive(Clone, Copy, PartialEq, Eq, Structural, Debug)]
pub struct SurfaceHandle {
    pub id: u64,
}

impl SurfaceHandle {
    pub fn from_id(id: u64) -> (h: SurfaceHandle)
        ensures
            h.id == id,
    {
        SurfaceHandle { id }
    }

    pub fn is_none(self) -> (r: bool)
        ensures
            r == (self.id == 0),
    {
        self.id == 0
    }
}

/// The key these bits stand for, as bits again: its version, the upper half, is
/// odd.
pub open spec fn key_bits(value: u64) -> u64 {
    if (value / 0x1_0000_0000) % 2 == 1 {
        value
    } else {
        (value + 0x1_0000_0000) as u64
    }
}

/// `KeyData::from_ffi` and `KeyData::as_ffi` in a row: the lower half is kept,
/// the lowest bit of the upper half is set.
#[verifier::external_body]
fn key_from_bits(value: u64) -> (r: u64)
    ensures
        r == key_bits(value),
{
    KeyData::from_ffi(value).as_ffi()
}

/// Generational id of one overlay surface. Packs into a [`SurfaceHandle`] and
/// survives round trips through the browser.
#[derive(Clone, Copy, PartialEq, Eq, Structural, Debug)]
pub struct SurfaceId {
    bits: u64,
}

impl SurfaceId {
    #[verifier::type_invariant]
    spec fn inv(self) -> bool {
        key_bits(self.bits) == self.bits
    }

    pub closed spec fn bits(self) -> u64 {
        self.bits
    }

    pub fn to_handle(self) -> (h: SurfaceHandle)
        ensures
            h.id == self.bits(),
            h.id != 0,
            key_bits(h.id) == h.id,
    {
        proof {
            use_type_invariant(self);
        }
        SurfaceHandle::from_id(self.bits)
    }

    pub fn from_handle(h: SurfaceHandle) -> (id: SurfaceId)
        ensures
            id.bits() == key_bits(h.id),
    {
        SurfaceId { bits: key_from_bits(h.id) }
    }

    pub fn same(self, other: SurfaceId) -> (r: bool)
        ensures
            r == (self == other),
            r == (self.bits() == other.bits()),
    {
        self.bits == other.bits
    }
}

/// Ids are their bits.
pub proof fn surface_id_ext(a: SurfaceId, b: SurfaceId)
    ensures
        a.bits() == b.bits() <==> a == b,
{
}

/// Structure capability over one overlay window, held by the geometry thread.
#[derive(Clone, Copy, PartialEq, Eq, Structural, Debug)]
pub struct StructureSurface {
    pub window: u32,
}

/// Content capability over one overlay window: the window and its graphics
/// context, usable for pixel upload only.
#[derive(Clone, Copy, PartialEq, Eq, Structural, Debug)]
pub struct ContentSurface {
    pub window: u32,
    pub gc: u32,
}

/// Both capability handles of a freshly created window. This is the single
/// split point; no caller keeps the raw pair.
pub fn split_capabilities(window: u32, gc: u32) -> (r: (StructureSurface, ContentSurface))
    ensures
        r.0.window == window,
        r.1.window == window,
        r.1.gc == gc,
{
    (StructureSurface { window }, ContentSurface { window, gc })
}

/// Per-surface shared record: the desired visibility. Structure state lives on
/// the geometry thread.
#[derive(Clone, Copy, PartialEq, Eq, Structural, Debug)]
pub struct SurfaceRecord {
    pub visible: bool,
}

/// The surfaces, in a `slotmap::SlotMap`: an arena that hands out generational
/// keys. Keys go in and out as the bits of `KeyData::as_ffi`.
#[verifier::external_body]
pub struct SurfaceArena {
    slots: SlotMap<DefaultKey, SurfaceRecord>,
}

/// What an arena holds, by the bits of its keys.
pub uninterp spec fn arena_contents(arena: SurfaceArena) -> Map<u64, SurfaceRecord>;

/// The keys an arena has handed out since it was made.
pub uninterp spec fn arena_issued(arena: SurfaceArena) -> Set<u64>;

/// How often a slot can be used before its versions start over.
pub const SLOT_USES: u64 = 0x8000_0000;

/// `SlotMap::new`: nothing is held, no key was handed out.
#[verifier::external_body]
fn arena_new() -> (arena: SurfaceArena)
    ensures
        arena_contents(arena).dom() == Set::<u64>::empty(),
        arena_issued(arena) == Set::<u64>::empty(),
{
    SurfaceArena { slots: SlotMap::new() }
}

/// `SlotMap::insert`: the record is held under a key that is not in use. Each
/// use of a slot has the next odd version, so the key is one never handed out
/// before, as long as there were too few insertions for the versions of a slot
/// to start over. It panics only when the arena is full.
#[verifier::external_body]
fn arena_insert(arena: &mut SurfaceArena, record: SurfaceRecord) -> (key: u64)
    requires
        arena_contents(*old(arena)).len() < u32::MAX - 1,
        arena_contents(*old(arena)).dom().finite(),
    ensures
        key_bits(key) == key,
        !arena_contents(*old(arena)).contains_key(key),
        arena_issued(*old(arena)).finite() && arena_issued(*old(arena)).len() < SLOT_USES
            ==> !arena_issued(*old(arena)).contains(key),
        arena_contents(*final(arena)) == arena_contents(*old(arena)).insert(key, record),
        arena_issued(*final(arena)) == arena_issued(*old(arena)).insert(key),
{
    arena.slots.insert(record).data().as_ffi()
}

/// `SlotMap::get`: the record held under a key.
#[verifier::external_body]
fn arena_get(arena: &SurfaceArena, key: u64) -> (r: Option<SurfaceRecord>)
    requires
        key_bits(key) == key,
    ensures
        match r {
            Some(record) => arena_contents(*arena).contains_key(key) && record == arena_contents(
                *arena,
            )[key],
            None => !arena_contents(*arena).contains_key(key),
        },
{
    match arena.slots.get(DefaultKey::from(KeyData::from_ffi(key))) {
        Some(record) => Some(*record),
        None => None,
    }
}

/// `SlotMap::get_mut`: replaces the record held under a key, where there is one.
#[verifier::external_body]
fn arena_put(arena: &mut SurfaceArena, key: u64, record: SurfaceRecord) -> (found: bool)
    requires
        key_bits(key) == key,
    ensures
        found == arena_contents(*old(arena)).contains_key(key),
        arena_contents(*final(arena)) == (if found {
            arena_contents(*old(arena)).insert(key, record)
        } else {
            arena_contents(*old(arena))
        }),
        arena_issued(*final(arena)) == arena_issued(*old(arena)),
{
    match arena.slots.get_mut(DefaultKey::from(KeyData::from_ffi(key))) {
        Some(slot) => {
            *slot = record;
            true
        }
        None => false,
    }
}

/// `SlotMap::remove`: the record held under a key is taken out.
#[verifier::external_body]
fn arena_remove(arena: &mut SurfaceArena, key: u64) -> (r: Option<SurfaceRecord>)
    requires
        key_bits(key) == key,
    ensures
        match r {
            Some(record) => arena_contents(*old(arena)).contains_key(key) && record
                == arena_contents(*old(arena))[key],
            None => !arena_contents(*old(arena)).contains_key(key),
        },
        arena_contents(*final(arena)) == arena_contents(*old(arena)).remove(key),
        arena_issued(*final(arena)) == arena_issued(*old(arena)),
{
    arena.slots.remove(DefaultKey::from(KeyData::from_ffi(key)))
}

/// `r` lists what a map holds, each entry once.
pub open spec fn lists(r: Seq<(u64, SurfaceRecord)>, m: Map<u64, SurfaceRecord>) -> bool {
    &&& forall|i: int|
        0 <= i < r.len() ==> m.contains_key((#[trigger] r[i]).0) && m[r[i].0] == r[i].1
    &&& forall|i: int, j: int|
        0 <= i < j < r.len() ==> (#[trigger] r[i]).0 != (#[trigger] r[j]).0
    &&& forall|key: u64|
        m.contains_key(key) ==> exists|i: int| 0 <= i < r.len() && (#[trigger] r[i]).0 == key
}

/// `SlotMap::drain`, run to its end: everything held is taken out, each entry
/// once.
#[verifier::external_body]
fn arena_drain(arena: &mut SurfaceArena) -> (r: Vec<(u64, SurfaceRecord)>)
    ensures
        lists(r@, arena_contents(*old(arena))),
        forall|i: int| 0 <= i < r@.len() ==> key_bits((#[trigger] r@[i]).0) == r@[i].0,
        arena_contents(*final(arena)).dom() == Set::<u64>::empty(),
        arena_issued(*final(arena)) == arena_issued(*old(arena)),
{
    arena.slots.drain().map(|(key, record)| (key.data().as_ffi(), record)).collect()
}

/// The live surfaces.
pub struct SurfaceRegistry {
    arena: SurfaceArena,
}

impl SurfaceRegistry {
    /// The records, by id.
    pub closed spec fn view(&self) -> Map<u64, SurfaceRecord> {
        arena_contents(self.arena)
    }

    /// Every id a surface was ever added under.
    pub closed spec fn issued(&self) -> Set<u64> {
        arena_issued(self.arena)
    }

    /// Every live surface has an id that was handed out.
    pub open spec fn wf(&self) -> bool {
        &&& self.issued().finite()
        &&& self@.dom().finite()
        &&& self@.dom().subset_of(self.issued())
    }

    pub fn new() -> (r: SurfaceRegistry)
        ensures
            r.wf(),
            r@ == Map::<u64, SurfaceRecord>::empty(),
            r.issued() == Set::<u64>::empty(),
    {
        let r = SurfaceRegistry { arena: arena_new() };
        assert(r@ =~= Map::<u64, SurfaceRecord>::empty());
        r
    }

    /// Adds a surface under a fresh id: no live surface has it, and within the
    /// first [`SLOT_USES`] insertions none ever had.
    pub fn insert(&mut self, record: SurfaceRecord) -> (id: SurfaceId)
        requires
            old(self).wf(),
            old(self)@.len() < u32::MAX - 1,
        ensures
            final(self).wf(),
            !old(self)@.contains_key(id.bits()),
            old(self).issued().len() < SLOT_USES ==> !old(self).issued().contains(id.bits()),
            final(self)@ == old(self)@.insert(id.bits(), record),
            final(self).issued() == old(self).issued().insert(id.bits()),
    {
        SurfaceId { bits: arena_insert(&mut self.arena, record) }
    }

    pub fn get(&self, id: SurfaceId) -> (r: Option<SurfaceRecord>)
        ensures
            r == (if self@.contains_key(id.bits()) {
                Some(self@[id.bits()])
            } else {
                None
            }),
    {
        proof {
            use_type_invariant(id);
        }
        arena_get(&self.arena, id.bits)
    }

    /// Updates the desired visibility; nothing happens for an id that is gone.
    pub fn set_visible(&mut self, id: SurfaceId, visible: bool) -> (found: bool)
        ensures
            old(self).wf() ==> final(self).wf(),
            found == old(self)@.contains_key(id.bits()),
            final(self)@ == (if found {
                old(self)@.insert(id.bits(), SurfaceRecord { visible })
            } else {
                old(self)@
            }),
            final(self).issued() == old(self).issued(),
    {
        proof {
            use_type_invariant(id);
        }
        arena_put(&mut self.arena, id.bits, SurfaceRecord { visible })
    }

    /// Removes a surface, invalidating its id.
    pub fn remove(&mut self, id: SurfaceId) -> (r: Option<SurfaceRecord>)
        ensures
            old(self).wf() ==> final(self).wf(),
            r == (if old(self)@.contains_key(id.bits()) {
                Some(old(self)@[id.bits()])
            } else {
                None
            }),
            final(self)@ == old(self)@.remove(id.bits()),
            final(self).issued() == old(self).issued(),
    {
        proof {
            use_type_invariant(id);
        }
        arena_remove(&mut self.arena, id.bits)
    }

    /// Removes all surfaces. Returns each with its id.
    pub fn drain(&mut self) -> (r: Vec<(SurfaceId, SurfaceRecord)>)
        requires
            old(self).wf(),
        ensures
            final(self).wf(),
            lists(
                Seq::new(r@.len(), |i: int| (r@[i].0.bits(), r@[i].1)),
                old(self)@,
            ),
            final(self)@ == Map::<u64, SurfaceRecord>::empty(),
            final(self).issued() == old(self).issued(),
    {
        let taken = arena_drain(&mut self.arena);
        assert(self@ =~= Map::<u64, SurfaceRecord>::empty());
        let mut r: Vec<(SurfaceId, SurfaceRecord)> = Vec::new();
        let mut i: usize = 0;
        while i < taken.len()
            invariant
                i <= taken@.len(),
                r@.len() == i,
                forall|j: int|
                    0 <= j < taken@.len() ==> key_bits((#[trigger] taken@[j]).0) == taken@[j].0,
                forall|j: int|
                    0 <= j < i ==> (#[trigger] r@[j]).0.bits() == taken@[j].0 && r@[j].1
                        == taken@[j].1,
            decreases taken@.len() - i,
        {
            r.push((SurfaceId { bits: taken[i].0 }, taken[i].1));
            i += 1;
        }
        assert(Seq::new(r@.len(), |i: int| (r@[i].0.bits(), r@[i].1)) =~= taken@);
        r
    }
}

/// A handle that left as an id comes back as that id.
pub proof fn handle_round_trips(id: SurfaceId, h: SurfaceHandle, back: SurfaceId)
    requires
        h.id == id.bits(),
        key_bits(h.id) == h.id,
        back.bits() == key_bits(h.id),
    ensures
        back == id,
{
    surface_id_ext(back, id);
}

/// The handle of a freed surface never reaches a successor: whatever surfaces
/// are added after it, under ids that were not handed out before, it resolves to
/// nothing.
pub proof fn freed_id_reaches_no_successor(
    surfaces: Map<u64, SurfaceRecord>,
    issued: Set<u64>,
    freed: SurfaceId,
    added: Seq<(u64, SurfaceRecord)>,
)
    requires
        issued.contains(freed.bits()),
        forall|i: int| 0 <= i < added.len() ==> !issued.contains((#[trigger] added[i]).0),
    ensures
        !added.fold_left(
            surfaces.remove(freed.bits()),
            |m: Map<u64, SurfaceRecord>, e: (u64, SurfaceRecord)| m.insert(e.0, e.1),
        ).contains_key(freed.bits()),
    decreases added.len(),
{
    if added.len() > 0 {
        let front = added.drop_last();
        assert forall|i: int| 0 <= i < front.len() implies !issued.contains(
            (#[trigger] front[i]).0,
        ) by {
            assert(front[i] == added[i]);
        }
        freed_id_reaches_no_successor(surfaces, issued, freed, front);
        assert(!issued.contains(added[added.len() - 1].0));
    }
}

/// Freeing a surface takes no other surface's record.
pub proof fn other_surfaces_keep_their_records(
    surfaces: Map<u64, SurfaceRecord>,
    gone: SurfaceId,
    other: SurfaceId,
)
    requires
        gone != other,
    ensures
        surfaces.remove(gone.bits()).contains_key(other.bits()) == surfaces.contains_key(
            other.bits(),
        ),
        surfaces.contains_key(other.bits()) ==> surfaces.remove(gone.bits())[other.bits()]
            == surfaces[other.bits()],
{
    surface_id_ext(gone, other);
}

/// Commands the geometry thread executes as the sole structure writer.
pub enum GeometryCommand {
    /// Create the window for a reserved id.
    Create { id: SurfaceId },
    /// Destroy the window of a freed id.
    Destroy { id: SurfaceId },
    /// Update the desired visibility of a surface.
    SetVisible { id: SurfaceId, visible: bool },
    /// Replace the bottom-to-top overlay z-order.
    SetOrder { ids: Vec<SurfaceId> },
}

/// The queue to the geometry thread.
pub struct GeometryQueue {
    /// The thread has started, so somebody drains the queue.
    pub installed: bool,
    pub commands: Vec<GeometryCommand>,
    /// The thread has to be woken.
    pub resync: bool,
}

impl GeometryQueue {
    pub fn new() -> (q: GeometryQueue)
        ensures
            !q.installed,
            q.commands@.len() == 0,
            !q.resync,
    {
        GeometryQueue { installed: false, commands: Vec::new(), resync: false }
    }

    /// Called once as the geometry thread starts; a second call changes nothing.
    pub fn install_command_channel(&mut self)
        ensures
            final(self).installed,
            final(self).commands@ == old(self).commands@,
            final(self).resync == old(self).resync,
    {
        self.installed = true;
    }

    /// Enqueue a command and wake the geometry thread. Dropped silently while
    /// nobody drains the queue.
    pub fn enqueue(&mut self, cmd: GeometryCommand)
        ensures
            final(self).installed == old(self).installed,
            final(self).commands@ == (if old(self).installed {
                old(self).commands@.push(cmd)
            } else {
                old(self).commands@
            }),
            final(self).resync,
    {
        if self.installed {
            self.commands.push(cmd);
        }
        request_resync(self);
    }

    /// Takes all pending commands, in order.
    pub fn drain_commands(&mut self) -> (r: Vec<GeometryCommand>)
        ensures
            r@ == old(self).commands@,
            final(self).commands@.len() == 0,
            final(self).installed == old(self).installed,
            final(self).resync == old(self).resync,
    {
        let r = self.commands.split_off(0);
        assert(r@ =~= old(self).commands@);
        r
    }
}

/// Wakes the geometry thread for a reconcile.
pub fn request_resync(queue: &mut GeometryQueue)
    ensures
        final(queue).resync,
        final(queue).installed == old(queue).installed,
        final(queue).commands@ == old(queue).commands@,
{
    queue.resync = true;
}

} // verus!
