//! Composition surfaces: which exist, in what order they are stacked, and
//! whether a frame is shown.

use vstd::prelude::*;

use crate::abi::FrameSize;

verus! {

/// Which of a surface's two visuals a call addresses.
#[derive(Clone, Copy, PartialEq, Eq, Structural, Debug)]
pub enum Part {
    /// The browser view, filling the window.
    Content,
    /// The dropdown, nested under the content visual.
    Popup,
}

/// One visual and whether a painter is bound to it.
#[derive(Clone, Copy, PartialEq, Eq, Structural, Debug)]
pub struct Layer {
    pub visible: bool,
    pub painter: bool,
}

impl Layer {
    pub open spec fn shown(self, visible: bool) -> Layer {
        Layer { visible, ..self }
    }

    /// Shows or hides the visual. Returns whether that changed anything; a hide
    /// then has to take the content off, so that showing the visual again cannot
    /// flash the frame it was hidden with.
    pub fn set_visible(&mut self, visible: bool) -> (changed: bool)
        ensures
            changed == (old(self).visible != visible),
            *final(self) == old(self).shown(visible),
    {
        let changed = self.visible != visible;
        self.visible = visible;
        changed
    }
}

/// A live surface. Ids start at 1 and are never reused, so a stale handle
/// resolves to nothing.
#[derive(Clone, Copy, PartialEq, Eq, Structural, Debug)]
pub struct Entry {
    pub id: u64,
    pub content: Layer,
    pub popup: Layer,
}

pub struct Registry {
    /// The composition devices exist.
    pub devices: bool,
    /// Live surfaces, bottom to top.
    pub surfaces: Vec<Entry>,
    pub next_id: u64,
}

pub open spec fn entry_at(surfaces: Seq<Entry>, id: u64) -> Option<int>
    decreases surfaces.len(),
{
    if surfaces.len() == 0 {
        None
    } else {
        match entry_at(surfaces.drop_last(), id) {
            Some(i) => Some(i),
            None => if surfaces.last().id == id {
                Some(surfaces.len() - 1)
            } else {
                None
            },
        }
    }
}

/// A surface is found where it first stands, and only where it stands.
pub proof fn entry_at_is_first(surfaces: Seq<Entry>, id: u64)
    ensures
        match entry_at(surfaces, id) {
            Some(i) => 0 <= i < surfaces.len() && surfaces[i].id == id && forall|j: int|
                0 <= j < i ==> (#[trigger] surfaces[j]).id != id,
            None => forall|j: int| 0 <= j < surfaces.len() ==> (#[trigger] surfaces[j]).id != id,
        },
    decreases surfaces.len(),
{
    if surfaces.len() > 0 {
        let front = surfaces.drop_last();
        entry_at_is_first(front, id);
        assert forall|j: int| 0 <= j < front.len() implies front[j] == #[trigger] surfaces[j] by {}
        assert(entry_at(front, id) is None ==> forall|j: int|
            0 <= j < front.len() ==> (#[trigger] surfaces[j]).id == front[j].id);
    }
}

/// The surfaces an order names, in that order, and those it does not.
pub open spec fn sorted_out(surfaces: Seq<Entry>, ordered: Seq<u64>) -> (Seq<Entry>, Seq<Entry>)
    decreases ordered.len(),
{
    if ordered.len() == 0 {
        (Seq::empty(), surfaces)
    } else {
        let (named, rest) = sorted_out(surfaces, ordered.drop_last());
        match entry_at(rest, ordered.last()) {
            Some(i) => (named.push(rest[i]), rest.remove(i)),
            None => (named, rest),
        }
    }
}

/// The stack after a reorder: the surfaces named, then the others as they were,
/// above them.
pub open spec fn restacked(surfaces: Seq<Entry>, ordered: Seq<u64>) -> Seq<Entry> {
    let (named, rest) = sorted_out(surfaces, ordered);
    named + rest
}

fn find(surfaces: &Vec<Entry>, id: u64) -> (r: Option<usize>)
    ensures
        match (r, entry_at(surfaces@, id)) {
            (Some(i), Some(j)) => i == j && i < surfaces@.len(),
            (None, None) => true,
            _ => false,
        },
{
    proof {
        entry_at_is_first(surfaces@, id);
    }
    let mut i: usize = 0;
    while i < surfaces.len()
        invariant
            i <= surfaces@.len(),
            forall|j: int| 0 <= j < i ==> (#[trigger] surfaces@[j]).id != id,
            match entry_at(surfaces@, id) {
                Some(f) => 0 <= f < surfaces@.len() && surfaces@[f].id == id && forall|j: int|
                    0 <= j < f ==> (#[trigger] surfaces@[j]).id != id,
                None => forall|j: int|
                    0 <= j < surfaces@.len() ==> (#[trigger] surfaces@[j]).id != id,
            },
        decreases surfaces@.len() - i,
    {
        if surfaces[i].id == id {
            return Some(i);
        }
        i += 1;
    }
    None
}

/// A frame to present.
#[derive(Clone, Copy, PartialEq, Eq, Structural, Debug)]
pub enum Frame {
    /// A shared texture; without a handle there is none.
    Accelerated { has_handle: bool, coded: FrameSize },
    Software { size: FrameSize, len: usize },
}

/// What is done with a frame.
#[derive(Clone, Copy, PartialEq, Eq, Structural, Debug)]
pub enum PresentPlan {
    /// Not shown.
    Refused,
    /// Hand it to the visual's painter; `build` one first, of this size.
    Paint { build: bool, size: FrameSize },
}

pub open spec fn frame_size(f: Frame) -> Option<FrameSize> {
    match f {
        Frame::Accelerated { has_handle, coded } => if has_handle {
            Some(coded)
        } else {
            None
        },
        Frame::Software { size, len } => if len == 0 || size.w <= 0 || size.h <= 0 {
            None
        } else {
            Some(size)
        },
    }
}

/// How painting went.
#[derive(Clone, Copy, PartialEq, Eq, Structural, Debug)]
pub enum Painted {
    /// No painter could be built.
    NoPainter,
    /// The frame went to the painter, which showed it or not, and did or did not
    /// configure its swapchain.
    Done { shown: bool, configured: bool },
    /// The painter is lost.
    Failed,
}

/// What one present did: whether the frame is on screen, and whether the
/// device has to commit, the visual's content having been bound or severed.
#[derive(Clone, Copy, PartialEq, Eq, Structural, Debug)]
pub struct PresentOutcome {
    pub presented: bool,
    pub needs_commit: bool,
}

impl Registry {
    /// Every id is below the next one, and no two are the same.
    pub open spec fn wf(&self) -> bool {
        &&& self.next_id >= 1
        &&& forall|i: int|
            0 <= i < self.surfaces@.len() ==> 1 <= (#[trigger] self.surfaces@[i]).id
                < self.next_id
        &&& forall|i: int, j: int|
            0 <= i < j < self.surfaces@.len() ==> (#[trigger] self.surfaces@[i]).id != (
            #[trigger] self.surfaces@[j]).id
    }

    pub fn new() -> (r: Registry)
        ensures
            r.wf(),
            !r.devices,
            r.surfaces@.len() == 0,
            r.next_id == 1,
    {
        Registry { devices: false, surfaces: Vec::new(), next_id: 1 }
    }

    /// The id was given out, and is no surface's any more.
    pub open spec fn spent(&self, id: u64) -> bool {
        id_spent(self.surfaces@, self.next_id, id)
    }

    /// Sets up the composition devices, `adapter` saying whether there is a GPU
    /// to draw with and `created` whether the devices could be made. Returns
    /// whether they exist; those that do already are kept.
    pub fn init(&mut self, adapter: bool, created: bool) -> (r: bool)
        requires
            old(self).wf(),
        ensures
            final(self).wf(),
            r == (adapter && (old(self).devices || created)),
            final(self).devices == (old(self).devices || r),
            final(self).surfaces@ == old(self).surfaces@,
            final(self).next_id == old(self).next_id,
    {
        if !adapter {
            return false;
        }
        if self.devices {
            return true;
        }
        self.devices = created;
        created
    }

    /// Allocates a surface on top, `created` saying whether its visuals could be
    /// made. Returns 0 where it could not be.
    pub fn alloc_surface(&mut self, created: bool) -> (id: u64)
        requires
            old(self).wf(),
            old(self).next_id < u64::MAX,
        ensures
            final(self).wf(),
            forall|id: u64| old(self).spent(id) ==> #[trigger] final(self).spent(id),
            final(self).devices == old(self).devices,
            old(self).devices && created ==> {
                &&& id == old(self).next_id
                &&& final(self).next_id == old(self).next_id + 1
                &&& final(self).surfaces@ == old(self).surfaces@.push(
                    Entry {
                        id,
                        content: Layer { visible: true, painter: false },
                        popup: Layer { visible: false, painter: false },
                    },
                )
            },
            !(old(self).devices && created) ==> {
                &&& id == 0
                &&& final(self).next_id == old(self).next_id
                &&& final(self).surfaces@ == old(self).surfaces@
            },
    {
        if !self.devices || !created {
            return 0;
        }
        let id: u64 = self.next_id;
        self.next_id = id + 1;
        let ghost before = self.surfaces@;
        self.surfaces.push(
            Entry {
                id,
                content: Layer { visible: true, painter: false },
                popup: Layer { visible: false, painter: false },
            },
        );
        assert(self.surfaces@.drop_last() =~= before);
        id
    }

    /// Drops a surface. Returns whether there was one.
    pub fn free_surface(&mut self, id: u64) -> (r: bool)
        requires
            old(self).wf(),
        ensures
            final(self).wf(),
            forall|id: u64| old(self).spent(id) ==> #[trigger] final(self).spent(id),
            final(self).devices == old(self).devices,
            final(self).next_id == old(self).next_id,
            r ==> final(self).spent(id),
            r == (entry_at(old(self).surfaces@, id) is Some),
            final(self).surfaces@ == match entry_at(old(self).surfaces@, id) {
                Some(i) => old(self).surfaces@.remove(i),
                None => old(self).surfaces@,
            },
    {
        match find(&self.surfaces, id) {
            Some(i) => {
                let ghost before = self.surfaces@;
                let _gone = self.surfaces.remove(i);
                proof {
                    removing_keeps_ids(before, i as int);
                    assert forall|x: u64| old(self).spent(x) implies #[trigger] self.spent(x) by {
                        removal_brings_no_id(before, i as int, x);
                    }
                    entry_at_is_first(before, id);
                    entry_at_is_first(self.surfaces@, id);
                }
                true
            },
            None => false,
        }
    }

    /// Reorders the stack, bottom to top. Live surfaces that are not named keep
    /// their relative order above those that are, so every live surface stays.
    pub fn restack(&mut self, ordered: &[u64])
        requires
            old(self).wf(),
        ensures
            final(self).wf(),
            forall|id: u64| old(self).spent(id) ==> #[trigger] final(self).spent(id),
            final(self).devices == old(self).devices,
            final(self).next_id == old(self).next_id,
            final(self).surfaces@ == (if old(self).devices {
                restacked(old(self).surfaces@, ordered@)
            } else {
                old(self).surfaces@
            }),
    {
        if !self.devices {
            return ;
        }
        let ghost before = self.surfaces@;
        let mut named: Vec<Entry> = Vec::new();
        let mut i: usize = 0;
        assert(ordered@.take(0) =~= Seq::empty());
        while i < ordered.len()
            invariant
                i <= ordered@.len(),
                self.devices == old(self).devices,
                self.next_id == old(self).next_id,
                (named@, self.surfaces@) == sorted_out(before, ordered@.take(i as int)),
            decreases ordered@.len() - i,
        {
            assert(ordered@.take(i + 1).drop_last() =~= ordered@.take(i as int));
            if let Some(j) = find(&self.surfaces, ordered[i]) {
                let e = self.surfaces.remove(j);
                named.push(e);
            }
            i += 1;
        }
        assert(ordered@.take(ordered@.len() as int) =~= ordered@);
        let ghost top = self.surfaces@;
        named.append(&mut self.surfaces);
        assert(named@ =~= restacked(before, ordered@));
        self.surfaces = named;
        proof {
            restack_keeps_every_surface(before, ordered@);
            same_surfaces_same_ids(before, self.surfaces@, self.next_id);
            assert forall|x: u64| old(self).spent(x) implies #[trigger] self.spent(x) by {
                restack_brings_no_id(before, ordered@, x);
            }
        }
    }

    /// Shows or hides one part of a surface. Returns whether the device has to
    /// commit.
    pub fn set_visible(&mut self, id: u64, part: Part, visible: bool) -> (commit: bool)
        requires
            old(self).wf(),
        ensures
            final(self).wf(),
            forall|id: u64| old(self).spent(id) ==> #[trigger] final(self).spent(id),
            final(self).devices == old(self).devices,
            final(self).next_id == old(self).next_id,
            match entry_at(old(self).surfaces@, id) {
                Some(i) => {
                    let e = old(self).surfaces@[i];
                    &&& commit == (layer_of(e, part).visible != visible)
                    &&& final(self).surfaces@ == old(self).surfaces@.update(
                        i,
                        with_layer(e, part, layer_of(e, part).shown(visible)),
                    )
                },
                None => !commit && final(self).surfaces@ == old(self).surfaces@,
            },
    {
        match find(&self.surfaces, id) {
            Some(i) => {
                proof {
                    entry_at_is_first(self.surfaces@, id);
                }
                let mut e = self.surfaces[i];
                let changed = match part {
                    Part::Content => e.content.set_visible(visible),
                    Part::Popup => e.popup.set_visible(visible),
                };
                self.surfaces[i] = e;
                assert forall|x: u64| old(self).spent(x) implies #[trigger] self.spent(x) by {
                    update_brings_no_id(old(self).surfaces@, i as int, e, x);
                }
                changed
            },
            None => false,
        }
    }

    /// Shows the popup of a surface, which has just been placed. Returns whether
    /// the device has to commit: wherever there is such a surface, for its place
    /// may be new.
    pub fn popup_show(&mut self, id: u64) -> (commit: bool)
        requires
            old(self).wf(),
        ensures
            final(self).wf(),
            forall|id: u64| old(self).spent(id) ==> #[trigger] final(self).spent(id),
            final(self).devices == old(self).devices,
            final(self).next_id == old(self).next_id,
            commit == (entry_at(old(self).surfaces@, id) is Some),
            final(self).surfaces@ == match entry_at(old(self).surfaces@, id) {
                Some(i) => {
                    let e = old(self).surfaces@[i];
                    old(self).surfaces@.update(i, Entry { popup: e.popup.shown(true), ..e })
                },
                None => old(self).surfaces@,
            },
    {
        let found = find(&self.surfaces, id).is_some();
        let _changed = self.set_visible(id, Part::Popup, true);
        found
    }

    /// Hides the popup of a surface. Returns whether the device has to commit.
    pub fn popup_hide(&mut self, id: u64) -> (commit: bool)
        requires
            old(self).wf(),
        ensures
            final(self).wf(),
            forall|id: u64| old(self).spent(id) ==> #[trigger] final(self).spent(id),
            final(self).devices == old(self).devices,
            final(self).next_id == old(self).next_id,
            match entry_at(old(self).surfaces@, id) {
                Some(i) => {
                    let e = old(self).surfaces@[i];
                    &&& commit == e.popup.visible
                    &&& final(self).surfaces@ == old(self).surfaces@.update(
                        i,
                        Entry { popup: e.popup.shown(false), ..e },
                    )
                },
                None => !commit && final(self).surfaces@ == old(self).surfaces@,
            },
    {
        self.set_visible(id, Part::Popup, false)
    }

    /// What is done with a frame for one part of a surface.
    pub fn plan_present(&self, id: u64, part: Part, frame: Frame) -> (r: PresentPlan)
        ensures
            r == (match (entry_at(self.surfaces@, id), frame_size(frame)) {
                (Some(i), Some(size)) => if self.devices && layer_of(
                    self.surfaces@[i],
                    part,
                ).visible {
                    PresentPlan::Paint { build: !layer_of(self.surfaces@[i], part).painter, size }
                } else {
                    PresentPlan::Refused
                },
                _ => PresentPlan::Refused,
            }),
    {
        if !self.devices {
            return PresentPlan::Refused;
        }
        let i: usize = match find(&self.surfaces, id) {
            Some(i) => i,
            None => return PresentPlan::Refused,
        };
        let size = match frame {
            Frame::Accelerated { has_handle, coded } => {
                if !has_handle {
                    return PresentPlan::Refused;
                }
                coded
            },
            Frame::Software { size, len } => {
                if len == 0 || size.w <= 0 || size.h <= 0 {
                    return PresentPlan::Refused;
                }
                size
            },
        };
        let layer = match part {
            Part::Content => self.surfaces[i].content,
            Part::Popup => self.surfaces[i].popup,
        };
        if !layer.visible {
            return PresentPlan::Refused;
        }
        PresentPlan::Paint { build: !layer.painter, size }
    }

    /// How painting a planned frame ended. A lost painter is dropped and the
    /// visual's content severed, so that the next frame builds a new one.
    pub fn conclude_present(&mut self, id: u64, part: Part, painted: Painted) -> (r: PresentOutcome)
        requires
            old(self).wf(),
        ensures
            final(self).wf(),
            forall|id: u64| old(self).spent(id) ==> #[trigger] final(self).spent(id),
            final(self).devices == old(self).devices,
            final(self).next_id == old(self).next_id,
            r == (match painted {
                Painted::NoPainter => PresentOutcome { presented: false, needs_commit: false },
                Painted::Done { shown, configured } => PresentOutcome {
                    presented: shown,
                    needs_commit: configured,
                },
                Painted::Failed => PresentOutcome { presented: false, needs_commit: true },
            }),
            final(self).surfaces@ == match (entry_at(old(self).surfaces@, id), painted) {
                (Some(i), Painted::Done { .. }) => old(self).surfaces@.update(
                    i,
                    with_layer(
                        old(self).surfaces@[i],
                        part,
                        Layer { painter: true, ..layer_of(old(self).surfaces@[i], part) },
                    ),
                ),
                (Some(i), Painted::Failed) => old(self).surfaces@.update(
                    i,
                    with_layer(
                        old(self).surfaces@[i],
                        part,
                        Layer { painter: false, ..layer_of(old(self).surfaces@[i], part) },
                    ),
                ),
                _ => old(self).surfaces@,
            },
    {
        let (outcome, painter) = match painted {
            Painted::NoPainter => return PresentOutcome {
                presented: false,
                needs_commit: false,
            },
            Painted::Done { shown, configured } => (
                PresentOutcome { presented: shown, needs_commit: configured },
                true,
            ),
            Painted::Failed => (PresentOutcome { presented: false, needs_commit: true }, false),
        };
        if let Some(i) = find(&self.surfaces, id) {
            proof {
                entry_at_is_first(self.surfaces@, id);
            }
            let mut e = self.surfaces[i];
            match part {
                Part::Content => e.content.painter = painter,
                Part::Popup => e.popup.painter = painter,
            }
            self.surfaces[i] = e;
            assert forall|x: u64| old(self).spent(x) implies #[trigger] self.spent(x) by {
                update_brings_no_id(old(self).surfaces@, i as int, e, x);
            }
        }
        outcome
    }

    /// Drops every surface and the devices; ids go on where they were.
    pub fn cleanup(&mut self)
        requires
            old(self).wf(),
        ensures
            final(self).wf(),
            forall|id: u64| old(self).spent(id) ==> #[trigger] final(self).spent(id),
            !final(self).devices,
            final(self).surfaces@.len() == 0,
            final(self).next_id == old(self).next_id,
    {
        self.surfaces.clear();
        self.devices = false;
    }
}

pub open spec fn layer_of(e: Entry, part: Part) -> Layer {
    match part {
        Part::Content => e.content,
        Part::Popup => e.popup,
    }
}

pub open spec fn with_layer(e: Entry, part: Part, l: Layer) -> Entry {
    match part {
        Part::Content => Entry { content: l, ..e },
        Part::Popup => Entry { popup: l, ..e },
    }
}

proof fn removing_keeps_ids(s: Seq<Entry>, i: int)
    requires
        0 <= i < s.len(),
    ensures
        forall|a: int|
            0 <= a < s.remove(i).len() ==> (#[trigger] s.remove(i)[a]) == s[if a < i {
                a
            } else {
                a + 1
            }],
{
}

/// A reorder keeps every surface: none is lost, none appears twice.
pub proof fn restack_keeps_every_surface(surfaces: Seq<Entry>, ordered: Seq<u64>)
    ensures
        restacked(surfaces, ordered).to_multiset() == surfaces.to_multiset(),
    decreases ordered.len(),
{
    broadcast use vstd::seq_lib::group_to_multiset_ensures;

    let (named, rest) = sorted_out(surfaces, ordered);
    if ordered.len() == 0 {
        assert(named + rest =~= surfaces);
    } else {
        let (n0, r0) = sorted_out(surfaces, ordered.drop_last());
        restack_keeps_every_surface(surfaces, ordered.drop_last());
        entry_at_is_first(r0, ordered.last());
        vstd::seq_lib::lemma_multiset_commutative(n0, r0);
        vstd::seq_lib::lemma_multiset_commutative(named, rest);
        match entry_at(r0, ordered.last()) {
            Some(i) => {
                assert(named =~= n0.push(r0[i]));
                assert(rest =~= r0.remove(i));
                assert(named.to_multiset() =~= n0.to_multiset().insert(r0[i]));
                assert(r0.to_multiset() =~= rest.to_multiset().insert(r0[i])) by {
                    assert(rest.push(r0[i]).to_multiset() =~= rest.to_multiset().insert(r0[i]));
                    assert(r0.subrange(0, i) + r0.subrange(i + 1, r0.len() as int) =~= rest);
                    let a = r0.subrange(0, i);
                    let b = r0.subrange(i + 1, r0.len() as int);
                    assert(r0 =~= a + (seq![r0[i]] + b));
                    vstd::seq_lib::lemma_multiset_commutative(a, seq![r0[i]] + b);
                    vstd::seq_lib::lemma_multiset_commutative(seq![r0[i]], b);
                    vstd::seq_lib::lemma_multiset_commutative(a, b);
                    assert(seq![r0[i]].to_multiset() =~= vstd::multiset::Multiset::singleton(
                        r0[i],
                    )) by {
                        assert(seq![r0[i]] =~= Seq::<Entry>::empty().push(r0[i]));
                    }
                }
                assert(named.to_multiset().add(rest.to_multiset()) =~= n0.to_multiset().add(
                    r0.to_multiset(),
                ));
            },
            None => {},
        }
    }
}

/// The same surfaces in another order are still known by distinct ids.
proof fn same_surfaces_same_ids(a: Seq<Entry>, b: Seq<Entry>, next_id: u64)
    requires
        a.to_multiset() == b.to_multiset(),
        forall|i: int| 0 <= i < a.len() ==> 1 <= (#[trigger] a[i]).id < next_id,
        forall|i: int, j: int|
            0 <= i < j < a.len() ==> (#[trigger] a[i]).id != (#[trigger] a[j]).id,
    ensures
        forall|i: int| 0 <= i < b.len() ==> 1 <= (#[trigger] b[i]).id < next_id,
        forall|i: int, j: int|
            0 <= i < j < b.len() ==> (#[trigger] b[i]).id != (#[trigger] b[j]).id,
{
    broadcast use vstd::seq_lib::group_to_multiset_ensures;

    assert forall|i: int| 0 <= i < b.len() implies 1 <= (#[trigger] b[i]).id < next_id by {
        assert(b.to_multiset().count(b[i]) > 0);
        assert(a.contains(b[i]));
    }
    assert forall|i: int, j: int| 0 <= i < j < b.len() implies (#[trigger] b[i]).id != (
    #[trigger] b[j]).id by {
        if b[i].id == b[j].id {
            assert(b.to_multiset().count(b[i]) > 0);
            assert(b.to_multiset().count(b[j]) > 0);
            assert(a.contains(b[i]) && a.contains(b[j]));
            let k = choose|k: int| 0 <= k < a.len() && a[k] == b[i];
            let l = choose|l: int| 0 <= l < a.len() && a[l] == b[j];
            if k < l {
                assert(a[k].id != a[l].id);
            } else if l < k {
                assert(a[l].id != a[k].id);
            }
            assert(b[i] == b[j]);
            assert(a.no_duplicates()) by {
                assert forall|x: int, y: int| 0 <= x < a.len() && 0 <= y < a.len() && x != y implies a[x]
                    != a[y] by {
                    if x < y {
                        assert(a[x].id != a[y].id);
                    } else {
                        assert(a[y].id != a[x].id);
                    }
                }
            }
            a.lemma_multiset_has_no_duplicates();
            assert(a.to_multiset().count(b[i]) == 1);
            twice_counted(b, i, j);
        }
    }
}

proof fn twice_counted(b: Seq<Entry>, i: int, j: int)
    requires
        0 <= i < j < b.len(),
        b[i] == b[j],
    ensures
        b.to_multiset().count(b[i]) >= 2,
{
    broadcast use vstd::seq_lib::group_to_multiset_ensures;

    let front = b.subrange(0, j);
    let back = b.subrange(j, b.len() as int);
    assert(b =~= front + back);
    vstd::seq_lib::lemma_multiset_commutative(front, back);
    assert(front[i] == b[i]);
    assert(back[0] == b[j]);
    assert(front.contains(b[i]));
    assert(back.contains(b[i]));
}

/// An id that was given out and is no surface's any more.
pub open spec fn id_spent(surfaces: Seq<Entry>, next_id: u64, id: u64) -> bool {
    id < next_id && entry_at(surfaces, id) is None
}

/// What happens to the surfaces.
pub ghost enum Change {
    /// A surface is allocated, with the next id.
    Allocated(Layer, Layer),
    Freed(u64),
    Restacked(Seq<u64>),
    /// A surface is shown, hidden or painted.
    Relayered(u64, Part, Layer),
    Cleared,
}

/// The surfaces and the next id after a change.
pub open spec fn changed(surfaces: Seq<Entry>, next_id: u64, c: Change) -> (Seq<Entry>, u64) {
    match c {
        Change::Allocated(content, popup) => if next_id < u64::MAX {
            (surfaces.push(Entry { id: next_id, content, popup }), (next_id + 1) as u64)
        } else {
            (surfaces, next_id)
        },
        Change::Freed(id) => match entry_at(surfaces, id) {
            Some(i) => (surfaces.remove(i), next_id),
            None => (surfaces, next_id),
        },
        Change::Restacked(ordered) => (restacked(surfaces, ordered), next_id),
        Change::Relayered(id, part, layer) => match entry_at(surfaces, id) {
            Some(i) => (surfaces.update(i, with_layer(surfaces[i], part, layer)), next_id),
            None => (surfaces, next_id),
        },
        Change::Cleared => (Seq::empty(), next_id),
    }
}

/// The surfaces and the next id after a run of changes.
pub open spec fn changed_run(surfaces: Seq<Entry>, next_id: u64, changes: Seq<Change>) -> (
    Seq<Entry>,
    u64,
)
    decreases changes.len(),
{
    if changes.len() == 0 {
        (surfaces, next_id)
    } else {
        let (s, n) = changed_run(surfaces, next_id, changes.drop_last());
        changed(s, n, changes.last())
    }
}

/// Surfaces none of which has an id it did not have before stay without it.
proof fn no_new_id(a: Seq<Entry>, b: Seq<Entry>, id: u64)
    requires
        entry_at(a, id) is None,
        forall|j: int| 0 <= j < b.len() && (#[trigger] b[j]).id == id ==> exists|i: int|
            0 <= i < a.len() && (#[trigger] a[i]).id == id,
    ensures
        entry_at(b, id) is None,
{
    entry_at_is_first(a, id);
    entry_at_is_first(b, id);
}

proof fn restack_brings_no_id(surfaces: Seq<Entry>, ordered: Seq<u64>, id: u64)
    requires
        entry_at(surfaces, id) is None,
    ensures
        entry_at(restacked(surfaces, ordered), id) is None,
{
    broadcast use vstd::seq_lib::group_to_multiset_ensures;

    let after = restacked(surfaces, ordered);
    restack_keeps_every_surface(surfaces, ordered);
    assert forall|j: int| 0 <= j < after.len() && (#[trigger] after[j]).id == id implies exists|
        i: int,
    |
        0 <= i < surfaces.len() && (#[trigger] surfaces[i]).id == id by {
        assert(after.to_multiset().count(after[j]) > 0);
        assert(surfaces.contains(after[j]));
        let i = choose|i: int| 0 <= i < surfaces.len() && surfaces[i] == after[j];
        assert(surfaces[i].id == id);
    }
    no_new_id(surfaces, after, id);
}

proof fn removal_brings_no_id(surfaces: Seq<Entry>, at: int, id: u64)
    requires
        0 <= at < surfaces.len(),
        entry_at(surfaces, id) is None,
    ensures
        entry_at(surfaces.remove(at), id) is None,
{
    let after = surfaces.remove(at);
    removing_keeps_ids(surfaces, at);
    assert forall|j: int| 0 <= j < after.len() && (#[trigger] after[j]).id == id implies exists|
        i: int,
    |
        0 <= i < surfaces.len() && (#[trigger] surfaces[i]).id == id by {
        let i = if j < at {
            j
        } else {
            j + 1
        };
        assert(surfaces[i].id == id);
    }
    no_new_id(surfaces, after, id);
}

proof fn update_brings_no_id(surfaces: Seq<Entry>, at: int, e: Entry, id: u64)
    requires
        0 <= at < surfaces.len(),
        e.id == surfaces[at].id,
        entry_at(surfaces, id) is None,
    ensures
        entry_at(surfaces.update(at, e), id) is None,
{
    let after = surfaces.update(at, e);
    assert forall|j: int| 0 <= j < after.len() && (#[trigger] after[j]).id == id implies exists|
        i: int,
    |
        0 <= i < surfaces.len() && (#[trigger] surfaces[i]).id == id by {
        assert(surfaces[j].id == id);
    }
    no_new_id(surfaces, after, id);
}

/// A surface that was freed is never found again, whatever happens after and
/// whichever other surfaces live on: its id is spent for good.
pub proof fn freed_id_is_never_found_again(
    surfaces: Seq<Entry>,
    next_id: u64,
    freed: u64,
    changes: Seq<Change>,
)
    requires
        id_spent(surfaces, next_id, freed),
    ensures
        ({
            let (after, next) = changed_run(surfaces, next_id, changes);
            id_spent(after, next, freed)
        }),
    decreases changes.len(),
{
    if changes.len() > 0 {
        freed_id_is_never_found_again(surfaces, next_id, freed, changes.drop_last());
        let (s, n) = changed_run(surfaces, next_id, changes.drop_last());
        match changes.last() {
            Change::Allocated(content, popup) => {
                if n < u64::MAX {
                    let e = Entry { id: n, content, popup };
                    assert(s.push(e).drop_last() =~= s);
                }
            },
            Change::Freed(id) => {
                entry_at_is_first(s, id);
                if let Some(i) = entry_at(s, id) {
                    removal_brings_no_id(s, i, freed);
                }
            },
            Change::Restacked(ordered) => {
                restack_brings_no_id(s, ordered, freed);
            },
            Change::Relayered(id, part, layer) => {
                entry_at_is_first(s, id);
                if let Some(i) = entry_at(s, id) {
                    update_brings_no_id(s, i, with_layer(s[i], part, layer), freed);
                }
            },
            Change::Cleared => {},
        }
    }
}

} // verus!
