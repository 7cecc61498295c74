//! Reading the clipboard over a focus-independent data-control connection:
//! which offer is current, which of its types is asked for, and in what order
//! waiting readers are answered.

use std::collections::HashMap;
use vstd::prelude::*;
use vstd::std_specs::iter::IteratorSpec;
use vstd::utf8::encode_utf8;
use vstd::utf8::valid_utf8;

use crate::text::same_text;
use crate::text::utf8_text;

verus! {

/// The text types an offer has.
#[derive(Clone, Copy, PartialEq, Eq, Structural, Debug)]
pub struct OfferMimes {
    pub text_plain_utf8: bool,
    pub text_plain: bool,
    pub utf8_string: bool,
    pub string: bool,
    pub text: bool,
}

impl Default for OfferMimes {
    fn default() -> (m: Self)
        ensures
            m == OfferMimes::nothing(),
    {
        OfferMimes {
            text_plain_utf8: false,
            text_plain: false,
            utf8_string: false,
            string: false,
            text: false,
        }
    }
}

impl OfferMimes {
    pub open spec fn nothing() -> OfferMimes {
        OfferMimes {
            text_plain_utf8: false,
            text_plain: false,
            utf8_string: false,
            string: false,
            text: false,
        }
    }

    /// The preferred type.
    pub open spec fn preferred(self) -> Option<Seq<char>> {
        if self.text_plain_utf8 {
            Some("text/plain;charset=utf-8"@)
        } else if self.text_plain {
            Some("text/plain"@)
        } else if self.utf8_string {
            Some("UTF8_STRING"@)
        } else if self.string {
            Some("STRING"@)
        } else if self.text {
            Some("TEXT"@)
        } else {
            None
        }
    }

    pub fn best(&self) -> (r: Option<&'static str>)
        ensures
            match r {
                Some(s) => self.preferred() == Some(s@),
                None => self.preferred() is None,
            },
    {
        if self.text_plain_utf8 {
            Some("text/plain;charset=utf-8")
        } else if self.text_plain {
            Some("text/plain")
        } else if self.utf8_string {
            Some("UTF8_STRING")
        } else if self.string {
            Some("STRING")
        } else if self.text {
            Some("TEXT")
        } else {
            None
        }
    }

    pub open spec fn observed(self, mime: Seq<char>) -> OfferMimes {
        OfferMimes {
            text_plain_utf8: self.text_plain_utf8 || mime == "text/plain;charset=utf-8"@,
            text_plain: self.text_plain || mime == "text/plain"@,
            utf8_string: self.utf8_string || mime == "UTF8_STRING"@,
            string: self.string || mime == "STRING"@,
            text: self.text || mime == "TEXT"@,
        }
    }

    /// Notes a type; one that is no text type changes nothing.
    pub fn observe(&mut self, mime: &str)
        ensures
            *final(self) == old(self).observed(mime@),
    {
        if same_text(mime, "text/plain;charset=utf-8") {
            self.text_plain_utf8 = true;
        }
        if same_text(mime, "text/plain") {
            self.text_plain = true;
        }
        if same_text(mime, "UTF8_STRING") {
            self.utf8_string = true;
        }
        if same_text(mime, "STRING") {
            self.string = true;
        }
        if same_text(mime, "TEXT") {
            self.text = true;
        }
    }
}

/// An offer, by its protocol id, and the types seen of it so far.
#[derive(Clone, Copy, PartialEq, Eq, Structural, Debug)]
pub struct Offer {
    pub id: u32,
    pub mimes: OfferMimes,
}

/// The offers a device has announced. Unclaimed offers have to be destroyed on
/// the wire, or the compositor keeps them.
pub struct Offers {
    /// Announced, and not yet claimed by a selection: the types seen of each, by
    /// its id.
    pub pending: HashMap<u32, OfferMimes>,
    pub current: Option<Offer>,
    /// The device the offers come from is there.
    pub device: bool,
}

/// The pending offers but the claimed one.
pub open spec fn unclaimed(pending: Map<u32, OfferMimes>, claimed: Option<u32>) -> Set<u32> {
    match claimed {
        Some(id) => pending.dom().remove(id),
        None => pending.dom(),
    }
}

/// The list names exactly these offers, each once, in whatever order.
pub open spec fn lists(ids: Seq<u32>, set: Set<u32>) -> bool {
    &&& ids.no_duplicates()
    &&& ids.to_set() == set
}

pub open spec fn current_id(current: Option<Offer>) -> Seq<u32> {
    match current {
        Some(o) => seq![o.id],
        None => Seq::empty(),
    }
}

/// A list of ids without one of them.
spec fn but(ids: Seq<u32>, claimed: Option<u32>) -> Seq<u32>
    decreases ids.len(),
{
    if ids.len() == 0 {
        Seq::empty()
    } else if Some(ids.last()) == claimed {
        but(ids.drop_last(), claimed)
    } else {
        but(ids.drop_last(), claimed).push(ids.last())
    }
}

proof fn but_contains(ids: Seq<u32>, claimed: Option<u32>, x: u32)
    ensures
        but(ids, claimed).contains(x) <==> ids.contains(x) && Some(x) != claimed,
    decreases ids.len(),
{
    if ids.len() > 0 {
        let front = ids.drop_last();
        but_contains(front, claimed, x);
        let before = but(front, claimed);
        let all = but(ids, claimed);
        if front.contains(x) {
            let j = choose|j: int| 0 <= j < front.len() && front[j] == x;
            assert(ids[j] == x);
        }
        if ids.contains(x) && x != ids.last() {
            let j = choose|j: int| 0 <= j < ids.len() && ids[j] == x;
            assert(front[j] == x);
        }
        if before.contains(x) {
            let j = choose|j: int| 0 <= j < before.len() && before[j] == x;
            assert(all[j] == x);
        }
        if Some(ids.last()) != claimed {
            assert(all[all.len() - 1] == ids.last());
            if all.contains(x) && x != ids.last() {
                let j = choose|j: int| 0 <= j < all.len() && all[j] == x;
                assert(before[j] == x);
            }
        }
        assert(ids[ids.len() - 1] == ids.last());
    }
}

proof fn but_lists(ids: Seq<u32>, claimed: Option<u32>)
    requires
        ids.no_duplicates(),
    ensures
        but(ids, claimed).no_duplicates(),
    decreases ids.len(),
{
    if ids.len() > 0 {
        let front = ids.drop_last();
        but_lists(front, claimed);
        but_contains(front, claimed, ids.last());
        if front.contains(ids.last()) {
            let j = choose|j: int| 0 <= j < front.len() && front[j] == ids.last();
            assert(ids[j] == ids[ids.len() - 1]);
        }
    }
}

/// The pending offers but the claimed one.
fn list_unclaimed(pending: &HashMap<u32, OfferMimes>, claimed: Option<u32>) -> (r: Vec<u32>)
    ensures
        lists(r@, unclaimed(pending@, claimed)),
{
    broadcast use vstd::std_specs::hash::group_hash_axioms;

    let ghost keys = vstd::std_specs::hash::spec_keys_iter(pending).remaining().unref();
    let ghost mut done: int = 0;
    let mut r: Vec<u32> = Vec::new();
    assert(keys.take(0) =~= Seq::empty());
    for key in iter: pending.keys()
        invariant
            iter.seq().unref() == keys,
            done == iter.index(),
            0 <= done <= keys.len(),
            r@ == but(keys.take(done), claimed),
    {
        let id: u32 = *key;
        let keep = match claimed {
            Some(k) => k == id,
            None => false,
        };
        assert(id == keys[done]);
        assert(keys.take(done + 1).drop_last() =~= keys.take(done));
        if !keep {
            r.push(id);
        }
        proof {
            done = done + 1;
        }
    }
    proof {
        assert(keys.take(done) =~= keys);
        assert(keys.no_duplicates());
        but_lists(keys, claimed);
        assert forall|x: u32| r@.to_set().contains(x) <==> unclaimed(pending@, claimed).contains(
            x,
        ) by {
            but_contains(keys, claimed, x);
            assert(keys.to_set().contains(x) <==> pending@.dom().contains(x));
        }
        assert(r@.to_set() =~= unclaimed(pending@, claimed));
    }
    r
}

impl Offers {
    pub fn new() -> (o: Offers)
        ensures
            o.pending@ == Map::<u32, OfferMimes>::empty(),
            o.current is None,
            o.device,
    {
        Offers { pending: HashMap::new(), current: None, device: true }
    }

    /// A new offer is announced.
    pub fn data_offer(&mut self, id: u32)
        ensures
            final(self).device == old(self).device,
            final(self).current == old(self).current,
            final(self).pending@ == old(self).pending@.insert(id, OfferMimes::nothing()),
    {
        broadcast use vstd::std_specs::hash::group_hash_axioms;

        self.pending.insert(id, OfferMimes::default());
    }

    /// The selection changed. The offer it names becomes current with the types
    /// seen of it; every other offer is given up. Returns the offers to destroy:
    /// the one that was current, then those never claimed, in whatever order.
    pub fn selection(&mut self, id: Option<u32>) -> (destroy: Vec<u32>)
        ensures
            final(self).device == old(self).device,
            final(self).pending@ == Map::<u32, OfferMimes>::empty(),
            ({
                let first = current_id(old(self).current);
                &&& first.is_prefix_of(destroy@)
                &&& lists(
                    destroy@.skip(first.len() as int),
                    unclaimed(old(self).pending@, id),
                )
            }),
            final(self).current == match id {
                Some(id) => Some(
                    Offer {
                        id,
                        mimes: if old(self).pending@.contains_key(id) {
                            old(self).pending@[id]
                        } else {
                            OfferMimes::nothing()
                        },
                    },
                ),
                None => None,
            },
    {
        broadcast use vstd::std_specs::hash::group_hash_axioms;

        let mut destroy: Vec<u32> = Vec::new();
        if let Some(o) = self.current {
            destroy.push(o.id);
        }
        let ghost first = destroy@;
        assert(first =~= current_id(self.current));
        let mut others = list_unclaimed(&self.pending, id);
        let ghost rest = others@;
        destroy.append(&mut others);
        assert(destroy@.skip(first.len() as int) =~= rest);
        self.current = match id {
            Some(id) => {
                let mimes = match self.pending.get(&id) {
                    Some(m) => *m,
                    None => OfferMimes::default(),
                };
                Some(Offer { id, mimes })
            },
            None => None,
        };
        self.pending.clear();
        destroy
    }

    /// The device is finished. Returns the offers to destroy, those never claimed
    /// in whatever order and then the current one, and whether the device itself
    /// still has to be.
    pub fn finished(&mut self) -> (r: (Vec<u32>, bool))
        ensures
            final(self).pending@ == Map::<u32, OfferMimes>::empty(),
            final(self).current is None,
            !final(self).device,
            r.1 == old(self).device,
            ({
                let last = current_id(old(self).current);
                let n = r.0@.len() - last.len();
                &&& n >= 0
                &&& lists(r.0@.take(n), old(self).pending@.dom())
                &&& r.0@.skip(n) == last
            }),
    {
        broadcast use vstd::std_specs::hash::group_hash_axioms;

        let mut destroy = list_unclaimed(&self.pending, None);
        let ghost n = destroy@.len() as int;
        let ghost pending = destroy@;
        if let Some(o) = self.current {
            destroy.push(o.id);
        }
        assert(destroy@.take(n) =~= pending);
        assert(destroy@.skip(n) =~= current_id(self.current));
        self.pending.clear();
        self.current = None;
        let device = self.device;
        self.device = false;
        (destroy, device)
    }

    /// The primary selection is not used: its offer is to be destroyed.
    pub fn primary_selection(&mut self, id: u32) -> (destroy: u32)
        ensures
            destroy == id,
            final(self).device == old(self).device,
            final(self).current == old(self).current,
            final(self).pending@ == old(self).pending@.remove(id),
    {
        broadcast use vstd::std_specs::hash::group_hash_axioms;

        self.pending.remove(&id);
        id
    }

    /// An offer has one more type: a pending offer, or else the current one.
    pub fn offer_mime(&mut self, id: u32, mime: &str)
        ensures
            final(self).device == old(self).device,
            if old(self).pending@.contains_key(id) {
                &&& final(self).current == old(self).current
                &&& final(self).pending@ == old(self).pending@.insert(
                    id,
                    old(self).pending@[id].observed(mime@),
                )
            } else {
                &&& final(self).pending@ == old(self).pending@
                &&& final(self).current == match old(self).current {
                    Some(o) => if o.id == id {
                        Some(Offer { id, mimes: o.mimes.observed(mime@) })
                    } else {
                        Some(o)
                    },
                    None => None,
                }
            },
    {
        broadcast use vstd::std_specs::hash::group_hash_axioms;

        let pending: Option<OfferMimes> = match self.pending.get(&id) {
            Some(m) => Some(*m),
            None => None,
        };
        match pending {
            Some(m) => {
                let mut mimes = m;
                mimes.observe(mime);
                self.pending.insert(id, mimes);
            },
            None => {
                if let Some(o) = self.current {
                    if o.id == id {
                        let mut mimes = o.mimes;
                        mimes.observe(mime);
                        self.current = Some(Offer { id, mimes });
                    }
                }
            },
        }
    }

    /// The offer to read from and the type to ask it for.
    pub fn start_receive(&self) -> (r: Option<(u32, &'static str)>)
        ensures
            match (self.current, r) {
                (Some(o), Some(v)) => v.0 == o.id && o.mimes.preferred() == Some(v.1@),
                (Some(o), None) => o.mimes.preferred() is None,
                (None, v) => v is None,
            },
    {
        match self.current {
            Some(o) => match o.mimes.best() {
                Some(mime) => Some((o.id, mime)),
                None => None,
            },
            None => None,
        }
    }
}

/// The text of what was read; nothing where it is no UTF-8.
pub fn received_text(bytes: &[u8]) -> (r: String)
    ensures
        valid_utf8(bytes@) ==> encode_utf8(r@) == bytes@,
        !valid_utf8(bytes@) ==> r@ == Seq::<char>::empty(),
{
    match utf8_text(bytes) {
        Some(s) => s,
        None => String::new(),
    }
}

/// What polling reported of one descriptor.
#[derive(Clone, Copy, PartialEq, Eq, Structural, Debug)]
pub struct FdEvents {
    pub readable: bool,
    /// Hung up, in error, or no descriptor at all.
    pub lost: bool,
}

/// How waiting for the display, the wake event and the active read ended.
#[derive(Clone, Copy, PartialEq, Eq, Structural, Debug)]
pub enum PollOutcome {
    Interrupted,
    Failed,
    Ready,
}

/// What the worker does after waiting.
#[derive(Clone, Copy, PartialEq, Eq, Structural, Debug)]
pub enum PollStep {
    /// Start over.
    Again,
    /// End, answering everyone who still waits.
    Stop,
    /// Look at the descriptors.
    Serve,
}

/// An interrupted wait is repeated; any other failure ends the worker.
pub fn poll_step(outcome: PollOutcome) -> (r: PollStep)
    ensures
        r == match outcome {
            PollOutcome::Interrupted => PollStep::Again,
            PollOutcome::Failed => PollStep::Stop,
            PollOutcome::Ready => PollStep::Serve,
        },
{
    match outcome {
        PollOutcome::Interrupted => PollStep::Again,
        PollOutcome::Failed => PollStep::Stop,
        PollOutcome::Ready => PollStep::Serve,
    }
}

/// Whether the display connection is gone: it could not be read though it was
/// readable, or it was lost. `read_ok` is what a read gave, where there was one.
pub fn display_lost(display: FdEvents, read_ok: bool) -> (r: bool)
    ensures
        r == (display.readable && !read_ok || display.lost),
{
    display.readable && !read_ok || display.lost
}

/// What one read of the pipe gave.
pub enum ReadOutcome {
    End,
    Bytes(Vec<u8>),
    WouldBlock,
    Interrupted,
    Failed,
}

/// Where reading the pipe stands.
#[derive(Clone, Copy, PartialEq, Eq, Structural, Debug)]
pub enum ReadNext {
    /// Read again.
    More,
    /// Nothing more for now.
    Wait,
    /// The text is complete, or there will be no more of it.
    Done,
}

/// Where one read leaves off.
pub open spec fn read_next(outcome: ReadOutcome) -> ReadNext {
    match outcome {
        ReadOutcome::End | ReadOutcome::Failed => ReadNext::Done,
        ReadOutcome::Bytes(_) | ReadOutcome::Interrupted => ReadNext::More,
        ReadOutcome::WouldBlock => ReadNext::Wait,
    }
}

/// The bytes one read adds.
pub open spec fn read_bytes(outcome: ReadOutcome) -> Seq<u8> {
    match outcome {
        ReadOutcome::Bytes(b) => b@,
        _ => Seq::empty(),
    }
}

/// The bytes of a run of reads up to the first that is not followed by another.
pub open spec fn run_bytes(reads: Seq<ReadOutcome>) -> Seq<u8>
    decreases reads.len(),
{
    if reads.len() == 0 {
        Seq::empty()
    } else if read_next(reads[0]) is More {
        read_bytes(reads[0]) + run_bytes(reads.drop_first())
    } else {
        Seq::empty()
    }
}

/// Whether a run of reads came to the end of the text.
pub open spec fn run_done(reads: Seq<ReadOutcome>) -> bool
    decreases reads.len(),
{
    if reads.len() == 0 {
        false
    } else {
        match read_next(reads[0]) {
            ReadNext::More => run_done(reads.drop_first()),
            ReadNext::Wait => false,
            ReadNext::Done => true,
        }
    }
}

/// One read of the clipboard under way.
pub struct Receive<C> {
    pub reader: C,
    pub buf: Vec<u8>,
}

/// The readers waiting for the clipboard; at most one is being served.
pub struct ClipboardWorker<C> {
    pub queued: Vec<C>,
    pub active: Option<Receive<C>>,
    /// The worker has to be woken.
    pub wake: bool,
    /// The worker's thread is over, because it was told to stop or because the
    /// display was lost. Nobody is answered any more.
    pub ended: bool,
}

impl<C> ClipboardWorker<C> {
    /// All waiting readers, in the order they asked.
    pub open spec fn waiting(&self) -> Seq<C> {
        match self.active {
            Some(r) => seq![r.reader] + self.queued@,
            None => self.queued@,
        }
    }

    pub fn new() -> (w: Self)
        ensures
            w.queued@.len() == 0,
            w.active is None,
            !w.wake,
            !w.ended,
    {
        ClipboardWorker { queued: Vec::new(), active: None, wake: false, ended: false }
    }

    /// Bytes of the active read.
    pub fn received(&mut self, chunk: &[u8])
        ensures
            final(self).queued@ == old(self).queued@,
            final(self).wake == old(self).wake,
            final(self).ended == old(self).ended,
            final(self).waiting() == old(self).waiting(),
            match (old(self).active, final(self).active) {
                (Some(a), Some(b)) => b.reader == a.reader && b.buf@ == a.buf@ + chunk@,
                (None, None) => true,
                _ => false,
            },
    {
        match self.active.take() {
            Some(r) => {
                let Receive { reader, buf } = r;
                let mut buf = buf;
                let ghost before = buf@;
                buf.extend_from_slice(chunk);
                assert(buf@ =~= before + chunk@);
                self.active = Some(Receive { reader, buf });
            },
            None => {},
        }
    }

    /// The wake event was taken back.
    pub fn woken(&mut self)
        ensures
            !final(self).wake,
            final(self).ended == old(self).ended,
            final(self).queued@ == old(self).queued@,
            final(self).active == old(self).active,
    {
        self.wake = false;
    }

    /// One read of the active read's pipe. Says whether to read again.
    pub fn read_step(&mut self, outcome: &ReadOutcome) -> (r: ReadNext)
        ensures
            r == read_next(*outcome),
            final(self).queued@ == old(self).queued@,
            final(self).wake == old(self).wake,
            final(self).ended == old(self).ended,
            match (old(self).active, final(self).active) {
                (Some(a), Some(b)) => b.reader == a.reader && b.buf@ == a.buf@ + read_bytes(
                    *outcome,
                ),
                (None, None) => true,
                _ => false,
            },
    {
        match outcome {
            ReadOutcome::Bytes(chunk) => {
                self.received(chunk.as_slice());
                ReadNext::More
            },
            ReadOutcome::Interrupted => ReadNext::More,
            ReadOutcome::WouldBlock => ReadNext::Wait,
            ReadOutcome::End | ReadOutcome::Failed => ReadNext::Done,
        }
    }

    /// What the active read's pipe reported, with the reads made where it was
    /// readable. Returns the reader to answer where its text is complete.
    pub fn serve_active(&mut self, events: FdEvents, reads: &Vec<ReadOutcome>) -> (r: Option<
        (C, String),
    >)
        ensures
            final(self).queued@ == old(self).queued@,
            final(self).wake == old(self).wake,
            final(self).ended == old(self).ended,
            match old(self).active {
                None => r is None && final(self).active is None,
                Some(a) => {
                    let run = if events.readable {
                        reads@
                    } else {
                        Seq::empty()
                    };
                    let buf = a.buf@ + run_bytes(run);
                    if run_done(run) || events.lost {
                        &&& r matches Some(v)
                        &&& v.0 == a.reader
                        &&& valid_utf8(buf) ==> encode_utf8(v.1@) == buf
                        &&& !valid_utf8(buf) ==> v.1@ == Seq::<char>::empty()
                        &&& final(self).active is None
                    } else {
                        &&& r is None
                        &&& final(self).active matches Some(b)
                        &&& b.reader == a.reader
                        &&& b.buf@ == buf
                    }
                },
            },
    {
        if self.active.is_none() {
            return None;
        }
        let mut done = false;
        if events.readable {
            let ghost a = self.active.unwrap();
            let mut more = true;
            let mut i: usize = 0;
            assert(reads@.skip(0) =~= reads@);
            assert(a.buf@ + run_bytes(reads@) =~= a.buf@ + run_bytes(reads@.skip(0)));
            while more && i < reads.len()
                invariant
                    i <= reads@.len(),
                    self.queued@ == old(self).queued@,
                    self.wake == old(self).wake,
                    self.ended == old(self).ended,
                    self.active matches Some(b) && b.reader == a.reader && (if more {
                        b.buf@ + run_bytes(reads@.skip(i as int)) == a.buf@ + run_bytes(reads@)
                    } else {
                        b.buf@ == a.buf@ + run_bytes(reads@)
                    }),
                    if more {
                        !done && run_done(reads@.skip(i as int)) == run_done(reads@)
                    } else {
                        done == run_done(reads@)
                    },
                decreases reads@.len() - i,
            {
                let ghost rest = reads@.skip(i as int);
                let ghost before = self.active.unwrap().buf@;
                assert(rest[0] == reads@[i as int]);
                assert(rest.drop_first() =~= reads@.skip(i + 1));
                match self.read_step(&reads[i]) {
                    ReadNext::More => {
                        assert(before + run_bytes(rest) =~= self.active.unwrap().buf@ + run_bytes(
                            rest.drop_first(),
                        ));
                    },
                    ReadNext::Wait => {
                        more = false;
                        assert(self.active.unwrap().buf@ =~= before + run_bytes(rest));
                    },
                    ReadNext::Done => {
                        more = false;
                        done = true;
                        assert(self.active.unwrap().buf@ =~= before + run_bytes(rest));
                    },
                }
                i += 1;
            }
            if more {
                assert(reads@.skip(i as int) =~= Seq::empty());
                assert(self.active.unwrap().buf@ =~= a.buf@ + run_bytes(reads@));
            }
        } else {
            assert(self.active.unwrap().buf@ =~= self.active.unwrap().buf@ + run_bytes(
                Seq::empty(),
            ));
        }
        if done || events.lost {
            self.receive_done()
        } else {
            None
        }
    }

    /// The active read ended. Returns its reader and the text to hand over.
    pub fn receive_done(&mut self) -> (r: Option<(C, String)>)
        ensures
            final(self).active is None,
            final(self).queued@ == old(self).queued@,
            final(self).wake == old(self).wake,
            final(self).ended == old(self).ended,
            match (old(self).active, r) {
                (Some(a), Some(v)) => {
                    &&& v.0 == a.reader
                    &&& valid_utf8(a.buf@) ==> encode_utf8(v.1@) == a.buf@
                    &&& !valid_utf8(a.buf@) ==> v.1@ == Seq::<char>::empty()
                    &&& old(self).waiting() == seq![v.0] + final(self).waiting()
                },
                (None, None) => final(self).waiting() == old(self).waiting(),
                _ => false,
            },
    {
        match self.active.take() {
            Some(r) => {
                let text = received_text(r.buf.as_slice());
                Some((r.reader, text))
            },
            None => None,
        }
    }

    /// Whether the next reader can be served now.
    pub fn wants_receive(&self) -> (r: bool)
        ensures
            r == (self.active is None && self.queued@.len() > 0),
    {
        self.active.is_none() && self.queued.len() > 0
    }

    /// Serves the next reader, `started` saying whether a read could be begun.
    /// If not, everyone queued has the same problem: all are returned, to be
    /// handed nothing.
    pub fn promote(&mut self, started: bool) -> (unserved: Vec<C>)
        requires
            old(self).active is None,
            old(self).queued@.len() > 0,
        ensures
            final(self).wake == old(self).wake,
            final(self).ended == old(self).ended,
            started ==> {
                &&& unserved@.len() == 0
                &&& final(self).active matches Some(r)
                &&& r.reader == old(self).queued@[0]
                &&& r.buf@.len() == 0
                &&& final(self).queued@ == old(self).queued@.drop_first()
                &&& final(self).waiting() == old(self).waiting()
            },
            !started ==> {
                &&& unserved@ == old(self).waiting()
                &&& final(self).waiting() == Seq::<C>::empty()
                &&& final(self).active is None
            },
    {
        let ghost queue = self.queued@;
        if started {
            let reader = self.queued.remove(0);
            assert(queue.remove(0) =~= queue.drop_first());
            self.active = Some(Receive { reader, buf: Vec::new() });
            assert(self.waiting() =~= queue);
            Vec::new()
        } else {
            let unserved = self.queued.split_off(0);
            assert(unserved@ =~= queue);
            assert(self.queued@ =~= Seq::<C>::empty());
            unserved
        }
    }

    /// The worker ends. Returns everyone still waiting, to be handed nothing.
    pub fn drain(&mut self) -> (unserved: Vec<C>)
        ensures
            unserved@ == old(self).waiting(),
            final(self).ended,
            final(self).wake == old(self).wake,
            final(self).waiting() == Seq::<C>::empty(),
            final(self).active is None,
    {
        let mut unserved: Vec<C> = Vec::new();
        let ghost all = self.waiting();
        match self.active.take() {
            Some(r) => unserved.push(r.reader),
            None => {},
        }
        unserved.append(&mut self.queued);
        assert(unserved@ =~= all);
        assert(self.queued@ =~= Seq::<C>::empty());
        self.ended = true;
        unserved
    }
}

/// Sets the clipboard up, once; `connected` says whether a data-control
/// connection could be had.
pub fn clipboard_init<C>(instance: &mut Option<ClipboardWorker<C>>, connected: bool)
    ensures
        *old(instance) is Some || !connected ==> *final(instance) == *old(instance),
        *old(instance) is None && connected ==> {
            &&& *final(instance) matches Some(w)
            &&& w.waiting().len() == 0
            &&& !w.wake
            &&& !w.ended
        },
{
    if instance.is_some() {
        return ;
    }
    if connected {
        *instance = Some(ClipboardWorker::new());
    }
}

pub fn clipboard_available<C>(instance: &Option<ClipboardWorker<C>>) -> (r: bool)
    ensures
        r == (instance is Some),
{
    instance.is_some()
}

/// Queues a reader and wakes the worker, whether or not its thread still runs.
/// Without a clipboard the reader is handed back, to be given an empty text, so
/// that its promise resolves.
pub fn clipboard_read_text_async<C>(instance: &mut Option<ClipboardWorker<C>>, reader: C) -> (r:
    Option<C>)
    ensures
        match (*old(instance), *final(instance)) {
            (Some(a), Some(b)) => {
                &&& r is None
                &&& b.active == a.active
                &&& b.queued@ == a.queued@.push(reader)
                &&& b.waiting() == a.waiting().push(reader)
                &&& b.wake
                &&& b.ended == a.ended
            },
            (None, None) => r == Some(reader),
            _ => false,
        },
{
    match instance.take() {
        Some(w) => {
            let mut w = w;
            let ghost before = w.waiting();
            w.queued.push(reader);
            w.wake = true;
            assert(w.waiting() =~= before.push(reader));
            *instance = Some(w);
            None
        },
        None => Some(reader),
    }
}

/// Takes the clipboard down: the worker is stopped, and whoever it returns is
/// handed nothing. Those who asked after its thread was over are dropped
/// unanswered, with nobody left to answer them.
pub fn clipboard_cleanup<C>(instance: &mut Option<ClipboardWorker<C>>) -> (unserved: Vec<C>)
    ensures
        *final(instance) is None,
        unserved@ == match *old(instance) {
            Some(w) => if w.ended {
                Seq::<C>::empty()
            } else {
                w.waiting()
            },
            None => Seq::<C>::empty(),
        },
{
    match instance.take() {
        Some(w) => {
            if w.ended {
                return Vec::new();
            }
            let mut w = w;
            w.drain()
        },
        None => Vec::new(),
    }
}

/// Every offer a selection gives up is destroyed, and the claimed one is not:
/// nothing leaks, and nothing in use is lost. `destroy` is any list of what a
/// selection gives up.
pub proof fn selection_leaks_no_offer(
    pending: Map<u32, OfferMimes>,
    claimed: Option<u32>,
    destroy: Seq<u32>,
    id: u32,
)
    requires
        pending.contains_key(id),
        lists(destroy, unclaimed(pending, claimed)),
    ensures
        destroy.contains(id) <==> Some(id) != claimed,
{
    assert(destroy.to_set().contains(id) <==> destroy.contains(id));
}

} // verus!
