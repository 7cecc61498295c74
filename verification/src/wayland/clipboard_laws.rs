//! What readers of the clipboard are given, and in what order.

use vstd::prelude::*;
use vstd::utf8::encode_utf8;
use vstd::utf8::valid_utf8;

use crate::wayland::clipboard::clipboard_available;
use crate::wayland::clipboard::clipboard_cleanup;
use crate::wayland::clipboard::clipboard_init;
use crate::wayland::clipboard::clipboard_read_text_async;
use crate::wayland::clipboard::current_id;
use crate::wayland::clipboard::display_lost;
use crate::wayland::clipboard::poll_step;
use crate::wayland::clipboard::received_text;
use crate::wayland::clipboard::run_bytes;
use crate::wayland::clipboard::run_done;
use crate::wayland::clipboard::unclaimed;
use crate::wayland::clipboard::ClipboardWorker;
use crate::wayland::clipboard::FdEvents;
use crate::wayland::clipboard::OfferMimes;
use crate::wayland::clipboard::Offers;
use crate::wayland::clipboard::PollOutcome;
use crate::wayland::clipboard::PollStep;
use crate::wayland::clipboard::ReadNext;
use crate::wayland::clipboard::ReadOutcome;

verus! {

/// The text types, the most wanted first.
pub open spec fn rank(mime: Seq<char>) -> Option<int> {
    if mime == "text/plain;charset=utf-8"@ {
        Some(0)
    } else if mime == "text/plain"@ {
        Some(1)
    } else if mime == "UTF8_STRING"@ {
        Some(2)
    } else if mime == "STRING"@ {
        Some(3)
    } else if mime == "TEXT"@ {
        Some(4)
    } else {
        None
    }
}

proof fn types_are_five()
    ensures
        rank("text/plain;charset=utf-8"@) == Some(0int),
        rank("text/plain"@) == Some(1int),
        rank("UTF8_STRING"@) == Some(2int),
        rank("STRING"@) == Some(3int),
        rank("TEXT"@) == Some(4int),
{
    reveal_strlit("text/plain;charset=utf-8");
    reveal_strlit("text/plain");
    reveal_strlit("UTF8_STRING");
    reveal_strlit("STRING");
    reveal_strlit("TEXT");
    assert("text/plain;charset=utf-8"@.len() == 24);
    assert("text/plain"@.len() == 10);
    assert("UTF8_STRING"@.len() == 11);
    assert("STRING"@.len() == 6);
    assert("TEXT"@.len() == 4);
}

/// Noting types gives the best of them, whatever the order they come in: one that
/// is no text type changes nothing, and the best there is stays unless a better
/// one is noted.
pub proof fn best_type_is_asked_for(
    m: &mut OfferMimes,
    mime: &str,
    u: (),
    before: Option<&'static str>,
    after: Option<&'static str>,
    fresh: OfferMimes,
    none: Option<&'static str>,
)
    requires
        call_ensures(OfferMimes::best, (&*old(m),), before),
        call_ensures(OfferMimes::observe, (m, mime), u),
        call_ensures(OfferMimes::best, (&*final(m),), after),
        fresh == OfferMimes::nothing(),
        call_ensures(OfferMimes::best, (&fresh,), none),
    ensures
        none is None,
        before matches Some(b) ==> rank(b@) is Some,
        rank(mime@) is None ==> *final(m) == *old(m),
        rank(mime@) is Some ==> {
            &&& after is Some
            &&& before is None ==> after->Some_0@ == mime@
            &&& before matches Some(b) ==> after->Some_0@ == if rank(mime@)->Some_0 < rank(
                b@,
            )->Some_0 {
                mime@
            } else {
                b@
            }
        },
{
    types_are_five();
}

/// An offer that is announced, given a type and selected is read from in that
/// type; one that is given no text type is not read from. Selecting nothing
/// leaves nothing to read.
pub proof fn selected_offer_is_read_from(
    a: &mut Offers,
    id: u32,
    u: (),
    b: &mut Offers,
    mime: &str,
    c: &mut Offers,
    destroy: Vec<u32>,
    r: Option<(u32, &'static str)>,
    d: &mut Offers,
    rest: Vec<u32>,
    none: Option<(u32, &'static str)>,
)
    requires
        call_ensures(Offers::data_offer, (a, id), u),
        *old(b) == *final(a),
        call_ensures(Offers::offer_mime, (b, id, mime), u),
        *old(c) == *final(b),
        call_ensures(Offers::selection, (c, Some(id)), destroy),
        call_ensures(Offers::start_receive, (&*final(c),), r),
        *old(d) == *final(c),
        call_ensures(Offers::selection, (d, None), rest),
        call_ensures(Offers::start_receive, (&*final(d),), none),
    ensures
        r is Some <==> rank(mime@) is Some,
        r matches Some(v) ==> v.0 == id && v.1@ == mime@,
        none is None,
        rest@.len() == 1 && rest@[0] == id,
        final(d).pending@.dom() =~= Set::<u32>::empty(),
{
    types_are_five();
    assert(final(c).pending@.dom() =~= Set::<u32>::empty());
    assert(unclaimed(old(d).pending@, None) =~= Set::<u32>::empty());
    assert(rest@[0] == current_id(old(d).current)[0]);
    let left = rest@.skip(1);
    if left.len() > 0 {
        assert(left.to_set().contains(left[0]));
    }
}

/// Every offer is destroyed once a selection passes it by: the one that was
/// current, first, and each that was announced but is not the one selected. The
/// selected one is not.
pub proof fn passed_by_offers_are_destroyed(
    a: &mut Offers,
    id: Option<u32>,
    destroy: Vec<u32>,
    other: u32,
)
    requires
        call_ensures(Offers::selection, (a, id), destroy),
    ensures
        old(a).current matches Some(o) ==> destroy@.len() > 0 && destroy@[0] == o.id,
        old(a).pending@.contains_key(other) && Some(other) != id ==> destroy@.contains(other),
        destroy@.contains(other) ==> (old(a).current is Some && old(a).current->Some_0.id == other)
            || (old(a).pending@.contains_key(other) && Some(other) != id),
        final(a).current is Some <==> id is Some,
        final(a).current matches Some(o) ==> Some(o.id) == id,
        final(a).device == old(a).device,
{
    let first = current_id(old(a).current);
    let rest = destroy@.skip(first.len() as int);
    let set = unclaimed(old(a).pending@, id);
    assert(rest.to_set().contains(other) <==> set.contains(other));
    if set.contains(other) {
        let i = choose|i: int| 0 <= i < rest.len() && rest[i] == other;
        assert(destroy@[first.len() + i] == other);
    }
    if destroy@.contains(other) {
        let i = choose|i: int| 0 <= i < destroy@.len() && destroy@[i] == other;
        if i >= first.len() {
            assert(rest[i - first.len()] == other);
        } else {
            assert(first[i] == destroy@[i]);
        }
    }
    if old(a).current is Some {
        assert(first[0] == destroy@[0]);
    }
}

/// When the device is finished every offer goes, the current one last, and the
/// device once. The primary selection's offer goes at once.
pub proof fn finished_device_leaves_nothing(
    a: &mut Offers,
    r: (Vec<u32>, bool),
    b: &mut Offers,
    again: (Vec<u32>, bool),
    id: u32,
    c: &mut Offers,
    primary: u32,
    fresh: Offers,
)
    requires
        call_ensures(Offers::finished, (a,), r),
        *old(b) == *final(a),
        call_ensures(Offers::finished, (b,), again),
        call_ensures(Offers::primary_selection, (c, id), primary),
        call_ensures(Offers::new, (), fresh),
    ensures
        old(a).pending@.contains_key(id) ==> r.0@.contains(id),
        old(a).current matches Some(o) ==> r.0@.len() > 0 && r.0@.last() == o.id,
        r.1 == old(a).device && !again.1,
        again.0@.len() == 0,
        primary == id && !final(c).pending@.contains_key(id) && final(c).current == old(c).current,
        fresh.device && fresh.current is None && !fresh.pending@.contains_key(id),
{
    let last = current_id(old(a).current);
    let n = r.0@.len() - last.len();
    if old(a).pending@.contains_key(id) {
        let list = r.0@.take(n);
        assert(list.to_set().contains(id));
        let i = choose|i: int| 0 <= i < list.len() && list[i] == id;
        assert(r.0@[i] == id);
    }
    if old(a).current is Some {
        assert(r.0@.skip(n)[0] == r.0@[n]);
    }
    let list = again.0@.take(again.0@.len() as int);
    assert(old(b).pending@.dom() =~= Set::<u32>::empty());
    assert(current_id(old(b).current).len() == 0);
    if again.0@.len() > 0 {
        assert(list.to_set().contains(list[0]));
    }
}

/// What was read is handed over as it is, where it is text; else nothing is.
pub proof fn text_is_handed_over(bytes: &[u8], r: String)
    requires
        call_ensures(received_text, (bytes,), r),
    ensures
        valid_utf8(bytes@) ==> encode_utf8(r@) == bytes@,
        !valid_utf8(bytes@) ==> r@.len() == 0,
{
}

/// A reader that asks is queued behind all who wait, and the worker is woken;
/// without a clipboard it is handed back.
pub proof fn readers_queue_up<C>(
    a: &mut Option<ClipboardWorker<C>>,
    reader: C,
    r: Option<C>,
    there: bool,
)
    requires
        call_ensures(clipboard_available::<C>, (&*old(a),), there),
        call_ensures(clipboard_read_text_async::<C>, (a, reader), r),
    ensures
        there <==> *old(a) is Some,
        there ==> r is None && *final(a) is Some && {
            let w = final(a)->Some_0;
            let v = old(a)->Some_0;
            &&& w.wake && w.ended == v.ended && w.active == v.active
            &&& w.queued@.len() == v.queued@.len() + 1 && w.queued@.last() == reader
            &&& w.queued@.drop_last() == v.queued@
        },
        !there ==> r == Some(reader) && *final(a) is None,
{
    if *old(a) is Some {
        assert(final(a)->Some_0.queued@.drop_last() =~= old(a)->Some_0.queued@);
    }
}

/// Readers are served one at a time in the order they asked: the first is taken
/// up with an empty text while the others stay queued. Where no read can be
/// begun, all are turned away, in order.
pub proof fn first_reader_is_served_first<C>(
    w: &mut ClipboardWorker<C>,
    started: bool,
    unserved: Vec<C>,
    wants: bool,
    still: bool,
)
    requires
        old(w).active is None,
        old(w).queued@.len() > 0,
        call_ensures(ClipboardWorker::<C>::wants_receive, (&*old(w),), wants),
        call_ensures(ClipboardWorker::<C>::promote, (w, started), unserved),
        call_ensures(ClipboardWorker::<C>::wants_receive, (&*final(w),), still),
    ensures
        wants && !still,
        started ==> {
            &&& unserved@.len() == 0
            &&& final(w).active matches Some(r)
            &&& r.reader == old(w).queued@[0] && r.buf@.len() == 0
            &&& final(w).queued@.len() == old(w).queued@.len() - 1
            &&& forall|i: int|
                #![trigger final(w).queued@[i]]
                0 <= i < final(w).queued@.len() ==> final(w).queued@[i] == old(w).queued@[i + 1]
        },
        !started ==> unserved@ == old(w).queued@ && final(w).queued@.len() == 0
            && final(w).active is None,
{
    if !started {
        assert(final(w).waiting() == final(w).queued@);
    }
}

/// One read at a time: bytes are appended; at the end, or where reading fails,
/// the reader is answered with all that came; where there is nothing yet, it
/// waits, and nothing behind counts.
pub proof fn each_read_counts<C>(
    w: &mut ClipboardWorker<C>,
    reads: Vec<ReadOutcome>,
    r: Option<(C, String)>,
)
    requires
        call_ensures(
            ClipboardWorker::<C>::serve_active,
            (w, FdEvents { readable: true, lost: false }, &reads),
            r,
        ),
        old(w).active is Some,
        reads@.len() > 0,
    ensures
        ({
            let a = old(w).active->Some_0;
            &&& reads@[0] is WouldBlock ==> r is None && (final(w).active matches Some(b) && b.reader
                == a.reader && b.buf@ == a.buf@)
            &&& reads@[0] is End || reads@[0] is Failed ==> {
                &&& r matches Some(v)
                &&& v.0 == a.reader && final(w).active is None
                &&& valid_utf8(a.buf@) ==> encode_utf8(v.1@) == a.buf@
                &&& !valid_utf8(a.buf@) ==> v.1@.len() == 0
            }
            &&& reads@.len() == 1 && reads@[0] is Interrupted ==> r is None && (
            final(w).active matches Some(b) && b.reader == a.reader && b.buf@ == a.buf@)
            &&& reads@.len() == 1 ==> (reads@[0] matches ReadOutcome::Bytes(c) ==> r is None && (
            final(w).active matches Some(b) && b.reader == a.reader && b.buf@ == a.buf@ + c@))
            &&& final(w).queued@ == old(w).queued@
        }),
{
    reveal_with_fuel(run_bytes, 3);
    reveal_with_fuel(run_done, 3);
    let a = old(w).active->Some_0;
    assert(a.buf@ + Seq::<u8>::empty() =~= a.buf@);
    if reads@.len() == 1 {
        assert(reads@.drop_first() =~= Seq::<ReadOutcome>::empty());
        match reads@[0] {
            ReadOutcome::Bytes(c) => {
                assert(c@ + Seq::<u8>::empty() =~= c@);
            },
            _ => {
                assert(Seq::<u8>::empty() + Seq::<u8>::empty() =~= Seq::<u8>::empty());
            },
        }
    }
}

/// Reads that go on add up: what they and the next ones bring is the same in one
/// go or in two.
pub proof fn reads_add_up<C>(
    w: &mut ClipboardWorker<C>,
    first: Vec<ReadOutcome>,
    r: Option<(C, String)>,
    v: &mut ClipboardWorker<C>,
    second: Vec<ReadOutcome>,
    s: Option<(C, String)>,
    x: &mut ClipboardWorker<C>,
    both: Vec<ReadOutcome>,
    t: Option<(C, String)>,
)
    requires
        forall|i: int|
            0 <= i < first@.len() ==> (#[trigger] first@[i]) is Bytes || first@[i] is Interrupted,
        both@ == first@ + second@,
        old(w).active is Some,
        call_ensures(
            ClipboardWorker::<C>::serve_active,
            (w, FdEvents { readable: true, lost: false }, &first),
            r,
        ),
        *old(v) == *final(w),
        call_ensures(
            ClipboardWorker::<C>::serve_active,
            (v, FdEvents { readable: true, lost: false }, &second),
            s,
        ),
        *old(x) == *old(w),
        call_ensures(
            ClipboardWorker::<C>::serve_active,
            (x, FdEvents { readable: true, lost: false }, &both),
            t,
        ),
    ensures
        r is None,
        s is Some <==> t is Some,
        s is Some ==> s->Some_0.0 == t->Some_0.0 && final(x).active is None
            && final(v).active is None,
        s is None ==> final(v).active is Some && final(x).active is Some
            && final(v).active->Some_0.buf@ == final(x).active->Some_0.buf@
            && final(v).active->Some_0.reader
            == final(x).active->Some_0.reader,
{
    let a = old(w).active->Some_0.buf@;
    runs_join(first@, second@);
    assert(a + (run_bytes(first@) + run_bytes(second@)) =~= (a + run_bytes(first@)) + run_bytes(
        second@,
    ));
}

proof fn runs_join(a: Seq<ReadOutcome>, b: Seq<ReadOutcome>)
    requires
        forall|i: int| 0 <= i < a.len() ==> (#[trigger] a[i]) is Bytes || a[i] is Interrupted,
    ensures
        run_bytes(a + b) == run_bytes(a) + run_bytes(b),
        run_done(a + b) == run_done(b),
        !run_done(a),
    decreases a.len(),
{
    if a.len() == 0 {
        assert(a + b =~= b);
        assert(run_bytes(a) + run_bytes(b) =~= run_bytes(b));
    } else {
        let rest = a.drop_first();
        runs_join(rest, b);
        assert((a + b).drop_first() =~= rest + b);
        assert((a + b)[0] == a[0]);
        let head = crate::wayland::clipboard::read_bytes(a[0]);
        assert(head + (run_bytes(rest) + run_bytes(b)) =~= (head + run_bytes(rest)) + run_bytes(b));
    }
}

/// A lost pipe ends the read with what there is; one that reports nothing changes
/// nothing.
pub proof fn lost_pipe_ends_the_read<C>(
    w: &mut ClipboardWorker<C>,
    lost: bool,
    reads: Vec<ReadOutcome>,
    r: Option<(C, String)>,
)
    requires
        call_ensures(
            ClipboardWorker::<C>::serve_active,
            (w, FdEvents { readable: false, lost }, &reads),
            r,
        ),
    ensures
        r is Some <==> lost && old(w).active is Some,
        r matches Some(v) ==> {
            let a = old(w).active->Some_0;
            &&& v.0 == a.reader && final(w).active is None
            &&& valid_utf8(a.buf@) ==> encode_utf8(v.1@) == a.buf@
            &&& !valid_utf8(a.buf@) ==> v.1@.len() == 0
        },
        r is None ==> (final(w).active is Some <==> old(w).active is Some),
        r is None && old(w).active is Some ==> final(w).active->Some_0.buf@
            == old(w).active->Some_0.buf@ && final(w).active->Some_0.reader
            == old(w).active->Some_0.reader,
        final(w).queued@ == old(w).queued@,
{
    if old(w).active is Some {
        let a = old(w).active->Some_0;
        assert(a.buf@ + Seq::<u8>::empty() =~= a.buf@);
    }
}

/// A step of reading appends exactly the bytes it brought and says whether to go
/// on; the bytes of a chunk are appended behind the others; a read that is done
/// hands its reader over and frees the place.
pub proof fn steps_of_reading<C>(
    w: &mut ClipboardWorker<C>,
    outcome: ReadOutcome,
    next: ReadNext,
    v: &mut ClipboardWorker<C>,
    chunk: &[u8],
    u: (),
    x: &mut ClipboardWorker<C>,
    r: Option<(C, String)>,
    y: &mut ClipboardWorker<C>,
)
    requires
        call_ensures(ClipboardWorker::<C>::read_step, (w, &outcome), next),
        call_ensures(ClipboardWorker::<C>::received, (v, chunk), u),
        call_ensures(ClipboardWorker::<C>::receive_done, (x,), r),
        call_ensures(ClipboardWorker::<C>::woken, (y,), u),
    ensures
        next is More <==> outcome is Bytes || outcome is Interrupted,
        next is Wait <==> outcome is WouldBlock,
        next is Done <==> outcome is End || outcome is Failed,
        old(w).active matches Some(a) ==> (final(w).active matches Some(b) && b.reader == a.reader
            && b.buf@.len() == a.buf@.len() + match outcome {
            ReadOutcome::Bytes(c) => c@.len() as int,
            _ => 0int,
        } && b.buf@.take(a.buf@.len() as int) == a.buf@ && (outcome matches ReadOutcome::Bytes(
            c,
        ) ==> b.buf@.skip(a.buf@.len() as int) == c@)),
        old(v).active matches Some(a) ==> (final(v).active matches Some(b) && b.reader == a.reader
            && b.buf@ == a.buf@ + chunk@),
        r is Some <==> old(x).active is Some,
        r matches Some(p) ==> p.0 == old(x).active->Some_0.reader,
        final(x).active is None && final(x).queued@ == old(x).queued@,
        !final(y).wake && final(y).queued@ == old(y).queued@ && final(y).active == old(y).active
            && final(y).ended == old(y).ended,
{
    if old(w).active is Some {
        let a = old(w).active->Some_0.buf@;
        let b = final(w).active->Some_0.buf@;
        assert(b.take(a.len() as int) =~= a);
        if let ReadOutcome::Bytes(c) = outcome {
            assert(b.skip(a.len() as int) =~= c@);
        }
    }
}

/// Ending turns away everyone who waits, the one being served first, and only
/// once: a clipboard taken down after that turns nobody away.
pub proof fn everyone_is_turned_away_once<C>(
    w: &mut ClipboardWorker<C>,
    r: Vec<C>,
    a: &mut Option<ClipboardWorker<C>>,
    s: Vec<C>,
    b: &mut Option<ClipboardWorker<C>>,
    t: Vec<C>,
)
    requires
        call_ensures(ClipboardWorker::<C>::drain, (w,), r),
        *old(a) == Some(*final(w)),
        call_ensures(clipboard_cleanup::<C>, (a,), s),
        *old(b) == Some(*old(w)),
        !old(w).ended,
        call_ensures(clipboard_cleanup::<C>, (b,), t),
    ensures
        old(w).active is None ==> r@ == old(w).queued@,
        old(w).active matches Some(x) ==> r@.len() == old(w).queued@.len() + 1 && r@[0] == x.reader
            && r@.drop_first() == old(w).queued@,
        final(w).ended && final(w).active is None && final(w).queued@.len() == 0,
        s@.len() == 0,
        t@ == r@,
        *final(a) is None && *final(b) is None,
{
    assert(final(w).waiting() == final(w).queued@);
    if old(w).active is Some {
        assert(r@.drop_first() =~= old(w).queued@);
    }
}

/// A clipboard is set up once, empty and running, where a connection can be had.
pub proof fn clipboard_is_set_up_once<C>(
    a: &mut Option<ClipboardWorker<C>>,
    connected: bool,
    u: (),
    w: ClipboardWorker<C>,
)
    requires
        call_ensures(clipboard_init::<C>, (a, connected), u),
        call_ensures(ClipboardWorker::<C>::new, (), w),
    ensures
        *final(a) is Some <==> *old(a) is Some || connected,
        *old(a) is Some ==> *final(a) == *old(a),
        *old(a) is None && connected ==> {
            let v = final(a)->Some_0;
            v.waiting().len() == 0 && !v.ended && !v.wake
        },
        w.queued@.len() == 0 && w.active is None && !w.ended && !w.wake,
{
}

/// An interrupted wait is repeated, a failed one is the end; a display that is
/// lost, or readable but not read, is gone.
pub proof fn waiting_ends_when_the_display_is_lost(
    o: PollOutcome,
    r: PollStep,
    e: FdEvents,
    ok: bool,
    lost: bool,
)
    requires
        call_ensures(poll_step, (o,), r),
        call_ensures(display_lost, (e, ok), lost),
    ensures
        r is Again <==> o is Interrupted,
        r is Stop <==> o is Failed,
        r is Serve <==> o is Ready,
        e.lost ==> lost,
        e.readable && !ok ==> lost,
        !e.lost && ok ==> !lost,
        !e.lost && !e.readable ==> !lost,
{
}

} // verus!
