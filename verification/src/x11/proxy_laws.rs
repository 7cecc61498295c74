//! What holds of the proxy's relays as a whole.

use vstd::prelude::*;

use crate::x11::mpv_proxy::framed;
use crate::x11::mpv_proxy::neutralized;
use crate::x11::mpv_proxy::noop;
use crate::x11::mpv_proxy::relayed;
use crate::x11::mpv_proxy::request_len;
use crate::x11::mpv_proxy::requests;
use crate::x11::mpv_proxy::rewritten;
use crate::x11::mpv_proxy::stale_configure;
use crate::x11::mpv_proxy::setup_reply_len;
use crate::x11::mpv_proxy::unit_len;
use crate::x11::mpv_proxy::units;
use crate::x11::mpv_proxy::EmbedContext;
use crate::x11::mpv_proxy::Framed;
use crate::x11::mpv_proxy::FramerModel;
use crate::x11::mpv_proxy::Relayed;
use crate::x11::mpv_proxy::ReqConfig;
use crate::x11::mpv_proxy::ReqModel;
use crate::x11::mpv_proxy::MAX_REQUEST_BYTES;
use crate::x11::wire::bits_below;
use crate::x11::wire::change_attributes_of;
use crate::x11::wire::change_attributes_with;
use crate::x11::wire::configure_notify_of;
use crate::x11::wire::create_window_of;
use crate::x11::wire::header_of;
use crate::x11::wire::setup_complete;
use crate::x11::wire::setup_len;
use crate::x11::wire::u16_at;
use crate::x11::wire::u32_at;
use crate::x11::wire::RequestHeader;
use crate::x11::wire::WireError;
use crate::x11::wire::CHANGE_WINDOW_ATTRIBUTES_REQUEST;
use crate::x11::wire::CREATE_WINDOW_REQUEST;

verus! {

/// Relaying never loses its place: it consumes no more than it is given.
pub(crate) proof fn requests_consumed(cfg: ReqConfig, st: ReqModel, s: Seq<u8>)
    ensures
        0 <= requests(cfg, st, s).consumed <= s.len(),
    decreases s.len(),
{
    if let Ok(v) = header_of(s, cfg.little) {
        let total = request_len(v.0, v.1);
        if 0 < total <= s.len() && total <= MAX_REQUEST_BYTES {
            let raw = s.subrange(0, total);
            let step = rewritten(cfg, st, v.0, raw, raw.subrange(v.1, total));
            requests_consumed(cfg, step.0, s.subrange(total, s.len() as int));
        }
    }
}

pub(crate) proof fn relayed_consumed(cfg: ReqConfig, st: ReqModel, s: Seq<u8>)
    ensures
        0 <= relayed(cfg, st, s).consumed <= s.len(),
{
    requests_consumed(cfg, st, s);
    if setup_complete(s, cfg.little) {
        requests_consumed(
            cfg,
            ReqModel { setup_done: true, ..st },
            s.subrange(setup_len(s, cfg.little), s.len() as int),
        );
    }
}

/// First one outcome, then another.
pub open spec fn relayed_then(first: Relayed, second: Relayed) -> Relayed {
    Relayed {
        state: second.state,
        out: first.out + second.out,
        consumed: first.consumed + second.consumed,
    }
}

/// Rewriting a request ends neither the setup nor the framing.
proof fn rewriting_keeps_framing(
    cfg: ReqConfig,
    st: ReqModel,
    h: RequestHeader,
    raw: Seq<u8>,
    body: Seq<u8>,
)
    ensures
        rewritten(cfg, st, h, raw, body).0.setup_done == st.setup_done,
        rewritten(cfg, st, h, raw, body).0.blind == st.blind,
{
    reveal(rewritten);
}

/// A header that can be read stays what it is when more bytes arrive.
proof fn header_extend(a: Seq<u8>, b: Seq<u8>, little: bool)
    requires
        header_of(a, little) != Err::<(RequestHeader, int), WireError>(
            WireError::InsufficientData,
        ),
    ensures
        header_of(a + b, little) == header_of(a, little),
{
    assert(u16_at(a + b, 2, little) == u16_at(a, 2, little));
    if a.len() >= 8 {
        assert(u32_at(a + b, 4, little) == u32_at(a, 4, little));
    }
}

pub(crate) proof fn requests_extend(cfg: ReqConfig, st: ReqModel, a: Seq<u8>, b: Seq<u8>)
    requires
        st.setup_done,
        !st.blind,
    ensures
        requests(cfg, st, a).state.setup_done,
        requests(cfg, st, a + b) == relayed_then(
            requests(cfg, st, a),
            relayed(
                cfg,
                requests(cfg, st, a).state,
                a.subrange(requests(cfg, st, a).consumed, a.len() as int) + b,
            ),
        ),
    decreases a.len(),
{
    let r = requests(cfg, st, a);
    let c = a + b;
    requests_consumed(cfg, st, a);
    let left = a.subrange(r.consumed, a.len() as int) + b;
    let q = relayed(cfg, r.state, left);
    match header_of(a, cfg.little) {
        Err(e) => {
            if e == WireError::Invalid {
                header_extend(a, b, cfg.little);
                assert(left =~= b);
                assert(r.out + q.out =~= c);
            } else {
                assert(left =~= c);
                assert(r.out + q.out =~= q.out);
            }
        },
        Ok(v) => {
            header_extend(a, b, cfg.little);
            let total = request_len(v.0, v.1);
            if total > MAX_REQUEST_BYTES {
                assert(left =~= b);
                assert(r.out + q.out =~= c);
            } else if a.len() < total || total <= 0 {
                assert(left =~= c);
                assert(r.out + q.out =~= q.out);
            } else {
                let raw = a.subrange(0, total);
                assert(c.subrange(0, total) =~= raw);
                let step = rewritten(cfg, st, v.0, raw, raw.subrange(v.1, total));
                let tail = a.subrange(total, a.len() as int);
                assert(c.subrange(total, c.len() as int) =~= tail + b);
                rewriting_keeps_framing(cfg, st, v.0, raw, raw.subrange(v.1, total));
                requests_extend(cfg, step.0, tail, b);
                let rest = requests(cfg, step.0, tail);
                requests_consumed(cfg, step.0, tail);
                assert(tail.subrange(rest.consumed, tail.len() as int) =~= a.subrange(
                    r.consumed,
                    a.len() as int,
                ));
                assert(step.1 + (rest.out + q.out) =~= (step.1 + rest.out) + q.out);
            }
        },
    }
}

/// Where a stream is cut does not matter: relaying `a + b` is relaying `a` and
/// then what `a` left over followed by `b`. Before the setup request the first
/// piece must not be empty.
pub proof fn relayed_extend(cfg: ReqConfig, st: ReqModel, a: Seq<u8>, b: Seq<u8>)
    requires
        st.setup_done || st.blind || a.len() > 0,
    ensures
        relayed(cfg, st, a + b) == relayed_then(
            relayed(cfg, st, a),
            relayed(
                cfg,
                relayed(cfg, st, a).state,
                a.subrange(relayed(cfg, st, a).consumed, a.len() as int) + b,
            ),
        ),
{
    let r = relayed(cfg, st, a);
    let c = a + b;
    relayed_consumed(cfg, st, a);
    let left = a.subrange(r.consumed, a.len() as int) + b;
    let q = relayed(cfg, r.state, left);
    if st.blind {
        assert(left =~= b);
        assert(r.out + q.out =~= c);
    } else if st.setup_done {
        requests_extend(cfg, st, a, b);
    } else if r.state.blind && !setup_complete(a, cfg.little) {
        assert(left =~= b);
        assert(r.out + q.out =~= c);
    } else if a[0] != crate::x11::wire::setup_byte(cfg.little) {
        assert(left =~= b);
        assert(r.out + q.out =~= c);
    } else if setup_complete(a, cfg.little) {
        let n = setup_len(a, cfg.little);
        assert(setup_len(c, cfg.little) == n);
        let st2 = ReqModel { setup_done: true, ..st };
        let tail = a.subrange(n, a.len() as int);
        assert(c.subrange(n, c.len() as int) =~= tail + b);
        assert(c.subrange(0, n) =~= a.subrange(0, n));
        requests_extend(cfg, st2, tail, b);
        let rest = requests(cfg, st2, tail);
        requests_consumed(cfg, st2, tail);
        assert(tail.subrange(rest.consumed, tail.len() as int) =~= a.subrange(
            r.consumed,
            a.len() as int,
        ));
        assert(a.subrange(0, n) + (rest.out + q.out) =~= (a.subrange(0, n) + rest.out) + q.out);
    } else {
        assert(left =~= c);
        assert(r.out + q.out =~= q.out);
    }
}

/// All pieces in a row.
pub open spec fn joined(chunks: Seq<Seq<u8>>) -> Seq<u8>
    decreases chunks.len(),
{
    if chunks.len() == 0 {
        seq![]
    } else {
        chunks[0] + joined(chunks.drop_first())
    }
}

/// What a request pump sends for the reads `chunks`, one after the other: the
/// state and the held bytes after, and everything sent.
pub open spec fn pumped(
    cfg: ReqConfig,
    st: ReqModel,
    held: Seq<u8>,
    chunks: Seq<Seq<u8>>,
) -> (ReqModel, Seq<u8>, Seq<u8>)
    decreases chunks.len(),
{
    if chunks.len() == 0 {
        (st, held, seq![])
    } else {
        let data = held + chunks[0];
        let r = relayed(cfg, st, data);
        let rest = pumped(
            cfg,
            r.state,
            data.subrange(r.consumed, data.len() as int),
            chunks.drop_first(),
        );
        (rest.0, rest.1, r.out + rest.2)
    }
}

/// The bytes a request pump sends do not depend on how the reads were cut: they
/// are those of the same bytes in one read. (An empty read ends a connection
/// and never reaches the pump.)
pub proof fn pump_ignores_read_boundaries(
    cfg: ReqConfig,
    st: ReqModel,
    held: Seq<u8>,
    chunks: Seq<Seq<u8>>,
)
    requires
        chunks.len() > 0,
        forall|i: int| 0 <= i < chunks.len() ==> (#[trigger] chunks[i]).len() > 0,
    ensures
        ({
            let all = held + joined(chunks);
            let whole = relayed(cfg, st, all);
            let p = pumped(cfg, st, held, chunks);
            &&& p.0 == whole.state
            &&& p.1 == all.subrange(whole.consumed, all.len() as int)
            &&& p.2 == whole.out
        }),
    decreases chunks.len(),
{
    let all = held + joined(chunks);
    let data = held + chunks[0];
    let r = relayed(cfg, st, data);
    relayed_consumed(cfg, st, data);
    let left = data.subrange(r.consumed, data.len() as int);
    let tail = chunks.drop_first();
    if tail.len() == 0 {
        assert(joined(tail) =~= seq![]);
        assert(all =~= data);
        assert(pumped(cfg, r.state, left, tail) == (r.state, left, Seq::<u8>::empty()));
        assert(r.out + Seq::<u8>::empty() =~= r.out);
    } else {
        assert forall|i: int| 0 <= i < tail.len() implies (#[trigger] tail[i]).len() > 0 by {
            assert(tail[i] == chunks[i + 1]);
        }
        pump_ignores_read_boundaries(cfg, r.state, left, tail);
        relayed_extend(cfg, st, data, joined(tail));
        assert(all =~= data + joined(tail));
        let rest = relayed(cfg, r.state, left + joined(tail));
        relayed_consumed(cfg, r.state, left + joined(tail));
        assert((left + joined(tail)).subrange(rest.consumed, (left + joined(tail)).len() as int)
            =~= all.subrange(r.consumed + rest.consumed, all.len() as int));
    }
}

/// Once a direction is blind it relays verbatim for good.
pub proof fn blind_is_verbatim(
    cfg: ReqConfig,
    st: ReqModel,
    ctx: Option<EmbedContext>,
    fst: FramerModel,
    s: Seq<u8>,
)
    requires
        st.blind,
        fst.blind,
    ensures
        relayed(cfg, st, s) == (Relayed { state: st, out: s, consumed: s.len() as int }),
        framed(ctx, cfg.little, fst, s) == (Framed {
            state: fst,
            out: s,
            consumed: s.len() as int,
        }),
{
}

pub(crate) proof fn bits_below_monotone(mask: int, m: nat, n: nat)
    requires
        m <= n,
    ensures
        0 <= bits_below(mask, m) <= bits_below(mask, n) <= n,
    decreases n,
{
    if n == 0 {
    } else if m < n {
        bits_below_monotone(mask, m, (n - 1) as nat);
    } else {
        bits_below_monotone(mask, (m - 1) as nat, (n - 1) as nat);
    }
}

/// `s` is exactly one request.
pub open spec fn one_request(s: Seq<u8>, little: bool) -> bool {
    header_of(s, little) matches Ok(v) && request_len(v.0, v.1) == s.len()
}

/// Every request of the client becomes exactly one request to the server,
/// whatever is rewritten, so sequence numbers stay intact.
pub proof fn one_request_for_each(
    cfg: ReqConfig,
    st: ReqModel,
    raw: Seq<u8>,
)
    requires
        one_request(raw, cfg.little),
    ensures
        ({
            let v = header_of(raw, cfg.little)->Ok_0;
            let sent = rewritten(
                cfg,
                st,
                v.0,
                raw,
                raw.subrange(v.1, raw.len() as int),
            ).1;
            &&& one_request(sent, cfg.little)
            &&& neutralized(cfg, st, v.0, raw.subrange(v.1, raw.len() as int))
                && v.0.major_opcode != CREATE_WINDOW_REQUEST ==> sent == noop(raw)
        }),
{
    reveal(rewritten);
    let v = header_of(raw, cfg.little)->Ok_0;
    let h = v.0;
    let body = raw.subrange(v.1, raw.len() as int);
    let sent = rewritten(cfg, st, h, raw, body).1;
    if sent == raw {
    } else if sent == noop(raw) {
        assert(u16_at(sent, 2, cfg.little) == u16_at(raw, 2, cfg.little));
        if v.1 == 8 {
            assert(u32_at(sent, 4, cfg.little) == u32_at(raw, 4, cfg.little));
        }
    } else if h.major_opcode == CREATE_WINDOW_REQUEST {
        assert(create_window_of(h, body, cfg.little) is Some);
        let mask = u32_at(body, 24, cfg.little);
        bits_below_monotone(mask, 9, 10);
        bits_below_monotone(mask, 10, 15);
        let before = 28 + 4 * bits_below(mask, 9);
        let after = 28 + 4 * bits_below(mask, 10);
        let end = 28 + 4 * bits_below(mask, 15);
        let n = 32 + (before - 28) + 4 + (end - after);
        assert(sent.len() == n);
        assert(n % 4 == 0 && n <= 100);
        assert(u16_at(sent, 2, cfg.little) == n / 4);
    } else {
        assert(h.major_opcode == CHANGE_WINDOW_ATTRIBUTES_REQUEST);
        assert(change_attributes_of(h, body, cfg.little) is Some);
        let mask = u32_at(body, 4, cfg.little);
        bits_below_monotone(mask, 14, 15);
        let n = 12 + 4 * bits_below(mask, 14);
        assert(sent =~= change_attributes_with(body, None, cfg.little));
        assert(sent.len() == n);
        assert(u16_at(sent, 2, cfg.little) == n / 4);
    }
}

proof fn units_consumed(ctx: Option<EmbedContext>, little: bool, s: Seq<u8>)
    ensures
        0 <= units(ctx, little, s).consumed <= s.len(),
    decreases s.len(),
{
    if s.len() >= 32 && 0 < unit_len(s, little) <= s.len() {
        units_consumed(ctx, little, s.subrange(unit_len(s, little), s.len() as int));
    }
}

pub(crate) proof fn framed_consumed(
    ctx: Option<EmbedContext>,
    little: bool,
    st: FramerModel,
    s: Seq<u8>,
)
    ensures
        0 <= framed(ctx, little, st, s).consumed <= s.len(),
{
    units_consumed(ctx, little, s);
    if s.len() >= 8 && s.len() >= setup_reply_len(s, little) {
        units_consumed(ctx, little, s.subrange(setup_reply_len(s, little), s.len() as int));
    }
}

/// First one outcome, then another.
pub open spec fn framed_then(first: Framed, second: Framed) -> Framed {
    Framed {
        state: second.state,
        out: first.out + second.out,
        consumed: first.consumed + second.consumed,
    }
}

proof fn units_extend(ctx: Option<EmbedContext>, little: bool, a: Seq<u8>, b: Seq<u8>)
    ensures
        units(ctx, little, a).state.setup_done,
        units(ctx, little, a + b) == framed_then(
            units(ctx, little, a),
            framed(
                ctx,
                little,
                units(ctx, little, a).state,
                a.subrange(units(ctx, little, a).consumed, a.len() as int) + b,
            ),
        ),
    decreases a.len(),
{
    let r = units(ctx, little, a);
    let c = a + b;
    units_consumed(ctx, little, a);
    let left = a.subrange(r.consumed, a.len() as int) + b;
    let q = framed(ctx, little, r.state, left);
    if a.len() < 32 {
        assert(left =~= c);
        assert(r.out + q.out =~= q.out);
    } else {
        let total = unit_len(a, little);
        assert(unit_len(c, little) == total);
        if total > MAX_REQUEST_BYTES {
            assert(left =~= b);
            assert(r.out + q.out =~= c);
        } else if a.len() < total || total <= 0 {
            assert(left =~= c);
            assert(r.out + q.out =~= q.out);
        } else {
            let unit = a.subrange(0, total);
            let tail = a.subrange(total, a.len() as int);
            assert(c.subrange(0, total) =~= unit);
            assert(c.subrange(total, c.len() as int) =~= tail + b);
            assert(configure_notify_of(c, little) == configure_notify_of(a, little));
            assert(stale_configure(ctx, c, little) == stale_configure(ctx, a, little));
            units_extend(ctx, little, tail, b);
            units_consumed(ctx, little, tail);
            let rest = units(ctx, little, tail);
            assert(tail.subrange(rest.consumed, tail.len() as int) =~= a.subrange(
                r.consumed,
                a.len() as int,
            ));
            assert(unit + (rest.out + q.out) =~= (unit + rest.out) + q.out);
        }
    }
}

/// Where the server's stream is cut does not matter, as long as the published
/// geometry stays.
pub proof fn framed_extend(
    ctx: Option<EmbedContext>,
    little: bool,
    st: FramerModel,
    a: Seq<u8>,
    b: Seq<u8>,
)
    ensures
        framed(ctx, little, st, a + b) == framed_then(
            framed(ctx, little, st, a),
            framed(
                ctx,
                little,
                framed(ctx, little, st, a).state,
                a.subrange(framed(ctx, little, st, a).consumed, a.len() as int) + b,
            ),
        ),
{
    let r = framed(ctx, little, st, a);
    let c = a + b;
    framed_consumed(ctx, little, st, a);
    let left = a.subrange(r.consumed, a.len() as int) + b;
    let q = framed(ctx, little, r.state, left);
    if st.blind {
        assert(left =~= b);
        assert(r.out + q.out =~= c);
    } else if st.setup_done {
        units_extend(ctx, little, a, b);
    } else if a.len() < 8 {
        assert(left =~= c);
        assert(r.out + q.out =~= q.out);
    } else if a[0] > 2 {
        assert(left =~= b);
        assert(r.out + q.out =~= c);
    } else {
        let n = setup_reply_len(a, little);
        assert(setup_reply_len(c, little) == n);
        if a.len() < n {
            assert(left =~= c);
            assert(r.out + q.out =~= q.out);
        } else {
            let head = a.subrange(0, n);
            let tail = a.subrange(n, a.len() as int);
            assert(c.subrange(0, n) =~= head);
            assert(c.subrange(n, c.len() as int) =~= tail + b);
            units_extend(ctx, little, tail, b);
            units_consumed(ctx, little, tail);
            let rest = units(ctx, little, tail);
            assert(tail.subrange(rest.consumed, tail.len() as int) =~= a.subrange(
                r.consumed,
                a.len() as int,
            ));
            assert(head + (rest.out + q.out) =~= (head + rest.out) + q.out);
        }
    }
}

/// What a reply pump sends for the reads `chunks`, one after the other.
pub open spec fn pumped_replies(
    ctx: Option<EmbedContext>,
    little: bool,
    st: FramerModel,
    held: Seq<u8>,
    chunks: Seq<Seq<u8>>,
) -> (FramerModel, Seq<u8>, Seq<u8>)
    decreases chunks.len(),
{
    if chunks.len() == 0 {
        (st, held, seq![])
    } else {
        let data = held + chunks[0];
        let r = framed(ctx, little, st, data);
        let rest = pumped_replies(
            ctx,
            little,
            r.state,
            data.subrange(r.consumed, data.len() as int),
            chunks.drop_first(),
        );
        (rest.0, rest.1, r.out + rest.2)
    }
}

/// The bytes a reply pump sends do not depend on how the reads were cut.
pub proof fn reply_pump_ignores_read_boundaries(
    ctx: Option<EmbedContext>,
    little: bool,
    st: FramerModel,
    held: Seq<u8>,
    chunks: Seq<Seq<u8>>,
)
    requires
        chunks.len() > 0,
    ensures
        ({
            let all = held + joined(chunks);
            let whole = framed(ctx, little, st, all);
            let p = pumped_replies(ctx, little, st, held, chunks);
            &&& p.0 == whole.state
            &&& p.1 == all.subrange(whole.consumed, all.len() as int)
            &&& p.2 == whole.out
        }),
    decreases chunks.len(),
{
    let all = held + joined(chunks);
    let data = held + chunks[0];
    let r = framed(ctx, little, st, data);
    framed_consumed(ctx, little, st, data);
    let left = data.subrange(r.consumed, data.len() as int);
    let tail = chunks.drop_first();
    if tail.len() == 0 {
        assert(joined(tail) =~= seq![]);
        assert(all =~= data);
        assert(pumped_replies(ctx, little, r.state, left, tail) == (
            r.state,
            left,
            Seq::<u8>::empty(),
        ));
        assert(r.out + Seq::<u8>::empty() =~= r.out);
    } else {
        reply_pump_ignores_read_boundaries(ctx, little, r.state, left, tail);
        framed_extend(ctx, little, st, data, joined(tail));
        assert(all =~= data + joined(tail));
        let rest = framed(ctx, little, r.state, left + joined(tail));
        framed_consumed(ctx, little, r.state, left + joined(tail));
        assert((left + joined(tail)).subrange(rest.consumed, (left + joined(tail)).len() as int)
            =~= all.subrange(r.consumed + rest.consumed, all.len() as int));
    }
}

/// A host notification of the published size is never dropped, and neither is
/// any other window's: what the framer drops is a stale host notification.
pub proof fn settled_notify_is_forwarded(ctx: EmbedContext, unit: Seq<u8>, little: bool)
    requires
        unit.len() == 32,
        unit_len(unit, little) == 32,
        ({
            let n = configure_notify_of(unit, little);
            n.window != ctx.video_host || (n.width, n.height) == ctx.published
        }),
    ensures
        units(Some(ctx), little, unit).out == unit,
        units(Some(ctx), little, unit).consumed == 32,
{
    let tail = unit.subrange(32, 32);
    assert(units(Some(ctx), little, tail).consumed == 0);
    assert(unit.subrange(0, 32) =~= unit);
    assert(unit + units(Some(ctx), little, tail).out =~= unit);
}

proof fn consumed_requests_are_answered(cfg: ReqConfig, st: ReqModel, s: Seq<u8>)
    ensures
        requests(cfg, st, s).consumed > 0 ==> requests(cfg, st, s).out.len() > 0,
    decreases s.len(),
{
    if let Ok(v) = header_of(s, cfg.little) {
        let total = request_len(v.0, v.1);
        if 0 < total <= s.len() && total <= MAX_REQUEST_BYTES {
            let raw = s.subrange(0, total);
            let h = header_of(raw, cfg.little);
            assert(u16_at(raw, 2, cfg.little) == u16_at(s, 2, cfg.little));
            if v.1 == 8 {
                assert(u32_at(raw, 4, cfg.little) == u32_at(s, 4, cfg.little));
            }
            assert(one_request(raw, cfg.little));
            one_request_for_each(cfg, st, raw);
        }
    }
}

/// Whenever a request pump is done with some bytes it has bytes to send, so the
/// file descriptors that go along with them are never left without a message.
pub proof fn consumed_bytes_are_sent(cfg: ReqConfig, st: ReqModel, s: Seq<u8>)
    ensures
        relayed(cfg, st, s).consumed > 0 ==> relayed(cfg, st, s).out.len() > 0,
{
    consumed_requests_are_answered(cfg, st, s);
}

} // verus!
