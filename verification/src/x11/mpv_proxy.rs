//! X11 proxy mpv connects to instead of the real server.
//!
//! Both directions are framed. The app is the sole windowing authority; mpv
//! keeps only rendering, and the proxy enforces that:
//!
//! Client to server ([`ReqParser`]), enforcement:
//! - capture mpv's embed sub-window from `CreateWindow` parented to the app's
//!   video host, solely to key the rewrites below;
//! - neutralize `ConfigureWindow`/`CirculateWindow` on the embed sub-window,
//!   so only the app sizes and stacks it;
//! - strip the `cursor` value from `ChangeWindowAttributes` and neutralize
//!   XFixes `HideCursor`/`ShowCursor`, so the video area inherits the
//!   app-controlled host cursor.
//!
//! Client to server, defensive backstop:
//! - force `override_redirect` on a root-parented `CreateWindow`;
//! - neutralize `SetInputFocus`, `ConfigureWindow` on a root-parented window,
//!   and `_NET_WM_STATE` traffic.
//!
//! Server to client ([`EventFramer`]), coalescing: drop a video-host
//! `ConfigureNotify` whose size differs from the geometry the app last
//! published ([`publish_host_geometry`]).

use std::collections::HashSet;
use vstd::prelude::*;
use vstd::slice::slice_subrange;

use crate::x11::wire::append;
use crate::x11::wire::append_range;
use crate::x11::wire::change_attributes_of;
use crate::x11::wire::change_attributes_with;
use crate::x11::wire::change_property_of;
use crate::x11::wire::configure_notify_of;
use crate::x11::wire::configure_window_of;
use crate::x11::wire::create_window_of;
use crate::x11::wire::create_window_overriding;
use crate::x11::wire::header_of;
use crate::x11::wire::native_little;
use crate::x11::wire::parse_change_attributes;
use crate::x11::wire::parse_change_property;
use crate::x11::wire::parse_configure_notify;
use crate::x11::wire::parse_configure_window;
use crate::x11::wire::parse_create_window;
use crate::x11::wire::parse_request_header;
use crate::x11::wire::parse_send_event;
use crate::x11::wire::sent_event_of;
use crate::x11::wire::serialize_change_attributes;
use crate::x11::wire::serialize_create_window;
use crate::x11::wire::setup_byte;
use crate::x11::wire::setup_complete;
use crate::x11::wire::setup_len;
use crate::x11::wire::setup_remaining;
use crate::x11::wire::u16_at;
use crate::x11::wire::u32_at;
use crate::x11::wire::NativeOrder;
use crate::x11::wire::RequestHeader;
use crate::x11::wire::WireError;
use crate::x11::wire::CHANGE_PROPERTY_REQUEST;
use crate::x11::wire::CHANGE_WINDOW_ATTRIBUTES_REQUEST;
use crate::x11::wire::CIRCULATE_WINDOW_REQUEST;
use crate::x11::wire::CLIENT_MESSAGE_EVENT;
use crate::x11::wire::CONFIGURE_NOTIFY_EVENT;
use crate::x11::wire::CONFIGURE_WINDOW_REQUEST;
use crate::x11::wire::CREATE_WINDOW_REQUEST;
use crate::x11::wire::GE_GENERIC_EVENT;
use crate::x11::wire::HIDE_CURSOR_REQUEST;
use crate::x11::wire::NO_OPERATION_REQUEST;
use crate::x11::wire::SEND_EVENT_REQUEST;
use crate::x11::wire::SET_INPUT_FOCUS_REQUEST;
use crate::x11::wire::SHOW_CURSOR_REQUEST;

verus! {

/// Ceiling on a single request's or reply's byte length; past it the stream is
/// taken to be desynchronised and relayed verbatim rather than buffered without
/// bound.
pub const MAX_REQUEST_BYTES: u64 = 67108864;

/// The app's windowing context, as the proxy needs it.
#[derive(Clone, Copy, PartialEq, Eq, Debug)]
pub struct EmbedContext {
    pub video_host: u32,
    pub net_wm_state: u32,
    pub xfixes_opcode: Option<u8>,
    /// The video host size (width, height) the app last committed; the event
    /// framer forwards only `ConfigureNotify` matching it.
    pub published: (u16, u16),
}

/// What both directions of a connection and the app share.
pub struct SharedEmbed {
    pub ctx: Option<EmbedContext>,
    /// mpv's embed sub-window, captured from `CreateWindow`; 0 is unknown.
    pub embed_window: u32,
}

impl SharedEmbed {
    pub fn new() -> (s: Self)
        ensures
            s.ctx is None,
            s.embed_window == 0,
    {
        SharedEmbed { ctx: None, embed_window: 0 }
    }
}

/// Hand the proxy the app's windowing context. Must run before mpv connects;
/// `width`/`height` seed the published host size.
pub fn set_embed_context(
    embed: &mut SharedEmbed,
    video_host: u32,
    net_wm_state: u32,
    xfixes_opcode: Option<u8>,
    width: u16,
    height: u16,
)
    ensures
        final(embed).ctx == Some(
            EmbedContext { video_host, net_wm_state, xfixes_opcode, published: (width, height) },
        ),
        final(embed).embed_window == old(embed).embed_window,
{
    embed.ctx = Some(
        EmbedContext { video_host, net_wm_state, xfixes_opcode, published: (width, height) },
    );
}

/// Publish the video host size the app is about to commit. Must be called
/// before the `ConfigureWindow` that applies it reaches the server, so the
/// resulting `ConfigureNotify` is never mistaken for a stale one and dropped.
pub fn publish_host_geometry(embed: &mut SharedEmbed, width: u16, height: u16)
    ensures
        final(embed).embed_window == old(embed).embed_window,
        final(embed).ctx == match old(embed).ctx {
            Some(c) => Some(EmbedContext { published: (width, height), ..c }),
            None => None,
        },
{
    if let Some(c) = embed.ctx {
        embed.ctx = Some(
            EmbedContext {
                video_host: c.video_host,
                net_wm_state: c.net_wm_state,
                xfixes_opcode: c.xfixes_opcode,
                published: (width, height),
            },
        );
    }
}

/// The same request as a `NoOperation`, which accepts any request length and
/// has no reply, so sequence numbers stay intact.
pub open spec fn noop(raw: Seq<u8>) -> Seq<u8> {
    raw.update(0, NO_OPERATION_REQUEST)
}

/// Same-length rewrite to `NoOperation`.
fn emit_noop(raw: &[u8], out: &mut Vec<u8>)
    requires
        raw@.len() > 0,
    ensures
        final(out)@ == old(out)@ + noop(raw@),
{
    let ghost before = out@;
    out.push(NO_OPERATION_REQUEST);
    append_range(out, raw, 1, raw.len());
    assert(out@ =~= before + noop(raw@));
}

/// What a request parser is set up with.
pub struct ReqConfig {
    pub roots: Seq<u32>,
    pub video_host: Option<u32>,
    pub net_wm_state: Option<u32>,
    pub xfixes_opcode: Option<u8>,
    pub little: bool,
}

/// What a request parser has seen so far.
pub struct ReqModel {
    pub setup_done: bool,
    pub toplevels: Set<u32>,
    pub embed_window: u32,
    pub blind: bool,
}

/// The outcome of relaying some bytes: the state after, the bytes sent on, and
/// how many of the bytes are done with.
pub struct Relayed {
    pub state: ReqModel,
    pub out: Seq<u8>,
    pub consumed: int,
}

/// A window only the app may configure.
pub open spec fn owned_window(st: ReqModel, window: u32) -> bool {
    (st.embed_window != 0 && window == st.embed_window) || st.toplevels.contains(window)
}

/// Whether the request becomes a `NoOperation`.
pub open spec fn neutralized(
    cfg: ReqConfig,
    st: ReqModel,
    h: RequestHeader,
    body: Seq<u8>,
) -> bool {
    let op = h.major_opcode;
    ||| op == SET_INPUT_FOCUS_REQUEST
    ||| op == CIRCULATE_WINDOW_REQUEST
    ||| {
        &&& op == CONFIGURE_WINDOW_REQUEST
        &&& configure_window_of(h, body, cfg.little) matches Some(w)
        &&& owned_window(st, w)
    }
    ||| {
        &&& op == CHANGE_PROPERTY_REQUEST
        &&& cfg.net_wm_state matches Some(atom)
        &&& change_property_of(h, body, cfg.little) matches Some(wp)
        &&& wp.1 == atom
        &&& st.toplevels.contains(wp.0)
    }
    ||| {
        &&& op == SEND_EVENT_REQUEST
        &&& cfg.net_wm_state matches Some(atom)
        &&& sent_event_of(h, body) matches Some(event)
        &&& event[0] % 128 == CLIENT_MESSAGE_EVENT
        &&& u32_at(event, 8, cfg.little) == atom
    }
    ||| {
        &&& op != CREATE_WINDOW_REQUEST
        &&& op != CHANGE_WINDOW_ATTRIBUTES_REQUEST
        &&& cfg.xfixes_opcode == Some(op)
        &&& (h.minor_opcode == HIDE_CURSOR_REQUEST || h.minor_opcode == SHOW_CURSOR_REQUEST)
    }
}

/// What one whole request turns into: the state after it, and the bytes sent on
/// in its place.
#[verifier::opaque]
pub open spec fn rewritten(
    cfg: ReqConfig,
    st: ReqModel,
    h: RequestHeader,
    raw: Seq<u8>,
    body: Seq<u8>,
) -> (ReqModel, Seq<u8>) {
    if h.major_opcode == CREATE_WINDOW_REQUEST {
        match create_window_of(h, body, cfg.little) {
            Some(cw) => if cfg.video_host == Some(cw.parent) {
                (ReqModel { embed_window: cw.wid, ..st }, raw)
            } else if cfg.roots.contains(cw.parent) {
                (
                    ReqModel { toplevels: st.toplevels.insert(cw.wid), ..st },
                    create_window_overriding(h, body, 1, cfg.little),
                )
            } else {
                (st, raw)
            },
            None => (st, raw),
        }
    } else if neutralized(cfg, st, h, body) {
        (st, noop(raw))
    } else if h.major_opcode == CHANGE_WINDOW_ATTRIBUTES_REQUEST && change_attributes_of(
        h,
        body,
        cfg.little,
    ) matches Some(Some(_)) {
        (st, change_attributes_with(body, None, cfg.little))
    } else {
        (st, raw)
    }
}

/// Length in bytes of the request that starts with this header.
pub open spec fn request_len(h: RequestHeader, header_len: int) -> int {
    header_len + 4 * h.remaining_length
}

/// The state of a connection given up on.
pub open spec fn blinded(st: ReqModel) -> ReqModel {
    ReqModel { blind: true, ..st }
}

/// Relaying `s`, which starts at a request boundary: every whole request is
/// rewritten and sent on, a trailing partial one is kept back, and bytes that
/// cannot be a request make the rest of the stream go through verbatim.
pub open spec fn requests(cfg: ReqConfig, st: ReqModel, s: Seq<u8>) -> Relayed
    decreases s.len(),
{
    match header_of(s, cfg.little) {
        Err(WireError::InsufficientData) => Relayed { state: st, out: seq![], consumed: 0 },
        Err(WireError::Invalid) => Relayed {
            state: blinded(st),
            out: s,
            consumed: s.len() as int,
        },
        Ok(v) => {
            let total = request_len(v.0, v.1);
            if total > MAX_REQUEST_BYTES {
                Relayed { state: blinded(st), out: s, consumed: s.len() as int }
            } else if s.len() < total || total <= 0 {
                Relayed { state: st, out: seq![], consumed: 0 }
            } else {
                let raw = s.subrange(0, total);
                let step = rewritten(cfg, st, v.0, raw, raw.subrange(v.1, total));
                let rest = requests(cfg, step.0, s.subrange(total, s.len() as int));
                Relayed {
                    state: rest.state,
                    out: step.1 + rest.out,
                    consumed: total + rest.consumed,
                }
            }
        },
    }
}

/// Relaying `s` from any state: a blind connection passes everything through, a
/// fresh one opens with the setup request, in this machine's byte order.
pub open spec fn relayed(cfg: ReqConfig, st: ReqModel, s: Seq<u8>) -> Relayed {
    if st.blind {
        Relayed { state: st, out: s, consumed: s.len() as int }
    } else if st.setup_done {
        requests(cfg, st, s)
    } else if s.len() == 0 || s[0] != setup_byte(cfg.little) {
        Relayed { state: blinded(st), out: s, consumed: s.len() as int }
    } else if setup_complete(s, cfg.little) {
        let n = setup_len(s, cfg.little);
        let rest = requests(
            cfg,
            ReqModel { setup_done: true, ..st },
            s.subrange(n, s.len() as int),
        );
        Relayed { state: rest.state, out: s.subrange(0, n) + rest.out, consumed: n + rest.consumed }
    } else {
        Relayed { state: st, out: seq![], consumed: 0 }
    }
}

fn contains(v: &Vec<u32>, x: u32) -> (r: bool)
    ensures
        r == v@.contains(x),
{
    let mut i: usize = 0;
    while i < v.len()
        invariant
            i <= v@.len(),
            forall|j: int| 0 <= j < i ==> v@[j] != x,
        decreases v@.len() - i,
    {
        if v[i] == x {
            return true;
        }
        i += 1;
    }
    false
}

/// What stands at the front of the bytes that are left.
enum NextRequest {
    /// Not yet a whole request.
    Partial,
    /// Nothing that can be a request.
    Garbled,
    /// A request of this many bytes, now sent on.
    Relayed(usize),
}

/// Client to server framer and rewriter.
pub struct ReqParser {
    order: NativeOrder,
    setup_done: bool,
    roots: Vec<u32>,
    toplevels: HashSet<u32>,
    video_host: Option<u32>,
    net_wm_state: Option<u32>,
    xfixes_opcode: Option<u8>,
}

impl ReqParser {
    /// What the parser was set up with.
    pub closed spec fn config(&self) -> ReqConfig {
        ReqConfig {
            roots: self.roots@,
            video_host: self.video_host,
            net_wm_state: self.net_wm_state,
            xfixes_opcode: self.xfixes_opcode,
            little: self.order.little(),
        }
    }

    pub closed spec fn setup_done(&self) -> bool {
        self.setup_done
    }

    /// Root-parented windows mpv created (would-be top-levels).
    pub closed spec fn toplevels(&self) -> Set<u32> {
        self.toplevels@
    }

    /// What the parser and the connection it belongs to know.
    pub open spec fn model(&self, embed: SharedEmbed, blind: bool) -> ReqModel {
        ReqModel {
            setup_done: self.setup_done(),
            toplevels: self.toplevels(),
            embed_window: embed.embed_window,
            blind,
        }
    }

    /// A parser for a fresh connection. `roots` are the root windows of the
    /// real server, one per screen; the context is read once, here.
    pub fn new(roots: Vec<u32>, embed: &SharedEmbed) -> (p: Self)
        ensures
            !p.setup_done(),
            p.toplevels() == Set::<u32>::empty(),
            p.config().roots == roots@,
            p.config().video_host == match embed.ctx {
                Some(c) => Some(c.video_host),
                None => None,
            },
            p.config().net_wm_state == match embed.ctx {
                Some(c) => Some(c.net_wm_state),
                None => None,
            },
            p.config().xfixes_opcode == match embed.ctx {
                Some(c) => c.xfixes_opcode,
                None => None,
            },
            p.config().little == native_little(),
    {
        let (video_host, net_wm_state, xfixes_opcode) = match embed.ctx {
            Some(c) => (Some(c.video_host), Some(c.net_wm_state), c.xfixes_opcode),
            None => (None, None, None),
        };
        ReqParser {
            order: NativeOrder::detect(),
            setup_done: false,
            roots,
            toplevels: HashSet::new(),
            video_host,
            net_wm_state,
            xfixes_opcode,
        }
    }

    /// Append the leading complete requests of `input` to `out` (rewritten
    /// where needed) and return how many `input` bytes were consumed. A
    /// trailing partial request is left for the next call.
    pub fn process(
        &mut self,
        embed: &mut SharedEmbed,
        blind: &mut bool,
        input: &[u8],
        out: &mut Vec<u8>,
    ) -> (consumed: usize)
        ensures
            consumed <= input@.len(),
            final(self).config() == old(self).config(),
            final(embed).ctx == old(embed).ctx,
            ({
                let r = relayed(
                    old(self).config(),
                    old(self).model(*old(embed), *old(blind)),
                    input@,
                );
                &&& final(self).model(*final(embed), *final(blind)) == r.state
                &&& final(out)@ == old(out)@ + r.out
                &&& consumed == r.consumed
            }),
    {
        if *blind {
            append(out, input);
            return input.len();
        }
        if self.setup_done {
            return self.process_requests(embed, blind, input, out);
        }
        if input.len() == 0 || input[0] != self.order.setup_byte() {
            *blind = true;
            append(out, input);
            return input.len();
        }
        let ghost out0 = out@;
        match setup_remaining(self.order, input) {
            Ok(remaining) => {
                let total: usize = input.len() - remaining;
                append_range(out, input, 0, total);
                self.setup_done = true;
                let n: usize = self.process_requests(
                    embed,
                    blind,
                    slice_subrange(input, total, input.len()),
                    out,
                );
                proof {
                    let rest = requests(
                        old(self).config(),
                        ReqModel {
                            setup_done: true,
                            ..old(self).model(*old(embed), *old(blind))
                        },
                        input@.subrange(total as int, input@.len() as int),
                    );
                    assert(out@ =~= out0 + (input@.subrange(0, total as int) + rest.out));
                }
                total + n
            },
            Err(_) => {
                assert(out@ =~= out0 + Seq::<u8>::empty());
                0
            },
        }
    }

    /// [`ReqParser::process`] past the setup request.
    fn process_requests(
        &mut self,
        embed: &mut SharedEmbed,
        blind: &mut bool,
        input: &[u8],
        out: &mut Vec<u8>,
    ) -> (consumed: usize)
        requires
            !*old(blind),
            old(self).setup_done(),
        ensures
            consumed <= input@.len(),
            final(self).config() == old(self).config(),
            final(embed).ctx == old(embed).ctx,
            ({
                let r = requests(
                    old(self).config(),
                    old(self).model(*old(embed), *old(blind)),
                    input@,
                );
                &&& final(self).model(*final(embed), *final(blind)) == r.state
                &&& final(out)@ == old(out)@ + r.out
                &&& consumed == r.consumed
            }),
    {
        let ghost cfg = self.config();
        let ghost target = requests(cfg, self.model(*embed, false), input@);
        let ghost out0 = out@;
        let mut off: usize = 0;
        let ghost mut done: Seq<u8> = Seq::empty();
        proof {
            assert(input@.subrange(0, input@.len() as int) =~= input@);
            assert(done + target.out =~= target.out);
            assert(out0 + done =~= out0);
        }
        loop
            invariant
                cfg == old(self).config(),
                target == requests(cfg, old(self).model(*old(embed), *old(blind)), input@),
                out0 == old(out)@,
                !*blind,
                self.setup_done(),
                self.config() == cfg,
                embed.ctx == old(embed).ctx,
                off <= input@.len(),
                out@ == out0 + done,
                ({
                    let rest = requests(
                        cfg,
                        self.model(*embed, false),
                        input@.subrange(off as int, input@.len() as int),
                    );
                    &&& target.state == rest.state
                    &&& target.out == done + rest.out
                    &&& target.consumed == off + rest.consumed
                }),
            decreases input@.len() - off,
        {
            let avail = slice_subrange(input, off, input.len());
            match self.next_request(embed, avail, out) {
                NextRequest::Partial => {
                    assert(done + Seq::<u8>::empty() =~= done);
                    return off;
                },
                NextRequest::Garbled => {
                    *blind = true;
                    append(out, avail);
                    assert(out@ =~= out0 + target.out);
                    return input.len();
                },
                NextRequest::Relayed(total) => {
                    proof {
                        let emitted = out@.subrange((out0 + done).len() as int, out@.len() as int);
                        let tail = requests(
                            cfg,
                            self.model(*embed, false),
                            avail@.subrange(total as int, avail@.len() as int),
                        );
                        assert(input@.subrange(off + total, input@.len() as int)
                            =~= avail@.subrange(total as int, avail@.len() as int));
                        assert(done + (emitted + tail.out) =~= (done + emitted) + tail.out);
                        done = done + emitted;
                        assert(out@ =~= out0 + done);
                    }
                    off += total;
                },
            }
        }
    }

    /// Relays the request at the front of `avail`, where there is a whole one.
    fn next_request(&mut self, embed: &mut SharedEmbed, avail: &[u8], out: &mut Vec<u8>) -> (next:
        NextRequest)
        requires
            old(self).setup_done(),
        ensures
            final(self).config() == old(self).config(),
            final(self).setup_done(),
            final(embed).ctx == old(embed).ctx,
            ({
                let cfg = old(self).config();
                let before = old(self).model(*old(embed), false);
                let after = final(self).model(*final(embed), false);
                let r = requests(cfg, before, avail@);
                match next {
                    NextRequest::Partial => {
                        &&& after == before
                        &&& final(out)@ == old(out)@
                        &&& r == (Relayed { state: before, out: seq![], consumed: 0 })
                    },
                    NextRequest::Garbled => {
                        &&& after == before
                        &&& final(out)@ == old(out)@
                        &&& r == (Relayed {
                            state: blinded(before),
                            out: avail@,
                            consumed: avail@.len() as int,
                        })
                    },
                    NextRequest::Relayed(total) => {
                        let emitted = final(out)@.subrange(
                            old(out)@.len() as int,
                            final(out)@.len() as int,
                        );
                        let rest = requests(
                            cfg,
                            after,
                            avail@.subrange(total as int, avail@.len() as int),
                        );
                        &&& 0 < total <= avail@.len()
                        &&& old(out)@.len() <= final(out)@.len()
                        &&& final(out)@ == old(out)@ + emitted
                        &&& r == (Relayed {
                            state: rest.state,
                            out: emitted + rest.out,
                            consumed: total + rest.consumed,
                        })
                    },
                }
            }),
    {
        let (header, body_len) = match parse_request_header(self.order, avail) {
            Ok(v) => v,
            Err(WireError::InsufficientData) => return NextRequest::Partial,
            Err(WireError::Invalid) => return NextRequest::Garbled,
        };
        let header_len: usize = avail.len() - body_len;
        let total: u64 = header.remaining_length as u64 * 4 + header_len as u64;
        if total > MAX_REQUEST_BYTES {
            return NextRequest::Garbled;
        }
        if (avail.len() as u64) < total {
            return NextRequest::Partial;
        }
        let total: usize = total as usize;
        let raw = slice_subrange(avail, 0, total);
        let body = slice_subrange(raw, header_len, total);
        let ghost before = self.model(*embed, false);
        let ghost out0 = out@;
        self.emit(embed, header, body, raw, out);
        proof {
            let step = rewritten(self.config(), before, header, raw@, body@);
            assert(step.1 =~= out@.subrange(out0.len() as int, out@.len() as int));
        }
        NextRequest::Relayed(total)
    }

    /// Appends what one whole request turns into.
    fn emit(
        &mut self,
        embed: &mut SharedEmbed,
        header: RequestHeader,
        body: &[u8],
        raw: &[u8],
        out: &mut Vec<u8>,
    )
        requires
            raw@.len() > 0,
        ensures
            final(self).config() == old(self).config(),
            final(self).setup_done() == old(self).setup_done(),
            final(embed).ctx == old(embed).ctx,
            forall|blind: bool|
                {
                    let step = rewritten(
                        old(self).config(),
                        #[trigger] old(self).model(*old(embed), blind),
                        header,
                        raw@,
                        body@,
                    );
                    &&& final(self).model(*final(embed), blind) == step.0
                    &&& final(out)@ == old(out)@ + step.1
                },
    {
        reveal(rewritten);
        let op = header.major_opcode;
        if op == CREATE_WINDOW_REQUEST {
            self.emit_create_window(embed, header, body, raw, out);
        } else if op == SET_INPUT_FOCUS_REQUEST || op == CIRCULATE_WINDOW_REQUEST {
            emit_noop(raw, out);
        } else if op == CONFIGURE_WINDOW_REQUEST && self.targets_owned(embed, header, body) {
            emit_noop(raw, out);
        } else if op == CHANGE_PROPERTY_REQUEST && self.is_wm_state_property(header, body) {
            emit_noop(raw, out);
        } else if op == SEND_EVENT_REQUEST && self.is_wm_state_message(header, body) {
            emit_noop(raw, out);
        } else if op == CHANGE_WINDOW_ATTRIBUTES_REQUEST {
            self.emit_change_attributes(header, body, raw, out);
        } else if self.is_xfixes_cursor(op, header.minor_opcode) {
            emit_noop(raw, out);
        } else {
            append(out, raw);
        }
    }

    fn emit_create_window(
        &mut self,
        embed: &mut SharedEmbed,
        header: RequestHeader,
        body: &[u8],
        raw: &[u8],
        out: &mut Vec<u8>,
    )
        requires
            header.major_opcode == CREATE_WINDOW_REQUEST,
        ensures
            final(self).config() == old(self).config(),
            final(self).setup_done() == old(self).setup_done(),
            final(embed).ctx == old(embed).ctx,
            forall|blind: bool|
                {
                    let step = rewritten(
                        old(self).config(),
                        #[trigger] old(self).model(*old(embed), blind),
                        header,
                        raw@,
                        body@,
                    );
                    &&& final(self).model(*final(embed), blind) == step.0
                    &&& final(out)@ == old(out)@ + step.1
                },
    {
        broadcast use vstd::std_specs::hash::group_hash_axioms;

        reveal(rewritten);
        let req = match parse_create_window(self.order, header, body) {
            Some(req) => req,
            None => {
                append(out, raw);
                return;
            },
        };
        if self.video_host == Some(req.parent) {
            // mpv sends this request before any that names the window, so the
            // capture always precedes the requests it neutralizes.
            embed.embed_window = req.wid;
            append(out, raw);
            return;
        }
        if !contains(&self.roots, req.parent) {
            append(out, raw);
            return;
        }
        self.toplevels.insert(req.wid);
        let bytes = serialize_create_window(self.order, header, body, 1);
        append(out, bytes.as_slice());
    }

    /// The app owns the cursor: strip the `cursor` value so the video area
    /// inherits the host cursor.
    fn emit_change_attributes(
        &self,
        header: RequestHeader,
        body: &[u8],
        raw: &[u8],
        out: &mut Vec<u8>,
    )
        requires
            header.major_opcode == CHANGE_WINDOW_ATTRIBUTES_REQUEST,
        ensures
            final(out)@ == old(out)@ + (if change_attributes_of(
                header,
                body@,
                self.config().little,
            ) matches Some(Some(_)) {
                change_attributes_with(body@, None, self.config().little)
            } else {
                raw@
            }),
    {
        match parse_change_attributes(self.order, header, body) {
            Some(Some(_)) => {
                let bytes = serialize_change_attributes(self.order, header, body, None);
                append(out, bytes.as_slice());
            },
            _ => append(out, raw),
        }
    }

    fn targets_owned(&self, embed: &SharedEmbed, header: RequestHeader, body: &[u8]) -> (r: bool)
        ensures
            r == (configure_window_of(header, body@, self.config().little) matches Some(w) && ((
            embed.embed_window != 0 && w == embed.embed_window) || self.toplevels().contains(w))),
    {
        broadcast use vstd::std_specs::hash::group_hash_axioms;

        match parse_configure_window(self.order, header, body) {
            Some(w) => (embed.embed_window != 0 && w == embed.embed_window)
                || self.toplevels.contains(&w),
            None => false,
        }
    }

    fn is_wm_state_property(&self, header: RequestHeader, body: &[u8]) -> (r: bool)
        ensures
            r == (self.config().net_wm_state matches Some(atom) && change_property_of(
                header,
                body@,
                self.config().little,
            ) matches Some(wp) && wp.1 == atom && self.toplevels().contains(wp.0)),
    {
        broadcast use vstd::std_specs::hash::group_hash_axioms;

        match (self.net_wm_state, parse_change_property(self.order, header, body)) {
            (Some(atom), Some((window, property))) => property == atom && self.toplevels.contains(
                &window,
            ),
            _ => false,
        }
    }

    fn is_wm_state_message(&self, header: RequestHeader, body: &[u8]) -> (r: bool)
        ensures
            r == (self.config().net_wm_state matches Some(atom) && sent_event_of(
                header,
                body@,
            ) matches Some(event) && event[0] % 128 == CLIENT_MESSAGE_EVENT && u32_at(
                event,
                8,
                self.config().little,
            ) == atom),
    {
        match (self.net_wm_state, parse_send_event(header, body)) {
            (Some(atom), Some(event)) => event[0] % 128 == CLIENT_MESSAGE_EVENT
                && self.order.u32_at(&event, 8) == atom,
            _ => false,
        }
    }

    fn is_xfixes_cursor(&self, major: u8, minor: u8) -> (r: bool)
        ensures
            r == (self.config().xfixes_opcode == Some(major) && (minor == HIDE_CURSOR_REQUEST
                || minor == SHOW_CURSOR_REQUEST)),
    {
        self.xfixes_opcode == Some(major) && (minor == HIDE_CURSOR_REQUEST || minor
            == SHOW_CURSOR_REQUEST)
    }
}

/// What an event framer has seen so far.
pub struct FramerModel {
    pub setup_done: bool,
    pub blind: bool,
}

/// The outcome of framing some bytes: the state after, the bytes sent on, and
/// how many of the bytes are done with.
pub struct Framed {
    pub state: FramerModel,
    pub out: Seq<u8>,
    pub consumed: int,
}

/// Length in bytes of the unit `s` starts with. Replies (first byte 1) and
/// generic events carry extra length in 4-byte units at offset 4; errors and
/// core events are 32 bytes.
pub open spec fn unit_len(s: Seq<u8>, little: bool) -> int {
    if s[0] == 1 || s[0] % 128 == GE_GENERIC_EVENT {
        32 + 4 * u32_at(s, 4, little)
    } else {
        32
    }
}

/// Whether the unit is a `ConfigureNotify` of the video host with another size
/// than the one last published.
pub open spec fn stale_configure(ctx: Option<EmbedContext>, s: Seq<u8>, little: bool) -> bool {
    &&& s[0] != 1
    &&& s[0] % 128 == CONFIGURE_NOTIFY_EVENT
    &&& ctx matches Some(c)
    &&& configure_notify_of(s, little).window == c.video_host
    &&& (configure_notify_of(s, little).width, configure_notify_of(s, little).height)
        != c.published
}

/// Framing `s`, which starts at a unit boundary: whole units are sent on, but
/// for stale host notifications; a trailing partial unit is kept back.
pub open spec fn units(ctx: Option<EmbedContext>, little: bool, s: Seq<u8>) -> Framed
    decreases s.len(),
{
    if s.len() < 32 {
        Framed {
            state: FramerModel { setup_done: true, blind: false },
            out: seq![],
            consumed: 0,
        }
    } else if unit_len(s, little) > MAX_REQUEST_BYTES {
        Framed {
            state: FramerModel { setup_done: true, blind: true },
            out: s,
            consumed: s.len() as int,
        }
    } else if s.len() < unit_len(s, little) || unit_len(s, little) <= 0 {
        Framed {
            state: FramerModel { setup_done: true, blind: false },
            out: seq![],
            consumed: 0,
        }
    } else {
        let total = unit_len(s, little);
        let rest = units(ctx, little, s.subrange(total, s.len() as int));
        Framed {
            state: rest.state,
            out: if stale_configure(ctx, s, little) {
                rest.out
            } else {
                s.subrange(0, total) + rest.out
            },
            consumed: total + rest.consumed,
        }
    }
}

/// Length of the setup reply `s` starts with. Setup replies carry an
/// additional-data length in 4-byte units at offset 6.
pub open spec fn setup_reply_len(s: Seq<u8>, little: bool) -> int {
    8 + 4 * u16_at(s, 6, little)
}

/// Framing `s` from any state. Setup replies are failed (0), success (1) or
/// authenticate (2); anything else is no setup reply.
pub open spec fn framed(
    ctx: Option<EmbedContext>,
    little: bool,
    st: FramerModel,
    s: Seq<u8>,
) -> Framed {
    if st.blind {
        Framed { state: st, out: s, consumed: s.len() as int }
    } else if st.setup_done {
        units(ctx, little, s)
    } else if s.len() < 8 {
        Framed { state: st, out: seq![], consumed: 0 }
    } else if s[0] > 2 {
        Framed {
            state: FramerModel { blind: true, ..st },
            out: s,
            consumed: s.len() as int,
        }
    } else if s.len() < setup_reply_len(s, little) {
        Framed { state: st, out: seq![], consumed: 0 }
    } else {
        let n = setup_reply_len(s, little);
        let rest = units(ctx, little, s.subrange(n, s.len() as int));
        Framed { state: rest.state, out: s.subrange(0, n) + rest.out, consumed: n + rest.consumed }
    }
}

/// Server to client framer: walks the setup reply, then reply/error/event
/// units, dropping a video-host `ConfigureNotify` whose size differs from the
/// app-published geometry. Every reconcile publishes and then resizes the host,
/// so a matching notify always follows a dropped stale one.
pub struct EventFramer {
    order: NativeOrder,
    setup_done: bool,
}

impl EventFramer {
    pub closed spec fn little(&self) -> bool {
        self.order.little()
    }

    pub closed spec fn setup_done(&self) -> bool {
        self.setup_done
    }

    pub open spec fn model(&self, blind: bool) -> FramerModel {
        FramerModel { setup_done: self.setup_done(), blind }
    }

    /// A framer for a fresh connection.
    pub fn new() -> (f: Self)
        ensures
            !f.setup_done(),
            f.little() == native_little(),
    {
        EventFramer { order: NativeOrder::detect(), setup_done: false }
    }

    /// Append the leading complete units of `input` to `out` (minus dropped
    /// events) and return how many `input` bytes were consumed. A trailing
    /// partial unit is left for the next call.
    pub fn process(
        &mut self,
        embed: &SharedEmbed,
        blind: &mut bool,
        input: &[u8],
        out: &mut Vec<u8>,
    ) -> (consumed: usize)
        ensures
            consumed <= input@.len(),
            final(self).little() == old(self).little(),
            ({
                let r = framed(
                    embed.ctx,
                    old(self).little(),
                    old(self).model(*old(blind)),
                    input@,
                );
                &&& final(self).model(*final(blind)) == r.state
                &&& final(out)@ == old(out)@ + r.out
                &&& consumed == r.consumed
            }),
    {
        let ghost out0 = out@;
        if *blind {
            append(out, input);
            return input.len();
        }
        if self.setup_done {
            return self.process_units(embed, blind, input, out);
        }
        if input.len() < 8 {
            assert(out@ =~= out0 + Seq::<u8>::empty());
            return 0;
        }
        if input[0] > 2 {
            *blind = true;
            append(out, input);
            return input.len();
        }
        let total: usize = 8 + 4 * (self.order.u16_at(input, 6) as usize);
        if input.len() < total {
            assert(out@ =~= out0 + Seq::<u8>::empty());
            return 0;
        }
        append_range(out, input, 0, total);
        self.setup_done = true;
        let n: usize = self.process_units(
            embed,
            blind,
            slice_subrange(input, total, input.len()),
            out,
        );
        proof {
            let rest = units(
                embed.ctx,
                self.little(),
                input@.subrange(total as int, input@.len() as int),
            );
            assert(out@ =~= out0 + (input@.subrange(0, total as int) + rest.out));
        }
        total + n
    }

    /// [`EventFramer::process`] past the setup reply.
    fn process_units(
        &self,
        embed: &SharedEmbed,
        blind: &mut bool,
        input: &[u8],
        out: &mut Vec<u8>,
    ) -> (consumed: usize)
        requires
            !*old(blind),
            self.setup_done(),
        ensures
            consumed <= input@.len(),
            ({
                let r = units(embed.ctx, self.little(), input@);
                &&& self.model(*final(blind)) == r.state
                &&& final(out)@ == old(out)@ + r.out
                &&& consumed == r.consumed
            }),
    {
        let ghost target = units(embed.ctx, self.little(), input@);
        let ghost out0 = out@;
        let ghost mut done: Seq<u8> = Seq::empty();
        let mut off: usize = 0;
        proof {
            assert(input@.subrange(0, input@.len() as int) =~= input@);
            assert(done + target.out =~= target.out);
            assert(out0 + done =~= out0);
        }
        loop
            invariant
                target == units(embed.ctx, self.little(), input@),
                out0 == old(out)@,
                !*blind,
                self.setup_done(),
                off <= input@.len(),
                out@ == out0 + done,
                ({
                    let rest = units(
                        embed.ctx,
                        self.little(),
                        input@.subrange(off as int, input@.len() as int),
                    );
                    &&& target.state == rest.state
                    &&& target.out == done + rest.out
                    &&& target.consumed == off + rest.consumed
                }),
            decreases input@.len() - off,
        {
            let avail = slice_subrange(input, off, input.len());
            if avail.len() < 32 {
                assert(done + Seq::<u8>::empty() =~= done);
                return off;
            }
            let code: u8 = avail[0] % 128;
            let total: u64 = if avail[0] == 1 || code == GE_GENERIC_EVENT {
                self.order.u32_at(avail, 4) as u64 * 4 + 32
            } else {
                32
            };
            if total > MAX_REQUEST_BYTES {
                *blind = true;
                append(out, avail);
                assert(out@ =~= out0 + target.out);
                return input.len();
            }
            if (avail.len() as u64) < total {
                assert(done + Seq::<u8>::empty() =~= done);
                return off;
            }
            let total: usize = total as usize;
            let stale = avail[0] != 1 && code == CONFIGURE_NOTIFY_EVENT && self.stale_configure(
                embed,
                avail,
            );
            let ghost tail = units(
                embed.ctx,
                self.little(),
                avail@.subrange(total as int, avail@.len() as int),
            );
            if !stale {
                append_range(out, avail, 0, total);
                proof {
                    let unit = avail@.subrange(0, total as int);
                    assert(out0 + done + unit =~= out0 + (done + unit));
                    assert(done + (unit + tail.out) =~= (done + unit) + tail.out);
                    done = done + unit;
                }
            }
            assert(input@.subrange(off + total, input@.len() as int) =~= avail@.subrange(
                total as int,
                avail@.len() as int,
            ));
            off += total;
        }
    }

    fn stale_configure(&self, embed: &SharedEmbed, unit: &[u8]) -> (r: bool)
        requires
            unit@.len() >= 32,
            unit@[0] != 1,
            unit@[0] % 128 == CONFIGURE_NOTIFY_EVENT,
        ensures
            r == stale_configure(embed.ctx, unit@, self.little()),
    {
        match (embed.ctx, parse_configure_notify(self.order, unit)) {
            (Some(ctx), Some(e)) => e.window == ctx.video_host && (e.width != ctx.published.0
                || e.height != ctx.published.1),
            _ => false,
        }
    }
}

/// Client to server pump: holds a request split across reads, and the file
/// descriptors that came with it, until it is complete.
pub struct RequestPump<F> {
    pub parser: ReqParser,
    pub held: Vec<u8>,
    pub held_fds: Vec<F>,
}

impl<F> RequestPump<F> {
    pub fn new(roots: Vec<u32>, embed: &SharedEmbed) -> (p: Self)
        ensures
            p.held@ == Seq::<u8>::empty(),
            p.held_fds@ == Seq::<F>::empty(),
            !p.parser.setup_done(),
            p.parser.toplevels() == Set::<u32>::empty(),
            p.parser.config().roots == roots@,
            p.parser.config().video_host == match embed.ctx {
                Some(c) => Some(c.video_host),
                None => None,
            },
            p.parser.config().net_wm_state == match embed.ctx {
                Some(c) => Some(c.net_wm_state),
                None => None,
            },
            p.parser.config().xfixes_opcode == match embed.ctx {
                Some(c) => c.xfixes_opcode,
                None => None,
            },
            p.parser.config().little == native_little(),
    {
        RequestPump {
            parser: ReqParser::new(roots, embed),
            held: Vec::new(),
            held_fds: Vec::new(),
        }
    }

    /// Takes the bytes and the file descriptors of one read and leaves in `out`
    /// what is to be sent. Returns the descriptors to send along, where a send
    /// is due: all pending ones, since those must reach the server no later than
    /// the request that consumes them.
    pub fn feed(
        &mut self,
        embed: &mut SharedEmbed,
        blind: &mut bool,
        chunk: &[u8],
        fds: Vec<F>,
        out: &mut Vec<u8>,
    ) -> (send: Option<Vec<F>>)
        ensures
            final(self).parser.config() == old(self).parser.config(),
            final(embed).ctx == old(embed).ctx,
            ({
                let data = old(self).held@ + chunk@;
                let r = relayed(
                    old(self).parser.config(),
                    old(self).parser.model(*old(embed), *old(blind)),
                    data,
                );
                &&& final(self).parser.model(*final(embed), *final(blind)) == r.state
                &&& final(out)@ == r.out
                &&& final(self).held@ == data.subrange(r.consumed, data.len() as int)
                &&& send is Some <==> r.consumed > 0
            }),
            match send {
                Some(sent) => sent@ == old(self).held_fds@ + fds@ && final(self).held_fds@
                    == Seq::<F>::empty(),
                None => final(self).held_fds@ == old(self).held_fds@ + fds@,
            },
    {
        let mut fds = fds;
        append(&mut self.held, chunk);
        self.held_fds.append(&mut fds);
        out.clear();
        let consumed: usize = self.parser.process(embed, blind, self.held.as_slice(), out);
        proof {
            let data = self.held@;
            assert(Seq::<u8>::empty() + out@ =~= out@);
            assert(data.subrange(0, data.len() as int) =~= data);
        }
        let rest = self.held.split_off(consumed);
        self.held = rest;
        if consumed > 0 {
            let ghost pending = self.held_fds@;
            let sent = self.held_fds.split_off(0);
            assert(sent@ =~= pending);
            assert(self.held_fds@ =~= Seq::<F>::empty());
            Some(sent)
        } else {
            None
        }
    }
}

/// Server to client pump: holds a unit split across reads, and the file
/// descriptors that came with it, until it is complete.
pub struct ReplyPump<F> {
    pub framer: EventFramer,
    pub held: Vec<u8>,
    pub held_fds: Vec<F>,
}

impl<F> ReplyPump<F> {
    pub fn new() -> (p: Self)
        ensures
            p.held@ == Seq::<u8>::empty(),
            p.held_fds@ == Seq::<F>::empty(),
            !p.framer.setup_done(),
            p.framer.little() == native_little(),
    {
        ReplyPump { framer: EventFramer::new(), held: Vec::new(), held_fds: Vec::new() }
    }

    /// Takes the bytes and the file descriptors of one read and leaves in `out`
    /// what is to be sent. Returns the descriptors to send along, where a send
    /// is due. With nothing forwarded they stay: they belong to a reply that has
    /// not been sent yet, never to a dropped event.
    pub fn feed(
        &mut self,
        embed: &SharedEmbed,
        blind: &mut bool,
        chunk: &[u8],
        fds: Vec<F>,
        out: &mut Vec<u8>,
    ) -> (send: Option<Vec<F>>)
        ensures
            final(self).framer.little() == old(self).framer.little(),
            ({
                let data = old(self).held@ + chunk@;
                let r = framed(
                    embed.ctx,
                    old(self).framer.little(),
                    old(self).framer.model(*old(blind)),
                    data,
                );
                &&& final(self).framer.model(*final(blind)) == r.state
                &&& final(out)@ == r.out
                &&& final(self).held@ == data.subrange(r.consumed, data.len() as int)
                &&& send is Some <==> r.out.len() > 0
            }),
            match send {
                Some(sent) => sent@ == old(self).held_fds@ + fds@ && final(self).held_fds@
                    == Seq::<F>::empty(),
                None => final(self).held_fds@ == old(self).held_fds@ + fds@,
            },
    {
        let mut fds = fds;
        append(&mut self.held, chunk);
        self.held_fds.append(&mut fds);
        out.clear();
        let consumed: usize = self.framer.process(embed, blind, self.held.as_slice(), out);
        assert(Seq::<u8>::empty() + out@ =~= out@);
        let rest = self.held.split_off(consumed);
        self.held = rest;
        if out.len() > 0 {
            let ghost pending = self.held_fds@;
            let sent = self.held_fds.split_off(0);
            assert(sent@ =~= pending);
            assert(self.held_fds@ =~= Seq::<F>::empty());
            Some(sent)
        } else {
            None
        }
    }
}

} // verus!
