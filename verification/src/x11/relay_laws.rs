//! What the proxy does with single requests and units, byte by byte, and what
//! the pumps keep between reads.

use vstd::prelude::*;

use crate::x11::mpv_proxy::framed;
use crate::x11::mpv_proxy::publish_host_geometry;
use crate::x11::mpv_proxy::relayed;
use crate::x11::mpv_proxy::request_len;
use crate::x11::mpv_proxy::requests;
use crate::x11::mpv_proxy::rewritten;
use crate::x11::mpv_proxy::set_embed_context;
use crate::x11::mpv_proxy::setup_reply_len;
use crate::x11::mpv_proxy::unit_len;
use crate::x11::mpv_proxy::units;
use crate::x11::mpv_proxy::EmbedContext;
use crate::x11::mpv_proxy::EventFramer;
use crate::x11::mpv_proxy::MAX_REQUEST_BYTES;
use crate::x11::mpv_proxy::ReplyPump;
use crate::x11::mpv_proxy::ReqConfig;
use crate::x11::mpv_proxy::ReqModel;
use crate::x11::mpv_proxy::ReqParser;
use crate::x11::mpv_proxy::RequestPump;
use crate::x11::mpv_proxy::SharedEmbed;
use crate::x11::proxy_laws::bits_below_monotone;
use crate::x11::proxy_laws::consumed_bytes_are_sent;
use crate::x11::proxy_laws::framed_consumed;
use crate::x11::proxy_laws::one_request;
use crate::x11::proxy_laws::one_request_for_each;
use crate::x11::proxy_laws::relayed_consumed;
use crate::x11::proxy_laws::requests_consumed;
use crate::x11::proxy_laws::requests_extend;
use crate::x11::proxy_rules::answered;
use crate::x11::proxy_rules::no_cursor_reaches_the_server;
use crate::x11::proxy_rules::override_redirect_of;
use crate::x11::proxy_rules::parts;
use crate::x11::proxy_rules::root_child_is_never_managed;
use crate::x11::wire::bits_below;
use crate::x11::wire::change_attributes_of;
use crate::x11::wire::has_bit;
use crate::x11::wire::header_of;
use crate::x11::wire::pow2_of;
use crate::x11::wire::setup_byte;
use crate::x11::wire::setup_complete;
use crate::x11::wire::setup_len;
use crate::x11::wire::u16_at;
use crate::x11::wire::u32_at;
use crate::x11::wire::NativeOrder;

verus! {

/// The 16 bits stored at `i`.
pub open spec fn half(s: Seq<u8>, i: int, little: bool) -> int {
    if little {
        s[i] + 0x100 * s[i + 1]
    } else {
        0x100 * s[i] + s[i + 1]
    }
}

/// The 32 bits stored at `i`.
pub open spec fn word(s: Seq<u8>, i: int, little: bool) -> int {
    if little {
        s[i] + 0x100 * s[i + 1] + 0x1_0000 * s[i + 2] + 0x100_0000 * s[i + 3]
    } else {
        0x100_0000 * s[i] + 0x1_0000 * s[i + 1] + 0x100 * s[i + 2] + s[i + 3]
    }
}

/// `s` is one request: its length, in units of four bytes, stands behind the
/// opcodes or, where that is zero, in the unit after them.
pub open spec fn is_request(s: Seq<u8>, little: bool) -> bool {
    &&& s.len() >= 4
    &&& if half(s, 2, little) != 0 {
        s.len() == 4 * half(s, 2, little)
    } else {
        8 <= s.len() <= 0x400_0000 && s.len() == 4 * word(s, 4, little)
    }
}

/// Where a request's own fields start.
pub open spec fn fields_at(s: Seq<u8>, little: bool) -> int {
    if half(s, 2, little) != 0 {
        4
    } else {
        8
    }
}

/// The request does nothing and is as long as before.
pub open spec fn silenced(raw: Seq<u8>, sent: Seq<u8>) -> bool {
    &&& sent.len() == raw.len()
    &&& sent[0] == 127
    &&& forall|i: int| 1 <= i < raw.len() ==> sent[i] == raw[i]
}

/// What was sent on.
pub open spec fn sent_on(before: Seq<u8>, after: Seq<u8>) -> Seq<u8> {
    after.subrange(before.len() as int, after.len() as int)
}

proof fn one_request_is_relayed(cfg: ReqConfig, st: ReqModel, s: Seq<u8>)
    requires
        is_request(s, cfg.little),
    ensures
        ({
            let r = requests(cfg, st, s);
            let a = answered(cfg, st, s);
            let v = header_of(s, cfg.little);
            &&& v matches Ok(h)
            &&& h.1 == fields_at(s, cfg.little)
            &&& h.0.major_opcode == s[0]
            &&& h.0.minor_opcode == s[1]
            &&& r.state == a.0
            &&& r.out == a.1
            &&& r.consumed == s.len()
            &&& one_request(s, cfg.little)
        }),
{
    reveal_with_fuel(requests, 2);
    assert(s.subrange(0, s.len() as int) =~= s);
    let a = answered(cfg, st, s);
    assert(a.1 + Seq::<u8>::empty() =~= a.1);
}

/// A whole request is sent on at once, and everything before it stays.
pub proof fn whole_request_is_consumed(
    p: &mut ReqParser,
    embed: &mut SharedEmbed,
    blind: &mut bool,
    input: &[u8],
    out: &mut Vec<u8>,
    n: usize,
)
    requires
        call_ensures(ReqParser::process, (p, embed, blind, input, out), n),
        old(p).setup_done(),
        !*old(blind),
        is_request(input@, old(p).config().little),
    ensures
        n == input@.len(),
        !*final(blind) && final(p).setup_done(),
        final(out)@.take(old(out)@.len() as int) == old(out)@,
        sent_on(old(out)@, final(out)@).len() >= 4,
        final(embed).ctx == old(embed).ctx && final(p).config() == old(p).config(),
{
    let cfg = old(p).config();
    let st = old(p).model(*old(embed), *old(blind));
    one_request_is_relayed(cfg, st, input@);
    one_request_for_each(cfg, st, input@);
    reveal(rewritten);
    let a = answered(cfg, st, input@);
    assert(sent_on(old(out)@, final(out)@) =~= a.1);
    assert(final(out)@.take(old(out)@.len() as int) =~= old(out)@);
    assert(final(p).model(*final(embed), *final(blind)) == a.0);
    assert(a.1.len() >= 4);
}

/// Taking the focus and restacking are silenced. Configuring is silenced for
/// mpv's window on the video host and for the windows it put on a root, and
/// passes for every other.
pub proof fn mpv_cannot_arrange_windows(
    p: &mut ReqParser,
    embed: &mut SharedEmbed,
    blind: &mut bool,
    input: &[u8],
    out: &mut Vec<u8>,
    n: usize,
)
    requires
        call_ensures(ReqParser::process, (p, embed, blind, input, out), n),
        old(p).setup_done(),
        !*old(blind),
        is_request(input@, old(p).config().little),
        input@[0] == 42 || input@[0] == 13 || input@[0] == 12,
    ensures
        ({
            let s = input@;
            let little = old(p).config().little;
            let b = fields_at(s, little);
            let sent = sent_on(old(out)@, final(out)@);
            let w = word(s, b, little) as u32;
            let hides = old(p).config().xfixes_opcode == Some(s[0]) && (s[1] == 29 || s[1] == 30);
            &&& s[0] != 12 ==> silenced(s, sent)
            &&& s[0] == 12 && s.len() >= b + 8 + 4 * bits_below(half(s, b + 4, little), 7) && s.len()
                >= b + 8 ==> if w != 0 && w == old(embed).embed_window
                || old(p).toplevels().contains(w) || hides {
                silenced(s, sent)
            } else {
                sent == s
            }
            &&& final(embed).embed_window == old(embed).embed_window
            &&& final(p).toplevels() == old(p).toplevels()
        }),
{
    let s = input@;
    let cfg = old(p).config();
    let little = cfg.little;
    let b = fields_at(s, little);
    let st = old(p).model(*old(embed), *old(blind));
    one_request_is_relayed(cfg, st, s);
    reveal(rewritten);
    let a = answered(cfg, st, s);
    assert(sent_on(old(out)@, final(out)@) =~= a.1);
    let body = parts(s, little).1;
    assert(final(p).model(*final(embed), *final(blind)) == a.0);
    if s.len() >= b + 8 {
        assert(body[0] == s[b] && body[1] == s[b + 1] && body[2] == s[b + 2] && body[3] == s[b + 3]);
        assert(body[4] == s[b + 4] && body[5] == s[b + 5]);
        assert(u32_at(body, 0, little) == word(s, b, little));
        assert(u16_at(body, 4, little) == half(s, b + 4, little));
    }
}

/// The window state of mpv's windows on a root is left alone: neither set as a
/// property nor asked for by message. Any other property or message passes.
pub proof fn window_state_is_left_alone(
    p: &mut ReqParser,
    embed: &mut SharedEmbed,
    blind: &mut bool,
    input: &[u8],
    out: &mut Vec<u8>,
    n: usize,
)
    requires
        call_ensures(ReqParser::process, (p, embed, blind, input, out), n),
        old(p).setup_done(),
        !*old(blind),
        is_request(input@, old(p).config().little),
        input@[0] == 18 || input@[0] == 25,
    ensures
        ({
            let s = input@;
            let cfg = old(p).config();
            let little = cfg.little;
            let b = fields_at(s, little);
            let sent = sent_on(old(out)@, final(out)@);
            let hides = cfg.xfixes_opcode == Some(s[0]) && (s[1] == 29 || s[1] == 30);
            &&& s[0] == 18 && s.len() >= b + 20 && word(s, b + 16, little) * s[b + 12] <= u32::MAX
                && s.len() >= b + 20 + word(s, b + 16, little) * s[b + 12] / 8 ==> {
                let w = word(s, b, little) as u32;
                let property = word(s, b + 4, little) as u32;
                if cfg.net_wm_state == Some(property) && old(p).toplevels().contains(w) || hides {
                    silenced(s, sent)
                } else {
                    sent == s
                }
            }
            &&& s[0] == 25 && s.len() >= b + 40 ==> {
                let kind = s[b + 8] % 128;
                let about = word(s, b + 16, little) as u32;
                if kind == 33 && cfg.net_wm_state == Some(about) || hides {
                    silenced(s, sent)
                } else {
                    sent == s
                }
            }
            &&& s[0] == 25 && s.len() < b + 40 && !hides ==> sent == s
            &&& final(embed).embed_window == old(embed).embed_window
            &&& final(p).toplevels() == old(p).toplevels()
        }),
{
    let s = input@;
    let cfg = old(p).config();
    let little = cfg.little;
    let b = fields_at(s, little);
    let st = old(p).model(*old(embed), *old(blind));
    one_request_is_relayed(cfg, st, s);
    reveal(rewritten);
    let a = answered(cfg, st, s);
    assert(sent_on(old(out)@, final(out)@) =~= a.1);
    assert(final(p).model(*final(embed), *final(blind)) == a.0);
    let body = parts(s, little).1;
    assert forall|i: int| 0 <= i < body.len() implies body[i] == #[trigger] s[b + i] by {}
    if s.len() >= b + 20 {
        assert(body[0] == s[b] && body[1] == s[b + 1] && body[2] == s[b + 2] && body[3] == s[b + 3]);
        assert(body[4] == s[b + 4] && body[5] == s[b + 5] && body[6] == s[b + 6] && body[7] == s[b
            + 7]);
        assert(body[12] == s[b + 12]);
        assert(body[16] == s[b + 16] && body[17] == s[b + 17] && body[18] == s[b + 18] && body[19]
            == s[b + 19]);
        assert(u32_at(body, 0, little) == word(s, b, little));
        assert(u32_at(body, 4, little) == word(s, b + 4, little));
        assert(u32_at(body, 16, little) == word(s, b + 16, little));
    }
    if s.len() >= b + 40 {
        let event = body.subrange(8, 40);
        assert(event[0] == s[b + 8]);
        assert(event[8] == s[b + 16] && event[9] == s[b + 17] && event[10] == s[b + 18]
            && event[11] == s[b + 19]);
        assert(u32_at(event, 8, little) == word(s, b + 16, little));
    }
}

/// A window on the video host becomes mpv's window and passes as it is; one on a
/// root is remembered and sent on as the same window, kept from the manager. Any
/// other passes and is not remembered.
pub proof fn created_windows_are_told_apart(
    p: &mut ReqParser,
    embed: &mut SharedEmbed,
    blind: &mut bool,
    input: &[u8],
    out: &mut Vec<u8>,
    n: usize,
)
    requires
        call_ensures(ReqParser::process, (p, embed, blind, input, out), n),
        old(p).setup_done(),
        !*old(blind),
        is_request(input@, old(p).config().little),
        input@[0] == 1,
        input@.len() >= fields_at(input@, old(p).config().little) + 28,
        input@.len() >= fields_at(input@, old(p).config().little) + 28 + 4 * bits_below(
            word(
                input@,
                fields_at(input@, old(p).config().little) + 24,
                old(p).config().little,
            ),
            15,
        ),
    ensures
        ({
            let s = input@;
            let cfg = old(p).config();
            let little = cfg.little;
            let b = fields_at(s, little);
            let sent = sent_on(old(out)@, final(out)@);
            let wid = word(s, b, little) as u32;
            let parent = word(s, b + 4, little) as u32;
            let hosted = cfg.video_host == Some(parent);
            let on_root = !hosted && cfg.roots.contains(parent);
            &&& final(embed).embed_window == if hosted {
                wid
            } else {
                old(embed).embed_window
            }
            &&& forall|w: u32| #[trigger]
                final(p).toplevels().contains(w) <==> old(p).toplevels().contains(w) || (on_root && w
                    == wid)
            &&& !on_root ==> sent == s
            &&& on_root ==> {
                let told = parts(sent, little);
                &&& told.0.major_opcode == 1 && told.0.minor_opcode == s[1]
                &&& told.1.subrange(0, 24) == s.subrange(b, b + 24)
                &&& override_redirect_of(told.1, little) == Some(1int)
            }
        }),
{
    let s = input@;
    let cfg = old(p).config();
    let little = cfg.little;
    let b = fields_at(s, little);
    let st = old(p).model(*old(embed), *old(blind));
    one_request_is_relayed(cfg, st, s);
    let a = answered(cfg, st, s);
    assert(sent_on(old(out)@, final(out)@) =~= a.1);
    assert(final(p).model(*final(embed), *final(blind)) == a.0);
    let body = parts(s, little).1;
    assert(body[0] == s[b] && body[1] == s[b + 1] && body[2] == s[b + 2] && body[3] == s[b + 3]);
    assert(body[4] == s[b + 4] && body[5] == s[b + 5] && body[6] == s[b + 6] && body[7] == s[b
        + 7]);
    assert(body[24] == s[b + 24] && body[25] == s[b + 25] && body[26] == s[b + 26] && body[27]
        == s[b + 27]);
    let parent = word(s, b + 4, little) as u32;
    if cfg.video_host != Some(parent) && cfg.roots.contains(parent) {
        root_child_is_never_managed(cfg, st, s);
        assert(body.subrange(0, 24) =~= s.subrange(b, b + 24));
        assert(parts(a.1, little).0.major_opcode == 1);
    }
    reveal(rewritten);
}

/// Hiding and showing the cursor is silenced. Any other request that is neither
/// about arranging windows, nor about their state, nor about what they are made
/// with, passes as it is.
pub proof fn other_requests_pass(
    p: &mut ReqParser,
    embed: &mut SharedEmbed,
    blind: &mut bool,
    input: &[u8],
    out: &mut Vec<u8>,
    n: usize,
)
    requires
        call_ensures(ReqParser::process, (p, embed, blind, input, out), n),
        old(p).setup_done(),
        !*old(blind),
        is_request(input@, old(p).config().little),
        input@[0] != 1,
        input@[0] != 2,
        input@[0] != 12,
        input@[0] != 13,
        input@[0] != 18,
        input@[0] != 25,
        input@[0] != 42,
    ensures
        ({
            let s = input@;
            let sent = sent_on(old(out)@, final(out)@);
            let hides = old(p).config().xfixes_opcode == Some(s[0]) && (s[1] == 29 || s[1] == 30);
            &&& hides ==> silenced(s, sent)
            &&& !hides ==> sent == s
            &&& final(embed).embed_window == old(embed).embed_window
            &&& final(p).toplevels() == old(p).toplevels()
        }),
{
    let s = input@;
    let cfg = old(p).config();
    let st = old(p).model(*old(embed), *old(blind));
    one_request_is_relayed(cfg, st, s);
    let a = answered(cfg, st, s);
    assert(sent_on(old(out)@, final(out)@) =~= a.1);
    assert(final(p).model(*final(embed), *final(blind)) == a.0);
    reveal(rewritten);
}

proof fn attributes_are_sent_without_a_cursor(cfg: ReqConfig, st: ReqModel, s: Seq<u8>)
    requires
        is_request(s, cfg.little),
        s[0] == 2,
        s.len() >= fields_at(s, cfg.little) + 8,
        s.len() >= fields_at(s, cfg.little) + 8 + 4 * bits_below(
            word(s, fields_at(s, cfg.little) + 4, cfg.little),
            15,
        ),
    ensures
        ({
            let little = cfg.little;
            let b = fields_at(s, little);
            let sent = answered(cfg, st, s).1;
            let mask = word(s, b + 4, little);
            let told = parts(sent, little);
            let values = 8 + 4 * bits_below(mask, 14);
            &&& answered(cfg, st, s).0 == st
            &&& change_attributes_of(told.0, told.1, little) == Some(None::<u32>)
            &&& word(told.1, 0, little) == word(s, b, little)
            &&& word(told.1, 4, little) % 0x4000 == mask % 0x4000
            &&& told.1.subrange(8, values) == s.subrange(b + 8, b + values)
            &&& mask / 0x4000 % 2 == 0 ==> sent == s
        }),
{
    let little = cfg.little;
    let b = fields_at(s, little);
    one_request_is_relayed(cfg, st, s);
    let body = parts(s, little).1;
    assert(body[0] == s[b] && body[1] == s[b + 1] && body[2] == s[b + 2] && body[3] == s[b + 3]);
    assert(body[4] == s[b + 4] && body[5] == s[b + 5] && body[6] == s[b + 6] && body[7] == s[b
        + 7]);
    let mask = word(s, b + 4, little);
    assert(mask == u32_at(body, 4, little));
    assert(u32_at(body, 0, little) == word(s, b, little));
    no_cursor_reaches_the_server(cfg, st, s);
    bits_below_monotone(mask, 14, 15);
    let values = 8 + 4 * bits_below(mask, 14);
    assert(body.subrange(8, values) =~= s.subrange(b + 8, b + values));
    assert(pow2_of(14) == 0x4000) by {
        reveal_with_fuel(pow2_of, 16);
    }
    if mask / 0x4000 % 2 == 0 {
        assert(!has_bit(mask, 14));
        reveal(rewritten);
    }
}

/// Attributes that set a cursor are sent on without it, the others unchanged;
/// those that set none pass as they are.
pub proof fn no_cursor_is_set(
    p: &mut ReqParser,
    embed: &mut SharedEmbed,
    blind: &mut bool,
    input: &[u8],
    out: &mut Vec<u8>,
    n: usize,
)
    requires
        call_ensures(ReqParser::process, (p, embed, blind, input, out), n),
        old(p).setup_done(),
        !*old(blind),
        is_request(input@, old(p).config().little),
        input@[0] == 2,
        input@.len() >= fields_at(input@, old(p).config().little) + 8,
        input@.len() >= fields_at(input@, old(p).config().little) + 8 + 4 * bits_below(
            word(
                input@,
                fields_at(input@, old(p).config().little) + 4,
                old(p).config().little,
            ),
            15,
        ),
    ensures
        ({
            let s = input@;
            let little = old(p).config().little;
            let b = fields_at(s, little);
            let sent = sent_on(old(out)@, final(out)@);
            let mask = word(s, b + 4, little);
            let told = parts(sent, little);
            let values = 8 + 4 * bits_below(mask, 14);
            &&& change_attributes_of(told.0, told.1, little) == Some(None::<u32>)
            &&& word(told.1, 0, little) == word(s, b, little)
            &&& word(told.1, 4, little) % 0x4000 == mask % 0x4000
            &&& told.1.subrange(8, values) == s.subrange(b + 8, b + values)
            &&& mask / 0x4000 % 2 == 0 ==> sent == s
            &&& final(embed).embed_window == old(embed).embed_window
            &&& final(p).toplevels() == old(p).toplevels()
        }),
{
    let s = input@;
    let cfg = old(p).config();
    let st = old(p).model(*old(embed), *old(blind));
    one_request_is_relayed(cfg, st, s);
    attributes_are_sent_without_a_cursor(cfg, st, s);
    let a = answered(cfg, st, s);
    assert(sent_on(old(out)@, final(out)@) =~= a.1);
    assert(final(p).model(*final(embed), *final(blind)) == a.0);
}

/// Half a request waits: nothing of it is sent and nothing changes. Bytes that
/// announce more than 64 MiB, or less than their own header, end the framing:
/// they and all that follow pass as they are.
pub proof fn broken_streams_pass(
    p: &mut ReqParser,
    embed: &mut SharedEmbed,
    blind: &mut bool,
    input: &[u8],
    out: &mut Vec<u8>,
    n: usize,
)
    requires
        call_ensures(ReqParser::process, (p, embed, blind, input, out), n),
        *old(blind) || old(p).setup_done(),
    ensures
        ({
            let s = input@;
            let little = old(p).config().little;
            let short = s.len() < 4 || half(s, 2, little) == 0 && s.len() < 8;
            let broken = !short && half(s, 2, little) == 0 && (word(s, 4, little) < 2 || word(
                s,
                4,
                little,
            ) > 0x100_0000);
            let partial = short || !broken && s.len() < 4 * if half(s, 2, little) != 0 {
                half(s, 2, little)
            } else {
                word(s, 4, little)
            };
            &&& *old(blind) ==> *final(blind) && n == s.len() && sent_on(old(out)@, final(out)@)
                == s
            &&& !*old(blind) && broken ==> *final(blind) && n == s.len() && sent_on(
                old(out)@,
                final(out)@,
            ) == s
            &&& !*old(blind) && partial ==> !*final(blind) && n == 0 && final(out)@ == old(out)@
            &&& *old(blind) || broken || partial ==> final(embed).embed_window
                == old(embed).embed_window && final(p).toplevels() == old(p).toplevels()
                && final(p).setup_done() == old(p).setup_done()
        }),
{
    let s = input@;
    let cfg = old(p).config();
    let st = old(p).model(*old(embed), *old(blind));
    let r = relayed(cfg, st, s);
    assert(sent_on(old(out)@, final(out)@) =~= r.out);
    assert(final(p).model(*final(embed), *final(blind)) == r.state);
    assert(old(out)@ + Seq::<u8>::empty() =~= old(out)@);
}

/// A connection opens with a setup request in this machine's byte order, which
/// passes as it is; its two strings are padded to four bytes. Anything else is
/// not taken apart at all.
pub proof fn connection_opens_with_its_setup(
    p: &mut ReqParser,
    embed: &mut SharedEmbed,
    blind: &mut bool,
    input: &[u8],
    out: &mut Vec<u8>,
    n: usize,
)
    requires
        call_ensures(ReqParser::process, (p, embed, blind, input, out), n),
        !old(p).setup_done(),
        !*old(blind),
        input@.len() > 0,
    ensures
        ({
            let s = input@;
            let little = old(p).config().little;
            let ours = s[0] == if little {
                0x6cu8
            } else {
                0x42u8
            };
            let len = 12 + (half(s, 6, little) + 3) / 4 * 4 + (half(s, 8, little) + 3) / 4 * 4;
            &&& !ours ==> *final(blind) && n == s.len() && sent_on(old(out)@, final(out)@) == s
            &&& ours ==> (final(p).setup_done() <==> s.len() >= 12 && s.len() >= len)
            &&& ours && (s.len() < 12 || s.len() < len) ==> n == 0 && final(out)@ == old(out)@
                && !*final(blind)
            &&& ours && s.len() >= 12 && s.len() == len ==> n == s.len() && sent_on(
                old(out)@,
                final(out)@,
            ) == s && !*final(blind)
            &&& ours && s.len() >= 12 && s.len() >= len ==> sent_on(
                old(out)@,
                final(out)@,
            ).len() >= len && sent_on(old(out)@, final(out)@).take(len) == s.take(len)
        }),
{
    let s = input@;
    let cfg = old(p).config();
    let little = cfg.little;
    let st = old(p).model(*old(embed), *old(blind));
    let r = relayed(cfg, st, s);
    assert(sent_on(old(out)@, final(out)@) =~= r.out);
    assert(final(p).model(*final(embed), *final(blind)) == r.state);
    assert(old(out)@ + Seq::<u8>::empty() =~= old(out)@);
    if setup_complete(s, little) && s[0] == setup_byte(little) {
        let len = setup_len(s, little);
        let rest = s.subrange(len, s.len() as int);
        let opened = ReqModel { setup_done: true, ..st };
        let q = requests(cfg, opened, rest);
        requests_extend(cfg, opened, rest, Seq::<u8>::empty());
        assert(r.out.take(len) =~= s.take(len));
        if s.len() == len {
            assert(rest.len() == 0);
            assert(r.out =~= s);
        }
    }
}

/// A parser starts unopened, with what the app told the proxy.
pub proof fn parser_knows_what_it_is_told(
    embed: &mut SharedEmbed,
    host: u32,
    state: u32,
    xfixes: Option<u8>,
    w: u16,
    h: u16,
    u: (),
    roots: Vec<u32>,
    p: ReqParser,
    fresh: SharedEmbed,
    q: ReqParser,
)
    requires
        call_ensures(set_embed_context, (embed, host, state, xfixes, w, h), u),
        call_ensures(ReqParser::new, (roots, &*final(embed)), p),
        call_ensures(SharedEmbed::new, (), fresh),
        call_ensures(ReqParser::new, (roots, &fresh), q),
    ensures
        p.config().roots == roots@ && p.config().video_host == Some(host)
            && p.config().net_wm_state == Some(state) && p.config().xfixes_opcode == xfixes,
        !p.setup_done() && forall|x: u32| !#[trigger] p.toplevels().contains(x),
        final(embed).embed_window == old(embed).embed_window,
        q.config().video_host is None && q.config().net_wm_state is None
            && q.config().xfixes_opcode is None && q.config().roots == roots@,
        fresh.embed_window == 0,
        p.config().little == q.config().little,
{
}

/// `s` is one unit from the server: replies and generic events say how much
/// longer than 32 bytes they are.
pub open spec fn is_unit(s: Seq<u8>, little: bool) -> bool {
    &&& s.len() >= 32
    &&& if s[0] == 1 || s[0] % 128 == 35 {
        s.len() == 32 + 4 * word(s, 4, little) && s.len() <= 0x400_0000
    } else {
        s.len() == 32
    }
}

/// Of what the server sends, only a stale size of the video host is kept from
/// mpv: one other than the app published last.
pub proof fn only_a_stale_size_is_dropped(
    embed: &mut SharedEmbed,
    w: u16,
    h: u16,
    u: (),
    f: &mut EventFramer,
    blind: &mut bool,
    input: &[u8],
    out: &mut Vec<u8>,
    n: usize,
)
    requires
        call_ensures(publish_host_geometry, (embed, w, h), u),
        call_ensures(EventFramer::process, (f, &*final(embed), blind, input, out), n),
        old(f).setup_done(),
        !*old(blind),
        is_unit(input@, old(f).little()),
    ensures
        ({
            let s = input@;
            let little = old(f).little();
            let stale = s[0] != 1 && s[0] % 128 == 22 && old(embed).ctx is Some && word(
                s,
                8,
                little,
            ) == old(embed).ctx->Some_0.video_host && (half(s, 20, little) != w || half(
                s,
                22,
                little,
            ) != h);
            &&& n == s.len() && !*final(blind) && final(f).setup_done()
            &&& stale ==> final(out)@ == old(out)@
            &&& !stale ==> sent_on(old(out)@, final(out)@) == s
        }),
{
    let s = input@;
    let little = old(f).little();
    reveal_with_fuel(units, 2);
    let r = units(final(embed).ctx, little, s);
    let rest = s.subrange(s.len() as int, s.len() as int);
    assert(units(final(embed).ctx, little, rest).out.len() == 0);
    assert(s.subrange(0, s.len() as int) + units(final(embed).ctx, little, rest).out =~= s);
    assert(sent_on(old(out)@, final(out)@) =~= r.out);
    assert(final(f).model(*final(blind)) == r.state);
    assert(old(out)@ + Seq::<u8>::empty() =~= old(out)@);
    assert(r.out.len() == 0 ==> r.out =~= Seq::<u8>::empty());
}

/// What the server opens with passes as it is. Half a unit waits; a reply that is
/// none, or one of more than 64 MiB, ends the framing, and everything passes.
pub proof fn server_opens_and_breaks(
    f: &mut EventFramer,
    embed: &SharedEmbed,
    blind: &mut bool,
    input: &[u8],
    out: &mut Vec<u8>,
    n: usize,
)
    requires
        call_ensures(EventFramer::process, (f, embed, blind, input, out), n),
    ensures
        ({
            let s = input@;
            let little = old(f).little();
            let opening = !*old(blind) && !old(f).setup_done();
            let running = !*old(blind) && old(f).setup_done();
            let len = 8 + 4 * half(s, 6, little);
            let all = n == s.len() && sent_on(old(out)@, final(out)@) == s;
            let nothing = n == 0 && final(out)@ == old(out)@ && !*final(blind);
            let long = s.len() >= 32 && (s[0] == 1 || s[0] % 128 == 35);
            &&& *old(blind) ==> all && *final(blind)
            &&& opening && s.len() < 8 ==> nothing && !final(f).setup_done()
            &&& opening && s.len() >= 8 && s[0] > 2 ==> all && *final(blind)
            &&& opening && s.len() >= 8 && s[0] <= 2 && s.len() < len ==> nothing
                && !final(f).setup_done()
            &&& opening && s.len() >= 8 && s[0] <= 2 && s.len() == len ==> all && !*final(blind)
                && final(f).setup_done()
            &&& running && s.len() < 32 ==> nothing
            &&& running && long && word(s, 4, little) * 4 + 32 > 0x400_0000 ==> all && *final(blind)
            &&& running && long && s.len() < word(s, 4, little) * 4 + 32 <= 0x400_0000 ==> nothing
        }),
{
    let s = input@;
    let little = old(f).little();
    let r = framed(embed.ctx, little, old(f).model(*old(blind)), s);
    assert(sent_on(old(out)@, final(out)@) =~= r.out);
    assert(final(f).model(*final(blind)) == r.state);
    assert(old(out)@ + Seq::<u8>::empty() =~= old(out)@);
    if s.len() >= 8 && s.len() == 8 + 4 * half(s, 6, little) {
        let none = s.subrange(s.len() as int, s.len() as int);
        assert(units(embed.ctx, little, none).out =~= Seq::<u8>::empty());
        assert(s.subrange(0, s.len() as int) + units(embed.ctx, little, none).out =~= s);
    }
}

proof fn nothing_is_sent_for_nothing(cfg: ReqConfig, st: ReqModel, s: Seq<u8>)
    requires
        relayed(cfg, st, s).consumed == 0,
    ensures
        relayed(cfg, st, s).out.len() == 0,
{
    if !st.blind && st.setup_done {
        if let Ok(v) = header_of(s, cfg.little) {
            let total = request_len(v.0, v.1);
            if 0 < total <= s.len() && total <= MAX_REQUEST_BYTES {
                let raw = s.subrange(0, total);
                let step = rewritten(cfg, st, v.0, raw, raw.subrange(v.1, total));
                requests_consumed(cfg, step.0, s.subrange(total, s.len() as int));
            }
        }
    } else if !st.blind && setup_complete(s, cfg.little) {
        let n = setup_len(s, cfg.little);
        requests_consumed(
            cfg,
            ReqModel { setup_done: true, ..st },
            s.subrange(n, s.len() as int),
        );
    }
}

/// The request pump loses no byte and no descriptor: what is left is the end of
/// what it had and was given, and the descriptors go, all of them, with the first
/// bytes that do, or stay, all of them.
pub proof fn request_pump_loses_nothing<F>(
    p: &mut RequestPump<F>,
    embed: &mut SharedEmbed,
    blind: &mut bool,
    chunk: &[u8],
    fds: Vec<F>,
    out: &mut Vec<u8>,
    send: Option<Vec<F>>,
)
    requires
        call_ensures(RequestPump::<F>::feed, (p, embed, blind, chunk, fds, out), send),
    ensures
        ({
            let data = old(p).held@ + chunk@;
            let left = final(p).held@;
            let all = old(p).held_fds@ + fds@;
            &&& left.len() <= data.len()
            &&& left == data.subrange(data.len() - left.len(), data.len() as int)
            &&& send is Some <==> left.len() < data.len()
            &&& send matches Some(v) ==> v@ == all && final(p).held_fds@.len() == 0
            &&& send is None ==> final(p).held_fds@ == all && final(out)@.len() == 0
            &&& *old(blind) ==> left.len() == 0 && final(out)@ == data && *final(blind)
        }),
{
    let cfg = old(p).parser.config();
    let st = old(p).parser.model(*old(embed), *old(blind));
    let data = old(p).held@ + chunk@;
    consumed_bytes_are_sent(cfg, st, data);
    relayed_consumed(cfg, st, data);
    let r = relayed(cfg, st, data);
    if r.consumed == 0 {
        nothing_is_sent_for_nothing(cfg, st, data);
    }
    assert(final(p).parser.model(*final(embed), *final(blind)) == r.state);
    assert(r.state.blind == *final(blind));
}

/// The reply pump loses no byte but for dropped events, and no descriptor: they
/// go, all of them, with the first bytes that do, or stay, all of them.
pub proof fn reply_pump_loses_nothing<F>(
    p: &mut ReplyPump<F>,
    embed: &SharedEmbed,
    blind: &mut bool,
    chunk: &[u8],
    fds: Vec<F>,
    out: &mut Vec<u8>,
    send: Option<Vec<F>>,
)
    requires
        call_ensures(ReplyPump::<F>::feed, (p, embed, blind, chunk, fds, out), send),
    ensures
        ({
            let data = old(p).held@ + chunk@;
            let left = final(p).held@;
            let all = old(p).held_fds@ + fds@;
            &&& left.len() <= data.len()
            &&& left == data.subrange(data.len() - left.len(), data.len() as int)
            &&& final(out)@.len() <= data.len() - left.len()
            &&& send is Some <==> final(out)@.len() > 0
            &&& send matches Some(v) ==> v@ == all && final(p).held_fds@.len() == 0
            &&& send is None ==> final(p).held_fds@ == all
            &&& *old(blind) ==> left.len() == 0 && final(out)@ == data && *final(blind)
        }),
{
    let little = old(p).framer.little();
    let st = old(p).framer.model(*old(blind));
    let data = old(p).held@ + chunk@;
    framing_adds_nothing(embed.ctx, little, data);
    framed_consumed(embed.ctx, little, st, data);
    let n = setup_reply_len(data, little);
    if 8 <= data.len() && n <= data.len() {
        framing_adds_nothing(embed.ctx, little, data.subrange(n, data.len() as int));
    }
}

proof fn framing_adds_nothing(
    ctx: Option<EmbedContext>,
    little: bool,
    s: Seq<u8>,
)
    ensures
        0 <= units(ctx, little, s).out.len() <= units(ctx, little, s).consumed <= s.len(),
    decreases s.len(),
{
    let n = unit_len(s, little);
    if s.len() >= 32 && 0 < n <= s.len() {
        framing_adds_nothing(ctx, little, s.subrange(n, s.len() as int));
    }
}

/// Numbers are read from bytes in the order that is native, and a client of that
/// order opens with its letter.
pub proof fn bytes_are_read_in_native_order(
    order: NativeOrder,
    bytes: &[u8],
    at: usize,
    a: u16,
    b: u32,
    letter: u8,
    little: bool,
)
    requires
        call_ensures(NativeOrder::u16_at, (order, bytes, at), a),
        call_ensures(NativeOrder::u32_at, (order, bytes, at), b),
        call_ensures(NativeOrder::setup_byte, (order,), letter),
        call_ensures(NativeOrder::is_little, (order,), little),
    ensures
        a == half(bytes@, at as int, little),
        b == word(bytes@, at as int, little),
        letter == if little {
            0x6cu8
        } else {
            0x42u8
        },
{
}

/// Both pumps start with nothing held and at the opening of their stream.
pub proof fn pumps_start_empty<F>(
    roots: Vec<u32>,
    embed: SharedEmbed,
    p: RequestPump<F>,
    fresh: ReqParser,
    q: ReplyPump<F>,
    f: EventFramer,
)
    requires
        call_ensures(RequestPump::<F>::new, (roots, &embed), p),
        call_ensures(ReqParser::new, (roots, &embed), fresh),
        call_ensures(ReplyPump::<F>::new, (), q),
        call_ensures(EventFramer::new, (), f),
    ensures
        p.held@.len() == 0 && p.held_fds@.len() == 0 && !p.parser.setup_done(),
        p.parser.config() == fresh.config(),
        forall|w: u32| !#[trigger] p.parser.toplevels().contains(w),
        q.held@.len() == 0 && q.held_fds@.len() == 0 && !q.framer.setup_done(),
        !f.setup_done() && f.little() == fresh.config().little && q.framer.little() == f.little(),
{
}

} // verus!
