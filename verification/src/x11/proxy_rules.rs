//! What the proxy enforces: mpv renders, and only the app manages windows.

use vstd::arithmetic::div_mod::lemma_div_denominator;
use vstd::arithmetic::div_mod::lemma_fundamental_div_mod;
use vstd::arithmetic::div_mod::lemma_hoist_over_denominator;
use vstd::arithmetic::div_mod::lemma_mod_multiples_vanish;
use vstd::prelude::*;

use crate::x11::mpv_proxy::noop;
use crate::x11::mpv_proxy::owned_window;
use crate::x11::mpv_proxy::rewritten;
use crate::x11::mpv_proxy::ReqConfig;
use crate::x11::mpv_proxy::ReqModel;
use crate::x11::proxy_laws::bits_below_monotone;
use crate::x11::proxy_laws::one_request;
use crate::x11::proxy_laws::one_request_for_each;
use crate::x11::wire::bits_below;
use crate::x11::wire::change_attributes_of;
use crate::x11::wire::configure_window_of;
use crate::x11::wire::create_window_of;
use crate::x11::wire::create_window_overriding;
use crate::x11::wire::has_bit;
use crate::x11::wire::header_of;
use crate::x11::wire::pow2_of;
use crate::x11::wire::u16_at;
use crate::x11::wire::u32_at;
use crate::x11::wire::u32_bytes;
use crate::x11::wire::RequestHeader;
use crate::x11::wire::CHANGE_WINDOW_ATTRIBUTES_REQUEST;
use crate::x11::wire::CONFIGURE_WINDOW_REQUEST;
use crate::x11::wire::CREATE_WINDOW_REQUEST;
use crate::x11::wire::SET_INPUT_FOCUS_REQUEST;

verus! {

/// The header of a request and the bytes after it.
pub open spec fn parts(s: Seq<u8>, little: bool) -> (RequestHeader, Seq<u8>) {
    let v = header_of(s, little)->Ok_0;
    (v.0, s.subrange(v.1, s.len() as int))
}

/// What is sent on in place of one request, and the state after it.
pub open spec fn answered(cfg: ReqConfig, st: ReqModel, raw: Seq<u8>) -> (ReqModel, Seq<u8>) {
    let p = parts(raw, cfg.little);
    rewritten(cfg, st, p.0, raw, p.1)
}

/// The `override_redirect` value a `CreateWindow` body sets.
pub open spec fn override_redirect_of(body: Seq<u8>, little: bool) -> Option<int> {
    let mask = u32_at(body, 24, little);
    if has_bit(mask, 9) {
        Some(u32_at(body, 28 + 4 * bits_below(mask, 9), little))
    } else {
        None
    }
}

/// A request to configure a window the app owns does nothing.
pub proof fn owned_window_is_never_configured(cfg: ReqConfig, st: ReqModel, raw: Seq<u8>)
    requires
        one_request(raw, cfg.little),
        parts(raw, cfg.little).0.major_opcode == CONFIGURE_WINDOW_REQUEST,
        configure_window_of(
            parts(raw, cfg.little).0,
            parts(raw, cfg.little).1,
            cfg.little,
        ) matches Some(w) && owned_window(st, w),
    ensures
        answered(cfg, st, raw) == (st, noop(raw)),
{
    reveal(rewritten);
}

/// mpv never takes the keyboard focus.
pub proof fn focus_is_never_taken(cfg: ReqConfig, st: ReqModel, raw: Seq<u8>)
    requires
        one_request(raw, cfg.little),
        parts(raw, cfg.little).0.major_opcode == SET_INPUT_FOCUS_REQUEST,
    ensures
        answered(cfg, st, raw) == (st, noop(raw)),
{
    reveal(rewritten);
}

/// A window created on the video host, or on a root window, is owned from then
/// on; and no request takes the ownership of a root window's child away.
pub proof fn created_window_is_owned(cfg: ReqConfig, st: ReqModel, raw: Seq<u8>)
    requires
        one_request(raw, cfg.little),
    ensures
        ({
            let p = parts(raw, cfg.little);
            let after = answered(cfg, st, raw).0;
            &&& create_window_of(p.0, p.1, cfg.little) matches Some(cw) ==> cw.wid != 0 && (
            cfg.video_host == Some(cw.parent) || cfg.roots.contains(cw.parent)) ==> owned_window(
                after,
                cw.wid,
            )
            &&& forall|w: u32| st.toplevels.contains(w) ==> #[trigger] after.toplevels.contains(w)
        }),
{
    reveal(rewritten);
}

proof fn powers()
    ensures
        pow2_of(0) == 1,
        pow2_of(9) == 512,
        pow2_of(10) == 1024,
        pow2_of(14) == 16384,
        pow2_of(15) == 32768,
{
    reveal_with_fuel(pow2_of, 16);
}

proof fn powers_multiply(m: nat, n: nat)
    ensures
        pow2_of(m + n) == pow2_of(m) * pow2_of(n),
        pow2_of(n) > 0,
    decreases n,
{
    if n == 0 {
        assert(pow2_of(m) * 1 == pow2_of(m));
    } else {
        powers_multiply(m, (n - 1) as nat);
        assert(m + n - 1 == m + (n - 1) as nat);
        assert(2 * (pow2_of(m) * pow2_of((n - 1) as nat)) == pow2_of(m) * (2 * pow2_of(
            (n - 1) as nat,
        ))) by (nonlinear_arith);
    }
}

/// Adding an even multiple of a bit's weight leaves the bit alone.
proof fn even_multiple_keeps_bit(x: int, j: int, k: nat)
    ensures
        has_bit(x + (2 * j) * pow2_of(k), k) == has_bit(x, k),
{
    let p = pow2_of(k);
    powers_multiply(0, k);
    lemma_hoist_over_denominator(x, 2 * j, p as nat);
    lemma_mod_multiples_vanish(j, x / p, 2);
}

/// The low bits of a mask are those of the mask cut off above them.
proof fn low_bits_stay(mask: int, k: nat, n: nat)
    requires
        k < n,
    ensures
        has_bit(mask % pow2_of(n), k) == has_bit(mask, k),
{
    let w = pow2_of(n);
    let up = pow2_of((n - k - 1) as nat);
    powers_multiply(0, n);
    powers_multiply(k, (n - k) as nat);
    assert(k + (n - k) as nat == n);
    let q = mask / w;
    lemma_fundamental_div_mod(mask, w);
    assert(w * q == (2 * (up * q)) * pow2_of(k)) by (nonlinear_arith)
        requires
            w == pow2_of(k) * (2 * up),
    ;
    even_multiple_keeps_bit(mask % w, up * q, k);
}

/// Setting a clear tenth bit sets that bit and no other.
proof fn setting_the_tenth_bit(mask: int, k: nat)
    requires
        0 <= mask,
        !has_bit(mask, 9),
    ensures
        has_bit(mask + 512, k) == (k == 9 || has_bit(mask, k)),
{
    powers();
    if k < 9 {
        powers_multiply(k, (9 - k) as nat);
        let half = pow2_of((8 - k) as nat);
        assert(512 == (2 * half) * pow2_of(k)) by (nonlinear_arith)
            requires
                512 == pow2_of(k) * (2 * half),
        ;
        even_multiple_keeps_bit(mask, half, k);
    } else if k > 9 {
        let up = pow2_of((k - 10) as nat);
        powers_multiply(10, (k - 10) as nat);
        assert(mask / 512 == 2 * (mask / 1024));
        assert((mask + 512) / 1024 == mask / 1024);
        lemma_div_denominator(mask + 512, 1024, up);
        lemma_div_denominator(mask, 1024, up);
    }
}

/// As many values below bit `n` as the bits say.
proof fn same_bits_same_count(a: int, b: int, n: nat)
    requires
        forall|k: nat| k < n ==> has_bit(a, k) == #[trigger] has_bit(b, k),
    ensures
        bits_below(a, n) == bits_below(b, n),
    decreases n,
{
    if n > 0 {
        same_bits_same_count(a, b, (n - 1) as nat);
        assert(has_bit(a, (n - 1) as nat) == has_bit(b, (n - 1) as nat));
    }
}

/// Between two bits there are as many values as the bits between them say.
proof fn same_bits_same_gap(a: int, b: int, m: nat, n: nat)
    requires
        m <= n,
        forall|k: nat| m <= k < n ==> has_bit(a, k) == #[trigger] has_bit(b, k),
    ensures
        bits_below(a, n) - bits_below(a, m) == bits_below(b, n) - bits_below(b, m),
    decreases n,
{
    if n > m {
        same_bits_same_gap(a, b, m, (n - 1) as nat);
        assert(has_bit(a, (n - 1) as nat) == has_bit(b, (n - 1) as nat));
    }
}

/// A value written is the value read.
proof fn u32_reads_back(s: Seq<u8>, i: int, v: u32, little: bool)
    requires
        0 <= i,
        i + 4 <= s.len(),
        s.subrange(i, i + 4) == u32_bytes(v, little),
    ensures
        u32_at(s, i, little) == v,
{
    let b = u32_bytes(v, little);
    assert(forall|k: int| 0 <= k < 4 ==> s[i + k] == #[trigger] s.subrange(i, i + 4)[k]);
    assert(s[i] == b[0]);
    assert(s[i + 1] == b[1]);
    assert(s[i + 2] == b[2]);
    assert(s[i + 3] == b[3]);
    let lo = v % 65536;
    let hi = v / 65536;
    assert(lo % 256 + 256 * (lo / 256) == lo);
    assert(hi % 256 + 256 * (hi / 256) == hi);
    assert(lo + 65536 * hi == v);
}

/// No cursor mpv sets reaches the server: the attributes sent on set none, and
/// are otherwise those of the request.
pub proof fn no_cursor_reaches_the_server(cfg: ReqConfig, st: ReqModel, raw: Seq<u8>)
    requires
        one_request(raw, cfg.little),
        parts(raw, cfg.little).0.major_opcode == CHANGE_WINDOW_ATTRIBUTES_REQUEST,
        change_attributes_of(
            parts(raw, cfg.little).0,
            parts(raw, cfg.little).1,
            cfg.little,
        ) is Some,
    ensures
        ({
            let sent = parts(answered(cfg, st, raw).1, cfg.little);
            let asked = parts(raw, cfg.little);
            let mask = u32_at(asked.1, 4, cfg.little);
            let values = 8 + 4 * bits_below(mask, 14);
            &&& answered(cfg, st, raw).0 == st
            &&& change_attributes_of(sent.0, sent.1, cfg.little) == Some(None::<u32>)
            &&& u32_at(sent.1, 0, cfg.little) == u32_at(asked.1, 0, cfg.little)
            &&& sent.1.subrange(8, values) == asked.1.subrange(8, values)
            &&& u32_at(sent.1, 4, cfg.little) % 16384 == mask % 16384
        }),
{
    reveal(rewritten);
    let little = cfg.little;
    let (h, body) = parts(raw, little);
    one_request_for_each(cfg, st, raw);
    let out = answered(cfg, st, raw).1;
    let (sh, sb) = parts(out, little);
    let mask = u32_at(body, 4, little);
    bits_below_monotone(mask, 14, 15);
    powers();
    if has_bit(mask, 14) {
        let others = body.subrange(8, 8 + 4 * bits_below(mask, 14));
        let new_mask = (mask % 16384) as u32;
        assert(out.len() == 12 + others.len());
        assert(u16_at(out, 2, little) == (12 + others.len()) / 4);
        assert(out[0] == CHANGE_WINDOW_ATTRIBUTES_REQUEST);
        assert(sb =~= body.subrange(0, 4) + u32_bytes(new_mask, little) + others);
        assert(sb.subrange(4, 8) =~= u32_bytes(new_mask, little));
        u32_reads_back(sb, 4, new_mask, little);
        assert forall|k: nat| k < 14 implies has_bit(mask, k) == #[trigger] has_bit(
            new_mask as int,
            k,
        ) by {
            low_bits_stay(mask, k, 14);
        }
        same_bits_same_count(mask, new_mask as int, 14);
        assert(!has_bit(new_mask as int, 14));
        assert(bits_below(new_mask as int, 15) == bits_below(new_mask as int, 14));
        assert(sb.subrange(8, 8 + 4 * bits_below(mask, 14)) =~= others);
    } else {
        assert(out == raw);
    }
}

/// The mask of a request whose tenth value is set.
spec fn overriding_mask(mask: int) -> u32 {
    (if has_bit(mask, 9) {
        mask % 32768
    } else {
        mask % 32768 + 512
    }) as u32
}

/// The tenth value is announced, and all others as before.
proof fn overriding_mask_counts(mask: int)
    ensures
        ({
            let new_mask = overriding_mask(mask) as int;
            &&& has_bit(new_mask, 9)
            &&& bits_below(new_mask, 9) == bits_below(mask, 9)
            &&& bits_below(new_mask, 15) == bits_below(mask, 9) + 1 + bits_below(mask, 15)
                - bits_below(mask, 10)
        }),
{
    powers();
    let known = mask % 32768;
    let new_mask = overriding_mask(mask) as int;
    low_bits_stay(mask, 9, 15);
    assert forall|k: nat| k < 15 && k != 9 implies has_bit(mask, k) == #[trigger] has_bit(
        new_mask,
        k,
    ) by {
        low_bits_stay(mask, k, 15);
        if !has_bit(mask, 9) {
            setting_the_tenth_bit(known, k);
        }
    }
    if !has_bit(mask, 9) {
        setting_the_tenth_bit(known, 9);
    }
    same_bits_same_count(mask, new_mask, 9);
    same_bits_same_gap(mask, new_mask, 10, 15);
    assert(bits_below(new_mask, 10) == bits_below(new_mask, 9) + 1);
}

/// A body laid out with its tenth value set is one that sets it.
proof fn overriding_body_reads_back(body: Seq<u8>, sb: Seq<u8>, little: bool)
    requires
        body.len() >= 28 + 4 * bits_below(u32_at(body, 24, little), 15),
        ({
            let mask = u32_at(body, 24, little);
            sb == body.subrange(0, 24) + u32_bytes(overriding_mask(mask), little) + (body.subrange(
                28,
                28 + 4 * bits_below(mask, 9),
            ) + u32_bytes(1, little) + body.subrange(
                28 + 4 * bits_below(mask, 10),
                28 + 4 * bits_below(mask, 15),
            ))
        }),
    ensures
        override_redirect_of(sb, little) == Some(1int),
        sb.len() == 28 + 4 * bits_below(u32_at(sb, 24, little), 15),
        sb.subrange(0, 24) == body.subrange(0, 24),
        u32_at(sb, 0, little) == u32_at(body, 0, little),
        u32_at(sb, 4, little) == u32_at(body, 4, little),
{
    let mask = u32_at(body, 24, little);
    bits_below_monotone(mask, 9, 10);
    bits_below_monotone(mask, 10, 15);
    overriding_mask_counts(mask);
    assert(sb.subrange(24, 28) =~= u32_bytes(overriding_mask(mask), little));
    u32_reads_back(sb, 24, overriding_mask(mask), little);
    let at = 28 + 4 * bits_below(mask, 9);
    assert(sb.subrange(at, at + 4) =~= u32_bytes(1, little));
    u32_reads_back(sb, at, 1, little);
    assert(sb.subrange(0, 24) =~= body.subrange(0, 24));
    assert(forall|i: int| 0 <= i < 24 ==> sb[i] == body[i]);
}

/// A window mpv creates on a root window is sent on as the same window, only
/// that no window manager will ever manage it.
#[verifier::rlimit(60)]
pub proof fn root_child_is_never_managed(cfg: ReqConfig, st: ReqModel, raw: Seq<u8>)
    requires
        one_request(raw, cfg.little),
        create_window_of(
            parts(raw, cfg.little).0,
            parts(raw, cfg.little).1,
            cfg.little,
        ) matches Some(cw) && cfg.video_host != Some(cw.parent) && cfg.roots.contains(cw.parent),
    ensures
        ({
            let sent = parts(answered(cfg, st, raw).1, cfg.little);
            let asked = parts(raw, cfg.little);
            &&& create_window_of(sent.0, sent.1, cfg.little) == create_window_of(
                asked.0,
                asked.1,
                cfg.little,
            )
            &&& override_redirect_of(sent.1, cfg.little) == Some(1int)
            &&& sent.0.minor_opcode == asked.0.minor_opcode
            &&& sent.1.subrange(0, 24) == asked.1.subrange(0, 24)
        }),
{
    reveal(rewritten);
    let little = cfg.little;
    let (h, body) = parts(raw, little);
    let mask = u32_at(body, 24, little);
    bits_below_monotone(mask, 9, 10);
    bits_below_monotone(mask, 10, 15);
    powers();
    let out = answered(cfg, st, raw).1;
    assert(out == create_window_overriding(h, body, 1, little));
    let first = body.subrange(28, 28 + 4 * bits_below(mask, 9));
    let last = body.subrange(28 + 4 * bits_below(mask, 10), 28 + 4 * bits_below(mask, 15));
    let values = first + u32_bytes(1, little) + last;
    let sb = body.subrange(0, 24) + u32_bytes(overriding_mask(mask), little) + values;
    one_request_for_each(cfg, st, raw);
    assert(out.len() == 32 + values.len());
    assert(u16_at(out, 2, little) == (32 + values.len()) / 4);
    assert(out[0] == CREATE_WINDOW_REQUEST);
    assert(parts(out, little).1 =~= sb);
    overriding_body_reads_back(body, sb, little);
}

} // verus!
