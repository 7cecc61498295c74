//! What the environment says while the proxy runs and after, how the real server
//! is reached, and what stands in the authority file.

use vstd::prelude::*;
use vstd::utf8::encode_utf8;

use crate::text::decimal;
use crate::x11::proxy_env::addresses_of;
use crate::x11::proxy_env::addresses_view;
use crate::x11::proxy_env::bind_listeners;
use crate::x11::proxy_env::has_port;
use crate::x11::proxy_env::provision_auth;
use crate::x11::proxy_env::proxy_display;
use crate::x11::proxy_env::real_display;
use crate::x11::proxy_env::restore_real_display;
use crate::x11::proxy_env::socket_name;
use crate::x11::proxy_env::start;
use crate::x11::proxy_env::start_needed;
use crate::x11::proxy_env::stop;
use crate::x11::proxy_env::upstream_addresses;
use crate::x11::proxy_env::write_xauth_entry;
use crate::x11::proxy_env::xauth_entry;
use crate::x11::proxy_env::BindNext;
use crate::x11::proxy_env::Display;
use crate::x11::proxy_env::EnvChange;
use crate::x11::proxy_env::ProxyState;
use crate::x11::proxy_env::StartNext;
use crate::x11::proxy_env::StartStep;
use crate::x11::proxy_env::UpstreamAddr;

verus! {

/// A variable that held `value` holds this after the change.
pub open spec fn holds_after(
    value: Option<Seq<char>>,
    change: EnvChange,
    now: Option<Seq<char>>,
) -> bool {
    match change {
        EnvChange::Assign(s) => now == Some(s@),
        EnvChange::Remove => now is None,
        EnvChange::Leave => now == value,
    }
}

pub open spec fn text_of(s: Option<String>) -> Option<Seq<char>> {
    match s {
        Some(s) => Some(s@),
        None => None,
    }
}

/// Starting points the display at the proxy, and the authority at the proxy's
/// own file where there is one; the real display can be asked for meanwhile.
/// Restoring puts both back to what they were, once; then the environment is
/// right by itself.
pub proof fn environment_is_put_back(
    a: &mut Option<ProxyState>,
    display: Option<String>,
    authority: Option<String>,
    number: u32,
    screen: u16,
    own: Option<String>,
    there: (EnvChange, EnvChange),
    named: String,
    upstream: Option<String>,
    b: &mut Option<ProxyState>,
    back: (EnvChange, EnvChange),
    after: Option<String>,
    c: &mut Option<ProxyState>,
    twice: (EnvChange, EnvChange),
    d1: Option<Seq<char>>,
    d2: Option<Seq<char>>,
    x1: Option<Seq<char>>,
    x2: Option<Seq<char>>,
)
    requires
        *old(a) is None,
        call_ensures(start, (a, display, authority, number, screen, own), there),
        call_ensures(proxy_display, (number, screen), named),
        call_ensures(real_display, (&*final(a),), upstream),
        *old(b) == *final(a),
        call_ensures(restore_real_display, (b,), back),
        call_ensures(real_display, (&*final(b),), after),
        *old(c) == *final(b),
        call_ensures(restore_real_display, (c,), twice),
        holds_after(text_of(display), there.0, d1),
        holds_after(text_of(authority), there.1, x1),
        holds_after(d1, back.0, d2),
        holds_after(x1, back.1, x2),
    ensures
        d1 == Some(named@),
        own is Some ==> x1 == text_of(own),
        own is None ==> x1 == text_of(authority),
        text_of(upstream) == text_of(display),
        d2 == text_of(display),
        x2 == text_of(authority),
        after is None,
        twice.0 is Leave && twice.1 is Leave,
{
    let st = final(a)->Some_0;
    assert(st.epoch == crate::x11::proxy_env::DisplayEpoch::Proxy);
}

/// Without a proxy there is nothing to ask or restore, and one has to be started;
/// a running one is stopped once.
pub proof fn no_proxy_changes_nothing(
    none: &mut Option<ProxyState>,
    r: Option<String>,
    back: (EnvChange, EnvChange),
    some: Option<ProxyState>,
    needed: bool,
    s: &mut Option<u64>,
    first: Option<u64>,
    t: &mut Option<u64>,
    second: Option<u64>,
)
    requires
        *old(none) is None,
        call_ensures(real_display, (&*old(none),), r),
        call_ensures(restore_real_display, (none,), back),
        call_ensures(start_needed, (&some,), needed),
        call_ensures(stop::<u64>, (s,), first),
        *old(t) == *final(s),
        call_ensures(stop::<u64>, (t,), second),
    ensures
        r is None && back.0 is Leave && back.1 is Leave && *final(none) is None,
        needed <==> some is None,
        first == *old(s) && second is None,
{
}

/// The steps of starting follow each other, from parsing to the acceptor, and a
/// socket's file is only removed once there is one.
pub proof fn steps_of_starting_follow_each_other(
    a: StartNext,
    b: StartNext,
    c: StartNext,
    d: StartNext,
    e: StartNext,
    step: StartStep,
    failed: StartNext,
)
    requires
        call_ensures(StartStep::next, (StartStep::ParseDisplay, true), a),
        a matches StartNext::Go(s) ==> call_ensures(StartStep::next, (s, true), b),
        b matches StartNext::Go(s) ==> call_ensures(StartStep::next, (s, true), c),
        c matches StartNext::Go(s) ==> call_ensures(StartStep::next, (s, true), d),
        d matches StartNext::Go(s) ==> call_ensures(StartStep::next, (s, true), e),
        call_ensures(StartStep::next, (step, false), failed),
    ensures
        a == StartNext::Go(StartStep::QueryRoots),
        b == StartNext::Go(StartStep::BindListeners),
        c == StartNext::Go(StartStep::MakeStop),
        d == StartNext::Go(StartStep::SpawnAcceptor),
        e is Repoint,
        failed matches StartNext::Fail { unlink_socket } && (unlink_socket <==> step
            == StartStep::MakeStop || step == StartStep::SpawnAcceptor),
{
}

/// A number is taken where both its sockets are free; the ones from 64 to 1023
/// are tried in turn.
pub proof fn first_free_number_is_taken(n: u32, a: bool, f: bool, r: BindNext)
    requires
        call_ensures(bind_listeners, (n, a, f), r),
        64 <= n < 1024,
    ensures
        r is Bound <==> a && f,
        r matches BindNext::Bound(m) ==> m == n,
        !(a && f) && n < 1023 ==> (r matches BindNext::Try(m) && m == n + 1),
        !(a && f) && n == 1023 ==> r is Exhausted,
{
}

/// A display string is a colon and the number, then the screen behind a dot
/// unless it is the first; a socket ends in the number.
pub proof fn display_is_named_by_number_and_screen(
    number: u32,
    screen: u16,
    r: String,
    socket: String,
    n: String,
    s: String,
)
    requires
        call_ensures(proxy_display, (number, screen), r),
        call_ensures(socket_name, (number,), socket),
        call_ensures(decimal, (number,), n),
        call_ensures(decimal, (screen as u32,), s),
    ensures
        r@[0] == ':',
        r@.subrange(1, 1 + n@.len() as int) == n@,
        screen == 0 ==> r@.len() == 1 + n@.len(),
        screen != 0 ==> r@.len() == 2 + n@.len() + s@.len() && r@[1 + n@.len() as int] == '.'
            && r@.subrange(2 + n@.len() as int, r@.len() as int) == s@,
        socket@.len() == 16 + n@.len(),
        socket@.subrange(16, socket@.len() as int) == n@,
        socket@.take(16) == "/tmp/.X11-unix/X"@,
{
    reveal_strlit(":");
    reveal_strlit(".");
    reveal_strlit("/tmp/.X11-unix/X");
    assert(r@.subrange(1, 1 + n@.len() as int) =~= n@);
    assert(socket@.subrange(16, socket@.len() as int) =~= n@);
    assert(socket@.take(16) =~= "/tmp/.X11-unix/X"@);
    if screen != 0 {
        assert(r@.subrange(2 + n@.len() as int, r@.len() as int) =~= s@);
    }
}

/// The way to the real server: a named host over the network alone; this machine
/// over the abstract socket, then the file, then, where no way is named, the
/// network. Ports count from 6000.
pub proof fn server_is_reached_as_named(d: Display, r: Vec<UpstreamAddr>, fits: bool, n: String)
    requires
        call_ensures(has_port, (&d,), fits),
        fits,
        call_ensures(upstream_addresses, (&d,), r),
        call_ensures(decimal, (d.display as u32,), n),
    ensures
        ({
            let unix = d.protocol is Some && d.protocol->Some_0@ == "unix"@;
            let named = d.host@.len() > 0 && d.host@ != "unix"@;
            &&& !unix && named ==> r@.len() == 1 && (r@[0] matches UpstreamAddr::Tcp(h, p) && h@
                == d.host@ && p == 6000 + d.display)
            &&& unix || d.protocol is None && !named ==> {
                &&& r@.len() >= 2
                &&& r@[0] == UpstreamAddr::Abstract(d.display)
                &&& r@[1] matches UpstreamAddr::Path(path)
                &&& path@ == "/tmp/.X11-unix/X"@ + n@
            }
            &&& unix || d.protocol is None && d.host@ == "unix"@ ==> r@.len() == 2
            &&& d.protocol is None && d.host@.len() == 0 ==> r@.len() == 3 && (
            r@[2] matches UpstreamAddr::Tcp(h, p) && h@ == "localhost"@ && p == 6000 + d.display)
        }),
{
    reveal_strlit("unix");
    let v = addresses_view(r@);
    assert(v.len() == r@.len());
    assert(forall|i: int| 0 <= i < r@.len() ==> v[i] == #[trigger] r@[i]@);
    let a = addresses_of(d);
    let unix = d.protocol is Some && d.protocol->Some_0@ == "unix"@;
    let named = d.host@.len() > 0 && d.host@ != "unix"@;
    if unix || d.protocol is None && !named {
        assert(a[0] is Path);
        assert(v[0] == r@[0]@);
        assert(v[1] == r@[1]@);
        assert(v[1] == a[0]);
        if d.protocol is None && d.host@.len() == 0 {
            assert(v[2] == r@[2]@);
            assert(v[2] == a[1]);
        }
    } else if !unix && named {
        assert(a.len() == 1 && !(a[0] is Path));
        assert(v == a);
        assert(v[0] == r@[0]@);
    }
}

/// A number that no port can be made of is refused only where a port is needed.
pub proof fn port_is_needed_for_the_network(d: Display, fits: bool)
    requires
        call_ensures(has_port, (&d,), fits),
    ensures
        d.display <= 59535 ==> fits,
        d.protocol is Some && d.protocol->Some_0@ == "unix"@ ==> fits,
        d.host@ == "unix"@ ==> fits,
        d.display > 59535 && d.protocol is None && d.host@ != "unix"@ ==> !fits,
{
    reveal_strlit("unix");
    assert("unix"@.len() == 4);
}

/// The length-prefixed block at `at` is `b`.
pub open spec fn block_at(s: Seq<u8>, at: int, b: Seq<u8>) -> bool {
    &&& at + 2 + b.len() <= s.len()
    &&& s[at] * 256 + s[at + 1] == b.len()
    &&& s.subrange(at + 2, at + 2 + b.len()) == b
}

/// An entry is appended: the family, then address, number, name and data, each
/// behind its length, and nothing else.
pub proof fn entry_is_appended_in_order(
    out: &mut Vec<u8>,
    family: u16,
    address: &[u8],
    number: &[u8],
    name: &[u8],
    data: &[u8],
    u: (),
)
    requires
        call_ensures(write_xauth_entry, (out, family, address, number, name, data), u),
        address@.len() < 65536,
        number@.len() < 65536,
        name@.len() < 65536,
        data@.len() < 65536,
    ensures
        ({
            let n = old(out)@.len() as int;
            let s = final(out)@;
            let a = n + 2;
            let b = a + 2 + address@.len();
            let c = b + 2 + number@.len();
            let d = c + 2 + name@.len();
            &&& s.take(n) == old(out)@
            &&& s[n] * 256 + s[n + 1] == family
            &&& block_at(s, a, address@)
            &&& block_at(s, b, number@)
            &&& block_at(s, c, name@)
            &&& block_at(s, d, data@)
            &&& s.len() == d + 2 + data@.len()
        }),
{
    let n = old(out)@.len() as int;
    let s = final(out)@;
    let e = xauth_entry(family, address@, number@, name@, data@);
    assert(s == old(out)@ + e);
    assert(s.take(n) =~= old(out)@);
    let a = 2int;
    let b = a + 2 + address@.len();
    let c = b + 2 + number@.len();
    let d = c + 2 + name@.len();
    entry_blocks(family, address@, number@, name@, data@);
    assert(forall|i: int| 0 <= i < e.len() ==> s[n + i] == #[trigger] e[i]);
    assert(s[n] == e[0] && s[n + 1] == e[1]);
    shifted(old(out)@, e, a, address@);
    shifted(old(out)@, e, b, number@);
    shifted(old(out)@, e, c, name@);
    shifted(old(out)@, e, d, data@);
}

proof fn shifted(before: Seq<u8>, e: Seq<u8>, at: int, b: Seq<u8>)
    requires
        0 <= at,
        block_at(e, at, b),
    ensures
        block_at(before + e, before.len() + at, b),
{
    let s = before + e;
    let n = before.len() as int;
    assert(s[n + at] == e[at] && s[n + at + 1] == e[at + 1]);
    assert(s.subrange(n + at + 2, n + at + 2 + b.len()) =~= e.subrange(at + 2, at + 2 + b.len()));
}

proof fn entry_blocks(
    family: u16,
    address: Seq<u8>,
    number: Seq<u8>,
    name: Seq<u8>,
    data: Seq<u8>,
)
    requires
        address.len() < 65536,
        number.len() < 65536,
        name.len() < 65536,
        data.len() < 65536,
    ensures
        ({
            let e = xauth_entry(family, address, number, name, data);
            let a = 2int;
            let b = a + 2 + address.len();
            let c = b + 2 + number.len();
            let d = c + 2 + name.len();
            &&& e[0] * 256 + e[1] == family
            &&& block_at(e, a, address)
            &&& block_at(e, b, number)
            &&& block_at(e, c, name)
            &&& block_at(e, d, data)
            &&& e.len() == d + 2 + data.len()
        }),
{
    let e = xauth_entry(family, address, number, name, data);
    let a = 2int;
    let b = a + 2 + address.len();
    let c = b + 2 + number.len();
    let d = c + 2 + name.len();
    assert(e.subrange(a + 2, a + 2 + address.len()) =~= address);
    assert(e.subrange(b + 2, b + 2 + number.len()) =~= number);
    assert(e.subrange(c + 2, c + 2 + name.len()) =~= name);
    assert(e.subrange(d + 2, d + 2 + data.len()) =~= data);
}

/// The authority file holds the cookie twice: under the proxy's number and under
/// the real one, each as an entry for the local host.
pub proof fn cookie_is_given_under_both_numbers(
    host: &[u8],
    display: u16,
    proxy: u32,
    name: &[u8],
    data: &[u8],
    r: Vec<u8>,
    own: String,
    upstream: String,
    first: &mut Vec<u8>,
    second: &mut Vec<u8>,
    own_bytes: &[u8],
    real_bytes: &[u8],
    u: (),
)
    requires
        call_ensures(provision_auth, (host, display, proxy, name, data), r),
        call_ensures(decimal, (proxy,), own),
        call_ensures(decimal, (display as u32,), upstream),
        own_bytes@ == encode_utf8(own@),
        real_bytes@ == encode_utf8(upstream@),
        old(first)@.len() == 0,
        call_ensures(write_xauth_entry, (first, 256u16, host, own_bytes, name, data), u),
        old(second)@ == final(first)@,
        call_ensures(write_xauth_entry, (second, 256u16, host, real_bytes, name, data), u),
    ensures
        r@ == final(second)@,
{
    assert(final(first)@ =~= xauth_entry(256u16, host@, own_bytes@, name@, data@));
}

} // verus!
