//! What surrounds the proxy: the display it listens on and the environment it
//! repoints, the addresses of the real server, and the authority file that lets
//! mpv in.

use vstd::prelude::*;
use vstd::string::StringExecFns;
use vstd::utf8::encode_utf8;
use x11rb::reexports::x11rb_protocol::parse_display::ConnectAddress;
use x11rb::reexports::x11rb_protocol::parse_display::ParsedDisplay;

use crate::text::decimal;
use crate::text::decimal_of;
use crate::text::same_text;
use crate::x11::wire::append;

verus! {

/// `FamilyLocal` in the authority file's format.
pub const FAMILY_LOCAL: u16 = 256;

/// Display numbers the proxy looks for a free socket among.
pub const FIRST_DISPLAY: u32 = 64;
pub const END_DISPLAY: u32 = 1024;

/// Which server the environment currently points at. The proxy repoints it to
/// itself only for mpv's connect.
#[derive(Clone, Copy, PartialEq, Eq, Structural, Debug)]
pub enum DisplayEpoch {
    /// Repointed to the proxy; mpv connects here.
    Proxy,
    /// Restored to the real server after mpv has connected.
    RealRestored,
}

/// A running proxy, as far as the environment goes.
pub struct ProxyState {
    pub orig_display: Option<String>,
    pub orig_xauth: Option<String>,
    /// An authority file of the proxy's own was put in place.
    pub own_xauth: bool,
    pub epoch: DisplayEpoch,
}

pub open spec fn text_view(s: Option<String>) -> Option<Seq<char>> {
    match s {
        Some(s) => Some(s@),
        None => None,
    }
}

fn clone_text(s: &Option<String>) -> (r: Option<String>)
    ensures
        text_view(r) == text_view(*s),
{
    match s {
        Some(s) => Some(s.clone()),
        None => None,
    }
}

/// The display string of the real server while the proxy has the environment
/// repointed, or `None` when it has not (callers then fall back to the
/// environment).
pub fn real_display(state: &Option<ProxyState>) -> (r: Option<String>)
    ensures
        text_view(r) == match *state {
            Some(st) => if st.epoch == DisplayEpoch::Proxy {
                text_view(st.orig_display)
            } else {
                None
            },
            None => None,
        },
{
    match state {
        Some(st) => {
            if st.epoch == DisplayEpoch::RealRestored {
                return None;
            }
            clone_text(&st.orig_display)
        },
        None => None,
    }
}

/// What happens to one environment variable.
pub enum EnvChange {
    Assign(String),
    Remove,
    Leave,
}

pub ghost enum EnvView {
    Assign(Seq<char>),
    Remove,
    Leave,
}

impl View for EnvChange {
    type V = EnvView;

    open spec fn view(&self) -> EnvView {
        match *self {
            EnvChange::Assign(s) => EnvView::Assign(s@),
            EnvChange::Remove => EnvView::Remove,
            EnvChange::Leave => EnvView::Leave,
        }
    }
}

/// The value of an environment variable after a change.
pub open spec fn applied(value: Option<Seq<char>>, change: EnvView) -> Option<Seq<char>> {
    match change {
        EnvView::Assign(s) => Some(s),
        EnvView::Remove => None,
        EnvView::Leave => value,
    }
}

/// What starting the proxy does to the display and the authority variable:
/// both point at the proxy, the second only where it has a file of its own.
pub open spec fn repointed(number: u32, screen: u16, xauth: Option<Seq<char>>) -> (
    EnvView,
    EnvView,
) {
    (
        EnvView::Assign(proxy_display_of(number, screen)),
        match xauth {
            Some(path) => EnvView::Assign(path),
            None => EnvView::Leave,
        },
    )
}

/// What putting the environment back does to the display and the authority
/// variable. The second is removed only where the proxy set one and there was
/// none before.
pub open spec fn restored(st: ProxyState) -> (EnvView, EnvView) {
    if st.epoch == DisplayEpoch::RealRestored {
        (EnvView::Leave, EnvView::Leave)
    } else {
        (
            match st.orig_display {
                Some(d) => EnvView::Assign(d@),
                None => EnvView::Remove,
            },
            match st.orig_xauth {
                Some(x) => EnvView::Assign(x@),
                None => if st.own_xauth {
                    EnvView::Remove
                } else {
                    EnvView::Leave
                },
            },
        )
    }
}

/// Whether the proxy has to be started; a running one is enough.
pub fn start_needed(state: &Option<ProxyState>) -> (r: bool)
    ensures
        r == (state is None),
{
    state.is_none()
}

/// The steps of starting the proxy, in order. Each can fail.
#[derive(Clone, Copy, PartialEq, Eq, Structural, Debug)]
pub enum StartStep {
    /// Reading the display string.
    ParseDisplay,
    /// Asking the real server for its root windows.
    QueryRoots,
    /// Binding both sockets of a free display number.
    BindListeners,
    /// Making the signal that stops the acceptor.
    MakeStop,
    /// Starting the acceptor's thread.
    SpawnAcceptor,
}

/// What follows a step.
#[derive(Clone, Copy, PartialEq, Eq, Structural, Debug)]
pub enum StartNext {
    Go(StartStep),
    /// The proxy runs: the environment is repointed.
    Repoint,
    /// The environment stays as it is. The bound socket's file, where there is
    /// one by now, goes.
    Fail { unlink_socket: bool },
}

impl StartStep {
    pub fn next(self, done: bool) -> (r: StartNext)
        ensures
            r == (if done {
                match self {
                    StartStep::ParseDisplay => StartNext::Go(StartStep::QueryRoots),
                    StartStep::QueryRoots => StartNext::Go(StartStep::BindListeners),
                    StartStep::BindListeners => StartNext::Go(StartStep::MakeStop),
                    StartStep::MakeStop => StartNext::Go(StartStep::SpawnAcceptor),
                    StartStep::SpawnAcceptor => StartNext::Repoint,
                }
            } else {
                StartNext::Fail {
                    unlink_socket: self == StartStep::MakeStop || self == StartStep::SpawnAcceptor,
                }
            }),
    {
        match (self, done) {
            (StartStep::ParseDisplay, true) => StartNext::Go(StartStep::QueryRoots),
            (StartStep::QueryRoots, true) => StartNext::Go(StartStep::BindListeners),
            (StartStep::BindListeners, true) => StartNext::Go(StartStep::MakeStop),
            (StartStep::MakeStop, true) => StartNext::Go(StartStep::SpawnAcceptor),
            (StartStep::SpawnAcceptor, true) => StartNext::Repoint,
            (StartStep::MakeStop, false) | (StartStep::SpawnAcceptor, false) => StartNext::Fail {
                unlink_socket: true,
            },
            (_, false) => StartNext::Fail { unlink_socket: false },
        }
    }
}

/// What follows an attempt to bind a display number.
#[derive(Clone, Copy, PartialEq, Eq, Structural, Debug)]
pub enum BindNext {
    Bound(u32),
    Try(u32),
    /// No display number is free.
    Exhausted,
}

/// Takes a display number whose sockets are both free, the abstract one and the
/// file, so that every client finds the proxy; else the next one is tried.
pub fn bind_listeners(number: u32, abstract_free: bool, file_free: bool) -> (r: BindNext)
    requires
        FIRST_DISPLAY <= number < END_DISPLAY,
    ensures
        r == (if abstract_free && file_free {
            BindNext::Bound(number)
        } else if number + 1 < END_DISPLAY {
            BindNext::Try((number + 1) as u32)
        } else {
            BindNext::Exhausted
        }),
{
    if abstract_free && file_free {
        return BindNext::Bound(number);
    }
    if number + 1 < END_DISPLAY {
        BindNext::Try(number + 1)
    } else {
        BindNext::Exhausted
    }
}

/// The proxy runs: notes what the environment was, and returns what becomes of
/// the display and of the authority variable. `xauth` is the proxy's own
/// authority file, where it could be provided.
pub fn start(
    state: &mut Option<ProxyState>,
    orig_display: Option<String>,
    orig_xauth: Option<String>,
    number: u32,
    screen: u16,
    xauth: Option<String>,
) -> (r: (EnvChange, EnvChange))
    requires
        *old(state) is None,
    ensures
        (r.0@, r.1@) == repointed(number, screen, text_view(xauth)),
        *final(state) == Some(
            ProxyState {
                orig_display,
                orig_xauth,
                own_xauth: xauth is Some,
                epoch: DisplayEpoch::Proxy,
            },
        ),
{
    let display = EnvChange::Assign(proxy_display(number, screen));
    let own_xauth = xauth.is_some();
    let authority = match xauth {
        Some(path) => EnvChange::Assign(path),
        None => EnvChange::Leave,
    };
    *state = Some(ProxyState { orig_display, orig_xauth, own_xauth, epoch: DisplayEpoch::Proxy });
    (display, authority)
}

/// Puts the environment back to the real server, once. Returns what becomes of
/// the display and of the authority variable.
pub fn restore_real_display(state: &mut Option<ProxyState>) -> (r: (EnvChange, EnvChange))
    ensures
        match *old(state) {
            Some(a) => {
                &&& (r.0@, r.1@) == restored(a)
                &&& *final(state) == Some(ProxyState { epoch: DisplayEpoch::RealRestored, ..a })
            },
            None => {
                &&& r.0@ == EnvView::Leave
                &&& r.1@ == EnvView::Leave
                &&& *final(state) is None
            },
        },
{
    match state.take() {
        None => (EnvChange::Leave, EnvChange::Leave),
        Some(st) => {
            let mut st = st;
            if st.epoch == DisplayEpoch::RealRestored {
                *state = Some(st);
                return (EnvChange::Leave, EnvChange::Leave);
            }
            st.epoch = DisplayEpoch::RealRestored;
            let display = match &st.orig_display {
                Some(d) => EnvChange::Assign(d.clone()),
                None => EnvChange::Remove,
            };
            let xauth = match &st.orig_xauth {
                Some(x) => EnvChange::Assign(x.clone()),
                None => if st.own_xauth {
                    EnvChange::Remove
                } else {
                    EnvChange::Leave
                },
            };
            *state = Some(st);
            (display, xauth)
        },
    }
}

/// Putting the environment back after the proxy was started leaves both
/// variables as they were before it, whatever they were.
pub proof fn restoring_undoes_repointing(
    st: ProxyState,
    number: u32,
    screen: u16,
    xauth: Option<Seq<char>>,
)
    requires
        st.epoch == DisplayEpoch::Proxy,
        st.own_xauth == (xauth is Some),
    ensures
        ({
            let there = repointed(number, screen, xauth);
            let back = restored(st);
            let display = text_view(st.orig_display);
            let authority = text_view(st.orig_xauth);
            &&& applied(applied(display, there.0), back.0) == display
            &&& applied(applied(authority, there.1), back.1) == authority
        }),
{
}

/// Takes the running proxy, to be stopped; a second call finds none.
pub fn stop<P>(state: &mut Option<P>) -> (r: Option<P>)
    ensures
        r == *old(state),
        *final(state) is None,
{
    state.take()
}

pub open spec fn proxy_display_of(number: u32, screen: u16) -> Seq<char> {
    if screen == 0 {
        ":"@ + decimal_of(number as nat)
    } else {
        ":"@ + decimal_of(number as nat) + "."@ + decimal_of(screen as nat)
    }
}

/// The display string of the proxy: its own number, the real screen.
pub fn proxy_display(number: u32, screen: u16) -> (r: String)
    ensures
        r@ == proxy_display_of(number, screen),
{
    let mut r = ":".to_owned();
    let n = decimal(number);
    r.append(n.as_str());
    if screen != 0 {
        r.append(".");
        let s = decimal(screen as u32);
        r.append(s.as_str());
    }
    r
}

/// The socket of a display number, in the abstract namespace and as a file.
pub fn socket_name(number: u32) -> (r: String)
    ensures
        r@ == "/tmp/.X11-unix/X"@ + decimal_of(number as nat),
{
    let mut r = "/tmp/.X11-unix/X".to_owned();
    let n = decimal(number);
    r.append(n.as_str());
    r
}

/// A parsed display string.
pub struct Display {
    pub host: String,
    pub protocol: Option<String>,
    pub display: u16,
    pub screen: u16,
}

/// One way to reach a server, in the order they are to be tried.
pub enum UpstreamAddr {
    Abstract(u16),
    Path(String),
    Tcp(String, u16),
}

pub ghost enum UpstreamView {
    Abstract(u16),
    Path(Seq<char>),
    Tcp(Seq<char>, u16),
}

impl View for UpstreamAddr {
    type V = UpstreamView;

    open spec fn view(&self) -> UpstreamView {
        match *self {
            UpstreamAddr::Abstract(n) => UpstreamView::Abstract(n),
            UpstreamAddr::Path(p) => UpstreamView::Path(p@),
            UpstreamAddr::Tcp(h, p) => UpstreamView::Tcp(h@, p),
        }
    }
}

pub open spec fn addresses_view(a: Seq<UpstreamAddr>) -> Seq<UpstreamView> {
    Seq::new(a.len(), |i: int| a[i]@)
}

/// Whether a display is reached over the network alone.
pub open spec fn is_remote(d: Display) -> bool {
    text_view(d.protocol) != Some("unix"@) && d.host@.len() > 0 && d.host@ != "unix"@
}

/// The addresses a display string stands for: the named host over the network,
/// else the local socket and, with nothing named at all, the local host.
pub open spec fn addresses_of(d: Display) -> Seq<UpstreamView> {
    if is_remote(d) {
        seq![UpstreamView::Tcp(d.host@, (6000 + d.display) as u16)]
    } else {
        (if d.protocol is None || text_view(d.protocol) == Some("unix"@) {
            seq![UpstreamView::Path("/tmp/.X11-unix/X"@ + decimal_of(d.display as nat))]
        } else {
            seq![]
        }) + (if d.protocol is None && d.host@.len() == 0 {
            seq![UpstreamView::Tcp("localhost"@, (6000 + d.display) as u16)]
        } else {
            seq![]
        })
    }
}

/// A display reached over the network, or perhaps so, has a number that a port
/// can be made of. Ports start at 6000.
pub open spec fn port_fits(d: Display) -> bool {
    is_remote(d) || (d.protocol is None && d.host@.len() == 0) ==> 6000 + d.display <= u16::MAX
}

/// Whether a display's number can be made a port of, as far as one is needed.
pub fn has_port(d: &Display) -> (r: bool)
    ensures
        r == port_fits(*d),
{
    let unix = match &d.protocol {
        Some(p) => same_text(p.as_str(), "unix"),
        None => false,
    };
    let named = !d.host.as_str().is_empty();
    let remote = !unix && named && !same_text(d.host.as_str(), "unix");
    let anywhere = d.protocol.is_none() && !named;
    !(remote || anywhere) || 6000 + d.display as u32 <= 65535
}

/// `ParsedDisplay::connect_instruction`: the addresses of a display, as
/// [`addresses_of`] lists them. A display whose port would overflow is left out.
#[verifier::external_body]
fn connect_addresses(d: &Display) -> (r: Vec<UpstreamAddr>)
    requires
        port_fits(*d),
    ensures
        addresses_view(r@) == addresses_of(*d),
{
    let parsed = ParsedDisplay {
        host: d.host.clone(),
        protocol: d.protocol.clone(),
        display: d.display,
        screen: d.screen,
    };
    parsed.connect_instruction().map(|c| match c {
        ConnectAddress::Hostname(host, port) => UpstreamAddr::Tcp(host.to_string(), port),
        ConnectAddress::Socket(path) => UpstreamAddr::Path(path),
        _ => UpstreamAddr::Abstract(d.display),
    }).collect()
}

/// The addresses to try for the real server, the abstract socket first where it
/// is a local one.
pub open spec fn upstream_of(d: Display) -> Seq<UpstreamView> {
    let a = addresses_of(d);
    if exists|i: int| 0 <= i < a.len() && #[trigger] a[i] is Path {
        seq![UpstreamView::Abstract(d.display)] + a
    } else {
        a
    }
}

pub fn upstream_addresses(d: &Display) -> (r: Vec<UpstreamAddr>)
    requires
        port_fits(*d),
    ensures
        addresses_view(r@) == upstream_of(*d),
{
    let mut candidates = connect_addresses(d);
    let ghost views = addresses_of(*d);
    let mut local = false;
    let mut i: usize = 0;
    while i < candidates.len()
        invariant
            i <= candidates@.len(),
            addresses_view(candidates@) == views,
            local == (exists|j: int| 0 <= j < i && #[trigger] views[j] is Path),
        decreases candidates@.len() - i,
    {
        assert(views[i as int] == candidates@[i as int]@);
        if let UpstreamAddr::Path(_) = &candidates[i] {
            local = true;
        }
        i += 1;
    }
    assert(views.len() == candidates@.len());
    if local {
        let mut r: Vec<UpstreamAddr> = Vec::new();
        r.push(UpstreamAddr::Abstract(d.display));
        let ghost before = candidates@;
        r.append(&mut candidates);
        assert(addresses_view(r@) =~= seq![UpstreamView::Abstract(d.display)] + addresses_view(
            before,
        ));
        r
    } else {
        candidates
    }
}

/// A local server is tried over its abstract socket, then over its file.
pub proof fn local_display_is_tried_locally_first(d: Display)
    requires
        !is_remote(d),
        d.protocol is None,
    ensures
        upstream_of(d).len() >= 2,
        upstream_of(d)[0] == UpstreamView::Abstract(d.display),
        upstream_of(d)[1] == UpstreamView::Path("/tmp/.X11-unix/X"@ + decimal_of(d.display as nat)),
{
    assert(addresses_of(d)[0] is Path);
}

/// A 16-bit number, most significant byte first.
pub open spec fn be16(v: int) -> Seq<u8> {
    seq![(v / 256 % 256) as u8, (v % 256) as u8]
}

/// A length-prefixed block of the authority file.
pub open spec fn xauth_block(b: Seq<u8>) -> Seq<u8> {
    be16(b.len() as int) + b
}

/// One entry of the authority file.
pub open spec fn xauth_entry(
    family: u16,
    address: Seq<u8>,
    number: Seq<u8>,
    name: Seq<u8>,
    data: Seq<u8>,
) -> Seq<u8> {
    be16(family as int) + xauth_block(address) + xauth_block(number) + xauth_block(name)
        + xauth_block(data)
}

fn write_be16(out: &mut Vec<u8>, v: u16)
    ensures
        final(out)@ == old(out)@ + be16(v as int),
{
    let ghost before = out@;
    out.push((v / 256) as u8);
    out.push((v % 256) as u8);
    assert(out@ =~= before + be16(v as int));
}

/// Only the low 16 bits of a number are written.
proof fn be16_of_low_bits(v: int)
    requires
        0 <= v,
    ensures
        be16(v % 65536) == be16(v),
{
    let q = v / 65536;
    let low = v % 65536;
    assert(v == 256 * (256 * q) + low);
    assert(v / 256 == 256 * q + low / 256);
    assert(v % 256 == low % 256);
    assert(v / 256 % 256 == low / 256 % 256);
}

fn write_block(out: &mut Vec<u8>, b: &[u8])
    ensures
        final(out)@ == old(out)@ + xauth_block(b@),
{
    let ghost before = out@;
    let len: usize = b.len();
    let low: u16 = (len % 65536) as u16;
    write_be16(out, low);
    append(out, b);
    proof {
        be16_of_low_bits(len as int);
    }
    assert(out@ =~= before + xauth_block(b@));
}

/// Appends one entry of the authority file. Lengths have 16 bits.
pub fn write_xauth_entry(
    out: &mut Vec<u8>,
    family: u16,
    address: &[u8],
    number: &[u8],
    name: &[u8],
    data: &[u8],
)
    ensures
        final(out)@ == old(out)@ + xauth_entry(family, address@, number@, name@, data@),
{
    let ghost before = out@;
    write_be16(out, family);
    write_block(out, address);
    write_block(out, number);
    write_block(out, name);
    write_block(out, data);
    assert(out@ =~= before + xauth_entry(family, address@, number@, name@, data@));
}

/// The authority file for mpv: the real display's cookie under the proxy's
/// number, for mpv, and under the real number, for app connections made while
/// the variable is repointed.
pub fn provision_auth(host: &[u8], display: u16, proxy_number: u32, name: &[u8], data: &[u8]) -> (r:
    Vec<u8>)
    ensures
        r@ == xauth_entry(
            FAMILY_LOCAL,
            host@,
            encode_utf8(decimal_of(proxy_number as nat)),
            name@,
            data@,
        ) + xauth_entry(
            FAMILY_LOCAL,
            host@,
            encode_utf8(decimal_of(display as nat)),
            name@,
            data@,
        ),
{
    let mut out: Vec<u8> = Vec::new();
    let proxied = decimal(proxy_number);
    let own = decimal(display as u32);
    write_xauth_entry(&mut out, FAMILY_LOCAL, host, proxied.as_str().as_bytes(), name, data);
    let ghost first = out@;
    assert(first =~= xauth_entry(
        FAMILY_LOCAL,
        host@,
        encode_utf8(decimal_of(proxy_number as nat)),
        name@,
        data@,
    ));
    write_xauth_entry(&mut out, FAMILY_LOCAL, host, own.as_str().as_bytes(), name, data);
    out
}

/// What a reader of the authority file finds: the block that was written, and
/// the rest behind it.
pub proof fn xauth_block_reads_back(b: Seq<u8>, rest: Seq<u8>)
    requires
        b.len() < 65536,
    ensures
        ({
            let s = xauth_block(b) + rest;
            let n = s[0] * 256 + s[1];
            &&& n == b.len()
            &&& s.subrange(2, 2 + n) == b
            &&& s.subrange(2 + n, s.len() as int) == rest
        }),
{
    let s = xauth_block(b) + rest;
    let n = s[0] * 256 + s[1];
    assert(n == b.len());
    assert(s.subrange(2, 2 + n) =~= b);
    assert(s.subrange(2 + n, s.len() as int) =~= rest);
}

} // verus!
