use std::borrow::Cow;

use jellium_platform::x11::mpv_proxy::publish_host_geometry;
use jellium_platform::x11::mpv_proxy::set_embed_context;
use jellium_platform::x11::mpv_proxy::EventFramer;
use jellium_platform::x11::mpv_proxy::ReplyPump;
use jellium_platform::x11::mpv_proxy::ReqParser;
use jellium_platform::x11::mpv_proxy::RequestPump;
use jellium_platform::x11::mpv_proxy::SharedEmbed;
use jellium_platform::x11::wire::NativeOrder;
use x11rb::reexports::x11rb_protocol::protocol::xfixes::HIDE_CURSOR_REQUEST;
use x11rb::reexports::x11rb_protocol::protocol::xfixes::SHOW_CURSOR_REQUEST;
use x11rb::reexports::x11rb_protocol::protocol::xproto::ChangePropertyRequest;
use x11rb::reexports::x11rb_protocol::protocol::xproto::ChangeWindowAttributesAux;
use x11rb::reexports::x11rb_protocol::protocol::xproto::ChangeWindowAttributesRequest;
use x11rb::reexports::x11rb_protocol::protocol::xproto::Circulate;
use x11rb::reexports::x11rb_protocol::protocol::xproto::CirculateWindowRequest;
use x11rb::reexports::x11rb_protocol::protocol::xproto::ConfigureNotifyEvent;
use x11rb::reexports::x11rb_protocol::protocol::xproto::ConfigureWindowAux;
use x11rb::reexports::x11rb_protocol::protocol::xproto::ConfigureWindowRequest;
use x11rb::reexports::x11rb_protocol::protocol::xproto::CreateWindowAux;
use x11rb::reexports::x11rb_protocol::protocol::xproto::CreateWindowRequest;
use x11rb::reexports::x11rb_protocol::protocol::xproto::EventMask;
use x11rb::reexports::x11rb_protocol::protocol::xproto::PropMode;
use x11rb::reexports::x11rb_protocol::protocol::xproto::SendEventRequest;
use x11rb::reexports::x11rb_protocol::protocol::xproto::SetupRequest;
use x11rb::reexports::x11rb_protocol::protocol::xproto::WindowClass;
use x11rb::reexports::x11rb_protocol::protocol::xproto::CLIENT_MESSAGE_EVENT;
use x11rb::reexports::x11rb_protocol::protocol::xproto::CONFIGURE_NOTIFY_EVENT;
use x11rb::reexports::x11rb_protocol::protocol::xproto::GE_GENERIC_EVENT;
use x11rb::reexports::x11rb_protocol::protocol::xproto::NO_OPERATION_REQUEST;
use x11rb::reexports::x11rb_protocol::x11_utils::parse_request_header;
use x11rb::reexports::x11rb_protocol::x11_utils::BigRequests;
use x11rb::reexports::x11rb_protocol::x11_utils::Serialize;

const ROOT: u32 = 1;
const VIDEO_HOST: u32 = 100;
const NET_WM_STATE: u32 = 555;

/// One direction of a connection together with what it shares.
struct Client {
    embed: SharedEmbed,
    blind: bool,
    parser: ReqParser,
}

fn shared(xfixes: Option<u8>) -> SharedEmbed {
    let mut s = SharedEmbed::new();
    set_embed_context(&mut s, VIDEO_HOST, NET_WM_STATE, xfixes, 800, 600);
    s
}

fn native() -> u8 {
    if NativeOrder::detect().is_little() {
        b'l'
    } else {
        b'B'
    }
}

#[test]
fn native_order_is_the_machines() {
    let order = NativeOrder::detect();
    assert_eq!(order.is_little(), 1u16.to_ne_bytes() == [1, 0]);
    assert_eq!(order.setup_byte(), native());
    assert_eq!(order.u16_at(&0x1234u16.to_ne_bytes(), 0), 0x1234);
    assert_eq!(order.u32_at(&0x1234_5678u32.to_ne_bytes(), 0), 0x1234_5678);
}

fn setup_bytes() -> Vec<u8> {
    SetupRequest {
        byte_order: native(),
        protocol_major_version: 11,
        protocol_minor_version: 0,
        authorization_protocol_name: Vec::new(),
        authorization_protocol_data: Vec::new(),
    }
    .serialize()
}

impl Client {
    fn process(&mut self, bytes: &[u8], out: &mut Vec<u8>) -> usize {
        self.parser.process(&mut self.embed, &mut self.blind, bytes, out)
    }

    /// Feed a whole buffer and assert it is fully consumed.
    fn feed(&mut self, bytes: &[u8]) -> Vec<u8> {
        let mut out = Vec::new();
        assert_eq!(self.process(bytes, &mut out), bytes.len());
        out
    }
}

fn started(embed: SharedEmbed) -> Client {
    let parser = ReqParser::new(vec![ROOT], &embed);
    let mut c = Client { embed, blind: false, parser };
    let setup = setup_bytes();
    assert_eq!(c.feed(&setup), setup);
    c
}

fn create_window(parent: u32, wid: u32, aux: CreateWindowAux) -> Vec<u8> {
    let (bufs, _) = CreateWindowRequest {
        depth: 0,
        wid,
        parent,
        x: 0,
        y: 0,
        width: 10,
        height: 10,
        border_width: 0,
        class: WindowClass::INPUT_OUTPUT,
        visual: 0,
        value_list: Cow::Owned(aux),
    }
    .serialize();
    bufs.concat()
}

fn configure_window(window: u32) -> Vec<u8> {
    let (bufs, _) = ConfigureWindowRequest {
        window,
        value_list: Cow::Owned(ConfigureWindowAux::new().width(64)),
    }
    .serialize();
    bufs.concat()
}

fn change_property(window: u32, property: u32) -> Vec<u8> {
    let (bufs, _) = ChangePropertyRequest {
        mode: PropMode::REPLACE,
        window,
        property,
        type_: 4,
        format: 32,
        data_len: 1,
        data: Cow::Owned(vec![0u8; 4]),
    }
    .serialize();
    bufs.concat()
}

fn send_event(msg_type: u32) -> Vec<u8> {
    let mut event = [0u8; 32];
    event[0] = CLIENT_MESSAGE_EVENT;
    event[1] = 32;
    event[8..12].copy_from_slice(&msg_type.to_ne_bytes());
    let (bufs, _) = SendEventRequest {
        propagate: false,
        destination: ROOT,
        event_mask: EventMask::SUBSTRUCTURE_NOTIFY,
        event: Cow::Owned(event),
    }
    .serialize();
    bufs.concat()
}

fn change_attributes(window: u32, aux: ChangeWindowAttributesAux) -> Vec<u8> {
    let (bufs, _) =
        ChangeWindowAttributesRequest { window, value_list: Cow::Owned(aux) }.serialize();
    bufs.concat()
}

#[test]
fn embed_subwindow_captured_and_configure_neutralized() {
    let mut p = started(shared(None));

    let cw = create_window(VIDEO_HOST, 200, CreateWindowAux::new());
    assert_eq!(p.feed(&cw), cw);
    assert_eq!(p.embed.embed_window, 200);

    let cfg = configure_window(200);
    let out = p.feed(&cfg);
    assert_eq!(out[0], NO_OPERATION_REQUEST);
    assert_eq!(out.len(), cfg.len());

    let other = configure_window(999);
    assert_eq!(p.feed(&other), other);
}

#[test]
fn toplevel_backstop_rewrites() {
    let mut p = started(shared(None));

    let cw = create_window(ROOT, 300, CreateWindowAux::new());
    let out = p.feed(&cw);
    let (header, body) = parse_request_header(&out, BigRequests::Enabled).unwrap();
    let req = CreateWindowRequest::try_parse_request(header, body).unwrap();
    assert_eq!(req.value_list.override_redirect, Some(1));

    let cfg = configure_window(300);
    assert_eq!(p.feed(&cfg)[0], NO_OPERATION_REQUEST);

    let prop = change_property(300, NET_WM_STATE);
    assert_eq!(p.feed(&prop)[0], NO_OPERATION_REQUEST);

    let benign = change_property(300, 42);
    assert_eq!(p.feed(&benign), benign);

    let untracked = change_property(999, NET_WM_STATE);
    assert_eq!(p.feed(&untracked), untracked);
}

#[test]
fn wm_state_send_event_neutralized() {
    let mut p = started(shared(None));

    let ev = send_event(NET_WM_STATE);
    assert_eq!(p.feed(&ev)[0], NO_OPERATION_REQUEST);

    let benign = send_event(42);
    assert_eq!(p.feed(&benign), benign);
}

#[test]
fn circulate_neutralized() {
    let mut p = started(shared(None));
    let (bufs, _) =
        CirculateWindowRequest { direction: Circulate::RAISE_LOWEST, window: 5 }.serialize();
    let raw = bufs.concat();
    assert_eq!(p.feed(&raw)[0], NO_OPERATION_REQUEST);
}

#[test]
fn cursor_value_stripped() {
    let mut p = started(shared(None));

    let raw = change_attributes(
        5,
        ChangeWindowAttributesAux::new().event_mask(EventMask::STRUCTURE_NOTIFY).cursor(77),
    );
    let out = p.feed(&raw);
    let (header, body) = parse_request_header(&out, BigRequests::Enabled).unwrap();
    let req = ChangeWindowAttributesRequest::try_parse_request(header, body).unwrap();
    assert_eq!(req.value_list.cursor, None);
    assert_eq!(req.value_list.event_mask, Some(EventMask::STRUCTURE_NOTIFY));

    let no_cursor = change_attributes(5, ChangeWindowAttributesAux::new().background_pixel(0));
    assert_eq!(p.feed(&no_cursor), no_cursor);
}

#[test]
fn xfixes_cursor_neutralized() {
    let mut p = started(shared(Some(140)));

    for minor in [HIDE_CURSOR_REQUEST, SHOW_CURSOR_REQUEST] {
        let mut raw = vec![140, minor];
        raw.extend_from_slice(&2u16.to_ne_bytes());
        raw.extend_from_slice(&5u32.to_ne_bytes());
        assert_eq!(p.feed(&raw)[0], NO_OPERATION_REQUEST);
    }

    let mut p = started(shared(None));
    let mut raw = vec![140, HIDE_CURSOR_REQUEST];
    raw.extend_from_slice(&2u16.to_ne_bytes());
    raw.extend_from_slice(&5u32.to_ne_bytes());
    assert_eq!(p.feed(&raw), raw);
}

#[test]
fn split_request_held_until_complete() {
    let mut p = started(shared(None));
    let cfg = configure_window(999);
    let mut out = Vec::new();
    assert_eq!(p.process(&cfg[..5], &mut out), 0);
    assert!(out.is_empty());
    assert_eq!(p.feed(&cfg), cfg);
}

fn setup_reply() -> Vec<u8> {
    let mut b = vec![1u8, 0];
    b.extend_from_slice(&11u16.to_ne_bytes());
    b.extend_from_slice(&0u16.to_ne_bytes());
    b.extend_from_slice(&2u16.to_ne_bytes());
    b.extend_from_slice(&[0u8; 8]);
    b
}

struct Server {
    embed: SharedEmbed,
    blind: bool,
    framer: EventFramer,
}

impl Server {
    fn process(&mut self, bytes: &[u8], out: &mut Vec<u8>) -> usize {
        self.framer.process(&self.embed, &mut self.blind, bytes, out)
    }
}

fn started_framer(embed: SharedEmbed) -> Server {
    let mut f = Server { embed, blind: false, framer: EventFramer::new() };
    let setup = setup_reply();
    let mut out = Vec::new();
    assert_eq!(f.process(&setup, &mut out), setup.len());
    assert_eq!(out, setup);
    f
}

fn configure_notify(window: u32, width: u16, height: u16) -> [u8; 32] {
    (&ConfigureNotifyEvent {
        response_type: CONFIGURE_NOTIFY_EVENT,
        sequence: 7,
        event: window,
        window,
        above_sibling: 0,
        x: 0,
        y: 0,
        width,
        height,
        border_width: 0,
        override_redirect: false,
    })
        .into()
}

#[test]
fn framer_reply_and_generic_event_framing() {
    let mut f = started_framer(shared(None));

    let mut reply = vec![0u8; 36];
    reply[0] = 1;
    reply[4..8].copy_from_slice(&1u32.to_ne_bytes());
    let mut out = Vec::new();
    assert_eq!(f.process(&reply[..35], &mut out), 0);
    assert!(out.is_empty());
    assert_eq!(f.process(&reply, &mut out), reply.len());
    assert_eq!(out, reply);

    let mut generic = vec![0u8; 40];
    generic[0] = GE_GENERIC_EVENT;
    generic[4..8].copy_from_slice(&2u32.to_ne_bytes());
    let mut out = Vec::new();
    assert_eq!(f.process(&generic, &mut out), generic.len());
    assert_eq!(out, generic);
}

#[test]
fn framer_drops_stale_host_configure_notify() {
    let mut f = started_framer(shared(None));

    let stale = configure_notify(VIDEO_HOST, 500, 400);
    let mut out = Vec::new();
    assert_eq!(f.process(&stale, &mut out), stale.len());
    assert!(out.is_empty());

    let settled = configure_notify(VIDEO_HOST, 800, 600);
    let mut out = Vec::new();
    assert_eq!(f.process(&settled, &mut out), settled.len());
    assert_eq!(out, settled);

    let other = configure_notify(999, 500, 400);
    let mut out = Vec::new();
    assert_eq!(f.process(&other, &mut out), other.len());
    assert_eq!(out, other);
}

#[test]
fn framer_without_context_forwards_everything() {
    let mut f = started_framer(SharedEmbed::new());
    let ev = configure_notify(VIDEO_HOST, 500, 400);
    let mut out = Vec::new();
    assert_eq!(f.process(&ev, &mut out), ev.len());
    assert_eq!(out, ev);
}

#[test]
fn published_geometry_decides_what_is_stale() {
    let mut f = started_framer(shared(None));
    publish_host_geometry(&mut f.embed, 500, 400);
    let ev = configure_notify(VIDEO_HOST, 500, 400);
    let mut out = Vec::new();
    assert_eq!(f.process(&ev, &mut out), 32);
    assert_eq!(out, ev);
    let sent = {
        let mut ev = configure_notify(VIDEO_HOST, 1, 1);
        ev[0] |= 0x80;
        ev
    };
    out.clear();
    assert_eq!(f.process(&sent, &mut out), 32);
    assert!(out.is_empty());
}

#[test]
fn rewriting_keeps_the_other_values() {
    let mut p = started(shared(None));
    let aux = CreateWindowAux::new()
        .background_pixel(11)
        .override_redirect(0)
        .event_mask(EventMask::EXPOSURE)
        .cursor(12);
    let mut raw = create_window(ROOT, 300, aux);
    raw[1] = 24;
    let out = p.feed(&raw);
    assert_eq!(out.len(), raw.len());
    let (header, body) = parse_request_header(&out, BigRequests::Enabled).unwrap();
    assert_eq!(header.remaining_length as usize * 4, body.len());
    let req = CreateWindowRequest::try_parse_request(header, body).unwrap();
    assert_eq!((req.depth, req.wid, req.parent, req.width), (24, 300, ROOT, 10));
    assert_eq!(req.value_list.background_pixel, Some(11));
    assert_eq!(req.value_list.override_redirect, Some(1));
    assert_eq!(req.value_list.event_mask, Some(EventMask::EXPOSURE));
    assert_eq!(req.value_list.cursor, Some(12));

    let plain = create_window(77, 301, CreateWindowAux::new());
    assert_eq!(p.feed(&plain), plain);
    assert_eq!(p.feed(&configure_window(301)), configure_window(301));
}

#[test]
fn focus_is_never_taken() {
    let mut p = started(shared(None));
    let mut raw = vec![42u8, 0];
    raw.extend_from_slice(&3u16.to_ne_bytes());
    raw.extend_from_slice(&[0u8; 8]);
    let out = p.feed(&raw);
    assert_eq!((out[0], out.len()), (NO_OPERATION_REQUEST, raw.len()));
    assert_eq!(&out[1..], &raw[1..]);
}

#[test]
fn foreign_byte_order_is_relayed_verbatim_for_good() {
    let embed = shared(None);
    let parser = ReqParser::new(vec![ROOT], &embed);
    let mut c = Client { embed, blind: false, parser };
    let foreign = if native() == b'l' { vec![b'B', 0, 1] } else { vec![b'l', 0, 1] };
    assert_eq!(c.feed(&foreign), foreign);
    assert!(c.blind);
    let cfg = configure_window(200);
    assert_eq!(c.feed(&cfg), cfg);
}

#[test]
fn impossible_lengths_end_the_framing() {
    let mut p = started(shared(None));
    let mut raw = vec![1u8, 0, 0, 0];
    raw.extend_from_slice(&1u32.to_ne_bytes());
    assert_eq!(p.feed(&raw), raw);
    assert!(p.blind);

    let mut p = started(shared(None));
    let mut raw = vec![1u8, 0, 0, 0];
    raw.extend_from_slice(&u32::MAX.to_ne_bytes());
    assert_eq!(p.feed(&raw), raw);
    assert!(p.blind);

    let mut f = started_framer(shared(None));
    let mut unit = vec![0u8; 32];
    unit[0] = 1;
    unit[4..8].copy_from_slice(&u32::MAX.to_ne_bytes());
    let mut out = Vec::new();
    assert_eq!(f.process(&unit, &mut out), 32);
    assert_eq!(out, unit);
    assert!(f.blind);

    let mut f = Server { embed: shared(None), blind: false, framer: EventFramer::new() };
    let mut out = Vec::new();
    assert_eq!(f.process(&[3, 0, 0, 0, 0, 0, 0, 0], &mut out), 8);
    assert!(f.blind);
}

#[test]
fn big_requests_are_framed() {
    let mut p = started(shared(None));
    let mut raw = vec![98u8, 0, 0, 0];
    raw.extend_from_slice(&4u32.to_ne_bytes());
    raw.extend_from_slice(&[7u8; 8]);
    let mut out = Vec::new();
    assert_eq!(p.process(&raw[..15], &mut out), 0);
    assert_eq!(p.feed(&raw), raw);
}

#[test]
fn read_boundaries_do_not_matter() {
    let mut stream = setup_bytes();
    stream.extend(create_window(VIDEO_HOST, 200, CreateWindowAux::new()));
    stream.extend(configure_window(200));
    stream.extend(change_attributes(5, ChangeWindowAttributesAux::new().cursor(77)));
    stream.extend(create_window(ROOT, 300, CreateWindowAux::new()));
    stream.extend(change_property(300, NET_WM_STATE));

    let mut embed = shared(None);
    let mut blind = false;
    let mut pump = RequestPump::new(vec![ROOT], &embed);
    let mut whole = Vec::new();
    assert_eq!(pump.feed(&mut embed, &mut blind, &stream, vec![3, 4], &mut whole), Some(vec![3, 4]));
    assert!(pump.held.is_empty() && pump.held_fds.is_empty());

    for size in [1usize, 3, 7, 64] {
        let mut embed = shared(None);
        let mut blind = false;
        let mut pump = RequestPump::new(vec![ROOT], &embed);
        let mut all = Vec::new();
        let mut all_fds = Vec::new();
        let mut out = Vec::new();
        for (i, chunk) in stream.chunks(size).enumerate() {
            let send = pump.feed(&mut embed, &mut blind, chunk, vec![i], &mut out);
            assert_eq!(send.is_some(), !out.is_empty());
            all.extend_from_slice(&out);
            all_fds.extend(send.unwrap_or_default());
        }
        assert_eq!(all, whole);
        all_fds.append(&mut pump.held_fds);
        assert_eq!(all_fds, (0..stream.chunks(size).len()).collect::<Vec<usize>>());
        assert_eq!(embed.embed_window, 200);
    }
}

#[test]
fn reply_pump_sends_nothing_for_a_dropped_event() {
    let embed = shared(None);
    let mut blind = false;
    let mut pump = ReplyPump::new();
    let mut out = Vec::new();
    assert_eq!(pump.feed(&embed, &mut blind, &setup_reply(), vec![], &mut out), Some(vec![]));
    let stale = configure_notify(VIDEO_HOST, 1, 2);
    assert_eq!(pump.feed(&embed, &mut blind, &stale, vec![5], &mut out), None);
    let settled = configure_notify(VIDEO_HOST, 800, 600);
    assert_eq!(pump.feed(&embed, &mut blind, &settled[..20], vec![6], &mut out), None);
    assert_eq!(
        pump.feed(&embed, &mut blind, &settled[20..], vec![], &mut out),
        Some(vec![5, 6])
    );
    assert_eq!(out, settled);
}
