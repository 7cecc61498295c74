//! X11 wire format: the parts of requests and events the proxy reads, and the
//! two requests it rewrites. Parsing and serialising is x11rb's work; this
//! module states what comes out of it.

use vstd::endian::endianness;
use vstd::endian::Endian;
use vstd::prelude::*;
use vstd::slice::slice_subrange;
use x11rb::reexports::x11rb_protocol::errors::ParseError;
use x11rb::reexports::x11rb_protocol::protocol::xproto::ChangePropertyRequest;
use x11rb::reexports::x11rb_protocol::protocol::xproto::ChangeWindowAttributesRequest;
use x11rb::reexports::x11rb_protocol::protocol::xproto::ConfigureNotifyEvent;
use x11rb::reexports::x11rb_protocol::protocol::xproto::ConfigureWindowRequest;
use x11rb::reexports::x11rb_protocol::protocol::xproto::CreateWindowRequest;
use x11rb::reexports::x11rb_protocol::protocol::xproto::SendEventRequest;
use x11rb::reexports::x11rb_protocol::protocol::xproto::SetupRequest;
use x11rb::reexports::x11rb_protocol::x11_utils::BigRequests;
use x11rb::reexports::x11rb_protocol::x11_utils::TryParse;

verus! {

pub const CREATE_WINDOW_REQUEST: u8 = 1;
pub const CHANGE_WINDOW_ATTRIBUTES_REQUEST: u8 = 2;
pub const CONFIGURE_WINDOW_REQUEST: u8 = 12;
pub const CIRCULATE_WINDOW_REQUEST: u8 = 13;
pub const CHANGE_PROPERTY_REQUEST: u8 = 18;
pub const SEND_EVENT_REQUEST: u8 = 25;
pub const SET_INPUT_FOCUS_REQUEST: u8 = 42;
pub const NO_OPERATION_REQUEST: u8 = 127;

/// Minor opcodes of the XFixes extension.
pub const HIDE_CURSOR_REQUEST: u8 = 29;
pub const SHOW_CURSOR_REQUEST: u8 = 30;

pub const CONFIGURE_NOTIFY_EVENT: u8 = 22;
pub const CLIENT_MESSAGE_EVENT: u8 = 33;
pub const GE_GENERIC_EVENT: u8 = 35;

/// The machine the program runs on stores the least significant byte first.
pub open spec fn native_little() -> bool {
    endianness() == Endian::Little
}

/// The byte order of the machine the program runs on. Every value of it is the
/// true one.
#[derive(Clone, Copy)]
pub struct NativeOrder {
    little: bool,
}

impl NativeOrder {
    #[verifier::type_invariant]
    spec fn is_true(self) -> bool {
        self.little == native_little()
    }

    /// Whether the least significant byte comes first.
    pub closed spec fn little(self) -> bool {
        self.little
    }

    /// The order of this machine.
    pub fn detect() -> (order: NativeOrder)
        ensures
            order.little() == native_little(),
    {
        let b = u16_to_ne_bytes(1);
        NativeOrder { little: b[0] == 1 }
    }

    pub fn is_little(self) -> (r: bool)
        ensures
            r == self.little(),
            r == native_little(),
    {
        proof {
            use_type_invariant(&self);
        }
        self.little
    }

    /// The byte a client with this order opens its connection with.
    pub fn setup_byte(self) -> (r: u8)
        ensures
            r == setup_byte(self.little()),
    {
        if self.little {
            0x6c
        } else {
            0x42
        }
    }

    /// The 16-bit value stored at `at`.
    pub fn u16_at(self, bytes: &[u8], at: usize) -> (r: u16)
        requires
            at + 2 <= bytes@.len(),
        ensures
            r == u16_at(bytes@, at as int, self.little()),
    {
        assert(bytes@.len() == bytes.len());
        let (lo, hi) = if self.little {
            (bytes[at], bytes[at + 1])
        } else {
            (bytes[at + 1], bytes[at])
        };
        lo as u16 + 256 * (hi as u16)
    }

    /// The 32-bit value stored at `at`.
    pub fn u32_at(self, bytes: &[u8], at: usize) -> (r: u32)
        requires
            at + 4 <= bytes@.len(),
        ensures
            r == u32_at(bytes@, at as int, self.little()),
    {
        assert(bytes@.len() == bytes.len());
        let a = self.u16_at(bytes, at);
        let b = self.u16_at(bytes, at + 2);
        if self.little {
            a as u32 + 65536 * (b as u32)
        } else {
            b as u32 + 65536 * (a as u32)
        }
    }
}

/// `u16::to_ne_bytes`: the two bytes of the value, in the byte order of the
/// machine the program runs on, which [`native_little`] speaks of. Nothing is said
/// of which order that is.
#[verifier::external_body]
fn u16_to_ne_bytes(value: u16) -> (r: [u8; 2])
    ensures
        r@ == u16_bytes(value, native_little()),
{
    value.to_ne_bytes()
}

/// `l` for little-endian clients, `B` for big-endian ones.
pub open spec fn setup_byte(little: bool) -> u8 {
    if little {
        0x6c
    } else {
        0x42
    }
}

pub open spec fn u16_at(s: Seq<u8>, i: int, little: bool) -> int {
    if little {
        s[i] + 256 * s[i + 1]
    } else {
        256 * s[i] + s[i + 1]
    }
}

pub open spec fn u32_at(s: Seq<u8>, i: int, little: bool) -> int {
    if little {
        u16_at(s, i, little) + 65536 * u16_at(s, i + 2, little)
    } else {
        65536 * u16_at(s, i, little) + u16_at(s, i + 2, little)
    }
}

pub open spec fn u16_bytes(v: u16, little: bool) -> Seq<u8> {
    let lo = (v % 256) as u8;
    let hi = (v / 256) as u8;
    if little {
        seq![lo, hi]
    } else {
        seq![hi, lo]
    }
}

pub open spec fn u32_bytes(v: u32, little: bool) -> Seq<u8> {
    let lo = u16_bytes((v % 65536) as u16, little);
    let hi = u16_bytes((v / 65536) as u16, little);
    if little {
        lo + hi
    } else {
        hi + lo
    }
}

/// Why a unit could not be read.
#[derive(Clone, Copy, PartialEq, Eq, Structural, Debug)]
pub enum WireError {
    /// More bytes are needed.
    InsufficientData,
    /// The bytes cannot be a unit, whatever follows.
    Invalid,
}

/// A request's first unit. `remaining_length` counts the 4-byte units after
/// the header.
#[derive(Clone, Copy, PartialEq, Eq, Structural, Debug)]
pub struct RequestHeader {
    pub major_opcode: u8,
    pub minor_opcode: u8,
    pub remaining_length: u32,
}

pub open spec fn pad4(n: int) -> int {
    (n + 3) / 4 * 4
}

/// Length of the connection setup request that starts with the 12 bytes `s`
/// has at least: two byte strings follow, each padded to four bytes.
pub open spec fn setup_len(s: Seq<u8>, little: bool) -> int {
    12 + pad4(u16_at(s, 6, little)) + pad4(u16_at(s, 8, little))
}

/// Whether `s` starts with a whole connection setup request.
pub open spec fn setup_complete(s: Seq<u8>, little: bool) -> bool {
    s.len() >= 12 && s.len() >= setup_len(s, little)
}

/// `SetupRequest::try_parse`: succeeds exactly on a complete setup request and
/// otherwise asks for more data. The result is the number of bytes after it.
#[verifier::external_body]
pub(crate) fn setup_remaining(order: NativeOrder, input: &[u8]) -> (r: Result<usize, WireError>)
    ensures
        match r {
            Ok(rest) => setup_complete(input@, order.little()) && rest == input@.len() - setup_len(
                input@,
                order.little(),
            ),
            Err(e) => !setup_complete(input@, order.little()) && e == WireError::InsufficientData,
        },
{
    match SetupRequest::try_parse(input) {
        Ok((_, remaining)) => Ok(remaining.len()),
        Err(ParseError::InsufficientData) => Err(WireError::InsufficientData),
        Err(_) => Err(WireError::Invalid),
    }
}

/// The header at the front of `s` and the length of that header in bytes. A
/// zero length field announces a 32-bit length in the next unit.
pub open spec fn header_of(s: Seq<u8>, little: bool) -> Result<(RequestHeader, int), WireError> {
    if s.len() < 4 {
        Err(WireError::InsufficientData)
    } else if u16_at(s, 2, little) != 0 {
        Ok(
            (
                RequestHeader {
                    major_opcode: s[0],
                    minor_opcode: s[1],
                    remaining_length: (u16_at(s, 2, little) - 1) as u32,
                },
                4,
            ),
        )
    } else if s.len() < 8 {
        Err(WireError::InsufficientData)
    } else if u32_at(s, 4, little) < 2 {
        Err(WireError::Invalid)
    } else {
        Ok(
            (
                RequestHeader {
                    major_opcode: s[0],
                    minor_opcode: s[1],
                    remaining_length: (u32_at(s, 4, little) - 2) as u32,
                },
                8,
            ),
        )
    }
}

/// `parse_request_header` with big requests enabled: the header as
/// [`header_of`] reads it, and the number of bytes after it.
#[verifier::external_body]
pub(crate) fn parse_request_header(order: NativeOrder, input: &[u8]) -> (r: Result<(RequestHeader, usize), WireError>)
    ensures
        match (r, header_of(input@, order.little())) {
            (Ok(v), Ok(h)) => v.0 == h.0 && v.1 == input@.len() - h.1,
            (Err(e), Err(f)) => e == f,
            _ => false,
        },
{
    match x11rb::reexports::x11rb_protocol::x11_utils::parse_request_header(input, BigRequests::Enabled) {
        Ok((h, body)) => Ok((
            RequestHeader {
                major_opcode: h.major_opcode,
                minor_opcode: h.minor_opcode,
                remaining_length: h.remaining_length,
            },
            body.len(),
        )),
        Err(ParseError::InsufficientData) => Err(WireError::InsufficientData),
        Err(_) => Err(WireError::Invalid),
    }
}

pub open spec fn has_bit(mask: int, bit: nat) -> bool {
    (mask / pow2_of(bit)) % 2 == 1
}

pub open spec fn pow2_of(n: nat) -> int
    decreases n,
{
    if n == 0 {
        1
    } else {
        2 * pow2_of((n - 1) as nat)
    }
}

/// How many of the lowest `n` bits of a value mask are set: the number of
/// 4-byte values in the value list that those bits announce.
pub open spec fn bits_below(mask: int, n: nat) -> int
    decreases n,
{
    if n == 0 {
        0
    } else {
        bits_below(mask, (n - 1) as nat) + if has_bit(mask, (n - 1) as nat) {
            1int
        } else {
            0int
        }
    }
}

/// The two ids of a `CreateWindow` request.
#[derive(Clone, Copy, PartialEq, Eq, Structural, Debug)]
pub struct CreatedWindow {
    pub wid: u32,
    pub parent: u32,
}

/// What a `CreateWindow` body holds: `wid` and `parent` first, the value mask
/// after 24 bytes, then one unit per value the mask's 15 known bits announce.
pub open spec fn create_window_of(h: RequestHeader, body: Seq<u8>, little: bool) -> Option<
    CreatedWindow,
> {
    if h.major_opcode == CREATE_WINDOW_REQUEST && body.len() >= 28 && body.len() >= 28 + 4
        * bits_below(u32_at(body, 24, little), 15) {
        Some(
            CreatedWindow {
                wid: u32_at(body, 0, little) as u32,
                parent: u32_at(body, 4, little) as u32,
            },
        )
    } else {
        None
    }
}

/// `CreateWindowRequest::try_parse_request`, reduced to the two window ids.
#[verifier::external_body]
pub(crate) fn parse_create_window(order: NativeOrder, header: RequestHeader, body: &[u8]) -> (r:
    Option<CreatedWindow>)
    ensures
        r == create_window_of(header, body@, order.little()),
{
    let h = x11rb::reexports::x11rb_protocol::x11_utils::RequestHeader {
        major_opcode: header.major_opcode,
        minor_opcode: header.minor_opcode,
        remaining_length: header.remaining_length,
    };
    match CreateWindowRequest::try_parse_request(h, body) {
        Ok(req) => Some(CreatedWindow { wid: req.wid, parent: req.parent }),
        Err(_) => None,
    }
}

/// A `CreateWindow` request like the one in `body`, its `override_redirect`
/// value being `value`. That value is the mask's tenth; unknown mask bits and
/// bytes after the value list are gone.
pub open spec fn create_window_overriding(
    h: RequestHeader,
    body: Seq<u8>,
    value: u32,
    little: bool,
) -> Seq<u8> {
    let mask = u32_at(body, 24, little);
    let before = 28 + 4 * bits_below(mask, 9);
    let after = 28 + 4 * bits_below(mask, 10);
    let end = 28 + 4 * bits_below(mask, 15);
    let known = mask % pow2_of(15);
    let new_mask = if has_bit(mask, 9) {
        known
    } else {
        known + pow2_of(9)
    };
    let values = body.subrange(28, before) + u32_bytes(value, little) + body.subrange(after, end);
    seq![CREATE_WINDOW_REQUEST, h.minor_opcode] + u16_bytes(
        ((32 + values.len()) / 4) as u16,
        little,
    ) + body.subrange(0, 24) + u32_bytes(new_mask as u32, little) + values
}

/// `CreateWindowRequest::try_parse_request`, `CreateWindowAux::override_redirect`
/// and `CreateWindowRequest::serialize` in a row: the request with one value
/// replaced, as [`create_window_overriding`] lays it out.
#[verifier::external_body]
pub(crate) fn serialize_create_window(
    order: NativeOrder,
    header: RequestHeader,
    body: &[u8],
    override_redirect: u32,
) -> (r: Vec<u8>)
    requires
        create_window_of(header, body@, order.little()) is Some,
    ensures
        r@ == create_window_overriding(header, body@, override_redirect, order.little()),
{
    let h = x11rb::reexports::x11rb_protocol::x11_utils::RequestHeader {
        major_opcode: header.major_opcode,
        minor_opcode: header.minor_opcode,
        remaining_length: header.remaining_length,
    };
    match CreateWindowRequest::try_parse_request(h, body) {
        Ok(mut req) => {
            let aux = req.value_list.into_owned().override_redirect(override_redirect);
            req.value_list = std::borrow::Cow::Owned(aux);
            req.serialize().0.concat()
        }
        Err(_) => Vec::new(),
    }
}

/// Whether a `ChangeWindowAttributes` body is whole, and the cursor it sets:
/// the fifteenth and last value of its mask.
pub open spec fn change_attributes_of(h: RequestHeader, body: Seq<u8>, little: bool) -> Option<
    Option<u32>,
> {
    if h.major_opcode == CHANGE_WINDOW_ATTRIBUTES_REQUEST && body.len() >= 8 && body.len() >= 8 + 4
        * bits_below(u32_at(body, 4, little), 15) {
        let mask = u32_at(body, 4, little);
        if has_bit(mask, 14) {
            Some(Some(u32_at(body, 8 + 4 * bits_below(mask, 14), little) as u32))
        } else {
            Some(None)
        }
    } else {
        None
    }
}

/// `ChangeWindowAttributesRequest::try_parse_request`, reduced to the cursor.
#[verifier::external_body]
pub(crate) fn parse_change_attributes(
    order: NativeOrder,
    header: RequestHeader,
    body: &[u8],
) -> (r: Option<Option<u32>>)
    ensures
        r == change_attributes_of(header, body@, order.little()),
{
    let h = x11rb::reexports::x11rb_protocol::x11_utils::RequestHeader {
        major_opcode: header.major_opcode,
        minor_opcode: header.minor_opcode,
        remaining_length: header.remaining_length,
    };
    match ChangeWindowAttributesRequest::try_parse_request(h, body) {
        Ok(req) => Some(req.value_list.cursor),
        Err(_) => None,
    }
}

/// A `ChangeWindowAttributes` request like the one in `body`, its cursor value
/// being `cursor`.
pub open spec fn change_attributes_with(
    body: Seq<u8>,
    cursor: Option<u32>,
    little: bool,
) -> Seq<u8> {
    let mask = u32_at(body, 4, little);
    let others = body.subrange(8, 8 + 4 * bits_below(mask, 14));
    let (new_mask, values) = match cursor {
        Some(c) => (mask % pow2_of(14) + pow2_of(14), others + u32_bytes(c, little)),
        None => (mask % pow2_of(14), others),
    };
    seq![CHANGE_WINDOW_ATTRIBUTES_REQUEST, 0u8] + u16_bytes(
        ((12 + values.len()) / 4) as u16,
        little,
    ) + body.subrange(0, 4) + u32_bytes(new_mask as u32, little) + values
}

/// `ChangeWindowAttributesRequest::try_parse_request` and its `serialize` in a
/// row: the request with its cursor replaced, as [`change_attributes_with`]
/// lays it out.
#[verifier::external_body]
pub(crate) fn serialize_change_attributes(
    order: NativeOrder,
    header: RequestHeader,
    body: &[u8],
    cursor: Option<u32>,
) -> (r: Vec<u8>)
    requires
        change_attributes_of(header, body@, order.little()) is Some,
    ensures
        r@ == change_attributes_with(body@, cursor, order.little()),
{
    let h = x11rb::reexports::x11rb_protocol::x11_utils::RequestHeader {
        major_opcode: header.major_opcode,
        minor_opcode: header.minor_opcode,
        remaining_length: header.remaining_length,
    };
    match ChangeWindowAttributesRequest::try_parse_request(h, body) {
        Ok(mut req) => {
            req.value_list.to_mut().cursor = cursor;
            req.serialize().0.concat()
        }
        Err(_) => Vec::new(),
    }
}

/// The window a `ConfigureWindow` body names: a window, a 16-bit mask of seven
/// known bits, two unused bytes, one unit per announced value.
pub open spec fn configure_window_of(h: RequestHeader, body: Seq<u8>, little: bool) -> Option<
    u32,
> {
    if h.major_opcode == CONFIGURE_WINDOW_REQUEST && body.len() >= 8 && body.len() >= 8 + 4
        * bits_below(u16_at(body, 4, little), 7) {
        Some(u32_at(body, 0, little) as u32)
    } else {
        None
    }
}

/// `ConfigureWindowRequest::try_parse_request`, reduced to the window.
#[verifier::external_body]
pub(crate) fn parse_configure_window(
    order: NativeOrder,
    header: RequestHeader,
    body: &[u8],
) -> (r: Option<u32>)
    ensures
        r == configure_window_of(header, body@, order.little()),
{
    let h = x11rb::reexports::x11rb_protocol::x11_utils::RequestHeader {
        major_opcode: header.major_opcode,
        minor_opcode: header.minor_opcode,
        remaining_length: header.remaining_length,
    };
    match ConfigureWindowRequest::try_parse_request(h, body) {
        Ok(req) => Some(req.window),
        Err(_) => None,
    }
}

/// The window and property a `ChangeProperty` body names. Its data, `length`
/// items of `format` bits, has to fit in what follows the first 20 bytes.
pub open spec fn change_property_of(h: RequestHeader, body: Seq<u8>, little: bool) -> Option<
    (u32, u32),
> {
    if h.major_opcode == CHANGE_PROPERTY_REQUEST && body.len() >= 20 && u32_at(body, 16, little)
        * body[12] <= u32::MAX && body.len() >= 20 + (u32_at(body, 16, little) * body[12]) / 8 {
        Some((u32_at(body, 0, little) as u32, u32_at(body, 4, little) as u32))
    } else {
        None
    }
}

/// `ChangePropertyRequest::try_parse_request`, reduced to window and property.
#[verifier::external_body]
pub(crate) fn parse_change_property(
    order: NativeOrder,
    header: RequestHeader,
    body: &[u8],
) -> (r: Option<(u32, u32)>)
    ensures
        r == change_property_of(header, body@, order.little()),
{
    let h = x11rb::reexports::x11rb_protocol::x11_utils::RequestHeader {
        major_opcode: header.major_opcode,
        minor_opcode: header.minor_opcode,
        remaining_length: header.remaining_length,
    };
    match ChangePropertyRequest::try_parse_request(h, body) {
        Ok(req) => Some((req.window, req.property)),
        Err(_) => None,
    }
}

/// The event a `SendEvent` body carries: the 32 bytes after its first eight.
pub open spec fn sent_event_of(h: RequestHeader, body: Seq<u8>) -> Option<Seq<u8>> {
    if h.major_opcode == SEND_EVENT_REQUEST && body.len() >= 40 {
        Some(body.subrange(8, 40))
    } else {
        None
    }
}

/// `SendEventRequest::try_parse_request`, reduced to the event.
#[verifier::external_body]
pub(crate) fn parse_send_event(header: RequestHeader, body: &[u8]) -> (r: Option<[u8; 32]>)
    ensures
        match r {
            Some(event) => sent_event_of(header, body@) == Some(event@),
            None => sent_event_of(header, body@) is None,
        },
{
    let h = x11rb::reexports::x11rb_protocol::x11_utils::RequestHeader {
        major_opcode: header.major_opcode,
        minor_opcode: header.minor_opcode,
        remaining_length: header.remaining_length,
    };
    match SendEventRequest::try_parse_request(h, body) {
        Ok(req) => Some(req.event.into_owned()),
        Err(_) => None,
    }
}

/// The window and size a `ConfigureNotify` event reports.
#[derive(Clone, Copy, PartialEq, Eq, Structural, Debug)]
pub struct Configured {
    pub window: u32,
    pub width: u16,
    pub height: u16,
}

pub open spec fn configure_notify_of(s: Seq<u8>, little: bool) -> Configured {
    Configured {
        window: u32_at(s, 8, little) as u32,
        width: u16_at(s, 20, little) as u16,
        height: u16_at(s, 22, little) as u16,
    }
}

/// `ConfigureNotifyEvent::try_parse`, reduced to window and size. It succeeds
/// on any 32 bytes.
#[verifier::external_body]
pub(crate) fn parse_configure_notify(order: NativeOrder, unit: &[u8]) -> (r: Option<Configured>)
    ensures
        unit@.len() >= 32 ==> r == Some(configure_notify_of(unit@, order.little())),
        unit@.len() < 32 ==> r is None,
{
    match ConfigureNotifyEvent::try_parse(unit) {
        Ok((e, _)) => Some(Configured { window: e.window, width: e.width, height: e.height }),
        Err(_) => None,
    }
}

/// Appends `bytes` to `out`.
pub(crate) fn append(out: &mut Vec<u8>, bytes: &[u8])
    ensures
        final(out)@ == old(out)@ + bytes@,
{
    let ghost before = out@;
    out.extend_from_slice(bytes);
    assert(out@ =~= before + bytes@);
}

/// Appends `bytes[from..to]` to `out`.
pub(crate) fn append_range(out: &mut Vec<u8>, bytes: &[u8], from: usize, to: usize)
    requires
        from <= to <= bytes@.len(),
    ensures
        final(out)@ == old(out)@ + bytes@.subrange(from as int, to as int),
{
    append(out, slice_subrange(bytes, from, to));
}

} // verus!
