//! Wire-event decoding.
//!
//! A raw wire event is a 32-byte little-endian packet: a numeric tag in
//! its first byte and a fixed per-tag field layout behind it.  This
//! module decodes each packet once, at the protocol boundary, into the
//! closed set of typed domain events.  An unrecognized tag is reported
//! and skipped; a recognized tag with an invalid payload is malformed,
//! which callers treat as fatal; recognized tags the manager has no use
//! for are accepted and intentionally dropped.
use vstd::prelude::*;
use crate::atom::AtomRegistry;
use crate::component::XWinId;
use crate::xcb_event_type::{masked, spec_classify, spec_masked, CLIENT_MESSAGE};
use crate::xconn::XConn;
use crate::event::{
    ButtonPress, ButtonRelease, ClientMessage, ClientMessageData, ConfigureNotify,
    ConfigureRequest, CreateNotify, DestroyNotify, DomainEvent, EnterNotify, FocusIn, FocusOut,
    KeyPress, KeyRelease, LeaveNotify, MapNotify, MapRequest, MotionNotify, PropertyNotify,
    RandrNotify, ScreenChange, UnmapNotify,
};
use crate::xcb_event_type::XcbEventType;
use crate::{Point, Region};

verus! {

/// Every core protocol event is a 32-byte packet.
pub const EVENT_SIZE: usize = 32;

/// The little-endian 16-bit value at a byte offset.
pub open spec fn spec_le_u16(b: Seq<u8>, i: int) -> u16 {
    (b[i] as int + 256 * (b[i + 1] as int)) as u16
}

/// The little-endian 32-bit value at a byte offset.
pub open spec fn spec_le_u32(b: Seq<u8>, i: int) -> u32 {
    (b[i] as int + 256 * (b[i + 1] as int) + 65536 * (b[i + 2] as int) + 16777216 * (b[i
        + 3] as int)) as u32
}

/// The little-endian signed 16-bit value at a byte offset, widened.
pub open spec fn spec_le_i16(b: Seq<u8>, i: int) -> i32 {
    let v = b[i] as int + 256 * (b[i + 1] as int);
    if v >= 0x8000 {
        (v - 0x10000) as i32
    } else {
        v as i32
    }
}

/// A window identifier field where zero means "no window".
pub open spec fn spec_nullable(raw: u32) -> Option<XWinId> {
    if raw == 0 {
        None
    } else {
        Some(XWinId(raw))
    }
}

fn le_u16(b: &Vec<u8>, i: usize) -> (r: u16)
    requires
        i + 1 < b@.len(),
    ensures
        r == spec_le_u16(b@, i as int),
{
    let n = b.len();
    proof {
        assert(i + 1 < n);
    }
    let lo = b[i];
    let hi = b[i + 1];
    proof {
        assert(lo as int + 256 * (hi as int) <= 65535);
    }
    (lo as u16) + 256 * (hi as u16)
}

fn le_u32(b: &Vec<u8>, i: usize) -> (r: u32)
    requires
        i + 3 < b@.len(),
    ensures
        r == spec_le_u32(b@, i as int),
{
    let n = b.len();
    proof {
        assert(i + 3 < n);
    }
    let b0 = b[i];
    let b1 = b[i + 1];
    let b2 = b[i + 2];
    let b3 = b[i + 3];
    proof {
        assert(b0 as int + 256 * (b1 as int) + 65536 * (b2 as int) + 16777216 * (b3 as int)
            <= 0xffffffff);
    }
    (b0 as u32) + 256 * (b1 as u32) + 65536 * (b2 as u32) + 16777216 * (b3 as u32)
}

fn le_i16(b: &Vec<u8>, i: usize) -> (r: i32)
    requires
        i + 1 < b@.len(),
    ensures
        r == spec_le_i16(b@, i as int),
{
    let v = le_u16(b, i);
    if v >= 0x8000 {
        (v as i32) - 0x10000
    } else {
        v as i32
    }
}

fn nullable(raw: u32) -> (r: Option<XWinId>)
    ensures
        r == spec_nullable(raw),
{
    if raw == 0 {
        None
    } else {
        Some(XWinId(raw))
    }
}

/// The shared layout of key, button and motion events.
pub open spec fn spec_pointer_fields(b: Seq<u8>) -> (u8, u32, XWinId, XWinId, Option<
    XWinId,
>, Point, Point, u16, bool) {
    (
        b[1],
        spec_le_u32(b, 4),
        XWinId(spec_le_u32(b, 8)),
        XWinId(spec_le_u32(b, 12)),
        spec_nullable(spec_le_u32(b, 16)),
        Point { x: spec_le_i16(b, 20), y: spec_le_i16(b, 22) },
        Point { x: spec_le_i16(b, 24), y: spec_le_i16(b, 26) },
        spec_le_u16(b, 28),
        b[30] != 0,
    )
}

/// The key-press event's field layout.
pub open spec fn spec_key_press(b: Seq<u8>) -> KeyPress {
    let (detail, time, root, event, child, root_pos, event_pos, state, same_screen) =
        spec_pointer_fields(b);
    KeyPress { detail, time, root, event, child, root_pos, event_pos, state, same_screen }
}

/// The key-release event's field layout.
pub open spec fn spec_key_release(b: Seq<u8>) -> KeyRelease {
    let (detail, time, root, event, child, root_pos, event_pos, state, same_screen) =
        spec_pointer_fields(b);
    KeyRelease { detail, time, root, event, child, root_pos, event_pos, state, same_screen }
}

/// The button-press event's field layout.
pub open spec fn spec_button_press(b: Seq<u8>) -> ButtonPress {
    let (detail, time, root, event, child, root_pos, event_pos, state, same_screen) =
        spec_pointer_fields(b);
    ButtonPress { detail, time, root, event, child, root_pos, event_pos, state, same_screen }
}

/// The button-release event's field layout.
pub open spec fn spec_button_release(b: Seq<u8>) -> ButtonRelease {
    let (detail, time, root, event, child, root_pos, event_pos, state, same_screen) =
        spec_pointer_fields(b);
    ButtonRelease { detail, time, root, event, child, root_pos, event_pos, state, same_screen }
}

/// The pointer-motion event's field layout.
pub open spec fn spec_motion_notify(b: Seq<u8>) -> MotionNotify {
    let (detail, time, root, event, child, root_pos, event_pos, state, same_screen) =
        spec_pointer_fields(b);
    MotionNotify { detail, time, root, event, child, root_pos, event_pos, state, same_screen }
}

/// The enter-notification's field layout.
pub open spec fn spec_enter_notify(b: Seq<u8>) -> EnterNotify {
    EnterNotify {
        detail: b[1],
        time: spec_le_u32(b, 4),
        root: XWinId(spec_le_u32(b, 8)),
        event: XWinId(spec_le_u32(b, 12)),
        child: spec_nullable(spec_le_u32(b, 16)),
        root_pos: Point { x: spec_le_i16(b, 20), y: spec_le_i16(b, 22) },
        event_pos: Point { x: spec_le_i16(b, 24), y: spec_le_i16(b, 26) },
        state: spec_le_u16(b, 28),
        mode: b[30],
        same_screen_focus: b[31],
    }
}

/// The leave-notification's field layout.
pub open spec fn spec_leave_notify(b: Seq<u8>) -> LeaveNotify {
    LeaveNotify {
        detail: b[1],
        time: spec_le_u32(b, 4),
        root: XWinId(spec_le_u32(b, 8)),
        event: XWinId(spec_le_u32(b, 12)),
        child: spec_nullable(spec_le_u32(b, 16)),
        root_pos: Point { x: spec_le_i16(b, 20), y: spec_le_i16(b, 22) },
        event_pos: Point { x: spec_le_i16(b, 24), y: spec_le_i16(b, 26) },
        state: spec_le_u16(b, 28),
        mode: b[30],
        same_screen_focus: b[31],
    }
}

/// The focus-in event's field layout.
pub open spec fn spec_focus_in(b: Seq<u8>) -> FocusIn {
    FocusIn { detail: b[1], event: XWinId(spec_le_u32(b, 4)), mode: b[8] }
}

/// The focus-out event's field layout.
pub open spec fn spec_focus_out(b: Seq<u8>) -> FocusOut {
    FocusOut { detail: b[1], event: XWinId(spec_le_u32(b, 4)), mode: b[8] }
}

/// The create-notification's field layout.
pub open spec fn spec_create_notify(b: Seq<u8>) -> CreateNotify {
    CreateNotify {
        parent: XWinId(spec_le_u32(b, 4)),
        window: XWinId(spec_le_u32(b, 8)),
        region: Region {
            x: spec_le_i16(b, 12),
            y: spec_le_i16(b, 14),
            w: spec_le_u16(b, 16) as u32,
            h: spec_le_u16(b, 18) as u32,
        },
        border_width: spec_le_u16(b, 20),
        override_redirect: b[22] != 0,
    }
}

/// The destroy-notification's field layout.
pub open spec fn spec_destroy_notify(b: Seq<u8>) -> DestroyNotify {
    DestroyNotify { event: XWinId(spec_le_u32(b, 4)), window: XWinId(spec_le_u32(b, 8)) }
}

/// The unmap-notification's field layout.
pub open spec fn spec_unmap_notify(b: Seq<u8>) -> UnmapNotify {
    UnmapNotify {
        event: XWinId(spec_le_u32(b, 4)),
        window: XWinId(spec_le_u32(b, 8)),
        from_configure: b[12] != 0,
    }
}

/// The map-notification's field layout.
pub open spec fn spec_map_notify(b: Seq<u8>) -> MapNotify {
    MapNotify {
        event: XWinId(spec_le_u32(b, 4)),
        window: XWinId(spec_le_u32(b, 8)),
        override_redirect: b[12] != 0,
    }
}

/// The map-request's field layout.
pub open spec fn spec_map_request(b: Seq<u8>) -> MapRequest {
    MapRequest { parent: XWinId(spec_le_u32(b, 4)), window: XWinId(spec_le_u32(b, 8)) }
}

/// The configure-notification's field layout.
pub open spec fn spec_configure_notify(b: Seq<u8>) -> ConfigureNotify {
    ConfigureNotify {
        event: XWinId(spec_le_u32(b, 4)),
        window: XWinId(spec_le_u32(b, 8)),
        above_sibling: spec_nullable(spec_le_u32(b, 12)),
        region: Region {
            x: spec_le_i16(b, 16),
            y: spec_le_i16(b, 18),
            w: spec_le_u16(b, 20) as u32,
            h: spec_le_u16(b, 22) as u32,
        },
        border_width: spec_le_u16(b, 24),
        override_redirect: b[26] != 0,
    }
}

/// The configure-request's field layout.
pub open spec fn spec_configure_request(b: Seq<u8>) -> ConfigureRequest {
    ConfigureRequest {
        stack_mode: b[1],
        parent: XWinId(spec_le_u32(b, 4)),
        window: XWinId(spec_le_u32(b, 8)),
        sibling: spec_nullable(spec_le_u32(b, 12)),
        region: Region {
            x: spec_le_i16(b, 16),
            y: spec_le_i16(b, 18),
            w: spec_le_u16(b, 20) as u32,
            h: spec_le_u16(b, 22) as u32,
        },
        border_width: spec_le_u16(b, 24),
        value_mask: spec_le_u16(b, 26),
    }
}

/// The property-notification's field layout; the root window decides
/// the `is_root` flag.
pub open spec fn spec_property_notify(b: Seq<u8>, root: XWinId) -> PropertyNotify {
    PropertyNotify {
        id: XWinId(spec_le_u32(b, 4)),
        atom: spec_le_u32(b, 8),
        is_root: XWinId(spec_le_u32(b, 4)) == root,
    }
}

fn decode_pointer_fields(b: &Vec<u8>) -> (r: (u8, u32, XWinId, XWinId, Option<
    XWinId,
>, Point, Point, u16, bool))
    requires
        b@.len() >= EVENT_SIZE,
    ensures
        r == spec_pointer_fields(b@),
{
    (
        b[1],
        le_u32(b, 4),
        XWinId(le_u32(b, 8)),
        XWinId(le_u32(b, 12)),
        nullable(le_u32(b, 16)),
        Point { x: le_i16(b, 20), y: le_i16(b, 22) },
        Point { x: le_i16(b, 24), y: le_i16(b, 26) },
        le_u16(b, 28),
        b[30] != 0,
    )
}

fn decode_create_notify(b: &Vec<u8>) -> (r: CreateNotify)
    requires
        b@.len() >= EVENT_SIZE,
    ensures
        r == spec_create_notify(b@),
{
    CreateNotify {
        parent: XWinId(le_u32(b, 4)),
        window: XWinId(le_u32(b, 8)),
        region: Region {
            x: le_i16(b, 12),
            y: le_i16(b, 14),
            w: le_u16(b, 16) as u32,
            h: le_u16(b, 18) as u32,
        },
        border_width: le_u16(b, 20),
        override_redirect: b[22] != 0,
    }
}

fn decode_configure_notify(b: &Vec<u8>) -> (r: ConfigureNotify)
    requires
        b@.len() >= EVENT_SIZE,
    ensures
        r == spec_configure_notify(b@),
{
    ConfigureNotify {
        event: XWinId(le_u32(b, 4)),
        window: XWinId(le_u32(b, 8)),
        above_sibling: nullable(le_u32(b, 12)),
        region: Region {
            x: le_i16(b, 16),
            y: le_i16(b, 18),
            w: le_u16(b, 20) as u32,
            h: le_u16(b, 22) as u32,
        },
        border_width: le_u16(b, 24),
        override_redirect: b[26] != 0,
    }
}

/// What decoding one raw packet yields.
#[derive(Debug, Clone, PartialEq, Eq)]
pub enum DecodeOutcome {
    /// One typed domain event, to be forwarded.
    Event(DomainEvent),
    /// A recognized tag the manager deliberately drops.
    Ignored(XcbEventType),
    /// An unrecognized tag (masked): logged and skipped.
    Unknown(u8),
    /// A recognized tag with an invalid payload: fatal.
    Malformed(u8),
}

/// Why a batch could not be decoded; the wire is no longer trustworthy.
#[derive(Debug, Clone, Copy, PartialEq, Eq, Structural)]
pub enum DecodeError {
    /// A recognized event (named by its masked tag) carried an invalid
    /// payload.
    MalformedEvent(u8),
}

fn read_data8(b: &Vec<u8>) -> (v: Vec<u8>)
    requires
        b@.len() >= EVENT_SIZE,
    ensures
        v@ == b@.subrange(12, 32),
{
    let mut v: Vec<u8> = Vec::new();
    let mut k: usize = 0;
    while k < 20
        invariant
            b@.len() >= EVENT_SIZE,
            0 <= k <= 20,
            v@ =~= b@.subrange(12, 12 + k as int),
        decreases 20 - k,
    {
        v.push(b[12 + k]);
        proof {
            assert(v@ =~= b@.subrange(12, 12 + (k + 1) as int));
        }
        k += 1;
    }
    proof {
        assert(v@ =~= b@.subrange(12, 32));
    }
    v
}

fn read_data16(b: &Vec<u8>) -> (v: Vec<u16>)
    requires
        b@.len() >= EVENT_SIZE,
    ensures
        v@.len() == 10,
        forall|k: int| 0 <= k < 10 ==> v@[k] == spec_le_u16(b@, 12 + 2 * k),
{
    let mut v: Vec<u16> = Vec::new();
    let mut k: usize = 0;
    while k < 10
        invariant
            b@.len() >= EVENT_SIZE,
            0 <= k <= 10,
            v@.len() == k,
            forall|j: int| 0 <= j < k ==> v@[j] == spec_le_u16(b@, 12 + 2 * j),
        decreases 10 - k,
    {
        v.push(le_u16(b, 12 + 2 * k));
        k += 1;
    }
    v
}

fn read_data32(b: &Vec<u8>) -> (v: Vec<u32>)
    requires
        b@.len() >= EVENT_SIZE,
    ensures
        v@.len() == 5,
        forall|k: int| 0 <= k < 5 ==> v@[k] == spec_le_u32(b@, 12 + 4 * k),
{
    let mut v: Vec<u32> = Vec::new();
    let mut k: usize = 0;
    while k < 5
        invariant
            b@.len() >= EVENT_SIZE,
            0 <= k <= 5,
            v@.len() == k,
            forall|j: int| 0 <= j < k ==> v@[j] == spec_le_u32(b@, 12 + 4 * j),
        decreases 5 - k,
    {
        v.push(le_u32(b, 12 + 4 * k));
        k += 1;
    }
    v
}

/// What decoding a client message yields: the message type atom must be
/// one the manager interned (an unknown type is of no interest and the
/// event is dropped), the payload unit size must be 8, 16 or 32 bits
/// (anything else is malformed), and the twenty data bytes are handed
/// over in the sender's unit size.
pub open spec fn spec_client_message_ok(b: Seq<u8>, reg: AtomRegistry, r: DecodeOutcome) -> bool {
    match reg.spec_atom_of_id(spec_le_u32(b, 8)) {
        None => r == DecodeOutcome::Ignored(XcbEventType::ClientMessage),
        Some(atom) => if b[1] == 8 {
            r matches DecodeOutcome::Event(DomainEvent::ClientMessage(cm)) && cm.id == XWinId(
                spec_le_u32(b, 4),
            ) && cm.dtype@ == atom.spec_name() && (cm.data matches ClientMessageData::U8(v) && v@
                == b.subrange(12, 32))
        } else if b[1] == 16 {
            r matches DecodeOutcome::Event(DomainEvent::ClientMessage(cm)) && cm.id == XWinId(
                spec_le_u32(b, 4),
            ) && cm.dtype@ == atom.spec_name() && (cm.data matches ClientMessageData::U16(v) && v@
                .len() == 10 && forall|k: int| 0 <= k < 10 ==> v@[k] == spec_le_u16(b, 12 + 2 * k))
        } else if b[1] == 32 {
            r matches DecodeOutcome::Event(DomainEvent::ClientMessage(cm)) && cm.id == XWinId(
                spec_le_u32(b, 4),
            ) && cm.dtype@ == atom.spec_name() && (cm.data matches ClientMessageData::U32(v) && v@
                .len() == 5 && forall|k: int| 0 <= k < 5 ==> v@[k] == spec_le_u32(b, 12 + 4 * k))
        } else {
            r == DecodeOutcome::Malformed(CLIENT_MESSAGE)
        },
    }
}

fn decode_client_message(b: &Vec<u8>, conn: &XConn) -> (r: DecodeOutcome)
    requires
        b@.len() >= EVENT_SIZE,
        conn.wf(),
    ensures
        spec_client_message_ok(b@, conn.atoms, r),
{
    let type_atom = le_u32(b, 8);
    match conn.atoms.atom_of_id(type_atom) {
        None => DecodeOutcome::Ignored(XcbEventType::ClientMessage),
        Some(atom) => {
            let id = XWinId(le_u32(b, 4));
            let dtype = atom.as_str().to_owned();
            let format = b[1];
            if format == 8 {
                let data = ClientMessageData::U8(read_data8(b));
                DecodeOutcome::Event(DomainEvent::ClientMessage(ClientMessage { id, dtype, data }))
            } else if format == 16 {
                let data = ClientMessageData::U16(read_data16(b));
                DecodeOutcome::Event(DomainEvent::ClientMessage(ClientMessage { id, dtype, data }))
            } else if format == 32 {
                let data = ClientMessageData::U32(read_data32(b));
                DecodeOutcome::Event(DomainEvent::ClientMessage(ClientMessage { id, dtype, data }))
            } else {
                DecodeOutcome::Malformed(CLIENT_MESSAGE)
            }
        },
    }
}

/// What decoding one raw packet yields.  A packet shorter than the
/// fixed event size is malformed; otherwise the first byte is
/// classified and the per-tag layout is read.
pub open spec fn spec_decode_ok(
    b: Seq<u8>,
    randr_base: u8,
    root: XWinId,
    reg: AtomRegistry,
    r: DecodeOutcome,
) -> bool {
    if b.len() < EVENT_SIZE {
        r == DecodeOutcome::Malformed(
            if b.len() > 0 {
                spec_masked(b[0])
            } else {
                0u8
            },
        )
    } else {
        match spec_classify(b[0], Some(randr_base)) {
            Err(t) => r == DecodeOutcome::Unknown(t),
            Ok(et) => match et {
                XcbEventType::KeyPress => r == DecodeOutcome::Event(
                    DomainEvent::KeyPress(spec_key_press(b)),
                ),
                XcbEventType::KeyRelease => r == DecodeOutcome::Event(
                    DomainEvent::KeyRelease(spec_key_release(b)),
                ),
                XcbEventType::ButtonPress => r == DecodeOutcome::Event(
                    DomainEvent::ButtonPress(spec_button_press(b)),
                ),
                XcbEventType::ButtonRelease => r == DecodeOutcome::Event(
                    DomainEvent::ButtonRelease(spec_button_release(b)),
                ),
                XcbEventType::MotionNotify => r == DecodeOutcome::Event(
                    DomainEvent::MotionNotify(spec_motion_notify(b)),
                ),
                XcbEventType::EnterNotify => r == DecodeOutcome::Event(
                    DomainEvent::EnterNotify(spec_enter_notify(b)),
                ),
                XcbEventType::LeaveNotify => r == DecodeOutcome::Event(
                    DomainEvent::LeaveNotify(spec_leave_notify(b)),
                ),
                XcbEventType::FocusIn => r == DecodeOutcome::Event(
                    DomainEvent::FocusIn(spec_focus_in(b)),
                ),
                XcbEventType::FocusOut => r == DecodeOutcome::Event(
                    DomainEvent::FocusOut(spec_focus_out(b)),
                ),
                XcbEventType::CreateNotify => r == DecodeOutcome::Event(
                    DomainEvent::CreateNotify(spec_create_notify(b)),
                ),
                XcbEventType::DestroyNotify => r == DecodeOutcome::Event(
                    DomainEvent::DestroyNotify(spec_destroy_notify(b)),
                ),
                XcbEventType::UnmapNotify => r == DecodeOutcome::Event(
                    DomainEvent::UnmapNotify(spec_unmap_notify(b)),
                ),
                XcbEventType::MapNotify => r == DecodeOutcome::Event(
                    DomainEvent::MapNotify(spec_map_notify(b)),
                ),
                XcbEventType::MapRequest => r == DecodeOutcome::Event(
                    DomainEvent::MapRequest(spec_map_request(b)),
                ),
                XcbEventType::ConfigureNotify => r == DecodeOutcome::Event(
                    DomainEvent::ConfigureNotify(spec_configure_notify(b)),
                ),
                XcbEventType::ConfigureRequest => r == DecodeOutcome::Event(
                    DomainEvent::ConfigureRequest(spec_configure_request(b)),
                ),
                XcbEventType::PropertyNotify => r == DecodeOutcome::Event(
                    DomainEvent::PropertyNotify(spec_property_notify(b, root)),
                ),
                XcbEventType::ClientMessage => spec_client_message_ok(b, reg, r),
                XcbEventType::ScreenChangeNotify => r == DecodeOutcome::Event(
                    DomainEvent::ScreenChange(ScreenChange),
                ),
                XcbEventType::RandrNotify => r == DecodeOutcome::Event(
                    DomainEvent::RandrNotify(RandrNotify),
                ),
                _ => r == DecodeOutcome::Ignored(et),
            },
        }
    }
}

/// Decodes one raw packet against the session's base code, root window
/// and atom registry.
pub fn decode_event(raw: &Vec<u8>, conn: &XConn) -> (r: DecodeOutcome)
    requires
        conn.wf(),
    ensures
        spec_decode_ok(raw@, conn.randr_base, conn.root, conn.atoms, r),
{
    if raw.len() < EVENT_SIZE {
        let t: u8 = if raw.len() > 0 {
            masked(raw[0])
        } else {
            0
        };
        return DecodeOutcome::Malformed(t);
    }
    let tag = raw[0];
    match XcbEventType::classify(tag, Some(conn.randr_base)) {
        Err(t) => DecodeOutcome::Unknown(t),
        Ok(et) => match et {
            XcbEventType::KeyPress => {
                let (detail, time, root, event, child, root_pos, event_pos, state, same_screen) =
                    decode_pointer_fields(raw);
                DecodeOutcome::Event(
                    DomainEvent::KeyPress(
                        KeyPress {
                            detail,
                            time,
                            root,
                            event,
                            child,
                            root_pos,
                            event_pos,
                            state,
                            same_screen,
                        },
                    ),
                )
            },
            XcbEventType::KeyRelease => {
                let (detail, time, root, event, child, root_pos, event_pos, state, same_screen) =
                    decode_pointer_fields(raw);
                DecodeOutcome::Event(
                    DomainEvent::KeyRelease(
                        KeyRelease {
                            detail,
                            time,
                            root,
                            event,
                            child,
                            root_pos,
                            event_pos,
                            state,
                            same_screen,
                        },
                    ),
                )
            },
            XcbEventType::ButtonPress => {
                let (detail, time, root, event, child, root_pos, event_pos, state, same_screen) =
                    decode_pointer_fields(raw);
                DecodeOutcome::Event(
                    DomainEvent::ButtonPress(
                        ButtonPress {
                            detail,
                            time,
                            root,
                            event,
                            child,
                            root_pos,
                            event_pos,
                            state,
                            same_screen,
                        },
                    ),
                )
            },
            XcbEventType::ButtonRelease => {
                let (detail, time, root, event, child, root_pos, event_pos, state, same_screen) =
                    decode_pointer_fields(raw);
                DecodeOutcome::Event(
                    DomainEvent::ButtonRelease(
                        ButtonRelease {
                            detail,
                            time,
                            root,
                            event,
                            child,
                            root_pos,
                            event_pos,
                            state,
                            same_screen,
                        },
                    ),
                )
            },
            XcbEventType::MotionNotify => {
                let (detail, time, root, event, child, root_pos, event_pos, state, same_screen) =
                    decode_pointer_fields(raw);
                DecodeOutcome::Event(
                    DomainEvent::MotionNotify(
                        MotionNotify {
                            detail,
                            time,
                            root,
                            event,
                            child,
                            root_pos,
                            event_pos,
                            state,
                            same_screen,
                        },
                    ),
                )
            },
            XcbEventType::EnterNotify => DecodeOutcome::Event(
                DomainEvent::EnterNotify(
                    EnterNotify {
                        detail: raw[1],
                        time: le_u32(raw, 4),
                        root: XWinId(le_u32(raw, 8)),
                        event: XWinId(le_u32(raw, 12)),
                        child: nullable(le_u32(raw, 16)),
                        root_pos: Point { x: le_i16(raw, 20), y: le_i16(raw, 22) },
                        event_pos: Point { x: le_i16(raw, 24), y: le_i16(raw, 26) },
                        state: le_u16(raw, 28),
                        mode: raw[30],
                        same_screen_focus: raw[31],
                    },
                ),
            ),
            XcbEventType::LeaveNotify => DecodeOutcome::Event(
                DomainEvent::LeaveNotify(
                    LeaveNotify {
                        detail: raw[1],
                        time: le_u32(raw, 4),
                        root: XWinId(le_u32(raw, 8)),
                        event: XWinId(le_u32(raw, 12)),
                        child: nullable(le_u32(raw, 16)),
                        root_pos: Point { x: le_i16(raw, 20), y: le_i16(raw, 22) },
                        event_pos: Point { x: le_i16(raw, 24), y: le_i16(raw, 26) },
                        state: le_u16(raw, 28),
                        mode: raw[30],
                        same_screen_focus: raw[31],
                    },
                ),
            ),
            XcbEventType::FocusIn => DecodeOutcome::Event(
                DomainEvent::FocusIn(
                    FocusIn { detail: raw[1], event: XWinId(le_u32(raw, 4)), mode: raw[8] },
                ),
            ),
            XcbEventType::FocusOut => DecodeOutcome::Event(
                DomainEvent::FocusOut(
                    FocusOut { detail: raw[1], event: XWinId(le_u32(raw, 4)), mode: raw[8] },
                ),
            ),
            XcbEventType::CreateNotify => DecodeOutcome::Event(
                DomainEvent::CreateNotify(decode_create_notify(raw)),
            ),
            XcbEventType::DestroyNotify => DecodeOutcome::Event(
                DomainEvent::DestroyNotify(
                    DestroyNotify { event: XWinId(le_u32(raw, 4)), window: XWinId(le_u32(raw, 8)) },
                ),
            ),
            XcbEventType::UnmapNotify => DecodeOutcome::Event(
                DomainEvent::UnmapNotify(
                    UnmapNotify {
                        event: XWinId(le_u32(raw, 4)),
                        window: XWinId(le_u32(raw, 8)),
                        from_configure: raw[12] != 0,
                    },
                ),
            ),
            XcbEventType::MapNotify => DecodeOutcome::Event(
                DomainEvent::MapNotify(
                    MapNotify {
                        event: XWinId(le_u32(raw, 4)),
                        window: XWinId(le_u32(raw, 8)),
                        override_redirect: raw[12] != 0,
                    },
                ),
            ),
            XcbEventType::MapRequest => DecodeOutcome::Event(
                DomainEvent::MapRequest(
                    MapRequest { parent: XWinId(le_u32(raw, 4)), window: XWinId(le_u32(raw, 8)) },
                ),
            ),
            XcbEventType::ConfigureNotify => DecodeOutcome::Event(
                DomainEvent::ConfigureNotify(decode_configure_notify(raw)),
            ),
            XcbEventType::ConfigureRequest => DecodeOutcome::Event(
                DomainEvent::ConfigureRequest(decode_configure_request(raw)),
            ),
            XcbEventType::PropertyNotify => {
                let id = XWinId(le_u32(raw, 4));
                DecodeOutcome::Event(
                    DomainEvent::PropertyNotify(
                        PropertyNotify {
                            id,
                            atom: le_u32(raw, 8),
                            is_root: id.0 == conn.root.0,
                        },
                    ),
                )
            },
            XcbEventType::ClientMessage => decode_client_message(raw, conn),
            XcbEventType::ScreenChangeNotify => DecodeOutcome::Event(
                DomainEvent::ScreenChange(ScreenChange),
            ),
            XcbEventType::RandrNotify => DecodeOutcome::Event(
                DomainEvent::RandrNotify(RandrNotify),
            ),
            _ => DecodeOutcome::Ignored(et),
        },
    }
}

/// Each outcome of a batch decodes its packet.
pub open spec fn spec_batch_decodes(
    raws: Seq<Vec<u8>>,
    randr_base: u8,
    root: XWinId,
    reg: AtomRegistry,
    os: Seq<DecodeOutcome>,
) -> bool {
    &&& os.len() == raws.len()
    &&& forall|j: int|
        0 <= j < os.len() ==> spec_decode_ok(raws[j]@, randr_base, root, reg, #[trigger] os[j])
}

/// The domain events a batch of outcomes forwards, in arrival order:
/// exactly one per decoded event, none for ignored or unknown packets,
/// and the whole batch fails on the first malformed packet.
pub open spec fn spec_filter_outcomes(os: Seq<DecodeOutcome>) -> Result<Seq<DomainEvent>, u8>
    decreases os.len(),
{
    if os.len() == 0 {
        Ok(Seq::empty())
    } else {
        match spec_filter_outcomes(os.drop_last()) {
            Err(t) => Err(t),
            Ok(evs) => match os.last() {
                DecodeOutcome::Event(ev) => Ok(evs.push(ev)),
                DecodeOutcome::Malformed(t) => Err(t),
                _ => Ok(evs),
            },
        }
    }
}

/// The result agrees with what the outcomes call for.
pub open spec fn spec_filter_matches(
    os: Seq<DecodeOutcome>,
    r: Result<Vec<DomainEvent>, DecodeError>,
) -> bool {
    match spec_filter_outcomes(os) {
        Ok(evs) => r matches Ok(v) && v@ == evs,
        Err(t) => r == Err::<Vec<DomainEvent>, DecodeError>(DecodeError::MalformedEvent(t)),
    }
}

/// Decodes a whole iteration's batch of raw packets into typed domain
/// events, preserving wire arrival order: one domain event per decoded
/// packet, no duplication, no merging.  Unrecognized or deliberately
/// ignored packets are dropped; a malformed packet fails the batch,
/// naming the first offending tag.
pub fn process_xcb_events(raws: &Vec<Vec<u8>>, conn: &XConn) -> (r: Result<
    Vec<DomainEvent>,
    DecodeError,
>)
    requires
        conn.wf(),
    ensures
        exists|os: Seq<DecodeOutcome>|
            #[trigger] spec_batch_decodes(raws@, conn.randr_base, conn.root, conn.atoms, os)
                && spec_filter_matches(os, r),
{
    let mut evs: Vec<DomainEvent> = Vec::new();
    let mut err: Option<u8> = None;
    let ghost mut os: Seq<DecodeOutcome> = Seq::empty();
    let n = raws.len();
    let mut k: usize = 0;
    while k < n
        invariant
            conn.wf(),
            n == raws@.len(),
            0 <= k <= n,
            os.len() == k,
            forall|j: int|
                0 <= j < k ==> spec_decode_ok(
                    raws@[j]@,
                    conn.randr_base,
                    conn.root,
                    conn.atoms,
                    #[trigger] os[j],
                ),
            match err {
                None => spec_filter_outcomes(os) == Ok::<Seq<DomainEvent>, u8>(evs@),
                Some(t) => spec_filter_outcomes(os) == Err::<Seq<DomainEvent>, u8>(t),
            },
        decreases n - k,
    {
        let oc = decode_event(&raws[k], conn);
        proof {
            let os0 = os;
            os = os.push(oc);
            assert(os.drop_last() =~= os0);
            assert(os.last() == oc);
        }
        match oc {
            DecodeOutcome::Event(ev) => {
                if err.is_none() {
                    evs.push(ev);
                }
            },
            DecodeOutcome::Malformed(t) => {
                if err.is_none() {
                    err = Some(t);
                }
            },
            _ => {},
        }
        k += 1;
    }
    let r: Result<Vec<DomainEvent>, DecodeError> = match err {
        None => Ok(evs),
        Some(t) => Err(DecodeError::MalformedEvent(t)),
    };
    proof {
        assert(spec_batch_decodes(raws@, conn.randr_base, conn.root, conn.atoms, os));
        assert(spec_filter_matches(os, r));
    }
    r
}

fn decode_configure_request(b: &Vec<u8>) -> (r: ConfigureRequest)
    requires
        b@.len() >= EVENT_SIZE,
    ensures
        r == spec_configure_request(b@),
{
    ConfigureRequest {
        stack_mode: b[1],
        parent: XWinId(le_u32(b, 4)),
        window: XWinId(le_u32(b, 8)),
        sibling: nullable(le_u32(b, 12)),
        region: Region {
            x: le_i16(b, 16),
            y: le_i16(b, 18),
            w: le_u16(b, 20) as u32,
            h: le_u16(b, 22) as u32,
        },
        border_width: le_u16(b, 24),
        value_mask: le_u16(b, 26),
    }
}

} // verus!
