//! Typed domain events.
//!
//! Every raw wire event that the manager cares about is decoded into
//! exactly one of these structures; see [`crate::decode`].  External
//! policy code subscribes to these, never to raw events.
use vstd::prelude::*;
use crate::component::XWinId;
use crate::{Point, Region};

verus! {

/// A key was pressed.
#[derive(Debug, Clone, PartialEq, Eq, Structural)]
pub struct KeyPress {
    pub detail: u8,
    pub time: u32,
    pub root: XWinId,
    pub event: XWinId,
    pub child: Option<XWinId>,
    pub root_pos: Point,
    pub event_pos: Point,
    pub state: u16,
    pub same_screen: bool,
}

/// A key was released.
#[derive(Debug, Clone, PartialEq, Eq, Structural)]
pub struct KeyRelease {
    pub detail: u8,
    pub time: u32,
    pub root: XWinId,
    pub event: XWinId,
    pub child: Option<XWinId>,
    pub root_pos: Point,
    pub event_pos: Point,
    pub state: u16,
    pub same_screen: bool,
}

/// A pointer button was pressed.
#[derive(Debug, Clone, PartialEq, Eq, Structural)]
pub struct ButtonPress {
    pub detail: u8,
    pub time: u32,
    pub root: XWinId,
    pub event: XWinId,
    pub child: Option<XWinId>,
    pub root_pos: Point,
    pub event_pos: Point,
    pub state: u16,
    pub same_screen: bool,
}

/// A pointer button was released.
#[derive(Debug, Clone, PartialEq, Eq, Structural)]
pub struct ButtonRelease {
    pub detail: u8,
    pub time: u32,
    pub root: XWinId,
    pub event: XWinId,
    pub child: Option<XWinId>,
    pub root_pos: Point,
    pub event_pos: Point,
    pub state: u16,
    pub same_screen: bool,
}

/// The pointer moved across a window.
#[derive(Debug, Clone, PartialEq, Eq, Structural)]
pub struct MotionNotify {
    pub detail: u8,
    pub time: u32,
    pub root: XWinId,
    pub event: XWinId,
    pub child: Option<XWinId>,
    pub root_pos: Point,
    pub event_pos: Point,
    pub state: u16,
    pub same_screen: bool,
}

/// The pointer entered a window.
#[derive(Debug, Clone, PartialEq, Eq, Structural)]
pub struct EnterNotify {
    pub detail: u8,
    pub time: u32,
    pub root: XWinId,
    pub event: XWinId,
    pub child: Option<XWinId>,
    pub root_pos: Point,
    pub event_pos: Point,
    pub state: u16,
    pub mode: u8,
    pub same_screen_focus: u8,
}

/// The pointer left a window.
#[derive(Debug, Clone, PartialEq, Eq, Structural)]
pub struct LeaveNotify {
    pub detail: u8,
    pub time: u32,
    pub root: XWinId,
    pub event: XWinId,
    pub child: Option<XWinId>,
    pub root_pos: Point,
    pub event_pos: Point,
    pub state: u16,
    pub mode: u8,
    pub same_screen_focus: u8,
}

/// A window gained input focus.
#[derive(Debug, Clone, PartialEq, Eq, Structural)]
pub struct FocusIn {
    pub detail: u8,
    pub event: XWinId,
    pub mode: u8,
}

/// A window lost input focus.
#[derive(Debug, Clone, PartialEq, Eq, Structural)]
pub struct FocusOut {
    pub detail: u8,
    pub event: XWinId,
    pub mode: u8,
}

/// A window was created.
#[derive(Debug, Clone, PartialEq, Eq, Structural)]
pub struct CreateNotify {
    pub parent: XWinId,
    pub window: XWinId,
    pub region: Region,
    pub border_width: u16,
    pub override_redirect: bool,
}

/// A window was destroyed.
#[derive(Debug, Clone, PartialEq, Eq, Structural)]
pub struct DestroyNotify {
    pub event: XWinId,
    pub window: XWinId,
}

/// A window was unmapped.
#[derive(Debug, Clone, PartialEq, Eq, Structural)]
pub struct UnmapNotify {
    pub event: XWinId,
    pub window: XWinId,
    pub from_configure: bool,
}

/// The server confirmed that a window is mapped.
#[derive(Debug, Clone, PartialEq, Eq, Structural)]
pub struct MapNotify {
    pub event: XWinId,
    pub window: XWinId,
    pub override_redirect: bool,
}

/// A client asked for its window to be mapped; with substructure
/// redirect in place the manager decides what happens.
#[derive(Debug, Clone, PartialEq, Eq, Structural)]
pub struct MapRequest {
    pub parent: XWinId,
    pub window: XWinId,
}

/// The server confirmed a window's geometry.
#[derive(Debug, Clone, PartialEq, Eq, Structural)]
pub struct ConfigureNotify {
    pub event: XWinId,
    pub window: XWinId,
    pub above_sibling: Option<XWinId>,
    pub region: Region,
    pub border_width: u16,
    pub override_redirect: bool,
}

/// A client asked for its window to be moved, resized or restacked.
#[derive(Debug, Clone, PartialEq, Eq, Structural)]
pub struct ConfigureRequest {
    pub stack_mode: u8,
    pub parent: XWinId,
    pub window: XWinId,
    pub sibling: Option<XWinId>,
    pub region: Region,
    pub border_width: u16,
    pub value_mask: u16,
}

/// The payload of a client message, in the unit size the sender chose.
#[derive(Debug, Clone, PartialEq, Eq)]
pub enum ClientMessageData {
    U8(Vec<u8>),
    U16(Vec<u16>),
    U32(Vec<u32>),
}

/// Another client sent a message; `dtype` is the name of the interned
/// message type atom.
#[derive(Debug, Clone, PartialEq, Eq)]
pub struct ClientMessage {
    /// The ID of the window that sent the message
    pub id: XWinId,
    /// The data type being set
    pub dtype: String,
    /// The data itself
    pub data: ClientMessageData,
}

/// A window property changed; `atom` is the server identifier of the
/// property that changed.
#[derive(Debug, Clone, PartialEq, Eq, Structural)]
pub struct PropertyNotify {
    /// The ID of the window that had a property changed
    pub id: XWinId,
    /// The property that changed
    pub atom: u32,
    /// Is this window the root window?
    pub is_root: bool,
}

/// The pointer entered a window (identity only).
#[derive(Debug, Clone, PartialEq, Eq, Structural)]
pub struct Enter {
    /// The ID of the window that was entered
    pub id: XWinId,
}

/// The pointer left a window (identity only).
#[derive(Debug, Clone, PartialEq, Eq, Structural)]
pub struct Leave {
    /// The ID of the window that was left
    pub id: XWinId,
}

/// An output-change notification from the display extension.
#[derive(Debug, Clone, PartialEq, Eq, Structural)]
pub struct RandrNotify;

/// The screen configuration changed.
#[derive(Debug, Clone, PartialEq, Eq, Structural)]
pub struct ScreenChange;

/// A detected output, reported once at startup until proper
/// output-change events are parsed in full.
#[derive(Debug, Clone, PartialEq, Eq)]
pub struct ScreenAdded {
    pub name: String,
    pub region: Region,
}

/// The closed set of typed domain events: each decoded wire event is
/// forwarded as exactly one of these.
#[derive(Debug, Clone, PartialEq, Eq)]
pub enum DomainEvent {
    KeyPress(KeyPress),
    KeyRelease(KeyRelease),
    ButtonPress(ButtonPress),
    ButtonRelease(ButtonRelease),
    MotionNotify(MotionNotify),
    EnterNotify(EnterNotify),
    LeaveNotify(LeaveNotify),
    FocusIn(FocusIn),
    FocusOut(FocusOut),
    CreateNotify(CreateNotify),
    DestroyNotify(DestroyNotify),
    UnmapNotify(UnmapNotify),
    MapNotify(MapNotify),
    MapRequest(MapRequest),
    ConfigureNotify(ConfigureNotify),
    ConfigureRequest(ConfigureRequest),
    ClientMessage(ClientMessage),
    PropertyNotify(PropertyNotify),
    RandrNotify(RandrNotify),
    ScreenChange(ScreenChange),
}

} // verus!
