//! Classification of raw event tags.
//!
//! Every wire event starts with a numeric tag.  The core protocol tags
//! are fixed; the output extension's events arrive at a server-assigned
//! offset (the base code) discovered at bootstrap.  The base code is
//! session state: it is held in a [`RandrSlot`] owned by the bootstrap
//! component, acquired when a connection is opened and released when it
//! is dropped, so at most one active connection can hold it.
use vstd::prelude::*;
use crate::xconn::BootstrapError;

verus! {

pub const KEY_PRESS: u8 = 2;
pub const KEY_RELEASE: u8 = 3;
pub const BUTTON_PRESS: u8 = 4;
pub const BUTTON_RELEASE: u8 = 5;
pub const MOTION_NOTIFY: u8 = 6;
pub const ENTER_NOTIFY: u8 = 7;
pub const LEAVE_NOTIFY: u8 = 8;
pub const FOCUS_IN: u8 = 9;
pub const FOCUS_OUT: u8 = 10;
pub const KEYMAP_NOTIFY: u8 = 11;
pub const EXPOSE: u8 = 12;
pub const GRAPHICS_EXPOSURE: u8 = 13;
pub const NO_EXPOSURE: u8 = 14;
pub const VISIBILITY_NOTIFY: u8 = 15;
pub const CREATE_NOTIFY: u8 = 16;
pub const DESTROY_NOTIFY: u8 = 17;
pub const UNMAP_NOTIFY: u8 = 18;
pub const MAP_NOTIFY: u8 = 19;
pub const MAP_REQUEST: u8 = 20;
pub const REPARENT_NOTIFY: u8 = 21;
pub const CONFIGURE_NOTIFY: u8 = 22;
pub const CONFIGURE_REQUEST: u8 = 23;
pub const GRAVITY_NOTIFY: u8 = 24;
pub const RESIZE_REQUEST: u8 = 25;
pub const CIRCULATE_NOTIFY: u8 = 26;
pub const CIRCULATE_REQUEST: u8 = 27;
pub const PROPERTY_NOTIFY: u8 = 28;
pub const SELECTION_CLEAR: u8 = 29;
pub const SELECTION_REQUEST: u8 = 30;
pub const SELECTION_NOTIFY: u8 = 31;
pub const COLORMAP_NOTIFY: u8 = 32;
pub const CLIENT_MESSAGE: u8 = 33;
pub const MAPPING_NOTIFY: u8 = 34;
pub const GE_GENERIC: u8 = 35;

/// Event numbers of the output extension, relative to the base code.
pub const RANDR_SCREEN_CHANGE_NOTIFY: u8 = 0;
pub const RANDR_NOTIFY: u8 = 1;

/// The closed set of event tags the manager recognizes.
#[derive(Debug, Clone, Copy, PartialEq, Eq, Structural)]
pub enum XcbEventType {
    KeyPress,
    KeyRelease,
    ButtonPress,
    ButtonRelease,
    MotionNotify,
    EnterNotify,
    LeaveNotify,
    FocusIn,
    FocusOut,
    KeymapNotify,
    Expose,
    GraphicsExposure,
    NoExposure,
    VisibilityNotify,
    CreateNotify,
    DestroyNotify,
    UnmapNotify,
    MapNotify,
    MapRequest,
    ReparentNotify,
    ConfigureNotify,
    ConfigureRequest,
    GravityNotify,
    ResizeRequest,
    CirculateNotify,
    CirculateRequest,
    PropertyNotify,
    SelectionClear,
    SelectionRequest,
    SelectionNotify,
    ColormapNotify,
    ClientMessage,
    MappingNotify,
    Generic,
    ScreenChangeNotify,
    RandrNotify,
}

/// A raw tag with its top bit - the send-event flag - removed.
pub open spec fn spec_masked(etype: u8) -> u8 {
    if etype >= 0x80 {
        (etype - 0x80) as u8
    } else {
        etype
    }
}

/// A raw tag with its top bit - the send-event flag - removed.
pub fn masked(etype: u8) -> (t: u8)
    ensures
        t == spec_masked(etype),
{
    if etype >= 0x80 {
        etype - 0x80
    } else {
        etype
    }
}

/// What [`XcbEventType::classify`] returns: the tag with its top bit
/// (the send-event flag) masked off is matched against the fixed core
/// constants, then against the extension's base code, if one is known.
/// An unrecognized tag is returned masked, in the error.
pub open spec fn spec_classify(etype: u8, randr_base: Option<u8>) -> Result<XcbEventType, u8> {
    let t = spec_masked(etype);
    if t == KEY_PRESS {
        Ok(XcbEventType::KeyPress)
    } else if t == KEY_RELEASE {
        Ok(XcbEventType::KeyRelease)
    } else if t == BUTTON_PRESS {
        Ok(XcbEventType::ButtonPress)
    } else if t == BUTTON_RELEASE {
        Ok(XcbEventType::ButtonRelease)
    } else if t == MOTION_NOTIFY {
        Ok(XcbEventType::MotionNotify)
    } else if t == ENTER_NOTIFY {
        Ok(XcbEventType::EnterNotify)
    } else if t == LEAVE_NOTIFY {
        Ok(XcbEventType::LeaveNotify)
    } else if t == FOCUS_IN {
        Ok(XcbEventType::FocusIn)
    } else if t == FOCUS_OUT {
        Ok(XcbEventType::FocusOut)
    } else if t == KEYMAP_NOTIFY {
        Ok(XcbEventType::KeymapNotify)
    } else if t == EXPOSE {
        Ok(XcbEventType::Expose)
    } else if t == GRAPHICS_EXPOSURE {
        Ok(XcbEventType::GraphicsExposure)
    } else if t == NO_EXPOSURE {
        Ok(XcbEventType::NoExposure)
    } else if t == VISIBILITY_NOTIFY {
        Ok(XcbEventType::VisibilityNotify)
    } else if t == CREATE_NOTIFY {
        Ok(XcbEventType::CreateNotify)
    } else if t == DESTROY_NOTIFY {
        Ok(XcbEventType::DestroyNotify)
    } else if t == UNMAP_NOTIFY {
        Ok(XcbEventType::UnmapNotify)
    } else if t == MAP_NOTIFY {
        Ok(XcbEventType::MapNotify)
    } else if t == MAP_REQUEST {
        Ok(XcbEventType::MapRequest)
    } else if t == REPARENT_NOTIFY {
        Ok(XcbEventType::ReparentNotify)
    } else if t == CONFIGURE_NOTIFY {
        Ok(XcbEventType::ConfigureNotify)
    } else if t == CONFIGURE_REQUEST {
        Ok(XcbEventType::ConfigureRequest)
    } else if t == GRAVITY_NOTIFY {
        Ok(XcbEventType::GravityNotify)
    } else if t == RESIZE_REQUEST {
        Ok(XcbEventType::ResizeRequest)
    } else if t == CIRCULATE_NOTIFY {
        Ok(XcbEventType::CirculateNotify)
    } else if t == CIRCULATE_REQUEST {
        Ok(XcbEventType::CirculateRequest)
    } else if t == PROPERTY_NOTIFY {
        Ok(XcbEventType::PropertyNotify)
    } else if t == SELECTION_CLEAR {
        Ok(XcbEventType::SelectionClear)
    } else if t == SELECTION_REQUEST {
        Ok(XcbEventType::SelectionRequest)
    } else if t == SELECTION_NOTIFY {
        Ok(XcbEventType::SelectionNotify)
    } else if t == COLORMAP_NOTIFY {
        Ok(XcbEventType::ColormapNotify)
    } else if t == CLIENT_MESSAGE {
        Ok(XcbEventType::ClientMessage)
    } else if t == MAPPING_NOTIFY {
        Ok(XcbEventType::MappingNotify)
    } else if t == GE_GENERIC {
        Ok(XcbEventType::Generic)
    } else if randr_base matches Some(b) && t as int == b as int
        + RANDR_SCREEN_CHANGE_NOTIFY as int {
        Ok(XcbEventType::ScreenChangeNotify)
    } else if randr_base matches Some(b) && t as int == b as int + RANDR_NOTIFY as int {
        Ok(XcbEventType::RandrNotify)
    } else {
        Err(t)
    }
}

impl XcbEventType {
    /// Classifies a raw event tag; `randr_base` is the extension base
    /// code if a connection has registered one.  Unrecognized tags are
    /// reported, not fatal: the caller logs and skips them.
    pub fn classify(etype: u8, randr_base: Option<u8>) -> (r: Result<XcbEventType, u8>)
        ensures
            r == spec_classify(etype, randr_base),
    {
        let t = masked(etype);
        if t == KEY_PRESS {
            Ok(XcbEventType::KeyPress)
        } else if t == KEY_RELEASE {
            Ok(XcbEventType::KeyRelease)
        } else if t == BUTTON_PRESS {
            Ok(XcbEventType::ButtonPress)
        } else if t == BUTTON_RELEASE {
            Ok(XcbEventType::ButtonRelease)
        } else if t == MOTION_NOTIFY {
            Ok(XcbEventType::MotionNotify)
        } else if t == ENTER_NOTIFY {
            Ok(XcbEventType::EnterNotify)
        } else if t == LEAVE_NOTIFY {
            Ok(XcbEventType::LeaveNotify)
        } else if t == FOCUS_IN {
            Ok(XcbEventType::FocusIn)
        } else if t == FOCUS_OUT {
            Ok(XcbEventType::FocusOut)
        } else if t == KEYMAP_NOTIFY {
            Ok(XcbEventType::KeymapNotify)
        } else if t == EXPOSE {
            Ok(XcbEventType::Expose)
        } else if t == GRAPHICS_EXPOSURE {
            Ok(XcbEventType::GraphicsExposure)
        } else if t == NO_EXPOSURE {
            Ok(XcbEventType::NoExposure)
        } else if t == VISIBILITY_NOTIFY {
            Ok(XcbEventType::VisibilityNotify)
        } else if t == CREATE_NOTIFY {
            Ok(XcbEventType::CreateNotify)
        } else if t == DESTROY_NOTIFY {
            Ok(XcbEventType::DestroyNotify)
        } else if t == UNMAP_NOTIFY {
            Ok(XcbEventType::UnmapNotify)
        } else if t == MAP_NOTIFY {
            Ok(XcbEventType::MapNotify)
        } else if t == MAP_REQUEST {
            Ok(XcbEventType::MapRequest)
        } else if t == REPARENT_NOTIFY {
            Ok(XcbEventType::ReparentNotify)
        } else if t == CONFIGURE_NOTIFY {
            Ok(XcbEventType::ConfigureNotify)
        } else if t == CONFIGURE_REQUEST {
            Ok(XcbEventType::ConfigureRequest)
        } else if t == GRAVITY_NOTIFY {
            Ok(XcbEventType::GravityNotify)
        } else if t == RESIZE_REQUEST {
            Ok(XcbEventType::ResizeRequest)
        } else if t == CIRCULATE_NOTIFY {
            Ok(XcbEventType::CirculateNotify)
        } else if t == CIRCULATE_REQUEST {
            Ok(XcbEventType::CirculateRequest)
        } else if t == PROPERTY_NOTIFY {
            Ok(XcbEventType::PropertyNotify)
        } else if t == SELECTION_CLEAR {
            Ok(XcbEventType::SelectionClear)
        } else if t == SELECTION_REQUEST {
            Ok(XcbEventType::SelectionRequest)
        } else if t == SELECTION_NOTIFY {
            Ok(XcbEventType::SelectionNotify)
        } else if t == COLORMAP_NOTIFY {
            Ok(XcbEventType::ColormapNotify)
        } else if t == CLIENT_MESSAGE {
            Ok(XcbEventType::ClientMessage)
        } else if t == MAPPING_NOTIFY {
            Ok(XcbEventType::MappingNotify)
        } else if t == GE_GENERIC {
            Ok(XcbEventType::Generic)
        } else {
            match randr_base {
                Some(b) => {
                    if t == b {
                        Ok(XcbEventType::ScreenChangeNotify)
                    } else if t as u16 == b as u16 + RANDR_NOTIFY as u16 {
                        Ok(XcbEventType::RandrNotify)
                    } else {
                        Err(t)
                    }
                },
                None => Err(t),
            }
        }
    }
}

/// Session-scoped slot for the output extension's base event code.
///
/// The bootstrap component acquires the slot when a connection is
/// established and releases it when the connection is dropped; holding
/// it is what entitles a connection to interpret extension tags.
#[derive(Debug, Clone, Copy, PartialEq, Eq)]
pub struct RandrSlot {
    pub base: Option<u8>,
}

impl RandrSlot {
    /// A fresh slot: no connection holds a base code yet.
    pub fn new() -> (s: RandrSlot)
        ensures
            s.base is None,
    {
        RandrSlot { base: None }
    }
}

/// Records the extension base code for the active connection.  Fails,
/// leaving the slot unchanged, if another active connection already
/// holds one.
pub fn set_randr_base(slot: &mut RandrSlot, randr_base: u8) -> (r: Result<(), BootstrapError>)
    ensures
        old(slot).base is None ==> r is Ok && final(slot).base == Some(randr_base),
        old(slot).base is Some ==> r == Err::<(), BootstrapError>(
            BootstrapError::ActiveConnectionExists,
        ) && *final(slot) == *old(slot),
{
    match slot.base {
        None => {
            slot.base = Some(randr_base);
            Ok(())
        },
        Some(_) => Err(BootstrapError::ActiveConnectionExists),
    }
}

/// Releases the extension base code when the connection is severed, so
/// a future connection may reacquire it.
pub fn reset_randr_base(slot: &mut RandrSlot)
    ensures
        final(slot).base is None,
{
    slot.base = None;
}

} // verus!
