//! Per-window components.
//!
//! A window entity is a sparse set of components: each component is
//! independently present or absent.  The entity itself is [`WindowEntity`];
//! the window table in [`crate::lifecycle`] holds one entity per window
//! identifier known to the manager.
use vstd::prelude::*;
use crate::request::{RequestBorder, RequestMap, RequestSize};
use crate::Region;

verus! {

/// Opaque window identifier assigned by the display server, stable for
/// the window's lifetime.
#[derive(Debug, Clone, Copy, PartialEq, Eq, Structural)]
pub struct XWinId(pub u32);

impl XWinId {
    /// Wraps a raw numeric identifier.
    pub fn from_raw(raw: u32) -> (r: XWinId)
        ensures
            r == (XWinId(raw)),
    {
        XWinId(raw)
    }

    /// Wraps a raw identifier where zero means "no window".
    pub fn from_raw_nullable(raw: u32) -> (r: Option<XWinId>)
        ensures
            r == (if raw == 0 { Option::<XWinId>::None } else { Option::Some(XWinId(raw)) }),
    {
        if raw == 0 {
            None
        } else {
            Some(XWinId(raw))
        }
    }
}

/// The identity component: which server window an entity stands for.
#[derive(Debug, Clone, Copy, PartialEq, Eq, Structural)]
pub struct Window(pub XWinId);

/// Marks windows, layers, workspaces, screens, ... as focused.
#[derive(Debug, Clone, Copy, PartialEq, Eq, Structural)]
pub struct IsFocused;

/// Marks windows created without the `override_redirect` flag - windows
/// that the window manager is in charge of.
#[derive(Debug, Clone, Copy, PartialEq, Eq, Structural)]
pub struct IsManaged;

/// Marks windows which the server has confirmed as mapped.
#[derive(Debug, Clone, Copy, PartialEq, Eq, Structural)]
pub struct IsMapped;

/// The region the window last reported as its preferred dimensions;
/// written on create and updated by configure requests.
#[derive(Debug, Clone, Copy, PartialEq, Eq, Structural)]
pub struct PrefferedSize(pub Region);

/// The border width the window last requested for itself;
/// written on create and updated by configure requests.
#[derive(Debug, Clone, Copy, PartialEq, Eq, Structural)]
pub struct PrefferedBorder(pub u16);

/// Current window or screen size, as last confirmed by the server.
#[derive(Debug, Clone, Copy, PartialEq, Eq, Structural)]
pub struct Size(pub Region);

/// Current border width, as last confirmed by the server.
#[derive(Debug, Clone, Copy, PartialEq, Eq, Structural)]
pub struct Border(pub u16);

/// One window entity: the identity plus every optional component.
#[derive(Debug, Clone, Copy)]
pub struct WindowEntity {
    pub window: Window,
    pub is_focused: Option<IsFocused>,
    pub is_managed: Option<IsManaged>,
    pub is_mapped: Option<IsMapped>,
    pub preffered_size: Option<PrefferedSize>,
    pub preffered_border: Option<PrefferedBorder>,
    pub size: Option<Size>,
    pub border: Option<Border>,
    pub request_map: Option<RequestMap>,
    pub request_size: Option<RequestSize>,
    pub request_border: Option<RequestBorder>,
}

impl WindowEntity {
    /// The window was created without `override_redirect`.
    pub open spec fn managed(self) -> bool {
        self.is_managed is Some
    }

    /// The server has confirmed the window as mapped.
    pub open spec fn mapped(self) -> bool {
        self.is_mapped is Some
    }
}

} // verus!
