//! Desired-state markers.
//!
//! Requests are components written by event handlers or by external
//! policy code and consumed by the reconciliation stage, which turns
//! them into protocol requests.
use vstd::prelude::*;
use crate::Region;

verus! {

/// Requests the marked window entity to be mapped or unmapped.
#[derive(Debug, Clone, Copy, PartialEq, Eq, Structural)]
pub enum RequestMap {
    MapWin,
    UnmapWin,
}

/// Requests the marked window entity to be resized and moved.
#[derive(Debug, Clone, Copy, PartialEq, Eq, Structural)]
pub struct RequestSize(pub Region);

/// Requests the marked window entity to have a border width set.
#[derive(Debug, Clone, Copy, PartialEq, Eq, Structural)]
pub struct RequestBorder(pub u16);

} // verus!
