//! What the workflows read of the core's add-on catalog.

use vstd::prelude::*;

verus! {

/// The slot an add-on component fills.
#[derive(Debug, Clone, Copy, PartialEq, Eq, Structural)]
pub enum Slot {
    Runner,
    WineBridge,
    Dxvk,
    Vkd3d,
    LatencyFlex,
    Other,
}

/// An installed component.
#[derive(Debug, Clone)]
pub struct Component {
    pub id: u128,
    pub slot: Slot,
    pub name: String,
    pub version: String,
}

/// A catalog entry that can be downloaded.
#[derive(Debug, Clone)]
pub struct CatalogEntry {
    pub id: u128,
    pub slot: Slot,
    pub name: String,
    pub version: String,
    /// Whether the entry has an artifact for this platform.
    pub supported: bool,
}

} // verus!
