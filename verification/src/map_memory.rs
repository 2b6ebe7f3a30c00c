//! The per-view state a projector reads: the zoom level and the center
//! mode.

use vstd::prelude::*;
use crate::center::Center;

verus! {

/// What a map view remembers between frames, as far as projection is
/// concerned: how far it is zoomed in and which mode its center is in.
#[derive(Clone, Copy, PartialEq, Eq, Structural, Debug)]
pub struct MapMemory {
    /// The zoom level; at most [`crate::projector::MAX_ZOOM`].
    pub zoom: u8,
    /// The center state machine of this view.
    pub center_mode: Center,
}

impl MapMemory {
    /// Remember a zoom level and a center mode.
    pub fn new(zoom: u8, center_mode: Center) -> (r: MapMemory)
        ensures
            r.zoom == zoom,
            r.center_mode == center_mode,
    {
        MapMemory { zoom, center_mode }
    }
}

} // verus!
