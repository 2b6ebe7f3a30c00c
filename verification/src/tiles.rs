//! Addresses of map tiles.

use vstd::prelude::*;

verus! {

/// The grid address of one square tile: at zoom level `zoom` the world is
/// a `2^zoom` by `2^zoom` grid of tiles, and `x` and `y` pick one of them,
/// counted from the north-west corner. The unique key of a fetch request
/// and of its result; immutable once created.
#[derive(Clone, Copy, PartialEq, Eq, Structural, Debug, Hash)]
pub struct TileId {
    pub x: u32,
    pub y: u32,
    pub zoom: u8,
}

impl TileId {
    /// Make a tile address.
    pub fn new(x: u32, y: u32, zoom: u8) -> (r: TileId)
        ensures
            r.x == x,
            r.y == y,
            r.zoom == zoom,
    {
        TileId { x, y, zoom }
    }
}

} // verus!
