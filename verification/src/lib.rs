//! Core logic of a slippy-map client: a tile-fetch scheduler with a bounded
//! number of in-flight downloads, a dual-mode coordinate projector
//! (Web-Mercator and local affine), and a state machine for the position at
//! the map's center.
//!
//! Coordinates are carried as fixed-point integers so that every statement
//! about them is exact; the scale of each quantity is documented where its
//! type is defined.

use vstd::prelude::*;

pub mod center;
pub mod download;
pub mod map_memory;
pub mod position;
pub mod projector;
pub mod tiles;

pub use position::{AdjustedPosition, Pixels, Position};

verus! {

/// Width and height, in pixels, of one tile as this crate handles it
/// internally. Sources that deliver larger images effectively bundle
/// several such tiles in one.
pub const TILE_SIZE: u32 = 256;

} // verus!
