//! Relating map positions to screen coordinates: a global Web-Mercator
//! strategy and a local affine strategy behind one interface.
//!
//! Both strategies project in two layers. The bitmap layer maps a
//! position into an unbounded pixel space aligned to the whole tile grid
//! at the current zoom; the screen layer recenters that space on the
//! anchor position and the middle of the viewport. Only the bitmap layer
//! differs between the strategies.

use vstd::prelude::*;
use vstd::arithmetic::div_mod::{
    lemma_basic_div, lemma_div_is_ordered, lemma_div_multiples_vanish, lemma_fundamental_div_mod,
    lemma_mod_bound, lemma_multiply_divide_lt,
};
use vstd::arithmetic::mul::lemma_mul_strict_inequality;
use vstd::arithmetic::power2::{
    lemma2_to64, lemma2_to64_rest, lemma_pow2_pos, lemma_pow2_strictly_increases,
    lemma_pow2_unfold, pow2,
};
use crate::center::Center;
use crate::map_memory::MapMemory;
use crate::position::{div_trunc, mul_div_trunc, AdjustedPosition, Pixels, Position};
use crate::tiles::TileId;

verus! {

/// The largest zoom level the projectors accept. At this zoom one
/// thousandth of a local map unit is exactly one pixel, so the fixed-point
/// pixel arithmetic stays exact.
pub const MAX_ZOOM: u8 = 20;

/// How far from zero a position handed to the bitmap layer may lie, per
/// coordinate: 2^40 fixed-point steps, about a million map units. Keeps
/// every bitmap pixel value within [`BP_LIMIT`].
pub const POS_LIMIT: i64 = 0x100_0000_0000;

/// How large a viewport coordinate or a pan offset may be, per component:
/// 2^55 fixed-point steps, about 32 million screen pixels.
pub const PIX_LIMIT: i64 = 0x80_0000_0000_0000;

/// Bound on what the bitmap layer produces from a bounded position: 2^60
/// fixed-point steps.
pub const BP_LIMIT: i64 = 0x1000_0000_0000_0000;

/// Bound on what the bitmap layer accepts back from the screen layer:
/// 2^62 fixed-point steps.
pub const BP_INPUT_LIMIT: i64 = 0x4000_0000_0000_0000;

/// The denominator of a normalized Mercator coordinate as
/// [`GlobalProjector::mercator_normalized`] returns it: the numerators it
/// hands back are fractions of this (360 degrees in microdegrees).
pub const NORM_DENOM: u64 = 360_000_000;

/// Numerator by which a normalized-Mercator numerator turns into bitmap
/// fixed-point pixels: `TILE_SIZE * PIXEL_SCALE / NORM_DENOM` reduced,
/// as a fraction, is `2^22 / 5625`; `pow2(zoom + 22)` then also carries
/// the per-zoom doubling.
pub const GLOBAL_DEN: u64 = 5625;

/// Whether a position is close enough to the origin for the bitmap layer.
pub open spec fn pos_bounded(p: Position) -> bool {
    &&& -POS_LIMIT <= p.x <= POS_LIMIT
    &&& -POS_LIMIT <= p.y <= POS_LIMIT
}

/// Whether a pixel vector is small enough for a viewport coordinate or a
/// pan offset.
pub open spec fn pix_small(v: Pixels) -> bool {
    &&& -PIX_LIMIT <= v.x <= PIX_LIMIT
    &&& -PIX_LIMIT <= v.y <= PIX_LIMIT
}

/// Whether a pixel vector is within what the bitmap layer produces.
pub open spec fn pix_mid(v: Pixels) -> bool {
    &&& -BP_LIMIT <= v.x <= BP_LIMIT
    &&& -BP_LIMIT <= v.y <= BP_LIMIT
}

/// Whether a pixel vector is within what the bitmap layer accepts back.
pub open spec fn pix_input(v: Pixels) -> bool {
    &&& -BP_INPUT_LIMIT <= v.x <= BP_INPUT_LIMIT
    &&& -BP_INPUT_LIMIT <= v.y <= BP_INPUT_LIMIT
}

/// A screen-space rectangle: the viewport the map is drawn into.
#[derive(Clone, Copy, PartialEq, Eq, Structural, Debug)]
pub struct Rect {
    pub min: Pixels,
    pub max: Pixels,
}

/// The middle of a rectangle, at the specification level.
pub open spec fn spec_rect_center(r: Rect) -> Pixels {
    Pixels {
        x: div_trunc(r.min.x + r.max.x, 2) as i64,
        y: div_trunc(r.min.y + r.max.y, 2) as i64,
    }
}

impl Rect {
    /// A rectangle from its two corners.
    pub fn new(min: Pixels, max: Pixels) -> (r: Rect)
        ensures
            r.min == min,
            r.max == max,
    {
        Rect { min, max }
    }

    /// The degenerate rectangle a projector starts with, before the first
    /// [`Projector::set_clip_rect`] of the frame.
    pub fn nothing() -> (r: Rect)
        ensures
            r.min == (Pixels { x: 0, y: 0 }),
            r.max == (Pixels { x: 0, y: 0 }),
    {
        Rect { min: Pixels { x: 0, y: 0 }, max: Pixels { x: 0, y: 0 } }
    }

    /// Whether both corners are small enough for the screen layer.
    pub open spec fn bounded(self) -> bool {
        pix_small(self.min) && pix_small(self.max)
    }

    /// The middle of the rectangle.
    pub fn center(&self) -> (r: Pixels)
        requires
            self.bounded(),
        ensures
            r == spec_rect_center(*self),
            pix_small(r),
    {
        Pixels {
            x: mul_div_trunc(self.min.x + self.max.x, 1, 2),
            y: mul_div_trunc(self.min.y + self.max.y, 1, 2),
        }
    }
}

/// `2^e`, for exponents small enough that it fits a `u64`.
pub fn pow2_u64(e: u8) -> (r: u64)
    requires
        e <= 62,
    ensures
        r == pow2(e as nat),
        r >= 1,
{
    proof {
        lemma2_to64();
        lemma_pow2_pos(e as nat);
    }
    let mut r: u64 = 1;
    let mut i: u8 = 0;
    while i < e
        invariant
            i <= e,
            e <= 62,
            r == pow2(i as nat),
        decreases e - i,
    {
        proof {
            lemma2_to64_rest();
            if (i as nat) < 62 {
                lemma_pow2_strictly_increases(i as nat, 62);
            }
            lemma_pow2_unfold((i + 1) as nat);
        }
        r = r * 2;
        i = i + 1;
    }
    r
}

/// A position coordinate times a power of two, staying within
/// [`BP_LIMIT`].
fn mul_pow2(v: i64, p: u64) -> (r: i64)
    requires
        -POS_LIMIT <= v <= POS_LIMIT,
        1 <= p <= 0x10_0000,
    ensures
        r == v * p,
        -BP_LIMIT <= r <= BP_LIMIT,
{
    proof {
        assert(-0x1000_0000_0000_0000 <= v * p <= 0x1000_0000_0000_0000) by (nonlinear_arith)
            requires
                -0x100_0000_0000i64 <= v <= 0x100_0000_0000i64,
                1 <= p <= 0x10_0000,
        ;
    }
    v * (p as i64)
}

/// How many zoom levels a source's tile size is above this crate's
/// internal [`crate::TILE_SIZE`]: the floor of the base-two logarithm of
/// their ratio, and zero for sources at or below the internal size.
pub open spec fn spec_zoom_adjustment(s: nat) -> nat
    decreases s,
{
    if s < 512 {
        0
    } else {
        1 + spec_zoom_adjustment(s / 2)
    }
}

/// See [`spec_zoom_adjustment`]. Sources that bundle several internal
/// tiles in one delivered image are fetched at a correspondingly lower
/// zoom.
pub fn zoom_adjustment(source_tile_size: u32) -> (r: u8)
    ensures
        r == spec_zoom_adjustment(source_tile_size as nat),
        r <= 23,
    decreases source_tile_size,
{
    proof {
        lemma2_to64();
        lemma_zoom_adjustment_bound(source_tile_size as nat, 23);
    }
    if source_tile_size < 512 {
        0
    } else {
        let inner = zoom_adjustment(source_tile_size / 2);
        1 + inner
    }
}

/// The adjustment of a tile size below `512 * 2^k` never exceeds `k`
/// levels.
proof fn lemma_zoom_adjustment_bound(s: nat, k: nat)
    requires
        s < 512 * pow2(k),
    ensures
        spec_zoom_adjustment(s) <= k,
    decreases k,
{
    lemma_pow2_pos(k);
    if s >= 512 {
        assert(k >= 1) by {
            if k == 0 {
                assert(pow2(0nat) == 1) by {
                    lemma2_to64();
                }
            }
        }
        lemma_pow2_unfold(k);
        lemma_zoom_adjustment_bound(s / 2, (k - 1) as nat);
    }
}

/// Sum of pixel vectors shifted into the viewport: the shared screen
/// layer. `screen = bitmap - bitmap(anchor) + viewport center`.
fn to_screen(px: Pixels, anchor_bp: Pixels, clip_center: Pixels) -> (r: Pixels)
    requires
        pix_mid(px),
        pix_mid(anchor_bp),
        pix_small(clip_center),
    ensures
        r.x == px.x - anchor_bp.x + clip_center.x,
        r.y == px.y - anchor_bp.y + clip_center.y,
        pix_input(r),
{
    Pixels { x: px.x - anchor_bp.x + clip_center.x, y: px.y - anchor_bp.y + clip_center.y }
}

/// The inverse of [`to_screen`]: back from viewport pixels to bitmap
/// pixels.
fn from_screen(px: Pixels, anchor_bp: Pixels, clip_center: Pixels) -> (r: Pixels)
    requires
        pix_mid(px),
        pix_mid(anchor_bp),
        pix_small(clip_center),
    ensures
        r.x == anchor_bp.x + (px.x - clip_center.x),
        r.y == anchor_bp.y + (px.y - clip_center.y),
        pix_input(r),
{
    Pixels { x: anchor_bp.x + (px.x - clip_center.x), y: anchor_bp.y + (px.y - clip_center.y) }
}

/// The local strategy: positions are planar x and y in arbitrary units and
/// the bitmap layer is an exact affine scaling, with y flipped because
/// screen rows grow downward.
#[derive(Clone, Copy, PartialEq, Eq, Structural, Debug)]
pub struct LocalProjector {
    pub clip_rect: Rect,
    pub memory: MapMemory,
    pub my_position: Position,
}

/// The local bitmap layer: `2^zoom` fixed-point pixel steps per
/// fixed-point position step, y flipped.
pub open spec fn spec_local_bp(pos: Position, zoom: nat) -> Pixels {
    Pixels {
        x: (pos.x * pow2(zoom)) as i64,
        y: (-pos.y * pow2(zoom)) as i64,
    }
}

/// The inverse of the local bitmap layer, truncating toward zero.
pub open spec fn spec_local_unbp(px: Pixels, zoom: nat) -> Position {
    Position {
        x: div_trunc(px.x as int, pow2(zoom) as int) as i64,
        y: (-div_trunc(px.y as int, pow2(zoom) as int)) as i64,
    }
}

impl LocalProjector {
    /// How many thousandths of a map unit one screen pixel spans:
    /// `2^(MAX_ZOOM - zoom)`. The original scale, in whole units, is this
    /// over one thousand.
    pub fn units_per_point_milli(zoom: u8) -> (r: u64)
        requires
            zoom <= MAX_ZOOM,
        ensures
            r == pow2((MAX_ZOOM - zoom) as nat),
    {
        pow2_u64(MAX_ZOOM - zoom)
    }

    /// A local projector over this view state, with an empty viewport
    /// until the frame sets one.
    pub fn new(map_memory: &MapMemory, my_position: Position) -> (r: LocalProjector)
        ensures
            r.clip_rect == Rect::nothing_spec(),
            r.memory == *map_memory,
            r.my_position == my_position,
    {
        LocalProjector { clip_rect: Rect::nothing(), memory: *map_memory, my_position }
    }

    /// The whole state a projector must be in before projecting: a legal
    /// zoom, a well-formed center, a viewport on screen, and an anchor
    /// close enough to the origin.
    pub open spec fn wf(self) -> bool {
        &&& self.memory.zoom <= MAX_ZOOM
        &&& self.memory.center_mode.wf()
        &&& self.clip_rect.bounded()
        &&& match self.memory.center_mode.spec_adjusted_position() {
            Some(ap) => pos_bounded(ap.position) && pix_small(ap.offset),
            None => pos_bounded(self.my_position),
        }
        &&& pos_bounded(self.spec_anchor())
    }

    /// Record the viewport for this frame.
    pub fn set_clip_rect(&mut self, rect: Rect)
        ensures
            *final(self) == (LocalProjector { clip_rect: rect, ..*old(self) }),
    {
        self.clip_rect = rect;
    }

    /// The local strategy has no tile grid: no tile is ever requested.
    pub fn tile_id(&self, _pos: Position, _zoom: u8, _source_tile_size: u32) -> (r: Option<
        TileId,
    >)
        ensures
            r is None,
    {
        None
    }

    /// World to bitmap pixels; see [`spec_local_bp`].
    pub fn bitmap_project(&self, position: Position) -> (r: Pixels)
        requires
            self.memory.zoom <= MAX_ZOOM,
            pos_bounded(position),
        ensures
            r == spec_local_bp(position, self.memory.zoom as nat),
            pix_mid(r),
    {
        let p = pow2_u64(self.memory.zoom);
        proof {
            lemma2_to64();
            lemma2_to64_rest();
            if (self.memory.zoom as nat) < 20 {
                lemma_pow2_strictly_increases(self.memory.zoom as nat, 20);
            }
            assert((-(position.y as int)) * (p as int) == -(position.y * (p as int)))
                by (nonlinear_arith);
        }
        let x = mul_pow2(position.x, p);
        let y = mul_pow2(position.y, p);
        Pixels { x, y: -y }
    }

    /// Bitmap pixels back to the world; see [`spec_local_unbp`].
    pub fn bitmap_unproject(&self, px: Pixels) -> (r: Position)
        requires
            self.memory.zoom <= MAX_ZOOM,
            pix_input(px),
        ensures
            r == spec_local_unbp(px, self.memory.zoom as nat),
    {
        let p = pow2_u64(self.memory.zoom);
        let x = mul_div_trunc(px.x, 1, p);
        let y = mul_div_trunc(px.y, 1, p);
        Position { x, y: -y }
    }

    /// The world position a pending pan leaves an adjusted position at:
    /// its base, nudged by the offset.
    pub open spec fn spec_position_of(self, ap: AdjustedPosition) -> Position {
        self.spec_shift(ap.position, ap.offset)
    }

    /// See [`Projector::shift`].
    pub open spec fn spec_shift(self, pos: Position, offset: Pixels) -> Position {
        let bp = spec_local_bp(pos, self.memory.zoom as nat);
        spec_local_unbp(
            Pixels { x: (bp.x - offset.x) as i64, y: (bp.y - offset.y) as i64 },
            self.memory.zoom as nat,
        )
    }

    /// Nudge a world position by a pixel offset, through the bitmap
    /// layer: `unproject(project(pos) - offset)`.
    pub fn shift(&self, pos: Position, offset: Pixels) -> (r: Position)
        requires
            self.memory.zoom <= MAX_ZOOM,
            pos_bounded(pos),
            pix_small(offset),
        ensures
            r == self.spec_shift(pos, offset),
    {
        let bp = self.bitmap_project(pos);
        let moved = Pixels { x: bp.x - offset.x, y: bp.y - offset.y };
        self.bitmap_unproject(moved)
    }

    /// Resolve an adjusted position to a plain one.
    pub fn position(&self, ap: AdjustedPosition) -> (r: Position)
        requires
            self.memory.zoom <= MAX_ZOOM,
            pos_bounded(ap.position),
            pix_small(ap.offset),
        ensures
            r == self.spec_position_of(ap),
    {
        self.shift(ap.position, ap.offset)
    }

    /// Fold an adjusted position's pending offset into its base, leaving
    /// no offset.
    pub fn zero_offset(&self, ap: AdjustedPosition) -> (r: AdjustedPosition)
        requires
            self.memory.zoom <= MAX_ZOOM,
            pos_bounded(ap.position),
            pix_small(ap.offset),
        ensures
            r.position == self.spec_position_of(ap),
            r.offset == (Pixels { x: 0, y: 0 }),
    {
        AdjustedPosition { position: self.position(ap), offset: Pixels { x: 0, y: 0 } }
    }

    /// The anchor: the world position drawn at the middle of the
    /// viewport. The center state machine's position when detached, the
    /// live position when following.
    pub open spec fn spec_anchor(self) -> Position {
        match self.memory.center_mode.spec_adjusted_position() {
            Some(ap) => self.spec_position_of(ap),
            None => self.my_position,
        }
    }

    /// See [`Self::spec_anchor`].
    pub fn anchor(&self) -> (r: Position)
        requires
            self.wf(),
        ensures
            r == self.spec_anchor(),
            pos_bounded(r),
    {
        match self.memory.center_mode.adjusted_position() {
            Some(ap) => self.position(ap),
            None => self.my_position,
        }
    }

    /// See [`Projector::project`].
    pub open spec fn spec_project(self, pos: Position) -> Pixels {
        let bp = spec_local_bp(pos, self.memory.zoom as nat);
        let abp = spec_local_bp(self.spec_anchor(), self.memory.zoom as nat);
        let c = spec_rect_center(self.clip_rect);
        Pixels { x: (bp.x - abp.x + c.x) as i64, y: (bp.y - abp.y + c.y) as i64 }
    }

    /// Project a position to viewport pixels: the bitmap layer, then the
    /// screen layer.
    pub fn project(&self, position: Position) -> (r: Pixels)
        requires
            self.wf(),
            pos_bounded(position),
        ensures
            r == self.spec_project(position),
    {
        let bp = self.bitmap_project(position);
        let abp = self.bitmap_project(self.anchor());
        to_screen(bp, abp, self.clip_rect.center())
    }

    /// See [`Projector::unproject`].
    pub open spec fn spec_unproject(self, px: Pixels) -> Position {
        let abp = spec_local_bp(self.spec_anchor(), self.memory.zoom as nat);
        let c = spec_rect_center(self.clip_rect);
        spec_local_unbp(
            Pixels { x: (abp.x + (px.x - c.x)) as i64, y: (abp.y + (px.y - c.y)) as i64 },
            self.memory.zoom as nat,
        )
    }

    /// The inverse of [`Self::project`]: the world position under a
    /// viewport pixel.
    pub fn unproject(&self, px: Pixels) -> (r: Position)
        requires
            self.wf(),
            pix_mid(px),
        ensures
            r == self.spec_unproject(px),
    {
        let abp = self.bitmap_project(self.anchor());
        let bp = from_screen(px, abp, self.clip_rect.center());
        self.bitmap_unproject(bp)
    }
}

impl Rect {
    /// The value [`Rect::nothing`] returns, for use in contracts.
    pub open spec fn nothing_spec() -> Rect {
        Rect { min: Pixels { x: 0, y: 0 }, max: Pixels { x: 0, y: 0 } }
    }
}

/// Whether a global position lies strictly inside the projected world:
/// longitude in [-180, 180) degrees and Mercator ordinate in (-180, 180]
/// degrees (about 85.05 degrees of latitude either way), in microdegrees.
pub open spec fn in_world(pos: Position) -> bool {
    &&& -180_000_000 <= pos.x < 180_000_000
    &&& -180_000_000 < pos.y <= 180_000_000
}

/// The numerator of the normalized Mercator x coordinate, over
/// [`NORM_DENOM`]: `(1 + lon/180deg) / 2` scaled.
pub open spec fn spec_merc_x(pos: Position) -> int {
    pos.x + 180_000_000
}

/// The numerator of the normalized Mercator y coordinate, over
/// [`NORM_DENOM`]: `(1 - merc/180deg) / 2` scaled; zero at the top of the
/// world, growing southward.
pub open spec fn spec_merc_y(pos: Position) -> int {
    180_000_000 - pos.y
}

/// The global bitmap layer: the normalized Mercator coordinate times
/// `2^zoom` tiles of [`crate::TILE_SIZE`] pixels, in fixed-point pixel
/// steps; the fraction reduces to `pow2(zoom + 22) / GLOBAL_DEN`.
pub open spec fn spec_global_bp(pos: Position, zoom: nat) -> Pixels {
    Pixels {
        x: ((spec_merc_x(pos) * pow2((zoom + 22) as nat)) / (GLOBAL_DEN as int)) as i64,
        y: ((spec_merc_y(pos) * pow2((zoom + 22) as nat)) / (GLOBAL_DEN as int)) as i64,
    }
}

/// The inverse of the global bitmap layer, truncating toward zero.
pub open spec fn spec_global_unbp(px: Pixels, zoom: nat) -> Position {
    Position {
        x: (div_trunc(px.x * (GLOBAL_DEN as int), pow2((zoom + 22) as nat) as int)
            - 180_000_000) as i64,
        y: (180_000_000 - div_trunc(
            px.y * (GLOBAL_DEN as int),
            pow2((zoom + 22) as nat) as int,
        )) as i64,
    }
}

/// The tile the global strategy picks: a pure function of the position,
/// the requested zoom and the source's tile size, and of nothing else —
/// equal arguments give the very same tile.
pub open spec fn spec_tile_id(pos: Position, zoom: u8, source_tile_size: u32) -> TileId {
    let z2 = (zoom - spec_zoom_adjustment(source_tile_size as nat)) as nat;
    TileId {
        x: ((spec_merc_x(pos) * pow2(z2)) / (NORM_DENOM as int)) as u32,
        y: ((spec_merc_y(pos) * pow2(z2)) / (NORM_DENOM as int)) as u32,
        zoom: z2 as u8,
    }
}

/// The global strategy: positions are longitude and Mercator ordinate (see
/// [`crate::position::POSITION_SCALE`]) and the bitmap layer maps the
/// world onto a square of `2^zoom` by `2^zoom` tiles.
#[derive(Clone, Copy, PartialEq, Eq, Structural, Debug)]
pub struct GlobalProjector {
    pub clip_rect: Rect,
    pub memory: MapMemory,
    pub my_position: Position,
}

impl GlobalProjector {
    /// Scale a position to the unit square of the Web-Mercator
    /// projection: both results are numerators over [`NORM_DENOM`], each
    /// in `[0, NORM_DENOM)`; x grows eastward, y southward.
    pub fn mercator_normalized(pos: Position) -> (r: (u64, u64))
        requires
            in_world(pos),
        ensures
            r.0 == spec_merc_x(pos),
            r.1 == spec_merc_y(pos),
            r.0 < NORM_DENOM,
            r.1 < NORM_DENOM,
    {
        (((pos.x + 180_000_000) as u64), ((180_000_000 - pos.y) as u64))
    }

    /// A global projector over this view state, with an empty viewport
    /// until the frame sets one.
    pub fn new(map_memory: &MapMemory, my_position: Position) -> (r: GlobalProjector)
        ensures
            r.clip_rect == Rect::nothing_spec(),
            r.memory == *map_memory,
            r.my_position == my_position,
    {
        GlobalProjector { clip_rect: Rect::nothing(), memory: *map_memory, my_position }
    }

    /// As [`LocalProjector::wf`], with positions inside the world.
    pub open spec fn wf(self) -> bool {
        &&& self.memory.zoom <= MAX_ZOOM
        &&& self.memory.center_mode.wf()
        &&& self.clip_rect.bounded()
        &&& match self.memory.center_mode.spec_adjusted_position() {
            Some(ap) => in_world(ap.position) && pix_small(ap.offset),
            None => in_world(self.my_position),
        }
        &&& in_world(self.spec_anchor())
    }

    /// Record the viewport for this frame.
    pub fn set_clip_rect(&mut self, rect: Rect)
        ensures
            *final(self) == (GlobalProjector { clip_rect: rect, ..*old(self) }),
    {
        self.clip_rect = rect;
    }

    /// The tile covering a position at the requested zoom, adjusted down
    /// by [`spec_zoom_adjustment`] for sources whose tiles bundle several
    /// internal ones. Its grid coordinates always lie in `[0, 2^zoom)` of
    /// the adjusted zoom.
    pub fn tile_id(&self, pos: Position, zoom: u8, source_tile_size: u32) -> (r: Option<TileId>)
        requires
            in_world(pos),
            zoom <= 30,
            spec_zoom_adjustment(source_tile_size as nat) <= zoom,
        ensures
            r == Some(spec_tile_id(pos, zoom, source_tile_size)),
            r matches Some(t) && ({
                let z2 = (zoom - spec_zoom_adjustment(source_tile_size as nat)) as nat;
                &&& t.zoom == z2
                &&& t.x == (spec_merc_x(pos) * pow2(z2)) / (NORM_DENOM as int)
                &&& t.y == (spec_merc_y(pos) * pow2(z2)) / (NORM_DENOM as int)
                &&& t.x < pow2(z2)
                &&& t.y < pow2(z2)
            }),
    {
        let adj = zoom_adjustment(source_tile_size);
        let z2 = zoom - adj;
        let n = pow2_u64(z2);
        let (mx, my) = Self::mercator_normalized(pos);
        proof {
            lemma2_to64();
            lemma2_to64_rest();
            if (z2 as nat) < 30 {
                lemma_pow2_strictly_increases(z2 as nat, 30);
            }
            assert(mx * n <= 360_000_000 * 0x4000_0000 && my * n <= 360_000_000 * 0x4000_0000)
                by (nonlinear_arith)
                requires
                    mx < 360_000_000,
                    my < 360_000_000,
                    0 <= n <= 0x4000_0000,
            ;
            lemma_mul_strict_inequality(mx as int, NORM_DENOM as int, n as int);
            lemma_mul_strict_inequality(my as int, NORM_DENOM as int, n as int);
            lemma_multiply_divide_lt((mx * n) as int, NORM_DENOM as int, n as int);
            lemma_multiply_divide_lt((my * n) as int, NORM_DENOM as int, n as int);
        }
        let x = ((mx * n) / NORM_DENOM) as u32;
        let y = ((my * n) / NORM_DENOM) as u32;
        Some(TileId { x, y, zoom: z2 })
    }

    /// World to bitmap pixels; see [`spec_global_bp`].
    pub fn bitmap_project(&self, position: Position) -> (r: Pixels)
        requires
            self.memory.zoom <= MAX_ZOOM,
            in_world(position),
        ensures
            r == spec_global_bp(position, self.memory.zoom as nat),
            pix_mid(r),
            r.x >= 0,
            r.y >= 0,
    {
        let (mx, my) = Self::mercator_normalized(position);
        let p = pow2_u64(self.memory.zoom + 22);
        proof {
            lemma2_to64();
            lemma2_to64_rest();
            if ((self.memory.zoom + 22) as nat) < 42 {
                lemma_pow2_strictly_increases((self.memory.zoom + 22) as nat, 42);
            }
            assert(mx * p <= 360_000_000 * 0x400_0000_0000 && my * p <= 360_000_000
                * 0x400_0000_0000) by (nonlinear_arith)
                requires
                    mx < 360_000_000,
                    my < 360_000_000,
                    0 <= p <= 0x400_0000_0000,
            ;
            lemma_div_is_ordered((mx * p) as int, 360_000_000int * 0x400_0000_0000, GLOBAL_DEN as int);
            lemma_div_is_ordered(0, (mx * p) as int, GLOBAL_DEN as int);
            lemma_div_is_ordered((my * p) as int, 360_000_000int * 0x400_0000_0000, GLOBAL_DEN as int);
            lemma_div_is_ordered(0, (my * p) as int, GLOBAL_DEN as int);
        }
        let qx: u128 = (mx as u128 * p as u128) / (GLOBAL_DEN as u128);
        let qy: u128 = (my as u128 * p as u128) / (GLOBAL_DEN as u128);
        Pixels { x: qx as i64, y: qy as i64 }
    }

    /// Bitmap pixels back to the world; see [`spec_global_unbp`].
    pub fn bitmap_unproject(&self, px: Pixels) -> (r: Position)
        requires
            self.memory.zoom <= MAX_ZOOM,
            pix_input(px),
        ensures
            r == spec_global_unbp(px, self.memory.zoom as nat),
    {
        let p = pow2_u64(self.memory.zoom + 22);
        proof {
            lemma2_to64();
            lemma2_to64_rest();
            if ((self.memory.zoom + 22) as nat) > 22 {
                lemma_pow2_strictly_increases(22, (self.memory.zoom + 22) as nat);
            }
        }
        let x = mul_div_trunc(px.x, GLOBAL_DEN, p);
        let y = mul_div_trunc(px.y, GLOBAL_DEN, p);
        Position { x: x - 180_000_000, y: 180_000_000 - y }
    }

    /// The world position a pending pan leaves an adjusted position at.
    pub open spec fn spec_position_of(self, ap: AdjustedPosition) -> Position {
        self.spec_shift(ap.position, ap.offset)
    }

    /// See [`Projector::shift`].
    pub open spec fn spec_shift(self, pos: Position, offset: Pixels) -> Position {
        let bp = spec_global_bp(pos, self.memory.zoom as nat);
        spec_global_unbp(
            Pixels { x: (bp.x - offset.x) as i64, y: (bp.y - offset.y) as i64 },
            self.memory.zoom as nat,
        )
    }

    /// Nudge a world position by a pixel offset, through the bitmap
    /// layer: `unproject(project(pos) - offset)`.
    pub fn shift(&self, pos: Position, offset: Pixels) -> (r: Position)
        requires
            self.memory.zoom <= MAX_ZOOM,
            in_world(pos),
            pix_small(offset),
        ensures
            r == self.spec_shift(pos, offset),
    {
        let bp = self.bitmap_project(pos);
        let moved = Pixels { x: bp.x - offset.x, y: bp.y - offset.y };
        self.bitmap_unproject(moved)
    }

    /// Resolve an adjusted position to a plain one.
    pub fn position(&self, ap: AdjustedPosition) -> (r: Position)
        requires
            self.memory.zoom <= MAX_ZOOM,
            in_world(ap.position),
            pix_small(ap.offset),
        ensures
            r == self.spec_position_of(ap),
    {
        self.shift(ap.position, ap.offset)
    }

    /// Fold an adjusted position's pending offset into its base.
    pub fn zero_offset(&self, ap: AdjustedPosition) -> (r: AdjustedPosition)
        requires
            self.memory.zoom <= MAX_ZOOM,
            in_world(ap.position),
            pix_small(ap.offset),
        ensures
            r.position == self.spec_position_of(ap),
            r.offset == (Pixels { x: 0, y: 0 }),
    {
        AdjustedPosition { position: self.position(ap), offset: Pixels { x: 0, y: 0 } }
    }

    /// The anchor, as [`LocalProjector::spec_anchor`].
    pub open spec fn spec_anchor(self) -> Position {
        match self.memory.center_mode.spec_adjusted_position() {
            Some(ap) => self.spec_position_of(ap),
            None => self.my_position,
        }
    }

    /// See [`Self::spec_anchor`].
    pub fn anchor(&self) -> (r: Position)
        requires
            self.wf(),
        ensures
            r == self.spec_anchor(),
            in_world(r),
    {
        match self.memory.center_mode.adjusted_position() {
            Some(ap) => self.position(ap),
            None => self.my_position,
        }
    }

    /// See [`Projector::project`].
    pub open spec fn spec_project(self, pos: Position) -> Pixels {
        let bp = spec_global_bp(pos, self.memory.zoom as nat);
        let abp = spec_global_bp(self.spec_anchor(), self.memory.zoom as nat);
        let c = spec_rect_center(self.clip_rect);
        Pixels { x: (bp.x - abp.x + c.x) as i64, y: (bp.y - abp.y + c.y) as i64 }
    }

    /// Project a position to viewport pixels.
    pub fn project(&self, position: Position) -> (r: Pixels)
        requires
            self.wf(),
            in_world(position),
        ensures
            r == self.spec_project(position),
    {
        let bp = self.bitmap_project(position);
        let abp = self.bitmap_project(self.anchor());
        to_screen(bp, abp, self.clip_rect.center())
    }

    /// See [`Projector::unproject`].
    pub open spec fn spec_unproject(self, px: Pixels) -> Position {
        let abp = spec_global_bp(self.spec_anchor(), self.memory.zoom as nat);
        let c = spec_rect_center(self.clip_rect);
        spec_global_unbp(
            Pixels { x: (abp.x + (px.x - c.x)) as i64, y: (abp.y + (px.y - c.y)) as i64 },
            self.memory.zoom as nat,
        )
    }

    /// The world position under a viewport pixel.
    pub fn unproject(&self, px: Pixels) -> (r: Position)
        requires
            self.wf(),
            pix_mid(px),
        ensures
            r == self.spec_unproject(px),
    {
        let abp = self.bitmap_project(self.anchor());
        let bp = from_screen(px, abp, self.clip_rect.center());
        self.bitmap_unproject(bp)
    }
}

/// How many pixels wide the whole world is at a zoom level:
/// `2^zoom * TILE_SIZE`, which is `2^(zoom + 8)`.
pub fn total_pixels(zoom: u8) -> (r: u64)
    requires
        zoom <= 30,
    ensures
        r == pow2((zoom + 8) as nat),
{
    pow2_u64(zoom + 8)
}

/// A projector relates positions to screen coordinates; two strategies
/// are supported, behind the same interface.
#[derive(Clone, Copy, PartialEq, Eq, Structural, Debug)]
pub enum Projector {
    /// The regular map: positions are longitude and Mercator ordinate,
    /// projected by the Web-Mercator projection.
    Global(GlobalProjector),
    /// Local coordinates: positions are planar x and y in arbitrary
    /// units, projected by an affine transformation.
    Local(LocalProjector),
}

impl Projector {
    /// Whether the projector is ready to project; see the strategies'
    /// own `wf`.
    pub open spec fn wf(self) -> bool {
        match self {
            Projector::Global(g) => g.wf(),
            Projector::Local(l) => l.wf(),
        }
    }

    /// The zoom level is legal.
    pub open spec fn zoom_ok(self) -> bool {
        match self {
            Projector::Global(g) => g.memory.zoom <= MAX_ZOOM,
            Projector::Local(l) => l.memory.zoom <= MAX_ZOOM,
        }
    }

    /// Which positions this strategy projects: the global strategy wants
    /// the world, the local one a bounded plane.
    pub open spec fn allows(self, pos: Position) -> bool {
        match self {
            Projector::Global(_) => in_world(pos),
            Projector::Local(_) => pos_bounded(pos),
        }
    }

    /// See [`Projector::project`].
    pub open spec fn spec_project(self, pos: Position) -> Pixels {
        match self {
            Projector::Global(g) => g.spec_project(pos),
            Projector::Local(l) => l.spec_project(pos),
        }
    }

    /// Project the position to screen coordinates.
    pub fn project(&self, position: Position) -> (r: Pixels)
        requires
            self.wf(),
            self.allows(position),
        ensures
            r == self.spec_project(position),
    {
        match self {
            Projector::Global(g) => g.project(position),
            Projector::Local(l) => l.project(position),
        }
    }

    /// See [`Projector::unproject`].
    pub open spec fn spec_unproject(self, px: Pixels) -> Position {
        match self {
            Projector::Global(g) => g.spec_unproject(px),
            Projector::Local(l) => l.spec_unproject(px),
        }
    }

    /// Unproject screen coordinates back to a position.
    pub fn unproject(&self, px: Pixels) -> (r: Position)
        requires
            self.wf(),
            pix_mid(px),
        ensures
            r == self.spec_unproject(px),
    {
        match self {
            Projector::Global(g) => g.unproject(px),
            Projector::Local(l) => l.unproject(px),
        }
    }

    /// Record the viewport rectangle used for screen-space recentering;
    /// to be called once per frame before projecting or unprojecting.
    pub fn set_clip_rect(&mut self, rect: Rect)
        ensures
            *final(self) == match *old(self) {
                Projector::Global(g) => Projector::Global(
                    GlobalProjector { clip_rect: rect, ..g },
                ),
                Projector::Local(l) => Projector::Local(LocalProjector { clip_rect: rect, ..l }),
            },
    {
        let p = *self;
        *self = match p {
            Projector::Global(mut g) => {
                g.set_clip_rect(rect);
                Projector::Global(g)
            },
            Projector::Local(mut l) => {
                l.set_clip_rect(rect);
                Projector::Local(l)
            },
        };
    }

    /// The tile covering a position, if this strategy has a tile grid.
    pub fn tile_id(&self, pos: Position, zoom: u8, source_tile_size: u32) -> (r: Option<TileId>)
        requires
            self matches Projector::Global(_) ==> in_world(pos) && zoom <= 30
                && spec_zoom_adjustment(source_tile_size as nat) <= zoom,
        ensures
            match *self {
                Projector::Global(_) => {
                    &&& r == Some(spec_tile_id(pos, zoom, source_tile_size))
                    &&& r matches Some(t) && t.x < pow2(t.zoom as nat) && t.y < pow2(
                        t.zoom as nat,
                    )
                },
                Projector::Local(_) => r is None,
            },
    {
        match self {
            Projector::Global(g) => g.tile_id(pos, zoom, source_tile_size),
            Projector::Local(l) => l.tile_id(pos, zoom, source_tile_size),
        }
    }

    /// See the strategies' `spec_shift`.
    pub open spec fn spec_shift(self, pos: Position, offset: Pixels) -> Position {
        match self {
            Projector::Global(g) => g.spec_shift(pos, offset),
            Projector::Local(l) => l.spec_shift(pos, offset),
        }
    }

    /// Nudge a position by a pixel offset: `unproject(project(pos) -
    /// offset)`, shared by both strategies.
    pub fn shift(&self, pos: Position, offset: Pixels) -> (r: Position)
        requires
            self.zoom_ok(),
            self.allows(pos),
            pix_small(offset),
        ensures
            r == self.spec_shift(pos, offset),
    {
        match self {
            Projector::Global(g) => g.shift(pos, offset),
            Projector::Local(l) => l.shift(pos, offset),
        }
    }

    /// See the strategies' `spec_position_of`.
    pub open spec fn spec_position_of(self, ap: AdjustedPosition) -> Position {
        match self {
            Projector::Global(g) => g.spec_position_of(ap),
            Projector::Local(l) => l.spec_position_of(ap),
        }
    }

    /// Resolve an adjusted position to a plain one.
    pub fn position(&self, ap: AdjustedPosition) -> (r: Position)
        requires
            self.zoom_ok(),
            self.allows(ap.position),
            pix_small(ap.offset),
        ensures
            r == self.spec_position_of(ap),
    {
        match self {
            Projector::Global(g) => g.position(ap),
            Projector::Local(l) => l.position(ap),
        }
    }

    /// Fold an adjusted position's pending offset into its base.
    pub fn zero_offset(&self, ap: AdjustedPosition) -> (r: AdjustedPosition)
        requires
            self.zoom_ok(),
            self.allows(ap.position),
            pix_small(ap.offset),
        ensures
            r.position == self.spec_position_of(ap),
            r.offset == (Pixels { x: 0, y: 0 }),
    {
        match self {
            Projector::Global(g) => g.zero_offset(ap),
            Projector::Local(l) => l.zero_offset(ap),
        }
    }

    /// See the strategies' `bitmap_project`.
    pub open spec fn spec_bitmap_project(self, pos: Position) -> Pixels {
        match self {
            Projector::Global(g) => spec_global_bp(pos, g.memory.zoom as nat),
            Projector::Local(l) => spec_local_bp(pos, l.memory.zoom as nat),
        }
    }

    /// World to bitmap pixels under the current strategy.
    pub fn bitmap_project(&self, position: Position) -> (r: Pixels)
        requires
            self.zoom_ok(),
            self.allows(position),
        ensures
            r == self.spec_bitmap_project(position),
            pix_mid(r),
    {
        match self {
            Projector::Global(g) => g.bitmap_project(position),
            Projector::Local(l) => l.bitmap_project(position),
        }
    }
}

/// Law: the local projector's round trip is exact. Projecting any bounded
/// position and unprojecting the result gives the position back, at every
/// zoom level up to [`MAX_ZOOM`].
pub proof fn lemma_local_round_trip(p: LocalProjector, pos: Position)
    requires
        p.wf(),
        pos_bounded(pos),
    ensures
        p.spec_unproject(p.spec_project(pos)) == pos,
{
    let z = p.memory.zoom as nat;
    lemma2_to64();
    lemma2_to64_rest();
    lemma_pow2_pos(z);
    if z < 20 {
        lemma_pow2_strictly_increases(z, 20);
    }
    let pw = pow2(z) as int;
    assert(1 <= pw <= 0x10_0000);
    let anchor = p.spec_anchor();
    assert(-BP_LIMIT <= pos.x * pw <= BP_LIMIT && -BP_LIMIT <= pos.y * pw <= BP_LIMIT
        && -BP_LIMIT <= anchor.x * pw <= BP_LIMIT && -BP_LIMIT <= anchor.y * pw <= BP_LIMIT)
        by (nonlinear_arith)
        requires
            -0x100_0000_0000 <= pos.x <= 0x100_0000_0000,
            -0x100_0000_0000 <= pos.y <= 0x100_0000_0000,
            -0x100_0000_0000 <= anchor.x <= 0x100_0000_0000,
            -0x100_0000_0000 <= anchor.y <= 0x100_0000_0000,
            1 <= pw <= 0x10_0000,
    ;
    assert((-(pos.y as int)) * pw == -(pos.y * pw)) by (nonlinear_arith);
    assert((-(anchor.y as int)) * pw == -(anchor.y * pw)) by (nonlinear_arith);
    lemma_rect_center_small(p.clip_rect);
    crate::position::lemma_div_trunc_exact(pos.x as int, pw);
    crate::position::lemma_div_trunc_exact(-(pos.y as int), pw);
}

/// One trip through the global fraction and back loses less than one
/// step: flooring `m * big / small` and then `floor * small / big` lands
/// on `m` or `m - 1`, whenever the numerator does not exceed the
/// denominator.
proof fn lemma_global_quantization(m: int, big: int, small: int)
    requires
        0 <= m,
        0 < small <= big,
    ensures
        m - 1 <= (((m * big) / small) * small) / big <= m,
        0 <= (m * big) / small,
{
    let a = (m * big) / small;
    assert(m * big >= 0) by (nonlinear_arith)
        requires
            m >= 0,
            big > 0,
    ;
    lemma_basic_div(0, small);
    lemma_div_is_ordered(0, m * big, small);
    lemma_fundamental_div_mod(m * big, small);
    lemma_mod_bound(m * big, small);
    assert(a * small == small * a) by (nonlinear_arith);
    // Going up cannot overshoot: a * small <= m * big.
    lemma_div_is_ordered(a * small, m * big, big);
    assert(m * big == big * m) by (nonlinear_arith);
    lemma_div_multiples_vanish(m, big);
    // Going up cannot fall short by a whole step: a * small >= (m-1) * big.
    assert((m - 1) * big == m * big - big) by (nonlinear_arith);
    lemma_div_is_ordered((m - 1) * big, a * small, big);
    assert((m - 1) * big == big * (m - 1)) by (nonlinear_arith);
    lemma_div_multiples_vanish(m - 1, big);
}

/// Law: the global projector's round trip is exact to within one
/// millionth of a degree. The screen layer cancels exactly; only the
/// bitmap layer's fixed-point floor can lose ground, and it loses less
/// than one position step per axis.
pub proof fn lemma_global_round_trip_close(p: GlobalProjector, pos: Position)
    requires
        p.wf(),
        in_world(pos),
    ensures
        ({
            let r = p.spec_unproject(p.spec_project(pos));
            &&& pos.x - 1 <= r.x <= pos.x
            &&& pos.y <= r.y <= pos.y + 1
        }),
{
    let z = p.memory.zoom as nat;
    lemma2_to64();
    lemma2_to64_rest();
    lemma_pow2_pos((z + 22) as nat);
    if z < 20 {
        lemma_pow2_strictly_increases((z + 22) as nat, 42);
    }
    let big = pow2((z + 22) as nat) as int;
    assert(0x40_0000 <= big <= 0x400_0000_0000);
    let den = GLOBAL_DEN as int;
    let mx = spec_merc_x(pos);
    let my = spec_merc_y(pos);
    let anchor = p.spec_anchor();
    let ax = spec_merc_x(anchor);
    let ay = spec_merc_y(anchor);

    lemma_global_quantization(mx, big, den);
    lemma_global_quantization(my, big, den);
    lemma_global_quantization(ax, big, den);
    lemma_global_quantization(ay, big, den);

    // Every floored bitmap value stays under 2^59, so the casts in the
    // specification are the identity.
    assert forall|m: int| 0 <= m < 360_000_000 implies 0 <= #[trigger] ((m * big) / den)
        <= 0x800_0000_0000_0000 by {
        assert(m * big >= 0 && m * big <= 360_000_000int * 0x400_0000_0000) by (nonlinear_arith)
            requires
                0 <= m < 360_000_000,
                0 < big <= 0x400_0000_0000,
        ;
        lemma_basic_div(0, den);
        lemma_div_is_ordered(0, m * big, den);
        lemma_div_is_ordered(m * big, 360_000_000int * 0x400_0000_0000, den);
    }

    // The viewport center is a screen-sized vector.
    lemma_rect_center_small(p.clip_rect);
}

/// The middle of a bounded rectangle is a screen-sized vector.
proof fn lemma_rect_center_small(r: Rect)
    requires
        r.bounded(),
    ensures
        pix_small(spec_rect_center(r)),
{
    let sx = r.min.x + r.max.x;
    let sy = r.min.y + r.max.y;
    assert(sx * 1 == sx && sy * 1 == sy) by (nonlinear_arith);
    crate::position::lemma_mul_div_trunc_bound(sx, 1, 2);
    crate::position::lemma_mul_div_trunc_bound(sy, 1, 2);
}

/// Law: nudging a position by a pixel offset is the same as projecting
/// it, moving the screen point back by the offset, and unprojecting —
/// under either strategy, because the screen layer cancels out of the
/// difference exactly.
pub proof fn lemma_shift_is_project_then_unproject(p: Projector, pos: Position, offset: Pixels)
    requires
        p.wf(),
        p.allows(pos),
        pix_small(offset),
    ensures
        ({
            let px = p.spec_project(pos);
            let moved = Pixels { x: (px.x - offset.x) as i64, y: (px.y - offset.y) as i64 };
            p.spec_unproject(moved) == p.spec_shift(pos, offset)
        }),
{
    match p {
        Projector::Local(l) => {
            let z = l.memory.zoom as nat;
            lemma2_to64();
            lemma2_to64_rest();
            lemma_pow2_pos(z);
            if z < 20 {
                lemma_pow2_strictly_increases(z, 20);
            }
            let pw = pow2(z) as int;
            let anchor = l.spec_anchor();
            assert(-BP_LIMIT <= pos.x * pw <= BP_LIMIT && -BP_LIMIT <= pos.y * pw <= BP_LIMIT
                && -BP_LIMIT <= anchor.x * pw <= BP_LIMIT && -BP_LIMIT <= anchor.y * pw
                <= BP_LIMIT) by (nonlinear_arith)
                requires
                    -0x100_0000_0000 <= pos.x <= 0x100_0000_0000,
                    -0x100_0000_0000 <= pos.y <= 0x100_0000_0000,
                    -0x100_0000_0000 <= anchor.x <= 0x100_0000_0000,
                    -0x100_0000_0000 <= anchor.y <= 0x100_0000_0000,
                    1 <= pw <= 0x10_0000,
            ;
            assert((-(pos.y as int)) * pw == -(pos.y * pw)) by (nonlinear_arith);
            assert((-(anchor.y as int)) * pw == -(anchor.y * pw)) by (nonlinear_arith);
            lemma_rect_center_small(l.clip_rect);
        },
        Projector::Global(g) => {
            let z = g.memory.zoom as nat;
            lemma2_to64();
            lemma2_to64_rest();
            lemma_pow2_pos((z + 22) as nat);
            if z < 20 {
                lemma_pow2_strictly_increases((z + 22) as nat, 42);
            }
            let big = pow2((z + 22) as nat) as int;
            let den = GLOBAL_DEN as int;
            let anchor = g.spec_anchor();
            assert forall|m: int| 0 <= m < 360_000_000 implies 0 <= #[trigger] ((m * big) / den)
                <= 0x800_0000_0000_0000 by {
                assert(m * big >= 0 && m * big <= 360_000_000int * 0x400_0000_0000)
                    by (nonlinear_arith)
                    requires
                        0 <= m < 360_000_000,
                        0 < big <= 0x400_0000_0000,
                ;
                lemma_basic_div(0, den);
                lemma_div_is_ordered(0, m * big, den);
                lemma_div_is_ordered(m * big, 360_000_000int * 0x400_0000_0000, den);
            }
            assert(0 <= spec_merc_x(pos) < 360_000_000 && 0 <= spec_merc_y(pos) < 360_000_000);
            assert(0 <= spec_merc_x(anchor) < 360_000_000 && 0 <= spec_merc_y(anchor)
                < 360_000_000);
            lemma_rect_center_small(g.clip_rect);
        },
    }
}

} // verus!
