use walkers::center::Center;
use walkers::map_memory::MapMemory;
use walkers::position::{Pixels, Position, PIXEL_SCALE};
use walkers::projector::{
    zoom_adjustment, total_pixels, GlobalProjector, LocalProjector, Projector, Rect, MAX_ZOOM,
};
use walkers::tiles::TileId;

fn global_at_origin(zoom: u8) -> GlobalProjector {
    let memory = MapMemory::new(zoom, Center::MyPosition);
    GlobalProjector::new(&memory, Position::new(0, 0))
}

#[test]
fn tile_id_at_origin_zoom_zero() {
    // One 256 px tile covers the whole world at zoom 0, and the origin
    // lands in it.
    let g = global_at_origin(0);
    let t = g.tile_id(Position::new(0, 0), 0, 256);
    assert_eq!(t, Some(TileId::new(0, 0, 0)));
}

#[test]
fn tile_id_is_deterministic() {
    let g = global_at_origin(7);
    let pos = Position::new(6_865_500, 59_725_000);
    let a = g.tile_id(pos, 7, 256);
    let b = g.tile_id(pos, 7, 256);
    assert_eq!(a, b);
}

#[test]
fn tile_id_stays_on_grid() {
    // Even at the world's edges the grid coordinates stay in [0, 2^zoom).
    let g = global_at_origin(3);
    let corners = [
        Position::new(-180_000_000, 180_000_000),
        Position::new(-180_000_000, -179_999_999),
        Position::new(179_999_999, 180_000_000),
        Position::new(179_999_999, -179_999_999),
    ];
    for pos in corners {
        let t = g.tile_id(pos, 3, 256).unwrap();
        assert!(t.x < 8);
        assert!(t.y < 8);
        assert_eq!(t.zoom, 3);
    }
}

#[test]
fn tile_id_quadrants_at_zoom_one() {
    let g = global_at_origin(1);
    let nw = g.tile_id(Position::new(-90_000_000, 90_000_000), 1, 256).unwrap();
    assert_eq!((nw.x, nw.y), (0, 0));
    let se = g.tile_id(Position::new(90_000_000, -90_000_000), 1, 256).unwrap();
    assert_eq!((se.x, se.y), (1, 1));
}

#[test]
fn tile_id_adjusts_zoom_for_large_source_tiles() {
    // A 512 px source bundles four internal tiles: fetched one zoom lower.
    let g = global_at_origin(3);
    let t = g.tile_id(Position::new(0, 0), 3, 512).unwrap();
    assert_eq!(t.zoom, 2);
    let t = g.tile_id(Position::new(0, 0), 3, 1024).unwrap();
    assert_eq!(t.zoom, 1);
    let t = g.tile_id(Position::new(0, 0), 3, 256).unwrap();
    assert_eq!(t.zoom, 3);
}

#[test]
fn zoom_adjustment_is_log2_of_ratio() {
    assert_eq!(zoom_adjustment(0), 0);
    assert_eq!(zoom_adjustment(256), 0);
    assert_eq!(zoom_adjustment(511), 0);
    assert_eq!(zoom_adjustment(512), 1);
    assert_eq!(zoom_adjustment(1023), 1);
    assert_eq!(zoom_adjustment(1024), 2);
}

#[test]
fn local_projector_never_requests_tiles() {
    let memory = MapMemory::new(5, Center::MyPosition);
    let l = LocalProjector::new(&memory, Position::new(0, 0));
    assert_eq!(l.tile_id(Position::new(1, 2), 5, 256), None);
}

#[test]
fn local_round_trip_is_exact() {
    // Unproject of project gives back the very position, at several zooms
    // and with a viewport off to the side.
    let viewport = Rect::new(
        Pixels::new(0, 0),
        Pixels::new(800 * PIXEL_SCALE, 600 * PIXEL_SCALE),
    );
    for zoom in [0u8, 1, 7, MAX_ZOOM] {
        let memory = MapMemory::new(zoom, Center::MyPosition);
        let mut p = Projector::Local(LocalProjector::new(&memory, Position::new(44, -55)));
        p.set_clip_rect(viewport);
        for pos in [
            Position::new(0, 0),
            Position::new(123_456, -654_321),
            Position::new(-1, 1),
        ] {
            assert_eq!(p.unproject(p.project(pos)), pos);
        }
    }
}

#[test]
fn project_puts_the_anchor_at_the_viewport_center() {
    let viewport = Rect::new(
        Pixels::new(0, 0),
        Pixels::new(800 * PIXEL_SCALE, 600 * PIXEL_SCALE),
    );
    let anchor = Position::new(9_000, -4_000);
    let memory = MapMemory::new(4, Center::MyPosition);
    let mut p = Projector::Local(LocalProjector::new(&memory, anchor));
    p.set_clip_rect(viewport);
    assert_eq!(p.project(anchor), Pixels::new(400 * PIXEL_SCALE, 300 * PIXEL_SCALE));
}

#[test]
fn mercator_normalized_origin_is_the_middle() {
    let (x, y) = GlobalProjector::mercator_normalized(Position::new(0, 0));
    assert_eq!(x, 180_000_000);
    assert_eq!(y, 180_000_000);
}

#[test]
fn mercator_normalized_grows_east_and_south() {
    let (x0, y0) = GlobalProjector::mercator_normalized(Position::new(-180_000_000, 180_000_000));
    assert_eq!((x0, y0), (0, 0));
    let (x1, y1) = GlobalProjector::mercator_normalized(Position::new(90_000_000, -90_000_000));
    assert_eq!((x1, y1), (270_000_000, 270_000_000));
}

#[test]
fn global_shift_moves_west_for_positive_x_offset() {
    // Nudging by a positive pixel offset means the map content moved
    // right, so the position under the cursor is further west.
    let g = global_at_origin(10);
    let shifted = g.shift(Position::new(0, 0), Pixels::new(100 * PIXEL_SCALE, 0));
    assert!(shifted.x < 0);
    assert_eq!(shifted.y, 0);
}

#[test]
fn units_per_point_doubles_per_zoom_out() {
    assert_eq!(LocalProjector::units_per_point_milli(MAX_ZOOM), 1);
    assert_eq!(LocalProjector::units_per_point_milli(19), 2);
    assert_eq!(LocalProjector::units_per_point_milli(10), 1024);
    assert_eq!(LocalProjector::units_per_point_milli(0), 1_048_576);
}

#[test]
fn global_round_trip_loses_under_one_step() {
    // The fixed-point Mercator round trip lands within one millionth of a
    // degree: x may floor down by one step, y up by one.
    let viewport = Rect::new(
        Pixels::new(0, 0),
        Pixels::new(800 * PIXEL_SCALE, 600 * PIXEL_SCALE),
    );
    for zoom in [0u8, 5, MAX_ZOOM] {
        let memory = MapMemory::new(zoom, Center::MyPosition);
        let mut p = Projector::Global(GlobalProjector::new(&memory, Position::new(0, 0)));
        p.set_clip_rect(viewport);
        for pos in [
            Position::new(0, 0),
            Position::new(6_865_500, 59_725_000),
            Position::new(-179_999_999, -123_456_789),
        ] {
            let r = p.unproject(p.project(pos));
            assert!(pos.x - 1 <= r.x && r.x <= pos.x);
            assert!(pos.y <= r.y && r.y <= pos.y + 1);
        }
    }
}

#[test]
fn total_pixels_doubles_per_zoom_in() {
    assert_eq!(total_pixels(0), 256);
    assert_eq!(total_pixels(1), 512);
    assert_eq!(total_pixels(10), 256 * 1024);
}
