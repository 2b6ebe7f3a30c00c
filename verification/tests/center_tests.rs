use walkers::center::{Center, INERTIA_START_MILLI};
use walkers::map_memory::MapMemory;
use walkers::position::{AdjustedPosition, Pixels, Position, PIXEL_SCALE};
use walkers::projector::{LocalProjector, Projector, MAX_ZOOM};

fn drag_delta() -> Pixels {
    Pixels::new(10_000, -2_000)
}

#[test]
fn drag_detaches_into_moving() {
    let mut c = Center::default();
    let changed = c.recalculate_drag(true, drag_delta(), false, Position::new(5, 7));
    assert!(changed);
    assert!(matches!(c, Center::Moving { .. }));
    if let Center::Moving { pos, direction } = c {
        assert_eq!(pos.position, Position::new(5, 7));
        assert_eq!(pos.offset, Pixels::new(0, 0));
        assert_eq!(direction, drag_delta());
    }
}

#[test]
fn release_starts_full_inertia() {
    let mut c = Center::Moving {
        pos: AdjustedPosition::new(Position::new(1, 2), Pixels::new(3, 4)),
        direction: drag_delta(),
    };
    let changed = c.recalculate_drag(false, Pixels::new(0, 0), true, Position::new(0, 0));
    assert!(changed);
    if let Center::Inertia { pos, direction, amount } = c {
        assert_eq!(pos.position, Position::new(1, 2));
        assert_eq!(direction, drag_delta());
        assert_eq!(amount, INERTIA_START_MILLI);
    } else {
        panic!("expected inertia after the drag stopped");
    }
}

#[test]
fn drag_release_glide_settles_into_exact() {
    // The full journey: MyPosition -> Moving -> Inertia -> Exact, never
    // back to MyPosition.
    let my = Position::new(100, 200);
    let mut c = Center::default();

    c.recalculate_drag(true, drag_delta(), false, my);
    assert!(matches!(c, Center::Moving { .. }));

    assert!(c.update_movement());
    assert!(matches!(c, Center::Moving { .. }));

    c.recalculate_drag(false, Pixels::new(0, 0), true, my);
    assert!(matches!(c, Center::Inertia { .. }));

    // The per-frame driver decays the glide; here it has fully decayed.
    if let Center::Inertia { pos, direction, .. } = c {
        c = Center::Inertia { pos, direction, amount: 0 };
    }
    assert!(c.update_movement());
    match c {
        Center::Exact { pos } => {
            assert_eq!(pos.position, my);
            assert_eq!(pos.offset, drag_delta());
        }
        _ => panic!("a decayed glide must settle into Exact"),
    }
}

#[test]
fn ticks_do_not_detach_follow_mode() {
    let mut c = Center::default();
    assert!(!c.update_movement());
    assert!(matches!(c, Center::MyPosition));
    let changed = c.recalculate_drag(false, drag_delta(), false, Position::new(0, 0));
    assert!(!changed);
    assert!(matches!(c, Center::MyPosition));
}

#[test]
fn moving_tick_accumulates_direction() {
    let mut c = Center::Moving {
        pos: AdjustedPosition::new(Position::new(0, 0), Pixels::new(0, 0)),
        direction: drag_delta(),
    };
    assert!(c.update_movement());
    assert!(c.update_movement());
    if let Center::Moving { pos, .. } = c {
        assert_eq!(pos.offset, Pixels::new(20_000, -4_000));
    }
}

#[test]
fn inertia_tick_scales_direction_by_amount() {
    let mut c = Center::Inertia {
        pos: AdjustedPosition::new(Position::new(0, 0), Pixels::new(0, 0)),
        direction: Pixels::new(10_000, -2_000),
        amount: 500,
    };
    assert!(c.update_movement());
    if let Center::Inertia { pos, amount, .. } = c {
        assert_eq!(pos.offset, Pixels::new(5_000, -1_000));
        assert_eq!(amount, 500);
    } else {
        panic!("a live glide stays in Inertia");
    }
}

#[test]
fn shift_is_noop_when_following() {
    let c = Center::MyPosition;
    assert!(matches!(c.shift(drag_delta()), Center::MyPosition));
}

#[test]
fn shift_accumulates_offset_when_detached() {
    let c = Center::Exact {
        pos: AdjustedPosition::new(Position::new(9, 9), Pixels::new(1, 2)),
    };
    if let Center::Exact { pos } = c.shift(Pixels::new(10, 20)) {
        assert_eq!(pos.position, Position::new(9, 9));
        assert_eq!(pos.offset, Pixels::new(11, 22));
    } else {
        panic!("shift keeps the mode");
    }
}

#[test]
fn zero_offset_folds_pan_into_base() {
    // At the deepest zoom one pixel is a thousand position steps, so an
    // offset of one pixel moves the base by exactly a thousand.
    let memory = MapMemory::new(MAX_ZOOM, Center::MyPosition);
    let projector = Projector::Local(LocalProjector::new(&memory, Position::new(0, 0)));
    let c = Center::Exact {
        pos: AdjustedPosition::new(Position::new(5_000, 7_000), Pixels::new(PIXEL_SCALE, 0)),
    };
    match c.zero_offset(&projector) {
        Center::Exact { pos } => {
            assert_eq!(pos.position, Position::new(4_000, 7_000));
            assert_eq!(pos.offset, Pixels::new(0, 0));
        }
        _ => panic!("zero_offset keeps the mode"),
    }
}

#[test]
fn position_resolves_live_or_detached() {
    let memory = MapMemory::new(3, Center::MyPosition);
    let projector = Projector::Local(LocalProjector::new(&memory, Position::new(0, 0)));
    let my = Position::new(11, 22);

    let following = Center::MyPosition;
    assert_eq!(following.position(my, &projector), my);
    assert!(following.detached(&projector).is_none());

    let pinned = Center::Exact {
        pos: AdjustedPosition::new(Position::new(33, 44), Pixels::new(0, 0)),
    };
    assert_eq!(pinned.position(my, &projector), Position::new(33, 44));
    assert_eq!(pinned.detached(&projector), Some(Position::new(33, 44)));
}
