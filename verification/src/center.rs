//! The state machine for the position at the map's center.

use vstd::prelude::*;
use crate::position::{sat_add, div_trunc, AdjustedPosition, Pixels, Position};
use crate::projector::{pix_small, Projector};

verus! {

/// The glide after a drag starts with this many thousandths of the drag
/// velocity and settles once the per-frame driver has decayed the amount
/// to zero or below.
pub const INERTIA_START_MILLI: i64 = 1000;

/// Position at the map's center. Initially the map follows the
/// `my_position` argument, typically fed by a location sensor. When the
/// user drags the map it becomes detached and stays that way until the
/// center mode is put back to [`Center::MyPosition`].
#[derive(Clone, Copy, PartialEq, Eq, Structural, Debug)]
pub enum Center {
    /// Following the live, externally supplied position.
    MyPosition,
    /// Pinned exactly here.
    Exact { pos: AdjustedPosition },
    /// Currently being dragged; `direction` is the last frame's drag
    /// delta in pixels.
    Moving { pos: AdjustedPosition, direction: Pixels },
    /// Gliding after a drag; `amount` is a decaying multiplier on
    /// `direction`, in thousandths. How it decays between frames is the
    /// per-frame driver's policy, applied before each movement update.
    Inertia { pos: AdjustedPosition, direction: Pixels, amount: i64 },
}

impl Default for Center {
    /// The map starts out following the live position.
    fn default() -> (r: Center)
        ensures
            r == Center::MyPosition,
    {
        Center::MyPosition
    }
}

impl Center {
    /// A center is well formed when a glide's multiplier never exceeds
    /// the full drag velocity it started from.
    pub open spec fn wf(self) -> bool {
        self matches Center::Inertia { amount, .. } ==> amount <= INERTIA_START_MILLI
    }

    /// Detached centers hold a position of their own; the follow mode
    /// holds none.
    pub open spec fn spec_adjusted_position(self) -> Option<AdjustedPosition> {
        match self {
            Center::MyPosition => None,
            Center::Exact { pos } => Some(pos),
            Center::Moving { pos, .. } => Some(pos),
            Center::Inertia { pos, .. } => Some(pos),
        }
    }

    /// The held position, if the map is detached.
    pub fn adjusted_position(&self) -> (r: Option<AdjustedPosition>)
        ensures
            r == self.spec_adjusted_position(),
    {
        match self {
            Center::MyPosition => None,
            Center::Exact { pos } => Some(*pos),
            Center::Moving { pos, .. } => Some(*pos),
            Center::Inertia { pos, .. } => Some(*pos),
        }
    }

    /// What one frame of pointer input does to the center: any drag in
    /// progress detaches it into `Moving` with this frame's delta; a drag
    /// that just ended turns `Moving` into a fresh glide; anything else
    /// leaves it alone.
    pub open spec fn spec_recalculate_drag(
        self,
        dragged_by_primary: bool,
        drag_delta: Pixels,
        drag_stopped: bool,
        my_position: Position,
    ) -> Center {
        if dragged_by_primary {
            Center::Moving {
                pos: match self.spec_adjusted_position() {
                    Some(p) => p,
                    None => AdjustedPosition { position: my_position, offset: Pixels { x: 0, y: 0 } },
                },
                direction: drag_delta,
            }
        } else if drag_stopped {
            match self {
                Center::Moving { pos, direction } => Center::Inertia {
                    pos,
                    direction,
                    amount: INERTIA_START_MILLI,
                },
                _ => self,
            }
        } else {
            self
        }
    }

    /// Apply one frame of pointer input, as [`Self::spec_recalculate_drag`]
    /// describes; reports whether the input asked for a change.
    pub fn recalculate_drag(
        &mut self,
        dragged_by_primary: bool,
        drag_delta: Pixels,
        drag_stopped: bool,
        my_position: Position,
    ) -> (changed: bool)
        requires
            old(self).wf(),
        ensures
            *final(self) == old(self).spec_recalculate_drag(
                dragged_by_primary,
                drag_delta,
                drag_stopped,
                my_position,
            ),
            final(self).wf(),
            changed == (dragged_by_primary || drag_stopped),
            *old(self) is MyPosition || *final(self) !is MyPosition,
    {
        if dragged_by_primary {
            let pos = match self.adjusted_position() {
                Some(p) => p,
                None => AdjustedPosition::new(my_position, Pixels::zero()),
            };
            *self = Center::Moving { pos, direction: drag_delta };
            true
        } else if drag_stopped {
            let c = *self;
            if let Center::Moving { pos, direction } = c {
                *self = Center::Inertia { pos, direction, amount: INERTIA_START_MILLI };
            }
            true
        } else {
            false
        }
    }

    /// What one animation tick does to the center: a drag in progress
    /// reapplies its delta; a glide whose amount has decayed away settles
    /// into `Exact`, and one still alive advances by the scaled delta;
    /// follow and pinned modes never move on their own.
    pub open spec fn spec_update_movement(self) -> Center {
        match self {
            Center::Moving { pos, direction } => Center::Moving {
                pos: spec_shifted(pos, direction),
                direction,
            },
            Center::Inertia { pos, direction, amount } => {
                if amount <= 0 {
                    Center::Exact { pos }
                } else {
                    Center::Inertia {
                        pos: spec_shifted(pos, spec_scaled_milli(direction, amount as int)),
                        direction,
                        amount,
                    }
                }
            },
            _ => self,
        }
    }

    /// Advance one animation tick, as [`Self::spec_update_movement`]
    /// describes; reports whether the center is in a moving mode.
    pub fn update_movement(&mut self) -> (moved: bool)
        requires
            old(self).wf(),
        ensures
            *final(self) == old(self).spec_update_movement(),
            final(self).wf(),
            moved == (*old(self) is Moving || *old(self) is Inertia),
            (*old(self) is MyPosition) <==> (*final(self) is MyPosition),
    {
        let c = *self;
        match c {
            Center::Moving { pos, direction } => {
                *self = Center::Moving { pos: pos.shift(direction), direction };
                true
            },
            Center::Inertia { pos, direction, amount } => {
                if amount <= 0 {
                    *self = Center::Exact { pos };
                } else {
                    *self = Center::Inertia {
                        pos: pos.shift(direction.scaled_milli(amount as u64)),
                        direction,
                        amount,
                    };
                }
                true
            },
            _ => false,
        }
    }

    /// Whether this center can be resolved against that projector: any
    /// held position lies where the projector's strategy projects, and
    /// the pending offset is a screen-sized vector.
    pub open spec fn ok_for(self, projector: Projector) -> bool {
        match self.spec_adjusted_position() {
            Some(ap) => projector.allows(ap.position) && pix_small(ap.offset),
            None => true,
        }
    }

    /// The exact position the map is pinned, dragged or gliding at, if it
    /// is detached (not following the live position); `None` otherwise.
    pub fn detached(&self, projector: &Projector) -> (r: Option<Position>)
        requires
            projector.zoom_ok(),
            self.ok_for(*projector),
        ensures
            r == match self.spec_adjusted_position() {
                Some(ap) => Some(projector.spec_position_of(ap)),
                None => None::<Position>,
            },
    {
        match self.adjusted_position() {
            Some(ap) => Some(projector.position(ap)),
            None => None,
        }
    }

    /// The real position at the map's center: the detached position if
    /// there is one, the live position otherwise.
    pub fn position(&self, my_position: Position, projector: &Projector) -> (r: Position)
        requires
            projector.zoom_ok(),
            self.ok_for(*projector),
        ensures
            r == match self.spec_adjusted_position() {
                Some(ap) => projector.spec_position_of(ap),
                None => my_position,
            },
    {
        match self.detached(projector) {
            Some(p) => p,
            None => my_position,
        }
    }

    /// What folding the pending offset into every detached mode's held
    /// position gives; the follow mode is untouched.
    pub open spec fn spec_zero_offset(self, projector: Projector) -> Center {
        match self {
            Center::MyPosition => Center::MyPosition,
            Center::Exact { pos } => Center::Exact { pos: spec_zeroed(projector, pos) },
            Center::Moving { pos, direction } => Center::Moving {
                pos: spec_zeroed(projector, pos),
                direction,
            },
            Center::Inertia { pos, direction, amount } => Center::Inertia {
                pos: spec_zeroed(projector, pos),
                direction,
                amount,
            },
        }
    }

    /// Fold any pending pan offset into the held position, leaving no
    /// offset, so the base position alone is the anchor again.
    pub fn zero_offset(self, projector: &Projector) -> (r: Center)
        requires
            projector.zoom_ok(),
            self.ok_for(*projector),
        ensures
            r == self.spec_zero_offset(*projector),
            self.wf() ==> r.wf(),
    {
        match self {
            Center::MyPosition => Center::MyPosition,
            Center::Exact { pos } => Center::Exact { pos: projector.zero_offset(pos) },
            Center::Moving { pos, direction } => Center::Moving {
                pos: projector.zero_offset(pos),
                direction,
            },
            Center::Inertia { pos, direction, amount } => Center::Inertia {
                pos: projector.zero_offset(pos),
                direction,
                amount,
            },
        }
    }

    /// What shifting by a pixel offset does: every detached mode passes
    /// the offset to its held position; the follow mode ignores it.
    pub open spec fn spec_shift(self, offset: Pixels) -> Center {
        match self {
            Center::MyPosition => Center::MyPosition,
            Center::Exact { pos } => Center::Exact { pos: spec_shifted(pos, offset) },
            Center::Moving { pos, direction } => Center::Moving {
                pos: spec_shifted(pos, offset),
                direction,
            },
            Center::Inertia { pos, direction, amount } => Center::Inertia {
                pos: spec_shifted(pos, offset),
                direction,
                amount,
            },
        }
    }

    /// Shift the held position by the given number of pixels, if detached.
    pub fn shift(self, offset: Pixels) -> (r: Center)
        ensures
            r == self.spec_shift(offset),
            self.wf() ==> r.wf(),
    {
        match self {
            Center::MyPosition => Center::MyPosition,
            Center::Exact { pos } => Center::Exact { pos: pos.shift(offset) },
            Center::Moving { pos, direction } => Center::Moving {
                pos: pos.shift(offset),
                direction,
            },
            Center::Inertia { pos, direction, amount } => Center::Inertia {
                pos: pos.shift(offset),
                direction,
                amount,
            },
        }
    }
}

/// The value of an [`AdjustedPosition`] after one pan step, at the
/// specification level.
pub open spec fn spec_shifted(ap: AdjustedPosition, delta: Pixels) -> AdjustedPosition {
    AdjustedPosition {
        position: ap.position,
        offset: Pixels {
            x: sat_add(ap.offset.x as int, delta.x as int) as i64,
            y: sat_add(ap.offset.y as int, delta.y as int) as i64,
        },
    }
}

/// An adjusted position with its offset folded into the base by the
/// projector, at the specification level.
pub open spec fn spec_zeroed(projector: Projector, ap: AdjustedPosition) -> AdjustedPosition {
    AdjustedPosition {
        position: projector.spec_position_of(ap),
        offset: Pixels { x: 0, y: 0 },
    }
}

/// A pixel vector scaled by `amount` thousandths, at the specification
/// level.
pub open spec fn spec_scaled_milli(p: Pixels, amount: int) -> Pixels {
    Pixels { x: div_trunc(p.x * amount, 1000) as i64, y: div_trunc(p.y * amount, 1000) as i64 }
}

/// Law: dragging detaches the center into `Moving`; releasing the drag
/// turns it into `Inertia` at full strength; and a glide whose amount the
/// driver has decayed to zero or below settles into `Exact`, holding the
/// glide's last position — never back into following the live position.
pub proof fn lemma_drag_release_glide_settles(
    c0: Center,
    delta: Pixels,
    my_position: Position,
    decayed: i64,
)
    requires
        decayed <= 0,
    ensures
        ({
            let c1 = c0.spec_recalculate_drag(true, delta, false, my_position);
            let c2 = c1.spec_recalculate_drag(false, delta, true, my_position);
            let c3 = (Center::Inertia {
                pos: c2->Inertia_pos,
                direction: c2->Inertia_direction,
                amount: decayed,
            }).spec_update_movement();
            &&& c1 is Moving
            &&& c2 is Inertia
            &&& c2->Inertia_amount == INERTIA_START_MILLI
            &&& c3 == (Center::Exact { pos: c2->Inertia_pos })
        }),
{
}

/// Law: once detached, a center never returns to following the live
/// position by drag input or by animation ticks alone.
pub proof fn lemma_detached_stays_detached(
    c: Center,
    dragged_by_primary: bool,
    drag_delta: Pixels,
    drag_stopped: bool,
    my_position: Position,
)
    requires
        c !is MyPosition,
    ensures
        c.spec_recalculate_drag(dragged_by_primary, drag_delta, drag_stopped, my_position)
            !is MyPosition,
        c.spec_update_movement() !is MyPosition,
        c.spec_shift(drag_delta) !is MyPosition,
{
}

} // verus!
