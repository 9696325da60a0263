use vstd::prelude::*;

use crate::exact::{lemma_norm_zero_iff, Coord, Point};

verus! {

/// Which of the eight movement keys are held this frame: the four arrows
/// and the letters W, A, S, D.
#[derive(Clone, Copy, Debug, PartialEq, Eq, Structural)]
pub struct MovementKeys {
    pub up: bool,
    pub down: bool,
    pub left: bool,
    pub right: bool,
    pub w: bool,
    pub a: bool,
    pub s: bool,
    pub d: bool,
}

pub open spec fn unit_if(b: bool) -> int {
    if b { 1 } else { 0 }
}

impl MovementKeys {
    /// Horizontal contribution: the Left arrow or D adds one, the Right arrow
    /// or A subtracts one.
    pub open spec fn raw_x(self) -> int {
        unit_if(self.left || self.d) - unit_if(self.right || self.a)
    }

    /// Vertical contribution: the Up arrow or W adds one, the Down arrow or S
    /// subtracts one.
    pub open spec fn raw_y(self) -> int {
        unit_if(self.up || self.w) - unit_if(self.down || self.s)
    }

    /// The keys' accumulated vector scaled to unit length, or the zero vector
    /// when the contributions cancel. A diagonal raw vector `(x, y)` has
    /// length `sqrt(2)`, so its unit form is `(x, y) * sqrt(2)/2`.
    pub open spec fn direction(self) -> Point {
        if self.raw_x() != 0 && self.raw_y() != 0 {
            Point {
                x: Coord { units: 0, halfroots: self.raw_x() as i64 },
                y: Coord { units: 0, halfroots: self.raw_y() as i64 },
            }
        } else {
            Point {
                x: Coord { units: self.raw_x() as i64, halfroots: 0 },
                y: Coord { units: self.raw_y() as i64, halfroots: 0 },
            }
        }
    }
}

fn axis(plus: bool, minus: bool) -> (r: i64)
    ensures
        r == unit_if(plus) - unit_if(minus),
{
    let mut r: i64 = 0;
    if plus {
        r = r + 1;
    }
    if minus {
        r = r - 1;
    }
    r
}

/// The direction vector for this frame's keys: unit length when the keys'
/// contributions do not cancel, zero otherwise.
pub fn direction_from_keys(keys: &MovementKeys) -> (r: Point)
    ensures
        r == keys.direction(),
{
    let x = axis(keys.left || keys.d, keys.right || keys.a);
    let y = axis(keys.up || keys.w, keys.down || keys.s);
    if x != 0 && y != 0 {
        Point { x: Coord { units: 0, halfroots: x }, y: Coord { units: 0, halfroots: y } }
    } else {
        Point { x: Coord { units: x, halfroots: 0 }, y: Coord { units: y, halfroots: 0 } }
    }
}

/// For every combination of keys the direction has length zero or one, it is
/// zero exactly when the accumulated contributions are `(0, 0)`, and
/// otherwise it points along the accumulated vector.
pub proof fn lemma_direction_unit_or_zero(keys: MovementKeys)
    ensures
        keys.direction().is_zero() || keys.direction().is_unit(),
        keys.direction().is_zero() <==> (keys.raw_x() == 0 && keys.raw_y() == 0),
        (keys.direction().norm_sq_halves() == 0) <==> (keys.raw_x() == 0 && keys.raw_y() == 0),
{
    lemma_norm_zero_iff(keys.direction());
    let x = keys.raw_x();
    let y = keys.raw_y();
    assert(-1 <= x <= 1 && -1 <= y <= 1);
    if x == 0 {
        if y != 0 {
            assert(y * y == 1) by (nonlinear_arith)
                requires
                    y == 1 || y == -1,
            ;
        }
    } else {
        assert(x * x == 1) by (nonlinear_arith)
            requires
                x == 1 || x == -1,
        ;
        if y != 0 {
            assert(y * y == 1) by (nonlinear_arith)
                requires
                    y == 1 || y == -1,
            ;
        }
    }
}

/// Holding both keys of an opposing pair cancels that axis exactly,
/// whatever else is held.
pub proof fn lemma_opposites_cancel(keys: MovementKeys)
    ensures
        (keys.left || keys.d) && (keys.right || keys.a) ==> keys.raw_x() == 0
            && keys.direction().x.units == 0 && keys.direction().x.halfroots == 0,
        (keys.up || keys.w) && (keys.down || keys.s) ==> keys.raw_y() == 0
            && keys.direction().y.units == 0 && keys.direction().y.halfroots == 0,
{
}

} // verus!
