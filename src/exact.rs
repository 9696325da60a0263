use vstd::prelude::*;

verus! {

/// A real number of the form `units + halfroots * sqrt(2) / 2`.
///
/// Every position the player can reach from the origin has coordinates of
/// this form, since each frame moves it by either a whole unit or by
/// `sqrt(2)/2` along both axes.
#[derive(Clone, Copy, Debug, PartialEq, Eq, Structural)]
pub struct Coord {
    pub units: i64,
    pub halfroots: i64,
}

/// A point (or a vector) in the plane with exact coordinates.
#[derive(Clone, Copy, Debug, PartialEq, Eq, Structural)]
pub struct Point {
    pub x: Coord,
    pub y: Coord,
}

pub open spec fn abs(v: int) -> nat {
    if v < 0 { (-v) as nat } else { v as nat }
}

impl Coord {
    pub open spec fn sum(self, o: Coord) -> (int, int) {
        (self.units + o.units, self.halfroots + o.halfroots)
    }

    /// Whether `self + o` can be stored without overflow.
    pub open spec fn can_add(self, o: Coord) -> bool {
        i64::MIN <= self.units + o.units <= i64::MAX
            && i64::MIN <= self.halfroots + o.halfroots <= i64::MAX
    }

    /// Size of the coordinate measured in steps: each frame of movement
    /// changes it by at most one.
    pub open spec fn steps(self) -> nat {
        abs(self.units as int) + abs(self.halfroots as int)
    }

    pub fn zero() -> (r: Coord)
        ensures
            r.units == 0 && r.halfroots == 0,
    {
        Coord { units: 0, halfroots: 0 }
    }

    /// Exact sum of two coordinates.
    pub fn plus(self, o: Coord) -> (r: Coord)
        requires
            self.can_add(o),
        ensures
            (r.units as int, r.halfroots as int) == self.sum(o),
    {
        Coord { units: self.units + o.units, halfroots: self.halfroots + o.halfroots }
    }
}

impl Point {
    pub open spec fn can_add(self, o: Point) -> bool {
        self.x.can_add(o.x) && self.y.can_add(o.y)
    }

    /// The sum as a stored point (meaningful where `can_add` holds).
    pub open spec fn added(self, o: Point) -> Point {
        Point {
            x: Coord {
                units: (self.x.units + o.x.units) as i64,
                halfroots: (self.x.halfroots + o.x.halfroots) as i64,
            },
            y: Coord {
                units: (self.y.units + o.y.units) as i64,
                halfroots: (self.y.halfroots + o.y.halfroots) as i64,
            },
        }
    }

    pub open spec fn is_sum(self, a: Point, b: Point) -> bool {
        (self.x.units as int, self.x.halfroots as int) == a.x.sum(b.x)
            && (self.y.units as int, self.y.halfroots as int) == a.y.sum(b.y)
    }

    /// Twice the rational part of the squared length. Writing a coordinate as
    /// `u + h * sqrt(2)/2`, its square is `u*u + h*h/2 + u*h*sqrt(2)`.
    pub open spec fn norm_sq_halves(self) -> int {
        2 * (self.x.units * self.x.units + self.y.units * self.y.units)
            + self.x.halfroots * self.x.halfroots + self.y.halfroots * self.y.halfroots
    }

    /// The coefficient of `sqrt(2)` in the squared length.
    pub open spec fn norm_sq_root(self) -> int {
        self.x.units * self.x.halfroots + self.y.units * self.y.halfroots
    }

    /// The squared length is exactly one. As `sqrt(2)` is irrational, this
    /// holds iff the rational part is one and the `sqrt(2)` part vanishes.
    pub open spec fn is_unit(self) -> bool {
        self.norm_sq_halves() == 2 && self.norm_sq_root() == 0
    }

    pub open spec fn is_zero(self) -> bool {
        self.x.units == 0 && self.x.halfroots == 0 && self.y.units == 0 && self.y.halfroots == 0
    }

    pub fn origin() -> (r: Point)
        ensures
            r.is_zero(),
    {
        Point { x: Coord::zero(), y: Coord::zero() }
    }

    /// Exact vector sum.
    pub fn plus(self, o: Point) -> (r: Point)
        requires
            self.can_add(o),
        ensures
            r.is_sum(self, o),
            r == self.added(o),
    {
        Point { x: self.x.plus(o.x), y: self.y.plus(o.y) }
    }
}

/// The squared length of a point vanishes exactly at the origin.
pub proof fn lemma_norm_zero_iff(p: Point)
    ensures
        (p.norm_sq_halves() == 0) <==> p.is_zero(),
{
    let ux = p.x.units as int;
    let uy = p.y.units as int;
    let hx = p.x.halfroots as int;
    let hy = p.y.halfroots as int;
    assert(ux * ux >= 0 && uy * uy >= 0 && hx * hx >= 0 && hy * hy >= 0) by (nonlinear_arith);
    assert(ux * ux == 0 ==> ux == 0) by (nonlinear_arith);
    assert(uy * uy == 0 ==> uy == 0) by (nonlinear_arith);
    assert(hx * hx == 0 ==> hx == 0) by (nonlinear_arith);
    assert(hy * hy == 0 ==> hy == 0) by (nonlinear_arith);
}

} // verus!
