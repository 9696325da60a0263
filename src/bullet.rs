use vstd::prelude::*;

use crate::exact::Point;

verus! {

/// Distance a bullet covers in one frame.
pub const BULLET_SPEED: u64 = 1;

/// The cursor's position in window coordinates: `x` grows to the right and
/// `y` grows downwards, from the window's top-left corner.
#[derive(Clone, Copy, Debug, PartialEq, Eq, Structural)]
pub struct Cursor {
    pub x: u32,
    pub y: u32,
}

/// The window's size, in the same units as [`Cursor`].
#[derive(Clone, Copy, Debug, PartialEq, Eq, Structural)]
pub struct Viewport {
    pub width: u32,
    pub height: u32,
}

/// A direction of travel in world coordinates (`y` grows upwards), given by
/// any nonzero vector along it. The unit step is `(x, y) / |(x, y)|`.
///
/// In terms of an angle measured clockwise from straight up, a heading at
/// angle `a` has unit step `(sin a, cos a)`.
#[derive(Clone, Copy, Debug, PartialEq, Eq, Structural)]
pub struct Heading {
    pub x: i64,
    pub y: i64,
}

/// A fired projectile. Its position is `spawn + travelled * u`, where `u` is
/// the unit step of `heading`; `heading` and `speed` never change.
#[derive(Clone, Copy, Debug, PartialEq, Eq, Structural)]
pub struct Bullet {
    pub spawn: Point,
    pub heading: Heading,
    pub speed: u64,
    pub travelled: u64,
}

/// The heading that aims from the window's centre towards the cursor.
///
/// With the offset `d = cursor - centre` (window axes, `y` downwards) and
/// `t = atan2(d.y, d.x)`, the angle clockwise from straight up is
/// `t + pi/2`, whose unit step `(cos t, -sin t)` is `(d.x, -d.y) / |d|`.
/// The offset is taken doubled so that the centre of an odd-sized window
/// stays integral. When the cursor sits on the centre `atan2` gives `0`,
/// and the heading points right; without a cursor the angle is `0`, and the
/// heading points straight up.
pub open spec fn aim_heading(cursor: Option<Cursor>, view: Viewport) -> Heading {
    match cursor {
        None => Heading { x: 0, y: 1 },
        Some(c) => {
            let dx = 2 * c.x - view.width;
            let dy = 2 * c.y - view.height;
            if dx == 0 && dy == 0 {
                Heading { x: 1, y: 0 }
            } else {
                Heading { x: dx as i64, y: (-dy) as i64 }
            }
        },
    }
}

impl Heading {
    pub open spec fn is_nonzero(self) -> bool {
        self.x != 0 || self.y != 0
    }
}

impl Bullet {
    /// The bullet one frame later.
    pub open spec fn advanced(self) -> Bullet {
        Bullet { travelled: (self.travelled + self.speed) as u64, ..self }
    }

    pub open spec fn can_advance(self) -> bool {
        self.travelled + self.speed <= u64::MAX
    }

    /// The bullet after `n` frames.
    pub open spec fn advanced_times(self, n: nat) -> Bullet
        decreases n,
    {
        if n == 0 {
            self
        } else {
            self.advanced_times((n - 1) as nat).advanced()
        }
    }
}

/// The heading a bullet fired now takes.
pub fn aim(cursor: Option<Cursor>, view: Viewport) -> (h: Heading)
    ensures
        h == aim_heading(cursor, view),
        h.is_nonzero(),
{
    match cursor {
        None => Heading { x: 0, y: 1 },
        Some(c) => {
            let dx: i64 = 2 * (c.x as i64) - (view.width as i64);
            let dy: i64 = 2 * (c.y as i64) - (view.height as i64);
            if dx == 0 && dy == 0 {
                Heading { x: 1, y: 0 }
            } else {
                Heading { x: dx, y: -dy }
            }
        },
    }
}

/// A new bullet at the player's position, aimed at the cursor, at rest on
/// its ray.
pub fn spawn_bullet(player: Point, cursor: Option<Cursor>, view: Viewport) -> (b: Bullet)
    ensures
        b.spawn == player,
        b.heading == aim_heading(cursor, view),
        b.speed == BULLET_SPEED,
        b.travelled == 0,
{
    Bullet { spawn: player, heading: aim(cursor, view), speed: BULLET_SPEED, travelled: 0 }
}

/// Moves every bullet one frame along its heading.
pub fn move_bullet(bullets: &mut Vec<Bullet>)
    requires
        forall|i: int| 0 <= i < old(bullets)@.len() ==> (#[trigger] old(bullets)@[i]).can_advance(),
    ensures
        final(bullets)@ == old(bullets)@.map_values(|b: Bullet| b.advanced()),
{
    let n = bullets.len();
    let mut i: usize = 0;
    while i < n
        invariant
            n == bullets@.len(),
            n == old(bullets)@.len(),
            i <= n,
            forall|j: int| 0 <= j < i ==> bullets@[j] == (#[trigger] old(bullets)@[j]).advanced(),
            forall|j: int| i <= j < n ==> bullets@[j] == #[trigger] old(bullets)@[j],
            forall|j: int| 0 <= j < n ==> (#[trigger] old(bullets)@[j]).can_advance(),
        decreases n - i,
    {
        let mut b = bullets[i];
        assert(b == old(bullets)@[i as int]);
        b.travelled = b.travelled + b.speed;
        bullets.set(i, b);
        i = i + 1;
    }
    assert(bullets@ =~= old(bullets)@.map_values(|b: Bullet| b.advanced()));
}

/// A bullet moves in a straight line at constant speed: after `n` frames it
/// keeps its spawn point, heading and speed, and has covered `n * speed`.
pub proof fn lemma_straight_line(b: Bullet, n: nat)
    requires
        b.travelled + n * b.speed <= u64::MAX,
    ensures
        b.advanced_times(n).spawn == b.spawn,
        b.advanced_times(n).heading == b.heading,
        b.advanced_times(n).speed == b.speed,
        b.advanced_times(n).travelled == b.travelled + n * b.speed,
    decreases n,
{
    if n > 0 {
        let m = (n - 1) as nat;
        assert(m * b.speed <= n * b.speed) by (nonlinear_arith)
            requires
                m <= n,
        ;
        lemma_straight_line(b, m);
        assert(n * b.speed == m * b.speed + b.speed) by (nonlinear_arith)
            requires
                n == m + 1,
        ;
        assert(b.advanced_times(n) == b.advanced_times(m).advanced());
    } else {
        assert(n * b.speed == 0) by (nonlinear_arith)
            requires
                n == 0,
        ;
    }
}

} // verus!
