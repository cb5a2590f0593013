//! The ball, in fixed point: positions and velocities are counted in
//! hundredths of a cell, so that the deflection factors of the collision
//! rules stay exact.
use vstd::prelude::*;

verus! {

/// Subdivisions of one cell.
pub const SUBCELLS: i32 = 100;

/// Least speed, per axis, after a collision changed it: half a cell.
pub const LOWEST_SPEED: i32 = 50;

/// Greatest speed, per axis: ten cells.
pub const HIGHEST_SPEED: i32 = 1000;

/// Column of the screen center, in hundredths of a cell.
pub const CENTER_X: i32 = 4000;

/// Row of the screen center, in hundredths of a cell.
pub const CENTER_Y: i32 = 1250;

/// Greatest horizontal position a ball in play reaches.
pub const MAX_X: i32 = 8000;

/// Greatest vertical position a ball in play reaches.
pub const MAX_Y: i32 = 2499;

/// Greatest serve input: the cosine and the angle are in hundredths, the
/// angle at most a little over pi.
pub const SERVE_COS_MAX: i32 = 100;

/// Greatest serve angle, in hundredths of a radian.
pub const SERVE_ANGLE_MAX: i32 = 315;

/// A point of the field, in hundredths of a cell.
#[derive(Debug, Clone, Copy, PartialEq, Eq, Structural)]
pub struct BallPosition {
    pub x: i32,
    pub y: i32,
}

/// A velocity, in hundredths of a cell per tick.
#[derive(Debug, Clone, Copy, PartialEq, Eq, Structural)]
pub struct Speed {
    pub dx: i32,
    pub dy: i32,
}

/// Absolute value.
pub open spec fn abs(v: int) -> int {
    if v < 0 {
        -v
    } else {
        v
    }
}

/// The cell that a coordinate falls in; coordinates left of or above the
/// grid count as cell 0.
pub open spec fn cell_of(v: int) -> int {
    if v < 0 {
        0
    } else {
        v / SUBCELLS as int
    }
}

/// Whole cells in a coordinate or a speed, rounded down (toward minus
/// infinity).
pub open spec fn floor_cells(v: int) -> int {
    v / SUBCELLS as int
}

/// `v` scaled by `percent` percent, rounded toward zero.
pub open spec fn scaled(v: int, percent: int) -> int {
    if v < 0 {
        -((-v * percent) / 100)
    } else {
        (v * percent) / 100
    }
}

/// Both components are at most `HIGHEST_SPEED` in magnitude.
pub open spec fn speed_bounded(s: Speed) -> bool {
    &&& abs(s.dx as int) <= HIGHEST_SPEED
    &&& abs(s.dy as int) <= HIGHEST_SPEED
}

/// Both components lie within `[LOWEST_SPEED, HIGHEST_SPEED]` in magnitude.
pub open spec fn speed_in_bounds(s: Speed) -> bool {
    &&& LOWEST_SPEED <= abs(s.dx as int) <= HIGHEST_SPEED
    &&& LOWEST_SPEED <= abs(s.dy as int) <= HIGHEST_SPEED
}

/// The position lies within the area that a ball in play keeps to.
pub open spec fn position_in_field(p: BallPosition) -> bool {
    &&& 0 <= p.x <= MAX_X
    &&& 0 <= p.y <= MAX_Y
}

/// Horizontal serve speed for a cosine `c` (in hundredths): a cosine
/// within three tenths of zero is pushed four tenths away from it, so
/// that no serve goes straight up or down; then three times that.
pub open spec fn serve_dx(c: int) -> int {
    if 0 <= c < 30 {
        3 * (c + 40)
    } else if -30 < c <= 0 {
        3 * (c - 40)
    } else {
        3 * c
    }
}

/// Vertical serve speed for an angle `a` (in hundredths): eight tenths of it.
pub open spec fn serve_dy(a: int) -> int {
    (a * 8) / 10
}

/// New horizontal magnitude after a paddle hit at distance `diff` from
/// the paddle's center: a center hit slows the ball (not below
/// `LOWEST_SPEED`), the others speed it up (not above `HIGHEST_SPEED`).
pub open spec fn deflected_magnitude(m: int, diff: int) -> int {
    if diff == 0 {
        let v = scaled(m, 85);
        if v < LOWEST_SPEED {
            LOWEST_SPEED as int
        } else {
            v
        }
    } else if diff == 1 {
        let v = scaled(m, 115);
        if v > HIGHEST_SPEED {
            HIGHEST_SPEED as int
        } else {
            v
        }
    } else {
        let v = scaled(m, 110);
        if v > HIGHEST_SPEED {
            HIGHEST_SPEED as int
        } else {
            v
        }
    }
}

/// New vertical speed after a paddle hit at distance `diff`: a center hit
/// slows a downward ball (not below `LOWEST_SPEED`), an edge hit speeds
/// it up (not above `HIGHEST_SPEED` in magnitude, sign kept), a near
/// center hit leaves it.
pub open spec fn deflected_dy(dy: int, diff: int) -> int {
    if diff == 0 {
        if dy > 0 {
            let v = scaled(dy, 90);
            if v < LOWEST_SPEED {
                LOWEST_SPEED as int
            } else {
                v
            }
        } else {
            dy
        }
    } else if diff == 1 {
        dy
    } else {
        let v = scaled(dy, 135);
        if abs(v) > HIGHEST_SPEED {
            if v < 0 {
                -HIGHEST_SPEED
            } else {
                HIGHEST_SPEED as int
            }
        } else {
            v
        }
    }
}

/// The velocity after a paddle hit at distance `diff`, the ball leaving
/// rightward (off the left paddle) or leftward.
pub open spec fn deflected(s: Speed, diff: int, rightward: bool) -> Speed {
    let m = deflected_magnitude(abs(s.dx as int), diff);
    Speed {
        dx: (if rightward {
            m
        } else {
            -m
        }) as i32,
        dy: deflected_dy(s.dy as int, diff) as i32,
    }
}

/// The ball: where it is, where it was before its last move, and its
/// velocity.
#[derive(Debug, Clone, Copy, PartialEq, Eq, Structural)]
pub struct PongBall {
    pub last_pos: BallPosition,
    pub position: BallPosition,
    pub speed: Speed,
}

/// `v` scaled by `percent` percent, rounded toward zero.
pub fn scale(v: i32, percent: i32) -> (r: i32)
    requires
        abs(v as int) <= HIGHEST_SPEED,
        0 <= percent <= 200,
    ensures
        r == scaled(v as int, percent as int),
{
    if v < 0 {
        let m: i32 = -v;
        proof {
            assert(0 <= m * percent <= HIGHEST_SPEED * 200) by (nonlinear_arith)
                requires
                    0 <= m <= HIGHEST_SPEED,
                    0 <= percent <= 200,
            ;
        }
        -((m * percent) / 100)
    } else {
        proof {
            assert(0 <= v * percent <= HIGHEST_SPEED * 200) by (nonlinear_arith)
                requires
                    0 <= v <= HIGHEST_SPEED,
                    0 <= percent <= 200,
            ;
        }
        (v * percent) / 100
    }
}

/// The cell that a coordinate falls in, 0 for a negative coordinate.
pub fn cell(v: i32) -> (c: i32)
    ensures
        c == cell_of(v as int),
        c >= 0,
{
    if v < 0 {
        0
    } else {
        v / SUBCELLS
    }
}

/// Whole cells in `v`, rounded down (toward minus infinity).
pub fn floor_cell(v: i32) -> (c: i32)
    ensures
        c == floor_cells(v as int),
{
    if v >= 0 {
        v / SUBCELLS
    } else {
        let m: i32 = -(v + 1);
        let c: i32 = -(m / SUBCELLS) - 1;
        proof {
            let q = m as int / 100;
            let r = m as int % 100;
            assert(m as int == 100 * q + r && 0 <= r < 100);
            assert(v as int == 100 * (-q - 1) + (99 - r));
            vstd::arithmetic::div_mod::lemma_fundamental_div_mod_converse(
                v as int,
                100,
                -q - 1,
                99 - r,
            );
        }
        c
    }
}

impl BallPosition {
    /// The screen center.
    pub fn center() -> (p: BallPosition)
        ensures
            p.x == CENTER_X,
            p.y == CENTER_Y,
    {
        BallPosition { x: CENTER_X, y: CENTER_Y }
    }
}

impl Default for BallPosition {
    fn default() -> (p: BallPosition)
        ensures
            p.x == CENTER_X,
            p.y == CENTER_Y,
    {
        BallPosition::center()
    }
}

impl Speed {
    /// The serve velocity for a cosine `c` and an angle `a`, both in
    /// hundredths: `c` in `[-1, 1]`, `a` in `[0, 3.15]`.
    pub fn serve(c: i32, a: i32) -> (s: Speed)
        requires
            -SERVE_COS_MAX <= c <= SERVE_COS_MAX,
            0 <= a <= SERVE_ANGLE_MAX,
        ensures
            s.dx == serve_dx(c as int),
            s.dy == serve_dy(a as int),
            speed_bounded(s),
            90 <= abs(s.dx as int),
    {
        let mut x: i32 = c;
        if x >= 0 && x < 30 {
            x += 40;
        } else if x <= 0 && x > -30 {
            x -= 40;
        }
        Speed { dx: 3 * x, dy: (a * 8) / 10 }
    }

    /// The velocity after a paddle hit `diff` cells from the paddle's
    /// center, leaving rightward or leftward.
    pub fn deflect(&self, diff: i32, rightward: bool) -> (s: Speed)
        requires
            0 <= diff <= 2,
            speed_bounded(*self),
        ensures
            s == deflected(*self, diff as int, rightward),
            speed_bounded(s),
    {
        let m: i32 = if self.dx < 0 {
            -self.dx
        } else {
            self.dx
        };
        let mut mag: i32;
        let mut dy: i32 = self.dy;
        if diff == 0 {
            mag = scale(m, 85);
            if mag < LOWEST_SPEED {
                mag = LOWEST_SPEED;
            }
            if dy > 0 {
                dy = scale(dy, 90);
                if dy < LOWEST_SPEED {
                    dy = LOWEST_SPEED;
                }
            }
        } else if diff == 1 {
            mag = scale(m, 115);
            if mag > HIGHEST_SPEED {
                mag = HIGHEST_SPEED;
            }
        } else {
            dy = scale(dy, 135);
            if dy > HIGHEST_SPEED || dy < -HIGHEST_SPEED {
                if dy < 0 {
                    dy = -HIGHEST_SPEED;
                } else {
                    dy = HIGHEST_SPEED;
                }
            }
            mag = scale(m, 110);
            if mag > HIGHEST_SPEED {
                mag = HIGHEST_SPEED;
            }
        }
        let dx = if rightward {
            mag
        } else {
            -mag
        };
        Speed { dx, dy }
    }
}

/// Whatever part of a paddle the ball hits, a velocity whose components
/// lie within `[LOWEST_SPEED, HIGHEST_SPEED]` in magnitude still does so
/// after the deflection.
pub proof fn lemma_deflection_keeps_speed_bounds(s: Speed, diff: int, rightward: bool)
    requires
        0 <= diff <= 2,
        speed_in_bounds(s),
    ensures
        speed_in_bounds(deflected(s, diff, rightward)),
{
}

/// A fresh ball: at the screen center, coming from one cell up and left
/// of it, with velocity `serve`.
pub open spec fn new_ball(serve: Speed) -> PongBall {
    PongBall {
        last_pos: BallPosition { x: (CENTER_X - SUBCELLS) as i32, y: (CENTER_Y - SUBCELLS) as i32 },
        position: BallPosition { x: CENTER_X, y: CENTER_Y },
        speed: serve,
    }
}

/// A deflection keeps a bounded velocity bounded, and sends the ball the
/// way it was asked to leave.
pub proof fn lemma_deflection_bounded(s: Speed, diff: int, rightward: bool)
    requires
        0 <= diff <= 2,
        speed_bounded(s),
    ensures
        speed_bounded(deflected(s, diff, rightward)),
        rightward ==> deflected(s, diff, rightward).dx >= 0,
        !rightward ==> deflected(s, diff, rightward).dx <= 0,
{
}

impl PongBall {
    /// A ball at the screen center, coming from one cell up and left of it,
    /// with velocity `serve`.
    pub fn new(serve: Speed) -> (b: PongBall)
        ensures
            b.position.x == CENTER_X,
            b.position.y == CENTER_Y,
            b.last_pos.x == CENTER_X - SUBCELLS,
            b.last_pos.y == CENTER_Y - SUBCELLS,
            b.speed == serve,
            b == new_ball(serve),
    {
        PongBall {
            last_pos: BallPosition { x: CENTER_X - SUBCELLS, y: CENTER_Y - SUBCELLS },
            position: BallPosition::center(),
            speed: serve,
        }
    }

    /// The ball lies in the field and its velocity is bounded.
    pub open spec fn wf(&self) -> bool {
        &&& position_in_field(self.position)
        &&& position_in_field(self.last_pos)
        &&& speed_bounded(self.speed)
    }

    /// Advances the ball by its velocity, remembering where it was.
    pub fn move_ball(&mut self)
        requires
            i32::MIN <= old(self).position.x + old(self).speed.dx <= i32::MAX,
            i32::MIN <= old(self).position.y + old(self).speed.dy <= i32::MAX,
        ensures
            final(self).last_pos == old(self).position,
            final(self).position.x == old(self).position.x + old(self).speed.dx,
            final(self).position.y == old(self).position.y + old(self).speed.dy,
            final(self).speed == old(self).speed,
    {
        self.last_pos = self.position;
        self.position.x = self.position.x + self.speed.dx;
        self.position.y = self.position.y + self.speed.dy;
    }
}

} // verus!
