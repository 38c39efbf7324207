use vstd::prelude::*;
use crate::geom::{mdiv, smul, Vec2, ARITH_MAX, VEL_MAX};

verus! {

/// Minimum simulated milliseconds between two shots.
pub const FIRE_DELAY_MS: u64 = 300;

/// A projectile: straight-line motion along the trig factors frozen when
/// it was fired.
#[derive(Clone, Copy, Debug, PartialEq, Eq, Structural)]
pub struct Bullet {
    /// Position, milli-units.
    pub position: Vec2,
    /// Velocity magnitude per axis, milli-units per frame.
    pub velocity: Vec2,
    /// Rendered width, milli-units.
    pub width: i64,
    /// Rendered height, milli-units.
    pub height: i64,
    /// Milli-scaled sine of minus the firing ship's facing angle.
    pub sin: i64,
    /// Milli-scaled cosine of minus the firing ship's facing angle.
    pub cos: i64,
    /// Set when an asteroid is hit; the projectile is removed next frame.
    pub collision: bool,
}

/// Whether enough simulated time has passed since the last shot for a
/// new one.
pub open spec fn fire_gate_open(time: u64, fire_time: u64) -> bool {
    time - fire_time >= FIRE_DELAY_MS
}

/// A projectile after one frame of motion: the x axis moves by the
/// velocity's x component scaled by the frozen cosine, the y axis by the
/// y component scaled by the frozen sine; direction and extent are kept.
pub open spec fn moved_bullet(b: Bullet) -> Bullet {
    Bullet {
        position: Vec2 {
            x: ((b.position.x + mdiv(b.velocity.x * b.cos)) as i64),
            y: ((b.position.y + mdiv(b.velocity.y * b.sin)) as i64),
        },
        ..b
    }
}

/// Whether a projectile lies outside the viewport.
pub open spec fn bullet_expired(b: Bullet, w: int, h: int) -> bool {
    b.position.x > w || b.position.x < 0 || b.position.y > h || b.position.y < 0
}

impl Bullet {
    /// Bounded velocity and extent, and trig factors of at most one unit.
    pub open spec fn wf(self) -> bool {
        &&& -VEL_MAX <= self.velocity.x <= VEL_MAX
        &&& -VEL_MAX <= self.velocity.y <= VEL_MAX
        &&& -1000 <= self.sin <= 1000
        &&& -1000 <= self.cos <= 1000
        &&& 0 <= self.width <= 1_000_000
        &&& 0 <= self.height <= 1_000_000
    }

    /// One frame of straight-line motion. The frozen direction is never
    /// written again after the projectile spawns.
    pub fn move_bullet(&mut self)
        requires
            old(self).wf(),
            -ARITH_MAX <= old(self).position.x <= ARITH_MAX,
            -ARITH_MAX <= old(self).position.y <= ARITH_MAX,
        ensures
            *final(self) == (moved_bullet(*old(self))),
            final(self).cos == old(self).cos,
            final(self).sin == old(self).sin,
            final(self).wf(),
            old(self).position.x - VEL_MAX <= final(self).position.x
                <= old(self).position.x + VEL_MAX,
            old(self).position.y - VEL_MAX <= final(self).position.y
                <= old(self).position.y + VEL_MAX,
    {
        let dx: i64 = smul(self.velocity.x, self.cos);
        let dy: i64 = smul(self.velocity.y, self.sin);
        self.position = Vec2 { x: self.position.x + dx, y: self.position.y + dy };
    }

    /// Whether this projectile has left the viewport and should be
    /// removed.
    pub fn expired(&self, w: i64, h: i64) -> (r: bool)
        ensures
            r == bullet_expired(*self, w as int, h as int),
    {
        self.position.x > w || self.position.x < 0 || self.position.y > h || self.position.y < 0
    }

    /// The fire-rate gate: a shot is allowed only when at least
    /// `FIRE_DELAY_MS` simulated milliseconds have passed since the last
    /// one.
    pub fn pause_bullet_fire(time: u64, fire_time: u64) -> (r: bool)
        requires
            fire_time <= time,
        ensures
            r == fire_gate_open(time, fire_time),
    {
        time - fire_time >= FIRE_DELAY_MS
    }
}

} // verus!
