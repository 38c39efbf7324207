use vstd::prelude::*;
use crate::bullet::Bullet;
use crate::geom::{mdiv, mdiv_exec, smul, Vec2, ARITH_MAX, DIM_MAX, DIM_MIN, OFF_MAX, VEL_MAX};
use crate::trig::{cos_deg, cos_deg_exec, neg_deg, neg_deg_exec, sin_deg, sin_deg_exec};
use crate::geom::lemma_mod360_small;

verus! {

/// Which action a steering input asks of the ship.
#[derive(Clone, Copy, Debug, PartialEq, Eq, Structural)]
pub enum Direction {
    RotateLeft,
    RotateRight,
    Thrust,
}

/// The player's ship. The hull is held as its centroid, three fixed base
/// offsets and an accumulated hull orientation, so a rotation is rigid
/// about the centroid by construction, and the three vertices are derived.
#[derive(Clone, Copy, Debug, PartialEq, Eq, Structural)]
pub struct Player {
    /// Hull centroid, milli-units.
    pub pos: Vec2,
    /// Base offset of the first hull vertex from the centroid.
    pub off_a: Vec2,
    /// Base offset of the second hull vertex from the centroid.
    pub off_b: Vec2,
    /// Base offset of the third hull vertex from the centroid.
    pub off_c: Vec2,
    /// Accumulated hull orientation, whole degrees in [0, 360).
    pub hull_turn: u64,
    /// Rotation step applied per rotate input, whole degrees.
    pub rotation: u64,
    /// Thrust magnitude per axis, milli-units per frame.
    pub velocity: Vec2,
    /// Cumulative facing angle, whole degrees in [0, 360).
    pub angle: u64,
    /// Set when an asteroid overlaps the ship; never cleared.
    pub collision: bool,
}

/// The x component of a base offset turned by `t` whole degrees.
pub open spec fn rot_x(o: Vec2, t: int) -> int {
    mdiv(o.x * cos_deg(t) - o.y * sin_deg(t))
}

/// The y component of a base offset turned by `t` whole degrees.
pub open spec fn rot_y(o: Vec2, t: int) -> int {
    mdiv(o.x * sin_deg(t) + o.y * cos_deg(t))
}

/// A base offset turned by the hull orientation, computed.
pub fn rot_point(o: Vec2, t: u64) -> (r: Vec2)
    requires
        t < 360,
        -OFF_MAX <= o.x <= OFF_MAX,
        -OFF_MAX <= o.y <= OFF_MAX,
    ensures
        r.x as int == rot_x(o, t as int),
        r.y as int == rot_y(o, t as int),
        -50_000 <= r.x <= 50_000,
        -50_000 <= r.y <= 50_000,
{
    let c: i64 = cos_deg_exec(t);
    let s: i64 = sin_deg_exec(t);
    proof {
        assert(-25_000_000 <= o.x * c <= 25_000_000) by (nonlinear_arith)
            requires
                -25_000 <= o.x <= 25_000,
                -1000 <= c <= 1000,
        ;
        assert(-25_000_000 <= o.y * s <= 25_000_000) by (nonlinear_arith)
            requires
                -25_000 <= o.y <= 25_000,
                -1000 <= s <= 1000,
        ;
        assert(-25_000_000 <= o.x * s <= 25_000_000) by (nonlinear_arith)
            requires
                -25_000 <= o.x <= 25_000,
                -1000 <= s <= 1000,
        ;
        assert(-25_000_000 <= o.y * c <= 25_000_000) by (nonlinear_arith)
            requires
                -25_000 <= o.y <= 25_000,
                -1000 <= c <= 1000,
        ;
        crate::geom::lemma_mdiv_bound(o.x * c - o.y * s, 50_000);
        crate::geom::lemma_mdiv_bound(o.x * s + o.y * c, 50_000);
    }
    let px: i64 = o.x * c - o.y * s;
    let py: i64 = o.x * s + o.y * c;
    Vec2 { x: mdiv_exec(px), y: mdiv_exec(py) }
}

/// The first hull vertex, x component: where projectiles spawn and what
/// the wrap checks watch.
pub open spec fn vertex_x(p: Player) -> int {
    p.pos.x + rot_x(p.off_a, p.hull_turn as int)
}

/// The first hull vertex, y component.
pub open spec fn vertex_y(p: Player) -> int {
    p.pos.y + rot_y(p.off_a, p.hull_turn as int)
}

/// The ship after one rotate input: the facing angle moves by one step
/// against the hull turn, and nothing else changes.
pub open spec fn rotated(p: Player, opposite: bool) -> Player {
    if !opposite {
        Player {
            angle: (((p.angle + 360 - p.rotation) % 360) as u64),
            hull_turn: (((p.hull_turn + p.rotation) % 360) as u64),
            ..p
        }
    } else {
        Player {
            angle: (((p.angle + p.rotation) % 360) as u64),
            hull_turn: (((p.hull_turn + 360 - p.rotation) % 360) as u64),
            ..p
        }
    }
}

/// The ship after one thrust input: each position axis moves by that
/// axis's velocity scaled by the cosine (x) or sine (y) of minus the
/// facing angle. The two axes are deliberately coupled to the two
/// velocity components independently, not through one forward vector.
pub open spec fn thrusted(p: Player) -> Player {
    Player {
        pos: Vec2 {
            x: ((p.pos.x + mdiv(p.velocity.x * cos_deg(neg_deg(p.angle as int)))) as i64),
            y: ((p.pos.y + mdiv(p.velocity.y * sin_deg(neg_deg(p.angle as int)))) as i64),
        },
        ..p
    }
}

/// The ship after one steering input of any direction.
pub open spec fn moved_player(p: Player, direction: Direction) -> Player {
    match direction {
        Direction::RotateLeft => rotated(p, false),
        Direction::RotateRight => rotated(p, true),
        Direction::Thrust => thrusted(p),
    }
}

/// The ship translated to the opposite viewport edge: edge 1 is the top
/// (moved down by the height), 2 the right, 3 the bottom, 4 the left.
pub open spec fn teleported(p: Player, side: u8, w: int, h: int) -> Player {
    if side == 1 {
        Player { pos: Vec2 { x: p.pos.x, y: ((p.pos.y + h) as i64) }, ..p }
    } else if side == 2 {
        Player { pos: Vec2 { x: ((p.pos.x - w) as i64), y: p.pos.y }, ..p }
    } else if side == 3 {
        Player { pos: Vec2 { x: p.pos.x, y: ((p.pos.y - h) as i64) }, ..p }
    } else if side == 4 {
        Player { pos: Vec2 { x: ((p.pos.x + w) as i64), y: p.pos.y }, ..p }
    } else {
        p
    }
}

/// The projectile a ship fires: placed at the first hull vertex, carrying
/// the given velocity and extent and the trig of the facing angle frozen
/// at this moment.
pub open spec fn shot_bullet(p: Player, velocity: Vec2, width: i64, height: i64) -> Bullet {
    Bullet {
        position: Vec2 { x: (vertex_x(p) as i64), y: (vertex_y(p) as i64) },
        velocity: velocity,
        width: width,
        height: height,
        sin: (sin_deg(neg_deg(p.angle as int)) as i64),
        cos: (cos_deg(neg_deg(p.angle as int)) as i64),
        collision: false,
    }
}

impl Player {
    /// Structural soundness of a ship: angles reduced, a nonzero rotation
    /// step, and bounded offsets and velocity.
    pub open spec fn wf(self) -> bool {
        &&& self.hull_turn < 360
        &&& self.angle < 360
        &&& 0 < self.rotation < 360
        &&& -OFF_MAX <= self.off_a.x <= OFF_MAX
        &&& -OFF_MAX <= self.off_a.y <= OFF_MAX
        &&& -OFF_MAX <= self.off_b.x <= OFF_MAX
        &&& -OFF_MAX <= self.off_b.y <= OFF_MAX
        &&& -OFF_MAX <= self.off_c.x <= OFF_MAX
        &&& -OFF_MAX <= self.off_c.y <= OFF_MAX
        &&& -VEL_MAX <= self.velocity.x <= VEL_MAX
        &&& -VEL_MAX <= self.velocity.y <= VEL_MAX
    }

    /// The hull centroid: the ship's logical position.
    pub fn center(&self) -> (r: Vec2)
        ensures
            r == self.pos,
    {
        self.pos
    }

    /// The three hull vertices, derived from the centroid, the base
    /// offsets and the hull orientation.
    pub fn hull_points(&self) -> (r: (Vec2, Vec2, Vec2))
        requires
            self.wf(),
            -ARITH_MAX <= self.pos.x <= ARITH_MAX,
            -ARITH_MAX <= self.pos.y <= ARITH_MAX,
        ensures
            r.0.x as int == vertex_x(*self),
            r.0.y as int == vertex_y(*self),
            r.1.x as int == self.pos.x + rot_x(self.off_b, self.hull_turn as int),
            r.1.y as int == self.pos.y + rot_y(self.off_b, self.hull_turn as int),
            r.2.x as int == self.pos.x + rot_x(self.off_c, self.hull_turn as int),
            r.2.y as int == self.pos.y + rot_y(self.off_c, self.hull_turn as int),
    {
        let ra = rot_point(self.off_a, self.hull_turn);
        let rb = rot_point(self.off_b, self.hull_turn);
        let rc = rot_point(self.off_c, self.hull_turn);
        (
            Vec2 { x: self.pos.x + ra.x, y: self.pos.y + ra.y },
            Vec2 { x: self.pos.x + rb.x, y: self.pos.y + rb.y },
            Vec2 { x: self.pos.x + rc.x, y: self.pos.y + rc.y },
        )
    }

    /// One rotate input, rigid about the centroid.
    pub fn rotate(&mut self, opposite: bool)
        requires
            old(self).wf(),
        ensures
            *final(self) == (rotated(*old(self), opposite)),
            final(self).wf(),
    {
        proof {
            lemma_mod360_small(old(self).angle + 360 - old(self).rotation);
            lemma_mod360_small(old(self).hull_turn + old(self).rotation);
            lemma_mod360_small(old(self).angle + old(self).rotation);
            lemma_mod360_small(old(self).hull_turn + 360 - old(self).rotation);
        }
        if !opposite {
            self.angle = (self.angle + 360 - self.rotation) % 360;
            self.hull_turn = (self.hull_turn + self.rotation) % 360;
        } else {
            self.angle = (self.angle + self.rotation) % 360;
            self.hull_turn = (self.hull_turn + 360 - self.rotation) % 360;
        }
    }

    /// One steering input: a rotation in either direction, or thrust
    /// along the current facing.
    pub fn move_player(&mut self, direction: Direction)
        requires
            old(self).wf(),
            -ARITH_MAX <= old(self).pos.x <= ARITH_MAX,
            -ARITH_MAX <= old(self).pos.y <= ARITH_MAX,
        ensures
            *final(self) == (moved_player(*old(self), direction)),
            final(self).wf(),
            old(self).pos.x - VEL_MAX <= final(self).pos.x <= old(self).pos.x + VEL_MAX,
            old(self).pos.y - VEL_MAX <= final(self).pos.y <= old(self).pos.y + VEL_MAX,
    {
        match direction {
            Direction::RotateLeft => self.rotate(false),
            Direction::RotateRight => self.rotate(true),
            Direction::Thrust => {
                let nd: u64 = neg_deg_exec(self.angle);
                let c: i64 = cos_deg_exec(nd);
                let s: i64 = sin_deg_exec(nd);
                let dx: i64 = smul(self.velocity.x, c);
                let dy: i64 = smul(self.velocity.y, s);
                self.pos = Vec2 { x: self.pos.x + dx, y: self.pos.y + dy };
            },
        }
    }

    /// One toroidal wrap across the named viewport edge.
    pub fn teleport(&mut self, side: u8, w: i64, h: i64)
        requires
            1 <= side <= 4,
            DIM_MIN <= w <= DIM_MAX,
            DIM_MIN <= h <= DIM_MAX,
            -ARITH_MAX <= old(self).pos.x <= ARITH_MAX,
            -ARITH_MAX <= old(self).pos.y <= ARITH_MAX,
        ensures
            *final(self) == (teleported(*old(self), side, w as int, h as int)),
    {
        if side == 1 {
            self.pos = Vec2 { x: self.pos.x, y: self.pos.y + h };
        } else if side == 2 {
            self.pos = Vec2 { x: self.pos.x - w, y: self.pos.y };
        } else if side == 3 {
            self.pos = Vec2 { x: self.pos.x, y: self.pos.y - h };
        } else {
            self.pos = Vec2 { x: self.pos.x + w, y: self.pos.y };
        }
    }

    /// Fire one projectile from the first hull vertex, freezing the
    /// cosine and sine of the current facing into it.
    pub fn shoot(&mut self, velocity: Vec2, width: i64, height: i64) -> (r: Bullet)
        requires
            old(self).wf(),
            -ARITH_MAX <= old(self).pos.x <= ARITH_MAX,
            -ARITH_MAX <= old(self).pos.y <= ARITH_MAX,
            -VEL_MAX <= velocity.x <= VEL_MAX,
            -VEL_MAX <= velocity.y <= VEL_MAX,
            0 <= width <= 1_000_000,
            0 <= height <= 1_000_000,
        ensures
            *final(self) == *old(self),
            r == (shot_bullet(*old(self), velocity, width, height)),
            r.wf(),
            old(self).pos.x - 50_000 <= r.position.x <= old(self).pos.x + 50_000,
            old(self).pos.y - 50_000 <= r.position.y <= old(self).pos.y + 50_000,
    {
        let ro = rot_point(self.off_a, self.hull_turn);
        let nd: u64 = neg_deg_exec(self.angle);
        let s: i64 = sin_deg_exec(nd);
        let c: i64 = cos_deg_exec(nd);
        Bullet {
            position: Vec2 { x: self.pos.x + ro.x, y: self.pos.y + ro.y },
            velocity: velocity,
            width: width,
            height: height,
            sin: s,
            cos: c,
            collision: false,
        }
    }
}

} // verus!
