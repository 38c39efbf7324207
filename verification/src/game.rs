use vstd::prelude::*;
use crate::asteroid::{
    ast_hit, count_flagged, count_flagged_big, frag_seg, in_hit_box, in_player_box,
    moved_asteroid, teleported_asteroid, unflagged, Asteroid, AST_RADIUS,
};
use crate::bullet::{bullet_expired, fire_gate_open, moved_bullet, Bullet};
use crate::geom::{Vec2, DIM_MAX, DIM_MIN, VEL_MAX};
use crate::player::{
    moved_player, rot_x, rot_y, shot_bullet, teleported, vertex_x, vertex_y, Direction, Player,
};

verus! {

/// Largest centroid coordinate magnitude a well-formed game lets the
/// player reach between frames.
pub const P_MAX: i64 = 1_000_250_000;

/// Largest position coordinate magnitude of a live projectile between
/// frames.
pub const B_MAX: i64 = 1_000_350_000;

/// Largest position coordinate magnitude of a live asteroid between
/// frames.
pub const A_MAX: i64 = 1_000_200_000;

/// Largest score a frame accepts, far above anything reachable, so the
/// per-frame increments can never overflow.
pub const SCORE_CAP: u64 = 0x4000_0000_0000_0000;

/// Largest asteroid population a frame accepts.
pub const LEN_CAP: usize = 1_000_000;

/// The population the spawn step keeps the asteroid field at.
pub const MIN_ASTEROIDS: usize = 6;

/// Side count of a freshly spawned (never fragmented) asteroid.
pub const MAX_SIDES: u8 = 8;

/// The two states of the game loop: it runs until the player collides,
/// and the terminal state is final.
#[derive(Clone, Copy, Debug, PartialEq, Eq, Structural)]
pub enum Status {
    Running,
    Terminated,
}

/// The discrete input signals one frame consumes.
#[derive(Clone, Copy, Debug, PartialEq, Eq, Structural)]
pub struct Input {
    /// Rotate the ship against the screen sense of its facing angle.
    pub rotate_left: bool,
    /// Rotate the ship with the screen sense of its facing angle.
    pub rotate_right: bool,
    /// Thrust along the current facing.
    pub thrust: bool,
    /// Fire one projectile, subject to the fire-rate gate.
    pub fire: bool,
}

/// Everything one frame asks the outside to draw: the hull triangle, the
/// live projectiles and asteroids as they were shown this frame, and the
/// score.
pub struct RenderFrame {
    /// First hull vertex.
    pub hull_a: Vec2,
    /// Second hull vertex.
    pub hull_b: Vec2,
    /// Third hull vertex.
    pub hull_c: Vec2,
    /// The projectiles drawn this frame.
    pub bullets: Vec<Bullet>,
    /// The asteroids drawn this frame, flags included.
    pub asteroids: Vec<Asteroid>,
    /// The score drawn this frame.
    pub score: u64,
}

/// The whole simulation state owned by the loop.
pub struct Game {
    /// The player's ship.
    pub player: Player,
    /// Live projectiles, in firing order.
    pub bullets: Vec<Bullet>,
    /// Live asteroids, survivors before fragments.
    pub asteroids: Vec<Asteroid>,
    /// Destroyed-asteroid count.
    pub score: u64,
    /// Timestamp of the last shot, simulated milliseconds.
    pub fire_time: u64,
    /// Whether the loop still runs.
    pub status: Status,
    /// Velocity given to every projectile.
    pub bullet_velocity: Vec2,
    /// Rendered width of every projectile, milli-units.
    pub bullet_width: i64,
    /// Rendered height of every projectile, milli-units.
    pub bullet_height: i64,
}

/// The ship after this frame's steering inputs, applied in input order:
/// rotate left, rotate right, thrust.
pub open spec fn steered(p: Player, input: Input) -> Player {
    let p1 = if input.rotate_left {
        moved_player(p, Direction::RotateLeft)
    } else {
        p
    };
    let p2 = if input.rotate_right {
        moved_player(p1, Direction::RotateRight)
    } else {
        p1
    };
    if input.thrust {
        moved_player(p2, Direction::Thrust)
    } else {
        p2
    }
}

/// The ship after the four toroidal edge checks, each judged on the
/// first hull vertex of the then-current state: top, right, bottom,
/// left.
pub open spec fn wrapped_player(p: Player, w: int, h: int) -> Player {
    let p1 = if vertex_y(p) < 1000 {
        teleported(p, 1, w, h)
    } else {
        p
    };
    let p2 = if vertex_x(p1) > w {
        teleported(p1, 2, w, h)
    } else {
        p1
    };
    let p3 = if vertex_y(p2) > h {
        teleported(p2, 3, w, h)
    } else {
        p2
    };
    if vertex_x(p3) < 1000 {
        teleported(p3, 4, w, h)
    } else {
        p3
    }
}

/// The ship after this frame's whole input-and-wrap pipeline; only its
/// collision flag is decided later, by the asteroid pass.
pub open spec fn frame_player(p: Player, input: Input, w: int, h: int) -> Player {
    wrapped_player(steered(p, input), w, h)
}

/// The projectile sequence right after the fire step: the old ones, plus
/// one shot from the pre-steering ship when fire was pressed and the
/// gate was open.
pub open spec fn bullets_after_fire(g: Game, fire: bool, now: u64) -> Seq<Bullet> {
    if fire && fire_gate_open(now, g.fire_time) {
        g.bullets@.push(shot_bullet(g.player, g.bullet_velocity, g.bullet_width, g.bullet_height))
    } else {
        g.bullets@
    }
}

/// The projectiles that survive the movement step: each moved one frame,
/// kept when it is still inside the viewport and carries no flag.
pub open spec fn surviving(s: Seq<Bullet>, w: int, h: int) -> Seq<Bullet>
    decreases s.len(),
{
    if s.len() == 0 {
        Seq::empty()
    } else {
        let rest = surviving(s.drop_last(), w, h);
        let m = moved_bullet(s.last());
        if !bullet_expired(m, w, h) && !m.collision {
            rest.push(m)
        } else {
            rest
        }
    }
}

/// The projectiles drawn by the movement step: each moved one frame,
/// drawn whenever it is still inside the viewport, flags notwithstanding.
pub open spec fn rendered_bullets(s: Seq<Bullet>, w: int, h: int) -> Seq<Bullet>
    decreases s.len(),
{
    if s.len() == 0 {
        Seq::empty()
    } else {
        let rest = rendered_bullets(s.drop_last(), w, h);
        let m = moved_bullet(s.last());
        if !bullet_expired(m, w, h) {
            rest.push(m)
        } else {
            rest
        }
    }
}

/// Whether any of the drawn asteroids has `bpos` inside its projectile
/// hit box.
pub open spec fn bullet_flagged_by(asts: Seq<Asteroid>, bpos: Vec2) -> bool {
    exists|j: int| 0 <= j < asts.len() && in_hit_box(asts[j].position, bpos)
}

/// Whether any of the drawn asteroids has the centroid `c` inside its
/// player hit box.
pub open spec fn player_hit(asts: Seq<Asteroid>, c: Vec2) -> bool {
    exists|j: int| 0 <= j < asts.len() && in_player_box(asts[j].position, c)
}

/// Equality of every asteroid field except the collision flag.
pub open spec fn same_ast_core(a: Asteroid, b: Asteroid) -> bool {
    &&& a.position == b.position
    &&& a.rotation == b.rotation
    &&& a.velocity == b.velocity
    &&& a.sides == b.sides
    &&& a.radius == b.radius
}

/// Equality of every player field except the collision flag.
pub open spec fn same_player_core(a: Player, b: Player) -> bool {
    &&& a.pos == b.pos
    &&& a.off_a == b.off_a
    &&& a.off_b == b.off_b
    &&& a.off_c == b.off_c
    &&& a.hull_turn == b.hull_turn
    &&& a.rotation == b.rotation
    &&& a.velocity == b.velocity
    &&& a.angle == b.angle
}

/// An asteroid after its per-frame drift and the four edge checks, each
/// judged on the then-current position: top, right, bottom, left.
pub open spec fn wrapped_asteroid(a: Asteroid, w: int, h: int) -> Asteroid {
    let a1 = if a.position.y < 1000 {
        teleported_asteroid(a, 1, w, h)
    } else {
        a
    };
    let a2 = if a1.position.x > w {
        teleported_asteroid(a1, 2, w, h)
    } else {
        a1
    };
    let a3 = if a2.position.y > h {
        teleported_asteroid(a2, 3, w, h)
    } else {
        a2
    };
    if a3.position.x < 1000 {
        teleported_asteroid(a3, 4, w, h)
    } else {
        a3
    }
}

/// An asteroid as it is drawn this frame: drifted, then wrapped.
pub open spec fn proc_ast(a: Asteroid, w: int, h: int) -> Asteroid {
    wrapped_asteroid(moved_asteroid(a), w, h)
}

impl Game {
    /// Structural soundness of the whole state: a well-formed ship and
    /// entities, all within the between-frame position bounds, and sound
    /// projectile parameters.
    pub open spec fn wf(self) -> bool {
        &&& self.player.wf()
        &&& -P_MAX <= self.player.pos.x <= P_MAX
        &&& -P_MAX <= self.player.pos.y <= P_MAX
        &&& forall|j: int|
            0 <= j < self.bullets@.len() ==> (#[trigger] self.bullets@[j]).wf()
                && -B_MAX <= self.bullets@[j].position.x <= B_MAX
                && -B_MAX <= self.bullets@[j].position.y <= B_MAX
        &&& forall|j: int|
            0 <= j < self.asteroids@.len() ==> (#[trigger] self.asteroids@[j]).wf()
                && -A_MAX <= self.asteroids@[j].position.x <= A_MAX
                && -A_MAX <= self.asteroids@[j].position.y <= A_MAX
        &&& -VEL_MAX <= self.bullet_velocity.x <= VEL_MAX
        &&& -VEL_MAX <= self.bullet_velocity.y <= VEL_MAX
        &&& 0 <= self.bullet_width <= 1_000_000
        &&& 0 <= self.bullet_height <= 1_000_000
    }

    /// A fresh game: the ship centred in the viewport with the fixed
    /// starting hull, facing angle 90, a two-degree rotation step, no
    /// projectiles, no asteroids, score zero, running.
    pub fn new(w: i64, h: i64) -> (g: Game)
        requires
            DIM_MIN <= w <= DIM_MAX,
            DIM_MIN <= h <= DIM_MAX,
        ensures
            g.wf(),
            g.status == Status::Running,
            g.score == 0,
            g.fire_time == 0,
            g.bullets@.len() == 0,
            g.asteroids@.len() == 0,
            g.player.pos.x as int == (w as int) / 2,
            g.player.pos.y as int == (h as int) / 2 + 13_334,
            g.player.off_a == (Vec2 { x: 0i64, y: -13_334i64 }),
            g.player.off_b == (Vec2 { x: 10_000, y: 6_667 }),
            g.player.off_c == (Vec2 { x: -10_000i64, y: 6_667i64 }),
            g.player.hull_turn == 0,
            g.player.rotation == 2,
            g.player.velocity == (Vec2 { x: 2_000, y: 2_000 }),
            g.player.angle == 90,
            !g.player.collision,
            g.bullet_velocity == (Vec2 { x: 5_000, y: 5_000 }),
            g.bullet_width == 5_000,
            g.bullet_height == 10_000,
    {
        let half_w: i64 = ((w as u64) / 2u64) as i64;
        let half_h: i64 = ((h as u64) / 2u64) as i64;
        let player = Player {
            pos: Vec2 { x: half_w, y: half_h + 13_334 },
            off_a: Vec2 { x: 0, y: -13_334 },
            off_b: Vec2 { x: 10_000, y: 6_667 },
            off_c: Vec2 { x: -10_000, y: 6_667 },
            hull_turn: 0,
            rotation: 2,
            velocity: Vec2 { x: 2_000, y: 2_000 },
            angle: 90,
            collision: false,
        };
        Game {
            player: player,
            bullets: Vec::new(),
            asteroids: Vec::new(),
            score: 0,
            fire_time: 0,
            status: Status::Running,
            bullet_velocity: Vec2 { x: 5_000, y: 5_000 },
            bullet_width: 5_000,
            bullet_height: 10_000,
        }
    }

    /// The fire step: when the fire input arrives and enough time has
    /// passed since the last shot, one projectile leaves the ship as it
    /// stood before this frame's steering, and the fire timer advances;
    /// otherwise nothing changes.
    fn fire_phase(&mut self, fire: bool, now: u64)
        requires
            old(self).wf(),
            old(self).fire_time <= now,
        ensures
            final(self).wf(),
            final(self).bullets@ == bullets_after_fire(*old(self), fire, now),
            final(self).fire_time == if fire && fire_gate_open(now, old(self).fire_time) {
                now
            } else {
                old(self).fire_time
            },
            final(self).player == old(self).player,
            final(self).asteroids@ == old(self).asteroids@,
            final(self).score == old(self).score,
            final(self).status == old(self).status,
            final(self).bullet_velocity == old(self).bullet_velocity,
            final(self).bullet_width == old(self).bullet_width,
            final(self).bullet_height == old(self).bullet_height,
    {
        if fire {
            if Bullet::pause_bullet_fire(now, self.fire_time) {
                let b = self.player.shoot(
                    self.bullet_velocity,
                    self.bullet_width,
                    self.bullet_height,
                );
                self.bullets.push(b);
                self.fire_time = now;
            }
        }
    }

    /// The steering step: the held rotation and thrust inputs, applied
    /// to the ship in input order.
    fn steer_phase(&mut self, input: Input)
        requires
            old(self).wf(),
        ensures
            final(self).player == (steered(old(self).player, input)),
            final(self).player.wf(),
            old(self).player.pos.x - VEL_MAX <= final(self).player.pos.x
                <= old(self).player.pos.x + VEL_MAX,
            old(self).player.pos.y - VEL_MAX <= final(self).player.pos.y
                <= old(self).player.pos.y + VEL_MAX,
            final(self).bullets@ == old(self).bullets@,
            final(self).asteroids@ == old(self).asteroids@,
            final(self).score == old(self).score,
            final(self).fire_time == old(self).fire_time,
            final(self).status == old(self).status,
            final(self).bullet_velocity == old(self).bullet_velocity,
            final(self).bullet_width == old(self).bullet_width,
            final(self).bullet_height == old(self).bullet_height,
    {
        if input.rotate_left {
            self.player.move_player(Direction::RotateLeft);
        }
        if input.rotate_right {
            self.player.move_player(Direction::RotateRight);
        }
        if input.thrust {
            self.player.move_player(Direction::Thrust);
        }
    }

    /// The wrap step: the four edge checks on the first hull vertex, in
    /// order, each on the then-current position.
    fn wrap_phase(&mut self, w: i64, h: i64)
        requires
            DIM_MIN <= w <= DIM_MAX,
            DIM_MIN <= h <= DIM_MAX,
            old(self).player.wf(),
            -P_MAX - VEL_MAX <= old(self).player.pos.x <= P_MAX + VEL_MAX,
            -P_MAX - VEL_MAX <= old(self).player.pos.y <= P_MAX + VEL_MAX,
        ensures
            final(self).player == (wrapped_player(old(self).player, w as int, h as int)),
            final(self).player.wf(),
            -P_MAX <= final(self).player.pos.x <= P_MAX,
            -P_MAX <= final(self).player.pos.y <= P_MAX,
            final(self).bullets@ == old(self).bullets@,
            final(self).asteroids@ == old(self).asteroids@,
            final(self).score == old(self).score,
            final(self).fire_time == old(self).fire_time,
            final(self).status == old(self).status,
            final(self).bullet_velocity == old(self).bullet_velocity,
            final(self).bullet_width == old(self).bullet_width,
            final(self).bullet_height == old(self).bullet_height,
    {
        let ro = crate::player::rot_point(self.player.off_a, self.player.hull_turn);
        if self.player.pos.y + ro.y < 1000 {
            self.player.teleport(1, w, h);
        }
        if self.player.pos.x + ro.x > w {
            self.player.teleport(2, w, h);
        }
        if self.player.pos.y + ro.y > h {
            self.player.teleport(3, w, h);
        }
        if self.player.pos.x + ro.x < 1000 {
            self.player.teleport(4, w, h);
        }
    }

    /// The projectile step: move every projectile one frame, draw every
    /// one still inside the viewport, and keep exactly the drawn ones
    /// that carry no flag.
    fn bullet_phase(&mut self, w: i64, h: i64) -> (render: Vec<Bullet>)
        requires
            old(self).wf(),
            DIM_MIN <= w <= DIM_MAX,
            DIM_MIN <= h <= DIM_MAX,
        ensures
            final(self).wf(),
            final(self).bullets@ == surviving(old(self).bullets@, w as int, h as int),
            render@ == rendered_bullets(old(self).bullets@, w as int, h as int),
            forall|k: int|
                0 <= k < final(self).bullets@.len() ==> 0 <= (
                #[trigger] final(self).bullets@[k]).position.x <= w
                    && 0 <= final(self).bullets@[k].position.y <= h
                    && !final(self).bullets@[k].collision,
            final(self).player == old(self).player,
            final(self).asteroids@ == old(self).asteroids@,
            final(self).score == old(self).score,
            final(self).fire_time == old(self).fire_time,
            final(self).status == old(self).status,
            final(self).bullet_velocity == old(self).bullet_velocity,
            final(self).bullet_width == old(self).bullet_width,
            final(self).bullet_height == old(self).bullet_height,
    {
        let n = self.bullets.len();
        let mut kept: Vec<Bullet> = Vec::new();
        let mut render: Vec<Bullet> = Vec::new();
        let mut i: usize = 0;
        while i < n
            invariant
                i <= n,
                n == old(self).bullets@.len(),
                self.bullets@ == old(self).bullets@,
                DIM_MIN <= w <= DIM_MAX,
                DIM_MIN <= h <= DIM_MAX,
                forall|k: int|
                    0 <= k < n ==> (#[trigger] old(self).bullets@[k]).wf()
                        && -B_MAX <= old(self).bullets@[k].position.x <= B_MAX
                        && -B_MAX <= old(self).bullets@[k].position.y <= B_MAX,
                kept@ == surviving(old(self).bullets@.take(i as int), w as int, h as int),
                render@ == rendered_bullets(old(self).bullets@.take(i as int), w as int, h as int),
                forall|k: int|
                    0 <= k < kept@.len() ==> (#[trigger] kept@[k]).wf()
                        && 0 <= kept@[k].position.x <= w
                        && 0 <= kept@[k].position.y <= h
                        && !kept@[k].collision,
            decreases n - i,
        {
            let mut b = self.bullets[i];
            b.move_bullet();
            let ex = b.expired(w, h);
            proof {
                assert(old(self).bullets@.take(i as int + 1).drop_last() =~= old(
                    self,
                ).bullets@.take(i as int));
                assert(old(self).bullets@.take(i as int + 1).last() == old(self).bullets@[
                    i as int]);
            }
            if !ex {
                render.push(b);
            }
            if !ex && !b.collision {
                kept.push(b);
            }
            i += 1;
        }
        proof {
            assert(old(self).bullets@.take(n as int) =~= old(self).bullets@);
        }
        self.bullets = kept;
        render
    }

    /// The asteroid step: each live asteroid drifts, wraps, runs its
    /// collision pass against the projectiles and the player, and is
    /// drawn; a flagged asteroid scores a point, leaves its two
    /// fragments when it still had five or more sides, and is removed;
    /// the survivors keep their order and the fragments follow them.
    #[verifier::rlimit(100)]
    fn asteroid_phase(&mut self, w: i64, h: i64) -> (render: Vec<Asteroid>)
        requires
            old(self).wf(),
            DIM_MIN <= w <= DIM_MAX,
            DIM_MIN <= h <= DIM_MAX,
            old(self).score <= SCORE_CAP,
            old(self).asteroids@.len() <= LEN_CAP + 1,
        ensures
            final(self).wf(),
            render@.len() == old(self).asteroids@.len(),
            forall|j: int|
                0 <= j < render@.len() ==> same_ast_core(
                    #[trigger] render@[j],
                    proc_ast(old(self).asteroids@[j], w as int, h as int),
                ),
            forall|j: int|
                0 <= j < render@.len() ==> (#[trigger] render@[j]).collision == (old(
                    self,
                ).asteroids@[j].collision || ast_hit(
                    proc_ast(old(self).asteroids@[j], w as int, h as int).position,
                    old(self).bullets@,
                ) || in_player_box(
                    proc_ast(old(self).asteroids@[j], w as int, h as int).position,
                    old(self).player.pos,
                )),
            final(self).bullets@.len() == old(self).bullets@.len(),
            forall|k: int|
                0 <= k < old(self).bullets@.len() ==> final(self).bullets@[k] == (Bullet {
                    collision: old(self).bullets@[k].collision || bullet_flagged_by(
                        render@,
                        old(self).bullets@[k].position,
                    ),
                    ..old(self).bullets@[k]
                }),
            final(self).player == (Player {
                collision: old(self).player.collision || player_hit(
                    render@,
                    old(self).player.pos,
                ),
                ..old(self).player
            }),
            final(self).score as int == old(self).score + count_flagged(render@),
            final(self).asteroids@.len() == unflagged(render@).len() + 2 * count_flagged_big(
                render@,
            ),
            final(self).asteroids@.take(unflagged(render@).len() as int) == unflagged(render@),
            frag_seg(
                render@,
                0,
                render@.len() as int,
                final(self).asteroids@,
                unflagged(render@).len() as int,
            ),
            forall|j: int|
                0 <= j < final(self).asteroids@.len() ==> !(
                #[trigger] final(self).asteroids@[j]).collision,
            final(self).fire_time == old(self).fire_time,
            final(self).status == old(self).status,
            final(self).bullet_velocity == old(self).bullet_velocity,
            final(self).bullet_width == old(self).bullet_width,
            final(self).bullet_height == old(self).bullet_height,
    {
        let ghost a0 = old(self).asteroids@;
        let ghost b0 = old(self).bullets@;
        let ghost p0 = old(self).player;
        let n = self.asteroids.len();
        let mut kept: Vec<Asteroid> = Vec::new();
        let mut frags: Vec<Asteroid> = Vec::new();
        let mut render: Vec<Asteroid> = Vec::new();
        let mut i: usize = 0;
        while i < n
            invariant
                i <= n,
                n == a0.len(),
                a0 == old(self).asteroids@,
                b0 == old(self).bullets@,
                p0 == old(self).player,
                self.asteroids@ == a0,
                DIM_MIN <= w <= DIM_MAX,
                DIM_MIN <= h <= DIM_MAX,
                old(self).score <= SCORE_CAP,
                n <= LEN_CAP + 1,
                self.fire_time == old(self).fire_time,
                self.status == old(self).status,
                self.bullet_velocity == old(self).bullet_velocity,
                self.bullet_width == old(self).bullet_width,
                self.bullet_height == old(self).bullet_height,
                forall|j: int|
                    0 <= j < n ==> (#[trigger] a0[j]).wf() && -A_MAX <= a0[j].position.x <= A_MAX
                        && -A_MAX <= a0[j].position.y <= A_MAX,
                forall|k: int|
                    0 <= k < b0.len() ==> (#[trigger] b0[k]).wf()
                        && -B_MAX <= b0[k].position.x <= B_MAX
                        && -B_MAX <= b0[k].position.y <= B_MAX,
                p0.wf(),
                -P_MAX <= p0.pos.x <= P_MAX,
                -P_MAX <= p0.pos.y <= P_MAX,
                render@.len() == i as int,
                forall|j: int|
                    0 <= j < i as int ==> same_ast_core(
                        #[trigger] render@[j],
                        proc_ast(a0[j], w as int, h as int),
                    ),
                forall|j: int|
                    0 <= j < i as int ==> (#[trigger] render@[j]).collision == (a0[j].collision
                        || ast_hit(proc_ast(a0[j], w as int, h as int).position, b0)
                        || in_player_box(proc_ast(a0[j], w as int, h as int).position, p0.pos)),
                forall|j: int|
                    0 <= j < i as int ==> (#[trigger] render@[j]).wf()
                        && -1_000_050_000 <= render@[j].position.x <= 1_000_050_000
                        && -1_000_050_000 <= render@[j].position.y <= 1_000_050_000,
                self.bullets@.len() == b0.len(),
                forall|k: int|
                    0 <= k < b0.len() ==> self.bullets@[k] == (Bullet {
                        collision: b0[k].collision || bullet_flagged_by(render@, b0[k].position),
                        ..b0[k]
                    }),
                self.player == (Player {
                    collision: p0.collision || player_hit(render@, p0.pos),
                    ..p0
                }),
                self.score as int == old(self).score + count_flagged(render@),
                count_flagged(render@) <= i as int,
                kept@ == unflagged(render@),
                forall|j: int|
                    0 <= j < kept@.len() ==> !(#[trigger] kept@[j]).collision && kept@[j].wf()
                        && -1_000_050_000 <= kept@[j].position.x <= 1_000_050_000
                        && -1_000_050_000 <= kept@[j].position.y <= 1_000_050_000,
                frags@.len() == 2 * count_flagged_big(render@),
                frag_seg(render@, 0, i as int, frags@, 0),
                forall|j: int|
                    0 <= j < frags@.len() ==> (#[trigger] frags@[j]).wf()
                        && !frags@[j].collision
                        && -A_MAX <= frags@[j].position.x <= A_MAX
                        && -A_MAX <= frags@[j].position.y <= A_MAX,
            decreases n - i,
        {
            let mut a = self.asteroids[i];
            a.move_asteroid();
            if a.position.y < 1000 {
                a.teleport(1, w, h);
            }
            if a.position.x > w {
                a.teleport(2, w, h);
            }
            if a.position.y > h {
                a.teleport(3, w, h);
            }
            if a.position.x < 1000 {
                a.teleport(4, w, h);
            }
            proof {
                assert(a == proc_ast(a0[i as int], w as int, h as int));
                assert(-1_000_050_000 <= a.position.x <= 1_000_050_000);
                assert(-1_000_050_000 <= a.position.y <= 1_000_050_000);
            }
            let ghost bpre = self.bullets@;
            a.collision_check(&mut self.player, &mut self.bullets);
            proof {
                lemma_ast_hit_same_positions(a.position, bpre, b0);
            }
            let ghost rpre = render@;
            let ghost fpre = frags@;
            if a.collision {
                self.score = self.score + 1;
                if a.sides >= 5 {
                    a.fragment(&mut frags, w, h);
                }
            } else {
                kept.push(a);
            }
            render.push(a);
            proof {
                assert(render@ =~= rpre.push(a));
                assert(render@.drop_last() =~= rpre);
                assert(render@.last() == a);
                crate::asteroid::lemma_frag_seg_parents_ext(rpre, render@, 0, i as int, fpre, 0);
                if a.collision && a.sides >= 5 {
                    let c1 = frags@[fpre.len() as int];
                    let c2 = frags@[fpre.len() + 1int];
                    assert(frags@ =~= fpre.push(c1).push(c2));
                    crate::asteroid::lemma_frag_seg_extend_hit(
                        render@,
                        0,
                        i as int,
                        fpre,
                        0,
                        c1,
                        c2,
                    );
                } else {
                    crate::asteroid::lemma_frag_seg_extend_miss(render@, 0, i as int, fpre, 0);
                }
                assert forall|k: int| 0 <= k < b0.len() implies self.bullets@[k] == (Bullet {
                    collision: b0[k].collision || bullet_flagged_by(render@, b0[k].position),
                    ..b0[k]
                }) by {
                    lemma_flagged_by_push(rpre, a, b0[k].position);
                }
                lemma_player_hit_push(rpre, a, p0.pos);
            }
            i += 1;
        }
        let ghost keptseq = kept@;
        let ghost fragseq = frags@;
        self.asteroids = kept;
        self.asteroids.append(&mut frags);
        proof {
            assert(self.asteroids@ == keptseq + fragseq);
            assert(self.asteroids@.take(unflagged(render@).len() as int) =~= unflagged(render@));
            crate::asteroid::lemma_frag_seg_prepend(
                render@,
                0,
                render@.len() as int,
                fragseq,
                0,
                keptseq,
            );
            assert forall|j: int| 0 <= j < self.asteroids@.len() implies !(
            #[trigger] self.asteroids@[j]).collision by {
                if j < keptseq.len() {
                    assert(self.asteroids@[j] == keptseq[j]);
                } else {
                    assert(self.asteroids@[j] == fragseq[j - keptseq.len()]);
                }
            }
        }
        render
    }

    /// The spawn-maintenance step: whenever the live population is below
    /// the minimum, one fresh maximal asteroid appears.
    fn spawn_phase(&mut self, w: i64, h: i64)
        requires
            old(self).wf(),
            DIM_MIN <= w <= DIM_MAX,
            DIM_MIN <= h <= DIM_MAX,
        ensures
            final(self).wf(),
            old(self).asteroids@.len() >= MIN_ASTEROIDS ==> final(self).asteroids@ == old(
                self,
            ).asteroids@,
            old(self).asteroids@.len() < MIN_ASTEROIDS ==> {
                &&& final(self).asteroids@.len() == old(self).asteroids@.len() + 1
                &&& forall|j: int|
                    0 <= j < old(self).asteroids@.len() ==> final(self).asteroids@[j] == old(
                        self,
                    ).asteroids@[j]
                &&& final(self).asteroids@.last().wf()
                &&& final(self).asteroids@.last().sides == MAX_SIDES
                &&& final(self).asteroids@.last().radius == AST_RADIUS
                &&& !final(self).asteroids@.last().collision
                &&& crate::asteroid::on_edge(
                    final(self).asteroids@.last().position,
                    w as int,
                    h as int,
                )
            },
            final(self).player == old(self).player,
            final(self).bullets@ == old(self).bullets@,
            final(self).score == old(self).score,
            final(self).fire_time == old(self).fire_time,
            final(self).status == old(self).status,
            final(self).bullet_velocity == old(self).bullet_velocity,
            final(self).bullet_width == old(self).bullet_width,
            final(self).bullet_height == old(self).bullet_height,
    {
        if self.asteroids.len() < MIN_ASTEROIDS {
            let a = Asteroid::spawn(MAX_SIDES, w, h);
            self.asteroids.push(a);
        }
    }

    /// One whole frame while running: fire, steer, wrap, draw the hull,
    /// move and prune projectiles, keep the asteroid population, run the
    /// asteroid pass, and terminate when the player was hit. A frame on
    /// a terminated game changes nothing and emits nothing; a frame on a
    /// running game always emits exactly one render state, even the
    /// frame that terminates.
    #[verifier::rlimit(60)]
    pub fn frame(&mut self, input: Input, w: i64, h: i64, now: u64) -> (r: Option<RenderFrame>)
        requires
            old(self).wf(),
            DIM_MIN <= w <= DIM_MAX,
            DIM_MIN <= h <= DIM_MAX,
            old(self).fire_time <= now,
            old(self).score <= SCORE_CAP,
            old(self).asteroids@.len() <= LEN_CAP,
        ensures
            final(self).wf(),
            old(self).status == Status::Terminated ==> *final(self) == *old(self) && r is None,
            old(self).status == Status::Running ==> r is Some,
            old(self).status == Status::Running ==> ({
                let rf = r->0;
                let pa = frame_player(old(self).player, input, w as int, h as int);
                let b0 = bullets_after_fire(*old(self), input.fire, now);
                let surv = surviving(b0, w as int, h as int);
                &&& final(self).fire_time == if input.fire && fire_gate_open(
                    now,
                    old(self).fire_time,
                ) {
                    now
                } else {
                    old(self).fire_time
                }
                &&& same_player_core(final(self).player, pa)
                &&& final(self).player.collision == (old(self).player.collision || player_hit(
                    rf.asteroids@,
                    pa.pos,
                ))
                &&& final(self).status == (if final(self).player.collision {
                    Status::Terminated
                } else {
                    Status::Running
                })
                &&& rf.score == final(self).score
                &&& final(self).score as int == old(self).score + count_flagged(rf.asteroids@)
                &&& rf.asteroids@.len() == (if old(self).asteroids@.len() < MIN_ASTEROIDS {
                    old(self).asteroids@.len() + 1int
                } else {
                    old(self).asteroids@.len() as int
                })
                &&& forall|j: int|
                    0 <= j < old(self).asteroids@.len() ==> same_ast_core(
                        #[trigger] rf.asteroids@[j],
                        proc_ast(old(self).asteroids@[j], w as int, h as int),
                    )
                &&& forall|j: int|
                    0 <= j < rf.asteroids@.len() ==> (#[trigger] rf.asteroids@[j]).collision == ((
                    if j < old(self).asteroids@.len() {
                        old(self).asteroids@[j].collision
                    } else {
                        false
                    }) || ast_hit(rf.asteroids@[j].position, surv) || in_player_box(
                        rf.asteroids@[j].position,
                        pa.pos,
                    ))
                &&& old(self).asteroids@.len() < MIN_ASTEROIDS ==> rf.asteroids@.last().sides
                    == MAX_SIDES && rf.asteroids@.last().radius == AST_RADIUS
                &&& final(self).bullets@.len() == surv.len()
                &&& forall|k: int|
                    0 <= k < surv.len() ==> final(self).bullets@[k] == (Bullet {
                        collision: surv[k].collision || bullet_flagged_by(
                            rf.asteroids@,
                            surv[k].position,
                        ),
                        ..surv[k]
                    })
                &&& rf.bullets@ == rendered_bullets(b0, w as int, h as int)
                &&& rf.hull_a.x as int == vertex_x(pa)
                &&& rf.hull_a.y as int == vertex_y(pa)
                &&& rf.hull_b.x as int == pa.pos.x + rot_x(pa.off_b, pa.hull_turn as int)
                &&& rf.hull_b.y as int == pa.pos.y + rot_y(pa.off_b, pa.hull_turn as int)
                &&& rf.hull_c.x as int == pa.pos.x + rot_x(pa.off_c, pa.hull_turn as int)
                &&& rf.hull_c.y as int == pa.pos.y + rot_y(pa.off_c, pa.hull_turn as int)
                &&& final(self).asteroids@.take(unflagged(rf.asteroids@).len() as int)
                    == unflagged(rf.asteroids@)
                &&& frag_seg(
                    rf.asteroids@,
                    0,
                    rf.asteroids@.len() as int,
                    final(self).asteroids@,
                    unflagged(rf.asteroids@).len() as int,
                )
                &&& final(self).asteroids@.len() == unflagged(rf.asteroids@).len() + 2
                    * count_flagged_big(rf.asteroids@)
                &&& forall|j: int|
                    0 <= j < final(self).asteroids@.len() ==> !(
                    #[trigger] final(self).asteroids@[j]).collision
                &&& final(self).bullet_velocity == old(self).bullet_velocity
                &&& final(self).bullet_width == old(self).bullet_width
                &&& final(self).bullet_height == old(self).bullet_height
            }),
    {
        match self.status {
            Status::Terminated => {
                return None;
            },
            Status::Running => {},
        }
        self.fire_phase(input.fire, now);
        self.steer_phase(input);
        self.wrap_phase(w, h);
        let hull = self.player.hull_points();
        let rb = self.bullet_phase(w, h);
        self.spawn_phase(w, h);
        let ra = self.asteroid_phase(w, h);
        if self.player.collision {
            self.status = Status::Terminated;
        }
        Some(
            RenderFrame {
                hull_a: hull.0,
                hull_b: hull.1,
                hull_c: hull.2,
                bullets: rb,
                asteroids: ra,
                score: self.score,
            },
        )
    }
}

/// The projectile hit test reads only positions, so any projectile
/// sequence with the same positions gives the same answer.
proof fn lemma_ast_hit_same_positions(p: Vec2, s1: Seq<Bullet>, s2: Seq<Bullet>)
    requires
        s1.len() == s2.len(),
        forall|k: int| 0 <= k < s1.len() ==> (#[trigger] s1[k]).position == s2[k].position,
    ensures
        ast_hit(p, s1) == ast_hit(p, s2),
{
    if ast_hit(p, s1) {
        let k = choose|k: int| 0 <= k < s1.len() && in_hit_box(p, s1[k].position);
        assert(in_hit_box(p, s2[k].position));
        assert(ast_hit(p, s2));
    }
    if ast_hit(p, s2) {
        let k = choose|k: int| 0 <= k < s2.len() && in_hit_box(p, s2[k].position);
        assert(in_hit_box(p, s1[k].position));
        assert(ast_hit(p, s1));
    }
}

/// One more drawn asteroid extends the set of projectiles it can flag by
/// exactly its own hit box.
proof fn lemma_flagged_by_push(asts: Seq<Asteroid>, a: Asteroid, bpos: Vec2)
    ensures
        bullet_flagged_by(asts.push(a), bpos) == (bullet_flagged_by(asts, bpos) || in_hit_box(
            a.position,
            bpos,
        )),
{
    if bullet_flagged_by(asts, bpos) {
        let j = choose|j: int| 0 <= j < asts.len() && in_hit_box(asts[j].position, bpos);
        assert(asts.push(a)[j] == asts[j]);
        assert(bullet_flagged_by(asts.push(a), bpos));
    }
    if in_hit_box(a.position, bpos) {
        assert(asts.push(a)[asts.len() as int] == a);
        assert(bullet_flagged_by(asts.push(a), bpos));
    }
    if bullet_flagged_by(asts.push(a), bpos) {
        let j = choose|j: int|
            0 <= j < asts.push(a).len() && in_hit_box(asts.push(a)[j].position, bpos);
        if j < asts.len() {
            assert(asts.push(a)[j] == asts[j]);
            assert(bullet_flagged_by(asts, bpos));
        } else {
            assert(asts.push(a)[j] == a);
        }
    }
}

/// One more drawn asteroid extends the player-overlap test by exactly
/// its own hit box.
proof fn lemma_player_hit_push(asts: Seq<Asteroid>, a: Asteroid, c: Vec2)
    ensures
        player_hit(asts.push(a), c) == (player_hit(asts, c) || in_player_box(a.position, c)),
{
    if player_hit(asts, c) {
        let j = choose|j: int| 0 <= j < asts.len() && in_player_box(asts[j].position, c);
        assert(asts.push(a)[j] == asts[j]);
        assert(player_hit(asts.push(a), c));
    }
    if in_player_box(a.position, c) {
        assert(asts.push(a)[asts.len() as int] == a);
        assert(player_hit(asts.push(a), c));
    }
    if player_hit(asts.push(a), c) {
        let j = choose|j: int|
            0 <= j < asts.push(a).len() && in_player_box(asts.push(a)[j].position, c);
        if j < asts.len() {
            assert(asts.push(a)[j] == asts[j]);
            assert(player_hit(asts, c));
        } else {
            assert(asts.push(a)[j] == a);
        }
    }
}

} // verus!
