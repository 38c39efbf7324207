use vstd::prelude::*;
use crate::bullet::Bullet;
use crate::geom::{Vec2, ARITH_MAX, DIM_MAX, DIM_MIN, VEL_MAX};
use crate::player::Player;
use crate::rng::rand_in_range;

verus! {

/// Fixed display radius of every asteroid, milli-units (75 px).
pub const AST_RADIUS: i64 = 75_000;

/// Magnitude bound of a freshly spawned asteroid's velocity per axis,
/// milli-units per frame (1.5 px).
pub const AST_VEL_RANGE: i64 = 1_500;

/// How far each fragment is displaced from its destroyed parent on both
/// axes, milli-units (40 px).
pub const FRAG_OFFSET: i64 = 40_000;

/// Half-extent of the asteroid-projectile hit box, milli-units (55 px).
pub const HIT_BULLET: i64 = 55_000;

/// Half-extent of the asteroid-player hit box, milli-units (60 px).
pub const HIT_PLAYER: i64 = 60_000;

/// A drifting polygonal asteroid.
#[derive(Clone, Copy, Debug, PartialEq, Eq, Structural)]
pub struct Asteroid {
    /// Position, milli-units.
    pub position: Vec2,
    /// Rendering orientation, milli-degrees; never read by the physics.
    pub rotation: i64,
    /// Velocity, milli-units per frame.
    pub velocity: Vec2,
    /// Polygon side count, 8 down to 3; drops by one per fragmentation.
    pub sides: u8,
    /// Display radius, milli-units.
    pub radius: i64,
    /// Set when a projectile hits or the player runs into it; the
    /// asteroid is removed the same frame.
    pub collision: bool,
}

/// Whether a point lies on the border of the viewport rectangle: where
/// fresh asteroids appear.
pub open spec fn on_edge(p: Vec2, w: int, h: int) -> bool {
    ||| (p.y == 0 && 0 <= p.x <= w)
    ||| (p.x == w && 0 <= p.y <= h)
    ||| (p.y == h && 0 <= p.x <= w)
    ||| (p.x == 0 && 0 <= p.y <= h)
}

/// An asteroid after one frame of drift.
pub open spec fn moved_asteroid(a: Asteroid) -> Asteroid {
    Asteroid {
        position: Vec2 {
            x: ((a.position.x + a.velocity.x) as i64),
            y: ((a.position.y + a.velocity.y) as i64),
        },
        ..a
    }
}

/// An asteroid translated to the opposite viewport edge: edge 1 is the
/// top (moved down by the height), 2 the right, 3 the bottom, 4 the left.
pub open spec fn teleported_asteroid(a: Asteroid, side: u8, w: int, h: int) -> Asteroid {
    if side == 1 {
        Asteroid { position: Vec2 { x: a.position.x, y: ((a.position.y + h) as i64) }, ..a }
    } else if side == 2 {
        Asteroid { position: Vec2 { x: ((a.position.x - w) as i64), y: a.position.y }, ..a }
    } else if side == 3 {
        Asteroid { position: Vec2 { x: a.position.x, y: ((a.position.y - h) as i64) }, ..a }
    } else if side == 4 {
        Asteroid { position: Vec2 { x: ((a.position.x + w) as i64), y: a.position.y }, ..a }
    } else {
        a
    }
}

/// Whether a projectile at `b` lies in the hit box around an asteroid at
/// `a`.
pub open spec fn in_hit_box(a: Vec2, b: Vec2) -> bool {
    &&& a.x - HIT_BULLET <= b.x <= a.x + HIT_BULLET
    &&& a.y - HIT_BULLET <= b.y <= a.y + HIT_BULLET
}

/// Whether the player's centroid `c` lies in the hit box around an
/// asteroid at `a`.
pub open spec fn in_player_box(a: Vec2, c: Vec2) -> bool {
    &&& a.x - HIT_PLAYER <= c.x <= a.x + HIT_PLAYER
    &&& a.y - HIT_PLAYER <= c.y <= a.y + HIT_PLAYER
}

/// Whether any of the projectiles lies in the hit box around `p`.
pub open spec fn ast_hit(p: Vec2, bullets: Seq<Bullet>) -> bool {
    exists|k: int| 0 <= k < bullets.len() && in_hit_box(p, bullets[k].position)
}

/// A destroyed asteroid that still fragments: flagged, with at least
/// five sides.
pub open spec fn flagged_big(a: Asteroid) -> bool {
    a.collision && a.sides >= 5
}

/// How many of the asteroids carry a collision flag.
pub open spec fn count_flagged(s: Seq<Asteroid>) -> int
    decreases s.len(),
{
    if s.len() == 0 {
        0
    } else {
        count_flagged(s.drop_last()) + if s.last().collision {
            1int
        } else {
            0int
        }
    }
}

/// How many of the asteroids are flagged and still fragment.
pub open spec fn count_flagged_big(s: Seq<Asteroid>) -> int
    decreases s.len(),
{
    if s.len() == 0 {
        0
    } else {
        count_flagged_big(s.drop_last()) + if flagged_big(s.last()) {
            1int
        } else {
            0int
        }
    }
}

/// The asteroids that carry no flag, in their original order: the
/// survivors of a removal pass.
pub open spec fn unflagged(s: Seq<Asteroid>) -> Seq<Asteroid>
    decreases s.len(),
{
    if s.len() == 0 {
        Seq::empty()
    } else {
        let rest = unflagged(s.drop_last());
        if !s.last().collision {
            rest.push(s.last())
        } else {
            rest
        }
    }
}

/// The exact shape of the two fragments of a destroyed parent: one side
/// fewer each, displaced by minus and plus the fragment offset, the
/// first with the parent's velocity negated on both axes, the second
/// with it kept; orientation is freshly sampled, so only its range is
/// fixed.
pub open spec fn child_pair(parent: Asteroid, c1: Asteroid, c2: Asteroid) -> bool {
    &&& c1.sides == parent.sides - 1
    &&& c2.sides == parent.sides - 1
    &&& c1.position.x == parent.position.x - FRAG_OFFSET
    &&& c1.position.y == parent.position.y - FRAG_OFFSET
    &&& c2.position.x == parent.position.x + FRAG_OFFSET
    &&& c2.position.y == parent.position.y + FRAG_OFFSET
    &&& c1.velocity.x == -parent.velocity.x
    &&& c1.velocity.y == -parent.velocity.y
    &&& c2.velocity == parent.velocity
    &&& !c1.collision
    &&& !c2.collision
    &&& c1.radius == AST_RADIUS
    &&& c2.radius == AST_RADIUS
    &&& 0 <= c1.rotation < 360_000
    &&& 0 <= c2.rotation < 360_000
}

/// The fragments of the parents `parents[i..n]`, in order, are exactly
/// `news[j..]`: every flagged parent with five or more sides contributes
/// its two children, every other parent contributes nothing, and the
/// children end exactly at the end of `news`.
pub open spec fn frag_seg(
    parents: Seq<Asteroid>,
    i: int,
    n: int,
    news: Seq<Asteroid>,
    j: int,
) -> bool
    decreases n - i,
{
    if i >= n {
        j == news.len()
    } else if flagged_big(parents[i]) {
        &&& j + 2 <= news.len()
        &&& 0 <= j
        &&& child_pair(parents[i], news[j], news[j + 1])
        &&& frag_seg(parents, i + 1, n, news, j + 2)
    } else {
        frag_seg(parents, i + 1, n, news, j)
    }
}

/// Appending the two children of one further flagged parent extends a
/// fragment segment by one parent.
pub proof fn lemma_frag_seg_extend_hit(
    parents: Seq<Asteroid>,
    i: int,
    n: int,
    news: Seq<Asteroid>,
    j: int,
    c1: Asteroid,
    c2: Asteroid,
)
    requires
        0 <= i <= n < parents.len(),
        0 <= j,
        frag_seg(parents, i, n, news, j),
        flagged_big(parents[n]),
        child_pair(parents[n], c1, c2),
    ensures
        frag_seg(parents, i, n + 1, news.push(c1).push(c2), j),
    decreases n - i,
{
    let news2 = news.push(c1).push(c2);
    if i >= n {
        assert(j == news.len());
        assert(news2[j] == c1);
        assert(news2[j + 1] == c2);
        assert(news2.len() == j + 2);
        assert(frag_seg(parents, n + 1, n + 1, news2, j + 2));
        assert(frag_seg(parents, i, n + 1, news2, j));
    } else {
        if flagged_big(parents[i]) {
            assert(j + 2 <= news.len() && child_pair(parents[i], news[j], news[j + 1])
                && frag_seg(parents, i + 1, n, news, j + 2));
            assert(news2[j] == news[j]);
            assert(news2[j + 1] == news[j + 1]);
            lemma_frag_seg_extend_hit(parents, i + 1, n, news, j + 2, c1, c2);
            assert(frag_seg(parents, i, n + 1, news2, j));
        } else {
            assert(frag_seg(parents, i + 1, n, news, j));
            lemma_frag_seg_extend_hit(parents, i + 1, n, news, j, c1, c2);
            assert(frag_seg(parents, i, n + 1, news2, j));
        }
    }
}

/// A parent that does not fragment extends a fragment segment without
/// touching the children.
pub proof fn lemma_frag_seg_extend_miss(
    parents: Seq<Asteroid>,
    i: int,
    n: int,
    news: Seq<Asteroid>,
    j: int,
)
    requires
        0 <= i <= n < parents.len(),
        0 <= j,
        frag_seg(parents, i, n, news, j),
        !flagged_big(parents[n]),
    ensures
        frag_seg(parents, i, n + 1, news, j),
    decreases n - i,
{
    if i >= n {
        assert(j == news.len());
        assert(frag_seg(parents, n + 1, n + 1, news, j));
        assert(frag_seg(parents, i, n + 1, news, j));
    } else {
        if flagged_big(parents[i]) {
            assert(j + 2 <= news.len() && child_pair(parents[i], news[j], news[j + 1])
                && frag_seg(parents, i + 1, n, news, j + 2));
            lemma_frag_seg_extend_miss(parents, i + 1, n, news, j + 2);
            assert(frag_seg(parents, i, n + 1, news, j));
        } else {
            assert(frag_seg(parents, i + 1, n, news, j));
            lemma_frag_seg_extend_miss(parents, i + 1, n, news, j);
            assert(frag_seg(parents, i, n + 1, news, j));
        }
    }
}

/// A fragment segment reads only the parents it indexes, so any parent
/// sequence that agrees on that range carries the same segment.
pub proof fn lemma_frag_seg_parents_ext(
    p1: Seq<Asteroid>,
    p2: Seq<Asteroid>,
    i: int,
    n: int,
    news: Seq<Asteroid>,
    j: int,
)
    requires
        0 <= i <= n,
        n <= p1.len(),
        n <= p2.len(),
        forall|k: int| i <= k < n ==> p1[k] == p2[k],
        frag_seg(p1, i, n, news, j),
    ensures
        frag_seg(p2, i, n, news, j),
    decreases n - i,
{
    if i >= n {
    } else {
        assert(p1[i] == p2[i]);
        if flagged_big(p1[i]) {
            lemma_frag_seg_parents_ext(p1, p2, i + 1, n, news, j + 2);
        } else {
            lemma_frag_seg_parents_ext(p1, p2, i + 1, n, news, j);
        }
    }
}

/// Prepending survivors in front of the fragments shifts a fragment
/// segment by their number and nothing else.
pub proof fn lemma_frag_seg_prepend(
    parents: Seq<Asteroid>,
    i: int,
    n: int,
    news: Seq<Asteroid>,
    j: int,
    pre: Seq<Asteroid>,
)
    requires
        0 <= i <= n,
        n <= parents.len(),
        0 <= j,
        frag_seg(parents, i, n, news, j),
    ensures
        frag_seg(parents, i, n, pre + news, pre.len() + j),
    decreases n - i,
{
    if i >= n {
        assert((pre + news).len() == pre.len() + news.len());
    } else if flagged_big(parents[i]) {
        assert((pre + news)[pre.len() + j] == news[j]);
        assert((pre + news)[pre.len() + j + 1] == news[j + 1]);
        lemma_frag_seg_prepend(parents, i + 1, n, news, j + 2, pre);
    } else {
        lemma_frag_seg_prepend(parents, i + 1, n, news, j, pre);
    }
}

impl Asteroid {
    /// Bounded velocity and orientation, a renderable side count, and a
    /// positive radius.
    pub open spec fn wf(self) -> bool {
        &&& 3 <= self.sides <= 8
        &&& -VEL_MAX <= self.velocity.x <= VEL_MAX
        &&& -VEL_MAX <= self.velocity.y <= VEL_MAX
        &&& 0 < self.radius <= 1_000_000
        &&& 0 <= self.rotation < 360_000
    }

    /// Spawn a fresh asteroid: a uniformly chosen viewport edge, a
    /// uniform point along it, uniform orientation and velocity, the
    /// fixed radius and the given side count. Everything random is
    /// promised only by its range; the edge placement holds whichever
    /// edge was drawn.
    pub fn spawn(sides: u8, w: i64, h: i64) -> (r: Asteroid)
        requires
            3 <= sides <= 8,
            DIM_MIN <= w <= DIM_MAX,
            DIM_MIN <= h <= DIM_MAX,
        ensures
            r.wf(),
            r.sides == sides,
            r.radius == AST_RADIUS,
            !r.collision,
            -AST_VEL_RANGE <= r.velocity.x <= AST_VEL_RANGE,
            -AST_VEL_RANGE <= r.velocity.y <= AST_VEL_RANGE,
            0 <= r.rotation < 360_000,
            on_edge(r.position, w as int, h as int),
    {
        let edge: i64 = rand_in_range(1, 4);
        let rot: i64 = rand_in_range(0, 359_999);
        let vx: i64 = rand_in_range(-AST_VEL_RANGE, AST_VEL_RANGE);
        let vy: i64 = rand_in_range(-AST_VEL_RANGE, AST_VEL_RANGE);
        let mut x: i64 = 0;
        let mut y: i64 = 0;
        if edge == 1 {
            x = rand_in_range(0, w);
        } else if edge == 2 {
            x = w;
            y = rand_in_range(0, h);
        } else if edge == 3 {
            y = h;
            x = rand_in_range(0, w);
        } else {
            y = rand_in_range(0, h);
        }
        Asteroid {
            position: Vec2 { x: x, y: y },
            rotation: rot,
            velocity: Vec2 { x: vx, y: vy },
            sides: sides,
            radius: AST_RADIUS,
            collision: false,
        }
    }

    /// One frame of drift, unconditionally.
    pub fn move_asteroid(&mut self)
        requires
            old(self).wf(),
            -ARITH_MAX <= old(self).position.x <= ARITH_MAX,
            -ARITH_MAX <= old(self).position.y <= ARITH_MAX,
        ensures
            *final(self) == (moved_asteroid(*old(self))),
            final(self).wf(),
            old(self).position.x - VEL_MAX <= final(self).position.x
                <= old(self).position.x + VEL_MAX,
            old(self).position.y - VEL_MAX <= final(self).position.y
                <= old(self).position.y + VEL_MAX,
    {
        self.position = Vec2 {
            x: self.position.x + self.velocity.x,
            y: self.position.y + self.velocity.y,
        };
    }

    /// One toroidal wrap across the named viewport edge.
    pub fn teleport(&mut self, side: u8, w: i64, h: i64)
        requires
            1 <= side <= 4,
            DIM_MIN <= w <= DIM_MAX,
            DIM_MIN <= h <= DIM_MAX,
            -ARITH_MAX <= old(self).position.x <= ARITH_MAX,
            -ARITH_MAX <= old(self).position.y <= ARITH_MAX,
        ensures
            *final(self) == (teleported_asteroid(*old(self), side, w as int, h as int)),
    {
        if side == 1 {
            self.position = Vec2 { x: self.position.x, y: self.position.y + h };
        } else if side == 2 {
            self.position = Vec2 { x: self.position.x - w, y: self.position.y };
        } else if side == 3 {
            self.position = Vec2 { x: self.position.x, y: self.position.y - h };
        } else {
            self.position = Vec2 { x: self.position.x + w, y: self.position.y };
        }
    }

    /// Run this asteroid's collision pass: flag it and every projectile
    /// inside the projectile hit box, and flag both the player and
    /// itself when the player's centroid is inside the player hit box.
    /// Flags are only ever set, never cleared, and positions are
    /// untouched.
    pub fn collision_check(&mut self, player: &mut Player, bullet_vec: &mut Vec<Bullet>)
        requires
            -ARITH_MAX <= old(self).position.x <= ARITH_MAX,
            -ARITH_MAX <= old(self).position.y <= ARITH_MAX,
        ensures
            *final(self) == (Asteroid {
                collision: old(self).collision
                    || ast_hit(old(self).position, old(bullet_vec)@)
                    || in_player_box(old(self).position, old(player).pos),
                ..*old(self)
            }),
            final(bullet_vec)@.len() == old(bullet_vec)@.len(),
            forall|k: int|
                0 <= k < old(bullet_vec)@.len() ==> final(bullet_vec)@[k] == (Bullet {
                    collision: old(bullet_vec)@[k].collision
                        || in_hit_box(old(self).position, old(bullet_vec)@[k].position),
                    ..old(bullet_vec)@[k]
                }),
            *final(player) == (Player {
                collision: old(player).collision
                    || in_player_box(old(self).position, old(player).pos),
                ..*old(player)
            }),
    {
        let ast_pos = self.position;
        let n = bullet_vec.len();
        let mut j: usize = 0;
        while j < n
            invariant
                n == old(bullet_vec)@.len(),
                j <= n,
                -ARITH_MAX <= ast_pos.x <= ARITH_MAX,
                -ARITH_MAX <= ast_pos.y <= ARITH_MAX,
                bullet_vec@.len() == n,
                forall|k: int|
                    0 <= k < j ==> bullet_vec@[k] == (Bullet {
                        collision: old(bullet_vec)@[k].collision
                            || in_hit_box(ast_pos, old(bullet_vec)@[k].position),
                        ..old(bullet_vec)@[k]
                    }),
                forall|k: int| j <= k < n ==> bullet_vec@[k] == old(bullet_vec)@[k],
                self.position == old(self).position,
                self.rotation == old(self).rotation,
                self.velocity == old(self).velocity,
                self.sides == old(self).sides,
                self.radius == old(self).radius,
                ast_pos == old(self).position,
                self.collision == (old(self).collision || exists|k: int|
                    0 <= k < j && in_hit_box(ast_pos, old(bullet_vec)@[k].position)),
                *player == *old(player),
            decreases n - j,
        {
            let bp = bullet_vec[j].position;
            if ast_pos.x - HIT_BULLET <= bp.x && bp.x <= ast_pos.x + HIT_BULLET
                && ast_pos.y - HIT_BULLET <= bp.y && bp.y <= ast_pos.y + HIT_BULLET {
                self.collision = true;
                let mut b = bullet_vec[j];
                b.collision = true;
                bullet_vec[j] = b;
            }
            j += 1;
        }
        let c = player.center();
        if ast_pos.x - HIT_PLAYER <= c.x && c.x <= ast_pos.x + HIT_PLAYER
            && ast_pos.y - HIT_PLAYER <= c.y && c.y <= ast_pos.y + HIT_PLAYER {
            self.collision = true;
            player.collision = true;
        }
    }

    /// Fragment this destroyed asteroid: append exactly its two children
    /// to the survivors, one side fewer each, at the parent's position
    /// minus and plus the fragment offset, with the parent's velocity
    /// negated and kept respectively.
    pub fn fragment(&self, survivors: &mut Vec<Asteroid>, w: i64, h: i64)
        requires
            self.wf(),
            self.collision,
            self.sides >= 5,
            DIM_MIN <= w <= DIM_MAX,
            DIM_MIN <= h <= DIM_MAX,
            -ARITH_MAX <= self.position.x <= ARITH_MAX,
            -ARITH_MAX <= self.position.y <= ARITH_MAX,
        ensures
            final(survivors)@.len() == old(survivors)@.len() + 2,
            forall|i: int|
                0 <= i < old(survivors)@.len() ==> final(survivors)@[i] == old(survivors)@[i],
            child_pair(
                *self,
                final(survivors)@[old(survivors)@.len() as int],
                final(survivors)@[old(survivors)@.len() + 1int],
            ),
            final(survivors)@[old(survivors)@.len() as int].wf(),
            final(survivors)@[old(survivors)@.len() + 1int].wf(),
    {
        let mut one = Asteroid::spawn(self.sides - 1, w, h);
        one.position = Vec2 { x: self.position.x - FRAG_OFFSET, y: self.position.y - FRAG_OFFSET };
        one.velocity = Vec2 { x: -self.velocity.x, y: -self.velocity.y };
        let mut two = Asteroid::spawn(self.sides - 1, w, h);
        two.position = Vec2 { x: self.position.x + FRAG_OFFSET, y: self.position.y + FRAG_OFFSET };
        two.velocity = self.velocity;
        survivors.push(one);
        survivors.push(two);
    }

    /// Sweep a collection: every flagged asteroid with five or more
    /// sides appends its two fragments, in order of the parents; flagged
    /// asteroids with fewer sides produce nothing.
    pub fn spawn_extra(asteroid_vec: &mut Vec<Asteroid>, w: i64, h: i64)
        requires
            DIM_MIN <= w <= DIM_MAX,
            DIM_MIN <= h <= DIM_MAX,
            forall|i: int|
                0 <= i < old(asteroid_vec)@.len() ==> (#[trigger] old(asteroid_vec)@[i]).wf()
                    && -ARITH_MAX <= old(asteroid_vec)@[i].position.x <= ARITH_MAX
                    && -ARITH_MAX <= old(asteroid_vec)@[i].position.y <= ARITH_MAX,
        ensures
            forall|i: int|
                0 <= i < old(asteroid_vec)@.len() ==> final(asteroid_vec)@[i] == old(
                    asteroid_vec,
                )@[i],
            frag_seg(
                old(asteroid_vec)@,
                0,
                old(asteroid_vec)@.len() as int,
                final(asteroid_vec)@,
                old(asteroid_vec)@.len() as int,
            ),
            forall|i: int|
                old(asteroid_vec)@.len() <= i < final(asteroid_vec)@.len() ==> (
                #[trigger] final(asteroid_vec)@[i]).wf(),
    {
        let n = asteroid_vec.len();
        let mut i: usize = 0;
        while i < n
            invariant
                n == old(asteroid_vec)@.len(),
                i <= n,
                DIM_MIN <= w <= DIM_MAX,
                DIM_MIN <= h <= DIM_MAX,
                asteroid_vec@.len() >= n,
                forall|k: int| 0 <= k < n ==> asteroid_vec@[k] == old(asteroid_vec)@[k],
                forall|k: int|
                    0 <= k < n ==> (#[trigger] old(asteroid_vec)@[k]).wf()
                        && -ARITH_MAX <= old(asteroid_vec)@[k].position.x <= ARITH_MAX
                        && -ARITH_MAX <= old(asteroid_vec)@[k].position.y <= ARITH_MAX,
                frag_seg(old(asteroid_vec)@, 0, i as int, asteroid_vec@, n as int),
                forall|k: int|
                    n <= k < asteroid_vec@.len() ==> (#[trigger] asteroid_vec@[k]).wf(),
            decreases n - i,
        {
            let a = asteroid_vec[i];
            if a.collision && a.sides >= 5 {
                let ghost pre = asteroid_vec@;
                a.fragment(asteroid_vec, w, h);
                proof {
                    let c1 = asteroid_vec@[pre.len() as int];
                    let c2 = asteroid_vec@[pre.len() + 1int];
                    assert(asteroid_vec@ =~= pre.push(c1).push(c2));
                    lemma_frag_seg_extend_hit(
                        old(asteroid_vec)@,
                        0,
                        i as int,
                        pre,
                        n as int,
                        c1,
                        c2,
                    );
                }
            } else {
                proof {
                    lemma_frag_seg_extend_miss(old(asteroid_vec)@, 0, i as int, asteroid_vec@, n as int);
                }
            }
            i += 1;
        }
    }
}

} // verus!
