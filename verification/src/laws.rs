use vstd::prelude::*;
use crate::bullet::{fire_gate_open, moved_bullet, Bullet, FIRE_DELAY_MS};
use crate::geom::lemma_mod360_small;
use crate::geom::{ARITH_MAX, DIM_MAX, DIM_MIN};
use crate::player::{rotated, teleported, vertex_x, vertex_y, Player};
use crate::asteroid::{teleported_asteroid, Asteroid};

verus! {

/// A rotate input in one direction followed by one in the other returns
/// the ship exactly to its original hull and facing angle.
pub proof fn lemma_rotate_round_trip(p: Player)
    requires
        p.wf(),
    ensures
        rotated(rotated(p, false), true) == p,
        rotated(rotated(p, true), false) == p,
        vertex_x(rotated(rotated(p, false), true)) == vertex_x(p),
        vertex_y(rotated(rotated(p, false), true)) == vertex_y(p),
{
    lemma_mod360_small(p.angle + 360 - p.rotation);
    lemma_mod360_small(p.angle + p.rotation);
    lemma_mod360_small(p.hull_turn + p.rotation);
    lemma_mod360_small(p.hull_turn + 360 - p.rotation);
    let pl = rotated(p, false);
    lemma_mod360_small(pl.angle + pl.rotation);
    lemma_mod360_small(pl.hull_turn + 360 - pl.rotation);
    let pr = rotated(p, true);
    lemma_mod360_small(pr.angle + 360 - pr.rotation);
    lemma_mod360_small(pr.hull_turn + pr.rotation);
}

/// Wrapping the ship across one edge and then across the opposite edge
/// restores its position exactly, with no drift.
pub proof fn lemma_wrap_round_trip_player(p: Player, w: int, h: int)
    requires
        DIM_MIN <= w <= DIM_MAX,
        DIM_MIN <= h <= DIM_MAX,
        -ARITH_MAX <= p.pos.x <= ARITH_MAX,
        -ARITH_MAX <= p.pos.y <= ARITH_MAX,
    ensures
        teleported(teleported(p, 1, w, h), 3, w, h) == p,
        teleported(teleported(p, 3, w, h), 1, w, h) == p,
        teleported(teleported(p, 2, w, h), 4, w, h) == p,
        teleported(teleported(p, 4, w, h), 2, w, h) == p,
{
}

/// Wrapping an asteroid across one edge and then across the opposite
/// edge restores its position exactly, with no drift.
pub proof fn lemma_wrap_round_trip_asteroid(a: Asteroid, w: int, h: int)
    requires
        DIM_MIN <= w <= DIM_MAX,
        DIM_MIN <= h <= DIM_MAX,
        -ARITH_MAX <= a.position.x <= ARITH_MAX,
        -ARITH_MAX <= a.position.y <= ARITH_MAX,
    ensures
        teleported_asteroid(teleported_asteroid(a, 1, w, h), 3, w, h) == a,
        teleported_asteroid(teleported_asteroid(a, 3, w, h), 1, w, h) == a,
        teleported_asteroid(teleported_asteroid(a, 2, w, h), 4, w, h) == a,
        teleported_asteroid(teleported_asteroid(a, 4, w, h), 2, w, h) == a,
{
}

/// A projectile's frozen direction never changes under motion: the
/// stored cosine and sine survive any number of frames.
pub proof fn lemma_bullet_direction_frozen(b: Bullet)
    ensures
        moved_bullet(b).cos == b.cos,
        moved_bullet(b).sin == b.sin,
{
}

/// The fire-rate gate: after a shot at `t0`, a second attempt at `t1`
/// produces a projectile exactly when the delay has fully elapsed.
pub proof fn lemma_fire_rate_gate(t0: u64, t1: u64)
    requires
        t0 <= t1,
    ensures
        t1 - t0 < FIRE_DELAY_MS ==> !fire_gate_open(t1, t0),
        t1 - t0 >= FIRE_DELAY_MS ==> fire_gate_open(t1, t0),
{
}

} // verus!
