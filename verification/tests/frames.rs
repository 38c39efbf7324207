use asteroids::asteroid::Asteroid;
use asteroids::bullet::Bullet;
use asteroids::game::{Game, Input, Status};
use asteroids::geom::Vec2;

const W: i64 = 10_000_000;
const H: i64 = 10_000_000;

fn idle() -> Input {
    Input { rotate_left: false, rotate_right: false, thrust: false, fire: false }
}

fn firing() -> Input {
    Input { rotate_left: false, rotate_right: false, thrust: false, fire: true }
}

fn resting_asteroid(x: i64, y: i64, sides: u8) -> Asteroid {
    Asteroid {
        position: Vec2 { x, y },
        rotation: 0,
        velocity: Vec2 { x: 0, y: 0 },
        sides,
        radius: 75_000,
        collision: false,
    }
}

#[test]
fn new_game_starts_centred_and_running() {
    let g = Game::new(W, H);
    assert_eq!(g.status, Status::Running);
    assert_eq!(g.score, 0);
    assert_eq!(g.fire_time, 0);
    assert!(g.bullets.is_empty());
    assert!(g.asteroids.is_empty());
    assert_eq!(g.player.angle, 90);
    assert_eq!(g.player.rotation, 2);
    assert_eq!(g.player.pos, Vec2 { x: W / 2, y: H / 2 + 13_334 });
    assert!(!g.player.collision);
}

#[test]
fn fire_attempts_inside_the_delay_yield_one_projectile() {
    let mut g = Game::new(W, H);
    let r1 = g.frame(firing(), W, H, 1_000);
    assert!(r1.is_some());
    assert_eq!(g.bullets.len(), 1);
    assert_eq!(g.fire_time, 1_000);
    let r2 = g.frame(firing(), W, H, 1_200);
    assert!(r2.is_some());
    assert_eq!(g.bullets.len(), 1);
    assert_eq!(g.fire_time, 1_000);
    let r3 = g.frame(firing(), W, H, 1_400);
    assert!(r3.is_some());
    assert_eq!(g.bullets.len(), 2);
    assert_eq!(g.fire_time, 1_400);
}

#[test]
fn population_below_minimum_reaches_exactly_six_after_the_spawn_step() {
    let mut g = Game::new(W, H);
    for k in 0..5 {
        g.asteroids.push(resting_asteroid(2_000_000 + 200_000 * k, 2_000_000, 8));
    }
    let r = g.frame(idle(), W, H, 0);
    assert!(r.is_some());
    assert_eq!(g.asteroids.len(), 6);
    assert_eq!(g.score, 0);
    assert_eq!(g.status, Status::Running);
    // the five resting asteroids were untouched by the frame
    for k in 0..5usize {
        assert_eq!(g.asteroids[k].position, Vec2 { x: 2_000_000 + 200_000 * k as i64, y: 2_000_000 });
        assert_eq!(g.asteroids[k].sides, 8);
        assert!(!g.asteroids[k].collision);
    }
}

#[test]
fn full_population_spawns_nothing() {
    let mut g = Game::new(W, H);
    for k in 0..6 {
        g.asteroids.push(resting_asteroid(2_000_000 + 200_000 * k, 2_000_000, 8));
    }
    let r = g.frame(idle(), W, H, 0);
    assert!(r.is_some());
    assert_eq!(g.asteroids.len(), 6);
}

#[test]
fn player_collision_emits_one_last_frame_then_terminates() {
    let mut g = Game::new(W, H);
    g.asteroids.push(resting_asteroid(W / 2, H / 2 + 13_334, 8));
    let r = g.frame(idle(), W, H, 0);
    assert!(r.is_some());
    assert!(g.player.collision);
    assert_eq!(g.status, Status::Terminated);
    // the killer asteroid is flagged too: scored, removed, fragmented
    assert_eq!(g.score, 1);
    assert_eq!(g.asteroids.len(), 3);
    assert_eq!(g.asteroids[1].sides, 7);
    assert_eq!(g.asteroids[2].sides, 7);
    let score_after = g.score;
    let asteroids_after = g.asteroids.len();
    // the loop is over: a later frame changes nothing and emits nothing
    let r2 = g.frame(idle(), W, H, 100);
    assert!(r2.is_none());
    assert_eq!(g.score, score_after);
    assert_eq!(g.asteroids.len(), asteroids_after);
    assert_eq!(g.status, Status::Terminated);
}

#[test]
fn a_hit_scores_fragments_and_removes_the_projectile_next_frame() {
    let mut g = Game::new(W, H);
    g.asteroids.push(resting_asteroid(2_000_000, 2_000_000, 8));
    g.bullets.push(Bullet {
        position: Vec2 { x: 2_000_000, y: 2_000_000 },
        velocity: Vec2 { x: 0, y: 0 },
        width: 5_000,
        height: 10_000,
        sin: 0,
        cos: 0,
        collision: false,
    });
    let r = g.frame(idle(), W, H, 0).unwrap();
    assert_eq!(g.score, 1);
    assert_eq!(r.score, 1);
    // the survivors are the fresh spawn and the two fragments, in order
    assert_eq!(g.asteroids.len(), 3);
    assert_eq!(g.asteroids[1].sides, 7);
    assert_eq!(g.asteroids[2].sides, 7);
    assert_eq!(g.asteroids[1].position, Vec2 { x: 1_960_000, y: 1_960_000 });
    assert_eq!(g.asteroids[2].position, Vec2 { x: 2_040_000, y: 2_040_000 });
    assert!(!g.asteroids[0].collision);
    // the struck projectile is still listed this frame, flagged
    assert_eq!(g.bullets.len(), 1);
    assert!(g.bullets[0].collision);
    // and the next frame's projectile step removes it
    let r2 = g.frame(idle(), W, H, 400);
    assert!(r2.is_some());
    assert_eq!(g.bullets.len(), 0);
    assert_eq!(g.score, 1);
}

#[test]
fn render_frame_reports_the_drawn_state() {
    let mut g = Game::new(W, H);
    let r = g.frame(idle(), W, H, 0).unwrap();
    // one asteroid was spawned and drawn; the hull matches the ship
    assert_eq!(r.asteroids.len(), 1);
    assert_eq!(r.score, 0);
    assert!(r.bullets.is_empty());
    let (a, b, c) = g.player.hull_points();
    assert_eq!(r.hull_a, a);
    assert_eq!(r.hull_b, b);
    assert_eq!(r.hull_c, c);
}

#[test]
fn steering_via_frames_rotates_and_thrusts_the_ship() {
    let mut g = Game::new(W, H);
    let left = Input { rotate_left: true, rotate_right: false, thrust: false, fire: false };
    let right = Input { rotate_left: false, rotate_right: true, thrust: false, fire: false };
    let up = Input { rotate_left: false, rotate_right: false, thrust: true, fire: false };
    let _ = g.frame(left, W, H, 0);
    assert_eq!(g.player.angle, 88);
    let _ = g.frame(right, W, H, 0);
    assert_eq!(g.player.angle, 90);
    let before = g.player.pos;
    let _ = g.frame(up, W, H, 0);
    assert_eq!(g.player.pos, Vec2 { x: before.x, y: before.y - 2_000 });
}

#[test]
fn player_wraps_across_the_top_edge() {
    let mut g = Game::new(W, H);
    g.player.pos = Vec2 { x: W / 2, y: 400 };
    let _ = g.frame(idle(), W, H, 0);
    assert_eq!(g.player.pos, Vec2 { x: W / 2, y: 400 + H });
}

#[test]
fn wrap_pulls_a_drifting_asteroid_back_on_screen() {
    let mut g = Game::new(W, H);
    let mut a = resting_asteroid(500, 2_000_000, 8);
    a.velocity = Vec2 { x: -600, y: 0 };
    g.asteroids.push(a);
    let _ = g.frame(idle(), W, H, 0);
    // it drifted past the left edge and reappeared one width to the right
    assert_eq!(g.asteroids[0].position, Vec2 { x: W - 100, y: 2_000_000 });
}
