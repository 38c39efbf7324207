use asteroids::asteroid::Asteroid;
use asteroids::bullet::Bullet;
use asteroids::game::Game;
use asteroids::geom::Vec2;
use asteroids::player::Direction;

fn sample_player() -> asteroids::player::Player {
    Game::new(1_000_000, 1_000_000).player
}

#[test]
fn rotate_round_trip_restores_hull_and_angle() {
    let mut p = sample_player();
    let before = p;
    p.rotate(false);
    p.rotate(true);
    assert_eq!(p, before);
    p.rotate(true);
    p.rotate(false);
    assert_eq!(p, before);
}

#[test]
fn rotate_steps_angle_by_two_degrees() {
    let mut p = sample_player();
    assert_eq!(p.angle, 90);
    p.rotate(false);
    assert_eq!(p.angle, 88);
    assert_eq!(p.hull_turn, 2);
    p.rotate(true);
    assert_eq!(p.angle, 90);
    assert_eq!(p.hull_turn, 0);
    p.rotate(true);
    assert_eq!(p.angle, 92);
    assert_eq!(p.hull_turn, 358);
}

#[test]
fn rotate_wraps_angle_around_zero() {
    let mut p = sample_player();
    p.angle = 0;
    p.rotate(false);
    assert_eq!(p.angle, 358);
    p.rotate(true);
    assert_eq!(p.angle, 0);
}

#[test]
fn thrust_at_start_moves_straight_up() {
    let mut p = sample_player();
    let before = p.pos;
    p.move_player(Direction::Thrust);
    assert_eq!(p.pos.x, before.x);
    assert_eq!(p.pos.y, before.y - 2_000);
}

#[test]
fn thrust_couples_axes_to_cos_and_sin() {
    let mut p = sample_player();
    p.angle = 300;
    let before = p.pos;
    p.move_player(Direction::Thrust);
    assert_eq!(p.pos.x, before.x + 1_000);
    assert_eq!(p.pos.y, before.y + 1_732);
}

#[test]
fn center_is_the_centroid_position() {
    let p = sample_player();
    assert_eq!(p.center(), p.pos);
}

#[test]
fn hull_points_start_from_base_offsets() {
    let p = sample_player();
    let (a, b, c) = p.hull_points();
    assert_eq!(a, Vec2 { x: 500_000, y: 500_000 });
    assert_eq!(b, Vec2 { x: 510_000, y: 520_001 });
    assert_eq!(c, Vec2 { x: 490_000, y: 520_001 });
}

#[test]
fn player_wrap_round_trips_exactly() {
    let w: i64 = 800_000;
    let h: i64 = 600_000;
    let mut p = sample_player();
    let before = p;
    p.teleport(1, w, h);
    assert_eq!(p.pos.y, before.pos.y + h);
    p.teleport(3, w, h);
    assert_eq!(p, before);
    p.teleport(2, w, h);
    p.teleport(4, w, h);
    assert_eq!(p, before);
}

#[test]
fn asteroid_wrap_round_trips_exactly() {
    let w: i64 = 800_000;
    let h: i64 = 600_000;
    let mut a = Asteroid {
        position: Vec2 { x: 100_000, y: 200_000 },
        rotation: 0,
        velocity: Vec2 { x: 500, y: -500 },
        sides: 8,
        radius: 75_000,
        collision: false,
    };
    let before = a;
    a.teleport(4, w, h);
    assert_eq!(a.position.x, before.position.x + w);
    a.teleport(2, w, h);
    assert_eq!(a, before);
    a.teleport(3, w, h);
    a.teleport(1, w, h);
    assert_eq!(a, before);
}

#[test]
fn bullet_motion_keeps_frozen_direction() {
    let mut b = Bullet {
        position: Vec2 { x: 100_000, y: 100_000 },
        velocity: Vec2 { x: 5_000, y: 5_000 },
        width: 5_000,
        height: 10_000,
        sin: 0,
        cos: 1_000,
        collision: false,
    };
    b.move_bullet();
    assert_eq!(b.position, Vec2 { x: 105_000, y: 100_000 });
    assert_eq!(b.cos, 1_000);
    assert_eq!(b.sin, 0);
    b.move_bullet();
    assert_eq!(b.position, Vec2 { x: 110_000, y: 100_000 });
    assert_eq!(b.cos, 1_000);
    assert_eq!(b.sin, 0);
}

#[test]
fn bullet_motion_truncates_toward_zero() {
    let mut b = Bullet {
        position: Vec2 { x: 0, y: 0 },
        velocity: Vec2 { x: 1_500, y: 1_500 },
        width: 5_000,
        height: 10_000,
        sin: -499,
        cos: 499,
        collision: false,
    };
    b.move_bullet();
    assert_eq!(b.position, Vec2 { x: 748, y: -748 });
}

#[test]
fn bullet_expiry_is_strictly_outside_the_viewport() {
    let mk = |x: i64, y: i64| Bullet {
        position: Vec2 { x, y },
        velocity: Vec2 { x: 0, y: 0 },
        width: 5_000,
        height: 10_000,
        sin: 0,
        cos: 0,
        collision: false,
    };
    let w: i64 = 800_000;
    let h: i64 = 600_000;
    assert!(!mk(0, 0).expired(w, h));
    assert!(!mk(w, h).expired(w, h));
    assert!(mk(-1, 0).expired(w, h));
    assert!(mk(0, -1).expired(w, h));
    assert!(mk(w + 1, 0).expired(w, h));
    assert!(mk(0, h + 1).expired(w, h));
}

#[test]
fn fire_gate_needs_the_full_delay() {
    assert!(!Bullet::pause_bullet_fire(299, 0));
    assert!(Bullet::pause_bullet_fire(300, 0));
    assert!(!Bullet::pause_bullet_fire(1_000, 800));
    assert!(Bullet::pause_bullet_fire(1_100, 800));
}

#[test]
fn shoot_spawns_at_first_vertex_with_frozen_trig() {
    let mut p = sample_player();
    p.angle = 0;
    let b = p.shoot(Vec2 { x: 5_000, y: 5_000 }, 5_000, 10_000);
    let (a, _, _) = p.hull_points();
    assert_eq!(b.position, a);
    assert_eq!(b.cos, 1_000);
    assert_eq!(b.sin, 0);
    assert!(!b.collision);
    assert_eq!(b.width, 5_000);
    assert_eq!(b.height, 10_000);
    // later rotations of the ship leave the projectile's direction alone
    p.rotate(false);
    p.rotate(false);
    assert_eq!(b.cos, 1_000);
    assert_eq!(b.sin, 0);
}

#[test]
fn spawn_respects_its_promised_ranges() {
    let w: i64 = 800_000;
    let h: i64 = 600_000;
    for _ in 0..32 {
        let a = Asteroid::spawn(8, w, h);
        assert_eq!(a.sides, 8);
        assert_eq!(a.radius, 75_000);
        assert!(!a.collision);
        assert!(-1_500 <= a.velocity.x && a.velocity.x <= 1_500);
        assert!(-1_500 <= a.velocity.y && a.velocity.y <= 1_500);
        assert!(0 <= a.rotation && a.rotation < 360_000);
        let p = a.position;
        let on_edge = (p.y == 0 && 0 <= p.x && p.x <= w)
            || (p.x == w && 0 <= p.y && p.y <= h)
            || (p.y == h && 0 <= p.x && p.x <= w)
            || (p.x == 0 && 0 <= p.y && p.y <= h);
        assert!(on_edge);
    }
}

#[test]
fn collision_boundary_is_inclusive_at_55_pixels() {
    let mut ast = Asteroid {
        position: Vec2 { x: 100_000, y: 100_000 },
        rotation: 0,
        velocity: Vec2 { x: 0, y: 0 },
        sides: 8,
        radius: 75_000,
        collision: false,
    };
    let mk = |x: i64, y: i64| Bullet {
        position: Vec2 { x, y },
        velocity: Vec2 { x: 0, y: 0 },
        width: 5_000,
        height: 10_000,
        sin: 0,
        cos: 0,
        collision: false,
    };
    let mut player = Game::new(10_000_000, 10_000_000).player;
    let mut bullets = vec![mk(155_000, 100_000), mk(155_001, 100_000)];
    ast.collision_check(&mut player, &mut bullets);
    assert!(ast.collision);
    assert!(bullets[0].collision);
    assert!(!bullets[1].collision);
    assert!(!player.collision);
}

#[test]
fn player_collision_boundary_is_inclusive_at_60_pixels() {
    let mk_ast = |x: i64| Asteroid {
        position: Vec2 { x, y: 0 },
        rotation: 0,
        velocity: Vec2 { x: 0, y: 0 },
        sides: 8,
        radius: 75_000,
        collision: false,
    };
    let mut player = Game::new(1_000_000, 1_000_000).player;
    player.pos = Vec2 { x: 60_000, y: 0 };
    let mut bullets: Vec<Bullet> = vec![];
    let mut near = mk_ast(0);
    near.collision_check(&mut player, &mut bullets);
    assert!(player.collision);
    // a player hit flags the asteroid it ran into as well
    assert!(near.collision);

    let mut player2 = Game::new(1_000_000, 1_000_000).player;
    player2.pos = Vec2 { x: 60_001, y: 0 };
    let mut far = mk_ast(0);
    far.collision_check(&mut player2, &mut bullets);
    assert!(!player2.collision);
    assert!(!far.collision);
}

#[test]
fn fragmentation_yields_two_smaller_children_at_exact_offsets() {
    let parent = Asteroid {
        position: Vec2 { x: 0, y: 0 },
        rotation: 0,
        velocity: Vec2 { x: 700, y: -300 },
        sides: 8,
        radius: 75_000,
        collision: true,
    };
    let mut survivors: Vec<Asteroid> = vec![];
    parent.fragment(&mut survivors, 800_000, 600_000);
    assert_eq!(survivors.len(), 2);
    let c1 = survivors[0];
    let c2 = survivors[1];
    assert_eq!(c1.sides, 7);
    assert_eq!(c2.sides, 7);
    assert_eq!(c1.position, Vec2 { x: -40_000, y: -40_000 });
    assert_eq!(c2.position, Vec2 { x: 40_000, y: 40_000 });
    assert_eq!(c1.velocity, Vec2 { x: -700, y: 300 });
    assert_eq!(c2.velocity, Vec2 { x: 700, y: -300 });
    assert!(!c1.collision);
    assert!(!c2.collision);
    assert_eq!(c1.radius, 75_000);
    assert_eq!(c2.radius, 75_000);
}

#[test]
fn small_flagged_asteroids_leave_no_children() {
    let small = Asteroid {
        position: Vec2 { x: 500_000, y: 500_000 },
        rotation: 0,
        velocity: Vec2 { x: 0, y: 0 },
        sides: 4,
        radius: 75_000,
        collision: true,
    };
    let mut v = vec![small];
    Asteroid::spawn_extra(&mut v, 800_000, 600_000);
    assert_eq!(v.len(), 1);
}

#[test]
fn one_collision_then_removal_step_fragments_once() {
    // a resting player far away, an asteroid and a projectile both at the
    // origin: one collision pass flags both, and the sweep appends exactly
    // two seven-sided children at minus and plus forty pixels
    let mut ast = Asteroid {
        position: Vec2 { x: 0, y: 0 },
        rotation: 0,
        velocity: Vec2 { x: 0, y: 0 },
        sides: 8,
        radius: 75_000,
        collision: false,
    };
    let mut player = Game::new(10_000_000, 10_000_000).player;
    let mut bullets = vec![Bullet {
        position: Vec2 { x: 0, y: 0 },
        velocity: Vec2 { x: 0, y: 0 },
        width: 5_000,
        height: 10_000,
        sin: 0,
        cos: 0,
        collision: false,
    }];
    ast.collision_check(&mut player, &mut bullets);
    assert!(ast.collision);
    assert!(bullets[0].collision);
    assert!(!player.collision);

    let mut field = vec![ast];
    Asteroid::spawn_extra(&mut field, 10_000_000, 10_000_000);
    assert_eq!(field.len(), 3);
    assert_eq!(field[1].sides, 7);
    assert_eq!(field[2].sides, 7);
    assert_eq!(field[1].position, Vec2 { x: -40_000, y: -40_000 });
    assert_eq!(field[2].position, Vec2 { x: 40_000, y: 40_000 });
}
