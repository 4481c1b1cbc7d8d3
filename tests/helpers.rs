use spaceship::actors::{Actor, Subtype, TypeActor};
use spaceship::helpers::{
    clamp_player, edge_point, lerp, make_rand_pos, position_to_direction, random_offscreen_position,
    smoothstep, Vec2, ONE, PLAYER_MARGIN, SCREEN_HEIGHT, SCREEN_WIDTH,
};

fn actor_at(tag: TypeActor, subtag: Subtype, position: Vec2) -> Actor {
    Actor {
        tag,
        subtag,
        velocity: Vec2::new(0, 0),
        speed: 0,
        attack_charge: 0,
        position,
        desired_pos: Vec2::new(0, 0),
        life_points: 0,
        box_size: 0,
        rotation: 0,
        facing: Vec2::new(0, 0),
    }
}

#[test]
fn test_position_to_direction() {
    let current = Vec2::new(0, 0);
    let desired = Vec2::new(3000, 4000);
    let direction = position_to_direction(current, desired);
    assert_eq!(direction.x, 600);
    assert_eq!(direction.y, 800);
}

#[test]
fn test_make_rand_pos() {
    let pos = make_rand_pos();
    assert!(pos.x >= 5000 && pos.x <= SCREEN_WIDTH);
    assert!(pos.y >= 0 && pos.y <= SCREEN_HEIGHT / 2);
}

#[test]
fn test_clamp_player() {
    let mut player = Actor {
        position: Vec2::new(-10_000, SCREEN_HEIGHT + 10_000),
        tag: TypeActor::Player,
        subtag: Subtype::BasicEnemy,
        velocity: Vec2::new(10_000, 10_000),
        speed: 0,
        attack_charge: 0,
        desired_pos: Vec2::new(0, 0),
        life_points: 0,
        box_size: 0,
        rotation: 0,
        facing: Vec2::new(0, 0),
    };
    clamp_player(&mut player);
    assert!(player.position.x >= 0 && player.position.x <= SCREEN_WIDTH - 4000);
    assert!(player.position.y >= 0 && player.position.y <= SCREEN_HEIGHT - 4000);
}

#[test]
fn test_random_offscreen_position() {
    let screen_width = SCREEN_WIDTH;
    let screen_height = SCREEN_HEIGHT;
    let pos = random_offscreen_position(screen_width, screen_height);
    let is_offscreen = pos.x < 0 || pos.x > screen_width || pos.y < 0 || pos.y > screen_height;
    assert!(is_offscreen);
}

#[test]
fn smoothstep_fixes_zero_half_and_one() {
    assert_eq!(smoothstep(0), 0);
    assert_eq!(smoothstep(ONE), ONE);
    assert_eq!(smoothstep(ONE / 2), ONE / 2);
}

#[test]
fn smoothstep_never_decreases_on_the_unit_interval() {
    let mut last = smoothstep(0);
    for t in 1..=ONE {
        let v = smoothstep(t);
        assert!(v >= last);
        last = v;
    }
}

#[test]
fn smoothstep_exact_values() {
    // 0.25² · (3 − 0.5) = 0.15625, rounded toward zero in thousandths
    assert_eq!(smoothstep(250), 156);
    // beyond one the cubic turns back: 1.5² · 0 = 0
    assert_eq!(smoothstep(1500), 0);
}

#[test]
fn direction_is_antisymmetric_and_unit() {
    let a = Vec2::new(12_345, -6_789);
    let b = Vec2::new(-400_000, 250_001);
    let d = position_to_direction(a, b);
    let e = position_to_direction(b, a);
    assert_eq!(d.x, -e.x);
    assert_eq!(d.y, -e.y);
    let sq = d.x * d.x + d.y * d.y;
    assert!(sq < (ONE + 1) * (ONE + 1));
    let ax = d.x.abs() + 1;
    let ay = d.y.abs() + 1;
    assert!(ax * ax + ay * ay > ONE * ONE);
}

#[test]
fn direction_between_equal_points_is_zero() {
    let a = Vec2::new(5, 5);
    assert_eq!(position_to_direction(a, a), Vec2::new(0, 0));
}

#[test]
fn rand_pos_stays_in_patrol_band() {
    for _ in 0..200 {
        let p = make_rand_pos();
        assert!(p.x >= 5000 && p.x < SCREEN_WIDTH);
        assert!(p.y >= 5000 && p.y < SCREEN_HEIGHT / 2);
    }
}

#[test]
fn offscreen_positions_lie_on_the_spawn_lines() {
    for _ in 0..200 {
        let p = random_offscreen_position(SCREEN_WIDTH, SCREEN_HEIGHT);
        let left = p.x == -50_000 && p.y >= 0 && p.y < SCREEN_HEIGHT;
        let right = p.x == SCREEN_WIDTH + 50_000 && p.y >= 0 && p.y < SCREEN_HEIGHT;
        let top = p.y == -50_000 && p.x >= 0 && p.x < SCREEN_WIDTH;
        let bottom = p.y == SCREEN_HEIGHT + 50_000 && p.x >= 0 && p.x < SCREEN_WIDTH;
        assert!(left || right || top || bottom);
    }
}

#[test]
fn edge_points_for_each_edge() {
    assert_eq!(edge_point(0, 7, 100, 200), Vec2::new(-50_000, 7));
    assert_eq!(edge_point(1, 7, 100, 200), Vec2::new(50_100, 7));
    assert_eq!(edge_point(2, 7, 100, 200), Vec2::new(7, -50_000));
    assert_eq!(edge_point(3, 7, 100, 200), Vec2::new(7, 50_200));
}

#[test]
fn clamp_player_far_outside_in_both_directions() {
    let mut p = actor_at(TypeActor::Player, Subtype::Plain, Vec2::new(-900_000_000, -900_000_000));
    clamp_player(&mut p);
    assert_eq!(p.position, Vec2::new(0, 0));
    let mut q = actor_at(TypeActor::Player, Subtype::Plain, Vec2::new(900_000_000, 900_000_000));
    clamp_player(&mut q);
    assert_eq!(q.position, Vec2::new(SCREEN_WIDTH - PLAYER_MARGIN, SCREEN_HEIGHT - PLAYER_MARGIN));
    let mut inside = actor_at(TypeActor::Player, Subtype::Plain, Vec2::new(1234, 5678));
    clamp_player(&mut inside);
    assert_eq!(inside.position, Vec2::new(1234, 5678));
}

#[test]
fn clamp_leaves_other_actors_alone() {
    let mut e = actor_at(TypeActor::Enemy, Subtype::BasicEnemy, Vec2::new(-90_000, -90_000));
    clamp_player(&mut e);
    assert_eq!(e.position, Vec2::new(-90_000, -90_000));
}

#[test]
fn lerp_moves_part_way() {
    assert_eq!(lerp(0, 10_000, 250), 2500);
    assert_eq!(lerp(0, -10_000, 250), -2500);
    assert_eq!(lerp(100, 100, 999), 100);
}
