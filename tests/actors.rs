use spaceship::actors::{
    build_enemy, create_boss, create_enemy, create_player, create_shot, enemy_kind, make_shot,
    pickup_kind, Actor, Subtype, TypeActor,
};
use spaceship::animation::Animation;
use spaceship::assets::{actor_sprite, Sprite};
use spaceship::behaviour::{
    basic_enemy_behaviour, basic_enemy_step, boss_enemy_step, update_basic_enemy_movement,
    update_player_position, update_shot_movement,
};
use spaceship::helpers::{Vec2, SCREEN_HEIGHT, SCREEN_WIDTH};
use spaceship::state::InputState;

#[test]
fn sentinel_actor() {
    let a = Actor::new();
    assert_eq!(a.tag, TypeActor::Absent);
    assert_eq!(a.subtag, Subtype::Plain);
    assert_eq!(a.position, Vec2::new(-500_000, -500_000));
    assert_eq!(a.life_points, 0);
    assert_eq!(a.box_size, 0);
}

#[test]
fn player_starts_at_centre() {
    let p = create_player();
    assert_eq!(p.tag, TypeActor::Player);
    assert_eq!(p.position, Vec2::new(600_000, 500_000));
    assert_eq!(p.life_points, 1000);
    assert_eq!(p.box_size, 20_000);
    assert_eq!(p.velocity, Vec2::new(0, 0));
}

#[test]
fn enemy_toughness_grows_with_score() {
    let e = build_enemy(Subtype::BasicEnemy, Vec2::new(0, 0), Vec2::new(1, 1), 7000, 0);
    assert_eq!(e.life_points, 700);
    let f = build_enemy(Subtype::BasicEnemy, Vec2::new(0, 0), Vec2::new(1, 1), 7000, 50_000);
    assert_eq!(f.life_points, 1200);
    assert_eq!(f.speed, 7000);
    assert_eq!(f.box_size, 22_000);
    assert_eq!(enemy_kind(0), Subtype::BasicEnemy);
    assert_eq!(enemy_kind(1), Subtype::KamikazeEnemy);
}

#[test]
fn random_enemy_spawns_off_screen() {
    for _ in 0..100 {
        let e = create_enemy(Vec2::new(10_000, 10_000), 7000, 10_000);
        assert!(e.subtag == Subtype::BasicEnemy || e.subtag == Subtype::KamikazeEnemy);
        assert!(e.position.x < 0 || e.position.x > SCREEN_WIDTH || e.position.y < 0 || e.position.y > SCREEN_HEIGHT);
        assert_eq!(e.life_points, 800);
        assert_eq!(e.desired_pos, Vec2::new(10_000, 10_000));
    }
}

#[test]
fn aimed_shot_faces_its_target() {
    let s = make_shot(Vec2::new(0, 0), Vec2::new(0, -5000), Subtype::BasicShot, 0);
    assert_eq!(s.tag, TypeActor::Shot);
    assert_eq!(s.speed, 15_000);
    assert_eq!(s.life_points, 15_000);
    assert_eq!(s.box_size, 1000);
    assert_eq!(s.facing, Vec2::new(0, -1000));
}

#[test]
fn asteroid_and_pickups() {
    let a = make_shot(Vec2::new(0, 0), Vec2::new(10, 0), Subtype::AsteroidShot, 0);
    assert_eq!(a.box_size, 15_000);
    assert_eq!(a.speed, 2000);
    assert_eq!(a.facing, Vec2::new(0, 0));
    assert_eq!(make_shot(Vec2::new(0, 0), Vec2::new(0, 9), Subtype::BasicCountBuff, 1).subtag, Subtype::BasicReloadBuff);
    assert_eq!(make_shot(Vec2::new(0, 0), Vec2::new(0, 9), Subtype::BasicCountBuff, 2).subtag, Subtype::BasicShieldBuff);
    assert_eq!(pickup_kind(0), Subtype::BasicCountBuff);
    for _ in 0..50 {
        let p = create_shot(Vec2::new(0, 0), Vec2::new(0, 9), Subtype::BasicCountBuff);
        assert!(matches!(p.subtag, Subtype::BasicCountBuff | Subtype::BasicReloadBuff | Subtype::BasicShieldBuff));
        assert_eq!(p.speed, 2000);
    }
    assert_eq!(create_shot(Vec2::new(0, 0), Vec2::new(0, 9), Subtype::EnemyShot).subtag, Subtype::EnemyShot);
}

#[test]
fn boss_starts_above_the_screen() {
    let b = create_boss(Subtype::BossEnemy);
    assert_eq!(b.position, Vec2::new(600_000, -10_000));
    assert_eq!(b.desired_pos, Vec2::new(600_000, 80_000));
    assert_eq!(b.life_points, 8000);
    assert_eq!(b.speed, 8000);
}

#[test]
fn player_accelerates_toward_input() {
    let mut p = create_player();
    let mut input = InputState::default();
    input.velocity = Vec2::new(600_000, 0);
    update_player_position(&mut p, &mut input, 50);
    // weight 12 · 0.05 = 0.6
    assert_eq!(p.velocity, Vec2::new(360_000, 0));
    // moved by 360 units/s · 0.05 s = 18 units
    assert_eq!(p.position, Vec2::new(618_000, 500_000));
}

#[test]
fn player_decelerates_without_input() {
    let mut p = create_player();
    p.velocity = Vec2::new(100_000, -100_000);
    let mut input = InputState::default();
    update_player_position(&mut p, &mut input, 100);
    // weight 8 · 0.1 = 0.8 toward rest
    assert_eq!(p.velocity, Vec2::new(20_000, -20_000));
    assert_eq!(p.position, Vec2::new(602_000, 498_000));
}

#[test]
fn enemy_eases_toward_target() {
    let mut e = build_enemy(Subtype::BasicEnemy, Vec2::new(0, 0), Vec2::new(10_000, 0), 5000, 0);
    e.position = Vec2::new(0, 0);
    let mut v = vec![e];
    // t = 5 · 0.1 = 0.5, smoothstep(0.5) = 0.5
    update_basic_enemy_movement(&mut v, 100);
    assert_eq!(v[0].position, Vec2::new(5000, 0));
}

#[test]
fn shot_moves_by_its_speed_and_ages() {
    let s = make_shot(Vec2::new(0, 0), Vec2::new(0, -1_000_000), Subtype::BasicShot, 0);
    let mut v = vec![s];
    update_shot_movement(&mut v, 16);
    assert_eq!(v[0].position, Vec2::new(0, -15_000));
    assert_eq!(v[0].life_points, 15_000 - 16);
    let mut p = vec![make_shot(Vec2::new(0, 0), Vec2::new(0, 1_000_000), Subtype::AsteroidShot, 0)];
    update_shot_movement(&mut p, 100);
    assert_eq!(p[0].rotation, 25);
    assert_eq!(p[0].position, Vec2::new(0, 2000));
}

#[test]
fn basic_enemy_fires_at_its_patrol_point() {
    let mut e = build_enemy(Subtype::BasicEnemy, Vec2::new(100_000, 100_000), Vec2::new(100_000, 100_000), 7000, 0);
    let mut player = create_player();
    let mut shots: Vec<Actor> = Vec::new();
    basic_enemy_step(&mut e, &mut player, &mut shots, Vec2::new(7000, 8000));
    assert_eq!(shots.len(), 1);
    assert_eq!(shots[0].subtag, Subtype::EnemyShot);
    assert_eq!(shots[0].position, Vec2::new(100_000, 103_000));
    assert_eq!(e.desired_pos, Vec2::new(7000, 8000));
    let mut far = build_enemy(Subtype::BasicEnemy, Vec2::new(0, 0), Vec2::new(100_000, 100_000), 7000, 0);
    basic_enemy_behaviour(&mut far, &mut player, &mut shots);
    assert_eq!(shots.len(), 1);
    assert_eq!(far.desired_pos, Vec2::new(100_000, 100_000));
}

#[test]
fn boss_charges_then_fires_or_retreats() {
    let mut player = create_player();
    let mut boss = create_boss(Subtype::BossEnemy);
    boss.position = boss.desired_pos;
    let mut shots: Vec<Actor> = Vec::new();
    boss_enemy_step(&mut boss, &mut player, &mut shots, 100, true);
    assert_eq!(boss.attack_charge, 800);
    assert!(shots.is_empty());
    boss.attack_charge = 7500;
    boss_enemy_step(&mut boss, &mut player, &mut shots, 100, true);
    assert_eq!(shots.len(), 2);
    assert_eq!(shots[0].position, Vec2::new(575_000, 83_000));
    assert_eq!(shots[1].position, Vec2::new(625_000, 83_000));
    assert_eq!(boss.attack_charge, 0);
    boss.attack_charge = 7500;
    boss_enemy_step(&mut boss, &mut player, &mut shots, 100, false);
    assert_eq!(shots.len(), 2);
    // away from the player at (600, 500): 80 − 1.2 · 420 = −424
    assert_eq!(boss.desired_pos, Vec2::new(600_000, -424_000));
}

#[test]
fn effect_runs_to_its_last_frame() {
    let mut a = Animation::new(4, 100, Vec2::new(0, 0));
    let mut steps = 0;
    while !a.finished {
        a.update(16);
        steps += 1;
    }
    assert_eq!(a.current_frame, 3);
    assert_eq!(steps, 21);
}

#[test]
fn sprites_by_kind() {
    assert_eq!(actor_sprite(&create_player()), Sprite::Player);
    assert_eq!(actor_sprite(&create_boss(Subtype::BossEnemy)), Sprite::Boss);
    let a = make_shot(Vec2::new(0, 0), Vec2::new(10, 0), Subtype::AsteroidShot, 0);
    assert_eq!(actor_sprite(&a), Sprite::Asteroid);
}
