use spaceship::actors::{build_enemy, create_boss, make_shot, Actor, Subtype, TypeActor};
use spaceship::behaviour::AbilityRoll;
use spaceship::helpers::Vec2;
use spaceship::state::{EnemyRoll, FrameRolls, Key, State, Timer};

fn quiet_rolls(n: usize) -> FrameRolls {
    FrameRolls {
        enemy: EnemyRoll { kind: 0, position: Vec2::new(-50_000, 1000), patrol: Vec2::new(5000, 5000) },
        abilities: vec![AbilityRoll { volley: false, patrol: Vec2::new(5000, 5000) }; n + 1],
        asteroid_from: Vec2::new(-50_000, 0),
        asteroid_to: Vec2::new(1_250_000, 0),
        pickup_x: 5000,
        pickup_roll: 0,
    }
}

fn basic_enemy_at(p: Vec2, life: i64) -> Actor {
    let mut e = build_enemy(Subtype::BasicEnemy, p, p, 7000, 0);
    e.life_points = life;
    e
}

#[test]
fn enemy_shot_on_player_hurts_once_and_is_removed() {
    let mut s = State::new();
    s.player.life_points = 3000;
    s.equipped_shields = 2;
    let p = s.player.position;
    s.shots.push(make_shot(p, Vec2::new(p.x, p.y + 100_000), Subtype::EnemyShot, 0));
    s.handle_collision();
    assert_eq!(s.player.life_points, 2000);
    assert_eq!(s.equipped_shields, 1);
    assert!(s.shots.is_empty());
    assert!(!s.paused);
}

#[test]
fn enemy_shot_kills_a_one_point_player() {
    let mut s = State::new();
    let p = s.player.position;
    s.shots.push(make_shot(p, Vec2::new(p.x, p.y + 100_000), Subtype::EnemyShot, 0));
    s.handle_collision();
    assert_eq!(s.player, Actor::new());
    assert_eq!(s.equipped_shields, -1);
    assert!(s.paused);
    assert_eq!(s.animations.len(), 1);
    assert!(s.shots.is_empty());
}

#[test]
fn player_shot_kills_a_basic_enemy() {
    let mut s = State::new();
    let at = Vec2::new(100_000, 100_000);
    s.enemies.push(basic_enemy_at(at, 1000));
    s.shots.push(make_shot(at, Vec2::new(100_000, -100_000), Subtype::BasicShot, 0));
    s.handle_collision();
    assert!(s.enemies.is_empty());
    assert!(s.shots.is_empty());
    assert_eq!(s.animations.len(), 1);
}

#[test]
fn player_shot_hurts_a_boss_by_three() {
    let mut s = State::new();
    let mut boss = create_boss(Subtype::BossEnemy);
    boss.position = Vec2::new(100_000, 100_000);
    s.enemies.push(boss);
    s.is_boss_present = true;
    s.shots.push(make_shot(boss.position, Vec2::new(100_000, -100_000), Subtype::BasicShot, 0));
    s.handle_collision();
    assert_eq!(s.enemies.len(), 1);
    assert_eq!(s.enemies[0].life_points, 5000);
    assert!(s.shots.is_empty());
    assert!(s.is_boss_present);
}

#[test]
fn asteroid_pierces_a_boss() {
    let mut s = State::new();
    let mut boss = create_boss(Subtype::BossEnemy);
    boss.position = Vec2::new(100_000, 100_000);
    boss.life_points = 2000;
    s.enemies.push(boss);
    s.is_boss_present = true;
    s.shots.push(make_shot(boss.position, Vec2::new(100_000, -100_000), Subtype::AsteroidShot, 0));
    s.handle_collision();
    assert!(s.enemies.is_empty());
    assert_eq!(s.shots.len(), 1);
    assert!(!s.is_boss_present);
}

#[test]
fn spent_shot_hits_only_once() {
    let mut s = State::new();
    let at = Vec2::new(100_000, 100_000);
    s.enemies.push(basic_enemy_at(at, 5000));
    s.enemies.push(basic_enemy_at(at, 5000));
    s.shots.push(make_shot(at, Vec2::new(100_000, -100_000), Subtype::BasicShot, 0));
    s.handle_collision();
    assert_eq!(s.enemies.len(), 2);
    assert_eq!(s.enemies[0].life_points, 4000);
    assert_eq!(s.enemies[1].life_points, 5000);
    assert!(s.shots.is_empty());
}

#[test]
fn dead_enemy_does_not_touch_the_player() {
    let mut s = State::new();
    let p = s.player.position;
    s.enemies.push(basic_enemy_at(p, 1000));
    s.shots.push(make_shot(Vec2::new(p.x + 21_000, p.y), Vec2::new(p.x, -100_000), Subtype::BasicShot, 0));
    s.player.life_points = 2000;
    s.handle_collision();
    assert!(s.enemies.is_empty());
    assert_eq!(s.player.life_points, 2000);
}

#[test]
fn pickups_apply_their_effect() {
    let mut s = State::new();
    let p = s.player.position;
    s.shots.push(make_shot(p, Vec2::new(p.x, 2_000_000), Subtype::BasicCountBuff, 0));
    s.shots.push(make_shot(p, Vec2::new(p.x, 2_000_000), Subtype::BasicCountBuff, 1));
    s.shots.push(make_shot(p, Vec2::new(p.x, 2_000_000), Subtype::BasicCountBuff, 2));
    s.handle_collision();
    assert_eq!(s.input.count_of_weapons, 2);
    assert_eq!(s.input.firing_cooldown.threshold, 780);
    assert_eq!(s.player.life_points, 2000);
    assert_eq!(s.equipped_shields, 1);
    assert!(s.shots.is_empty());
}

#[test]
fn shield_stops_at_the_cap() {
    let mut s = State::new();
    s.player.life_points = 4000;
    let p = s.player.position;
    s.shots.push(make_shot(p, Vec2::new(p.x, 2_000_000), Subtype::BasicCountBuff, 2));
    s.handle_collision();
    assert_eq!(s.player.life_points, 4000);
    assert_eq!(s.equipped_shields, 0);
    assert!(s.shots.is_empty());
}

#[test]
fn contact_damage_ends_the_game_and_freezes_it() {
    let mut s = State::new();
    s.player.life_points = 2000;
    let p = s.player.position;
    s.enemies.push(basic_enemy_at(p, 5000));
    s.enemies.push(basic_enemy_at(p, 5000));
    s.handle_collision();
    assert!(s.paused);
    assert_eq!(s.player.tag, TypeActor::Absent);
    assert_eq!(s.equipped_shields, -2);
    assert_eq!(s.enemies.len(), 2);
    assert_eq!(s.enemies[0].life_points, 4000);
    let enemies = s.enemies.clone();
    let shots = s.shots.clone();
    let animations = s.animations.clone();
    let score = s.current_score;
    let timer = s.enemy_timer;
    s.update(16);
    s.advance(100, &quiet_rolls(2));
    assert_eq!(s.enemies, enemies);
    assert_eq!(s.shots, shots);
    assert_eq!(s.animations, animations);
    assert_eq!(s.current_score, score);
    assert_eq!(s.enemy_timer, timer);
    assert!(s.paused);
}

#[test]
fn enemy_timer_fires_at_its_threshold() {
    let mut s = State::new();
    s.enemy_timer = Timer { elapsed: 3990, threshold: 4000 };
    s.spawn_enemy(10, EnemyRoll { kind: 1, position: Vec2::new(-50_000, 0), patrol: Vec2::new(9000, 9000) });
    assert_eq!(s.enemies.len(), 1);
    assert_eq!(s.enemies[0].subtag, Subtype::KamikazeEnemy);
    assert_eq!(s.enemy_timer, Timer { elapsed: 0, threshold: 3900 });
    assert_eq!(s.enemy_speed, 7040);
}

#[test]
fn enemy_timer_below_threshold_only_counts() {
    let mut s = State::new();
    s.enemy_timer = Timer { elapsed: 3980, threshold: 4000 };
    s.spawn_enemy(10, EnemyRoll { kind: 0, position: Vec2::new(-50_000, 0), patrol: Vec2::new(9000, 9000) });
    assert!(s.enemies.is_empty());
    assert_eq!(s.enemy_timer, Timer { elapsed: 3990, threshold: 4000 });
    assert_eq!(s.enemy_speed, 7000);
}

#[test]
fn spawn_interval_stops_shrinking_at_the_floor() {
    let mut s = State::new();
    s.enemy_timer = Timer { elapsed: 1400, threshold: 1400 };
    s.spawn_enemy(0, EnemyRoll { kind: 0, position: Vec2::new(-50_000, 0), patrol: Vec2::new(9000, 9000) });
    assert_eq!(s.enemy_timer, Timer { elapsed: 0, threshold: 1400 });
    assert_eq!(s.enemy_speed, 7040);
}

#[test]
fn boss_appears_on_the_period() {
    let mut s = State::new();
    s.current_score = 39_500;
    s.spawn_boss();
    assert!(s.is_boss_present);
    assert_eq!(s.enemies.len(), 1);
    assert_eq!(s.enemies[0].subtag, Subtype::BossEnemy);
    assert_eq!(s.enemy_timer.threshold, 5500);
    s.spawn_boss();
    assert_eq!(s.enemies.len(), 1);
    let mut t = State::new();
    t.current_score = 38_500;
    t.spawn_boss();
    assert!(!t.is_boss_present);
}

#[test]
fn volley_spreads_left_and_right() {
    let mut s = State::new();
    s.input.is_firing = true;
    s.input.count_of_weapons = 3;
    s.input.firing_cooldown = Timer { elapsed: 790, threshold: 800 };
    s.spawn_player_shot(10);
    assert_eq!(s.shots.len(), 3);
    assert_eq!(s.shots[0].desired_pos, Vec2::new(600_000, -100_000));
    assert_eq!(s.shots[1].desired_pos, Vec2::new(300_000, -100_000));
    assert_eq!(s.shots[2].desired_pos, Vec2::new(900_000, -100_000));
    assert_eq!(s.shots[0].position, Vec2::new(600_000, 498_000));
    assert_eq!(s.input.firing_cooldown.elapsed, 0);
}

#[test]
fn no_fire_without_trigger() {
    let mut s = State::new();
    s.spawn_player_shot(100);
    assert!(s.shots.is_empty());
    assert_eq!(s.input.firing_cooldown.elapsed, 600);
}

#[test]
fn kamikaze_homes_on_the_player() {
    let mut s = State::new();
    let mut k = build_enemy(Subtype::KamikazeEnemy, Vec2::new(0, 0), Vec2::new(1, 1), 7000, 0);
    k.position = Vec2::new(0, 0);
    s.enemies.push(k);
    s.trigger_enemy_ability(16, &vec![AbilityRoll { volley: false, patrol: Vec2::new(5000, 5000) }]);
    assert_eq!(s.enemies[0].desired_pos, s.player.position);
}

#[test]
fn pickup_timer_drops_a_pickup() {
    let mut s = State::new();
    s.ability_timer = Timer { elapsed: 4990, threshold: 5000 };
    s.spawn_behaviour(10, 42_000, 1);
    assert_eq!(s.shots.len(), 1);
    assert_eq!(s.shots[0].subtag, Subtype::BasicReloadBuff);
    assert_eq!(s.shots[0].position, Vec2::new(42_000, -10_000));
    assert_eq!(s.shots[0].desired_pos, Vec2::new(42_000, 1_030_000));
    assert_eq!(s.ability_timer.elapsed, 0);
}

#[test]
fn asteroid_timer_fires_on_its_own() {
    let mut s = State::new();
    s.asteroid_timer = Timer { elapsed: 8950, threshold: 9000 };
    s.spawn_asteroid(50, Vec2::new(-50_000, 0), Vec2::new(1_250_000, 0));
    assert_eq!(s.shots.len(), 1);
    assert_eq!(s.shots[0].subtag, Subtype::AsteroidShot);
    assert_eq!(s.asteroid_timer.elapsed, 0);
    assert_eq!(s.enemy_timer.elapsed, 0);
}

#[test]
fn one_frame_advances_score_and_timers() {
    let mut s = State::new();
    s.advance(16, &quiet_rolls(0));
    assert_eq!(s.current_score, 16);
    assert_eq!(s.enemy_timer.elapsed, 16);
    assert_eq!(s.ability_timer.elapsed, 16);
    assert_eq!(s.asteroid_timer.elapsed, 16);
    assert_eq!(s.player.position, Vec2::new(600_000, 500_000));
    s.advance(5000, &quiet_rolls(0));
    assert_eq!(s.current_score, 116);
}

#[test]
fn random_frames_keep_running() {
    let mut s = State::new();
    for _ in 0..500 {
        s.update(16);
    }
    assert!(s.current_score <= 8000);
    if !s.paused {
        assert_eq!(s.current_score, 8000);
    }
    assert!(s.enemies.iter().all(|e| e.life_points > 0));
    assert!(s.shots.iter().all(|e| e.life_points > 0));
}

#[test]
fn keys_set_and_clear_intent() {
    let mut s = State::new();
    s.key_down_event(Key::Right);
    s.key_down_event(Key::Up);
    s.key_down_event(Key::Fire);
    assert_eq!(s.input.velocity, Vec2::new(600_000, -600_000));
    assert!(s.input.is_firing);
    s.key_up_event(Key::Left);
    s.key_up_event(Key::Fire);
    assert_eq!(s.input.velocity, Vec2::new(0, -600_000));
    assert!(!s.input.is_firing);
}

#[test]
fn restart_only_after_game_over() {
    let mut s = State::new();
    s.current_score = 777;
    s.key_down_event(Key::Restart);
    assert_eq!(s.current_score, 777);
    s.player = Actor::new();
    s.paused = true;
    s.key_down_event(Key::Restart);
    assert_eq!(s.current_score, 0);
    assert!(!s.paused);
    assert_eq!(s.player.tag, TypeActor::Player);
}
