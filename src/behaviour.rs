use vstd::prelude::*;

use crate::actors::{
    make_shot, shot_spec, zero_vec, Actor, Subtype, TypeActor,
};
use crate::helpers::{
    direction_spec, div_toward_zero, divide_toward_zero, lemma_direction_bounded, lerp_point,
    lerp_point_spec, is_patrol_point, make_rand_pos, plane, random_in, position_to_direction, sat_add, add_saturating,
    smoothstep, smoothstep_spec, to_plane, Vec2, ONE, SCREEN_HEIGHT, SCREEN_WIDTH,
};
use crate::state::InputState;

verus! {

/// Longest time step of one frame.
pub const MAX_DT: i64 = 100;

/// How fast the player's velocity approaches the input velocity while a key is held.
pub const ACCELERATION_RATE: i64 = 12;

/// How fast the player's velocity decays once no key is held.
pub const DECELERATION_RATE: i64 = 8;

/// A basic enemy fires once it is this close to its patrol point.
pub const FIRE_RANGE: i64 = 50;

/// A boss acts once it is this close to its hover point.
pub const BOSS_RANGE: i64 = 1500;

/// Vertical offset of a muzzle below an enemy's centre.
pub const MUZZLE_DROP: i64 = 3000;

/// Horizontal offset of a boss's two muzzles.
pub const BOSS_MUZZLE_SPREAD: i64 = 25_000;

pub open spec fn dist_sq(a: Vec2, b: Vec2) -> int {
    (a.x - b.x) * (a.x - b.x) + (a.y - b.y) * (a.y - b.y)
}

/// Squared distance between two points of the plane.
pub fn distance_sq(a: Vec2, b: Vec2) -> (r: i128)
    requires
        a.in_plane(),
        b.in_plane(),
    ensures
        r == dist_sq(a, b),
        r >= 0,
{
    let dx: i128 = a.x as i128 - b.x as i128;
    let dy: i128 = a.y as i128 - b.y as i128;
    assert(0 <= dx * dx <= 4_000_000_000_000_000_000) by (nonlinear_arith)
        requires
            -2_000_000_000 <= dx <= 2_000_000_000,
    ;
    assert(0 <= dy * dy <= 4_000_000_000_000_000_000) by (nonlinear_arith)
        requires
            -2_000_000_000 <= dy <= 2_000_000_000,
    ;
    dx * dx + dy * dy
}

pub open spec fn player_motion_spec(player: Actor, target: Vec2, dt: int) -> Actor {
    let rate = if target != zero_vec() {
        ACCELERATION_RATE
    } else {
        DECELERATION_RATE
    };
    let v = lerp_point_spec(player.velocity, target, rate * dt);
    Actor {
        velocity: v,
        position: if player.tag == TypeActor::Player {
            Vec2 {
                x: plane(player.position.x + div_toward_zero(v.x * dt, ONE as int)) as i64,
                y: plane(player.position.y + div_toward_zero(v.y * dt, ONE as int)) as i64,
            }
        } else {
            player.position
        },
        ..player
    }
}

/// Blends the player's velocity toward the input velocity (or toward rest when no key
/// is held) and moves the player by it.
pub fn update_player_position(player: &mut Actor, input: &mut InputState, dt: i64)
    requires
        old(player).wf(),
        old(input).velocity.in_plane(),
        0 <= dt <= MAX_DT,
    ensures
        *final(player) == player_motion_spec(*old(player), old(input).velocity, dt as int),
        final(player).wf(),
        *final(input) == *old(input),
{
    let rate: i64 = if input.velocity.x != 0 || input.velocity.y != 0 {
        ACCELERATION_RATE
    } else {
        DECELERATION_RATE
    };
    let v = lerp_point(player.velocity, input.velocity, rate * dt);
    player.velocity = v;
    if player.tag == TypeActor::Player {
        proof {
            crate::helpers::lemma_div_bounded(v.x * dt, 1000);
            crate::helpers::lemma_div_bounded(v.y * dt, 1000);
            assert(-100_000_000_000 <= v.x * dt <= 100_000_000_000) by (nonlinear_arith)
                requires
                    -1_000_000_000 <= v.x <= 1_000_000_000,
                    0 <= dt <= 100,
            ;
            assert(-100_000_000_000 <= v.y * dt <= 100_000_000_000) by (nonlinear_arith)
                requires
                    -1_000_000_000 <= v.y <= 1_000_000_000,
                    0 <= dt <= 100,
            ;
        }
        let sx: i128 = divide_toward_zero(v.x as i128 * dt as i128, ONE as i128);
        let sy: i128 = divide_toward_zero(v.y as i128 * dt as i128, ONE as i128);
        player.position = Vec2 {
            x: to_plane(player.position.x as i128 + sx),
            y: to_plane(player.position.y as i128 + sy),
        };
    }
}

pub open spec fn enemy_weight_spec(e: Actor, dt: int) -> int {
    smoothstep_spec(e.speed * dt / ONE as int)
}

pub open spec fn enemy_motion_spec(e: Actor, dt: int) -> Actor {
    Actor {
        position: lerp_point_spec(e.position, e.desired_pos, enemy_weight_spec(e, dt)),
        ..e
    }
}

pub open spec fn all_wf(actors: Seq<Actor>) -> bool {
    forall|i: int| 0 <= i < actors.len() ==> #[trigger] actors[i].wf()
}

/// Moves one enemy toward its target with a smoothstep weight.
fn move_enemy(e: &Actor, dt: i64) -> (r: Actor)
    requires
        e.wf(),
        0 <= dt <= MAX_DT,
    ensures
        r == enemy_motion_spec(*e, dt as int),
        r.wf(),
{
    assert(0 <= e.speed * dt <= 100_000_000) by (nonlinear_arith)
        requires
            0 <= e.speed <= 1_000_000,
            0 <= dt <= 100,
    ;
    let t: i64 = e.speed * dt / ONE;
    let w = smoothstep(t);
    Actor { position: lerp_point(e.position, e.desired_pos, w), ..*e }
}

/// Eases every enemy toward its desired position.
pub fn update_basic_enemy_movement(enemies: &mut Vec<Actor>, dt: i64)
    requires
        all_wf(old(enemies)@),
        0 <= dt <= MAX_DT,
    ensures
        final(enemies)@ == old(enemies)@.map_values(|e: Actor| enemy_motion_spec(e, dt as int)),
        all_wf(final(enemies)@),
{
    let n = enemies.len();
    let mut i: usize = 0;
    while i < n
        invariant
            0 <= i <= n == enemies.len() == old(enemies)@.len(),
            0 <= dt <= MAX_DT,
            all_wf(old(enemies)@),
            forall|j: int| 0 <= j < i ==> enemies@[j] == enemy_motion_spec(#[trigger] old(enemies)@[j], dt as int),
            forall|j: int| i <= j < n ==> enemies@[j] == old(enemies)@[j],
            all_wf(enemies@),
        decreases n - i,
    {
        let e = move_enemy(&enemies[i], dt);
        enemies.set(i, e);
        i = i + 1;
    }
    assert(enemies@ =~= old(enemies)@.map_values(|e: Actor| enemy_motion_spec(e, dt as int)));
}

pub open spec fn spin_spec(s: Actor, dt: int) -> int {
    if s.subtag == Subtype::BasicReloadBuff || s.subtag == Subtype::BasicCountBuff {
        sat_add(s.rotation as int, dt)
    } else if s.subtag == Subtype::AsteroidShot {
        sat_add(s.rotation as int, dt / 4)
    } else {
        s.rotation as int
    }
}

pub open spec fn shot_motion_spec(s: Actor, dt: int) -> Actor {
    let d = direction_spec(s.position, s.desired_pos);
    Actor {
        position: Vec2 {
            x: plane(s.position.x + div_toward_zero(d.x * s.speed, ONE as int)) as i64,
            y: plane(s.position.y + div_toward_zero(d.y * s.speed, ONE as int)) as i64,
        },
        life_points: sat_add(s.life_points as int, -dt) as i64,
        rotation: spin_spec(s, dt) as i64,
        ..s
    }
}

/// Moves one shot by its speed along the direction to its target and spends its time to live.
fn move_shot(s: &Actor, dt: i64) -> (r: Actor)
    requires
        s.wf(),
        0 <= dt <= MAX_DT,
    ensures
        r == shot_motion_spec(*s, dt as int),
        r.wf(),
{
    let d = position_to_direction(s.position, s.desired_pos);
    proof {
        lemma_direction_bounded(s.position, s.desired_pos);
        assert(-1_000_000_000 <= d.x * s.speed <= 1_000_000_000) by (nonlinear_arith)
            requires
                -1000 <= d.x <= 1000,
                0 <= s.speed <= 1_000_000,
        ;
        assert(-1_000_000_000 <= d.y * s.speed <= 1_000_000_000) by (nonlinear_arith)
            requires
                -1000 <= d.y <= 1000,
                0 <= s.speed <= 1_000_000,
        ;
        crate::helpers::lemma_div_bounded(d.x * s.speed, 1000);
        crate::helpers::lemma_div_bounded(d.y * s.speed, 1000);
    }
    let sx: i128 = divide_toward_zero(d.x as i128 * s.speed as i128, ONE as i128);
    let sy: i128 = divide_toward_zero(d.y as i128 * s.speed as i128, ONE as i128);
    let rotation = match s.subtag {
        Subtype::BasicReloadBuff | Subtype::BasicCountBuff => add_saturating(s.rotation, dt),
        Subtype::AsteroidShot => add_saturating(s.rotation, dt / 4),
        _ => s.rotation,
    };
    Actor {
        position: Vec2 {
            x: to_plane(s.position.x as i128 + sx),
            y: to_plane(s.position.y as i128 + sy),
        },
        life_points: add_saturating(s.life_points, -dt),
        rotation,
        ..*s
    }
}

/// Advances every shot toward its target and spends `dt` of its time to live.
pub fn update_shot_movement(shots: &mut Vec<Actor>, dt: i64)
    requires
        all_wf(old(shots)@),
        0 <= dt <= MAX_DT,
    ensures
        final(shots)@ == old(shots)@.map_values(|s: Actor| shot_motion_spec(s, dt as int)),
        all_wf(final(shots)@),
{
    let n = shots.len();
    let mut i: usize = 0;
    while i < n
        invariant
            0 <= i <= n == shots.len() == old(shots)@.len(),
            0 <= dt <= MAX_DT,
            all_wf(old(shots)@),
            forall|j: int| 0 <= j < i ==> shots@[j] == shot_motion_spec(#[trigger] old(shots)@[j], dt as int),
            forall|j: int| i <= j < n ==> shots@[j] == old(shots)@[j],
            all_wf(shots@),
        decreases n - i,
    {
        let s = move_shot(&shots[i], dt);
        shots.set(i, s);
        i = i + 1;
    }
    assert(shots@ =~= old(shots)@.map_values(|s: Actor| shot_motion_spec(s, dt as int)));
}

/// The point `(p.x + dx, p.y + MUZZLE_DROP)`, kept in the plane.
pub open spec fn muzzle_spec(p: Vec2, dx: int) -> Vec2 {
    Vec2 { x: plane(p.x + dx) as i64, y: plane(p.y + MUZZLE_DROP) as i64 }
}

fn muzzle(p: Vec2, dx: i64) -> (r: Vec2)
    requires
        p.in_plane(),
        -BOSS_MUZZLE_SPREAD <= dx <= BOSS_MUZZLE_SPREAD,
    ensures
        r == muzzle_spec(p, dx as int),
        r.in_plane(),
{
    Vec2 { x: to_plane(p.x as i128 + dx as i128), y: to_plane(p.y as i128 + MUZZLE_DROP as i128) }
}

/// Where an enemy shot from `source` aims: one screen extent past `target` along the
/// line from `source`, so that it leaves the screen.
pub open spec fn aim_point_spec(source: Vec2, target: Vec2) -> Vec2 {
    let d = direction_spec(source, target);
    Vec2 {
        x: plane(target.x + d.x * (SCREEN_WIDTH / ONE)) as i64,
        y: plane(target.y + d.y * (SCREEN_HEIGHT / ONE)) as i64,
    }
}

pub open spec fn enemy_shot_spec(source: Vec2, target: Vec2) -> Actor {
    shot_spec(source, aim_point_spec(source, target), Subtype::EnemyShot, Subtype::EnemyShot)
}

/// Fires one enemy shot from `source_pos` at the player.
fn shoot_at_player(source_pos: Vec2, player: &mut Actor, shots: &mut Vec<Actor>)
    requires
        source_pos.in_plane(),
        old(player).wf(),
    ensures
        *final(player) == *old(player),
        final(shots)@ == old(shots)@.push(enemy_shot_spec(source_pos, old(player).position)),
        enemy_shot_spec(source_pos, old(player).position).wf(),
{
    let dest = player.position;
    let direction = position_to_direction(source_pos, dest);
    proof {
        lemma_direction_bounded(source_pos, dest);
    }
    assert(SCREEN_WIDTH / ONE == 1200 && SCREEN_HEIGHT / ONE == 1000);
    let aim = Vec2 {
        x: to_plane(dest.x as i128 + direction.x as i128 * 1200),
        y: to_plane(dest.y as i128 + direction.y as i128 * 1000),
    };
    let shot = make_shot(source_pos, aim, Subtype::EnemyShot, 0);
    shots.push(shot);
}

/// A basic enemy that has reached its patrol point.
pub open spec fn basic_ready(e: Actor) -> bool {
    dist_sq(e.desired_pos, e.position) < FIRE_RANGE * FIRE_RANGE
}

pub open spec fn basic_after_spec(e: Actor, patrol: Vec2) -> Actor {
    if basic_ready(e) {
        Actor { desired_pos: patrol, ..e }
    } else {
        e
    }
}

pub open spec fn basic_shots_spec(e: Actor, player_pos: Vec2) -> Seq<Actor> {
    if basic_ready(e) {
        seq![enemy_shot_spec(muzzle_spec(e.position, 0), player_pos)]
    } else {
        seq![]
    }
}

/// A basic enemy at its patrol point fires at the player and heads for `patrol`.
pub fn basic_enemy_step(enemy: &mut Actor, player: &mut Actor, shots: &mut Vec<Actor>, patrol: Vec2)
    requires
        old(enemy).wf(),
        old(player).wf(),
        patrol.in_plane(),
    ensures
        *final(enemy) == basic_after_spec(*old(enemy), patrol),
        *final(player) == *old(player),
        final(shots)@ == old(shots)@ + basic_shots_spec(*old(enemy), old(player).position),
        final(enemy).wf(),
        all_wf(basic_shots_spec(*old(enemy), old(player).position)),
{
    let distance = distance_sq(enemy.desired_pos, enemy.position);
    if distance < (FIRE_RANGE as i128) * (FIRE_RANGE as i128) {
        let source_pos = muzzle(enemy.position, 0);
        shoot_at_player(source_pos, player, shots);
        enemy.desired_pos = patrol;
    }
    proof {
        assert(final(shots)@ =~= old(shots)@ + basic_shots_spec(*old(enemy), old(player).position));
    }
}

/// A basic enemy at its patrol point fires at the player and heads for a random new patrol point.
pub fn basic_enemy_behaviour(enemy: &mut Actor, player: &mut Actor, shots: &mut Vec<Actor>)
    requires
        old(enemy).wf(),
        old(player).wf(),
    ensures
        basic_ready(*old(enemy)) ==> is_patrol_point(final(enemy).desired_pos),
        *final(enemy) == basic_after_spec(*old(enemy), final(enemy).desired_pos),
        *final(player) == *old(player),
        final(shots)@ == old(shots)@ + basic_shots_spec(*old(enemy), old(player).position),
{
    let patrol = if distance_sq(enemy.desired_pos, enemy.position) < (FIRE_RANGE as i128) * (
    FIRE_RANGE as i128) {
        make_rand_pos()
    } else {
        enemy.desired_pos
    };
    basic_enemy_step(enemy, player, shots, patrol);
}

/// The boss's charge after `dt` more time.
pub open spec fn boss_charge_spec(e: Actor, dt: int) -> int {
    sat_add(e.attack_charge as int, dt * e.speed / ONE as int)
}

/// A boss near its hover point with a full charge acts this frame.
pub open spec fn boss_ready(e: Actor, dt: int) -> bool {
    dist_sq(e.desired_pos, e.position) < BOSS_RANGE * BOSS_RANGE && boss_charge_spec(e, dt) >= e.speed
}

/// The retreat point: from `p`, away from `target`, 1.2 times their distance.
pub open spec fn retreat_spec(p: Vec2, target: Vec2) -> Vec2 {
    Vec2 {
        x: plane(p.x - div_toward_zero(6 * (target.x - p.x), 5)) as i64,
        y: plane(p.y - div_toward_zero(6 * (target.y - p.y), 5)) as i64,
    }
}

pub open spec fn boss_after_spec(e: Actor, player_pos: Vec2, dt: int, volley: bool) -> Actor {
    let facing = direction_spec(e.position, player_pos);
    if boss_ready(e, dt) {
        if volley {
            Actor { attack_charge: 0, facing, ..e }
        } else {
            Actor { attack_charge: 0, facing, desired_pos: retreat_spec(e.position, player_pos), ..e }
        }
    } else {
        Actor { attack_charge: boss_charge_spec(e, dt) as i64, facing, ..e }
    }
}

pub open spec fn boss_shots_spec(e: Actor, player_pos: Vec2, dt: int, volley: bool) -> Seq<Actor> {
    if boss_ready(e, dt) && volley {
        seq![
            enemy_shot_spec(muzzle_spec(e.position, -BOSS_MUZZLE_SPREAD), player_pos),
            enemy_shot_spec(muzzle_spec(e.position, BOSS_MUZZLE_SPREAD as int), player_pos),
        ]
    } else {
        seq![]
    }
}

/// A boss charges its attack and faces the player; once at its hover point with a full
/// charge it either retreats (`volley` false) or fires two shots (`volley` true).
pub fn boss_enemy_step(enemy: &mut Actor, player: &mut Actor, shots: &mut Vec<Actor>, dt: i64, volley: bool)
    requires
        old(enemy).wf(),
        old(player).wf(),
        0 <= dt <= MAX_DT,
    ensures
        *final(enemy) == boss_after_spec(*old(enemy), old(player).position, dt as int, volley),
        *final(player) == *old(player),
        final(shots)@ == old(shots)@ + boss_shots_spec(*old(enemy), old(player).position, dt as int, volley),
        final(enemy).wf(),
        all_wf(boss_shots_spec(*old(enemy), old(player).position, dt as int, volley)),
{
    assert(0 <= dt * enemy.speed <= 100_000_000) by (nonlinear_arith)
        requires
            0 <= enemy.speed <= 1_000_000,
            0 <= dt <= 100,
    ;
    let charge = add_saturating(enemy.attack_charge, dt * enemy.speed / ONE);
    enemy.attack_charge = charge;
    let direction = position_to_direction(enemy.position, player.position);
    proof {
        lemma_direction_bounded(old(enemy).position, old(player).position);
    }
    enemy.facing = direction;
    let distance = distance_sq(enemy.desired_pos, enemy.position);
    if distance < (BOSS_RANGE as i128) * (BOSS_RANGE as i128) && enemy.attack_charge >= enemy.speed {
        if volley {
            let source_pos = muzzle(enemy.position, -BOSS_MUZZLE_SPREAD);
            shoot_at_player(source_pos, player, shots);
            let source_pos = muzzle(enemy.position, BOSS_MUZZLE_SPREAD);
            shoot_at_player(source_pos, player, shots);
        } else {
            let p = enemy.position;
            let t = player.position;
            let rx: i128 = divide_toward_zero(6 * (t.x as i128 - p.x as i128), 5);
            let ry: i128 = divide_toward_zero(6 * (t.y as i128 - p.y as i128), 5);
            enemy.desired_pos = Vec2 { x: to_plane(p.x as i128 - rx), y: to_plane(p.y as i128 - ry) };
        }
        enemy.attack_charge = 0;
    }
    proof {
        assert(final(shots)@ =~= old(shots)@ + boss_shots_spec(*old(enemy), old(player).position, dt as int, volley));
    }
}

/// A boss's behaviour, choosing at random between retreating and firing when it acts.
pub fn boss_enemy_behaviour(enemy: &mut Actor, player: &mut Actor, shots: &mut Vec<Actor>, dt: i64)
    requires
        old(enemy).wf(),
        old(player).wf(),
        0 <= dt <= MAX_DT,
    ensures
        exists|volley: bool|
            {
                &&& *final(enemy) == boss_after_spec(*old(enemy), old(player).position, dt as int, volley)
                &&& final(shots)@ == old(shots)@ + boss_shots_spec(
                    *old(enemy),
                    old(player).position,
                    dt as int,
                    volley,
                )
            },
        *final(player) == *old(player),
{
    let volley = random_in(0, 2) == 1;
    boss_enemy_step(enemy, player, shots, dt, volley);
}

/// The random draws that one enemy's behaviour may use in a frame.
#[derive(Clone, Copy, Debug, PartialEq, Eq, Structural)]
pub struct AbilityRoll {
    /// A boss that acts fires (true) or retreats (false).
    pub volley: bool,
    /// A basic enemy's next patrol point.
    pub patrol: Vec2,
}

/// One enemy after its behaviour for the frame, with the player at `player_pos`.
pub open spec fn ability_enemy_spec(e: Actor, player_pos: Vec2, dt: int, roll: AbilityRoll) -> Actor {
    if e.subtag == Subtype::BasicEnemy {
        basic_after_spec(e, roll.patrol)
    } else if e.subtag == Subtype::KamikazeEnemy {
        Actor { desired_pos: player_pos, ..e }
    } else if e.subtag == Subtype::BossEnemy {
        boss_after_spec(e, player_pos, dt, roll.volley)
    } else {
        e
    }
}

/// The shots one enemy fires during its behaviour for the frame.
pub open spec fn ability_shots_spec(e: Actor, player_pos: Vec2, dt: int, roll: AbilityRoll) -> Seq<Actor> {
    if e.subtag == Subtype::BasicEnemy {
        basic_shots_spec(e, player_pos)
    } else if e.subtag == Subtype::BossEnemy {
        boss_shots_spec(e, player_pos, dt, roll.volley)
    } else {
        seq![]
    }
}

} // verus!
