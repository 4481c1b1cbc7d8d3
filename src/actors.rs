use vstd::prelude::*;

use crate::helpers::{
    direction_spec, is_offscreen_spawn, position_to_direction, random_in,
    random_offscreen_position, Vec2, ONE, SCREEN_HEIGHT, SCREEN_WIDTH,
};

verus! {

/// Coarse category of an actor.
#[derive(Clone, Copy, Debug, PartialEq, Eq, Structural)]
pub enum TypeActor {
    Player,
    Enemy,
    Shot,
    /// The sentinel that stands for "no active player" while the game is over.
    Absent,
}

/// Fine category of an actor.
#[derive(Clone, Copy, Debug, PartialEq, Eq, Structural)]
pub enum Subtype {
    BasicEnemy,
    KamikazeEnemy,
    BossEnemy,
    TankEnemy,
    BasicShot,
    EnemyShot,
    AsteroidShot,
    BasicCountBuff,
    BasicReloadBuff,
    BasicShieldBuff,
    /// No finer category (the player and the sentinel).
    Plain,
}

/// Any simulated entity: the player, an enemy, a projectile or a pickup.
#[derive(Clone, Copy, Debug, PartialEq, Eq, Structural)]
pub struct Actor {
    pub tag: TypeActor,
    pub subtag: Subtype,
    /// The player's motion velocity, per second.
    pub velocity: Vec2,
    /// Travel speed of enemies and shots.
    pub speed: i64,
    /// A boss's accumulated attack charge.
    pub attack_charge: i64,
    pub position: Vec2,
    /// Movement or aim target; its meaning depends on the subtype.
    pub desired_pos: Vec2,
    /// Hit points, or remaining time to live for shots.
    pub life_points: i64,
    /// Collision radius.
    pub box_size: i64,
    /// Accumulated spin of tumbling pickups and hazards, in milliradians.
    pub rotation: i64,
    /// Unit direction (in thousandths) of travel for aimed shots and of aim for a boss; zero otherwise.
    pub facing: Vec2,
}

/// Largest collision radius.
pub const BOX_LIMIT: i64 = 1_000_000;

/// Largest travel speed.
pub const SPEED_LIMIT: i64 = 1_000_000;

pub const PLAYER_BOX: i64 = 20_000;
pub const ENEMY_BOX: i64 = 22_000;
pub const BOSS_BOX: i64 = 20_000;
pub const SHOT_BOX: i64 = 1000;
pub const ASTEROID_BOX: i64 = 15_000;

/// Speed of aimed shots, per frame.
pub const SHOT_SPEED: i64 = 15_000;

/// Speed of drifting pickups and asteroids, per frame.
pub const DRIFT_SPEED: i64 = 2000;

/// Time to live of every shot.
pub const SHOT_LIFE: i64 = 15_000;

/// Toughness of an enemy spawned at score zero.
pub const ENEMY_BASE_LIFE: i64 = 700;

pub const BOSS_LIFE: i64 = 8000;
pub const BOSS_SPEED: i64 = 8000;

/// Where a boss appears, and the point it descends to.
pub const BOSS_START_Y: i64 = -10_000;
pub const BOSS_HOVER_Y: i64 = 80_000;

/// Where the sentinel actor is parked.
pub const SENTINEL_POS: i64 = -500_000;

pub open spec fn zero_vec() -> Vec2 {
    Vec2 { x: 0, y: 0 }
}

impl Actor {
    /// Bounds that keep every computation on the actor within machine integers.
    pub open spec fn wf(self) -> bool {
        &&& self.position.in_plane()
        &&& self.desired_pos.in_plane()
        &&& self.velocity.in_plane()
        &&& -ONE <= self.facing.x <= ONE
        &&& -ONE <= self.facing.y <= ONE
        &&& 0 <= self.box_size <= BOX_LIMIT
        &&& 0 <= self.speed <= SPEED_LIMIT
        &&& 0 <= self.attack_charge
    }

    pub open spec fn sentinel() -> Actor {
        Actor {
            tag: TypeActor::Absent,
            subtag: Subtype::Plain,
            velocity: zero_vec(),
            speed: 0,
            attack_charge: 0,
            position: Vec2 { x: SENTINEL_POS, y: SENTINEL_POS },
            desired_pos: zero_vec(),
            life_points: 0,
            box_size: 0,
            rotation: 0,
            facing: zero_vec(),
        }
    }

    /// The sentinel actor that stands for "no active player".
    pub fn new() -> (r: Actor)
        ensures
            r == Actor::sentinel(),
            r.wf(),
    {
        Actor {
            tag: TypeActor::Absent,
            subtag: Subtype::Plain,
            velocity: Vec2 { x: 0, y: 0 },
            speed: 0,
            attack_charge: 0,
            position: Vec2 { x: SENTINEL_POS, y: SENTINEL_POS },
            desired_pos: Vec2 { x: 0, y: 0 },
            life_points: 0,
            box_size: 0,
            rotation: 0,
            facing: Vec2 { x: 0, y: 0 },
        }
    }
}

pub open spec fn player_spec() -> Actor {
    Actor {
        tag: TypeActor::Player,
        subtag: Subtype::Plain,
        velocity: zero_vec(),
        speed: 0,
        attack_charge: 0,
        position: Vec2 { x: (SCREEN_WIDTH / 2) as i64, y: (SCREEN_HEIGHT / 2) as i64 },
        desired_pos: zero_vec(),
        life_points: ONE,
        box_size: PLAYER_BOX,
        rotation: 0,
        facing: zero_vec(),
    }
}

/// A fresh player at the centre of the screen with one life point.
pub fn create_player() -> (r: Actor)
    ensures
        r == player_spec(),
        r.wf(),
{
    Actor {
        tag: TypeActor::Player,
        subtag: Subtype::Plain,
        velocity: Vec2 { x: 0, y: 0 },
        speed: 0,
        attack_charge: 0,
        position: Vec2 { x: SCREEN_WIDTH / 2, y: SCREEN_HEIGHT / 2 },
        desired_pos: Vec2 { x: 0, y: 0 },
        life_points: ONE,
        box_size: PLAYER_BOX,
        rotation: 0,
        facing: Vec2 { x: 0, y: 0 },
    }
}

/// Enemy toughness at the given score: tougher as the score grows.
pub open spec fn enemy_life_spec(score: int) -> int {
    ENEMY_BASE_LIFE + score / 100
}

pub open spec fn enemy_spec(subtag: Subtype, position: Vec2, desired_pos: Vec2, speed: int, score: int) -> Actor {
    Actor {
        tag: TypeActor::Enemy,
        subtag,
        velocity: zero_vec(),
        speed: speed as i64,
        attack_charge: 0,
        position,
        desired_pos,
        life_points: enemy_life_spec(score) as i64,
        box_size: ENEMY_BOX,
        rotation: 0,
        facing: zero_vec(),
    }
}

/// An enemy of the given subtype at `position`, heading for `desired_pos`.
pub fn build_enemy(subtag: Subtype, position: Vec2, desired_pos: Vec2, starting_speed: i64, current_score: i64) -> (r: Actor)
    requires
        0 <= current_score,
    ensures
        r == enemy_spec(subtag, position, desired_pos, starting_speed as int, current_score as int),
{
    Actor {
        tag: TypeActor::Enemy,
        subtag,
        velocity: Vec2 { x: 0, y: 0 },
        speed: starting_speed,
        attack_charge: 0,
        position,
        desired_pos,
        life_points: ENEMY_BASE_LIFE + current_score / 100,
        box_size: ENEMY_BOX,
        rotation: 0,
        facing: Vec2 { x: 0, y: 0 },
    }
}

/// The subtype a regular enemy spawns with: roll 0 gives a basic enemy, any other a kamikaze.
pub open spec fn enemy_kind_spec(roll: int) -> Subtype {
    if roll == 0 {
        Subtype::BasicEnemy
    } else {
        Subtype::KamikazeEnemy
    }
}

pub fn enemy_kind(roll: i64) -> (r: Subtype)
    ensures
        r == enemy_kind_spec(roll as int),
{
    if roll == 0 {
        Subtype::BasicEnemy
    } else {
        Subtype::KamikazeEnemy
    }
}

/// A basic or kamikaze enemy (chosen at random) spawned just off a random screen edge.
pub fn create_enemy(desired_pos: Vec2, starting_speed: i64, current_score: i64) -> (r: Actor)
    requires
        0 <= current_score,
    ensures
        r.subtag == Subtype::BasicEnemy || r.subtag == Subtype::KamikazeEnemy,
        is_offscreen_spawn(r.position, SCREEN_WIDTH as int, SCREEN_HEIGHT as int),
        r.position.in_plane(),
        r == enemy_spec(r.subtag, r.position, desired_pos, starting_speed as int, current_score as int),
{
    let roll = random_in(0, 2);
    let position = random_offscreen_position(SCREEN_WIDTH, SCREEN_HEIGHT);
    build_enemy(enemy_kind(roll), position, desired_pos, starting_speed, current_score)
}

/// The pickup kind chosen by a roll: 0 more weapons, 1 faster reload, otherwise a shield.
pub open spec fn pickup_kind_spec(roll: int) -> Subtype {
    if roll == 0 {
        Subtype::BasicCountBuff
    } else if roll == 1 {
        Subtype::BasicReloadBuff
    } else {
        Subtype::BasicShieldBuff
    }
}

pub fn pickup_kind(roll: i64) -> (r: Subtype)
    ensures
        r == pickup_kind_spec(roll as int),
{
    if roll == 0 {
        Subtype::BasicCountBuff
    } else if roll == 1 {
        Subtype::BasicReloadBuff
    } else {
        Subtype::BasicShieldBuff
    }
}

pub open spec fn is_pickup(k: Subtype) -> bool {
    k == Subtype::BasicCountBuff || k == Subtype::BasicReloadBuff || k == Subtype::BasicShieldBuff
}

pub open spec fn is_aimed(k: Subtype) -> bool {
    k == Subtype::BasicShot || k == Subtype::EnemyShot
}

/// A shot requested as `requested`, whose final subtype is `kind`
/// (a requested count buff stands for any pickup).
pub open spec fn shot_spec(position: Vec2, desired_pos: Vec2, requested: Subtype, kind: Subtype) -> Actor {
    Actor {
        tag: TypeActor::Shot,
        subtag: kind,
        velocity: zero_vec(),
        speed: if is_aimed(requested) {
            SHOT_SPEED
        } else if requested == Subtype::BasicCountBuff || requested == Subtype::AsteroidShot {
            DRIFT_SPEED
        } else {
            0
        },
        attack_charge: 0,
        position,
        desired_pos,
        life_points: SHOT_LIFE,
        box_size: if requested == Subtype::AsteroidShot {
            ASTEROID_BOX
        } else {
            SHOT_BOX
        },
        rotation: 0,
        facing: if is_aimed(requested) {
            direction_spec(position, desired_pos)
        } else {
            zero_vec()
        },
    }
}

/// The shot of subtype `subtag` from `position` toward `desired_pos`; a requested
/// count buff becomes the pickup that `pickup_roll` names.
pub fn make_shot(position: Vec2, desired_pos: Vec2, subtag: Subtype, pickup_roll: i64) -> (r: Actor)
    requires
        position.in_plane(),
        desired_pos.in_plane(),
    ensures
        r == shot_spec(
            position,
            desired_pos,
            subtag,
            if subtag == Subtype::BasicCountBuff {
                pickup_kind_spec(pickup_roll as int)
            } else {
                subtag
            },
        ),
        r.wf(),
{
    let mut kind = subtag;
    let mut speed: i64 = 0;
    let mut box_size: i64 = SHOT_BOX;
    let mut facing = Vec2 { x: 0, y: 0 };
    match subtag {
        Subtype::BasicShot | Subtype::EnemyShot => {
            facing = position_to_direction(position, desired_pos);
            speed = SHOT_SPEED;
            proof {
                crate::helpers::lemma_direction_bounded(position, desired_pos);
            }
        },
        Subtype::BasicCountBuff => {
            kind = pickup_kind(pickup_roll);
            speed = DRIFT_SPEED;
        },
        Subtype::AsteroidShot => {
            box_size = ASTEROID_BOX;
            speed = DRIFT_SPEED;
        },
        _ => {},
    }
    Actor {
        tag: TypeActor::Shot,
        subtag: kind,
        velocity: Vec2 { x: 0, y: 0 },
        speed,
        attack_charge: 0,
        position,
        desired_pos,
        life_points: SHOT_LIFE,
        box_size,
        rotation: 0,
        facing,
    }
}

/// A shot of subtype `subtag`; a count buff re-rolls itself at random into one of the three pickups.
pub fn create_shot(position: Vec2, desired_pos: Vec2, subtag: Subtype) -> (r: Actor)
    requires
        position.in_plane(),
        desired_pos.in_plane(),
    ensures
        subtag == Subtype::BasicCountBuff ==> is_pickup(r.subtag),
        subtag != Subtype::BasicCountBuff ==> r.subtag == subtag,
        r == shot_spec(position, desired_pos, subtag, r.subtag),
        r.wf(),
{
    let roll = if subtag == Subtype::BasicCountBuff {
        random_in(0, 3)
    } else {
        0
    };
    make_shot(position, desired_pos, subtag, roll)
}

pub open spec fn boss_spec(subtag: Subtype) -> Actor {
    Actor {
        tag: TypeActor::Enemy,
        subtag,
        velocity: zero_vec(),
        speed: BOSS_SPEED,
        attack_charge: 0,
        position: Vec2 { x: (SCREEN_WIDTH / 2) as i64, y: BOSS_START_Y },
        desired_pos: Vec2 { x: (SCREEN_WIDTH / 2) as i64, y: BOSS_HOVER_Y },
        life_points: BOSS_LIFE,
        box_size: BOSS_BOX,
        rotation: 0,
        facing: zero_vec(),
    }
}

/// A boss just above the top edge, descending to its hover point.
pub fn create_boss(subtag: Subtype) -> (r: Actor)
    ensures
        r == boss_spec(subtag),
        r.wf(),
{
    Actor {
        tag: TypeActor::Enemy,
        subtag,
        velocity: Vec2 { x: 0, y: 0 },
        speed: BOSS_SPEED,
        attack_charge: 0,
        position: Vec2 { x: SCREEN_WIDTH / 2, y: BOSS_START_Y },
        desired_pos: Vec2 { x: SCREEN_WIDTH / 2, y: BOSS_HOVER_Y },
        life_points: BOSS_LIFE,
        box_size: BOSS_BOX,
        rotation: 0,
        facing: Vec2 { x: 0, y: 0 },
    }
}

} // verus!
