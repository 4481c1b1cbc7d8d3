use vstd::prelude::*;

use crate::actors::{
    boss_spec, build_enemy, create_boss, create_player, enemy_kind, enemy_kind_spec, enemy_spec,
    make_shot, pickup_kind_spec, player_spec, shot_spec, Actor, Subtype, TypeActor, SPEED_LIMIT,
};
use crate::animation::Animation;
use crate::behaviour::{
    ability_enemy_spec, ability_shots_spec, all_wf, basic_enemy_step, boss_enemy_step, dist_sq,
    distance_sq, enemy_motion_spec, player_motion_spec, shot_motion_spec,
    update_basic_enemy_movement, update_player_position, update_shot_movement, AbilityRoll,
    MAX_DT,
};
use crate::helpers::{
    add_saturating, clamp_player, clamp_player_spec, is_offscreen_spawn, is_patrol_point,
    make_rand_pos, plane, random_in, random_offscreen_position, sat_add, to_plane, Vec2, ONE,
    PATROL_MARGIN, SCREEN_HEIGHT, SCREEN_WIDTH,
};

verus! {

/// An interval timer: it fires once `elapsed` reaches `threshold`.
#[derive(Clone, Copy, Debug, PartialEq, Eq, Structural)]
pub struct Timer {
    pub elapsed: i64,
    pub threshold: i64,
}

/// Input intent between frames: movement, the fire button and the weapon upgrades.
#[derive(Clone, Copy, Debug, PartialEq, Eq, Structural)]
pub struct InputState {
    /// Target velocity of the player, per second.
    pub velocity: Vec2,
    pub is_firing: bool,
    pub firing_cooldown: Timer,
    /// How many shots one trigger pull fires.
    pub count_of_weapons: i64,
}

/// Player speed while a movement key is held, per second.
pub const MOVE_SPEED: i64 = 600_000;

pub open spec fn default_input() -> InputState {
    InputState {
        velocity: Vec2 { x: 0, y: 0 },
        is_firing: false,
        firing_cooldown: Timer { elapsed: 500, threshold: 800 },
        count_of_weapons: 1,
    }
}

impl Default for InputState {
    fn default() -> (r: InputState)
        ensures
            r == default_input(),
    {
        InputState {
            velocity: Vec2 { x: 0, y: 0 },
            is_firing: false,
            firing_cooldown: Timer { elapsed: 500, threshold: 800 },
            count_of_weapons: 1,
        }
    }
}

/// The world: the player, the enemies, the shots and pickups, the visual effects,
/// the spawn timers, score and difficulty, and the pause flag.
pub struct State {
    pub player: Actor,
    pub enemies: Vec<Actor>,
    pub shots: Vec<Actor>,
    pub input: InputState,
    pub enemy_timer: Timer,
    pub enemy_speed: i64,
    pub equipped_shields: i64,
    /// Seconds survived, in milliseconds.
    pub current_score: i64,
    pub is_boss_present: bool,
    pub animations: Vec<Animation>,
    pub paused: bool,
    pub ability_timer: Timer,
    pub asteroid_timer: Timer,
}

/// The mathematical model of a `State`.
pub struct World {
    pub player: Actor,
    pub enemies: Seq<Actor>,
    pub shots: Seq<Actor>,
    pub input: InputState,
    pub enemy_timer: Timer,
    pub enemy_speed: i64,
    pub equipped_shields: i64,
    pub current_score: i64,
    pub is_boss_present: bool,
    pub animations: Seq<Animation>,
    pub paused: bool,
    pub ability_timer: Timer,
    pub asteroid_timer: Timer,
}

impl View for State {
    type V = World;

    open spec fn view(&self) -> World {
        World {
            player: self.player,
            enemies: self.enemies@,
            shots: self.shots@,
            input: self.input,
            enemy_timer: self.enemy_timer,
            enemy_speed: self.enemy_speed,
            equipped_shields: self.equipped_shields,
            current_score: self.current_score,
            is_boss_present: self.is_boss_present,
            animations: self.animations@,
            paused: self.paused,
            ability_timer: self.ability_timer,
            asteroid_timer: self.asteroid_timer,
        }
    }
}

pub open spec fn all_animations_wf(a: Seq<Animation>) -> bool {
    forall|i: int| 0 <= i < a.len() ==> #[trigger] a[i].wf()
}

impl World {
    /// Bounds that keep every step of the simulation within machine integers; a live
    /// player has health left; and the game is paused exactly while the sentinel stands
    /// in for the player.
    pub open spec fn wf(self) -> bool {
        &&& self.bounded()
        &&& (self.player.tag == TypeActor::Player ==> self.player.life_points > 0)
        &&& (self.paused <==> self.player.tag == TypeActor::Absent)
    }

    /// Bounds that keep every step of the simulation within machine integers.
    pub open spec fn bounded(self) -> bool {
        &&& self.player.wf()
        &&& (self.player.tag == TypeActor::Player || self.player.tag == TypeActor::Absent)
        &&& all_wf(self.enemies)
        &&& all_wf(self.shots)
        &&& all_animations_wf(self.animations)
        &&& self.input.velocity.in_plane()
        &&& 0 <= self.input.count_of_weapons
        &&& 0 <= self.current_score
        &&& 0 <= self.enemy_speed <= crate::actors::SPEED_LIMIT
    }
}

impl State {
    pub open spec fn wf(&self) -> bool {
        self@.wf()
    }
}

/// Frames of a death effect.
pub const EXPLOSION_FRAMES: u64 = 4;

/// Milliseconds per frame of a death effect.
pub const EXPLOSION_FRAME_TIME: u64 = 100;

/// The player's health can be topped up by shields only while below this.
pub const SHIELD_CAP: i64 = 4000;

/// How much a reload pickup shortens the fire cooldown.
pub const RELOAD_STEP: i64 = 20;

/// Damage dealt to a boss by one hit.
pub const BOSS_HIT: i64 = 3000;

/// A boss whose health falls to this is gone for good.
pub const BOSS_DEATH_LINE: i64 = -1000;

pub open spec fn death_effect(p: Vec2) -> Animation {
    Animation::new_spec(EXPLOSION_FRAMES, EXPLOSION_FRAME_TIME, p)
}

/// Circle-circle proximity: the centres are closer than the sum of the radii.
pub open spec fn overlaps(a: Actor, b: Actor) -> bool {
    dist_sq(a.position, b.position) < (a.box_size + b.box_size) * (a.box_size + b.box_size)
}

pub open spec fn alive(a: Actor) -> bool {
    a.life_points > 0
}

pub open spec fn consumed(a: Actor) -> Actor {
    Actor { life_points: 0, ..a }
}

pub open spec fn damaged(a: Actor, amount: int) -> Actor {
    Actor { life_points: (a.life_points - amount) as i64, ..a }
}

/// A player whose health has run out leaves a death effect, becomes the sentinel,
/// and pauses the game.
pub open spec fn settle_player(w: World) -> World {
    if w.player.life_points <= 0 {
        World {
            animations: w.animations.push(death_effect(w.player.position)),
            player: Actor::sentinel(),
            paused: true,
            ..w
        }
    } else {
        w
    }
}

/// The player is hit once: one damage and one shield less.
pub open spec fn hit_player(w: World) -> World {
    World {
        player: damaged(w.player, ONE as int),
        equipped_shields: sat_add(w.equipped_shields as int, -1) as i64,
        ..w
    }
}

/// Shot `i` against the player.
pub open spec fn shot_vs_player_spec(w: World, i: int) -> World {
    let s = w.shots[i];
    let p = w.player;
    let used = w.shots.update(i, consumed(s));
    if !(p.tag == TypeActor::Player && alive(s) && overlaps(p, s)) {
        w
    } else if s.subtag == Subtype::EnemyShot || s.subtag == Subtype::AsteroidShot {
        settle_player(hit_player(World { shots: used, ..w }))
    } else if s.subtag == Subtype::BasicCountBuff {
        World {
            shots: used,
            input: InputState {
                count_of_weapons: sat_add(w.input.count_of_weapons as int, 1) as i64,
                ..w.input
            },
            ..w
        }
    } else if s.subtag == Subtype::BasicReloadBuff {
        World {
            shots: used,
            input: InputState {
                firing_cooldown: Timer {
                    threshold: sat_add(w.input.firing_cooldown.threshold as int, -RELOAD_STEP) as i64,
                    ..w.input.firing_cooldown
                },
                ..w.input
            },
            ..w
        }
    } else if s.subtag == Subtype::BasicShieldBuff {
        if p.life_points < SHIELD_CAP {
            World {
                shots: used,
                player: damaged(p, -ONE),
                equipped_shields: sat_add(w.equipped_shields as int, 1) as i64,
                ..w
            }
        } else {
            World { shots: used, ..w }
        }
    } else {
        w
    }
}

/// Damage that a player shot or an asteroid deals to an enemy of subtype `k`.
pub open spec fn shot_damage(k: Subtype) -> int {
    if k == Subtype::BossEnemy {
        BOSS_HIT as int
    } else if k == Subtype::BasicEnemy || k == Subtype::KamikazeEnemy {
        ONE as int
    } else {
        0
    }
}

/// Shot `i` against enemy `j`.
pub open spec fn shot_vs_enemy_spec(w: World, i: int, j: int) -> World {
    let s = w.shots[i];
    let e = w.enemies[j];
    let hurt = damaged(e, shot_damage(e.subtag));
    if !(alive(s) && alive(e) && overlaps(e, s) && (s.subtag == Subtype::BasicShot || s.subtag
        == Subtype::AsteroidShot)) {
        w
    } else {
        World {
            enemies: w.enemies.update(j, hurt),
            shots: if s.subtag == Subtype::BasicShot {
                w.shots.update(i, consumed(s))
            } else {
                w.shots
            },
            animations: w.animations.push(death_effect(e.position)),
            is_boss_present: if e.subtag == Subtype::BossEnemy && hurt.life_points <= BOSS_DEATH_LINE {
                false
            } else {
                w.is_boss_present
            },
            ..w
        }
    }
}

/// Enemy `j` against the player: both take one damage.
pub open spec fn enemy_vs_player_spec(w: World, j: int) -> World {
    let e = w.enemies[j];
    let p = w.player;
    if !(p.tag == TypeActor::Player && alive(e) && overlaps(p, e)) {
        w
    } else {
        settle_player(
            hit_player(
                World {
                    enemies: w.enemies.update(j, damaged(e, ONE as int)),
                    animations: if e.subtag == Subtype::BasicEnemy || e.subtag == Subtype::KamikazeEnemy {
                        w.animations.push(death_effect(e.position))
                    } else {
                        w.animations
                    },
                    ..w
                },
            ),
        )
    }
}

/// Shot `i` against the first `j` enemies, in order.
pub open spec fn shot_vs_enemies(w: World, i: int, j: nat) -> World
    decreases j,
{
    if j == 0 {
        w
    } else {
        shot_vs_enemy_spec(shot_vs_enemies(w, i, (j - 1) as nat), i, j - 1)
    }
}

/// Shot `i` against the player, then against every enemy.
pub open spec fn shot_round(w: World, i: int) -> World {
    let v = shot_vs_player_spec(w, i);
    shot_vs_enemies(v, i, v.enemies.len())
}

/// The rounds of the first `k` shots, in order.
pub open spec fn shot_rounds(w: World, k: nat) -> World
    decreases k,
{
    if k == 0 {
        w
    } else {
        shot_round(shot_rounds(w, (k - 1) as nat), k - 1)
    }
}

/// The first `k` enemies against the player, in order.
pub open spec fn contact_rounds(w: World, k: nat) -> World
    decreases k,
{
    if k == 0 {
        w
    } else {
        enemy_vs_player_spec(contact_rounds(w, (k - 1) as nat), k - 1)
    }
}

/// Removes every shot and enemy whose life has run out.
pub open spec fn prune_spec(w: World) -> World {
    World { shots: w.shots.filter(|a: Actor| alive(a)), enemies: w.enemies.filter(|a: Actor| alive(a)), ..w }
}

/// One full collision pass: every shot (against the player, then every enemy), then
/// every enemy against the player, then the dead are removed.
pub open spec fn collide_spec(w: World) -> World {
    let v = shot_rounds(w, w.shots.len());
    prune_spec(contact_rounds(v, v.enemies.len()))
}

fn overlapping(a: &Actor, b: &Actor) -> (r: bool)
    requires
        a.wf(),
        b.wf(),
    ensures
        r == overlaps(*a, *b),
{
    let d = distance_sq(a.position, b.position);
    let reach: i128 = a.box_size as i128 + b.box_size as i128;
    assert(0 <= reach * reach <= 4_000_000_000_000) by (nonlinear_arith)
        requires
            0 <= reach <= 2_000_000,
    ;
    d < reach * reach
}

impl State {
    /// Applies the death of a player whose health has run out.
    fn settle_player(&mut self)
        requires
            old(self)@.bounded(),
            old(self).player.tag == TypeActor::Player,
            !old(self).paused,
        ensures
            final(self)@ == settle_player(old(self)@),
            final(self).wf(),
    {
        if self.player.life_points <= 0 {
            self.animations.push(Animation::new(EXPLOSION_FRAMES, EXPLOSION_FRAME_TIME, self.player.position));
            self.player = Actor::new();
            self.paused = true;
        }
    }

    fn shot_vs_player(&mut self, i: usize)
        requires
            old(self).wf(),
            i < old(self).shots.len(),
        ensures
            final(self)@ == shot_vs_player_spec(old(self)@, i as int),
            final(self).wf(),
    {
        let shot = self.shots[i];
        if !(self.player.tag == TypeActor::Player && shot.life_points > 0 && overlapping(&self.player, &shot)) {
            return;
        }
        let used = Actor { life_points: 0, ..shot };
        assert(self.shots@[i as int].wf());
        match shot.subtag {
            Subtype::EnemyShot | Subtype::AsteroidShot => {
                self.shots.set(i, used);
                self.player.life_points = self.player.life_points - ONE;
                self.equipped_shields = add_saturating(self.equipped_shields, -1);
                self.settle_player();
            },
            Subtype::BasicCountBuff => {
                self.shots.set(i, used);
                self.input.count_of_weapons = add_saturating(self.input.count_of_weapons, 1);
            },
            Subtype::BasicReloadBuff => {
                self.shots.set(i, used);
                self.input.firing_cooldown.threshold = add_saturating(
                    self.input.firing_cooldown.threshold,
                    -RELOAD_STEP,
                );
            },
            Subtype::BasicShieldBuff => {
                self.shots.set(i, used);
                if self.player.life_points < SHIELD_CAP {
                    self.player.life_points = self.player.life_points + ONE;
                    self.equipped_shields = add_saturating(self.equipped_shields, 1);
                }
            },
            _ => {},
        }
    }

    fn shot_vs_enemy(&mut self, i: usize, j: usize)
        requires
            old(self).wf(),
            i < old(self).shots.len(),
            j < old(self).enemies.len(),
        ensures
            final(self)@ == shot_vs_enemy_spec(old(self)@, i as int, j as int),
            final(self).wf(),
    {
        let shot = self.shots[i];
        let enemy = self.enemies[j];
        if !(shot.life_points > 0 && enemy.life_points > 0 && overlapping(&enemy, &shot) && (shot.subtag
            == Subtype::BasicShot || shot.subtag == Subtype::AsteroidShot)) {
            return;
        }
        let damage: i64 = match enemy.subtag {
            Subtype::BossEnemy => BOSS_HIT,
            Subtype::BasicEnemy | Subtype::KamikazeEnemy => ONE,
            _ => 0,
        };
        let hurt = Actor { life_points: enemy.life_points - damage, ..enemy };
        assert(self.shots@[i as int].wf() && self.enemies@[j as int].wf());
        self.enemies.set(j, hurt);
        if shot.subtag == Subtype::BasicShot {
            self.shots.set(i, Actor { life_points: 0, ..shot });
        }
        self.animations.push(Animation::new(EXPLOSION_FRAMES, EXPLOSION_FRAME_TIME, enemy.position));
        if enemy.subtag == Subtype::BossEnemy && hurt.life_points <= BOSS_DEATH_LINE {
            self.is_boss_present = false;
        }
    }

    fn enemy_vs_player(&mut self, j: usize)
        requires
            old(self).wf(),
            j < old(self).enemies.len(),
        ensures
            final(self)@ == enemy_vs_player_spec(old(self)@, j as int),
            final(self).wf(),
    {
        let enemy = self.enemies[j];
        if !(self.player.tag == TypeActor::Player && enemy.life_points > 0 && overlapping(&self.player, &enemy)) {
            return;
        }
        assert(self.enemies@[j as int].wf());
        self.enemies.set(j, Actor { life_points: enemy.life_points - ONE, ..enemy });
        match enemy.subtag {
            Subtype::BasicEnemy | Subtype::KamikazeEnemy => {
                self.animations.push(Animation::new(EXPLOSION_FRAMES, EXPLOSION_FRAME_TIME, enemy.position));
            },
            _ => {},
        }
        self.player.life_points = self.player.life_points - ONE;
        self.equipped_shields = add_saturating(self.equipped_shields, -1);
        self.settle_player();
    }

    /// Removes every shot and enemy whose life has run out.
    pub fn handle_life_state(&mut self)
        requires
            old(self).wf(),
        ensures
            final(self)@ == prune_spec(old(self)@),
            final(self).wf(),
    {
        self.shots = keep_alive(&self.shots);
        self.enemies = keep_alive(&self.enemies);
    }

    /// Resolves every collision of this frame, then removes the dead.
    pub fn handle_collision(&mut self)
        requires
            old(self).wf(),
        ensures
            final(self)@ == collide_spec(old(self)@),
            final(self).wf(),
    {
        let ns = self.shots.len();
        let ne = self.enemies.len();
        let mut i: usize = 0;
        while i < ns
            invariant
                0 <= i <= ns,
                self.wf(),
                self.shots.len() == ns,
                self.enemies.len() == ne,
                ns == old(self).shots.len(),
                ne == old(self).enemies.len(),
                self@ == shot_rounds(old(self)@, i as nat),
            decreases ns - i,
        {
            self.shot_vs_player(i);
            let ghost w1 = self@;
            let mut j: usize = 0;
            while j < ne
                invariant
                    0 <= j <= ne,
                    i < ns,
                    self.wf(),
                    self.shots.len() == ns,
                    self.enemies.len() == ne,
                    w1.enemies.len() == ne,
                    self@ == shot_vs_enemies(w1, i as int, j as nat),
                decreases ne - j,
            {
                self.shot_vs_enemy(i, j);
                j = j + 1;
            }
            i = i + 1;
        }
        let ghost w2 = self@;
        let mut j: usize = 0;
        while j < ne
            invariant
                0 <= j <= ne,
                self.wf(),
                self.enemies.len() == ne,
                w2.enemies.len() == ne,
                self@ == contact_rounds(w2, j as nat),
            decreases ne - j,
        {
            self.enemy_vs_player(j);
            j = j + 1;
        }
        self.handle_life_state();
    }
}

/// The actors of `actors` that are still alive, in order.
fn keep_alive(actors: &Vec<Actor>) -> (r: Vec<Actor>)
    requires
        all_wf(actors@),
    ensures
        r@ == actors@.filter(|a: Actor| alive(a)),
        all_wf(r@),
{
    let mut out: Vec<Actor> = Vec::new();
    let mut i: usize = 0;
    while i < actors.len()
        invariant
            0 <= i <= actors.len(),
            all_wf(actors@),
            out@ == actors@.take(i as int).filter(|a: Actor| alive(a)),
            all_wf(out@),
        decreases actors.len() - i,
    {
        proof {
            assert(actors@.take(i as int + 1).drop_last() =~= actors@.take(i as int));
            reveal(Seq::filter);
        }
        if actors[i].life_points > 0 {
            out.push(actors[i]);
        }
        i = i + 1;
    }
    assert(actors@.take(actors.len() as int) =~= actors@);
    out
}

/// Enemy spawn cadence at the start of a game.
pub const ENEMY_SPAWN_INTERVAL: i64 = 4000;

/// Enemy speed at the start of a game.
pub const ENEMY_START_SPEED: i64 = 7000;

/// Pickup spawn cadence.
pub const ABILITY_SPAWN_INTERVAL: i64 = 5000;

/// Asteroid spawn cadence.
pub const ASTEROID_SPAWN_INTERVAL: i64 = 9000;

/// The enemy spawn interval shrinks only while it is at least this long.
pub const SPAWN_RAMP_FLOOR: i64 = 1500;

/// How much each enemy spawn shortens the spawn interval.
pub const SPAWN_RAMP_STEP: i64 = 100;

/// How much each enemy spawn speeds up later enemies.
pub const SPEED_RAMP_STEP: i64 = 40;

/// How much a boss lengthens the enemy spawn interval.
pub const BOSS_SPAWN_DELAY: i64 = 1500;

/// A boss appears whenever the score, rounded up to whole seconds, is a multiple of this.
pub const BOSS_PERIOD: i64 = 40;

/// Horizontal spread between the targets of a volley's shots.
pub const VOLLEY_SPREAD: i64 = 300_000;

/// Height the player's shots aim at, far above the screen.
pub const VOLLEY_TARGET_Y: i64 = -100_000;

/// How far above the player's centre its shots start.
pub const GUN_RISE: i64 = 2000;

/// Height pickups start at, above the screen.
pub const PICKUP_START_Y: i64 = -10_000;

/// How far below the screen pickups head.
pub const PICKUP_EXIT_DEPTH: i64 = 30_000;

/// Time step of the visual effects, per frame.
pub const EFFECT_STEP: u64 = 16;

pub open spec fn new_world() -> World {
    World {
        player: player_spec(),
        enemies: seq![],
        shots: seq![],
        input: default_input(),
        enemy_timer: Timer { elapsed: 0, threshold: ENEMY_SPAWN_INTERVAL },
        enemy_speed: ENEMY_START_SPEED,
        equipped_shields: 0,
        current_score: 0,
        is_boss_present: false,
        animations: seq![],
        paused: false,
        ability_timer: Timer { elapsed: 0, threshold: ABILITY_SPAWN_INTERVAL },
        asteroid_timer: Timer { elapsed: 0, threshold: ASTEROID_SPAWN_INTERVAL },
    }
}

/// `t` advanced by `dt`.
pub open spec fn tick(t: Timer, dt: int) -> Timer {
    Timer { elapsed: sat_add(t.elapsed as int, dt) as i64, ..t }
}

/// `t` fires after `dt` more time.
pub open spec fn fires(t: Timer, dt: int) -> bool {
    tick(t, dt).elapsed >= t.threshold
}

/// The random draws of one enemy spawn.
#[derive(Clone, Copy, Debug, PartialEq, Eq, Structural)]
pub struct EnemyRoll {
    /// 0 for a basic enemy, otherwise a kamikaze.
    pub kind: i64,
    pub position: Vec2,
    pub patrol: Vec2,
}

pub open spec fn spawn_enemy_spec(w: World, dt: int, roll: EnemyRoll) -> World {
    let t = w.enemy_timer;
    if fires(t, dt) {
        World {
            enemies: w.enemies.push(
                enemy_spec(
                    enemy_kind_spec(roll.kind as int),
                    roll.position,
                    roll.patrol,
                    w.enemy_speed as int,
                    w.current_score as int,
                ),
            ),
            enemy_timer: Timer {
                elapsed: 0,
                threshold: if t.threshold >= SPAWN_RAMP_FLOOR {
                    (t.threshold - SPAWN_RAMP_STEP) as i64
                } else {
                    t.threshold
                },
            },
            enemy_speed: if w.enemy_speed + SPEED_RAMP_STEP > SPEED_LIMIT {
                SPEED_LIMIT
            } else {
                (w.enemy_speed + SPEED_RAMP_STEP) as i64
            },
            ..w
        }
    } else {
        World { enemy_timer: tick(t, dt), ..w }
    }
}

pub open spec fn spawn_asteroid_spec(w: World, dt: int, from: Vec2, to: Vec2) -> World {
    if fires(w.asteroid_timer, dt) {
        World {
            shots: w.shots.push(shot_spec(from, to, Subtype::AsteroidShot, Subtype::AsteroidShot)),
            asteroid_timer: Timer { elapsed: 0, ..w.asteroid_timer },
            ..w
        }
    } else {
        World { asteroid_timer: tick(w.asteroid_timer, dt), ..w }
    }
}

/// Horizontal offset of the target of a volley's `i`-th shot: alternately right and
/// left of the player, further out every two shots.
pub open spec fn volley_offset(i: int) -> int {
    if i % 2 == 0 {
        (i / 2) * VOLLEY_SPREAD
    } else {
        -(((i + 1) / 2) * VOLLEY_SPREAD)
    }
}

pub open spec fn gun_spec(p: Vec2) -> Vec2 {
    Vec2 { x: p.x, y: plane(p.y - GUN_RISE) as i64 }
}

pub open spec fn player_shot_spec(p: Vec2, i: int) -> Actor {
    shot_spec(
        gun_spec(p),
        Vec2 { x: plane(p.x + volley_offset(i)) as i64, y: VOLLEY_TARGET_Y },
        Subtype::BasicShot,
        Subtype::BasicShot,
    )
}

/// The shots of one trigger pull: one per weapon.
pub open spec fn volley_spec(p: Vec2, count: int) -> Seq<Actor> {
    Seq::new(count as nat, |i: int| player_shot_spec(p, i))
}

pub open spec fn spawn_player_shot_spec(w: World, dt: int) -> World {
    let c = w.input.firing_cooldown;
    let count = w.input.count_of_weapons;
    if w.input.is_firing && fires(c, dt) {
        World {
            shots: w.shots + volley_spec(w.player.position, count as int),
            input: InputState {
                firing_cooldown: if count > 0 {
                    Timer { elapsed: 0, ..c }
                } else {
                    tick(c, dt)
                },
                ..w.input
            },
            ..w
        }
    } else {
        World { input: InputState { firing_cooldown: tick(c, dt), ..w.input }, ..w }
    }
}

/// The shots that the first `k` enemies fire during their behaviour.
pub open spec fn abilities_shots(es: Seq<Actor>, player_pos: Vec2, dt: int, rolls: Seq<AbilityRoll>, k: nat) -> Seq<Actor>
    decreases k,
{
    if k == 0 {
        seq![]
    } else {
        abilities_shots(es, player_pos, dt, rolls, (k - 1) as nat) + ability_shots_spec(
            es[k - 1],
            player_pos,
            dt,
            rolls[k - 1],
        )
    }
}

/// Every enemy's behaviour for the frame, in order; enemy `j` uses `rolls[j]`.
pub open spec fn abilities_spec(w: World, dt: int, rolls: Seq<AbilityRoll>) -> World {
    World {
        enemies: Seq::new(
            w.enemies.len(),
            |j: int| ability_enemy_spec(w.enemies[j], w.player.position, dt, rolls[j]),
        ),
        shots: w.shots + abilities_shots(w.enemies, w.player.position, dt, rolls, w.enemies.len()),
        ..w
    }
}

/// The score rounded up to whole seconds is a multiple of the boss period.
pub open spec fn boss_due(score: int) -> bool {
    ((score + ONE - 1) / ONE as int) % BOSS_PERIOD as int == 0
}

pub open spec fn spawn_boss_spec(w: World) -> World {
    if boss_due(w.current_score as int) && !w.is_boss_present {
        World {
            is_boss_present: true,
            enemies: w.enemies.push(boss_spec(Subtype::BossEnemy)),
            enemy_timer: Timer {
                threshold: sat_add(w.enemy_timer.threshold as int, BOSS_SPAWN_DELAY as int) as i64,
                ..w.enemy_timer
            },
            ..w
        }
    } else {
        w
    }
}

pub open spec fn effects_spec(w: World) -> World {
    World {
        animations: w.animations.map_values(|a: Animation| a.update_spec(EFFECT_STEP)).filter(
            |a: Animation| !a.finished,
        ),
        ..w
    }
}

pub open spec fn pickup_spec(x: i64, roll: int) -> Actor {
    shot_spec(
        Vec2 { x, y: PICKUP_START_Y },
        Vec2 { x, y: (SCREEN_HEIGHT + PICKUP_EXIT_DEPTH) as i64 },
        Subtype::BasicCountBuff,
        pickup_kind_spec(roll),
    )
}

pub open spec fn spawn_behaviour_spec(w: World, dt: int, x: i64, roll: int) -> World {
    if fires(w.ability_timer, dt) {
        World {
            shots: w.shots.push(pickup_spec(x, roll)),
            ability_timer: Timer { elapsed: 0, ..w.ability_timer },
            ..w
        }
    } else {
        World { ability_timer: tick(w.ability_timer, dt), ..w }
    }
}

impl State {
    /// A fresh game: a player at the centre, nothing else, timers and score at zero.
    pub fn new() -> (r: State)
        ensures
            r@ == new_world(),
            r.wf(),
    {
        State {
            player: create_player(),
            enemies: Vec::new(),
            shots: Vec::new(),
            input: InputState::default(),
            enemy_timer: Timer { elapsed: 0, threshold: ENEMY_SPAWN_INTERVAL },
            enemy_speed: ENEMY_START_SPEED,
            equipped_shields: 0,
            current_score: 0,
            is_boss_present: false,
            animations: Vec::new(),
            paused: false,
            ability_timer: Timer { elapsed: 0, threshold: ABILITY_SPAWN_INTERVAL },
            asteroid_timer: Timer { elapsed: 0, threshold: ASTEROID_SPAWN_INTERVAL },
        }
    }

    /// Advances the enemy timer; when it fires, spawns the enemy that `roll` describes
    /// and ramps up the difficulty.
    pub fn spawn_enemy(&mut self, dt: i64, roll: EnemyRoll)
        requires
            old(self).wf(),
            0 <= dt <= MAX_DT,
            roll.position.in_plane(),
            roll.patrol.in_plane(),
        ensures
            final(self)@ == spawn_enemy_spec(old(self)@, dt as int, roll),
            final(self).wf(),
    {
        self.enemy_timer.elapsed = add_saturating(self.enemy_timer.elapsed, dt);
        if self.enemy_timer.elapsed >= self.enemy_timer.threshold {
            let enemy = build_enemy(
                enemy_kind(roll.kind),
                roll.position,
                roll.patrol,
                self.enemy_speed,
                self.current_score,
            );
            self.enemies.push(enemy);
            self.enemy_timer.elapsed = 0;
            if self.enemy_timer.threshold >= SPAWN_RAMP_FLOOR {
                self.enemy_timer.threshold = self.enemy_timer.threshold - SPAWN_RAMP_STEP;
            }
            self.enemy_speed = if self.enemy_speed > SPEED_LIMIT - SPEED_RAMP_STEP {
                SPEED_LIMIT
            } else {
                self.enemy_speed + SPEED_RAMP_STEP
            };
            proof {
                assert(self.enemies@.last().wf());
                assert(forall|k: int| 0 <= k < self.enemies@.len() - 1 ==> self.enemies@[k] == old(self).enemies@[k]);
            }
        }
    }

    /// Advances the asteroid timer; when it fires, an asteroid crosses from `from` to `to`.
    pub fn spawn_asteroid(&mut self, dt: i64, from: Vec2, to: Vec2)
        requires
            old(self).wf(),
            0 <= dt <= MAX_DT,
            from.in_plane(),
            to.in_plane(),
        ensures
            final(self)@ == spawn_asteroid_spec(old(self)@, dt as int, from, to),
            final(self).wf(),
    {
        self.asteroid_timer.elapsed = add_saturating(self.asteroid_timer.elapsed, dt);
        if self.asteroid_timer.elapsed >= self.asteroid_timer.threshold {
            let shot = make_shot(from, to, Subtype::AsteroidShot, 0);
            self.shots.push(shot);
            self.asteroid_timer.elapsed = 0;
            proof {
                assert(forall|k: int| 0 <= k < self.shots@.len() - 1 ==> self.shots@[k] == old(self).shots@[k]);
            }
        }
    }

    /// Advances the fire cooldown; while the trigger is held and the cooldown is over,
    /// fires one shot per weapon.
    pub fn spawn_player_shot(&mut self, dt: i64)
        requires
            old(self).wf(),
            0 <= dt <= MAX_DT,
        ensures
            final(self)@ == spawn_player_shot_spec(old(self)@, dt as int),
            final(self).wf(),
    {
        self.input.firing_cooldown.elapsed = add_saturating(self.input.firing_cooldown.elapsed, dt);
        if self.input.is_firing && self.input.firing_cooldown.elapsed >= self.input.firing_cooldown.threshold {
            let count = self.input.count_of_weapons;
            let p = self.player.position;
            let source_pos = Vec2 { x: p.x, y: to_plane(p.y as i128 - GUN_RISE as i128) };
            let ghost base = self.shots@;
            let ghost w0 = self@;
            let mut i: i64 = 0;
            while i < count
                invariant
                    0 <= i <= count,
                    count == w0.input.count_of_weapons,
                    self@ == (World {
                        shots: self.shots@,
                        input: InputState {
                            firing_cooldown: Timer {
                                elapsed: if i > 0 { 0 } else { w0.input.firing_cooldown.elapsed },
                                ..w0.input.firing_cooldown
                            },
                            ..w0.input
                        },
                        ..w0
                    }),
                    self.wf(),
                    p == self.player.position,
                    p.in_plane(),
                    source_pos == gun_spec(p),
                    self.shots@ == base + Seq::new(i as nat, |k: int| player_shot_spec(p, k)),
                decreases count - i,
            {
                let off: i128 = if i % 2 == 0 {
                    (i / 2) as i128 * VOLLEY_SPREAD as i128
                } else {
                    -(((i + 1) / 2) as i128 * VOLLEY_SPREAD as i128)
                };
                let dest_pos = Vec2 { x: to_plane(p.x as i128 + off), y: VOLLEY_TARGET_Y };
                let shot = make_shot(source_pos, dest_pos, Subtype::BasicShot, 0);
                self.shots.push(shot);
                self.input.firing_cooldown.elapsed = 0;
                proof {
                    assert(self.shots@ =~= base + Seq::new((i + 1) as nat, |k: int| player_shot_spec(p, k)));
                    assert(shot == player_shot_spec(p, i as int));
                }
                i = i + 1;
            }
        }
    }

    /// Runs every enemy's behaviour for the frame; enemy `j` draws on `rolls[j]`.
    pub fn trigger_enemy_ability(&mut self, dt: i64, rolls: &Vec<AbilityRoll>)
        requires
            old(self).wf(),
            0 <= dt <= MAX_DT,
            rolls.len() >= old(self).enemies.len(),
            forall|j: int| 0 <= j < rolls.len() ==> (#[trigger] rolls@[j]).patrol.in_plane(),
        ensures
            final(self)@ == abilities_spec(old(self)@, dt as int, rolls@),
            final(self).wf(),
    {
        let n = self.enemies.len();
        let ghost pp = self.player.position;
        let mut j: usize = 0;
        while j < n
            invariant
                0 <= j <= n == self.enemies.len() == old(self).enemies.len(),
                0 <= dt <= MAX_DT,
                rolls.len() >= n,
                forall|k: int| 0 <= k < rolls.len() ==> (#[trigger] rolls@[k]).patrol.in_plane(),
                self.wf(),
                pp == old(self).player.position,
                self.player == old(self).player,
                forall|k: int| 0 <= k < j ==> self.enemies@[k] == ability_enemy_spec(#[trigger] old(self).enemies@[k], pp, dt as int, rolls@[k]),
                forall|k: int| j <= k < n ==> self.enemies@[k] == old(self).enemies@[k],
                self.shots@ == old(self).shots@ + abilities_shots(old(self).enemies@, pp, dt as int, rolls@, j as nat),
                self@ == (World { enemies: self.enemies@, shots: self.shots@, ..old(self)@ }),
            decreases n - j,
        {
            let mut e = self.enemies[j];
            assert(e.wf()) by { assert(self.enemies@[j as int].wf()); }
            let roll = rolls[j];
            let ghost before = self.shots@;
            match e.subtag {
                Subtype::BasicEnemy => {
                    basic_enemy_step(&mut e, &mut self.player, &mut self.shots, roll.patrol);
                },
                Subtype::KamikazeEnemy => {
                    e.desired_pos = self.player.position;
                },
                Subtype::BossEnemy => {
                    boss_enemy_step(&mut e, &mut self.player, &mut self.shots, dt, roll.volley);
                },
                _ => {},
            }
            self.enemies.set(j, e);
            proof {
                let added = ability_shots_spec(old(self).enemies@[j as int], pp, dt as int, rolls@[j as int]);
                assert(self.shots@ =~= before + added);
                assert(old(self).shots@ + abilities_shots(old(self).enemies@, pp, dt as int, rolls@, (j + 1) as nat)
                    =~= old(self).shots@ + abilities_shots(old(self).enemies@, pp, dt as int, rolls@, j as nat) + added);
                assert forall|k: int| 0 <= k < self.shots@.len() implies #[trigger] self.shots@[k].wf() by {
                    if k < before.len() {
                        assert(before[k].wf());
                    } else {
                        assert(self.shots@[k] == added[k - before.len()]);
                    }
                }
            }
            j = j + 1;
        }
        proof {
            assert(self.enemies@ =~= Seq::new(
                old(self).enemies@.len(),
                |k: int| ability_enemy_spec(old(self).enemies@[k], pp, dt as int, rolls@[k]),
            ));
        }
    }
}

/// All the random draws of one frame.
pub struct FrameRolls {
    pub enemy: EnemyRoll,
    /// One per enemy, in order.
    pub abilities: Vec<AbilityRoll>,
    pub asteroid_from: Vec2,
    pub asteroid_to: Vec2,
    /// Horizontal position of a pickup.
    pub pickup_x: i64,
    /// Which pickup a spawned pickup is.
    pub pickup_roll: i64,
}

/// Draws that the simulation can use for a world with `enemies` enemies.
pub open spec fn rolls_fit(r: FrameRolls, enemies: int) -> bool {
    &&& r.enemy.position.in_plane()
    &&& r.enemy.patrol.in_plane()
    &&& r.abilities.len() > enemies
    &&& forall|j: int| 0 <= j < r.abilities.len() ==> (#[trigger] r.abilities@[j]).patrol.in_plane()
    &&& r.asteroid_from.in_plane()
    &&& r.asteroid_to.in_plane()
    &&& crate::helpers::in_plane_int(r.pickup_x as int)
}

/// Draws as the random sources give them.
pub open spec fn rolls_drawn(r: FrameRolls, enemies: int) -> bool {
    &&& rolls_fit(r, enemies)
    &&& 0 <= r.enemy.kind < 2
    &&& is_offscreen_spawn(r.enemy.position, SCREEN_WIDTH as int, SCREEN_HEIGHT as int)
    &&& is_patrol_point(r.enemy.patrol)
    &&& forall|j: int| 0 <= j < r.abilities.len() ==> is_patrol_point(#[trigger] r.abilities@[j].patrol)
    &&& is_offscreen_spawn(r.asteroid_from, SCREEN_WIDTH as int, SCREEN_HEIGHT as int)
    &&& is_offscreen_spawn(r.asteroid_to, SCREEN_WIDTH as int, SCREEN_HEIGHT as int)
    &&& PATROL_MARGIN <= r.pickup_x < SCREEN_WIDTH
    &&& 0 <= r.pickup_roll < 3
}

/// The time step of a frame: the elapsed time, clamped.
pub open spec fn frame_dt(dt: u64) -> int {
    if dt > MAX_DT {
        MAX_DT as int
    } else {
        dt as int
    }
}

pub open spec fn move_player_spec(w: World, dt: int) -> World {
    World { player: clamp_player_spec(player_motion_spec(w.player, w.input.velocity, dt)), ..w }
}

pub open spec fn move_enemies_spec(w: World, dt: int) -> World {
    World { enemies: w.enemies.map_values(|e: Actor| enemy_motion_spec(e, dt)), ..w }
}

pub open spec fn move_shots_spec(w: World, dt: int) -> World {
    World { shots: w.shots.map_values(|s: Actor| shot_motion_spec(s, dt)), ..w }
}

pub open spec fn score_spec(w: World, dt: int) -> World {
    World { current_score: sat_add(w.current_score as int, dt) as i64, ..w }
}

/// One frame, in order: move the player, spawn and move enemies, run their behaviour,
/// fire, move shots, spawn asteroids, resolve collisions, score, spawn a boss, play
/// effects, spawn pickups. A paused world does not change.
pub open spec fn frame_spec(w: World, elapsed: u64, r: FrameRolls) -> World {
    if w.paused {
        w
    } else {
        let dt = frame_dt(elapsed);
        let w1 = move_player_spec(w, dt);
        let w2 = spawn_enemy_spec(w1, dt, r.enemy);
        let w3 = move_enemies_spec(w2, dt);
        let w4 = abilities_spec(w3, dt, r.abilities@);
        let w5 = spawn_player_shot_spec(w4, dt);
        let w6 = move_shots_spec(w5, dt);
        let w7 = spawn_asteroid_spec(w6, dt, r.asteroid_from, r.asteroid_to);
        let w8 = collide_spec(w7);
        let w9 = score_spec(w8, dt);
        let w10 = spawn_boss_spec(w9);
        let w11 = effects_spec(w10);
        spawn_behaviour_spec(w11, dt, r.pickup_x, r.pickup_roll as int)
    }
}

/// The input keys the simulation reacts to.
#[derive(Clone, Copy, Debug, PartialEq, Eq, Structural)]
pub enum Key {
    Right,
    Left,
    Down,
    Up,
    Restart,
    Fire,
    Other,
}

pub open spec fn key_down_spec(w: World, key: Key) -> World {
    let i = w.input;
    match key {
        Key::Right => World { input: InputState { velocity: Vec2 { x: MOVE_SPEED, ..i.velocity }, ..i }, ..w },
        Key::Left => World { input: InputState { velocity: Vec2 { x: (-MOVE_SPEED) as i64, ..i.velocity }, ..i }, ..w },
        Key::Down => World { input: InputState { velocity: Vec2 { y: MOVE_SPEED, ..i.velocity }, ..i }, ..w },
        Key::Up => World { input: InputState { velocity: Vec2 { y: (-MOVE_SPEED) as i64, ..i.velocity }, ..i }, ..w },
        Key::Restart => if w.player.tag == TypeActor::Absent {
            new_world()
        } else {
            w
        },
        Key::Fire => World { input: InputState { is_firing: true, ..i }, ..w },
        Key::Other => w,
    }
}

pub open spec fn key_up_spec(w: World, key: Key) -> World {
    let i = w.input;
    match key {
        Key::Right | Key::Left => World { input: InputState { velocity: Vec2 { x: 0, ..i.velocity }, ..i }, ..w },
        Key::Up | Key::Down => World { input: InputState { velocity: Vec2 { y: 0, ..i.velocity }, ..i }, ..w },
        Key::Fire => World { input: InputState { is_firing: false, ..i }, ..w },
        _ => w,
    }
}

impl State {
    /// Spawns a boss when the score reaches a boss period and none is present.
    pub fn spawn_boss(&mut self)
        requires
            old(self).wf(),
        ensures
            final(self)@ == spawn_boss_spec(old(self)@),
            final(self).wf(),
    {
        let score = self.current_score;
        let seconds: i64 = if score % ONE == 0 {
            score / ONE
        } else {
            score / ONE + 1
        };
        assert(seconds == (score + ONE - 1) / ONE as int);
        if seconds % BOSS_PERIOD == 0 && !self.is_boss_present {
            self.is_boss_present = true;
            let boss = create_boss(Subtype::BossEnemy);
            self.enemies.push(boss);
            self.enemy_timer.threshold = add_saturating(self.enemy_timer.threshold, BOSS_SPAWN_DELAY);
            proof {
                assert(forall|k: int| 0 <= k < self.enemies@.len() - 1 ==> self.enemies@[k] == old(self).enemies@[k]);
            }
        }
    }

    /// Plays every effect one step on and drops the finished ones.
    pub fn animation_handler(&mut self)
        requires
            old(self).wf(),
        ensures
            final(self)@ == effects_spec(old(self)@),
            final(self).wf(),
    {
        let mut out: Vec<Animation> = Vec::new();
        let ghost stepped = self.animations@.map_values(|a: Animation| a.update_spec(EFFECT_STEP));
        let mut i: usize = 0;
        while i < self.animations.len()
            invariant
                0 <= i <= self.animations.len(),
                self.wf(),
                self@ == old(self)@,
                stepped == self.animations@.map_values(|a: Animation| a.update_spec(EFFECT_STEP)),
                out@ == stepped.take(i as int).filter(|a: Animation| !a.finished),
                all_animations_wf(out@),
            decreases self.animations.len() - i,
        {
            let mut a = self.animations[i];
            assert(a.wf()) by { assert(self.animations@[i as int].wf()); }
            a.update(EFFECT_STEP);
            proof {
                assert(stepped.take(i as int + 1).drop_last() =~= stepped.take(i as int));
                reveal(Seq::filter);
            }
            if !a.finished {
                out.push(a);
            }
            i = i + 1;
        }
        assert(stepped.take(self.animations.len() as int) =~= stepped);
        self.animations = out;
    }

    /// Advances the pickup timer; when it fires, a pickup (the kind `pickup_roll` names)
    /// drifts down from above the screen at `x`.
    pub fn spawn_behaviour(&mut self, dt: i64, x: i64, pickup_roll: i64)
        requires
            old(self).wf(),
            0 <= dt <= MAX_DT,
            crate::helpers::in_plane_int(x as int),
        ensures
            final(self)@ == spawn_behaviour_spec(old(self)@, dt as int, x, pickup_roll as int),
            final(self).wf(),
    {
        self.ability_timer.elapsed = add_saturating(self.ability_timer.elapsed, dt);
        if self.ability_timer.elapsed >= self.ability_timer.threshold {
            spawn_ability(Vec2 { x, y: PICKUP_START_Y }, &mut self.shots, pickup_roll);
            self.ability_timer.elapsed = 0;
            proof {
                assert(forall|k: int| 0 <= k < self.shots@.len() - 1 ==> self.shots@[k] == old(self).shots@[k]);
            }
        }
    }

    /// Moves the player and keeps it on screen.
    fn move_player(&mut self, dt: i64)
        requires
            old(self).wf(),
            0 <= dt <= MAX_DT,
        ensures
            final(self)@ == move_player_spec(old(self)@, dt as int),
            final(self).wf(),
    {
        update_player_position(&mut self.player, &mut self.input, dt);
        clamp_player(&mut self.player);
    }

    /// Advances the world by one frame of `elapsed` milliseconds (at most `MAX_DT` count),
    /// using the given random draws.
    pub fn advance(&mut self, elapsed: u64, rolls: &FrameRolls)
        requires
            old(self).wf(),
            rolls_fit(*rolls, old(self).enemies.len() as int),
        ensures
            final(self)@ == frame_spec(old(self)@, elapsed, *rolls),
            final(self).wf(),
    {
        if self.paused {
            return;
        }
        let dt: i64 = if elapsed > MAX_DT as u64 {
            MAX_DT
        } else {
            elapsed as i64
        };
        self.move_player(dt);
        self.spawn_enemy(dt, rolls.enemy);
        update_basic_enemy_movement(&mut self.enemies, dt);
        self.trigger_enemy_ability(dt, &rolls.abilities);
        self.spawn_player_shot(dt);
        update_shot_movement(&mut self.shots, dt);
        self.spawn_asteroid(dt, rolls.asteroid_from, rolls.asteroid_to);
        self.handle_collision();
        self.current_score = add_saturating(self.current_score, dt);
        self.spawn_boss();
        self.animation_handler();
        self.spawn_behaviour(dt, rolls.pickup_x, rolls.pickup_roll);
    }

    /// Advances the world by one frame of `elapsed` milliseconds, drawing the frame's
    /// random choices.
    pub fn update(&mut self, elapsed: u64)
        requires
            old(self).wf(),
        ensures
            exists|r: FrameRolls|
                rolls_drawn(r, old(self).enemies.len() as int) && final(self)@ == frame_spec(
                    old(self)@,
                    elapsed,
                    r,
                ),
            final(self).wf(),
    {
        let rolls = draw_rolls(self.enemies.len());
        self.advance(elapsed, &rolls);
    }

    /// A key was pressed.
    pub fn key_down_event(&mut self, key: Key)
        requires
            old(self).wf(),
        ensures
            final(self)@ == key_down_spec(old(self)@, key),
            final(self).wf(),
    {
        match key {
            Key::Right => self.input.velocity.x = MOVE_SPEED,
            Key::Left => self.input.velocity.x = -MOVE_SPEED,
            Key::Down => self.input.velocity.y = MOVE_SPEED,
            Key::Up => self.input.velocity.y = -MOVE_SPEED,
            Key::Restart => {
                if self.player.tag == TypeActor::Absent {
                    *self = State::new();
                }
            },
            Key::Fire => self.input.is_firing = true,
            Key::Other => {},
        }
    }

    /// A key was released.
    pub fn key_up_event(&mut self, key: Key)
        requires
            old(self).wf(),
        ensures
            final(self)@ == key_up_spec(old(self)@, key),
            final(self).wf(),
    {
        match key {
            Key::Right | Key::Left => self.input.velocity.x = 0,
            Key::Up | Key::Down => self.input.velocity.y = 0,
            Key::Fire => self.input.is_firing = false,
            _ => {},
        }
    }
}

/// Pushes a pickup that drifts from `source_pos` straight down past the bottom of the screen.
fn spawn_ability(source_pos: Vec2, shots: &mut Vec<Actor>, pickup_roll: i64)
    requires
        source_pos.in_plane(),
        source_pos.y == PICKUP_START_Y,
    ensures
        final(shots)@ == old(shots)@.push(pickup_spec(source_pos.x, pickup_roll as int)),
        pickup_spec(source_pos.x, pickup_roll as int).wf(),
{
    let desired_pos = Vec2 { x: source_pos.x, y: SCREEN_HEIGHT + PICKUP_EXIT_DEPTH };
    let shot = make_shot(source_pos, desired_pos, Subtype::BasicCountBuff, pickup_roll);
    shots.push(shot);
}

/// Draws the random choices of one frame for a world with `enemies` enemies.
fn draw_rolls(enemies: usize) -> (r: FrameRolls)
    ensures
        rolls_drawn(r, enemies as int),
{
    let kind = random_in(0, 2);
    let position = random_offscreen_position(SCREEN_WIDTH, SCREEN_HEIGHT);
    let patrol = make_rand_pos();
    let mut abilities: Vec<AbilityRoll> = Vec::new();
    abilities.push(AbilityRoll { volley: random_in(0, 2) == 1, patrol: make_rand_pos() });
    let mut j: usize = 0;
    while j < enemies
        invariant
            abilities.len() == j + 1,
            j <= enemies,
            forall|k: int| 0 <= k < abilities.len() ==> (#[trigger] abilities@[k]).patrol.in_plane() && is_patrol_point(abilities@[k].patrol),
        decreases enemies - j,
    {
        let volley = random_in(0, 2) == 1;
        let p = make_rand_pos();
        abilities.push(AbilityRoll { volley, patrol: p });
        j = j + 1;
    }
    let asteroid_from = random_offscreen_position(SCREEN_WIDTH, SCREEN_HEIGHT);
    let asteroid_to = random_offscreen_position(SCREEN_WIDTH, SCREEN_HEIGHT);
    let pickup_x = random_in(PATROL_MARGIN, SCREEN_WIDTH);
    let pickup_roll = random_in(0, 3);
    FrameRolls { enemy: EnemyRoll { kind, position, patrol }, abilities, asteroid_from, asteroid_to, pickup_x, pickup_roll }
}

/// A shot or an enemy whose life has run out takes no further part in collisions: a
/// spent shot hits neither the player nor any enemy, and a dead enemy is neither hit by
/// a shot nor hits the player; and once the collision pass has pruned the dead, every
/// shot and enemy left is alive.
pub proof fn lemma_dead_actors_are_inert(w: World, i: int, j: int)
    requires
        0 <= i < w.shots.len(),
        0 <= j < w.enemies.len(),
    ensures
        !alive(w.shots[i]) ==> shot_vs_player_spec(w, i) == w && shot_vs_enemy_spec(w, i, j) == w,
        !alive(w.enemies[j]) ==> shot_vs_enemy_spec(w, i, j) == w && enemy_vs_player_spec(w, j) == w,
        forall|k: int| 0 <= k < collide_spec(w).shots.len() ==> alive(#[trigger] collide_spec(w).shots[k]),
        forall|k: int| 0 <= k < collide_spec(w).enemies.len() ==> alive(#[trigger] collide_spec(w).enemies[k]),
{
    let v = shot_rounds(w, w.shots.len());
    let c = contact_rounds(v, v.enemies.len());
    c.shots.filter_lemma(|a: Actor| alive(a));
    c.enemies.filter_lemma(|a: Actor| alive(a));
}

/// A paused world stays exactly as it is, whatever time passes and whatever is drawn.
pub proof fn lemma_paused_world_is_frozen(w: World, elapsed: u64, r: FrameRolls)
    requires
        w.paused,
    ensures
        frame_spec(w, elapsed, r) == w,
{
}

} // verus!
