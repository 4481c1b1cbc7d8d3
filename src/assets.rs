use vstd::prelude::*;

use crate::actors::{Actor, Subtype, TypeActor};

verus! {

/// The sprites an actor can be drawn with.
#[derive(Clone, Copy, Debug, PartialEq, Eq, Structural)]
pub enum Sprite {
    Player,
    BasicEnemy,
    KamikazeEnemy,
    Boss,
    Shot,
    EnemyShot,
    Rocket,
    BlueRocket,
    ShieldPickup,
    Asteroid,
}

pub open spec fn sprite_spec(tag: TypeActor, subtag: Subtype) -> Sprite {
    match tag {
        TypeActor::Enemy => match subtag {
            Subtype::KamikazeEnemy => Sprite::KamikazeEnemy,
            Subtype::BasicEnemy => Sprite::BasicEnemy,
            Subtype::BossEnemy => Sprite::Boss,
            _ => Sprite::Player,
        },
        TypeActor::Shot => match subtag {
            Subtype::EnemyShot => Sprite::EnemyShot,
            Subtype::BasicShot => Sprite::Shot,
            Subtype::BasicCountBuff => Sprite::Rocket,
            Subtype::BasicReloadBuff => Sprite::BlueRocket,
            Subtype::BasicShieldBuff => Sprite::ShieldPickup,
            Subtype::AsteroidShot => Sprite::Asteroid,
            _ => Sprite::Player,
        },
        _ => Sprite::Player,
    }
}

/// The sprite an actor is drawn with, chosen by its kind and subtype.
pub fn actor_sprite(actor: &Actor) -> (r: Sprite)
    ensures
        r == sprite_spec(actor.tag, actor.subtag),
{
    match actor.tag {
        TypeActor::Enemy => match actor.subtag {
            Subtype::KamikazeEnemy => Sprite::KamikazeEnemy,
            Subtype::BasicEnemy => Sprite::BasicEnemy,
            Subtype::BossEnemy => Sprite::Boss,
            _ => Sprite::Player,
        },
        TypeActor::Shot => match actor.subtag {
            Subtype::EnemyShot => Sprite::EnemyShot,
            Subtype::BasicShot => Sprite::Shot,
            Subtype::BasicCountBuff => Sprite::Rocket,
            Subtype::BasicReloadBuff => Sprite::BlueRocket,
            Subtype::BasicShieldBuff => Sprite::ShieldPickup,
            Subtype::AsteroidShot => Sprite::Asteroid,
            _ => Sprite::Player,
        },
        _ => Sprite::Player,
    }
}

} // verus!
