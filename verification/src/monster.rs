use vstd::prelude::*;
use crate::constants::{SCORE_BOMBER, SCORE_DEFENDER, SCORE_FIGHTER, SCORE_HEAVY_FIGHTER, SCORE_SPAWNER};
use crate::random::{RandomGenerator, splitmix_next};

verus! {

/// Kind of a monster. A defender carries its shield: it survives hits while
/// the shield stays non-negative.
#[derive(Clone, Copy, PartialEq, Eq, Structural, Debug)]
pub enum MonsterClass {
    Fighter,
    HeavyFighter,
    Defender(i32),
    Bomber,
    Spawner,
}

/// The class that the `idx`-th letter of "FHDBS" stands for.
pub open spec fn class_at_index(idx: int) -> MonsterClass {
    if idx == 0 {
        MonsterClass::Fighter
    } else if idx == 1 {
        MonsterClass::HeavyFighter
    } else if idx == 2 {
        MonsterClass::Defender(1)
    } else if idx == 3 {
        MonsterClass::Bomber
    } else {
        MonsterClass::Spawner
    }
}

/// The class drawn by a generator whose next number is `number`.
pub open spec fn class_from_number(number: u64) -> MonsterClass {
    class_at_index(((number as usize) % 5) as int)
}

/// Points for a hit on a monster of `class`.
pub open spec fn class_score(class: MonsterClass) -> i32 {
    match class {
        MonsterClass::Fighter => SCORE_FIGHTER,
        MonsterClass::HeavyFighter => SCORE_HEAVY_FIGHTER,
        MonsterClass::Defender(_) => SCORE_DEFENDER,
        MonsterClass::Bomber => SCORE_BOMBER,
        MonsterClass::Spawner => SCORE_SPAWNER,
    }
}

/// The class of a monster after a hit: a defender loses one point of
/// shield, the other classes stay as they are.
pub open spec fn class_after_hit(class: MonsterClass) -> MonsterClass {
    match class {
        MonsterClass::Defender(s) => MonsterClass::Defender((s - 1) as i32),
        other => other,
    }
}

/// A hit can take a point off the class's shield without overflow.
pub open spec fn can_lose_shield(class: MonsterClass) -> bool {
    class matches MonsterClass::Defender(s) ==> s > i32::MIN
}

impl MonsterClass {
    /// Draws a random class: the next number of the generator, taken as a
    /// `usize`, modulo five picks a letter of "FHDBS".
    pub fn random(random_generator: &mut RandomGenerator) -> (c: MonsterClass)
        ensures
            final(random_generator).state() == splitmix_next(old(random_generator).state()),
            c == class_from_number(final(random_generator).state()),
    {
        let idx: usize = (random_generator.next_number() as usize) % 5;
        if idx == 0 {
            MonsterClass::Fighter
        } else if idx == 1 {
            MonsterClass::HeavyFighter
        } else if idx == 2 {
            MonsterClass::Defender(1)
        } else if idx == 3 {
            MonsterClass::Bomber
        } else {
            MonsterClass::Spawner
        }
    }

    /// Points a hit on a monster of this class scores.
    pub fn score(&self) -> (s: i32)
        ensures
            s == class_score(*self),
    {
        match self {
            MonsterClass::Fighter => SCORE_FIGHTER,
            MonsterClass::HeavyFighter => SCORE_HEAVY_FIGHTER,
            MonsterClass::Defender(_) => SCORE_DEFENDER,
            MonsterClass::Bomber => SCORE_BOMBER,
            MonsterClass::Spawner => SCORE_SPAWNER,
        }
    }

    /// The class after a hit: a defender loses one point of shield, the
    /// other classes stay as they are.
    pub fn after_hit(&self) -> (c: MonsterClass)
        requires
            can_lose_shield(*self),
        ensures
            c == class_after_hit(*self),
    {
        match self {
            MonsterClass::Defender(s) => MonsterClass::Defender(*s - 1),
            other => *other,
        }
    }

    /// Whether a monster of this class comes back alive when its hit
    /// animation ends: only a defender whose shield is non-negative.
    pub fn survives_hit(&self) -> (b: bool)
        ensures
            b == (self matches MonsterClass::Defender(s) && s >= 0),
    {
        match self {
            MonsterClass::Defender(s) => *s >= 0,
            _ => false,
        }
    }
}

/// What a monster chosen to fire does.
#[derive(Clone, Copy, PartialEq, Eq, Structural, Debug)]
pub enum MonsterShot {
    /// Two laser shots, one from each side.
    TwinLasers,
    /// One laser shot from the middle.
    Laser,
    /// A bomb.
    Bomb,
    /// Brings a dead monster near it back to life.
    Revive,
}

/// What a monster of `class` does when chosen to fire, `dead_nearby` telling
/// whether a dead monster is near it: a heavy fighter fires two lasers, a
/// fighter or a defender one, a bomber drops a bomb, and a spawner revives a
/// dead monster near it or, when there is none, fires one laser.
pub open spec fn shot_of(class: MonsterClass, dead_nearby: bool) -> MonsterShot {
    match class {
        MonsterClass::HeavyFighter => MonsterShot::TwinLasers,
        MonsterClass::Fighter | MonsterClass::Defender(_) => MonsterShot::Laser,
        MonsterClass::Bomber => MonsterShot::Bomb,
        MonsterClass::Spawner => if dead_nearby { MonsterShot::Revive } else { MonsterShot::Laser },
    }
}

/// What a monster of `class` does when chosen to fire (see `shot_of`).
pub fn monster_shot(class: MonsterClass, dead_nearby: bool) -> (s: MonsterShot)
    ensures
        s == shot_of(class, dead_nearby),
{
    match class {
        MonsterClass::HeavyFighter => MonsterShot::TwinLasers,
        MonsterClass::Fighter | MonsterClass::Defender(_) => MonsterShot::Laser,
        MonsterClass::Bomber => MonsterShot::Bomb,
        MonsterClass::Spawner => if dead_nearby { MonsterShot::Revive } else { MonsterShot::Laser },
    }
}

/// Only a spawner's shot depends on whether a dead monster is near: every
/// other class fires the same whatever lies around it. Twin lasers come
/// exactly from heavy fighters, bombs exactly from bombers, and a revival
/// exactly from a spawner with a dead monster near it.
pub proof fn lemma_only_spawner_looks_around(class: MonsterClass, dead_nearby: bool)
    ensures
        class != MonsterClass::Spawner ==> shot_of(class, dead_nearby) == shot_of(class, !dead_nearby),
        (shot_of(class, dead_nearby) == MonsterShot::TwinLasers) <==> class == MonsterClass::HeavyFighter,
        (shot_of(class, dead_nearby) == MonsterShot::Bomb) <==> class == MonsterClass::Bomber,
        (shot_of(class, dead_nearby) == MonsterShot::Revive) <==> (class == MonsterClass::Spawner && dead_nearby),
{
}

/// A monster of a level: its class and its cell in the monster grid.
#[derive(Clone, Copy, PartialEq, Eq, Structural, Debug)]
pub struct MonsterPlacement {
    pub col: usize,
    pub row: usize,
    pub class: MonsterClass,
}

} // verus!
