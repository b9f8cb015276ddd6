use vstd::prelude::*;
use crate::constants::{SCORE_BOMB, SCORE_MAX, SCORE_UFO};
use crate::monster::{MonsterClass, can_lose_shield, class_after_hit, class_score};
use crate::sound::SoundType;

verus! {

/// What the collision rules read and change, as plain values: which laser
/// shots, live monsters, cover blocks and bombs are present, whether the
/// UFO is flying, the score, the ship's lives, whether the ship was hit,
/// and the sounds played so far.
pub struct CollisionView {
    pub lasers: Seq<bool>,
    pub alive: Seq<bool>,
    pub classes: Seq<MonsterClass>,
    pub blocks: Seq<bool>,
    pub bombs: Seq<bool>,
    pub ufo_active: bool,
    pub score: int,
    pub lives: int,
    pub ship_hit: bool,
    pub sounds: Seq<SoundType>,
}

/// Which objects touch which, as plain values (see `Contacts`).
pub struct ContactsView {
    pub laser_upward: Seq<bool>,
    pub laser_monster: Seq<Seq<bool>>,
    pub laser_block: Seq<Seq<bool>>,
    pub laser_bomb: Seq<Seq<bool>>,
    pub laser_ufo: Seq<bool>,
    pub laser_ship: Seq<bool>,
    pub monster_block: Seq<Seq<bool>>,
    pub monster_ship: Seq<bool>,
    pub bomb_ship: Seq<bool>,
    pub bomb_block: Seq<Seq<bool>>,
}

/// The score after adding `points`, never above `SCORE_MAX`.
pub open spec fn add_score(score: int, points: int) -> int {
    if score + points < SCORE_MAX {
        score + points
    } else {
        SCORE_MAX as int
    }
}

/// The first index from `k` on where an object is present and touched.
pub open spec fn first_hit_from(present: Seq<bool>, touch: Seq<bool>, k: int) -> Option<int>
    decreases present.len() - k,
{
    if k < 0 || k >= present.len() {
        None
    } else if present[k] && touch[k] {
        Some(k)
    } else {
        first_hit_from(present, touch, k + 1)
    }
}

/// The first index where an object is present and touched.
pub open spec fn first_hit(present: Seq<bool>, touch: Seq<bool>) -> Option<int> {
    first_hit_from(present, touch, 0)
}

/// Whether some present object is touched.
pub open spec fn any_hit(present: Seq<bool>, touch: Seq<bool>) -> bool {
    exists|k: int| 0 <= k < present.len() && present[k] && touch[k]
}

/// The blocks that remain when every touched one is destroyed.
pub open spec fn clear_touched(present: Seq<bool>, touch: Seq<bool>) -> Seq<bool> {
    Seq::new(present.len(), |k: int| present[k] && !touch[k])
}

/// Every live monster can take a hit: a live defender's shield can drop by
/// one point without overflow.
pub open spec fn shields_can_drop(alive: Seq<bool>, classes: Seq<MonsterClass>) -> bool {
    forall|j: int| 0 <= j < alive.len() && #[trigger] alive[j] ==> can_lose_shield(classes[j])
}

/// What laser shot `i` does. A shot going up hits the first live monster
/// it touches (scoring the monster's points; the monster is no longer
/// alive, and a defender loses a point of shield), else the first
/// block, else the first bomb (scoring a bomb), else hits the flying UFO
/// (scoring the UFO). A shot going down hits the ship (one life less), else
/// destroys the first block it touches. The shot is gone when it hit
/// something.
pub open spec fn laser_step(v: CollisionView, c: ContactsView, i: int) -> CollisionView {
    if !v.lasers[i] {
        v
    } else if c.laser_upward[i] {
        match first_hit(v.alive, c.laser_monster[i]) {
            Some(j) => CollisionView {
                lasers: v.lasers.update(i, false),
                alive: v.alive.update(j, false),
                classes: v.classes.update(j, class_after_hit(v.classes[j])),
                score: add_score(v.score, class_score(v.classes[j]) as int),
                sounds: v.sounds.push(SoundType::MonsterHit),
                ..v
            },
            None => match first_hit(v.blocks, c.laser_block[i]) {
                Some(k) => CollisionView {
                    lasers: v.lasers.update(i, false),
                    blocks: v.blocks.update(k, false),
                    ..v
                },
                None => match first_hit(v.bombs, c.laser_bomb[i]) {
                    Some(k) => CollisionView {
                        lasers: v.lasers.update(i, false),
                        bombs: v.bombs.update(k, false),
                        score: add_score(v.score, SCORE_BOMB as int),
                        sounds: v.sounds.push(SoundType::BombHit),
                        ..v
                    },
                    None => if v.ufo_active && c.laser_ufo[i] {
                        CollisionView {
                            lasers: v.lasers.update(i, false),
                            ufo_active: false,
                            score: add_score(v.score, SCORE_UFO as int),
                            sounds: v.sounds.push(SoundType::UfoHit),
                            ..v
                        }
                    } else {
                        v
                    },
                },
            },
        }
    } else if c.laser_ship[i] {
        CollisionView {
            lasers: v.lasers.update(i, false),
            lives: v.lives - 1,
            ship_hit: true,
            sounds: v.sounds.push(SoundType::ShipHit),
            ..v
        }
    } else {
        match first_hit(v.blocks, c.laser_block[i]) {
            Some(k) => CollisionView {
                lasers: v.lasers.update(i, false),
                blocks: v.blocks.update(k, false),
                ..v
            },
            None => v,
        }
    }
}

/// The first `n` laser shots, in order.
pub open spec fn laser_phase(v: CollisionView, c: ContactsView, n: nat) -> CollisionView
    decreases n,
{
    if n == 0 {
        v
    } else {
        laser_step(laser_phase(v, c, (n - 1) as nat), c, n - 1)
    }
}

/// The first `n` monsters, in order, and whether one of them has reached
/// the ship or the bottom of the play area. Each live monster destroys the
/// blocks it touches; the first that reaches the ship or the bottom ends
/// the game (lives set to -1) and the monsters after it are not looked at.
pub open spec fn monster_phase(v: CollisionView, c: ContactsView, n: nat) -> (CollisionView, bool)
    decreases n,
{
    if n == 0 {
        (v, false)
    } else {
        let prev = monster_phase(v, c, (n - 1) as nat);
        let w = prev.0;
        let j = n - 1;
        if prev.1 || !w.alive[j] {
            prev
        } else {
            let w2 = CollisionView { blocks: clear_touched(w.blocks, c.monster_block[j]), ..w };
            if c.monster_ship[j] {
                (CollisionView { lives: -1, ..w2 }, true)
            } else {
                (w2, false)
            }
        }
    }
}

/// What bomb `k` does: a bomb touching the ship is gone and costs a life;
/// otherwise it destroys every block it touches, and is gone if it touched
/// one.
pub open spec fn bomb_step(w: CollisionView, c: ContactsView, k: int) -> CollisionView {
    if !w.bombs[k] {
        w
    } else if c.bomb_ship[k] {
        CollisionView {
            bombs: w.bombs.update(k, false),
            lives: w.lives - 1,
            ship_hit: true,
            sounds: w.sounds.push(SoundType::ShipHit),
            ..w
        }
    } else {
        CollisionView {
            bombs: w.bombs.update(k, !any_hit(w.blocks, c.bomb_block[k])),
            blocks: clear_touched(w.blocks, c.bomb_block[k]),
            ..w
        }
    }
}

/// The first `n` bombs, in order.
pub open spec fn bomb_phase(v: CollisionView, c: ContactsView, n: nat) -> CollisionView
    decreases n,
{
    if n == 0 {
        v
    } else {
        bomb_step(bomb_phase(v, c, (n - 1) as nat), c, n - 1)
    }
}

/// All collisions of a frame: laser shots first, then monsters, then bombs.
pub open spec fn resolve_collisions(v: CollisionView, c: ContactsView) -> CollisionView {
    let after_lasers = laser_phase(v, c, v.lasers.len());
    let after_monsters = monster_phase(after_lasers, c, v.alive.len()).0;
    bomb_phase(after_monsters, c, v.bombs.len())
}

/// The objects of a frame that take part in collisions, as flags (present
/// or not), with the score and the ship's lives.
pub struct CollisionWorld {
    pub lasers: Vec<bool>,
    pub monsters_alive: Vec<bool>,
    pub monster_classes: Vec<MonsterClass>,
    pub blocks: Vec<bool>,
    pub bombs: Vec<bool>,
    pub ufo_active: bool,
    pub score: i32,
    pub lives: i32,
    pub ship_hit: bool,
}

/// Which objects touch which in a frame (their bounding boxes overlap):
/// for each laser shot, whether it goes up and what it touches; for each
/// monster, the blocks it touches and whether it touches the ship or the
/// bottom of the play area; for each bomb, the ship and the blocks.
pub struct Contacts {
    pub laser_upward: Vec<bool>,
    pub laser_monster: Vec<Vec<bool>>,
    pub laser_block: Vec<Vec<bool>>,
    pub laser_bomb: Vec<Vec<bool>>,
    pub laser_ufo: Vec<bool>,
    pub laser_ship: Vec<bool>,
    pub monster_block: Vec<Vec<bool>>,
    pub monster_ship: Vec<bool>,
    pub bomb_ship: Vec<bool>,
    pub bomb_block: Vec<Vec<bool>>,
}

impl CollisionWorld {
    pub open spec fn view_with(&self, sounds: Seq<SoundType>) -> CollisionView {
        CollisionView {
            lasers: self.lasers@,
            alive: self.monsters_alive@,
            classes: self.monster_classes@,
            blocks: self.blocks@,
            bombs: self.bombs@,
            ufo_active: self.ufo_active,
            score: self.score as int,
            lives: self.lives as int,
            ship_hit: self.ship_hit,
            sounds,
        }
    }
}

/// Every row of `rows` has `n` entries.
pub open spec fn rows_of_len(rows: Seq<Seq<bool>>, n: nat) -> bool {
    forall|i: int| 0 <= i < rows.len() ==> #[trigger] rows[i].len() == n
}

impl Contacts {
    pub open spec fn view(&self) -> ContactsView {
        ContactsView {
            laser_upward: self.laser_upward@,
            laser_monster: self.laser_monster@.map_values(|r: Vec<bool>| r@),
            laser_block: self.laser_block@.map_values(|r: Vec<bool>| r@),
            laser_bomb: self.laser_bomb@.map_values(|r: Vec<bool>| r@),
            laser_ufo: self.laser_ufo@,
            laser_ship: self.laser_ship@,
            monster_block: self.monster_block@.map_values(|r: Vec<bool>| r@),
            monster_ship: self.monster_ship@,
            bomb_ship: self.bomb_ship@,
            bomb_block: self.bomb_block@.map_values(|r: Vec<bool>| r@),
        }
    }

    /// The contacts describe the objects of `w`: one entry per laser shot,
    /// monster and bomb, and rows as long as what they are about.
    pub open spec fn fits(&self, w: &CollisionWorld) -> bool {
        let l = w.lasers@.len();
        let m = w.monsters_alive@.len();
        let k = w.blocks@.len();
        let b = w.bombs@.len();
        &&& w.monster_classes@.len() == m
        &&& self.laser_upward@.len() == l
        &&& self.laser_monster@.len() == l
        &&& self.laser_block@.len() == l
        &&& self.laser_bomb@.len() == l
        &&& self.laser_ufo@.len() == l
        &&& self.laser_ship@.len() == l
        &&& self.monster_block@.len() == m
        &&& self.monster_ship@.len() == m
        &&& self.bomb_ship@.len() == b
        &&& self.bomb_block@.len() == b
        &&& rows_of_len(self.view().laser_monster, m)
        &&& rows_of_len(self.view().laser_block, k)
        &&& rows_of_len(self.view().laser_bomb, b)
        &&& rows_of_len(self.view().monster_block, k)
        &&& rows_of_len(self.view().bomb_block, k)
    }
}

/// The first index where an object is present and touched.
fn find_first(present: &Vec<bool>, touch: &Vec<bool>) -> (r: Option<usize>)
    requires
        touch@.len() == present@.len(),
    ensures
        r matches Some(k) ==> first_hit(present@, touch@) == Some(k as int) && k < present@.len(),
        r is None ==> first_hit(present@, touch@) is None,
{
    let mut k: usize = 0;
    while k < present.len()
        invariant
            touch@.len() == present@.len(),
            k <= present@.len(),
            first_hit(present@, touch@) == first_hit_from(present@, touch@, k as int),
        decreases present@.len() - k,
    {
        if present[k] && touch[k] {
            return Some(k);
        }
        k = k + 1;
    }
    None
}

/// Laser shot `i` of the frame.
fn laser_collide(w: &mut CollisionWorld, c: &Contacts, i: usize, sounds: &mut Vec<SoundType>)
    requires
        c.fits(old(w)),
        i < old(w).lasers@.len(),
        old(w).score <= SCORE_MAX,
        old(w).lives > i32::MIN,
        shields_can_drop(old(w).monsters_alive@, old(w).monster_classes@),
    ensures
        final(w).view_with(final(sounds)@) == laser_step(old(w).view_with(old(sounds)@), c.view(), i as int),
        c.fits(final(w)),
        shields_can_drop(final(w).monsters_alive@, final(w).monster_classes@),
        final(w).score <= SCORE_MAX,
        final(w).lives >= old(w).lives - 1,
{
    let ghost cv = c.view();
    if !w.lasers[i] {
        return;
    }
    assert(cv.laser_upward[i as int] == c.laser_upward@[i as int]);
    if c.laser_upward[i] {
        assert(cv.laser_monster[i as int] == c.laser_monster@[i as int]@);
        assert(cv.laser_block[i as int] == c.laser_block@[i as int]@);
        assert(cv.laser_bomb[i as int] == c.laser_bomb@[i as int]@);
        match find_first(&w.monsters_alive, &c.laser_monster[i]) {
            Some(j) => {
                proof {
                    lemma_first_hit_in_range(w.monsters_alive@, c.laser_monster@[i as int]@, 0);
                }
                let points = w.monster_classes[j].score();
                let hit_class = w.monster_classes[j].after_hit();
                w.lasers.set(i, false);
                w.monsters_alive.set(j, false);
                w.monster_classes.set(j, hit_class);
                let total = w.score + points;
                w.score = if total < SCORE_MAX { total } else { SCORE_MAX };
                sounds.push(SoundType::MonsterHit);
            },
            None => match find_first(&w.blocks, &c.laser_block[i]) {
                Some(k) => {
                    w.lasers.set(i, false);
                    w.blocks.set(k, false);
                },
                None => match find_first(&w.bombs, &c.laser_bomb[i]) {
                    Some(k) => {
                        w.lasers.set(i, false);
                        w.bombs.set(k, false);
                        let total = w.score + SCORE_BOMB;
                        w.score = if total < SCORE_MAX { total } else { SCORE_MAX };
                        sounds.push(SoundType::BombHit);
                    },
                    None => {
                        if w.ufo_active && c.laser_ufo[i] {
                            w.lasers.set(i, false);
                            w.ufo_active = false;
                            let total = w.score + SCORE_UFO;
                            w.score = if total < SCORE_MAX { total } else { SCORE_MAX };
                            sounds.push(SoundType::UfoHit);
                        }
                    },
                },
            },
        }
    } else if c.laser_ship[i] {
        w.lasers.set(i, false);
        w.lives = w.lives - 1;
        w.ship_hit = true;
        sounds.push(SoundType::ShipHit);
    } else {
        assert(cv.laser_block[i as int] == c.laser_block@[i as int]@);
        match find_first(&w.blocks, &c.laser_block[i]) {
            Some(k) => {
                w.lasers.set(i, false);
                w.blocks.set(k, false);
            },
            None => {},
        }
    }
}

/// Destroys the blocks that `touch` marks.
fn clear_blocks(blocks: &mut Vec<bool>, touch: &Vec<bool>)
    requires
        touch@.len() == old(blocks)@.len(),
    ensures
        final(blocks)@ == clear_touched(old(blocks)@, touch@),
{
    let n = blocks.len();
    let mut k: usize = 0;
    while k < n
        invariant
            n == blocks@.len(),
            n == old(blocks)@.len(),
            touch@.len() == n,
            k <= n,
            forall|x: int| #![trigger blocks@[x]] 0 <= x < k ==> blocks@[x] == (old(blocks)@[x] && !touch@[x]),
            forall|x: int| #![trigger blocks@[x]] k <= x < n ==> blocks@[x] == old(blocks)@[x],
        decreases n - k,
    {
        if blocks[k] && touch[k] {
            blocks.set(k, false);
        }
        k = k + 1;
    }
    assert(blocks@ =~= clear_touched(old(blocks)@, touch@));
}

/// Destroys the blocks that `touch` marks and tells whether one was there.
fn clear_blocks_hit(blocks: &mut Vec<bool>, touch: &Vec<bool>) -> (hit: bool)
    requires
        touch@.len() == old(blocks)@.len(),
    ensures
        final(blocks)@ == clear_touched(old(blocks)@, touch@),
        hit == any_hit(old(blocks)@, touch@),
{
    let n = blocks.len();
    let mut hit = false;
    let mut k: usize = 0;
    while k < n
        invariant
            n == blocks@.len(),
            n == old(blocks)@.len(),
            touch@.len() == n,
            k <= n,
            forall|x: int| #![trigger blocks@[x]] 0 <= x < k ==> blocks@[x] == (old(blocks)@[x] && !touch@[x]),
            forall|x: int| #![trigger blocks@[x]] k <= x < n ==> blocks@[x] == old(blocks)@[x],
            hit == (exists|x: int| 0 <= x < k && old(blocks)@[x] && touch@[x]),
        decreases n - k,
    {
        if blocks[k] && touch[k] {
            blocks.set(k, false);
            hit = true;
        }
        k = k + 1;
    }
    assert(blocks@ =~= clear_touched(old(blocks)@, touch@));
    hit
}

/// Bomb `k` of the frame.
fn bomb_collide(w: &mut CollisionWorld, c: &Contacts, k: usize, sounds: &mut Vec<SoundType>)
    requires
        c.fits(old(w)),
        k < old(w).bombs@.len(),
        old(w).lives > i32::MIN,
    ensures
        final(w).view_with(final(sounds)@) == bomb_step(old(w).view_with(old(sounds)@), c.view(), k as int),
        c.fits(final(w)),
        final(w).score == old(w).score,
        final(w).lives >= old(w).lives - 1,
{
    let ghost cv = c.view();
    if !w.bombs[k] {
        return;
    }
    if c.bomb_ship[k] {
        w.bombs.set(k, false);
        w.lives = w.lives - 1;
        w.ship_hit = true;
        sounds.push(SoundType::ShipHit);
    } else {
        assert(cv.bomb_block[k as int] == c.bomb_block@[k as int]@);
        let hit = clear_blocks_hit(&mut w.blocks, &c.bomb_block[k]);
        w.bombs.set(k, !hit);
    }
}

/// Resolves the collisions of a frame. `w` holds the laser shots, the
/// monsters (alive or not, with their classes), the cover blocks and the
/// bombs that are present, whether the UFO flies, the score, the ship's
/// lives and whether the ship was hit; `c` holds which of them touch. The
/// objects destroyed are cleared in `w`, hit monsters are no longer alive
/// (a hit defender loses a point of shield), the score and lives are
/// updated, and the sounds to play are returned in
/// order (see `laser_step`, `monster_phase` and `bomb_step` for the rules).
pub fn process_collisions(w: &mut CollisionWorld, c: &Contacts) -> (sounds: Vec<SoundType>)
    requires
        c.fits(old(w)),
        old(w).score <= SCORE_MAX,
        shields_can_drop(old(w).monsters_alive@, old(w).monster_classes@),
        old(w).lives - old(w).lasers@.len() - old(w).bombs@.len() > i32::MIN,
        old(w).bombs@.len() < i32::MAX,
    ensures
        final(w).view_with(sounds@) == resolve_collisions(old(w).view_with(Seq::empty()), c.view()),
        final(w).score <= SCORE_MAX,
{
    let ghost v0 = w.view_with(Seq::empty());
    let ghost cv = c.view();
    let ghost lives0 = w.lives as int;
    let mut sounds: Vec<SoundType> = Vec::new();

    //laser shots
    let n_lasers = w.lasers.len();
    let mut i: usize = 0;
    while i < n_lasers
        invariant
            c.fits(w),
            cv == c.view(),
            n_lasers == w.lasers@.len(),
            n_lasers == v0.lasers.len(),
            w.bombs@.len() == v0.bombs.len(),
            i <= n_lasers,
            w.view_with(sounds@) == laser_phase(v0, cv, i as nat),
            shields_can_drop(w.monsters_alive@, w.monster_classes@),
            w.score <= SCORE_MAX,
            w.lives >= lives0 - i,
            lives0 - n_lasers - v0.bombs.len() > i32::MIN,
        decreases n_lasers - i,
    {
        laser_collide(w, c, i, &mut sounds);
        i = i + 1;
    }

    //monsters
    let ghost v1 = w.view_with(sounds@);
    let n_monsters = w.monsters_alive.len();
    let mut stopped = false;
    let mut j: usize = 0;
    while j < n_monsters
        invariant
            c.fits(w),
            cv == c.view(),
            n_monsters == w.monsters_alive@.len(),
            n_monsters == v0.alive.len(),
            w.bombs@.len() == v0.bombs.len(),
            j <= n_monsters,
            (w.view_with(sounds@), stopped) == monster_phase(v1, cv, j as nat),
            w.score <= SCORE_MAX,
            w.lives >= lives0 - n_lasers || w.lives == -1,
            lives0 - n_lasers - v0.bombs.len() > i32::MIN,
            v0.bombs.len() < i32::MAX,
        decreases n_monsters - j,
    {
        if !stopped && w.monsters_alive[j] {
            assert(cv.monster_block[j as int] == c.monster_block@[j as int]@);
            clear_blocks(&mut w.blocks, &c.monster_block[j]);
            if c.monster_ship[j] {
                w.lives = -1;
                stopped = true;
            }
        }
        j = j + 1;
    }

    //bombs
    let ghost v2 = w.view_with(sounds@);
    let ghost lives2 = w.lives as int;
    let n_bombs = w.bombs.len();
    let mut k: usize = 0;
    while k < n_bombs
        invariant
            c.fits(w),
            cv == c.view(),
            n_bombs == w.bombs@.len(),
            k <= n_bombs,
            w.view_with(sounds@) == bomb_phase(v2, cv, k as nat),
            w.score <= SCORE_MAX,
            w.lives >= lives2 - k,
            lives2 - n_bombs > i32::MIN,
        decreases n_bombs - k,
    {
        bomb_collide(w, c, k, &mut sounds);
        k = k + 1;
    }
    sounds
}

/// `after` holds an object only where `before` held one.
pub open spec fn only_removed(before: Seq<bool>, after: Seq<bool>) -> bool {
    &&& after.len() == before.len()
    &&& forall|i: int| 0 <= i < after.len() && #[trigger] after[i] ==> before[i]
}

/// From `v` to `w` objects were only destroyed, never created, the score
/// did not go down, and a monster's class changed only by a hit that ended
/// its life.
pub open spec fn only_destroys(v: CollisionView, w: CollisionView) -> bool {
    &&& only_removed(v.lasers, w.lasers)
    &&& only_removed(v.alive, w.alive)
    &&& only_removed(v.blocks, w.blocks)
    &&& only_removed(v.bombs, w.bombs)
    &&& (w.ufo_active ==> v.ufo_active)
    &&& w.classes.len() == v.classes.len()
    &&& forall|j: int| 0 <= j < w.classes.len() && #[trigger] w.classes[j] != v.classes[j]
        ==> v.alive[j] && !w.alive[j] && w.classes[j] == class_after_hit(v.classes[j])
    &&& v.score <= w.score <= SCORE_MAX
}

/// The index that `first_hit_from` finds is present, touched and not before
/// `k`.
pub proof fn lemma_first_hit_in_range(present: Seq<bool>, touch: Seq<bool>, k: int)
    ensures
        first_hit_from(present, touch, k) matches Some(j) ==> k <= j < present.len() && present[j] && touch[j],
    decreases present.len() - k,
{
    if 0 <= k < present.len() && !(present[k] && touch[k]) {
        lemma_first_hit_in_range(present, touch, k + 1);
    }
}

proof fn lemma_laser_phase_only_destroys(v: CollisionView, c: ContactsView, n: nat)
    requires
        n <= v.lasers.len(),
        v.classes.len() == v.alive.len(),
        v.score <= SCORE_MAX,
    ensures
        only_destroys(v, laser_phase(v, c, n)),
    decreases n,
{
    if n > 0 {
        lemma_laser_phase_only_destroys(v, c, (n - 1) as nat);
        let w = laser_phase(v, c, (n - 1) as nat);
        let i = n - 1;
        lemma_first_hit_in_range(w.alive, c.laser_monster[i], 0);
        lemma_first_hit_in_range(w.blocks, c.laser_block[i], 0);
        lemma_first_hit_in_range(w.bombs, c.laser_bomb[i], 0);
        assert(class_score(MonsterClass::Fighter) >= 0);
        let x = laser_step(w, c, i);
        assert(only_destroys(w, x));
    }
}

proof fn lemma_monster_phase_only_destroys(v: CollisionView, c: ContactsView, n: nat)
    requires
        n <= v.alive.len(),
        v.classes.len() == v.alive.len(),
        v.score <= SCORE_MAX,
    ensures
        only_destroys(v, monster_phase(v, c, n).0),
    decreases n,
{
    if n > 0 {
        lemma_monster_phase_only_destroys(v, c, (n - 1) as nat);
    }
}

proof fn lemma_bomb_phase_only_destroys(v: CollisionView, c: ContactsView, n: nat)
    requires
        n <= v.bombs.len(),
        v.classes.len() == v.alive.len(),
        v.score <= SCORE_MAX,
    ensures
        only_destroys(v, bomb_phase(v, c, n)),
    decreases n,
{
    if n > 0 {
        lemma_bomb_phase_only_destroys(v, c, (n - 1) as nat);
    }
}

/// Collisions only destroy: no laser shot, monster, block, bomb or UFO is
/// created by them, no monster comes back to life, a monster's class
/// changes only by the hit that ends its life, and the score does not go
/// down (nor above `SCORE_MAX`).
pub proof fn lemma_collisions_only_destroy(v: CollisionView, c: ContactsView)
    requires
        v.classes.len() == v.alive.len(),
        v.score <= SCORE_MAX,
    ensures
        only_destroys(v, resolve_collisions(v, c)),
{
    let a = laser_phase(v, c, v.lasers.len());
    lemma_laser_phase_only_destroys(v, c, v.lasers.len());
    let b = monster_phase(a, c, v.alive.len()).0;
    lemma_monster_phase_only_destroys(a, c, v.alive.len());
    lemma_bomb_phase_only_destroys(b, c, v.bombs.len());
}

/// The contacts with monster `j` touching no block and not the ship.
pub open spec fn without_monster_contacts(c: ContactsView, j: int) -> ContactsView {
    ContactsView {
        monster_block: c.monster_block.update(j, Seq::new(c.monster_block[j].len(), |_k: int| false)),
        monster_ship: c.monster_ship.update(j, false),
        ..c
    }
}

/// Contacts that agree on everything a laser shot or a bomb reads.
pub open spec fn same_shot_contacts(c: ContactsView, d: ContactsView) -> bool {
    &&& c.laser_upward == d.laser_upward
    &&& c.laser_monster == d.laser_monster
    &&& c.laser_block == d.laser_block
    &&& c.laser_bomb == d.laser_bomb
    &&& c.laser_ufo == d.laser_ufo
    &&& c.laser_ship == d.laser_ship
    &&& c.bomb_ship == d.bomb_ship
    &&& c.bomb_block == d.bomb_block
}

proof fn lemma_laser_phase_same_contacts(v: CollisionView, c: ContactsView, d: ContactsView, n: nat)
    requires
        same_shot_contacts(c, d),
    ensures
        laser_phase(v, c, n) == laser_phase(v, d, n),
    decreases n,
{
    if n > 0 {
        lemma_laser_phase_same_contacts(v, c, d, (n - 1) as nat);
    }
}

proof fn lemma_bomb_phase_same_contacts(v: CollisionView, c: ContactsView, d: ContactsView, n: nat)
    requires
        same_shot_contacts(c, d),
    ensures
        bomb_phase(v, c, n) == bomb_phase(v, d, n),
    decreases n,
{
    if n > 0 {
        lemma_bomb_phase_same_contacts(v, c, d, (n - 1) as nat);
    }
}

/// A monster that is dead before the laser shots is still dead after them.
proof fn lemma_laser_phase_keeps_dead(v: CollisionView, c: ContactsView, n: nat, j: int)
    requires
        0 <= j < v.alive.len(),
        !v.alive[j],
    ensures
        laser_phase(v, c, n).alive.len() == v.alive.len(),
        !laser_phase(v, c, n).alive[j],
    decreases n,
{
    if n > 0 {
        lemma_laser_phase_keeps_dead(v, c, (n - 1) as nat, j);
        let w = laser_phase(v, c, (n - 1) as nat);
        let i = n - 1;
        lemma_first_hit_in_range(w.alive, c.laser_monster[i], 0);
    }
}

proof fn lemma_monster_phase_dead_inert(v: CollisionView, c: ContactsView, n: nat, j: int)
    requires
        0 <= j < v.alive.len(),
        !v.alive[j],
        c.monster_block.len() == v.alive.len(),
        c.monster_ship.len() == v.alive.len(),
        n <= v.alive.len(),
    ensures
        monster_phase(v, c, n) == monster_phase(v, without_monster_contacts(c, j), n),
        monster_phase(v, c, n).0.alive == v.alive,
    decreases n,
{
    if n > 0 {
        lemma_monster_phase_dead_inert(v, c, (n - 1) as nat, j);
        let d = without_monster_contacts(c, j);
        let k = n - 1;
        if k != j {
            assert(d.monster_block[k] == c.monster_block[k]);
            assert(d.monster_ship[k] == c.monster_ship[k]);
        }
    }
}

/// A monster that is not alive takes no part in the collisions: whatever
/// blocks it touches and whether it touches the ship or the bottom of the
/// play area, the frame ends as if it touched nothing. Only live monsters
/// destroy cover blocks or end the game.
pub proof fn lemma_dead_monster_changes_nothing(v: CollisionView, c: ContactsView, j: int)
    requires
        0 <= j < v.alive.len(),
        !v.alive[j],
        c.monster_block.len() == v.alive.len(),
        c.monster_ship.len() == v.alive.len(),
    ensures
        resolve_collisions(v, c) == resolve_collisions(v, without_monster_contacts(c, j)),
{
    let d = without_monster_contacts(c, j);
    assert(same_shot_contacts(c, d));
    lemma_laser_phase_same_contacts(v, c, d, v.lasers.len());
    let a = laser_phase(v, c, v.lasers.len());
    lemma_laser_phase_keeps_dead(v, c, v.lasers.len(), j);
    lemma_monster_phase_dead_inert(a, c, v.alive.len(), j);
    let b = monster_phase(a, c, v.alive.len()).0;
    lemma_bomb_phase_same_contacts(b, c, d, v.bombs.len());
}

} // verus!
