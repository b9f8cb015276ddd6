use vstd::prelude::*;
use vstd::string::StrSliceExecFns;
use crate::constants::{MONSTERS_MAX_COLS, SHIP_INIT_LIVES};
use crate::monster::{MonsterClass, MonsterPlacement, class_from_number};
use crate::random::{RandomGenerator, clock_seed, splitmix_iter, splitmix_next};

verus! {

/// What a level is made of, as plain values.
pub struct LevelView {
    pub monster_str: Seq<char>,
    pub monster_laser_speed_lvl: i32,
    pub monster_laser_timer_lvl: i32,
    pub monster_speed_lvl: i32,
    pub ship_lives: i32,
    pub ship_laser_timer_lvl: i32,
    pub covers: i32,
    pub cover_width: i32,
    pub cover_height: i32,
    pub rng_state: u64,
}

/// The class that a letter of a level string stands for, where it stands for
/// a fixed one: H heavy fighter, F fighter, D defender (shield 1), B bomber,
/// S spawner. `R` (random) and every other character give `None`.
pub open spec fn fixed_class_of(c: char) -> Option<MonsterClass> {
    if c == 'H' {
        Some(MonsterClass::HeavyFighter)
    } else if c == 'F' {
        Some(MonsterClass::Fighter)
    } else if c == 'D' {
        Some(MonsterClass::Defender(1))
    } else if c == 'B' {
        Some(MonsterClass::Bomber)
    } else if c == 'S' {
        Some(MonsterClass::Spawner)
    } else {
        None
    }
}

/// The placement of a monster of `class` for the `i`-th character of a
/// level string: the string fills the grid row by row.
pub open spec fn placement_at(i: int, class: MonsterClass) -> MonsterPlacement {
    MonsterPlacement {
        col: (i % (MONSTERS_MAX_COLS as int)) as usize,
        row: (i / (MONSTERS_MAX_COLS as int)) as usize,
        class,
    }
}

/// The monsters of the first `n` characters of `s`, and the generator state
/// after them. Each `R` draws a class from the generator; spaces and unknown
/// characters leave their cell empty.
pub open spec fn layout_prefix(s: Seq<char>, n: nat, state: u64) -> (Seq<MonsterPlacement>, u64)
    decreases n,
{
    if n == 0 {
        (Seq::empty(), state)
    } else {
        let prev = layout_prefix(s, (n - 1) as nat, state);
        let i = n - 1;
        let c = s[i];
        if c == 'R' {
            let next = splitmix_next(prev.1);
            (prev.0.push(placement_at(i, class_from_number(next))), next)
        } else {
            match fixed_class_of(c) {
                Some(class) => (prev.0.push(placement_at(i, class)), prev.1),
                None => prev,
            }
        }
    }
}

/// The monsters of a whole level string, and the generator state after it.
pub open spec fn layout_of(s: Seq<char>, state: u64) -> (Seq<MonsterPlacement>, u64) {
    layout_prefix(s, s.len(), state)
}

/// Describes the structure of a level: its monsters, given as a string of
/// letters (see `fixed_class_of`), the difficulty levels, the ship's lives
/// and the covers in front of the ship.
pub struct Level {
    monster_str: String,
    monster_laser_speed_lvl: i32,
    monster_laser_timer_lvl: i32,
    monster_speed_lvl: i32,
    ship_lives: i32,
    ship_laser_timer_lvl: i32,
    covers: i32,
    cover_width: i32,
    cover_height: i32,
    random_generator: RandomGenerator,
}

impl View for Level {
    type V = LevelView;

    closed spec fn view(&self) -> LevelView {
        LevelView {
            monster_str: self.monster_str@,
            monster_laser_speed_lvl: self.monster_laser_speed_lvl,
            monster_laser_timer_lvl: self.monster_laser_timer_lvl,
            monster_speed_lvl: self.monster_speed_lvl,
            ship_lives: self.ship_lives,
            ship_laser_timer_lvl: self.ship_laser_timer_lvl,
            covers: self.covers,
            cover_width: self.cover_width,
            cover_height: self.cover_height,
            rng_state: self.random_generator.state(),
        }
    }
}

impl Level {
    /// A level with no monsters, no covers, no lives and every difficulty
    /// level at zero; its generator is seeded from the system clock.
    pub fn empty() -> (l: Level)
        ensures
            l@.monster_str == Seq::<char>::empty(),
            l@.monster_laser_speed_lvl == 0,
            l@.monster_laser_timer_lvl == 0,
            l@.monster_speed_lvl == 0,
            l@.ship_lives == 0,
            l@.ship_laser_timer_lvl == 0,
            l@.covers == 0,
            l@.cover_width == 0,
            l@.cover_height == 0,
            exists|clock: Option<u64>| l@.rng_state == clock_seed(clock) ^ 0u64,
    {
        Level {
            monster_str: String::new(),
            monster_laser_speed_lvl: 0,
            monster_laser_timer_lvl: 0,
            monster_speed_lvl: 0,
            ship_lives: 0,
            ship_laser_timer_lvl: 0,
            covers: 0,
            cover_width: 0,
            cover_height: 0,
            random_generator: RandomGenerator::new(0),
        }
    }

    /// A level with the given monsters, the initial lives, three covers of
    /// 8 x 4 blocks and every difficulty level at zero; its generator is
    /// seeded from the system clock.
    pub fn create(monster_str: &str) -> (l: Level)
        ensures
            l@.monster_str == monster_str@,
            l@.monster_laser_speed_lvl == 0,
            l@.monster_laser_timer_lvl == 0,
            l@.monster_speed_lvl == 0,
            l@.ship_lives == SHIP_INIT_LIVES,
            l@.ship_laser_timer_lvl == 0,
            l@.covers == 3,
            l@.cover_width == 8,
            l@.cover_height == 4,
            exists|clock: Option<u64>| l@.rng_state == clock_seed(clock) ^ 0u64,
    {
        Level {
            monster_str: monster_str.to_owned(),
            monster_laser_speed_lvl: 0,
            monster_laser_timer_lvl: 0,
            monster_speed_lvl: 0,
            ship_lives: SHIP_INIT_LIVES,
            ship_laser_timer_lvl: 0,
            covers: 3,
            cover_width: 8,
            cover_height: 4,
            random_generator: RandomGenerator::new(0),
        }
    }

    pub fn set_monster_laser_speed_level(&mut self, value: i32)
        ensures
            final(self)@ == (LevelView { monster_laser_speed_lvl: value, ..old(self)@ }),
    {
        self.monster_laser_speed_lvl = value;
    }

    pub fn set_monster_laser_timer_level(&mut self, value: i32)
        ensures
            final(self)@ == (LevelView { monster_laser_timer_lvl: value, ..old(self)@ }),
    {
        self.monster_laser_timer_lvl = value;
    }

    pub fn set_monster_speed_level(&mut self, value: i32)
        ensures
            final(self)@ == (LevelView { monster_speed_lvl: value, ..old(self)@ }),
    {
        self.monster_speed_lvl = value;
    }

    pub fn set_ship_laser_timer_level(&mut self, value: i32)
        ensures
            final(self)@ == (LevelView { ship_laser_timer_lvl: value, ..old(self)@ }),
    {
        self.ship_laser_timer_lvl = value;
    }

    pub fn set_ship_lives(&mut self, value: i32)
        ensures
            final(self)@ == (LevelView { ship_lives: value, ..old(self)@ }),
    {
        self.ship_lives = value;
    }

    /// The monsters of the level in the order of the level string, each
    /// with its grid cell; `R` letters draw their class from the level's
    /// generator. Each character of the string (not each byte) is one cell.
    pub fn monster_layout(&mut self) -> (r: Vec<MonsterPlacement>)
        ensures
            r@ == layout_of(old(self)@.monster_str, old(self)@.rng_state).0,
            final(self)@ == (LevelView {
                rng_state: layout_of(old(self)@.monster_str, old(self)@.rng_state).1,
                ..old(self)@
            }),
    {
        let ghost s = self.monster_str@;
        let ghost state0 = self.random_generator.state();
        let len = self.monster_str.as_str().unicode_len();
        let mut placements: Vec<MonsterPlacement> = Vec::new();
        let mut i: usize = 0;
        while i < len
            invariant
                len == s.len(),
                i <= len,
                self.monster_str@ == s,
                (placements@, self.random_generator.state()) == layout_prefix(s, i as nat, state0),
                self@ == (LevelView { rng_state: self.random_generator.state(), ..old(self)@ }),
            decreases len - i,
        {
            let m = self.monster_str.as_str().get_char(i);
            let class: Option<MonsterClass> = if m == 'H' {
                Some(MonsterClass::HeavyFighter)
            } else if m == 'F' {
                Some(MonsterClass::Fighter)
            } else if m == 'D' {
                Some(MonsterClass::Defender(1))
            } else if m == 'B' {
                Some(MonsterClass::Bomber)
            } else if m == 'S' {
                Some(MonsterClass::Spawner)
            } else if m == 'R' {
                Some(MonsterClass::random(&mut self.random_generator))
            } else {
                None
            };
            if let Some(class) = class {
                placements.push(MonsterPlacement {
                    col: i % MONSTERS_MAX_COLS,
                    row: i / MONSTERS_MAX_COLS,
                    class,
                });
            }
            i = i + 1;
        }
        placements
    }
}

impl Level {
    /// The monster string of the level.
    pub fn monster_str(&self) -> (r: &str)
        ensures
            r@ == self@.monster_str,
    {
        self.monster_str.as_str()
    }

    /// Difficulty level of the monsters' laser speed.
    pub fn monster_laser_speed_level(&self) -> (r: i32)
        ensures
            r == self@.monster_laser_speed_lvl,
    {
        self.monster_laser_speed_lvl
    }

    /// Difficulty level of the monsters' firing rate.
    pub fn monster_laser_timer_level(&self) -> (r: i32)
        ensures
            r == self@.monster_laser_timer_lvl,
    {
        self.monster_laser_timer_lvl
    }

    /// Difficulty level of the monsters' speed.
    pub fn monster_speed_level(&self) -> (r: i32)
        ensures
            r == self@.monster_speed_lvl,
    {
        self.monster_speed_lvl
    }

    /// Level of the ship's firing rate.
    pub fn ship_laser_timer_level(&self) -> (r: i32)
        ensures
            r == self@.ship_laser_timer_lvl,
    {
        self.ship_laser_timer_lvl
    }

    /// Lives of the ship at the start of the level.
    pub fn ship_lives(&self) -> (r: i32)
        ensures
            r == self@.ship_lives,
    {
        self.ship_lives
    }

    /// Number of covers in front of the ship.
    pub fn covers(&self) -> (r: i32)
        ensures
            r == self@.covers,
    {
        self.covers
    }

    /// Width of a cover, in blocks.
    pub fn cover_width(&self) -> (r: i32)
        ensures
            r == self@.cover_width,
    {
        self.cover_width
    }

    /// Height of a cover, in blocks.
    pub fn cover_height(&self) -> (r: i32)
        ensures
            r == self@.cover_height,
    {
        self.cover_height
    }
}

/// The position in the level string of the cell of a placement.
pub open spec fn cell_index(p: MonsterPlacement) -> int {
    p.row * MONSTERS_MAX_COLS + p.col
}

/// The placements come in the order of their cells.
pub open spec fn placements_ordered(p: Seq<MonsterPlacement>) -> bool {
    forall|a: int, b: int| 0 <= a < b < p.len() ==> cell_index(#[trigger] p[a]) < cell_index(#[trigger] p[b])
}

/// Number of characters of `s` that place a monster (H, F, D, B, S, R).
pub open spec fn monster_letters(s: Seq<char>) -> nat
    decreases s.len(),
{
    if s.len() == 0 {
        0
    } else {
        monster_letters(s.drop_last()) + if s.last() == 'R' || fixed_class_of(s.last()) is Some { 1nat } else { 0nat }
    }
}

/// A level string gives one monster per monster letter, each in a column of
/// the grid, in the order of the string (row by row, left to right); a
/// string without `R` does not use the generator.
pub proof fn lemma_layout_shape(s: Seq<char>, n: nat, state: u64)
    requires
        n <= s.len(),
        s.len() <= usize::MAX,
    ensures
        layout_prefix(s, n, state).0.len() == monster_letters(s.take(n as int)),
        forall|k: int| 0 <= k < layout_prefix(s, n, state).0.len()
            ==> (#[trigger] layout_prefix(s, n, state).0[k]).col < MONSTERS_MAX_COLS,
        placements_ordered(layout_prefix(s, n, state).0),
        forall|k: int| 0 <= k < layout_prefix(s, n, state).0.len()
            ==> cell_index(#[trigger] layout_prefix(s, n, state).0[k]) < n,
        (forall|i: int| 0 <= i < n ==> s[i] != 'R') ==> layout_prefix(s, n, state).1 == state,
    decreases n,
{
    if n > 0 {
        lemma_layout_shape(s, (n - 1) as nat, state);
        assert(s.take(n as int).drop_last() =~= s.take(n - 1));
        let i = n - 1;
        let prev = layout_prefix(s, (n - 1) as nat, state).0;
        let cur = layout_prefix(s, n, state).0;
        assert forall|c: MonsterClass| cell_index(#[trigger] placement_at(i, c)) == i by {
            assert((i / 11) * 11 + i % 11 == i);
            assert(placement_at(i, c).row == i / 11);
            assert(placement_at(i, c).col == i % 11);
        }
        if cur.len() > prev.len() {
            assert(cur == prev.push(cur.last()));
            assert(cell_index(cur.last()) == i);
            assert forall|a: int, b: int| 0 <= a < b < cur.len() implies cell_index(#[trigger] cur[a]) < cell_index(#[trigger] cur[b]) by {
                if b == cur.len() - 1 {
                    assert(cur[a] == prev[a]);
                } else {
                    assert(cur[a] == prev[a]);
                    assert(cur[b] == prev[b]);
                }
            }
        }
    }
}

/// Number of `R` characters of `s`.
pub open spec fn count_r(s: Seq<char>) -> nat
    decreases s.len(),
{
    if s.len() == 0 {
        0
    } else {
        count_r(s.drop_last()) + if s.last() == 'R' { 1nat } else { 0nat }
    }
}

proof fn lemma_monster_letters_grow(s: Seq<char>, a: int, b: int)
    requires
        0 <= a <= b <= s.len(),
    ensures
        monster_letters(s.take(a)) <= monster_letters(s.take(b)),
    decreases b - a,
{
    if a < b {
        lemma_monster_letters_grow(s, a, b - 1);
        assert(s.take(b).drop_last() =~= s.take(b - 1));
    }
}

/// Each `R` of a level string draws from the level's generator: laying out
/// a string moves the generator one step per `R` (and not at all for the
/// other characters), and the monster of the `R` at position `i` (the
/// monster after those of the first `i` characters) stands in cell `i` with
/// the class drawn by the step of that `R`, the `count_r(s[..=i])`-th.
pub proof fn lemma_layout_draws_per_random_letter(s: Seq<char>, n: nat, state: u64)
    requires
        n <= s.len(),
        s.len() <= usize::MAX,
    ensures
        layout_prefix(s, n, state).1 == splitmix_iter(state, count_r(s.take(n as int))),
        forall|i: int| 0 <= i < n && s[i] == 'R' ==> {
            &&& monster_letters(s.take(i)) < layout_prefix(s, n, state).0.len()
            &&& #[trigger] layout_prefix(s, n, state).0[monster_letters(s.take(i)) as int]
                == placement_at(i, class_from_number(splitmix_iter(state, count_r(s.take(i + 1)))))
        },
    decreases n,
{
    lemma_layout_shape(s, n, state);
    if n > 0 {
        let k = n - 1;
        lemma_layout_draws_per_random_letter(s, k as nat, state);
        lemma_layout_shape(s, k as nat, state);
        assert(s.take(n as int).drop_last() =~= s.take(k));
        let prev = layout_prefix(s, k as nat, state);
        let cur = layout_prefix(s, n, state);
        assert forall|i: int| 0 <= i < n && s[i] == 'R' implies {
            &&& monster_letters(s.take(i)) < cur.0.len()
            &&& #[trigger] cur.0[monster_letters(s.take(i)) as int]
                == placement_at(i, class_from_number(splitmix_iter(state, count_r(s.take(i + 1)))))
        } by {
            assert(s.take(i + 1).drop_last() =~= s.take(i));
            if i < k {
                lemma_monster_letters_grow(s, i + 1, k);
                assert(cur.0.len() >= prev.0.len());
                if cur.0.len() > prev.0.len() {
                    assert(cur.0 == prev.0.push(cur.0.last()));
                }
            }
        }
    }
}

} // verus!
