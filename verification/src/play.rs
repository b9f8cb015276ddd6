use vstd::prelude::*;
use crate::constants::{SCORE_LIVE, SCORE_MAX, UFO_MINIMAL_SPAWN_INTERVAL, UFO_RANDOM_SPAWN_INTERVAL};
use crate::collisions::{CollisionView, ContactsView, lemma_collisions_only_destroy, resolve_collisions};
use crate::game_state::{GameState, PlayerCommand};
use crate::random::{RandomGenerator, splitmix_next};

verus! {

/// The ship's lives at the end of a frame: one more when the UFO was hit.
pub open spec fn lives_after_frame(lives: int, ufo_was_hit: bool) -> int {
    if ufo_was_hit { lives + 1 } else { lives }
}

/// Whether the frame ends the level with the lives bonus: the game is not
/// won, the ship was not hit, it has lives left and no monster is alive.
pub open spec fn gives_level_bonus(score: int, ship_was_hit: bool, lives: int, alive_monsters: nat) -> bool {
    score < SCORE_MAX && !ship_was_hit && lives >= 0 && alive_monsters == 0
}

/// How a frame of play ends, with the score and the ship's lives after it.
/// A hit on the UFO gives the ship a life. Then the game is won at
/// `SCORE_MAX`; a hit ship pauses the game; no lives left is game over;
/// with no live monster left the level is done and every life left scores
/// `SCORE_LIVE` (never above `SCORE_MAX`); otherwise play goes on.
pub open spec fn play_outcome_of(score: int, ship_was_hit: bool, ufo_was_hit: bool, lives: int, alive_monsters: nat) -> (GameState, int, int) {
    let l = lives_after_frame(lives, ufo_was_hit);
    if score >= SCORE_MAX {
        (GameState::WinGame, score, l)
    } else if ship_was_hit {
        (GameState::HitPause, score, l)
    } else if l < 0 {
        (GameState::GameOver, score, l)
    } else if alive_monsters == 0 {
        let bonus = score + l * SCORE_LIVE;
        (GameState::NextLevel, if bonus < SCORE_MAX { bonus } else { SCORE_MAX as int }, l)
    } else {
        (GameState::PlayLevel, score, l)
    }
}

/// The end of a frame of play, after the collisions: the next state, the
/// score and the ship's lives. The lives bonus must fit in an `i32`.
pub fn play_outcome(score: i32, ship_was_hit: bool, ufo_was_hit: bool, lives: i32, alive_monsters: usize) -> (r: (GameState, i32, i32))
    requires
        ufo_was_hit ==> lives < i32::MAX,
        gives_level_bonus(score as int, ship_was_hit, lives_after_frame(lives as int, ufo_was_hit), alive_monsters as nat) ==> {
            &&& lives_after_frame(lives as int, ufo_was_hit) * SCORE_LIVE <= i32::MAX
            &&& score + lives_after_frame(lives as int, ufo_was_hit) * SCORE_LIVE <= i32::MAX
        },
    ensures
        (r.0, r.1 as int, r.2 as int) == play_outcome_of(score as int, ship_was_hit, ufo_was_hit, lives as int, alive_monsters as nat),
{
    let lives: i32 = if ufo_was_hit { lives + 1 } else { lives };
    if score >= SCORE_MAX {
        return (GameState::WinGame, score, lives);
    }
    if ship_was_hit {
        return (GameState::HitPause, score, lives);
    }
    if lives < 0 {
        (GameState::GameOver, score, lives)
    } else if alive_monsters == 0 {
        let bonus = score + lives * SCORE_LIVE;
        (GameState::NextLevel, if bonus < SCORE_MAX { bonus } else { SCORE_MAX }, lives)
    } else {
        (GameState::PlayLevel, score, lives)
    }
}

/// What a frame of play does with the player's single command before
/// anything moves: Escape leaves the level for the pause menu, and nothing
/// else of the frame happens.
pub fn level_escape(single_command: &Option<PlayerCommand>) -> (s: Option<GameState>)
    ensures
        s == (if *single_command == Some(PlayerCommand::Escape) { Some(GameState::PauseMenuScreen) } else { None::<GameState> }),
{
    match single_command {
        Some(PlayerCommand::Escape) => Some(GameState::PauseMenuScreen),
        _ => None,
    }
}

/// Over a whole frame of play the score only grows and stays at most
/// `SCORE_MAX`: the collisions add capped points, and the end of the frame
/// adds only the capped lives bonus. The UFO was hit when it flew before the
/// collisions and not after them.
pub proof fn lemma_frame_score_grows(v: CollisionView, c: ContactsView)
    requires
        v.classes.len() == v.alive.len(),
        v.score <= SCORE_MAX,
    ensures
        ({
            let r = resolve_collisions(v, c);
            let out = play_outcome_of(r.score, r.ship_hit, v.ufo_active && !r.ufo_active, r.lives, count_true(r.alive));
            v.score <= out.1 <= SCORE_MAX
        }),
{
    lemma_collisions_only_destroy(v, c);
}

/// Number of `true` entries.
pub open spec fn count_true(s: Seq<bool>) -> nat
    decreases s.len(),
{
    if s.len() == 0 {
        0
    } else {
        count_true(s.drop_last()) + if s.last() { 1nat } else { 0nat }
    }
}

/// Number of entries that are set.
pub fn count_set(flags: &Vec<bool>) -> (n: usize)
    ensures
        n == count_true(flags@),
{
    let mut n: usize = 0;
    let mut i: usize = 0;
    while i < flags.len()
        invariant
            i <= flags@.len(),
            n == count_true(flags@.take(i as int)),
            n <= i,
        decreases flags@.len() - i,
    {
        assert(flags@.take(i as int + 1).drop_last() =~= flags@.take(i as int));
        if flags[i] {
            n = n + 1;
        }
        i = i + 1;
    }
    assert(flags@.take(flags@.len() as int) =~= flags@);
    n
}

/// The index of the entry that is set and has exactly `r` set entries
/// before it.
fn nth_set(flags: &Vec<bool>, r: usize) -> (i: usize)
    requires
        r < count_true(flags@),
    ensures
        i < flags@.len(),
        flags@[i as int],
        count_true(flags@.take(i as int)) == r,
{
    let mut seen: usize = 0;
    let mut i: usize = 0;
    while i < flags.len()
        invariant
            i <= flags@.len(),
            seen == count_true(flags@.take(i as int)),
            seen <= r,
            r < count_true(flags@),
        decreases flags@.len() - i,
    {
        assert(flags@.take(i as int + 1).drop_last() =~= flags@.take(i as int));
        if flags[i] {
            if seen == r {
                return i;
            }
            seen = seen + 1;
        }
        i = i + 1;
    }
    assert(flags@.take(flags@.len() as int) =~= flags@);
    0
}

/// Picks one of the set entries at random: with `n` set entries, the next
/// number of the generator, taken as a `usize`, modulo `n` says which
/// (counting from the front).
/// With no set entry nothing is picked and the generator is not used.
pub fn pick_random(flags: &Vec<bool>, random_generator: &mut RandomGenerator) -> (r: Option<usize>)
    ensures
        count_true(flags@) == 0 ==> r is None && final(random_generator).state() == old(random_generator).state(),
        count_true(flags@) > 0 ==> {
            &&& final(random_generator).state() == splitmix_next(old(random_generator).state())
            &&& r matches Some(i) && i < flags@.len() && flags@[i as int]
                && count_true(flags@.take(i as int)) == (final(random_generator).state() as usize) % (count_true(flags@) as usize)
        },
{
    let n = count_set(flags);
    if n == 0 {
        return None;
    }
    let k: usize = (random_generator.next_number() as usize) % n;
    Some(nth_set(flags, k))
}

/// Seconds the UFO waits before it appears: a minimum plus the next number
/// of the generator modulo the random part.
pub fn ufo_spawn_delay(random_generator: &mut RandomGenerator) -> (d: u64)
    ensures
        final(random_generator).state() == splitmix_next(old(random_generator).state()),
        d == UFO_MINIMAL_SPAWN_INTERVAL + final(random_generator).state() % UFO_RANDOM_SPAWN_INTERVAL,
{
    UFO_MINIMAL_SPAWN_INTERVAL + random_generator.next_number() % UFO_RANDOM_SPAWN_INTERVAL
}

/// Whether the UFO enters from the left side: the next number of the
/// generator is odd.
pub fn ufo_from_left(random_generator: &mut RandomGenerator) -> (left: bool)
    ensures
        final(random_generator).state() == splitmix_next(old(random_generator).state()),
        left == (final(random_generator).state() % 2 == 1),
{
    random_generator.next_number() % 2 == 1
}

/// The integer draws that make a star: its position in the play area (in
/// whole pixels from the top-left corner), its size in pixels, its lifespan
/// in milliseconds and the extra blue of its color (in 1/255 steps).
pub struct StarDraw {
    pub x: u64,
    pub y: u64,
    pub size: u64,
    pub lifespan_ms: u64,
    pub blue: u64,
}

/// Size limits of a star in pixels, and lifespan limits in milliseconds.
pub const STAR_SIZE_MIN: u64 = 2;
pub const STAR_SIZE_MAX: u64 = 4;
pub const STAR_LIFESPAN_MIN: u64 = 3000;
pub const STAR_LIFESPAN_MAX: u64 = 10000;

/// Draws a star: five numbers of the generator give, in order, the x and
/// y position modulo the play area size, the size, the lifespan and the
/// extra blue modulo `blue_range`.
pub fn draw_star(random_generator: &mut RandomGenerator, area_width: u64, area_height: u64, blue_range: u64) -> (s: StarDraw)
    requires
        area_width > 0,
        area_height > 0,
        blue_range > 0,
    ensures
        ({
            let s1 = splitmix_next(old(random_generator).state());
            let s2 = splitmix_next(s1);
            let s3 = splitmix_next(s2);
            let s4 = splitmix_next(s3);
            let s5 = splitmix_next(s4);
            &&& final(random_generator).state() == s5
            &&& s.x == s1 % area_width
            &&& s.y == s2 % area_height
            &&& s.size == STAR_SIZE_MIN + s3 % 3u64
            &&& s.lifespan_ms == STAR_LIFESPAN_MIN + s4 % 7000u64
            &&& s.blue == s5 % blue_range
        }),
{
    let x = random_generator.next_number() % area_width;
    let y = random_generator.next_number() % area_height;
    let size = STAR_SIZE_MIN + random_generator.next_number() % (STAR_SIZE_MAX - STAR_SIZE_MIN + 1);
    let lifespan_ms = STAR_LIFESPAN_MIN + random_generator.next_number() % (STAR_LIFESPAN_MAX - STAR_LIFESPAN_MIN);
    let blue = random_generator.next_number() % blue_range;
    StarDraw { x, y, size, lifespan_ms, blue }
}

/// A new position for a star whose life ended: two numbers of the
/// generator, modulo the play area size.
pub fn draw_star_position(random_generator: &mut RandomGenerator, area_width: u64, area_height: u64) -> (p: (u64, u64))
    requires
        area_width > 0,
        area_height > 0,
    ensures
        ({
            let s1 = splitmix_next(old(random_generator).state());
            let s2 = splitmix_next(s1);
            &&& final(random_generator).state() == s2
            &&& p.0 == s1 % area_width
            &&& p.1 == s2 % area_height
        }),
{
    let x = random_generator.next_number() % area_width;
    let y = random_generator.next_number() % area_height;
    (x, y)
}

} // verus!
