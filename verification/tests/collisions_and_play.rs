use nebulon_monsters::collisions::{process_collisions, CollisionWorld, Contacts};
use nebulon_monsters::game_state::{GameState, PlayerCommand};
use nebulon_monsters::glyphs::{glyph_cell, glyph_index};
use nebulon_monsters::monster::MonsterClass;
use nebulon_monsters::play::{count_set, draw_star, draw_star_position, level_escape, pick_random, play_outcome, ufo_from_left, ufo_spawn_delay};
use nebulon_monsters::random::RandomGenerator;
use nebulon_monsters::slots::add_to_slots;
use nebulon_monsters::sound::{mixer_volume, SoundType};

/// A world with `l` lasers, `m` monsters (fighters), `k` blocks and `b`
/// bombs, everything present, and contacts that touch nothing.
fn world(l: usize, m: usize, k: usize, b: usize) -> (CollisionWorld, Contacts) {
    let w = CollisionWorld {
        lasers: vec![true; l],
        monsters_alive: vec![true; m],
        monster_classes: vec![MonsterClass::Fighter; m],
        blocks: vec![true; k],
        bombs: vec![true; b],
        ufo_active: true,
        score: 0,
        lives: 3,
        ship_hit: false,
    };
    let c = Contacts {
        laser_upward: vec![true; l],
        laser_monster: vec![vec![false; m]; l],
        laser_block: vec![vec![false; k]; l],
        laser_bomb: vec![vec![false; b]; l],
        laser_ufo: vec![false; l],
        laser_ship: vec![false; l],
        monster_block: vec![vec![false; k]; m],
        monster_ship: vec![false; m],
        bomb_ship: vec![false; b],
        bomb_block: vec![vec![false; k]; b],
    };
    (w, c)
}

#[test]
fn laser_hits_first_live_monster_only() {
    let (mut w, mut c) = world(2, 3, 1, 0);
    w.monster_classes[1] = MonsterClass::HeavyFighter;
    w.monsters_alive[0] = false;
    c.laser_monster[0] = vec![true, true, true];
    c.laser_monster[1] = vec![false, true, false];
    c.laser_block[0] = vec![true];
    let sounds = process_collisions(&mut w, &c);
    // laser 0 hits monster 1 (monster 0 is dead), laser 1 then finds monster 1 gone
    assert_eq!(w.monsters_alive, vec![false, false, true]);
    assert_eq!(w.lasers, vec![false, true]);
    assert_eq!(w.blocks, vec![true]);
    assert_eq!(w.score, 5);
    assert_eq!(sounds, vec![SoundType::MonsterHit]);
}

#[test]
fn upward_laser_priorities() {
    let (mut w, mut c) = world(3, 0, 2, 1);
    // laser 0: block and bomb -> block
    c.laser_block[0] = vec![false, true];
    c.laser_bomb[0] = vec![true];
    // laser 1: bomb and ufo -> bomb
    c.laser_bomb[1] = vec![true];
    c.laser_ufo[1] = true;
    // laser 2: ufo
    c.laser_ufo[2] = true;
    let sounds = process_collisions(&mut w, &c);
    assert_eq!(w.blocks, vec![true, false]);
    assert_eq!(w.bombs, vec![false]);
    assert!(!w.ufo_active);
    assert_eq!(w.lasers, vec![false, false, false]);
    assert_eq!(w.score, 210);
    assert_eq!(sounds, vec![SoundType::BombHit, SoundType::UfoHit]);
}

#[test]
fn downward_lasers_hit_ship_or_blocks() {
    let (mut w, mut c) = world(3, 0, 2, 0);
    c.laser_upward = vec![false, false, false];
    c.laser_ship[0] = true;
    c.laser_block[0] = vec![true, true];
    c.laser_block[1] = vec![true, true];
    c.laser_ship[2] = true;
    let sounds = process_collisions(&mut w, &c);
    assert_eq!(w.lives, 1);
    assert!(w.ship_hit);
    assert_eq!(w.blocks, vec![false, true]);
    assert_eq!(w.lasers, vec![false, false, false]);
    assert_eq!(sounds, vec![SoundType::ShipHit, SoundType::ShipHit]);
}

#[test]
fn monster_reaching_the_ship_ends_the_game() {
    let (mut w, mut c) = world(0, 3, 3, 0);
    c.monster_block[0] = vec![true, false, false];
    c.monster_ship[1] = true;
    c.monster_block[1] = vec![false, true, false];
    c.monster_block[2] = vec![false, false, true];
    let sounds = process_collisions(&mut w, &c);
    assert_eq!(w.lives, -1);
    // monster 2 comes after the one that ended the game: its block stays
    assert_eq!(w.blocks, vec![false, false, true]);
    assert!(sounds.is_empty());
    assert!(!w.ship_hit);
}

#[test]
fn bombs_hit_ship_and_blocks() {
    let (mut w, mut c) = world(0, 0, 3, 3);
    c.bomb_ship[0] = true;
    c.bomb_block[0] = vec![true, false, false];
    c.bomb_block[1] = vec![true, true, false];
    let sounds = process_collisions(&mut w, &c);
    assert_eq!(w.bombs, vec![false, false, true]);
    assert_eq!(w.blocks, vec![false, false, true]);
    assert_eq!(w.lives, 2);
    assert_eq!(sounds, vec![SoundType::ShipHit]);
}

#[test]
fn score_never_exceeds_max() {
    let (mut w, mut c) = world(1, 0, 0, 0);
    w.score = 99950;
    c.laser_ufo[0] = true;
    process_collisions(&mut w, &c);
    assert_eq!(w.score, 99999);
}

#[test]
fn collisions_only_destroy() {
    let (mut w, mut c) = world(4, 4, 4, 4);
    for i in 0..4 {
        for j in 0..4 {
            c.laser_monster[i][j] = (i + j) % 3 == 0;
            c.laser_block[i][j] = (i * j) % 2 == 1;
            c.monster_block[i][j] = i == j;
            c.bomb_block[i][j] = (i + 2 * j) % 4 == 1;
        }
    }
    w.monsters_alive[2] = false;
    w.blocks[3] = false;
    let before = (w.monsters_alive.clone(), w.blocks.clone(), w.score);
    process_collisions(&mut w, &c);
    for j in 0..4 {
        assert!(!w.monsters_alive[j] || before.0[j]);
        assert!(!w.blocks[j] || before.1[j]);
    }
    assert!(w.score >= before.2);
}

#[test]
fn play_outcomes() {
    assert_eq!(play_outcome(99999, true, false, 2, 10), (GameState::WinGame, 99999, 2));
    assert_eq!(play_outcome(10, true, false, -1, 10), (GameState::HitPause, 10, -1));
    assert_eq!(play_outcome(10, false, false, -1, 0), (GameState::GameOver, 10, -1));
    assert_eq!(play_outcome(10, false, false, 3, 0), (GameState::NextLevel, 70, 3));
    assert_eq!(play_outcome(99990, false, false, 3, 0), (GameState::NextLevel, 99999, 3));
    assert_eq!(play_outcome(10, false, false, 0, 5), (GameState::PlayLevel, 10, 0));
}

#[test]
fn ufo_hit_gives_a_life() {
    assert_eq!(play_outcome(10, false, true, 2, 5), (GameState::PlayLevel, 10, 3));
    // the extra life saves the ship from game over, and counts in the bonus
    assert_eq!(play_outcome(10, false, true, -1, 5), (GameState::PlayLevel, 10, 0));
    assert_eq!(play_outcome(10, false, true, 3, 0), (GameState::NextLevel, 90, 4));
    // the lives bonus without overflow up to the largest count that fits
    assert_eq!(play_outcome(0, false, false, 107_374_182, 0), (GameState::NextLevel, 99999, 107_374_182));
}

#[test]
fn escape_leaves_the_level() {
    assert_eq!(level_escape(&Some(PlayerCommand::Escape)), Some(GameState::PauseMenuScreen));
    assert_eq!(level_escape(&Some(PlayerCommand::Select)), None);
    assert_eq!(level_escape(&None), None);
}

#[test]
fn hit_defender_loses_shield() {
    let (mut w, mut c) = world(1, 2, 0, 0);
    w.monster_classes = vec![MonsterClass::Defender(1), MonsterClass::Defender(1)];
    c.laser_monster[0] = vec![false, true];
    let sounds = process_collisions(&mut w, &c);
    assert_eq!(w.monster_classes, vec![MonsterClass::Defender(1), MonsterClass::Defender(0)]);
    assert_eq!(w.monsters_alive, vec![true, false]);
    assert_eq!(w.score, 4);
    assert_eq!(sounds, vec![SoundType::MonsterHit]);
}

#[test]
fn pick_random_counts_set_entries() {
    let flags = vec![false, true, true, false, true];
    assert_eq!(count_set(&flags), 3);
    // numbers from state 0: 16294208416658607535 (mod 3 = 1), 12035550249420947055 (mod 3 = 0)
    let mut g = RandomGenerator::from_clock(Some(0), 0);
    assert_eq!(pick_random(&flags, &mut g), Some(2));
    assert_eq!(pick_random(&flags, &mut g), Some(1));
    let mut h = RandomGenerator::from_clock(Some(0), 0);
    assert_eq!(pick_random(&vec![false, false], &mut h), None);
    // the generator was not used
    assert_eq!(h.next_number(), 0xe220a8397b1dcdaf);
}

#[test]
fn ufo_draws() {
    let mut g = RandomGenerator::from_clock(Some(0), 0);
    // 16294208416658607535 mod 10 = 5, 12035550249420947055 is odd
    assert_eq!(ufo_spawn_delay(&mut g), 15);
    assert!(ufo_from_left(&mut g));
    let mut h = RandomGenerator::from_clock(Some(7), 1);
    for _ in 0..100 {
        let d = ufo_spawn_delay(&mut h);
        assert!((10..20).contains(&d));
    }
}

#[test]
fn star_draws() {
    let mut g = RandomGenerator::from_clock(Some(42), 0);
    let s = draw_star(&mut g, 800, 800, 153);
    assert_eq!((s.x, s.y, s.size, s.lifespan_ms, s.blue), (213, 68, 4, 6243, 5));
    let mut h = RandomGenerator::from_clock(Some(42), 0);
    assert_eq!(draw_star_position(&mut h, 800, 800), (213, 68));
}

#[test]
fn slots_are_reused() {
    let mut slots: Vec<Option<u32>> = vec![Some(1), None, Some(3), None];
    add_to_slots(&mut slots, 7);
    assert_eq!(slots, vec![Some(1), Some(7), Some(3), None]);
    add_to_slots(&mut slots, 8);
    assert_eq!(slots, vec![Some(1), Some(7), Some(3), Some(8)]);
    add_to_slots(&mut slots, 9);
    assert_eq!(slots, vec![Some(1), Some(7), Some(3), Some(8), Some(9)]);
}

#[test]
fn glyph_indices() {
    assert_eq!(glyph_index(b' '), 0);
    assert_eq!(glyph_index(b'A'), 33);
    assert_eq!(glyph_index(b'~'), 94);
    assert_eq!(glyph_cell(b'A'), (14, 1));
    assert_eq!(glyph_cell(b'~'), (18, 4));
}

#[test]
fn mixer_volumes() {
    assert_eq!(mixer_volume(20), 25);
    assert_eq!(mixer_volume(100), 128);
    assert_eq!(mixer_volume(150), 128);
    assert_eq!(mixer_volume(-3), 0);
}
