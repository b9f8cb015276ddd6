use nebulon_monsters::monster::{monster_shot, MonsterClass, MonsterPlacement, MonsterShot};
use nebulon_monsters::random::RandomGenerator;
use nebulon_monsters::level::Level;

#[test]
fn next_number_is_splitmix64() {
    let mut g = RandomGenerator::from_clock(Some(0), 0);
    assert_eq!(g.next_number(), 0xe220a8397b1dcdaf);
    assert_eq!(g.next_number(), 12035550249420947055);
    assert_eq!(g.next_number(), 2558736989570252433);
}

#[test]
fn clock_seed_is_xored_and_falls_back() {
    let mut a = RandomGenerator::from_clock(Some(0x1234), 0x1234);
    let mut b = RandomGenerator::from_clock(Some(0), 0);
    assert_eq!(a.next_number(), b.next_number());
    let mut c = RandomGenerator::from_clock(None, 0);
    assert_eq!(c.next_number(), 17643689688068830271);
}

#[test]
fn same_state_same_sequence() {
    let mut a = RandomGenerator::from_clock(Some(987654321), 7);
    let mut b = RandomGenerator::from_clock(Some(987654321), 7);
    for _ in 0..100 {
        assert_eq!(a.next_number(), b.next_number());
    }
}

#[test]
fn system_seeded_generators_advance() {
    let mut g = RandomGenerator::new(0xAAAA);
    let x = g.next_number();
    let y = g.next_number();
    assert_ne!(x, y);
}

#[test]
fn random_class_follows_the_generator() {
    // numbers drawn from state 0: 16294208416658607535 (mod 5 = 0),
    // 12035550249420947055 (0), 2558736989570252433 (3), 2391539541053276776 (1)
    let mut g = RandomGenerator::from_clock(Some(0), 0);
    assert_eq!(MonsterClass::random(&mut g), MonsterClass::Fighter);
    assert_eq!(MonsterClass::random(&mut g), MonsterClass::Fighter);
    assert_eq!(MonsterClass::random(&mut g), MonsterClass::Bomber);
    assert_eq!(MonsterClass::random(&mut g), MonsterClass::HeavyFighter);
}

#[test]
fn random_classes_are_the_five_classes() {
    let mut g = RandomGenerator::from_clock(Some(31337), 0);
    for _ in 0..200 {
        let c = MonsterClass::random(&mut g);
        assert!(matches!(c, MonsterClass::Fighter | MonsterClass::HeavyFighter | MonsterClass::Defender(1) | MonsterClass::Bomber | MonsterClass::Spawner));
    }
}

#[test]
fn class_scores() {
    assert_eq!(MonsterClass::Fighter.score(), 2);
    assert_eq!(MonsterClass::HeavyFighter.score(), 5);
    assert_eq!(MonsterClass::Defender(3).score(), 4);
    assert_eq!(MonsterClass::Bomber.score(), 8);
    assert_eq!(MonsterClass::Spawner.score(), 8);
}

#[test]
fn defender_loses_shield_on_hit() {
    assert_eq!(MonsterClass::Defender(1).after_hit(), MonsterClass::Defender(0));
    assert_eq!(MonsterClass::Defender(0).after_hit(), MonsterClass::Defender(-1));
    assert_eq!(MonsterClass::Bomber.after_hit(), MonsterClass::Bomber);
    assert!(MonsterClass::Defender(0).survives_hit());
    assert!(!MonsterClass::Defender(-1).survives_hit());
    assert!(!MonsterClass::Fighter.survives_hit());
}

#[test]
fn level_create_defaults() {
    let l = Level::create("HF");
    assert_eq!(l.monster_str(), "HF");
    assert_eq!(l.ship_lives(), 4);
    assert_eq!(l.covers(), 3);
    assert_eq!(l.cover_width(), 8);
    assert_eq!(l.cover_height(), 4);
    assert_eq!(l.monster_speed_level(), 0);
    assert_eq!(l.monster_laser_speed_level(), 0);
    assert_eq!(l.monster_laser_timer_level(), 0);
    assert_eq!(l.ship_laser_timer_level(), 0);
}

#[test]
fn level_empty() {
    let l = Level::empty();
    assert_eq!(l.monster_str(), "");
    assert_eq!(l.ship_lives(), 0);
    assert_eq!(l.covers(), 0);
    assert_eq!(l.cover_width(), 0);
    assert_eq!(l.cover_height(), 0);
}

#[test]
fn level_setters() {
    let mut l = Level::create("F");
    l.set_monster_laser_speed_level(1);
    l.set_monster_laser_timer_level(2);
    l.set_monster_speed_level(3);
    l.set_ship_laser_timer_level(4);
    l.set_ship_lives(5);
    assert_eq!(l.monster_laser_speed_level(), 1);
    assert_eq!(l.monster_laser_timer_level(), 2);
    assert_eq!(l.monster_speed_level(), 3);
    assert_eq!(l.ship_laser_timer_level(), 4);
    assert_eq!(l.ship_lives(), 5);
    assert_eq!(l.monster_str(), "F");
}

#[test]
fn layout_fills_the_grid_row_by_row() {
    let mut l = Level::create("HF D BSX  ?F");
    let p = l.monster_layout();
    let expected = vec![
        MonsterPlacement { col: 0, row: 0, class: MonsterClass::HeavyFighter },
        MonsterPlacement { col: 1, row: 0, class: MonsterClass::Fighter },
        MonsterPlacement { col: 3, row: 0, class: MonsterClass::Defender(1) },
        MonsterPlacement { col: 5, row: 0, class: MonsterClass::Bomber },
        MonsterPlacement { col: 6, row: 0, class: MonsterClass::Spawner },
        MonsterPlacement { col: 0, row: 1, class: MonsterClass::Fighter },
    ];
    assert_eq!(p, expected);
}

#[test]
fn layout_counts_characters_not_bytes() {
    let mut l = Level::create("éH");
    let p = l.monster_layout();
    assert_eq!(p, vec![MonsterPlacement { col: 1, row: 0, class: MonsterClass::HeavyFighter }]);
}

#[test]
fn layout_of_random_letters() {
    let mut l = Level::create("R R");
    let p = l.monster_layout();
    assert_eq!(p.len(), 2);
    assert_eq!((p[0].col, p[0].row), (0, 0));
    assert_eq!((p[1].col, p[1].row), (2, 0));
}

#[test]
fn layout_of_full_default_level() {
    let mut l = Level::create("FFFFFFFFFF FFFFFFFFFF FFFFFFFFFF FFFFFFFFFF FFFFFFFFFF ");
    let p = l.monster_layout();
    assert_eq!(p.len(), 50);
    assert!(p.iter().all(|m| m.col < 11 && m.row < 5 && m.class == MonsterClass::Fighter));
    // the space at index 10 leaves the last column of the first row empty
    assert_eq!((p[9].col, p[9].row), (9, 0));
    assert_eq!((p[10].col, p[10].row), (0, 1));
}

#[test]
fn what_a_firing_monster_does() {
    assert_eq!(monster_shot(MonsterClass::HeavyFighter, true), MonsterShot::TwinLasers);
    assert_eq!(monster_shot(MonsterClass::Fighter, true), MonsterShot::Laser);
    assert_eq!(monster_shot(MonsterClass::Defender(0), false), MonsterShot::Laser);
    assert_eq!(monster_shot(MonsterClass::Bomber, false), MonsterShot::Bomb);
    assert_eq!(monster_shot(MonsterClass::Spawner, true), MonsterShot::Revive);
    assert_eq!(monster_shot(MonsterClass::Spawner, false), MonsterShot::Laser);
}
