use nebulon_monsters::configuration::Configuration;
use nebulon_monsters::game::{Effect, Game};
use nebulon_monsters::game_state::{GameState, GameType, PlayerCommand};
use nebulon_monsters::menu::Menu;

fn labels(m: &Menu) -> Vec<String> {
    (0..m.len()).map(|i| m.label(i).to_string()).collect()
}

#[test]
fn main_menu_buttons() {
    let m = Menu::main();
    assert_eq!(labels(&m), vec!["new game", "random", "top score", "settings", "quit"]);
    assert_eq!(m.value(0), GameState::GameStart);
    assert_eq!(m.value(4), GameState::Quit);
    assert_eq!(m.selected(), 0);
}

#[test]
fn menu_selection_moves_within_buttons() {
    let mut m = Menu::main();
    assert_eq!(m.update(&Some(PlayerCommand::Up), None), GameState::MainMenuScreen);
    assert_eq!(m.selected(), 0);
    for _ in 0..10 {
        assert_eq!(m.update(&Some(PlayerCommand::Down), None), GameState::MainMenuScreen);
    }
    assert_eq!(m.selected(), 4);
    assert_eq!(m.update(&Some(PlayerCommand::Up), None), GameState::MainMenuScreen);
    assert_eq!(m.selected(), 3);
    assert_eq!(m.update(&Some(PlayerCommand::Select), None), GameState::SettingsMenuScreen);
    assert_eq!(m.update(&Some(PlayerCommand::Fire), None), GameState::SettingsMenuScreen);
    assert_eq!(m.update(&None, None), GameState::MainMenuScreen);
    assert_eq!(m.update(&Some(PlayerCommand::Left), None), GameState::MainMenuScreen);
}

#[test]
fn menu_pointer() {
    let mut m = Menu::pause();
    assert_eq!(m.update(&Some(PlayerCommand::MouseMove(10, 10)), Some(2)), GameState::PauseMenuScreen);
    assert_eq!(m.selected(), 2);
    assert_eq!(m.update(&Some(PlayerCommand::MouseMove(10, 10)), None), GameState::PauseMenuScreen);
    assert_eq!(m.selected(), 2);
    assert_eq!(m.update(&Some(PlayerCommand::Click(1, 1)), Some(3)), GameState::Quit);
    assert_eq!(m.update(&Some(PlayerCommand::Click(1, 1)), None), GameState::PauseMenuScreen);
    // an index past the last button names no button
    assert_eq!(m.update(&Some(PlayerCommand::Click(1, 1)), Some(4)), GameState::PauseMenuScreen);
    assert_eq!(m.update(&Some(PlayerCommand::MouseMove(1, 1)), Some(7)), GameState::PauseMenuScreen);
    assert_eq!(m.selected(), 2);
}

#[test]
fn menu_escape() {
    let mut main = Menu::main();
    assert_eq!(main.update(&Some(PlayerCommand::Escape), None), GameState::Quit);
    let mut pause = Menu::pause();
    assert_eq!(pause.update(&Some(PlayerCommand::Escape), None), GameState::Continue);
    let mut settings = Menu::settings();
    assert_eq!(settings.update(&Some(PlayerCommand::Escape), None), GameState::MainMenuScreen);
    settings.set_back_state(GameState::PauseMenuScreen);
    assert_eq!(settings.update(&Some(PlayerCommand::Escape), None), GameState::PauseMenuScreen);
    assert_eq!(labels(&settings), vec!["-", "+", "-", "+", "-", "+", "-", "+", "back"]);
}

fn small_config() -> Configuration {
    Configuration {
        vsync: true,
        display_index: 0,
        display_mode: 0,
        stars: 300,
        volume: 20,
        levels: vec!["HF".to_string(), "BS".to_string()],
        score_table: vec![50, 10],
    }
}

fn step(g: &mut Game, cmd: Option<PlayerCommand>) -> Effect {
    g.update(&cmd, None, GameState::PlayLevel, 0)
}

#[test]
fn new_game_goes_through_the_levels() {
    let mut g = Game::new(small_config());
    assert_eq!(g.state(), GameState::MainMenuScreen);
    assert!(matches!(step(&mut g, Some(PlayerCommand::Select)), Effect::Nothing));
    assert_eq!(g.state(), GameState::GameStart);
    assert!(matches!(step(&mut g, None), Effect::ResetScore));
    assert_eq!(g.state(), GameState::NextLevel);
    assert_eq!(g.level_number(), 0);
    match g.update(&None, None, GameState::PlayLevel, 0) {
        Effect::StartLevel { level, score } => {
            assert_eq!(level.monster_str(), "HF");
            assert_eq!(level.monster_speed_level(), 1);
            assert_eq!(level.monster_laser_speed_level(), 1);
            assert_eq!(level.monster_laser_timer_level(), 1);
            assert_eq!(level.ship_laser_timer_level(), 1);
            assert_eq!(level.ship_lives(), 4);
            assert_eq!(score, 0);
        },
        _ => panic!("expected a level"),
    }
    assert_eq!(g.state(), GameState::PlayLevel);
    assert_eq!(g.level_number(), 1);
    // the play screen says the level is done
    assert!(matches!(g.update(&None, None, GameState::NextLevel, 37), Effect::Nothing));
    match g.update(&None, None, GameState::PlayLevel, 37) {
        Effect::StartLevel { level, score } => {
            assert_eq!(level.monster_str(), "BS");
            assert_eq!(score, 37);
        },
        _ => panic!("expected a level"),
    }
    assert!(matches!(g.update(&None, None, GameState::NextLevel, 80), Effect::Nothing));
    // no level left: the game is won
    assert!(matches!(g.update(&None, None, GameState::PlayLevel, 80), Effect::Nothing));
    assert_eq!(g.state(), GameState::WinGame);
    assert_eq!(g.game_type(), GameType::Normal);
    assert_eq!(g.level_number(), 2);
    match g.update(&None, None, GameState::PlayLevel, 80) {
        Effect::ShowGameOver { won, level_number, score } => {
            assert!(won);
            assert_eq!(level_number, 2);
            assert_eq!(score, 80);
        },
        _ => panic!("expected the end screen"),
    }
    assert_eq!(g.state(), GameState::GameOverScreen);
    assert_eq!(g.config().score_table, vec![80, 50, 10]);
    assert!(matches!(step(&mut g, Some(PlayerCommand::Up)), Effect::Nothing));
    assert_eq!(g.state(), GameState::GameOverScreen);
    step(&mut g, Some(PlayerCommand::Click(3, 4)));
    assert_eq!(g.state(), GameState::MainMenuScreen);
}

#[test]
fn random_game_and_extra_lives() {
    let mut g = Game::new(small_config());
    step(&mut g, Some(PlayerCommand::Down));
    step(&mut g, Some(PlayerCommand::Select));
    assert_eq!(g.state(), GameState::GameStartRandom);
    step(&mut g, None);
    let mut last_lives = 0;
    for n in 1..=40 {
        assert_eq!(g.state(), GameState::NextLevel);
        match g.update(&None, None, GameState::PlayLevel, 0) {
            Effect::StartLevel { level, .. } => {
                assert_eq!(level.monster_str(), "R".repeat(55));
                assert_eq!(level.ship_lives(), 4 + n / 20);
                last_lives = level.ship_lives();
            },
            _ => panic!("expected a level"),
        }
        g.update(&None, None, GameState::NextLevel, 0);
    }
    assert_eq!(last_lives, 6);
}

#[test]
fn lost_game_records_score() {
    let mut g = Game::new(small_config());
    step(&mut g, Some(PlayerCommand::Select));
    step(&mut g, None);
    g.update(&None, None, GameState::PlayLevel, 0);
    g.update(&None, None, GameState::HitPause, 0);
    assert_eq!(g.state(), GameState::HitPause);
    g.update(&None, None, GameState::GameOver, 0);
    assert_eq!(g.state(), GameState::GameOver);
    match g.update(&None, None, GameState::PlayLevel, 20) {
        Effect::ShowGameOver { won, level_number, score } => {
            assert!(!won);
            assert_eq!(level_number, 1);
            assert_eq!(score, 20);
        },
        _ => panic!("expected the end screen"),
    }
    assert_eq!(g.config().score_table, vec![50, 20, 10]);
}

#[test]
fn settings_stay_in_range() {
    let mut g = Game::new(small_config());
    // main menu -> settings
    for _ in 0..3 {
        step(&mut g, Some(PlayerCommand::Down));
    }
    step(&mut g, Some(PlayerCommand::Select));
    assert_eq!(g.state(), GameState::SettingsMenuScreen);
    // volume minus is the first button
    step(&mut g, Some(PlayerCommand::Select));
    assert_eq!(g.state(), GameState::VolumeMinus);
    assert!(matches!(step(&mut g, None), Effect::VolumeChanged(15)));
    for _ in 0..10 {
        step(&mut g, Some(PlayerCommand::Select));
        step(&mut g, None);
    }
    assert_eq!(g.config().volume, 0);
    step(&mut g, Some(PlayerCommand::Down));
    for _ in 0..30 {
        step(&mut g, Some(PlayerCommand::Select));
        step(&mut g, None);
    }
    assert_eq!(g.config().volume, 100);
    // pause minus / plus
    step(&mut g, Some(PlayerCommand::Down));
    step(&mut g, Some(PlayerCommand::Select));
    assert!(matches!(step(&mut g, None), Effect::PauseStep(false)));
    step(&mut g, Some(PlayerCommand::Down));
    step(&mut g, Some(PlayerCommand::Select));
    assert!(matches!(step(&mut g, None), Effect::PauseStep(true)));
    // level minus / plus: between 1 and the two levels
    step(&mut g, Some(PlayerCommand::Down));
    step(&mut g, Some(PlayerCommand::Select));
    assert!(matches!(step(&mut g, None), Effect::StartLevelChanged(1)));
    step(&mut g, Some(PlayerCommand::Down));
    for _ in 0..3 {
        step(&mut g, Some(PlayerCommand::Select));
        step(&mut g, None);
    }
    assert_eq!(g.start_level(), 2);
    // stars plus up to the maximum
    step(&mut g, Some(PlayerCommand::Down));
    step(&mut g, Some(PlayerCommand::Down));
    for _ in 0..200 {
        step(&mut g, Some(PlayerCommand::Select));
        step(&mut g, None);
    }
    assert_eq!(g.config().stars, 2000);
    // back to the main menu
    step(&mut g, Some(PlayerCommand::Escape));
    assert_eq!(g.state(), GameState::MainMenuScreen);
    let copy = g.configuration();
    assert_eq!(copy.stars, 2000);
    assert_eq!(copy.volume, 100);
    assert_eq!(copy.levels, vec!["HF".to_string(), "BS".to_string()]);
    assert_eq!(copy.score_table, vec![50, 10]);
}

#[test]
fn pause_menu_and_top_scores() {
    let mut g = Game::new(small_config());
    step(&mut g, Some(PlayerCommand::Select));
    step(&mut g, None);
    g.update(&None, None, GameState::PlayLevel, 0);
    g.update(&Some(PlayerCommand::Escape), None, GameState::PauseMenuScreen, 0);
    assert_eq!(g.state(), GameState::PauseMenuScreen);
    assert!(g.active_menu().is_some());
    step(&mut g, Some(PlayerCommand::Escape));
    assert_eq!(g.state(), GameState::Continue);
    step(&mut g, None);
    assert_eq!(g.state(), GameState::PlayLevel);
    g.update(&None, None, GameState::PauseMenuScreen, 0);
    // settings from the pause menu lead back to it
    step(&mut g, Some(PlayerCommand::Click(0, 0)));
    assert_eq!(g.state(), GameState::PauseMenuScreen);
    g.update(&Some(PlayerCommand::Click(0, 0)), Some(1), GameState::PlayLevel, 0);
    assert_eq!(g.state(), GameState::SettingsMenuScreen);
    step(&mut g, Some(PlayerCommand::Escape));
    assert_eq!(g.state(), GameState::PauseMenuScreen);
    g.update(&Some(PlayerCommand::Click(0, 0)), Some(2), GameState::PlayLevel, 0);
    assert_eq!(g.state(), GameState::MainMenuScreen);
    // top score screen
    g.update(&Some(PlayerCommand::Click(0, 0)), Some(2), GameState::PlayLevel, 0);
    assert_eq!(g.state(), GameState::TopScoreScreen);
    assert!(matches!(step(&mut g, Some(PlayerCommand::Down)), Effect::ShowTopScores));
    assert_eq!(g.state(), GameState::TopScoreScreen);
    step(&mut g, Some(PlayerCommand::Select));
    assert_eq!(g.state(), GameState::MainMenuScreen);
    // quit stays
    step(&mut g, Some(PlayerCommand::Escape));
    assert_eq!(g.state(), GameState::Quit);
    step(&mut g, Some(PlayerCommand::Select));
    assert_eq!(g.state(), GameState::Quit);
    assert!(g.active_menu().is_none());
}

#[test]
fn game_starts_normal() {
    let g = Game::new(Configuration::default());
    assert_eq!(g.start_level(), 1);
    assert_eq!(g.level_number(), 0);
    assert_eq!(g.main_menu().len(), 5);
    assert_eq!(g.pause_menu().len(), 4);
    assert_eq!(g.settings_menu().len(), 9);
    let _ = GameType::Normal;
}
