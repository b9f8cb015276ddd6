use vstd::prelude::*;
use crate::configuration::Configuration;
use crate::constants::{SHIP_INIT_LIVES, STAR_MAX_COUNT};
use crate::game_state::{GameState, GameType, PlayerCommand};
use crate::level::{Level, LevelView};
use crate::menu::{Menu, MenuView, menu_step};

verus! {

/// The level string of a random game: five full rows of random monsters.
pub open spec fn random_level_str() -> Seq<char> {
    Seq::new(55, |_i: int| 'R')
}

/// Lives of the ship on level `level_number`: one more every 20 levels.
pub open spec fn level_lives(level_number: i32) -> int {
    SHIP_INIT_LIVES + level_number / 20
}

/// The state a screen that waits to be dismissed (game over, top score)
/// goes to after `command`: a click, Select or Escape go back to the main
/// menu.
pub open spec fn dismiss_step(command: Option<PlayerCommand>, stay: GameState) -> GameState {
    match command {
        Some(PlayerCommand::Click(_, _)) | Some(PlayerCommand::Select) | Some(PlayerCommand::Escape) => GameState::MainMenuScreen,
        _ => stay,
    }
}

/// Whether `l` is the level built for level number `n` from `monster_str`:
/// every difficulty level set to `n` and the lives of `level_lives`.
pub open spec fn is_level_for(l: LevelView, monster_str: Seq<char>, n: i32) -> bool {
    &&& l.monster_str == monster_str
    &&& l.monster_laser_speed_lvl == n
    &&& l.monster_laser_timer_lvl == n
    &&& l.monster_speed_lvl == n
    &&& l.ship_laser_timer_lvl == n
    &&& l.ship_lives == level_lives(n)
    &&& l.covers == 3
    &&& l.cover_width == 8
    &&& l.cover_height == 4
}

/// What the application does after a step of the game flow.
pub enum Effect {
    /// Nothing.
    Nothing,
    /// The top score table is shown: refresh it from the configuration.
    ShowTopScores,
    /// Show the end screen (won or lost) with the level and the score.
    ShowGameOver { won: bool, level_number: i32, score: i32 },
    /// A new game starts: reset the play screen's score.
    ResetScore,
    /// Start playing `level` with `score` carried over.
    StartLevel { level: Level, score: i32 },
    /// The volume setting changed to the value given.
    VolumeChanged(i32),
    /// Lengthen (`true`) or shorten (`false`) the pause after a hit.
    PauseStep(bool),
    /// The starting level setting changed to the value given.
    StartLevelChanged(i32),
    /// The number of stars changed to the value given.
    StarsChanged(i32),
}

/// The game flow: which screen is active, the level and score of the game
/// being played, the settings and the menus.
pub struct Game {
    state: GameState,
    level_number: i32,
    start_level: i32,
    score: i32,
    game_type: GameType,
    config: Configuration,
    main_menu: Menu,
    pause_menu: Menu,
    settings_menu: Menu,
}

impl Game {
    pub closed spec fn spec_state(&self) -> GameState {
        self.state
    }

    pub closed spec fn spec_level_number(&self) -> i32 {
        self.level_number
    }

    pub closed spec fn spec_start_level(&self) -> i32 {
        self.start_level
    }

    pub closed spec fn spec_score(&self) -> i32 {
        self.score
    }

    pub closed spec fn spec_game_type(&self) -> GameType {
        self.game_type
    }

    pub closed spec fn spec_config(&self) -> Configuration {
        self.config
    }

    pub closed spec fn main_menu_view(&self) -> MenuView {
        self.main_menu@
    }

    pub closed spec fn pause_menu_view(&self) -> MenuView {
        self.pause_menu@
    }

    pub closed spec fn settings_menu_view(&self) -> MenuView {
        self.settings_menu@
    }

    /// The invariant of the game flow: well-formed menus, a starting level
    /// between 0 and the number of levels (at least 1), fewer levels than
    /// `i32::MAX`, and a level number of at least -1 (the number before the
    /// starting level) that in a normal game never passes the number of
    /// levels.
    pub closed spec fn wf(&self) -> bool {
        &&& self.level_number >= -1
        &&& self.game_type == GameType::Normal ==> self.level_number <= self.config.levels@.len()
        &&& self.main_menu.wf()
        &&& self.pause_menu.wf()
        &&& self.settings_menu.wf()
        &&& self.config.levels@.len() < i32::MAX
        &&& 0 <= self.start_level
        &&& self.start_level <= 1 || self.start_level <= self.config.levels@.len()
    }

    /// The game flow at the main menu, with the given configuration, the
    /// starting level 1 and no score.
    pub fn new(config: Configuration) -> (g: Game)
        requires
            config.levels@.len() < i32::MAX,
        ensures
            g.wf(),
            g.spec_state() == GameState::MainMenuScreen,
            g.spec_level_number() == 0,
            g.spec_start_level() == 1,
            g.spec_score() == 0,
            g.spec_game_type() == GameType::Normal,
            g.spec_config() == config,
            g.main_menu_view() == crate::menu::main_menu_view(),
            g.pause_menu_view() == crate::menu::pause_menu_view(),
            g.settings_menu_view() == crate::menu::settings_menu_view(),
    {
        let main_menu = Menu::main();
        let pause_menu = Menu::pause();
        let settings_menu = Menu::settings();
        Game {
            state: GameState::MainMenuScreen,
            level_number: 0,
            start_level: 1,
            score: 0,
            game_type: GameType::Normal,
            config,
            main_menu,
            pause_menu,
            settings_menu,
        }
    }

    /// The active state.
    pub fn state(&self) -> (s: GameState)
        ensures
            s == self.spec_state(),
    {
        self.state
    }

    /// The number of the level being played.
    pub fn level_number(&self) -> (n: i32)
        ensures
            n == self.spec_level_number(),
    {
        self.level_number
    }

    /// Whether the game being played is a normal or a random one.
    pub fn game_type(&self) -> (t: GameType)
        ensures
            t == self.spec_game_type(),
    {
        self.game_type
    }

    /// The level a new game starts at.
    pub fn start_level(&self) -> (n: i32)
        ensures
            n == self.spec_start_level(),
    {
        self.start_level
    }

    /// The configuration.
    pub fn config(&self) -> (c: &Configuration)
        ensures
            *c == self.spec_config(),
    {
        &self.config
    }

    /// The menu of the active menu screen, if a menu screen is active.
    pub fn active_menu(&self) -> (m: Option<&Menu>)
        ensures
            self.spec_state() == GameState::MainMenuScreen ==> (m matches Some(mm) && mm@ == self.main_menu_view()),
            self.spec_state() == GameState::PauseMenuScreen ==> (m matches Some(mm) && mm@ == self.pause_menu_view()),
            self.spec_state() == GameState::SettingsMenuScreen ==> (m matches Some(mm) && mm@ == self.settings_menu_view()),
            m matches Some(mm) ==> (self.wf() ==> mm.wf()),
            self.spec_state() != GameState::MainMenuScreen && self.spec_state() != GameState::PauseMenuScreen
                && self.spec_state() != GameState::SettingsMenuScreen ==> m is None,
    {
        match self.state {
            GameState::MainMenuScreen => Some(&self.main_menu),
            GameState::PauseMenuScreen => Some(&self.pause_menu),
            GameState::SettingsMenuScreen => Some(&self.settings_menu),
            _ => None,
        }
    }

    /// The main menu.
    pub fn main_menu(&self) -> (m: &Menu)
        ensures
            m@ == self.main_menu_view(),
            self.wf() ==> m.wf(),
    {
        &self.main_menu
    }

    /// The pause menu.
    pub fn pause_menu(&self) -> (m: &Menu)
        ensures
            m@ == self.pause_menu_view(),
            self.wf() ==> m.wf(),
    {
        &self.pause_menu
    }

    /// The settings menu.
    pub fn settings_menu(&self) -> (m: &Menu)
        ensures
            m@ == self.settings_menu_view(),
            self.wf() ==> m.wf(),
    {
        &self.settings_menu
    }
}

/// What one step of the game flow does (see `Game::update`): `o` is the
/// game before the step, `f` after it, `e` the effect handed back.
pub open spec fn update_post(o: &Game, f: &Game, cmd: Option<PlayerCommand>, pointed: Option<usize>, play_state: GameState, play_score: i32, e: &Effect) -> bool {
    let cfg = o.spec_config();
    match o.spec_state() {
        GameState::MainMenuScreen => {
            &&& (f.main_menu_view(), f.spec_state()) == menu_step(o.main_menu_view(), cmd, pointed)
            &&& f.settings_menu_view() == (MenuView {
                buttons: o.settings_menu_view().buttons.update(o.settings_menu_view().buttons.len() - 1, GameState::MainMenuScreen),
                ..o.settings_menu_view()
            })
            &&& f.pause_menu_view() == o.pause_menu_view()
            &&& f.same_except_menus_and_state(o)
            &&& e is Nothing
        },
        GameState::PauseMenuScreen => {
            &&& (f.pause_menu_view(), f.spec_state()) == menu_step(o.pause_menu_view(), cmd, pointed)
            &&& f.settings_menu_view() == (MenuView {
                buttons: o.settings_menu_view().buttons.update(o.settings_menu_view().buttons.len() - 1, GameState::PauseMenuScreen),
                ..o.settings_menu_view()
            })
            &&& f.main_menu_view() == o.main_menu_view()
            &&& f.same_except_menus_and_state(o)
            &&& e is Nothing
        },
        GameState::SettingsMenuScreen => {
            &&& (f.settings_menu_view(), f.spec_state()) == menu_step(o.settings_menu_view(), cmd, pointed)
            &&& f.main_menu_view() == o.main_menu_view()
            &&& f.pause_menu_view() == o.pause_menu_view()
            &&& f.same_except_menus_and_state(o)
            &&& e is Nothing
        },
        GameState::TopScoreScreen => {
            &&& f.spec_state() == dismiss_step(cmd, GameState::TopScoreScreen)
            &&& f.same_menus(o) && f.same_except_menus_and_state(o)
            &&& e is ShowTopScores
        },
        GameState::GameOverScreen => {
            &&& f.spec_state() == dismiss_step(cmd, GameState::GameOverScreen)
            &&& f.same_menus(o) && f.same_except_menus_and_state(o)
            &&& e is Nothing
        },
        GameState::PlayLevel | GameState::HitPause => {
            &&& f.spec_state() == play_state
            &&& f.same_menus(o) && f.same_except_menus_and_state(o)
            &&& e is Nothing
        },
        GameState::WinGame | GameState::GameOver => {
            &&& f.spec_state() == GameState::GameOverScreen
            &&& f.same_menus(o)
            &&& f.spec_level_number() == o.spec_level_number()
            &&& f.spec_start_level() == o.spec_start_level()
            &&& f.spec_score() == o.spec_score()
            &&& f.spec_game_type() == o.spec_game_type()
            &&& f.spec_config().score_table@.to_multiset() == cfg.score_table@.to_multiset().insert(play_score)
            &&& crate::scores::sorted_desc(f.spec_config().score_table@)
            &&& f.spec_config().score_table@.len() == cfg.score_table@.len() + 1
            &&& f.config_changed(o, cfg.volume, cfg.stars, f.spec_config().score_table@)
            &&& e matches Effect::ShowGameOver { won, level_number, score }
                && won == (o.spec_state() == GameState::WinGame)
                && level_number == o.spec_level_number() && score == play_score
        },
        GameState::Quit => {
            &&& f.spec_state() == GameState::Quit
            &&& f.same_menus(o) && f.same_except_menus_and_state(o)
            &&& e is Nothing
        },
        GameState::GameStart | GameState::GameStartRandom => {
            &&& f.spec_state() == GameState::NextLevel
            &&& f.same_menus(o)
            &&& f.spec_level_number() == o.spec_start_level() - 1
            &&& f.spec_start_level() == o.spec_start_level()
            &&& f.spec_score() == 0
            &&& f.spec_game_type() == (if o.spec_state() == GameState::GameStart { GameType::Normal } else { GameType::Random })
            &&& f.spec_config() == cfg
            &&& e is ResetScore
        },
        GameState::Continue => {
            &&& f.spec_state() == GameState::PlayLevel
            &&& f.same_menus(o) && f.same_except_menus_and_state(o)
            &&& e is Nothing
        },
        GameState::NextLevel => {
            let n = o.spec_level_number();
            if o.spec_game_type() == GameType::Normal && !(0 <= n < cfg.levels@.len()) {
                &&& f.spec_state() == GameState::WinGame
                &&& f.same_menus(o) && f.same_except_menus_and_state(o)
                &&& e is Nothing
            } else {
                let monster_str = if o.spec_game_type() == GameType::Normal {
                    cfg.levels@[n as int]@
                } else {
                    random_level_str()
                };
                &&& f.spec_state() == GameState::PlayLevel
                &&& f.same_menus(o)
                &&& f.spec_level_number() == n + 1
                &&& f.spec_start_level() == o.spec_start_level()
                &&& f.spec_score() == play_score
                &&& f.spec_game_type() == o.spec_game_type()
                &&& f.spec_config() == cfg
                &&& e matches Effect::StartLevel { level, score }
                    && is_level_for(level@, monster_str, (n + 1) as i32) && score == play_score
            }
        },
        GameState::VolumePlus | GameState::VolumeMinus => {
            let v = if o.spec_state() == GameState::VolumePlus {
                if cfg.volume + 5 < 100 { cfg.volume + 5 } else { 100 }
            } else {
                if cfg.volume - 5 > 0 { cfg.volume - 5 } else { 0 }
            };
            &&& f.spec_state() == GameState::SettingsMenuScreen
            &&& f.same_menus(o)
            &&& f.spec_level_number() == o.spec_level_number()
            &&& f.spec_start_level() == o.spec_start_level()
            &&& f.spec_score() == o.spec_score()
            &&& f.spec_game_type() == o.spec_game_type()
            &&& f.config_changed(o, v as i32, cfg.stars, cfg.score_table@)
            &&& e == Effect::VolumeChanged(v as i32)
        },
        GameState::StarsPlus | GameState::StarsMinus => {
            let v = if o.spec_state() == GameState::StarsPlus {
                if cfg.stars + 10 < STAR_MAX_COUNT { cfg.stars + 10 } else { STAR_MAX_COUNT as int }
            } else {
                if cfg.stars - 10 > 0 { cfg.stars - 10 } else { 0 }
            };
            &&& f.spec_state() == GameState::SettingsMenuScreen
            &&& f.same_menus(o)
            &&& f.spec_level_number() == o.spec_level_number()
            &&& f.spec_start_level() == o.spec_start_level()
            &&& f.spec_score() == o.spec_score()
            &&& f.spec_game_type() == o.spec_game_type()
            &&& f.config_changed(o, cfg.volume, v as i32, cfg.score_table@)
            &&& e == Effect::StarsChanged(v as i32)
        },
        GameState::LevelPlus | GameState::LevelMinus => {
            let l = if o.spec_state() == GameState::LevelPlus {
                if o.spec_start_level() + 1 < cfg.levels@.len() { o.spec_start_level() + 1 } else { cfg.levels@.len() as int }
            } else {
                if o.spec_start_level() - 1 > 1 { o.spec_start_level() - 1 } else { 1 }
            };
            &&& f.spec_state() == GameState::SettingsMenuScreen
            &&& f.same_menus(o)
            &&& f.spec_level_number() == o.spec_level_number()
            &&& f.spec_start_level() == l
            &&& f.spec_score() == o.spec_score()
            &&& f.spec_game_type() == o.spec_game_type()
            &&& f.spec_config() == cfg
            &&& e == Effect::StartLevelChanged(l as i32)
        },
        GameState::PausePlus | GameState::PauseMinus => {
            &&& f.spec_state() == GameState::SettingsMenuScreen
            &&& f.same_menus(o) && f.same_except_menus_and_state(o)
            &&& e == Effect::PauseStep(o.spec_state() == GameState::PausePlus)
        },
    }
}

impl Game {
    /// The game flow state, numbers, settings and the menus other than the
    /// ones named are as in `other`.
    pub open spec fn same_except_menus_and_state(&self, other: &Game) -> bool {
        &&& self.spec_level_number() == other.spec_level_number()
        &&& self.spec_start_level() == other.spec_start_level()
        &&& self.spec_score() == other.spec_score()
        &&& self.spec_game_type() == other.spec_game_type()
        &&& self.spec_config() == other.spec_config()
    }

    /// The menus are as in `other`.
    pub open spec fn same_menus(&self, other: &Game) -> bool {
        &&& self.main_menu_view() == other.main_menu_view()
        &&& self.pause_menu_view() == other.pause_menu_view()
        &&& self.settings_menu_view() == other.settings_menu_view()
    }

    /// The configuration is as in `other` but for the given volume, number
    /// of stars and score table.
    pub open spec fn config_changed(&self, other: &Game, volume: i32, stars: i32, score_table: Seq<i32>) -> bool {
        &&& self.spec_config().vsync == other.spec_config().vsync
        &&& self.spec_config().display_index == other.spec_config().display_index
        &&& self.spec_config().display_mode == other.spec_config().display_mode
        &&& self.spec_config().levels == other.spec_config().levels
        &&& self.spec_config().volume == volume
        &&& self.spec_config().stars == stars
        &&& self.spec_config().score_table@ == score_table
    }

    /// One step of the game flow. The application hands in the player's
    /// single command, the button under the pointer of the active menu
    /// (`pointed`), the state the play screen's own update returned
    /// (`play_state`, read in the play and hit-pause states) and the play
    /// screen's score (`play_score`); it then carries out the returned effect.
    ///
    /// - Menus (main, pause, settings) go where their `update` says; the main
    ///   and pause menus first make the settings' back button lead to them.
    /// - The top score and game over screens go back to the main menu on a
    ///   click, Select or Escape.
    /// - Playing and the pause after a hit go to `play_state`; Continue
    ///   resumes playing.
    /// - A won or lost game stores the score in the score table and shows
    ///   the end screen.
    /// - A new game (normal or random) restarts at the starting level with
    ///   no score.
    /// - The next level comes from the configuration (a normal game, which is
    ///   won when the levels run out) or is all random; its number goes up
    ///   by one and sets every difficulty level, and the ship gets one more
    ///   life every 20 levels.
    /// - The settings change the volume by 5 within `0 ..= 100`, the starting
    ///   level by 1 within `1 ..=` the number of levels, and the stars by 10
    ///   within `0 ..= STAR_MAX_COUNT`, and return to the settings menu.
    /// - Quit stays.
    pub fn update(&mut self, single_command: &Option<PlayerCommand>, pointed: Option<usize>, play_state: GameState, play_score: i32) -> (e: Effect)
        requires
            old(self).wf(),
            old(self).spec_state() == GameState::VolumePlus ==> old(self).spec_config().volume <= i32::MAX - 5,
            old(self).spec_state() == GameState::VolumeMinus ==> old(self).spec_config().volume >= i32::MIN + 5,
            old(self).spec_state() == GameState::StarsPlus ==> old(self).spec_config().stars <= i32::MAX - 10,
            old(self).spec_state() == GameState::StarsMinus ==> old(self).spec_config().stars >= i32::MIN + 10,
            old(self).spec_state() == GameState::NextLevel && old(self).spec_game_type() == GameType::Random
                ==> old(self).spec_level_number() < i32::MAX,
        ensures
            final(self).wf(),
            update_post(&*old(self), &*final(self), *single_command, pointed, play_state, play_score, &e),
    {
        let mut effect = Effect::Nothing;
        self.state = match self.state {
            GameState::MainMenuScreen => {
                self.settings_menu.set_back_state(GameState::MainMenuScreen);
                self.main_menu.update(single_command, pointed)
            },
            GameState::SettingsMenuScreen => {
                self.settings_menu.update(single_command, pointed)
            },
            GameState::TopScoreScreen => {
                effect = Effect::ShowTopScores;
                match single_command {
                    Some(PlayerCommand::Click(_, _)) | Some(PlayerCommand::Select) | Some(PlayerCommand::Escape) => GameState::MainMenuScreen,
                    _ => GameState::TopScoreScreen,
                }
            },
            GameState::PlayLevel => play_state,
            GameState::WinGame => {
                self.config.push_score(play_score);
                effect = Effect::ShowGameOver { won: true, level_number: self.level_number, score: play_score };
                GameState::GameOverScreen
            },
            GameState::GameOver => {
                self.config.push_score(play_score);
                effect = Effect::ShowGameOver { won: false, level_number: self.level_number, score: play_score };
                GameState::GameOverScreen
            },
            GameState::GameOverScreen => {
                match single_command {
                    Some(PlayerCommand::Click(_, _)) | Some(PlayerCommand::Select) | Some(PlayerCommand::Escape) => GameState::MainMenuScreen,
                    _ => GameState::GameOverScreen,
                }
            },
            GameState::Quit => GameState::Quit,
            GameState::GameStart => {
                self.level_number = self.start_level - 1;
                self.score = 0;
                self.game_type = GameType::Normal;
                effect = Effect::ResetScore;
                GameState::NextLevel
            },
            GameState::GameStartRandom => {
                self.level_number = self.start_level - 1;
                self.score = 0;
                self.game_type = GameType::Random;
                effect = Effect::ResetScore;
                GameState::NextLevel
            },
            GameState::Continue => GameState::PlayLevel,
            GameState::PauseMenuScreen => {
                self.settings_menu.set_back_state(GameState::PauseMenuScreen);
                self.pause_menu.update(single_command, pointed)
            },
            GameState::NextLevel => {
                let normal = match self.game_type {
                    GameType::Normal => true,
                    GameType::Random => false,
                };
                if normal && (self.level_number < 0 || self.level_number as usize >= self.config.levels.len()) {
                    //when all levels are done, the game is won
                    GameState::WinGame
                } else {
                    let mut level = if normal {
                        Level::create(self.config.levels[self.level_number as usize].as_str())
                    } else {
                        let l = Level::create("RRRRRRRRRRRRRRRRRRRRRRRRRRRRRRRRRRRRRRRRRRRRRRRRRRRRRRR");
                        proof {
                            reveal_strlit("RRRRRRRRRRRRRRRRRRRRRRRRRRRRRRRRRRRRRRRRRRRRRRRRRRRRRRR");
                            assert("RRRRRRRRRRRRRRRRRRRRRRRRRRRRRRRRRRRRRRRRRRRRRRRRRRRRRRR"@ =~= random_level_str());
                        }
                        l
                    };
                    self.level_number = self.level_number + 1;
                    level.set_monster_laser_speed_level(self.level_number);
                    level.set_monster_laser_timer_level(self.level_number);
                    level.set_monster_speed_level(self.level_number);
                    level.set_ship_laser_timer_level(self.level_number);
                    //every 20th level one more live
                    let extra_lives = self.level_number / 20;
                    level.set_ship_lives(SHIP_INIT_LIVES + extra_lives);
                    self.score = play_score;
                    effect = Effect::StartLevel { level, score: self.score };
                    GameState::PlayLevel
                }
            },
            GameState::HitPause => play_state,
            GameState::VolumePlus => {
                let v = self.config.volume + 5;
                self.config.volume = if v < 100 { v } else { 100 };
                effect = Effect::VolumeChanged(self.config.volume);
                GameState::SettingsMenuScreen
            },
            GameState::VolumeMinus => {
                let v = self.config.volume - 5;
                self.config.volume = if v > 0 { v } else { 0 };
                effect = Effect::VolumeChanged(self.config.volume);
                GameState::SettingsMenuScreen
            },
            GameState::PausePlus => {
                effect = Effect::PauseStep(true);
                GameState::SettingsMenuScreen
            },
            GameState::PauseMinus => {
                effect = Effect::PauseStep(false);
                GameState::SettingsMenuScreen
            },
            GameState::LevelPlus => {
                let n = self.config.levels.len() as i32;
                let l = self.start_level + 1;
                self.start_level = if l < n { l } else { n };
                effect = Effect::StartLevelChanged(self.start_level);
                GameState::SettingsMenuScreen
            },
            GameState::LevelMinus => {
                let l = self.start_level - 1;
                self.start_level = if l > 1 { l } else { 1 };
                effect = Effect::StartLevelChanged(self.start_level);
                GameState::SettingsMenuScreen
            },
            GameState::StarsPlus => {
                let v = self.config.stars + 10;
                self.config.stars = if v < STAR_MAX_COUNT { v } else { STAR_MAX_COUNT };
                effect = Effect::StarsChanged(self.config.stars);
                GameState::SettingsMenuScreen
            },
            GameState::StarsMinus => {
                let v = self.config.stars - 10;
                self.config.stars = if v > 0 { v } else { 0 };
                effect = Effect::StarsChanged(self.config.stars);
                GameState::SettingsMenuScreen
            },
        };
        effect
    }
}

impl Game {
    /// A copy of the configuration, with the settings and the score table
    /// as they are now.
    pub fn configuration(&self) -> (c: Configuration)
        ensures
            c.vsync == self.spec_config().vsync,
            c.display_index == self.spec_config().display_index,
            c.display_mode == self.spec_config().display_mode,
            c.stars == self.spec_config().stars,
            c.volume == self.spec_config().volume,
            c.levels@.map_values(|l: String| l@) == self.spec_config().levels@.map_values(|l: String| l@),
            c.score_table@ == self.spec_config().score_table@,
    {
        let mut levels: Vec<String> = Vec::new();
        let n = self.config.levels.len();
        let mut i: usize = 0;
        while i < n
            invariant
                n == self.config.levels@.len(),
                i <= n,
                levels@.map_values(|l: String| l@) == self.config.levels@.take(i as int).map_values(|l: String| l@),
            decreases n - i,
        {
            levels.push(self.config.levels[i].clone());
            assert(self.config.levels@.take(i as int + 1).map_values(|l: String| l@)
                =~= self.config.levels@.take(i as int).map_values(|l: String| l@).push(self.config.levels@[i as int]@));
            assert(levels@.map_values(|l: String| l@)
                =~= self.config.levels@.take(i as int + 1).map_values(|l: String| l@));
            i = i + 1;
        }
        assert(self.config.levels@.take(n as int) =~= self.config.levels@);
        let mut score_table: Vec<i32> = Vec::new();
        let m = self.config.score_table.len();
        let mut j: usize = 0;
        while j < m
            invariant
                m == self.config.score_table@.len(),
                j <= m,
                score_table@ == self.config.score_table@.take(j as int),
            decreases m - j,
        {
            score_table.push(self.config.score_table[j]);
            assert(score_table@ =~= self.config.score_table@.take(j as int + 1));
            j = j + 1;
        }
        assert(self.config.score_table@.take(m as int) =~= self.config.score_table@);
        Configuration {
            vsync: self.config.vsync,
            display_index: self.config.display_index,
            display_mode: self.config.display_mode,
            stars: self.config.stars,
            volume: self.config.volume,
            levels,
            score_table,
        }
    }
}

/// The settings stay in their ranges: the volume within `0 ..= 100`, the
/// stars within `0 ..= STAR_MAX_COUNT` and, when there are levels, the
/// starting level within `1 ..=` their number, whatever step the game takes.
pub proof fn lemma_settings_stay_in_range(o: &Game, f: &Game, cmd: Option<PlayerCommand>, pointed: Option<usize>, play_state: GameState, play_score: i32, e: &Effect)
    requires
        update_post(o, f, cmd, pointed, play_state, play_score, e),
        0 <= o.spec_config().volume <= 100,
        0 <= o.spec_config().stars <= STAR_MAX_COUNT,
        o.spec_config().levels@.len() >= 1 ==> 1 <= o.spec_start_level() <= o.spec_config().levels@.len(),
    ensures
        0 <= f.spec_config().volume <= 100,
        0 <= f.spec_config().stars <= STAR_MAX_COUNT,
        f.spec_config().levels@.len() >= 1 ==> 1 <= f.spec_start_level() <= f.spec_config().levels@.len(),
        f.spec_config().levels == o.spec_config().levels,
{
}

/// The score table stays sorted in descending order, and a finished game
/// (won or lost) leaves its score in the table.
pub proof fn lemma_score_table_sorted_and_recorded(o: &Game, f: &Game, cmd: Option<PlayerCommand>, pointed: Option<usize>, play_state: GameState, play_score: i32, e: &Effect)
    requires
        update_post(o, f, cmd, pointed, play_state, play_score, e),
        crate::scores::sorted_desc(o.spec_config().score_table@),
    ensures
        crate::scores::sorted_desc(f.spec_config().score_table@),
        (o.spec_state() == GameState::WinGame || o.spec_state() == GameState::GameOver)
            ==> f.spec_config().score_table@.contains(play_score),
{
    broadcast use vstd::seq_lib::group_to_multiset_ensures;
    if o.spec_state() == GameState::WinGame || o.spec_state() == GameState::GameOver {
        assert(f.spec_config().score_table@.to_multiset().count(play_score) > 0);
    }
}

/// Quitting is final: once the game is in the quit state it stays there.
pub proof fn lemma_quit_is_final(o: &Game, f: &Game, cmd: Option<PlayerCommand>, pointed: Option<usize>, play_state: GameState, play_score: i32, e: &Effect)
    requires
        update_post(o, f, cmd, pointed, play_state, play_score, e),
        o.spec_state() == GameState::Quit,
    ensures
        f.spec_state() == GameState::Quit,
{
}

/// A new game starts at the chosen starting level: after the step of a new
/// game (normal or random) the next step starts level number
/// `start_level`, built for that number, with no score carried over; in a
/// normal game it is the `start_level`-th level of the configuration.
pub proof fn lemma_new_game_starts_at_start_level(
    g0: &Game, g1: &Game, g2: &Game,
    cmd0: Option<PlayerCommand>, p0: Option<usize>, s0: GameState, sc0: i32, e1: &Effect,
    cmd1: Option<PlayerCommand>, p1: Option<usize>, s1: GameState, e2: &Effect,
)
    requires
        g0.spec_state() == GameState::GameStart || g0.spec_state() == GameState::GameStartRandom,
        1 <= g0.spec_start_level(),
        g0.spec_state() == GameState::GameStart ==> g0.spec_start_level() <= g0.spec_config().levels@.len(),
        update_post(g0, g1, cmd0, p0, s0, sc0, e1),
        update_post(g1, g2, cmd1, p1, s1, 0, e2),
    ensures
        g1.spec_state() == GameState::NextLevel,
        g2.spec_state() == GameState::PlayLevel,
        g2.spec_level_number() == g0.spec_start_level(),
        e2 matches Effect::StartLevel { level, score } && score == 0 && {
            &&& level@.monster_laser_speed_lvl == g0.spec_start_level()
            &&& level@.monster_laser_timer_lvl == g0.spec_start_level()
            &&& level@.monster_speed_lvl == g0.spec_start_level()
            &&& level@.ship_laser_timer_lvl == g0.spec_start_level()
            &&& level@.monster_str == (if g0.spec_state() == GameState::GameStart {
                g0.spec_config().levels@[g0.spec_start_level() - 1]@
            } else {
                random_level_str()
            })
        },
{
}

} // verus!
