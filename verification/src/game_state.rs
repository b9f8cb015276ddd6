use vstd::prelude::*;

verus! {

/// States of the game flow. The play screen's pause after a hit is
/// `HitPause`; its remaining time is counted by the application.
#[derive(Clone, Copy, PartialEq, Eq, Structural, Debug)]
pub enum GameState {
    GameOverScreen,
    MainMenuScreen,
    PauseMenuScreen,
    SettingsMenuScreen,
    TopScoreScreen,
    WinGame,
    PlayLevel,
    HitPause,
    NextLevel,
    Continue,
    GameOver,
    GameStart,
    GameStartRandom,
    VolumeMinus,
    VolumePlus,
    PauseMinus,
    PausePlus,
    LevelMinus,
    LevelPlus,
    StarsMinus,
    StarsPlus,
    Quit,
}

/// Whether the levels come from the configuration or are random.
#[derive(Clone, Copy, PartialEq, Eq, Structural, Debug)]
pub enum GameType {
    Normal,
    Random,
}

/// A command of the player, from the keyboard, a game controller or the
/// mouse (pointer coordinates in display pixels).
#[derive(Clone, Copy, PartialEq, Eq, Structural, Debug)]
pub enum PlayerCommand {
    Up,
    Down,
    Left,
    Right,
    Fire,
    Escape,
    Select,
    Click(i32, i32),
    MouseMove(i32, i32),
}

} // verus!
