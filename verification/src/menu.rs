use vstd::prelude::*;
use crate::game_state::{GameState, PlayerCommand};

verus! {

/// What a menu is, as plain values: the state each button leads to, the
/// selected button, the state the menu stays in, and where Escape leads
/// (`None`: to the last button's state).
pub struct MenuView {
    pub buttons: Seq<GameState>,
    pub selected: int,
    pub idle: GameState,
    pub escape: Option<GameState>,
}

/// A menu is well formed when it has a button and the selection is one of
/// its buttons.
pub open spec fn menu_wf(m: MenuView) -> bool {
    &&& m.buttons.len() >= 1
    &&& 0 <= m.selected < m.buttons.len()
}

/// The button of `m` that `pointed` names, if it names one of its buttons.
pub open spec fn pointed_button(m: MenuView, pointed: Option<usize>) -> Option<int> {
    match pointed {
        Some(i) => if (i as int) < m.buttons.len() { Some(i as int) } else { None },
        None => None,
    }
}

/// The menu after `command`, with `pointed` the button under the pointer
/// (an index that names no button is no button), and the state the game
/// goes to.
pub open spec fn menu_step(m: MenuView, command: Option<PlayerCommand>, pointed: Option<usize>) -> (MenuView, GameState) {
    match command {
        Some(PlayerCommand::Click(_, _)) => match pointed_button(m, pointed) {
            Some(i) => (m, m.buttons[i]),
            None => (m, m.idle),
        },
        Some(PlayerCommand::MouseMove(_, _)) => match pointed_button(m, pointed) {
            Some(i) => (MenuView { selected: i, ..m }, m.idle),
            None => (m, m.idle),
        },
        Some(PlayerCommand::Up) => if m.selected > 0 {
            (MenuView { selected: m.selected - 1, ..m }, m.idle)
        } else {
            (m, m.idle)
        },
        Some(PlayerCommand::Down) => if m.selected < m.buttons.len() - 1 {
            (MenuView { selected: m.selected + 1, ..m }, m.idle)
        } else {
            (m, m.idle)
        },
        Some(PlayerCommand::Select) | Some(PlayerCommand::Fire) => (m, m.buttons[m.selected]),
        Some(PlayerCommand::Escape) => match m.escape {
            Some(s) => (m, s),
            None => (m, m.buttons.last()),
        },
        _ => (m, m.idle),
    }
}

/// The main menu as it is created.
pub open spec fn main_menu_view() -> MenuView {
    MenuView {
        buttons: seq![
            GameState::GameStart,
            GameState::GameStartRandom,
            GameState::TopScoreScreen,
            GameState::SettingsMenuScreen,
            GameState::Quit,
        ],
        selected: 0,
        idle: GameState::MainMenuScreen,
        escape: Some(GameState::Quit),
    }
}

/// The settings menu as it is created.
pub open spec fn settings_menu_view() -> MenuView {
    MenuView {
        buttons: seq![
            GameState::VolumeMinus,
            GameState::VolumePlus,
            GameState::PauseMinus,
            GameState::PausePlus,
            GameState::LevelMinus,
            GameState::LevelPlus,
            GameState::StarsMinus,
            GameState::StarsPlus,
            GameState::MainMenuScreen,
        ],
        selected: 0,
        idle: GameState::SettingsMenuScreen,
        escape: None,
    }
}

/// The pause menu as it is created.
pub open spec fn pause_menu_view() -> MenuView {
    MenuView {
        buttons: seq![
            GameState::Continue,
            GameState::SettingsMenuScreen,
            GameState::MainMenuScreen,
            GameState::Quit,
        ],
        selected: 0,
        idle: GameState::PauseMenuScreen,
        escape: Some(GameState::Continue),
    }
}

/// A menu of buttons, each leading to a game state, with one selected
/// (highlighted) button moved by Up and Down or by the pointer.
pub struct Menu {
    buttons: Vec<GameState>,
    labels: Vec<String>,
    selected: usize,
    idle: GameState,
    escape: Option<GameState>,
}

impl View for Menu {
    type V = MenuView;

    closed spec fn view(&self) -> MenuView {
        MenuView {
            buttons: self.buttons@,
            selected: self.selected as int,
            idle: self.idle,
            escape: self.escape,
        }
    }
}

impl Menu {
    /// The menu is well formed and has a label for each button.
    pub closed spec fn wf(&self) -> bool {
        &&& menu_wf(self@)
        &&& self.labels@.len() == self.buttons@.len()
    }

    /// A well-formed menu's view is a well-formed menu.
    pub proof fn lemma_wf_view(&self)
        requires
            self.wf(),
        ensures
            menu_wf(self@),
    {
    }

    /// The labels of the buttons.
    pub closed spec fn label_texts(&self) -> Seq<Seq<char>> {
        self.labels@.map_values(|l: String| l@)
    }

    /// The main menu: new game, random game, top score, settings, quit;
    /// Escape quits.
    pub fn main() -> (m: Menu)
        ensures
            m.wf(),
            m@ == main_menu_view(),
            m.label_texts() == seq!["new game"@, "random"@, "top score"@, "settings"@, "quit"@],
    {
        let buttons = vec![
            GameState::GameStart,
            GameState::GameStartRandom,
            GameState::TopScoreScreen,
            GameState::SettingsMenuScreen,
            GameState::Quit,
        ];
        let labels = vec![
            "new game".to_owned(),
            "random".to_owned(),
            "top score".to_owned(),
            "settings".to_owned(),
            "quit".to_owned(),
        ];
        let m = Menu { buttons, labels, selected: 0, idle: GameState::MainMenuScreen, escape: Some(GameState::Quit) };
        assert(m@.buttons =~= seq![
            GameState::GameStart,
            GameState::GameStartRandom,
            GameState::TopScoreScreen,
            GameState::SettingsMenuScreen,
            GameState::Quit,
        ]);
        assert(m.label_texts() =~= seq!["new game"@, "random"@, "top score"@, "settings"@, "quit"@]);
        m
    }

    /// The settings menu: minus and plus for volume, pause after a hit,
    /// starting level and number of stars, then a back button (to the main
    /// menu until `set_back_state` says otherwise); Escape goes back.
    pub fn settings() -> (m: Menu)
        ensures
            m.wf(),
            m@ == settings_menu_view(),
            m.label_texts() == seq!["-"@, "+"@, "-"@, "+"@, "-"@, "+"@, "-"@, "+"@, "back"@],
    {
        let buttons = vec![
            GameState::VolumeMinus,
            GameState::VolumePlus,
            GameState::PauseMinus,
            GameState::PausePlus,
            GameState::LevelMinus,
            GameState::LevelPlus,
            GameState::StarsMinus,
            GameState::StarsPlus,
            GameState::MainMenuScreen,
        ];
        let labels = vec![
            "-".to_owned(),
            "+".to_owned(),
            "-".to_owned(),
            "+".to_owned(),
            "-".to_owned(),
            "+".to_owned(),
            "-".to_owned(),
            "+".to_owned(),
            "back".to_owned(),
        ];
        let m = Menu { buttons, labels, selected: 0, idle: GameState::SettingsMenuScreen, escape: None };
        assert(m@.buttons =~= seq![
            GameState::VolumeMinus,
            GameState::VolumePlus,
            GameState::PauseMinus,
            GameState::PausePlus,
            GameState::LevelMinus,
            GameState::LevelPlus,
            GameState::StarsMinus,
            GameState::StarsPlus,
            GameState::MainMenuScreen,
        ]);
        assert(m.label_texts() =~= seq!["-"@, "+"@, "-"@, "+"@, "-"@, "+"@, "-"@, "+"@, "back"@]);
        m
    }

    /// The pause menu: continue, settings, main menu, quit; Escape continues.
    pub fn pause() -> (m: Menu)
        ensures
            m.wf(),
            m@ == pause_menu_view(),
            m.label_texts() == seq!["continue"@, "settings"@, "main menu"@, "quit"@],
    {
        let buttons = vec![
            GameState::Continue,
            GameState::SettingsMenuScreen,
            GameState::MainMenuScreen,
            GameState::Quit,
        ];
        let labels = vec![
            "continue".to_owned(),
            "settings".to_owned(),
            "main menu".to_owned(),
            "quit".to_owned(),
        ];
        let m = Menu { buttons, labels, selected: 0, idle: GameState::PauseMenuScreen, escape: Some(GameState::Continue) };
        assert(m@.buttons =~= seq![
            GameState::Continue,
            GameState::SettingsMenuScreen,
            GameState::MainMenuScreen,
            GameState::Quit,
        ]);
        assert(m.label_texts() =~= seq!["continue"@, "settings"@, "main menu"@, "quit"@]);
        m
    }

    /// Number of buttons.
    pub fn len(&self) -> (n: usize)
        ensures
            n == self@.buttons.len(),
    {
        self.buttons.len()
    }

    /// The selected button.
    pub fn selected(&self) -> (i: usize)
        ensures
            i == self@.selected,
    {
        self.selected
    }

    /// The label of button `i`.
    pub fn label(&self, i: usize) -> (l: &str)
        requires
            self.wf(),
            i < self@.buttons.len(),
        ensures
            l@ == self.label_texts()[i as int],
    {
        self.labels[i].as_str()
    }

    /// The state button `i` leads to.
    pub fn value(&self, i: usize) -> (s: GameState)
        requires
            i < self@.buttons.len(),
        ensures
            s == self@.buttons[i as int],
    {
        self.buttons[i]
    }

    /// Makes the last button lead to `state`.
    pub fn set_back_state(&mut self, state: GameState)
        requires
            old(self).wf(),
        ensures
            final(self).wf(),
            final(self)@ == (MenuView {
                buttons: old(self)@.buttons.update(old(self)@.buttons.len() - 1, state),
                ..old(self)@
            }),
            final(self).label_texts() == old(self).label_texts(),
    {
        let last = self.buttons.len() - 1;
        self.buttons.set(last, state);
    }

    /// Handles a command: Up and Down move the selection, a pointer move
    /// selects the button under it, Select or Fire give the selected
    /// button's state, a click gives the state of the button under the
    /// pointer and Escape the menu's escape state. `pointed` is the button
    /// under the pointer, if any (an index past the last button is ignored).
    pub fn update(&mut self, single_command: &Option<PlayerCommand>, pointed: Option<usize>) -> (s: GameState)
        requires
            old(self).wf(),
        ensures
            final(self).wf(),
            (final(self)@, s) == menu_step(old(self)@, *single_command, pointed),
            final(self).label_texts() == old(self).label_texts(),
    {
        match single_command {
            Some(PlayerCommand::Click(_, _)) => {
                match pointed {
                    Some(i) => if i < self.buttons.len() {
                        self.buttons[i]
                    } else {
                        self.idle
                    },
                    None => self.idle,
                }
            },
            Some(PlayerCommand::MouseMove(_, _)) => {
                if let Some(i) = pointed {
                    if i < self.buttons.len() {
                        self.selected = i;
                    }
                }
                self.idle
            },
            Some(PlayerCommand::Up) => {
                if self.selected > 0 {
                    self.selected = self.selected - 1;
                }
                self.idle
            },
            Some(PlayerCommand::Down) => {
                if self.selected < self.buttons.len() - 1 {
                    self.selected = self.selected + 1;
                }
                self.idle
            },
            Some(PlayerCommand::Select) | Some(PlayerCommand::Fire) => self.buttons[self.selected],
            Some(PlayerCommand::Escape) => {
                match self.escape {
                    Some(s) => s,
                    None => self.buttons[self.buttons.len() - 1],
                }
            },
            _ => self.idle,
        }
    }
}

/// Whatever command a menu gets, its selection stays on one of its buttons.
pub proof fn lemma_menu_selection_stays_valid(m: MenuView, command: Option<PlayerCommand>, pointed: Option<usize>)
    requires
        menu_wf(m),
    ensures
        menu_wf(menu_step(m, command, pointed).0),
        menu_step(m, command, pointed).0.buttons == m.buttons,
{
}

} // verus!
