//! The main menu and its settings submenu: pure selection state machines
//! with no behaviour beyond cycling through closed option sets.
use vstd::prelude::*;

use crate::game::GameDifficulty;

verus! {

/// Which menu screen is showing.
#[derive(Debug, Default, Clone, Copy, PartialEq, Eq, Structural)]
pub enum MenuType {
    #[default]
    MainMenu,
    SettingsMenu,
}

/// What the host should do after a menu confirmation.
#[derive(Debug, Clone, Copy, PartialEq, Eq, Structural)]
pub enum MenuAction {
    NoOp,
    NewGame,
}

/// An entry of the main menu.
#[derive(Debug, Default, PartialEq, Eq, Structural, Clone, Copy)]
pub enum SelectedOption {
    #[default]
    NewGame,
    Settings,
}

/// An entry of the settings submenu.
#[derive(Debug, Clone, Copy, PartialEq, Eq, Structural, Default)]
pub enum SelectedSetting {
    #[default]
    Difficulty,
    Back,
}

/// The difficulty tier the settings submenu cycles through.
#[derive(Debug, Clone, Copy, PartialEq, Eq, Structural, Default)]
pub enum Difficulty {
    VeryEasy,
    Easy,
    #[default]
    Normal,
    Intermediate,
    Hard,
    Expert,
    Extreme,
    Insane,
    Basic,
    VeryHard,
}

/// The settings submenu's state: the highlighted entry and the chosen
/// difficulty.
#[derive(Debug, Clone, Copy)]
pub struct Settings {
    pub selected_setting: SelectedSetting,
    pub difficulty: Difficulty,
}

/// The whole menu state.
#[derive(Debug)]
pub struct Menu {
    pub selected_option: SelectedOption,
    pub setting: Settings,
    pub menu_type: MenuType,
}

impl SelectedOption {
    /// The entry after this one, wrapping around.
    pub open spec fn next_spec(self) -> SelectedOption {
        match self {
            SelectedOption::NewGame => SelectedOption::Settings,
            SelectedOption::Settings => SelectedOption::NewGame,
        }
    }

    /// The entry before this one, wrapping around.
    pub open spec fn previous_spec(self) -> SelectedOption {
        match self {
            SelectedOption::NewGame => SelectedOption::Settings,
            SelectedOption::Settings => SelectedOption::NewGame,
        }
    }

    /// This entry's position in the menu.
    pub open spec fn ordinal_spec(self) -> u8 {
        match self {
            SelectedOption::NewGame => 0,
            SelectedOption::Settings => 1,
        }
    }

    /// The caption this entry shows.
    pub open spec fn menu_text_spec(self) -> Seq<char> {
        match self {
            SelectedOption::NewGame => "New Game"@,
            SelectedOption::Settings => "Settings"@,
        }
    }

    /// Moves the selection one entry down, wrapping around.
    pub fn next_selection(&mut self)
        ensures
            *final(self) == old(self).next_spec(),
    {
        *self = match *self {
            SelectedOption::NewGame => SelectedOption::Settings,
            SelectedOption::Settings => SelectedOption::NewGame,
        };
    }

    /// Moves the selection one entry up, wrapping around.
    pub fn previous_selection(&mut self)
        ensures
            *final(self) == old(self).previous_spec(),
    {
        *self = match *self {
            SelectedOption::NewGame => SelectedOption::Settings,
            SelectedOption::Settings => SelectedOption::NewGame,
        };
    }

    /// The caption this entry shows.
    pub fn menu_text(&self) -> (r: &str)
        ensures
            r@ == self.menu_text_spec(),
    {
        match self {
            SelectedOption::NewGame => "New Game",
            SelectedOption::Settings => "Settings",
        }
    }
}

impl SelectedSetting {
    /// The entry after this one, wrapping around.
    pub open spec fn next_spec(self) -> SelectedSetting {
        match self {
            SelectedSetting::Difficulty => SelectedSetting::Back,
            SelectedSetting::Back => SelectedSetting::Difficulty,
        }
    }

    /// The entry before this one, wrapping around.
    pub open spec fn previous_spec(self) -> SelectedSetting {
        match self {
            SelectedSetting::Difficulty => SelectedSetting::Back,
            SelectedSetting::Back => SelectedSetting::Difficulty,
        }
    }

    /// This entry's position in the submenu.
    pub open spec fn ordinal_spec(self) -> u8 {
        match self {
            SelectedSetting::Difficulty => 0,
            SelectedSetting::Back => 1,
        }
    }

    /// All entries, in display order.
    pub fn all_possibilities() -> (r: Vec<SelectedSetting>)
        ensures
            r@ == seq![SelectedSetting::Difficulty, SelectedSetting::Back],
    {
        let mut r: Vec<SelectedSetting> = Vec::new();
        r.push(SelectedSetting::Difficulty);
        r.push(SelectedSetting::Back);
        proof {
            assert(r@ =~= seq![SelectedSetting::Difficulty, SelectedSetting::Back]);
        }
        r
    }

    /// Moves the selection one entry down, wrapping around.
    pub fn next_selection(&mut self)
        ensures
            *final(self) == old(self).next_spec(),
    {
        *self = match *self {
            SelectedSetting::Difficulty => SelectedSetting::Back,
            SelectedSetting::Back => SelectedSetting::Difficulty,
        };
    }

    /// Moves the selection one entry up, wrapping around.
    pub fn previous_selection(&mut self)
        ensures
            *final(self) == old(self).previous_spec(),
    {
        *self = match *self {
            SelectedSetting::Difficulty => SelectedSetting::Back,
            SelectedSetting::Back => SelectedSetting::Difficulty,
        };
    }
}

impl Difficulty {
    /// The tier after this one, wrapping around.
    pub open spec fn next_spec(self) -> Difficulty {
        match self {
            Difficulty::VeryEasy => Difficulty::Easy,
            Difficulty::Easy => Difficulty::Normal,
            Difficulty::Normal => Difficulty::Intermediate,
            Difficulty::Intermediate => Difficulty::Hard,
            Difficulty::Hard => Difficulty::Expert,
            Difficulty::Expert => Difficulty::Extreme,
            Difficulty::Extreme => Difficulty::Insane,
            Difficulty::Insane => Difficulty::Basic,
            Difficulty::Basic => Difficulty::VeryHard,
            Difficulty::VeryHard => Difficulty::VeryEasy,
        }
    }

    /// The tier before this one, wrapping around.
    pub open spec fn previous_spec(self) -> Difficulty {
        match self {
            Difficulty::VeryEasy => Difficulty::VeryHard,
            Difficulty::Easy => Difficulty::VeryEasy,
            Difficulty::Normal => Difficulty::Easy,
            Difficulty::Intermediate => Difficulty::Normal,
            Difficulty::Hard => Difficulty::Intermediate,
            Difficulty::Expert => Difficulty::Hard,
            Difficulty::Extreme => Difficulty::Expert,
            Difficulty::Insane => Difficulty::Extreme,
            Difficulty::Basic => Difficulty::Insane,
            Difficulty::VeryHard => Difficulty::Basic,
        }
    }

    /// The [`GameDifficulty`] tier of the same name.
    pub open spec fn game_difficulty_spec(self) -> GameDifficulty {
        match self {
            Difficulty::VeryEasy => GameDifficulty::VeryEasy,
            Difficulty::Easy => GameDifficulty::Easy,
            Difficulty::Normal => GameDifficulty::Normal,
            Difficulty::Intermediate => GameDifficulty::Intermediate,
            Difficulty::Hard => GameDifficulty::Hard,
            Difficulty::Expert => GameDifficulty::Expert,
            Difficulty::Extreme => GameDifficulty::Extreme,
            Difficulty::Insane => GameDifficulty::Insane,
            Difficulty::Basic => GameDifficulty::Basic,
            Difficulty::VeryHard => GameDifficulty::VeryHard,
        }
    }

    /// The caption the settings submenu shows for this tier.
    pub open spec fn caption_spec(self) -> Seq<char> {
        match self {
            Difficulty::VeryEasy => "Difficulty: VeryEasy"@,
            Difficulty::Easy => "Difficulty: Easy"@,
            Difficulty::Normal => "Difficulty: Normal"@,
            Difficulty::Intermediate => "Difficulty: Intermediate"@,
            Difficulty::Hard => "Difficulty: Hard"@,
            Difficulty::Expert => "Difficulty: Expert"@,
            Difficulty::Extreme => "Difficulty: Extreme"@,
            Difficulty::Insane => "Difficulty: Insane"@,
            Difficulty::Basic => "Difficulty: Basic"@,
            Difficulty::VeryHard => "Difficulty: VeryHard"@,
        }
    }

    /// Cycles to the next tier.
    pub fn next_difficulty(&mut self)
        ensures
            *final(self) == old(self).next_spec(),
    {
        *self = match *self {
            Difficulty::VeryEasy => Difficulty::Easy,
            Difficulty::Easy => Difficulty::Normal,
            Difficulty::Normal => Difficulty::Intermediate,
            Difficulty::Intermediate => Difficulty::Hard,
            Difficulty::Hard => Difficulty::Expert,
            Difficulty::Expert => Difficulty::Extreme,
            Difficulty::Extreme => Difficulty::Insane,
            Difficulty::Insane => Difficulty::Basic,
            Difficulty::Basic => Difficulty::VeryHard,
            Difficulty::VeryHard => Difficulty::VeryEasy,
        };
    }

    /// Cycles to the previous tier.
    pub fn previous_difficulty(&mut self)
        ensures
            *final(self) == old(self).previous_spec(),
    {
        *self = match *self {
            Difficulty::VeryEasy => Difficulty::VeryHard,
            Difficulty::Easy => Difficulty::VeryEasy,
            Difficulty::Normal => Difficulty::Easy,
            Difficulty::Intermediate => Difficulty::Normal,
            Difficulty::Hard => Difficulty::Intermediate,
            Difficulty::Expert => Difficulty::Hard,
            Difficulty::Extreme => Difficulty::Expert,
            Difficulty::Insane => Difficulty::Extreme,
            Difficulty::Basic => Difficulty::Insane,
            Difficulty::VeryHard => Difficulty::Basic,
        };
    }

    /// The [`GameDifficulty`] tier of the same name.
    pub fn game_difficulty(&self) -> (r: GameDifficulty)
        ensures
            r == self.game_difficulty_spec(),
    {
        match self {
            Difficulty::VeryEasy => GameDifficulty::VeryEasy,
            Difficulty::Easy => GameDifficulty::Easy,
            Difficulty::Normal => GameDifficulty::Normal,
            Difficulty::Intermediate => GameDifficulty::Intermediate,
            Difficulty::Hard => GameDifficulty::Hard,
            Difficulty::Expert => GameDifficulty::Expert,
            Difficulty::Extreme => GameDifficulty::Extreme,
            Difficulty::Insane => GameDifficulty::Insane,
            Difficulty::Basic => GameDifficulty::Basic,
            Difficulty::VeryHard => GameDifficulty::VeryHard,
        }
    }

    /// The caption the settings submenu shows for this tier.
    fn caption(&self) -> (r: &str)
        ensures
            r@ == self.caption_spec(),
    {
        match self {
            Difficulty::VeryEasy => "Difficulty: VeryEasy",
            Difficulty::Easy => "Difficulty: Easy",
            Difficulty::Normal => "Difficulty: Normal",
            Difficulty::Intermediate => "Difficulty: Intermediate",
            Difficulty::Hard => "Difficulty: Hard",
            Difficulty::Expert => "Difficulty: Expert",
            Difficulty::Extreme => "Difficulty: Extreme",
            Difficulty::Insane => "Difficulty: Insane",
            Difficulty::Basic => "Difficulty: Basic",
            Difficulty::VeryHard => "Difficulty: VeryHard",
        }
    }
}

impl Settings {
    /// The chosen difficulty tier.
    pub fn difficulty(&self) -> (r: Difficulty)
        ensures
            r == self.difficulty,
    {
        self.difficulty
    }

    /// Cycles the chosen difficulty to the next tier.
    pub fn next_difficulty(&mut self)
        ensures
            *final(self) == (Settings { difficulty: old(self).difficulty.next_spec(), ..*old(self) }),
    {
        self.difficulty.next_difficulty();
    }

    /// Cycles the chosen difficulty to the previous tier.
    pub fn previous_difficulty(&mut self)
        ensures
            *final(self) == (Settings {
                difficulty: old(self).difficulty.previous_spec(),
                ..*old(self)
            }),
    {
        self.difficulty.previous_difficulty();
    }

    /// The captions of the settings submenu, in display order: the
    /// difficulty line, then the way back.
    pub fn all_possibilities(&self) -> (r: Vec<String>)
        ensures
            r@.len() == 2,
            r@[0]@ == self.difficulty.caption_spec(),
            r@[1]@ == "Back"@,
    {
        let mut r: Vec<String> = Vec::new();
        r.push(self.difficulty.caption().to_owned());
        r.push("Back".to_owned());
        r
    }
}

impl Menu {
    /// The state after moving the highlight one entry down.
    pub open spec fn select_next_spec(self) -> Menu {
        match self.menu_type {
            MenuType::MainMenu => Menu { selected_option: self.selected_option.next_spec(), ..self },
            MenuType::SettingsMenu => Menu {
                setting: Settings {
                    selected_setting: self.setting.selected_setting.next_spec(),
                    ..self.setting
                },
                ..self
            },
        }
    }

    /// The state after moving the highlight one entry up.
    pub open spec fn select_previous_spec(self) -> Menu {
        match self.menu_type {
            MenuType::MainMenu => Menu {
                selected_option: self.selected_option.previous_spec(),
                ..self
            },
            MenuType::SettingsMenu => Menu {
                setting: Settings {
                    selected_setting: self.setting.selected_setting.previous_spec(),
                    ..self.setting
                },
                ..self
            },
        }
    }

    /// The state after a confirmation, with the action reported to the
    /// host: starting a game leaves the menu as it is, the settings entry
    /// switches screens, the difficulty line cycles the tier, and the
    /// back entry returns to the main screen.
    pub open spec fn enter_spec(self) -> (Menu, MenuAction) {
        match self.menu_type {
            MenuType::MainMenu => match self.selected_option {
                SelectedOption::NewGame => (self, MenuAction::NewGame),
                SelectedOption::Settings => (
                    Menu { menu_type: MenuType::SettingsMenu, ..self },
                    MenuAction::NoOp,
                ),
            },
            MenuType::SettingsMenu => match self.setting.selected_setting {
                SelectedSetting::Difficulty => (
                    Menu {
                        setting: Settings {
                            difficulty: self.setting.difficulty.next_spec(),
                            ..self.setting
                        },
                        ..self
                    },
                    MenuAction::NoOp,
                ),
                SelectedSetting::Back => (
                    Menu { menu_type: MenuType::MainMenu, ..self },
                    MenuAction::NoOp,
                ),
            },
        }
    }

    /// A fresh menu: main screen, first entry highlighted, normal
    /// difficulty.
    pub fn new() -> (r: Menu)
        ensures
            r.selected_option == SelectedOption::NewGame,
            r.setting.selected_setting == SelectedSetting::Difficulty,
            r.setting.difficulty == Difficulty::Normal,
            r.menu_type == MenuType::MainMenu,
    {
        Menu {
            selected_option: SelectedOption::NewGame,
            setting: Settings {
                selected_setting: SelectedSetting::Difficulty,
                difficulty: Difficulty::Normal,
            },
            menu_type: MenuType::MainMenu,
        }
    }

    /// The position of the highlighted entry on the current screen.
    pub fn selected_option(&self) -> (r: u8)
        ensures
            self.menu_type == MenuType::MainMenu ==> r == self.selected_option.ordinal_spec(),
            self.menu_type == MenuType::SettingsMenu ==> r
                == self.setting.selected_setting.ordinal_spec(),
    {
        match self.menu_type {
            MenuType::MainMenu => match self.selected_option {
                SelectedOption::NewGame => 0,
                SelectedOption::Settings => 1,
            },
            MenuType::SettingsMenu => match self.setting.selected_setting {
                SelectedSetting::Difficulty => 0,
                SelectedSetting::Back => 1,
            },
        }
    }

    /// Cycles the chosen difficulty to the next tier.
    pub fn next_difficulty(&mut self)
        ensures
            *final(self) == (Menu {
                setting: (Settings {
                    difficulty: old(self).setting.difficulty.next_spec(),
                    ..old(self).setting
                }),
                ..*old(self)
            }),
    {
        self.setting.next_difficulty();
    }

    /// Cycles the chosen difficulty to the previous tier.
    pub fn previous_difficulty(&mut self)
        ensures
            *final(self) == (Menu {
                setting: (Settings {
                    difficulty: old(self).setting.difficulty.previous_spec(),
                    ..old(self).setting
                }),
                ..*old(self)
            }),
    {
        self.setting.previous_difficulty();
    }

    /// Which screen is showing.
    pub fn menu_type(&self) -> (r: MenuType)
        ensures
            r == self.menu_type,
    {
        self.menu_type
    }

    /// The settings submenu's state.
    pub fn settings(&self) -> (r: Settings)
        ensures
            r == self.setting,
    {
        self.setting
    }

    /// The captions of the current screen, in display order.
    pub fn all_possibilities(&self) -> (r: Vec<String>)
        ensures
            r@.len() == 2,
            self.menu_type == MenuType::MainMenu ==> r@[0]@ == "New Game"@ && r@[1]@ == "Settings"@,
            self.menu_type == MenuType::SettingsMenu ==> r@[0]@
                == self.setting.difficulty.caption_spec() && r@[1]@ == "Back"@,
    {
        match self.menu_type {
            MenuType::MainMenu => {
                let mut r: Vec<String> = Vec::new();
                r.push(SelectedOption::NewGame.menu_text().to_owned());
                r.push(SelectedOption::Settings.menu_text().to_owned());
                r
            },
            MenuType::SettingsMenu => self.setting.all_possibilities(),
        }
    }

    /// Menus have no time-dependent behaviour; ticks leave them as they
    /// are.
    pub fn update(&mut self, _now: u64)
        ensures
            *final(self) == *old(self),
    {
    }

    /// Confirms the highlighted entry: starting a game is reported to the
    /// host, entering or leaving the settings switches screens, and
    /// confirming the difficulty line cycles the tier.
    pub fn enter_or_space_pressed(&mut self) -> (r: MenuAction)
        ensures
            *final(self) == old(self).enter_spec().0,
            r == old(self).enter_spec().1,
    {
        match self.menu_type() {
            MenuType::MainMenu => match self.selected_option {
                SelectedOption::Settings => {
                    self.set_menu_type(MenuType::SettingsMenu);
                    MenuAction::NoOp
                },
                SelectedOption::NewGame => MenuAction::NewGame,
            },
            MenuType::SettingsMenu => {
                match self.selected_setting() {
                    SelectedSetting::Difficulty => {
                        self.setting.difficulty.next_difficulty();
                    },
                    SelectedSetting::Back => {
                        self.set_menu_type(MenuType::MainMenu);
                    },
                }
                MenuAction::NoOp
            },
        }
    }

    /// Moves the highlight one entry down on the current screen.
    pub fn select_next_option(&mut self)
        ensures
            *final(self) == old(self).select_next_spec(),
    {
        match self.menu_type {
            MenuType::MainMenu => self.selected_option.next_selection(),
            MenuType::SettingsMenu => self.setting.selected_setting.next_selection(),
        }
    }

    /// Moves the highlight one entry up on the current screen.
    pub fn select_previous_option(&mut self)
        ensures
            *final(self) == old(self).select_previous_spec(),
    {
        match self.menu_type {
            MenuType::MainMenu => self.selected_option.previous_selection(),
            MenuType::SettingsMenu => self.setting.selected_setting.previous_selection(),
        }
    }

    /// The highlighted entry of the settings submenu.
    pub fn selected_setting(&self) -> (r: SelectedSetting)
        ensures
            r == self.setting.selected_setting,
    {
        self.setting.selected_setting
    }

    /// Switches to the given screen.
    pub fn set_menu_type(&mut self, menu_type: MenuType)
        ensures
            *final(self) == (Menu { menu_type: menu_type, ..*old(self) }),
    {
        self.menu_type = menu_type;
    }
}

} // verus!
