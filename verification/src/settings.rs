//! The two difficulty choices of the player, and the menu that changes them.

use vstd::prelude::*;
use crate::difficulty::Difficulty;
use crate::input::{parse_line, parse_number};

verus! {

/// What the player has chosen: how hard the game is, and how hard the
/// guessing.
#[derive(Clone, Copy, Debug, PartialEq, Eq, Structural)]
pub struct GameSettings {
    /// Sets the range of the secret number and the score multiplier.
    pub game_difficulty: Difficulty,
    /// Sets the guess budget.
    pub guess_difficulty: Difficulty,
}

impl GameSettings {
    /// The settings that the game starts with: both choices easy.
    pub open spec fn initial() -> GameSettings {
        GameSettings { game_difficulty: Difficulty::Easy, guess_difficulty: Difficulty::Easy }
    }

    /// The settings that the game starts with: both choices easy.
    pub fn new() -> (settings: GameSettings)
        ensures
            settings == GameSettings::initial(),
    {
        GameSettings { game_difficulty: Difficulty::Easy, guess_difficulty: Difficulty::Easy }
    }
}

impl Default for GameSettings {
    fn default() -> (settings: GameSettings)
        ensures
            settings == GameSettings::initial(),
    {
        GameSettings::new()
    }
}

/// The screens of the settings menu.
#[derive(Clone, Copy, Debug, PartialEq, Eq, Structural)]
pub enum SettingsScreen {
    /// The list of the two settings.
    Overview,
    /// The choice of the game difficulty.
    GameDifficulty,
    /// The choice of the guess difficulty.
    GuessDifficulty,
    /// The menu was left.
    Closed,
}

/// The settings menu: the settings as they stand, and the screen shown.
#[derive(Clone, Copy, Debug, PartialEq, Eq, Structural)]
pub struct SettingsMenu {
    pub settings: GameSettings,
    pub screen: SettingsScreen,
}

/// The difficulty that a menu choice stands for: 1, 2 and 3 are easy, medium
/// and hard. No number, or any other number, stands for none.
pub open spec fn difficulty_of_choice(choice: Option<u32>) -> Option<Difficulty> {
    if choice == Some(1u32) {
        Some(Difficulty::Easy)
    } else if choice == Some(2u32) {
        Some(Difficulty::Medium)
    } else if choice == Some(3u32) {
        Some(Difficulty::Hard)
    } else {
        None
    }
}

impl SettingsMenu {
    /// The menu as it opens on `settings`.
    pub open spec fn opened(settings: GameSettings) -> SettingsMenu {
        SettingsMenu { settings, screen: SettingsScreen::Overview }
    }

    /// The menu after the player made `choice`, the number on the line typed
    /// if it held one.
    ///
    /// On the overview, 1 and 2 open the two choices and anything else
    /// leaves the menu. On a choice screen, 1, 2 and 3 pick a difficulty and
    /// the screen stays, so that the player can pick again; anything else
    /// goes back to the overview with the settings as they are.
    pub open spec fn select(self, choice: Option<u32>) -> SettingsMenu {
        match self.screen {
            SettingsScreen::Overview => {
                if choice == Some(1u32) {
                    SettingsMenu { screen: SettingsScreen::GameDifficulty, ..self }
                } else if choice == Some(2u32) {
                    SettingsMenu { screen: SettingsScreen::GuessDifficulty, ..self }
                } else {
                    SettingsMenu { screen: SettingsScreen::Closed, ..self }
                }
            },
            SettingsScreen::GameDifficulty => {
                match difficulty_of_choice(choice) {
                    Some(difficulty) => SettingsMenu {
                        settings: GameSettings { game_difficulty: difficulty, ..self.settings },
                        ..self
                    },
                    None => SettingsMenu { screen: SettingsScreen::Overview, ..self },
                }
            },
            SettingsScreen::GuessDifficulty => {
                match difficulty_of_choice(choice) {
                    Some(difficulty) => SettingsMenu {
                        settings: GameSettings { guess_difficulty: difficulty, ..self.settings },
                        ..self
                    },
                    None => SettingsMenu { screen: SettingsScreen::Overview, ..self },
                }
            },
            SettingsScreen::Closed => self,
        }
    }

    /// The menu after the player typed `line`.
    pub open spec fn line(self, line: Seq<char>) -> SettingsMenu {
        self.select(parse_line(line))
    }

    /// Opens the menu on `settings`.
    pub fn enter(settings: GameSettings) -> (menu: SettingsMenu)
        ensures
            menu == SettingsMenu::opened(settings),
    {
        SettingsMenu { settings, screen: SettingsScreen::Overview }
    }

    /// Takes a line that the player typed and moves the menu on.
    pub fn handle_line(&mut self, line: &str)
        ensures
            *final(self) == old(self).line(line@),
    {
        let choice = parse_number(line);
        match self.screen {
            SettingsScreen::Overview => {
                self.screen = match choice {
                    Some(1) => SettingsScreen::GameDifficulty,
                    Some(2) => SettingsScreen::GuessDifficulty,
                    _ => SettingsScreen::Closed,
                };
            },
            SettingsScreen::GameDifficulty => {
                match get_user_difficulty_choice(line) {
                    Some(difficulty) => self.settings.game_difficulty = difficulty,
                    None => self.screen = SettingsScreen::Overview,
                }
            },
            SettingsScreen::GuessDifficulty => {
                match get_user_difficulty_choice(line) {
                    Some(difficulty) => self.settings.guess_difficulty = difficulty,
                    None => self.screen = SettingsScreen::Overview,
                }
            },
            SettingsScreen::Closed => {},
        }
    }
}

/// Reads a difficulty off a line that the player typed: 1, 2 and 3 are easy,
/// medium and hard, any other line is no choice.
pub fn get_user_difficulty_choice(line: &str) -> (choice: Option<Difficulty>)
    ensures
        choice == difficulty_of_choice(parse_line(line@)),
{
    let user_choice: u32 = match parse_number(line) {
        Some(number) => number,
        None => return None,
    };
    match user_choice {
        1 => Some(Difficulty::Easy),
        2 => Some(Difficulty::Medium),
        3 => Some(Difficulty::Hard),
        _ => None,
    }
}

/// A line that holds no number never changes the settings: on a choice
/// screen it leads back to the overview, on the overview out of the menu.
pub proof fn lemma_unreadable_line_keeps_settings(menu: SettingsMenu, line: Seq<char>)
    requires
        parse_line(line) is None,
    ensures
        menu.line(line).settings == menu.settings,
        menu.screen is GameDifficulty || menu.screen is GuessDifficulty ==> menu.line(line).screen
            is Overview,
        menu.screen is Overview ==> menu.line(line).screen is Closed,
{
}

/// A choice of 1, 2 or 3 on a choice screen sets that one setting to the
/// difficulty chosen and leaves the other, and the screen, as they are.
pub proof fn lemma_choice_sets_one_setting(menu: SettingsMenu, choice: u32)
    requires
        1 <= choice <= 3,
    ensures
        menu.screen is GameDifficulty ==> menu.select(Some(choice)) == (SettingsMenu {
            settings: GameSettings {
                game_difficulty: difficulty_of_choice(Some(choice)).unwrap(),
                guess_difficulty: menu.settings.guess_difficulty,
            },
            screen: SettingsScreen::GameDifficulty,
        }),
        menu.screen is GuessDifficulty ==> menu.select(Some(choice)) == (SettingsMenu {
            settings: GameSettings {
                game_difficulty: menu.settings.game_difficulty,
                guess_difficulty: difficulty_of_choice(Some(choice)).unwrap(),
            },
            screen: SettingsScreen::GuessDifficulty,
        }),
{
}

/// Whatever the player types, the settings menu changes the settings on the
/// two choice screens only, and there only one of them.
pub proof fn lemma_menu_changes_own_setting_only(menu: SettingsMenu, choice: Option<u32>)
    ensures
        !(menu.screen is GameDifficulty) ==> menu.select(choice).settings.game_difficulty
            == menu.settings.game_difficulty,
        !(menu.screen is GuessDifficulty) ==> menu.select(choice).settings.guess_difficulty
            == menu.settings.guess_difficulty,
{
}

} // verus!
