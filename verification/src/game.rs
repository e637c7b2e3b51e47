//! The game as a whole: the main menu, the settings menu and play sessions,
//! driven by the lines that the player types.

use vstd::prelude::*;
use crate::difficulty::{default_range, get_default_max_rand_range, guess_budget, range_increment};
use crate::input::{parse_line, parse_number, says_no};
use crate::play::{PlayPhase, PlaySession, PlayState, Reply, lemma_line_keeps_wf};
use crate::session::generate_secret_number;
use crate::settings::{GameSettings, SettingsMenu, SettingsScreen};

verus! {

/// What a line typed on the main menu asks for.
#[derive(Clone, Copy, Debug, PartialEq, Eq, Structural)]
pub enum MainMenuAction {
    /// Start a play session.
    Play,
    /// Open the settings menu.
    Settings,
    /// Leave the game.
    Quit,
    /// Show the menu again: the line held no number.
    Redisplay,
    /// Say that the option is invalid and show the menu again: the line
    /// held a number that is none of the options.
    RejectOption,
}

/// What `choice` asks for on the main menu, `choice` being the number on
/// the line typed if it held one: 1 plays, 2 opens the settings, 3 quits.
pub open spec fn main_menu_action(choice: Option<u32>) -> MainMenuAction {
    match choice {
        None => MainMenuAction::Redisplay,
        Some(number) => if number == 1 {
            MainMenuAction::Play
        } else if number == 2 {
            MainMenuAction::Settings
        } else if number == 3 {
            MainMenuAction::Quit
        } else {
            MainMenuAction::RejectOption
        },
    }
}

/// Reads off a line typed on the main menu what the player asks for.
pub fn main_menu_choice(line: &str) -> (action: MainMenuAction)
    ensures
        action == main_menu_action(parse_line(line@)),
{
    let user_choice: u32 = match parse_number(line) {
        Some(number) => number,
        None => return MainMenuAction::Redisplay,
    };
    match user_choice {
        1 => MainMenuAction::Play,
        2 => MainMenuAction::Settings,
        3 => MainMenuAction::Quit,
        _ => MainMenuAction::RejectOption,
    }
}

/// The state of the game as mathematics sees it: the screen that the
/// player is on, with what belongs to it.
pub enum GameState {
    /// On the main menu, with the settings as they stand.
    MainMenu(GameSettings),
    /// In the settings menu.
    Settings(SettingsMenu),
    /// In a play session.
    Playing(PlayState),
    /// The player has quit.
    Exited(GameSettings),
}

impl GameState {
    /// The game as it starts: on the main menu, with both difficulties
    /// easy.
    pub open spec fn initial() -> GameState {
        GameState::MainMenu(GameSettings::initial())
    }

    /// The settings as they stand.
    pub open spec fn settings(self) -> GameSettings {
        match self {
            GameState::MainMenu(settings) => settings,
            GameState::Settings(menu) => menu.settings,
            GameState::Playing(play) => play.settings,
            GameState::Exited(settings) => settings,
        }
    }

    /// The states that the game can be in: a play session in it is in one
    /// of its own states.
    pub open spec fn wf(self) -> bool {
        match self {
            GameState::Playing(play) => play.wf(),
            _ => true,
        }
    }

    /// Whether `line` starts a round: by choosing to play on the main
    /// menu, or by asking for another round in a play session.
    pub open spec fn starts_round(self, line: Seq<char>) -> bool {
        match self {
            GameState::MainMenu(_) => main_menu_action(parse_line(line)) is Play,
            GameState::Playing(play) => play.starts_round(line),
            _ => false,
        }
    }

    /// The upper bound of the secret number in the round that the player
    /// can start next. It is of interest on the main menu and in a play
    /// session only.
    pub open spec fn next_max_range(self) -> nat {
        match self {
            GameState::Playing(play) => play.next_max_range(),
            _ => default_range(self.settings().game_difficulty),
        }
    }

    /// Whether the machine can take `line`: see `PlayState::can_take`.
    /// Outside a play session it always can.
    pub open spec fn can_take(self, line: Seq<char>) -> bool {
        match self {
            GameState::Playing(play) => play.can_take(line),
            _ => true,
        }
    }

    /// The game after the player typed `line`. `next_secret` is the secret
    /// number of the round that the line may start.
    ///
    /// On the main menu the line picks what comes next, and a line that
    /// picks nothing leaves the game there. The settings menu and a play
    /// session take the line themselves; when they are done with it and at
    /// their end, the game is back on the main menu, with the settings as
    /// the menu left them, the score and the range of the session gone.
    /// Once the player has quit, nothing changes any more.
    pub open spec fn line(self, line: Seq<char>, next_secret: nat) -> GameState {
        match self {
            GameState::MainMenu(settings) => match main_menu_action(parse_line(line)) {
                MainMenuAction::Play => GameState::Playing(PlayState::start(settings, next_secret)),
                MainMenuAction::Settings => GameState::Settings(SettingsMenu::opened(settings)),
                MainMenuAction::Quit => GameState::Exited(settings),
                _ => self,
            },
            GameState::Settings(menu) => {
                let menu = menu.line(line);
                if menu.screen is Closed {
                    GameState::MainMenu(menu.settings)
                } else {
                    GameState::Settings(menu)
                }
            },
            GameState::Playing(play) => {
                let play = play.line(line, next_secret);
                if play.phase is Ended {
                    GameState::MainMenu(play.settings)
                } else {
                    GameState::Playing(play)
                }
            },
            GameState::Exited(_) => self,
        }
    }

    /// The game after the lines of `lines` were typed in turn. `secrets`
    /// holds, for each line, the secret number of the round that the line
    /// may start.
    pub open spec fn lines(self, lines: Seq<Seq<char>>, secrets: Seq<nat>) -> GameState
        decreases lines.len(),
    {
        if lines.len() == 0 {
            self
        } else {
            self.lines(lines.drop_last(), secrets.drop_last()).line(lines.last(), secrets.last())
        }
    }

    /// Whether each secret number of `secrets` lies in the range of the
    /// round that its line starts, as the game goes from `self` through
    /// `lines`.
    pub open spec fn secrets_in_range(self, lines: Seq<Seq<char>>, secrets: Seq<nat>) -> bool {
        &&& lines.len() == secrets.len()
        &&& forall|i: int|
            0 <= i < lines.len() ==> {
                let before = #[trigger] self.lines(lines.take(i), secrets.take(i));
                before.starts_round(lines[i]) ==> 1 <= secrets[i] <= before.next_max_range()
            }
    }

    /// What the game has to say about `line`.
    pub open spec fn reply(self, line: Seq<char>) -> Reply {
        match self {
            GameState::MainMenu(_) => if main_menu_action(parse_line(line)) is RejectOption {
                Reply::InvalidOption
            } else {
                Reply::Silent
            },
            GameState::Playing(play) => play.reply(line),
            _ => Reply::Silent,
        }
    }
}

/// Whatever the player types, the game stays in one of its states.
pub proof fn lemma_game_line_keeps_wf(game: GameState, line: Seq<char>, next_secret: nat)
    requires
        game.wf(),
        game.starts_round(line) ==> 1 <= next_secret <= game.next_max_range(),
    ensures
        game.line(line, next_secret).wf(),
{
    match game {
        GameState::Playing(play) => {
            lemma_line_keeps_wf(play, line, next_secret);
        },
        _ => {},
    }
}

/// Every state that the game can reach from its start is one of its states:
/// whatever the player types and whatever secret numbers are drawn, in each
/// round the secret number lies between 1 and the bound that the rounds
/// before have led to, the budget is that of the guess difficulty chosen,
/// and the guesses made never exceed a budget that is set.
pub proof fn lemma_reachable_states_are_wf(lines: Seq<Seq<char>>, secrets: Seq<nat>)
    requires
        GameState::initial().secrets_in_range(lines, secrets),
    ensures
        GameState::initial().lines(lines, secrets).wf(),
        GameState::initial().lines(lines, secrets) matches GameState::Playing(play) ==> {
            &&& 1 <= play.round.secret <= play.round.max_range
            &&& play.round.max_range == default_range(play.settings.game_difficulty)
                + play.round_index * range_increment(play.settings.game_difficulty)
            &&& play.round.budget == guess_budget(play.settings.guess_difficulty)
            &&& play.round.has_budget() ==> play.round.guess_count <= play.round.budget
        },
    decreases lines.len(),
{
    let start = GameState::initial();
    if lines.len() > 0 {
        let last = lines.len() - 1;
        let earlier = lines.drop_last();
        let earlier_secrets = secrets.drop_last();
        assert forall|i: int| 0 <= i < earlier.len() implies {
            let before = #[trigger] start.lines(earlier.take(i), earlier_secrets.take(i));
            before.starts_round(earlier[i]) ==> 1 <= earlier_secrets[i] <= before.next_max_range()
        } by {
            assert(earlier.take(i) == lines.take(i));
            assert(earlier_secrets.take(i) == secrets.take(i));
            let before = start.lines(lines.take(i), secrets.take(i));
            assert(before.starts_round(lines[i]) ==> 1 <= secrets[i] <= before.next_max_range());
        }
        lemma_reachable_states_are_wf(earlier, earlier_secrets);
        assert(lines.take(last) == earlier);
        assert(secrets.take(last) == earlier_secrets);
        let before = start.lines(lines.take(last), secrets.take(last));
        assert(before.starts_round(lines[last]) ==> 1 <= secrets[last] <= before.next_max_range());
        lemma_game_line_keeps_wf(before, lines.last(), secrets.last());
    }
}

/// The game ends in one way only: by the choice of 3 on the main menu.
pub proof fn lemma_exit_only_by_quit(game: GameState, line: Seq<char>, next_secret: nat)
    requires
        !(game is Exited),
    ensures
        game.line(line, next_secret) is Exited <==> game is MainMenu && parse_line(line) == Some(
            3u32,
        ),
{
}

/// The settings change nowhere but in the settings menu: the main menu and
/// a play session leave them as they are.
pub proof fn lemma_settings_change_in_menu_only(game: GameState, line: Seq<char>, next_secret: nat)
    requires
        !(game is Settings),
    ensures
        game.line(line, next_secret).settings() == game.settings(),
{
}

/// A play session entered from the main menu starts afresh: no points, and
/// a first round on the default range of the game difficulty chosen,
/// whatever was played before.
pub proof fn lemma_play_starts_afresh(settings: GameSettings, line: Seq<char>, next_secret: nat)
    requires
        parse_line(line) == Some(1u32),
    ensures
        GameState::MainMenu(settings).line(line, next_secret) == GameState::Playing(
            PlayState::start(settings, next_secret),
        ),
        PlayState::start(settings, next_secret).score == 0,
        PlayState::start(settings, next_secret).round.max_range == default_range(
            settings.game_difficulty,
        ),
        PlayState::start(settings, next_secret).round.budget == guess_budget(
            settings.guess_difficulty,
        ),
{
}

/// A line that holds no number changes nothing on the main menu, where the
/// menu is shown again, and leaves the settings alone in the settings menu,
/// where it leads one screen back.
pub proof fn lemma_unreadable_line_in_menus(game: GameState, line: Seq<char>, next_secret: nat)
    requires
        parse_line(line) is None,
    ensures
        game is MainMenu ==> game.line(line, next_secret) == game,
        game is Settings ==> game.line(line, next_secret).settings() == game.settings(),
{
}

/// The game.
#[derive(Clone, Copy, Debug)]
pub enum Game {
    /// On the main menu, with the settings as they stand.
    MainMenu(GameSettings),
    /// In the settings menu.
    Settings(SettingsMenu),
    /// In a play session.
    Playing(PlaySession),
    /// The player has quit.
    Exited(GameSettings),
}

impl View for Game {
    type V = GameState;

    open spec fn view(&self) -> GameState {
        match *self {
            Game::MainMenu(settings) => GameState::MainMenu(settings),
            Game::Settings(menu) => GameState::Settings(menu),
            Game::Playing(play) => GameState::Playing(play@),
            Game::Exited(settings) => GameState::Exited(settings),
        }
    }
}

impl Game {
    /// The game as it starts: on the main menu, with both difficulties
    /// easy.
    pub fn new() -> (game: Game)
        ensures
            game@ == GameState::initial(),
            game@.wf(),
    {
        Game::MainMenu(GameSettings::new())
    }

    /// The settings as they stand.
    pub fn settings(&self) -> (settings: GameSettings)
        ensures
            settings == self@.settings(),
    {
        match self {
            Game::MainMenu(settings) => *settings,
            Game::Settings(menu) => menu.settings,
            Game::Playing(play) => play.settings(),
            Game::Exited(settings) => *settings,
        }
    }

    /// Whether the player has quit.
    pub fn is_exited(&self) -> (exited: bool)
        ensures
            exited == (self@ is Exited),
    {
        match self {
            Game::Exited(_) => true,
            _ => false,
        }
    }

    /// Whether the game can take `line` within the limits of the machine.
    pub fn can_take(&self, line: &str) -> (fits: bool)
        ensures
            fits == self@.can_take(line@),
    {
        match self {
            Game::Playing(play) => play.can_take(line),
            _ => true,
        }
    }

    /// Takes a line that the player typed and moves the game on.
    /// `next_secret` is the secret number of the round that the line may
    /// start.
    pub fn handle_line_with(&mut self, line: &str, next_secret: u32) -> (reply: Reply)
        requires
            old(self)@.can_take(line@),
            old(self)@.starts_round(line@) ==> 1 <= next_secret <= old(self)@.next_max_range(),
        ensures
            final(self)@ == old(self)@.line(line@, next_secret as nat),
            reply == old(self)@.reply(line@),
            final(self)@.wf(),
    {
        match *self {
            Game::MainMenu(settings) => {
                match main_menu_choice(line) {
                    MainMenuAction::Play => {
                        *self = Game::Playing(PlaySession::with_secret(settings, next_secret));
                        Reply::Silent
                    },
                    MainMenuAction::Settings => {
                        *self = Game::Settings(SettingsMenu::enter(settings));
                        Reply::Silent
                    },
                    MainMenuAction::Quit => {
                        *self = Game::Exited(settings);
                        Reply::Silent
                    },
                    MainMenuAction::Redisplay => Reply::Silent,
                    MainMenuAction::RejectOption => Reply::InvalidOption,
                }
            },
            Game::Settings(menu) => {
                let mut menu = menu;
                menu.handle_line(line);
                *self = match menu.screen {
                    SettingsScreen::Closed => Game::MainMenu(menu.settings),
                    _ => Game::Settings(menu),
                };
                Reply::Silent
            },
            Game::Playing(play) => {
                let mut play = play;
                let reply = play.handle_line_with(line, next_secret);
                *self = match play.phase() {
                    PlayPhase::Ended => Game::MainMenu(play.settings()),
                    _ => Game::Playing(play),
                };
                reply
            },
            Game::Exited(_) => Reply::Silent,
        }
    }

    /// Takes a line that the player typed and moves the game on. Where the
    /// line starts a round, the secret number of that round is drawn at
    /// random from its range.
    pub fn handle_line(&mut self, line: &str) -> (reply: Reply)
        requires
            old(self)@.can_take(line@),
        ensures
            exists|next_secret: nat|
                {
                    &&& final(self)@ == #[trigger] old(self)@.line(line@, next_secret)
                    &&& old(self)@.starts_round(line@) ==> 1 <= next_secret <= old(
                        self,
                    )@.next_max_range()
                },
            reply == old(self)@.reply(line@),
            final(self)@.wf(),
    {
        let next_secret = match self {
            Game::MainMenu(settings) => match main_menu_choice(line) {
                MainMenuAction::Play => generate_secret_number(
                    get_default_max_rand_range(&settings.game_difficulty),
                ),
                _ => 1,
            },
            Game::Playing(play) => if play.phase() == PlayPhase::ReplayPrompt && !says_no(line) {
                generate_secret_number(play.next_max_rand_range())
            } else {
                1
            },
            _ => 1,
        };
        let reply = self.handle_line_with(line, next_secret);
        assert(final(self)@ == old(self)@.line(line@, next_secret as nat));
        reply
    }
}

} // verus!
