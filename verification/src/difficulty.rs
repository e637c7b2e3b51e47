//! The difficulty levels and the table of constants that each level stands for.

use vstd::prelude::*;

verus! {

/// The guess budget that means "no limit".
pub const INFINITE_GUESSES: u32 = 0;

/// Points awarded for each guess of the budget left unused.
pub const SCORE_PER_GUESS_POINT: u32 = 100;

/// Score multiplier of the medium game difficulty.
pub const MEDIUM_MULTIPLIER: u32 = 2;

/// Score multiplier of the hard game difficulty.
pub const HARD_MULTIPLIER: u32 = 4;

/// A difficulty level. The same three levels grade the game (range of the
/// secret number, score multiplier) and the guessing (guess budget).
#[derive(Clone, Copy, Debug, PartialEq, Eq, Structural)]
pub enum Difficulty {
    Easy,
    Medium,
    Hard,
}

/// Upper bound of the secret number in the first round: the secret is drawn
/// from `1..=default_range(level)`.
pub open spec fn default_range(level: Difficulty) -> nat {
    match level {
        Difficulty::Easy => 100,
        Difficulty::Medium => 1000,
        Difficulty::Hard => 10000,
    }
}

/// Amount by which the upper bound grows after each completed round.
pub open spec fn range_increment(level: Difficulty) -> nat {
    match level {
        Difficulty::Easy => 25,
        Difficulty::Medium => 250,
        Difficulty::Hard => 2500,
    }
}

/// Number of guesses allowed in a round; `0` means that there is no limit.
pub open spec fn guess_budget(level: Difficulty) -> nat {
    match level {
        Difficulty::Easy => 0,
        Difficulty::Medium => 20,
        Difficulty::Hard => 10,
    }
}

/// Factor applied to a round's score.
pub open spec fn score_multiplier(level: Difficulty) -> nat {
    match level {
        Difficulty::Easy => 1,
        Difficulty::Medium => 2,
        Difficulty::Hard => 4,
    }
}

/// Name of the level as shown to the player.
pub open spec fn display_name(level: Difficulty) -> Seq<char> {
    match level {
        Difficulty::Easy => "Easy"@,
        Difficulty::Medium => "Medium"@,
        Difficulty::Hard => "Hard"@,
    }
}

/// Marker shown next to the menu entry of the level that is currently chosen.
pub open spec fn selected_tag(selected: Difficulty, level: Difficulty) -> Seq<char> {
    if selected == level {
        "(selected)"@
    } else {
        ""@
    }
}

pub fn get_default_max_rand_range(difficulty: &Difficulty) -> (range: u32)
    ensures
        range == default_range(*difficulty),
{
    match difficulty {
        Difficulty::Easy => 100,
        Difficulty::Medium => 1000,
        Difficulty::Hard => 10000,
    }
}

pub fn get_increment_max_rand_range(difficulty: &Difficulty) -> (increment: u32)
    ensures
        increment == range_increment(*difficulty),
{
    match difficulty {
        Difficulty::Easy => 25,
        Difficulty::Medium => 250,
        Difficulty::Hard => 2500,
    }
}

pub fn get_max_authorized_guesses(difficulty: &Difficulty) -> (budget: u32)
    ensures
        budget == guess_budget(*difficulty),
{
    match difficulty {
        Difficulty::Easy => INFINITE_GUESSES,
        Difficulty::Medium => 20,
        Difficulty::Hard => 10,
    }
}

pub fn get_multiplier(game_difficulty: &Difficulty) -> (multiplier: u32)
    ensures
        multiplier == score_multiplier(*game_difficulty),
{
    match game_difficulty {
        Difficulty::Easy => 1,
        Difficulty::Medium => MEDIUM_MULTIPLIER,
        Difficulty::Hard => HARD_MULTIPLIER,
    }
}

pub fn get_difficulty_name(difficulty: &Difficulty) -> (name: &'static str)
    ensures
        name@ == display_name(*difficulty),
{
    match difficulty {
        Difficulty::Easy => "Easy",
        Difficulty::Medium => "Medium",
        Difficulty::Hard => "Hard",
    }
}

pub fn get_selected_tag<'a>(selected_difficulty: &Difficulty, difficulty: &Difficulty) -> (tag: &'a str)
    ensures
        tag@ == selected_tag(*selected_difficulty, *difficulty),
{
    if *selected_difficulty == *difficulty {
        "(selected)"
    } else {
        ""
    }
}

} // verus!
