//! The score of a round.

use vstd::prelude::*;
use crate::difficulty::{
    Difficulty, INFINITE_GUESSES, SCORE_PER_GUESS_POINT, get_multiplier, guess_budget,
    score_multiplier,
};

verus! {

/// What a round is worth that took `guess_count` guesses out of a budget of
/// `guess_budget`.
///
/// Without a budget the round is worth a flat 100 points, however many
/// guesses it took. With one, each guess left unused is worth 100 points,
/// times the multiplier of the game difficulty.
pub open spec fn round_score(guess_count: nat, guess_budget: nat, game_difficulty: Difficulty) -> nat {
    if guess_budget == 0 {
        100
    } else {
        ((guess_budget - guess_count) * 100 * score_multiplier(game_difficulty)) as nat
    }
}

/// The largest score that a round with a budget taken from the difficulty
/// table can bring: twenty unused guesses at the highest multiplier.
pub open spec fn max_table_score() -> nat {
    8000
}

/// Scores a round. The guesses made never exceed a budget that is set.
///
/// The score is returned as a `u64`, which holds the product for every
/// budget that a `u32` can express.
pub fn compute_score(guess_count: u32, max_authorized_guesses: u32, game_difficulty: &Difficulty) -> (score: u64)
    requires
        max_authorized_guesses == INFINITE_GUESSES || guess_count <= max_authorized_guesses,
    ensures
        score == round_score(guess_count as nat, max_authorized_guesses as nat, *game_difficulty),
        max_authorized_guesses == INFINITE_GUESSES ==> score == 100,
        max_authorized_guesses != INFINITE_GUESSES ==> score == (max_authorized_guesses - guess_count)
            * 100 * score_multiplier(*game_difficulty),
{
    // Without a budget there is no count of guesses left: the score is fixed.
    if max_authorized_guesses == INFINITE_GUESSES {
        return SCORE_PER_GUESS_POINT as u64;
    }
    let remaining: u64 = (max_authorized_guesses - guess_count) as u64;
    let score: u64 = remaining * (SCORE_PER_GUESS_POINT as u64);
    score * (get_multiplier(game_difficulty) as u64)
}

/// A round without a guess budget is worth 100 points, whatever the number
/// of guesses and the game difficulty.
pub proof fn lemma_unlimited_round_scores_flat(guess_count: nat, game_difficulty: Difficulty)
    ensures
        round_score(guess_count, 0, game_difficulty) == 100,
{
}

/// A round that used up its whole budget is worth nothing, won or lost.
pub proof fn lemma_exhausted_budget_scores_zero(guess_budget: nat, game_difficulty: Difficulty)
    requires
        guess_budget > 0,
    ensures
        round_score(guess_budget, guess_budget, game_difficulty) == 0,
{
}

/// With a budget from the difficulty table, a round is worth at most
/// `max_table_score()` points.
pub proof fn lemma_table_score_bounded(guess_count: nat, guess_difficulty: Difficulty, game_difficulty: Difficulty)
    requires
        guess_budget(guess_difficulty) == 0 || guess_count <= guess_budget(guess_difficulty),
    ensures
        round_score(guess_count, guess_budget(guess_difficulty), game_difficulty)
            <= max_table_score(),
{
}

} // verus!
