use guess_game::difficulty::Difficulty;
use guess_game::score::compute_score;

#[test]
fn unlimited_budget_scores_100_whatever_the_count() {
    for count in [0u32, 1, 2, 5, 20, 21, 1000, u32::MAX] {
        assert_eq!(compute_score(count, 0, &Difficulty::Easy), 100);
    }
}

#[test]
fn unlimited_budget_ignores_the_multiplier() {
    assert_eq!(compute_score(7, 0, &Difficulty::Medium), 100);
    assert_eq!(compute_score(7, 0, &Difficulty::Hard), 100);
}

#[test]
fn five_of_twenty_on_medium_scores_3000() {
    assert_eq!(compute_score(5, 20, &Difficulty::Medium), 3000);
}

#[test]
fn whole_budget_used_on_hard_scores_zero() {
    assert_eq!(compute_score(10, 10, &Difficulty::Hard), 0);
}

#[test]
fn each_guess_left_is_worth_100_times_the_multiplier() {
    assert_eq!(compute_score(1, 10, &Difficulty::Easy), 900);
    assert_eq!(compute_score(1, 10, &Difficulty::Medium), 1800);
    assert_eq!(compute_score(1, 10, &Difficulty::Hard), 3600);
    assert_eq!(compute_score(19, 20, &Difficulty::Hard), 400);
    assert_eq!(compute_score(0, 20, &Difficulty::Hard), 8000);
}

#[test]
fn score_of_every_count_within_the_table_budgets() {
    for (budget, levels) in [(20u32, [1u64, 2, 4]), (10u32, [1u64, 2, 4])] {
        for count in 0..=budget {
            let left = (budget - count) as u64;
            assert_eq!(compute_score(count, budget, &Difficulty::Easy), left * 100 * levels[0]);
            assert_eq!(compute_score(count, budget, &Difficulty::Medium), left * 100 * levels[1]);
            assert_eq!(compute_score(count, budget, &Difficulty::Hard), left * 100 * levels[2]);
        }
    }
}

#[test]
fn largest_budget_does_not_overflow() {
    assert_eq!(compute_score(0, u32::MAX, &Difficulty::Hard), 4294967295u64 * 400);
    assert_eq!(compute_score(0, u32::MAX, &Difficulty::Hard), 1717986918000);
}
