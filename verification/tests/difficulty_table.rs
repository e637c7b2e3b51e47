use guess_game::difficulty::{
    get_default_max_rand_range, get_difficulty_name, get_increment_max_rand_range,
    get_max_authorized_guesses, get_multiplier, get_selected_tag, Difficulty, HARD_MULTIPLIER,
    INFINITE_GUESSES, MEDIUM_MULTIPLIER, SCORE_PER_GUESS_POINT,
};

#[test]
fn default_range_of_each_level() {
    assert_eq!(get_default_max_rand_range(&Difficulty::Easy), 100);
    assert_eq!(get_default_max_rand_range(&Difficulty::Medium), 1000);
    assert_eq!(get_default_max_rand_range(&Difficulty::Hard), 10000);
}

#[test]
fn range_increment_of_each_level() {
    assert_eq!(get_increment_max_rand_range(&Difficulty::Easy), 25);
    assert_eq!(get_increment_max_rand_range(&Difficulty::Medium), 250);
    assert_eq!(get_increment_max_rand_range(&Difficulty::Hard), 2500);
}

#[test]
fn guess_budget_of_each_level() {
    assert_eq!(get_max_authorized_guesses(&Difficulty::Easy), 0);
    assert_eq!(get_max_authorized_guesses(&Difficulty::Medium), 20);
    assert_eq!(get_max_authorized_guesses(&Difficulty::Hard), 10);
}

#[test]
fn easy_budget_is_the_unlimited_sentinel() {
    assert_eq!(INFINITE_GUESSES, 0);
    assert_eq!(get_max_authorized_guesses(&Difficulty::Easy), INFINITE_GUESSES);
}

#[test]
fn score_multiplier_of_each_level() {
    assert_eq!(get_multiplier(&Difficulty::Easy), 1);
    assert_eq!(get_multiplier(&Difficulty::Medium), 2);
    assert_eq!(get_multiplier(&Difficulty::Hard), 4);
}

#[test]
fn score_constants() {
    assert_eq!(SCORE_PER_GUESS_POINT, 100);
    assert_eq!(MEDIUM_MULTIPLIER, 2);
    assert_eq!(HARD_MULTIPLIER, 4);
}

#[test]
fn display_name_of_each_level() {
    assert_eq!(get_difficulty_name(&Difficulty::Easy), "Easy");
    assert_eq!(get_difficulty_name(&Difficulty::Medium), "Medium");
    assert_eq!(get_difficulty_name(&Difficulty::Hard), "Hard");
}

#[test]
fn selected_tag_marks_the_chosen_level_only() {
    let levels = [Difficulty::Easy, Difficulty::Medium, Difficulty::Hard];
    for selected in levels.iter() {
        for level in levels.iter() {
            let expected = if selected == level { "(selected)" } else { "" };
            assert_eq!(get_selected_tag(selected, level), expected);
        }
    }
}

#[test]
fn levels_compare_by_value() {
    assert_eq!(Difficulty::Medium, Difficulty::Medium);
    assert_ne!(Difficulty::Easy, Difficulty::Hard);
    let copy = Difficulty::Hard;
    assert_eq!(copy.clone(), Difficulty::Hard);
}
