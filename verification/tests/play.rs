use guess_game::difficulty::Difficulty;
use guess_game::play::{PlayPhase, PlaySession, Reply};
use guess_game::session::{Hint, RoundStatus};
use guess_game::settings::GameSettings;

fn settings(game_difficulty: Difficulty, guess_difficulty: Difficulty) -> GameSettings {
    GameSettings { game_difficulty, guess_difficulty }
}

#[test]
fn easy_range_grows_from_100_to_125_to_150() {
    let mut play = PlaySession::with_secret(GameSettings::new(), 60);
    assert_eq!(play.current_max_rand_range(), 100);
    assert_eq!(play.round().max_rand_range(), 100);
    assert_eq!(play.handle_line_with("60\n", 1), Reply::RoundOver(Hint::Correct));
    assert_eq!(play.next_max_rand_range(), 125);
    assert_eq!(play.handle_line_with("\n", 125), Reply::Silent);
    assert_eq!(play.current_max_rand_range(), 125);
    assert_eq!(play.round().max_rand_range(), 125);
    assert_eq!(play.round().secret(), 125);
    assert_eq!(play.round_index(), 1);
    assert_eq!(play.handle_line_with("125\n", 1), Reply::RoundOver(Hint::Correct));
    assert_eq!(play.handle_line_with("y\n", 150), Reply::Silent);
    assert_eq!(play.current_max_rand_range(), 150);
    assert_eq!(play.round().secret(), 150);
    assert_eq!(play.round_index(), 2);
}

#[test]
fn drawn_secrets_follow_the_growing_range() {
    let mut play = PlaySession::start(GameSettings::new());
    let mut beyond_first_range = false;
    for round in 0..300u32 {
        let range = 100 + 25 * round;
        let secret = play.round().secret();
        assert_eq!(play.current_max_rand_range(), range);
        assert!(1 <= secret && secret <= range);
        if secret > 100 {
            beyond_first_range = true;
        }
        let line = format!("{}\n", secret);
        assert_eq!(play.handle_line(&line), Reply::RoundOver(Hint::Correct));
        assert_eq!(play.handle_line("\n"), Reply::Silent);
    }
    assert!(beyond_first_range);
}

#[test]
fn medium_and_hard_ranges_grow_by_their_own_increment() {
    let mut play = PlaySession::with_secret(settings(Difficulty::Medium, Difficulty::Easy), 1);
    assert_eq!(play.current_max_rand_range(), 1000);
    play.handle_line_with("1", 1);
    play.handle_line_with("", 1);
    assert_eq!(play.current_max_rand_range(), 1250);

    let mut play = PlaySession::with_secret(settings(Difficulty::Hard, Difficulty::Easy), 1);
    assert_eq!(play.current_max_rand_range(), 10000);
    play.handle_line_with("1", 1);
    play.handle_line_with("", 1);
    assert_eq!(play.current_max_rand_range(), 12500);
}

#[test]
fn session_starts_without_points_on_the_default_range() {
    let play = PlaySession::with_secret(settings(Difficulty::Hard, Difficulty::Medium), 9999);
    assert_eq!(play.score(), 0);
    assert_eq!(play.last_round_score(), 0);
    assert_eq!(play.round_index(), 0);
    assert_eq!(play.phase(), PlayPhase::Guessing);
    assert_eq!(play.current_max_rand_range(), 10000);
    assert_eq!(play.round().max_guesses(), 20);
    assert_eq!(play.round().guess_count(), 0);
    assert_eq!(play.round().secret(), 9999);
    assert_eq!(play.settings(), settings(Difficulty::Hard, Difficulty::Medium));
}

#[test]
fn won_round_adds_its_score_to_the_total() {
    let mut play = PlaySession::with_secret(settings(Difficulty::Medium, Difficulty::Medium), 500);
    assert_eq!(play.handle_line_with("1\n", 1), Reply::Hint(Hint::TooSmall));
    assert_eq!(play.handle_line_with("1000\n", 1), Reply::Hint(Hint::TooBig));
    assert_eq!(play.handle_line_with("nope\n", 1), Reply::InvalidNumber);
    assert_eq!(play.handle_line_with("400\n", 1), Reply::Hint(Hint::TooSmall));
    assert_eq!(play.handle_line_with("600\n", 1), Reply::Hint(Hint::TooBig));
    assert_eq!(play.score(), 0);
    assert_eq!(play.handle_line_with("500\n", 1), Reply::RoundOver(Hint::Correct));
    assert_eq!(play.phase(), PlayPhase::ReplayPrompt);
    assert_eq!(play.round().status(), RoundStatus::Won);
    assert_eq!(play.round().guess_count(), 5);
    assert_eq!(play.last_round_score(), 3000);
    assert_eq!(play.score(), 3000);

    assert_eq!(play.handle_line_with("yes\n", 7), Reply::Silent);
    assert_eq!(play.phase(), PlayPhase::Guessing);
    assert_eq!(play.score(), 3000);
    assert_eq!(play.round().guess_count(), 0);
    assert_eq!(play.handle_line_with("7\n", 1), Reply::RoundOver(Hint::Correct));
    assert_eq!(play.last_round_score(), 19 * 100 * 2);
    assert_eq!(play.score(), 3000 + 3800);
}

#[test]
fn lost_round_scores_zero() {
    let mut play = PlaySession::with_secret(settings(Difficulty::Hard, Difficulty::Hard), 5000);
    for _ in 0..9 {
        assert_eq!(play.handle_line_with("1\n", 1), Reply::Hint(Hint::TooSmall));
    }
    assert_eq!(play.handle_line_with("10000\n", 1), Reply::RoundOver(Hint::TooBig));
    assert_eq!(play.round().status(), RoundStatus::Lost);
    assert_eq!(play.round().guess_count(), 10);
    assert_eq!(play.last_round_score(), 0);
    assert_eq!(play.score(), 0);
    assert_eq!(play.phase(), PlayPhase::ReplayPrompt);
}

#[test]
fn win_with_the_last_guess_scores_zero_too() {
    let mut play = PlaySession::with_secret(settings(Difficulty::Hard, Difficulty::Hard), 5000);
    for _ in 0..9 {
        play.handle_line_with("1\n", 1);
    }
    assert_eq!(play.handle_line_with("5000\n", 1), Reply::RoundOver(Hint::Correct));
    assert_eq!(play.round().status(), RoundStatus::Won);
    assert_eq!(play.last_round_score(), 0);
    assert_eq!(play.score(), 0);
}

#[test]
fn easy_guessing_scores_a_flat_100_each_round() {
    let mut play = PlaySession::with_secret(settings(Difficulty::Hard, Difficulty::Easy), 3);
    for _ in 0..50 {
        assert_eq!(play.handle_line_with("2\n", 1), Reply::Hint(Hint::TooSmall));
    }
    assert_eq!(play.handle_line_with("3\n", 1), Reply::RoundOver(Hint::Correct));
    assert_eq!(play.score(), 100);
    assert_eq!(play.handle_line_with("\n", 8), Reply::Silent);
    assert_eq!(play.handle_line_with("8\n", 1), Reply::RoundOver(Hint::Correct));
    assert_eq!(play.last_round_score(), 100);
    assert_eq!(play.score(), 200);
}

#[test]
fn only_a_plain_n_ends_the_session() {
    for answer in ["n", "N", "n\n", " N \r\n"] {
        let mut play = PlaySession::with_secret(GameSettings::new(), 1);
        play.handle_line_with("1", 1);
        assert_eq!(play.handle_line_with(answer, 1), Reply::Silent);
        assert_eq!(play.phase(), PlayPhase::Ended);
        assert_eq!(play.score(), 100);
        assert_eq!(play.current_max_rand_range(), 100);
    }
    for answer in ["", "\n", "y", "Y", "no", "nn", "0", "quit"] {
        let mut play = PlaySession::with_secret(GameSettings::new(), 1);
        play.handle_line_with("1", 1);
        assert_eq!(play.handle_line_with(answer, 1), Reply::Silent);
        assert_eq!(play.phase(), PlayPhase::Guessing);
        assert_eq!(play.current_max_rand_range(), 125);
    }
}

#[test]
fn an_ended_session_ignores_what_is_typed() {
    let mut play = PlaySession::with_secret(GameSettings::new(), 1);
    play.handle_line_with("1", 1);
    play.handle_line_with("n", 1);
    for line in ["1", "y", "", "n"] {
        assert_eq!(play.handle_line_with(line, 1), Reply::Silent);
        assert_eq!(play.handle_line(line), Reply::Silent);
        assert_eq!(play.phase(), PlayPhase::Ended);
        assert_eq!(play.score(), 100);
        assert_eq!(play.round_index(), 0);
    }
}

#[test]
fn unreadable_guess_changes_nothing_in_the_session() {
    let mut play = PlaySession::with_secret(settings(Difficulty::Easy, Difficulty::Hard), 50);
    assert_eq!(play.handle_line_with("abc\n", 1), Reply::InvalidNumber);
    assert_eq!(play.round().guess_count(), 0);
    assert_eq!(play.round().guesses_left(), Some(10));
    assert_eq!(play.phase(), PlayPhase::Guessing);
    assert_eq!(play.score(), 0);
}

#[test]
fn a_session_can_take_lines_for_a_long_time() {
    let mut play = PlaySession::with_secret(settings(Difficulty::Hard, Difficulty::Hard), 1);
    for _ in 0..1000 {
        assert!(play.can_take("1"));
        play.handle_line_with("1", 1);
        assert!(play.can_take(""));
        play.handle_line_with("", 1);
    }
    assert_eq!(play.current_max_rand_range(), 10000 + 1000 * 2500);
    assert_eq!(play.score(), 1000 * 3600);
}

#[test]
fn the_range_stops_growing_at_the_limit_of_u32() {
    let mut play = PlaySession::with_secret(settings(Difficulty::Hard, Difficulty::Easy), 1);
    let mut rounds: u32 = 0;
    loop {
        assert_eq!(play.handle_line_with("1", 1), Reply::RoundOver(Hint::Correct));
        if !play.can_take("") {
            break;
        }
        assert_eq!(play.handle_line_with("", 1), Reply::Silent);
        rounds += 1;
    }
    assert_eq!(rounds, (u32::MAX - 10000) / 2500);
    assert_eq!(play.current_max_rand_range(), 10000 + rounds * 2500);
    assert!(play.current_max_rand_range() > u32::MAX - 2500);
    assert_eq!(play.score(), 100 * (rounds as u64 + 1));
    assert!(play.can_take("n"));
    assert!(play.can_take(" N\n"));
    assert!(!play.can_take("y"));
    assert_eq!(play.handle_line_with("n", 1), Reply::Silent);
    assert_eq!(play.phase(), PlayPhase::Ended);
}
