//! A play session: round after round on a range that grows, with a running
//! score, from the moment the player chooses to play until they decline
//! another round.

use vstd::prelude::*;
use crate::difficulty::{
    Difficulty, default_range, get_default_max_rand_range, get_increment_max_rand_range,
    get_max_authorized_guesses, guess_budget, range_increment,
};
use crate::input::{is_no, parse_line, parse_number, says_no};
use crate::score::{compute_score, lemma_table_score_bounded, max_table_score, round_score};
use crate::session::{GuessSession, Hint, RoundState, RoundStatus, generate_secret_number};
use crate::settings::GameSettings;

verus! {

/// What the game has to say about a line that the player typed, beyond
/// showing the screen that it is on afterwards.
#[derive(Clone, Copy, Debug, PartialEq, Eq, Structural)]
pub enum Reply {
    /// Nothing: the line was a move through the menus, or came too late.
    Silent,
    /// The line held a number that is no option of the main menu.
    InvalidOption,
    /// A guess was wanted and the line held no number. Nothing was counted.
    InvalidNumber,
    /// The guess was counted and missed, and the round goes on.
    Hint(Hint),
    /// The guess was counted and ended the round: won where the hint says
    /// that it was correct, lost for want of guesses otherwise.
    RoundOver(Hint),
}

/// What a play session waits for.
#[derive(Clone, Copy, Debug, PartialEq, Eq, Structural)]
pub enum PlayPhase {
    /// A guess in the current round.
    Guessing,
    /// The answer to "play again?" after a round.
    ReplayPrompt,
    /// Nothing: the player declined another round.
    Ended,
}

/// The upper bound of the secret number in the round with index
/// `round_index`, the first round having index 0: the range grows by the
/// increment of the game difficulty with each round.
pub open spec fn range_of_round(game_difficulty: Difficulty, round_index: nat) -> nat {
    default_range(game_difficulty) + round_index * range_increment(game_difficulty)
}

/// Each round the range grows by the increment of the game difficulty, from
/// the default range in the first round.
pub proof fn lemma_range_grows_by_increment(game_difficulty: Difficulty, round_index: nat)
    ensures
        range_of_round(game_difficulty, 0) == default_range(game_difficulty),
        range_of_round(game_difficulty, round_index + 1) == range_of_round(
            game_difficulty,
            round_index,
        ) + range_increment(game_difficulty),
        range_of_round(game_difficulty, round_index) >= 1,
{
    assert((round_index + 1) * range_increment(game_difficulty) == round_index * range_increment(
        game_difficulty,
    ) + range_increment(game_difficulty)) by (nonlinear_arith);
    assert(round_index * range_increment(game_difficulty) >= 0) by (nonlinear_arith);
}

/// The state of a play session as mathematics sees it.
pub struct PlayState {
    /// The settings that the session was started with.
    pub settings: GameSettings,
    /// The index of the current round, which is the number of rounds
    /// completed before it.
    pub round_index: nat,
    /// The points earned in the rounds completed so far.
    pub score: nat,
    /// The points earned in the round completed last, 0 before there is one.
    pub last_round_score: nat,
    /// The current round.
    pub round: RoundState,
    /// What the session waits for.
    pub phase: PlayPhase,
}

impl PlayState {
    /// A session that starts: no points yet, and the first round, on the
    /// default range of the game difficulty, awaits its first guess.
    pub open spec fn start(settings: GameSettings, secret: nat) -> PlayState {
        PlayState {
            settings,
            round_index: 0,
            score: 0,
            last_round_score: 0,
            round: RoundState::start(
                secret,
                guess_budget(settings.guess_difficulty),
                default_range(settings.game_difficulty),
            ),
            phase: PlayPhase::Guessing,
        }
    }

    /// The upper bound of the secret number in the current round.
    pub open spec fn current_max_range(self) -> nat {
        range_of_round(self.settings.game_difficulty, self.round_index)
    }

    /// The upper bound of the secret number in the round after the current
    /// one.
    pub open spec fn next_max_range(self) -> nat {
        range_of_round(self.settings.game_difficulty, self.round_index + 1)
    }

    /// The number of rounds that were played to their end.
    pub open spec fn rounds_completed(self) -> nat {
        if self.phase is Guessing {
            self.round_index
        } else {
            self.round_index + 1
        }
    }

    /// The states that a play session can be in. The current round is a
    /// round of the settings and of the range reached; a guess is awaited
    /// exactly while that round goes on; and no round brought more points
    /// than the difficulty table allows.
    pub open spec fn wf(self) -> bool {
        &&& self.round.wf()
        &&& self.round.budget == guess_budget(self.settings.guess_difficulty)
        &&& self.round.max_range == self.current_max_range()
        &&& self.phase is Guessing <==> self.round.status() is AwaitingGuess
        &&& self.last_round_score <= self.score
        &&& self.score <= self.rounds_completed() * max_table_score()
    }

    /// The session after the player typed `line` while a guess is awaited.
    /// The line goes to the current round. Where it ends the round, the
    /// round is scored, the points are added to the score, and the session
    /// asks whether to play again.
    pub open spec fn guess_line(self, line: Seq<char>) -> PlayState {
        let round = self.round.line(line);
        if round.status() is AwaitingGuess {
            PlayState { round, ..self }
        } else {
            let earned = round_score(round.guess_count, round.budget, self.settings.game_difficulty);
            PlayState {
                round,
                score: self.score + earned,
                last_round_score: earned,
                phase: PlayPhase::ReplayPrompt,
                ..self
            }
        }
    }

    /// Whether `line`, typed in answer to "play again?", starts another
    /// round: every answer does but a plain `n`.
    pub open spec fn starts_round(self, line: Seq<char>) -> bool {
        self.phase is ReplayPrompt && !is_no(line)
    }

    /// The session after the player typed `line` in answer to "play
    /// again?". A plain `n` ends the session. Any other answer starts the
    /// next round, with `next_secret` to find, on a range grown by the
    /// increment of the game difficulty; the score stays.
    pub open spec fn replay_line(self, line: Seq<char>, next_secret: nat) -> PlayState {
        if is_no(line) {
            PlayState { phase: PlayPhase::Ended, ..self }
        } else {
            PlayState {
                round_index: self.round_index + 1,
                round: RoundState::start(next_secret, self.round.budget, self.next_max_range()),
                phase: PlayPhase::Guessing,
                ..self
            }
        }
    }

    /// The session after the player typed `line`. `next_secret` is the
    /// secret number of the round that the line may start.
    pub open spec fn line(self, line: Seq<char>, next_secret: nat) -> PlayState {
        match self.phase {
            PlayPhase::Guessing => self.guess_line(line),
            PlayPhase::ReplayPrompt => self.replay_line(line, next_secret),
            PlayPhase::Ended => self,
        }
    }

    /// What the session has to say about `line`.
    pub open spec fn reply(self, line: Seq<char>) -> Reply {
        match self.phase {
            PlayPhase::Guessing => match parse_line(line) {
                None => Reply::InvalidNumber,
                Some(number) => if self.round.guess(number as nat).status() is AwaitingGuess {
                    Reply::Hint(self.round.hint(number as nat))
                } else {
                    Reply::RoundOver(self.round.hint(number as nat))
                },
            },
            _ => Reply::Silent,
        }
    }

    /// Whether the machine can take `line`: a guess can be counted, and the
    /// range of a round that the line starts fits, in a `u32`.
    pub open spec fn can_take(self, line: Seq<char>) -> bool {
        match self.phase {
            PlayPhase::Guessing => parse_line(line) is Some ==> self.round.can_count(),
            PlayPhase::ReplayPrompt => !is_no(line) ==> self.next_max_range() <= u32::MAX,
            PlayPhase::Ended => true,
        }
    }
}

/// Whatever the player types, a play session stays in one of its states
/// and keeps its settings. So a budget that is set is never exceeded in any
/// round, and each round is played on the range that the rounds before it
/// have led to.
pub proof fn lemma_line_keeps_wf(play: PlayState, line: Seq<char>, next_secret: nat)
    requires
        play.wf(),
        play.starts_round(line) ==> 1 <= next_secret <= play.next_max_range(),
    ensures
        play.line(line, next_secret).wf(),
        play.line(line, next_secret).settings == play.settings,
{
    let game_difficulty = play.settings.game_difficulty;
    lemma_range_grows_by_increment(game_difficulty, play.round_index);
    match play.phase {
        PlayPhase::Guessing => {
            let round = play.round.line(line);
            lemma_table_score_bounded(round.guess_count, play.settings.guess_difficulty, game_difficulty);
            assert((play.round_index + 1) * max_table_score() == play.round_index
                * max_table_score() + max_table_score()) by (nonlinear_arith);
        },
        _ => {},
    }
}

/// The score never drops, and only the end of a round changes it: by the
/// points of that round.
pub proof fn lemma_score_grows_by_round_score(play: PlayState, line: Seq<char>, next_secret: nat)
    requires
        play.wf(),
    ensures
        ({
            let next = play.line(line, next_secret);
            if play.phase is Guessing && next.phase is ReplayPrompt {
                &&& next.score == play.score + next.last_round_score
                &&& next.last_round_score == round_score(
                    next.round.guess_count,
                    guess_budget(play.settings.guess_difficulty),
                    play.settings.game_difficulty,
                )
            } else {
                &&& next.score == play.score
                &&& next.last_round_score == play.last_round_score
            }
        }),
{
}

/// A round that is lost brings no points.
pub proof fn lemma_lost_round_scores_zero(play: PlayState, line: Seq<char>, next_secret: nat)
    requires
        play.wf(),
        play.phase is Guessing,
        play.line(line, next_secret).round.status() is Lost,
    ensures
        play.line(line, next_secret).last_round_score == 0,
        play.line(line, next_secret).score == play.score,
{
}

/// Each round that the player asks for is played on a range that is one
/// increment wider than the round before, and so, in the round with index
/// `k`, on the default range plus `k` increments; the secret number of the
/// round lies in it. The score is carried over.
pub proof fn lemma_next_round_grows_range(play: PlayState, line: Seq<char>, next_secret: nat)
    requires
        play.wf(),
        play.starts_round(line),
        1 <= next_secret <= play.next_max_range(),
    ensures
        ({
            let next = play.line(line, next_secret);
            &&& next.phase is Guessing
            &&& next.round_index == play.round_index + 1
            &&& next.round == RoundState::start(
                next_secret,
                guess_budget(play.settings.guess_difficulty),
                play.round.max_range + range_increment(play.settings.game_difficulty),
            )
            &&& next.round.max_range == default_range(play.settings.game_difficulty)
                + next.round_index * range_increment(play.settings.game_difficulty)
            &&& 1 <= next.round.secret <= next.round.max_range
            &&& next.score == play.score
        }),
{
    lemma_range_grows_by_increment(play.settings.game_difficulty, play.round_index);
}

/// What the reply to a line tells while a guess is awaited. A line without
/// a number changes nothing. Any other line is one more guess, and the
/// reply says how it compares with the secret number: a round that goes on
/// was not guessed right, and a round that is over was won by the right
/// guess and lost by a wrong one.
pub proof fn lemma_reply_tells_outcome(play: PlayState, line: Seq<char>, next_secret: nat)
    requires
        play.wf(),
        play.phase is Guessing,
    ensures
        ({
            let next = play.line(line, next_secret);
            match play.reply(line) {
                Reply::InvalidNumber => parse_line(line) is None && next == play,
                Reply::Hint(hint) => {
                    &&& !(hint is Correct)
                    &&& next.phase is Guessing
                    &&& next.round.guess_count == play.round.guess_count + 1
                },
                Reply::RoundOver(hint) => {
                    &&& next.phase is ReplayPrompt
                    &&& next.round.guess_count == play.round.guess_count + 1
                    &&& hint is Correct <==> next.round.status() is Won
                    &&& !(hint is Correct) <==> next.round.status() is Lost
                },
                _ => false,
            }
        }),
{
}

/// Only a plain `n` ends a play session, and only when the session asks
/// whether to play again.
pub proof fn lemma_only_no_ends_session(play: PlayState, line: Seq<char>, next_secret: nat)
    requires
        !(play.phase is Ended),
    ensures
        play.line(line, next_secret).phase is Ended <==> play.phase is ReplayPrompt && is_no(line),
{
}

/// A play session.
#[derive(Clone, Copy, Debug)]
pub struct PlaySession {
    settings: GameSettings,
    round_index: u32,
    score: u64,
    last_round_score: u64,
    round: GuessSession,
    phase: PlayPhase,
}

impl View for PlaySession {
    type V = PlayState;

    closed spec fn view(&self) -> PlayState {
        PlayState {
            settings: self.settings,
            round_index: self.round_index as nat,
            score: self.score as nat,
            last_round_score: self.last_round_score as nat,
            round: self.round@,
            phase: self.phase,
        }
    }
}

impl PlaySession {
    #[verifier::type_invariant]
    spec fn inv(self) -> bool {
        self@.wf()
    }

    /// Starts a play session on `settings` with a first round whose secret
    /// number the caller chose.
    pub fn with_secret(settings: GameSettings, secret: u32) -> (session: PlaySession)
        requires
            1 <= secret <= default_range(settings.game_difficulty),
        ensures
            session@ == PlayState::start(settings, secret as nat),
            session@.wf(),
    {
        let round = GuessSession::new(
            secret,
            get_max_authorized_guesses(&settings.guess_difficulty),
            get_default_max_rand_range(&settings.game_difficulty),
        );
        PlaySession {
            settings,
            round_index: 0,
            score: 0,
            last_round_score: 0,
            round,
            phase: PlayPhase::Guessing,
        }
    }

    /// Starts a play session on `settings` with a first round whose secret
    /// number is drawn at random from the default range of the game
    /// difficulty.
    pub fn start(settings: GameSettings) -> (session: PlaySession)
        ensures
            session@ == PlayState::start(settings, session@.round.secret),
            1 <= session@.round.secret <= default_range(settings.game_difficulty),
            session@.wf(),
    {
        let secret = generate_secret_number(get_default_max_rand_range(&settings.game_difficulty));
        PlaySession::with_secret(settings, secret)
    }

    /// The settings that the session was started with.
    pub fn settings(&self) -> (settings: GameSettings)
        ensures
            settings == self@.settings,
    {
        self.settings
    }

    /// What the session waits for.
    pub fn phase(&self) -> (phase: PlayPhase)
        ensures
            phase == self@.phase,
            self@.wf(),
    {
        proof {
            use_type_invariant(self);
        }
        self.phase
    }

    /// The current round.
    pub fn round(&self) -> (round: &GuessSession)
        ensures
            round@ == self@.round,
    {
        &self.round
    }

    /// The index of the current round, counted from 0.
    pub fn round_index(&self) -> (index: u32)
        ensures
            index == self@.round_index,
    {
        self.round_index
    }

    /// The points earned in the rounds completed so far.
    pub fn score(&self) -> (score: u64)
        ensures
            score == self@.score,
    {
        self.score
    }

    /// The points earned in the round completed last.
    pub fn last_round_score(&self) -> (score: u64)
        ensures
            score == self@.last_round_score,
            score <= self@.score,
    {
        proof {
            use_type_invariant(self);
        }
        self.last_round_score
    }

    /// The upper bound of the secret number in the current round.
    pub fn current_max_rand_range(&self) -> (range: u32)
        ensures
            range == self@.current_max_range(),
    {
        proof {
            use_type_invariant(self);
        }
        self.round.max_rand_range()
    }

    /// The upper bound of the secret number in the round after the current
    /// one.
    pub fn next_max_rand_range(&self) -> (range: u32)
        requires
            self@.next_max_range() <= u32::MAX,
        ensures
            range == self@.next_max_range(),
    {
        proof {
            use_type_invariant(self);
            lemma_range_grows_by_increment(self@.settings.game_difficulty, self@.round_index);
        }
        self.round.max_rand_range() + get_increment_max_rand_range(&self.settings.game_difficulty)
    }

    /// Whether the session can take `line` within the limits of the machine.
    pub fn can_take(&self, line: &str) -> (fits: bool)
        ensures
            fits == self@.can_take(line@),
    {
        proof {
            use_type_invariant(self);
            lemma_range_grows_by_increment(self@.settings.game_difficulty, self@.round_index);
        }
        match self.phase {
            PlayPhase::Guessing => parse_number(line).is_none() || self.round.guess_count()
                < u32::MAX,
            PlayPhase::ReplayPrompt => {
                let increment = get_increment_max_rand_range(&self.settings.game_difficulty);
                says_no(line) || self.round.max_rand_range() <= u32::MAX - increment
            },
            PlayPhase::Ended => true,
        }
    }

    /// Takes a line that the player typed and moves the session on.
    /// `next_secret` is the secret number of the round that the line may
    /// start.
    pub fn handle_line_with(&mut self, line: &str, next_secret: u32) -> (reply: Reply)
        requires
            old(self)@.can_take(line@),
            old(self)@.starts_round(line@) ==> 1 <= next_secret <= old(self)@.next_max_range(),
        ensures
            final(self)@ == old(self)@.line(line@, next_secret as nat),
            reply == old(self)@.reply(line@),
            final(self)@.wf(),
    {
        proof {
            use_type_invariant(&*self);
        }
        match self.phase {
            PlayPhase::Guessing => {
                let mut round = self.round;
                match round.submit_line(line) {
                    None => Reply::InvalidNumber,
                    Some(hint) => {
                        if round.status() == RoundStatus::AwaitingGuess {
                            *self = PlaySession { round, ..*self };
                            Reply::Hint(hint)
                        } else {
                            let earned = compute_score(
                                round.guess_count(),
                                round.max_guesses(),
                                &self.settings.game_difficulty,
                            );
                            proof {
                                lemma_table_score_bounded(
                                    round@.guess_count,
                                    self.settings.guess_difficulty,
                                    self.settings.game_difficulty,
                                );
                                assert((self.round_index + 1) * max_table_score()
                                    == self.round_index * max_table_score() + max_table_score())
                                    by (nonlinear_arith);
                            }
                            *self = PlaySession {
                                round,
                                score: self.score + earned,
                                last_round_score: earned,
                                phase: PlayPhase::ReplayPrompt,
                                ..*self
                            };
                            Reply::RoundOver(hint)
                        }
                    },
                }
            },
            PlayPhase::ReplayPrompt => {
                if says_no(line) {
                    *self = PlaySession { phase: PlayPhase::Ended, ..*self };
                } else {
                    let round = GuessSession::new(
                        next_secret,
                        self.round.max_guesses(),
                        self.next_max_rand_range(),
                    );
                    assert(self.round_index + 1 <= u32::MAX) by (nonlinear_arith)
                        requires
                            (self.round_index + 1) * range_increment(self.settings.game_difficulty)
                                <= u32::MAX,
                            range_increment(self.settings.game_difficulty) >= 1,
                    ;
                    *self = PlaySession {
                        round_index: self.round_index + 1,
                        round,
                        phase: PlayPhase::Guessing,
                        ..*self
                    };
                }
                Reply::Silent
            },
            PlayPhase::Ended => Reply::Silent,
        }
    }

    /// Takes a line that the player typed and moves the session on. Where
    /// the line starts another round, the secret number of that round is
    /// drawn at random from its range.
    pub fn handle_line(&mut self, line: &str) -> (reply: Reply)
        requires
            old(self)@.can_take(line@),
        ensures
            final(self)@ == old(self)@.line(line@, final(self)@.round.secret),
            old(self)@.starts_round(line@) ==> 1 <= final(self)@.round.secret <= old(
                self,
            )@.next_max_range(),
            reply == old(self)@.reply(line@),
            final(self)@.wf(),
    {
        proof {
            use_type_invariant(&*self);
        }
        let next_secret = if self.phase == PlayPhase::ReplayPrompt && !says_no(line) {
            generate_secret_number(self.next_max_rand_range())
        } else {
            self.round.secret()
        };
        self.handle_line_with(line, next_secret)
    }
}

} // verus!
