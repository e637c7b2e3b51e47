//! One round: a secret number, and guesses until it is found or the budget
//! is spent.

use vstd::prelude::*;
use rand::Rng;
use crate::difficulty::INFINITE_GUESSES;
use crate::input::{parse_line, parse_number};

verus! {

/// Where a round stands.
#[derive(Clone, Copy, Debug, PartialEq, Eq, Structural)]
pub enum RoundStatus {
    /// The round goes on: the next guess is wanted.
    AwaitingGuess,
    /// The secret number was guessed.
    Won,
    /// The guess budget is spent and the secret number was not found.
    Lost,
}

/// How a guess compares with the secret number.
#[derive(Clone, Copy, Debug, PartialEq, Eq, Structural)]
pub enum Hint {
    /// The guess is below the secret number.
    TooSmall,
    /// The guess is above the secret number.
    TooBig,
    /// The guess is the secret number.
    Correct,
}

/// The state of a round as mathematics sees it.
pub struct RoundState {
    /// The number to find.
    pub secret: nat,
    /// The secret number lies in `1..=max_range`.
    pub max_range: nat,
    /// The number of guesses allowed; `0` allows any number.
    pub budget: nat,
    /// The number of guesses made so far.
    pub guess_count: nat,
    /// Whether one of the guesses made was the secret number.
    pub won: bool,
}

impl RoundState {
    /// A round in which no guess was made yet.
    pub open spec fn start(secret: nat, budget: nat, max_range: nat) -> RoundState {
        RoundState { secret, max_range, budget, guess_count: 0, won: false }
    }

    /// The states that a round can be in: the secret number lies in its
    /// range, a budget that is set is never exceeded, and a round is won by
    /// a guess.
    pub open spec fn wf(self) -> bool {
        &&& 1 <= self.secret <= self.max_range
        &&& self.budget > 0 ==> self.guess_count <= self.budget
        &&& self.won ==> self.guess_count >= 1
    }

    /// Whether the round has a guess budget.
    pub open spec fn has_budget(self) -> bool {
        self.budget > 0
    }

    /// Where the round stands. A round is lost once the budget is spent, and
    /// that is seen before another guess is asked for.
    pub open spec fn status(self) -> RoundStatus {
        if self.won {
            RoundStatus::Won
        } else if self.has_budget() && self.guess_count >= self.budget {
            RoundStatus::Lost
        } else {
            RoundStatus::AwaitingGuess
        }
    }

    /// The guesses that are left of the budget, `None` where there is no
    /// budget.
    pub open spec fn guesses_left(self) -> Option<nat> {
        if self.has_budget() {
            Some((self.budget - self.guess_count) as nat)
        } else {
            None
        }
    }

    /// Whether the next guess can be counted in a `u32`. Only a round
    /// without a budget can ever come to the point where it cannot.
    pub open spec fn can_count(self) -> bool {
        self.status() is AwaitingGuess ==> self.guess_count < u32::MAX
    }

    /// How `guess` compares with the secret number.
    pub open spec fn hint(self, guess: nat) -> Hint {
        if guess < self.secret {
            Hint::TooSmall
        } else if guess > self.secret {
            Hint::TooBig
        } else {
            Hint::Correct
        }
    }

    /// The round after `guess` was made. While a guess is awaited, every
    /// guess counts and the right one wins the round; a round that is over
    /// stays as it is.
    pub open spec fn guess(self, guess: nat) -> RoundState {
        if self.status() is AwaitingGuess {
            RoundState { guess_count: self.guess_count + 1, won: guess == self.secret, ..self }
        } else {
            self
        }
    }

    /// The round after the player typed `line`: a line that holds a number
    /// is a guess, any other line changes nothing.
    pub open spec fn line(self, line: Seq<char>) -> RoundState {
        match parse_line(line) {
            Some(number) => self.guess(number as nat),
            None => self,
        }
    }

    /// The round after the guesses of `guesses` were made in turn.
    pub open spec fn guesses(self, guesses: Seq<nat>) -> RoundState
        decreases guesses.len(),
    {
        if guesses.len() == 0 {
            self
        } else {
            self.guesses(guesses.drop_last()).guess(guesses.last())
        }
    }
}

/// A round in progress.
#[derive(Clone, Copy, Debug)]
pub struct GuessSession {
    secret: u32,
    max_rand_range: u32,
    max_guesses: u32,
    guess_count: u32,
    won: bool,
}

impl View for GuessSession {
    type V = RoundState;

    closed spec fn view(&self) -> RoundState {
        RoundState {
            secret: self.secret as nat,
            max_range: self.max_rand_range as nat,
            budget: self.max_guesses as nat,
            guess_count: self.guess_count as nat,
            won: self.won,
        }
    }
}

/// Whether `max_guesses` sets a guess budget.
pub fn has_max_guess_defined(max_guesses: u32) -> (defined: bool)
    ensures
        defined == (max_guesses != INFINITE_GUESSES),
{
    max_guesses > INFINITE_GUESSES
}

/// Whether a budget of `max_guesses` guesses is spent after
/// `current_guess_count` of them.
pub fn has_reached_max_guess(max_guesses: u32, current_guess_count: u32) -> (reached: bool)
    requires
        current_guess_count <= max_guesses,
    ensures
        reached == (current_guess_count == max_guesses),
{
    max_guesses - current_guess_count <= 0
}

/// Draws the secret number of a round: `Rng::gen_range` of the crate `rand`,
/// on the generator that `rand::thread_rng()` hands out, over
/// `1..=max_rand_range`.
///
/// Believed of that call, not proved: the number it returns lies in the range
/// it was given. Which number comes is left open, so two draws may differ.
/// `gen_range` panics on an empty range, which `max_rand_range >= 1` rules
/// out; `thread_rng` panics where the system has no randomness to seed it
/// with, which nothing here can rule out.
#[verifier::external_body]
pub(crate) fn generate_secret_number(max_rand_range: u32) -> (secret: u32)
    requires
        max_rand_range >= 1,
    ensures
        1 <= secret <= max_rand_range,
{
    rand::thread_rng().gen_range(1..=max_rand_range)
}

/// Starts a round with a secret number drawn at random from
/// `1..=max_rand_range`. A budget of `0` allows any number of guesses.
pub fn start_guess_game(max_guesses: u32, max_rand_range: u32) -> (session: GuessSession)
    requires
        max_rand_range >= 1,
    ensures
        session@ == RoundState::start(session@.secret, max_guesses as nat, max_rand_range as nat),
        1 <= session@.secret <= max_rand_range,
        session@.wf(),
        session@.status() is AwaitingGuess,
{
    let secret_number = generate_secret_number(max_rand_range);
    GuessSession::new(secret_number, max_guesses, max_rand_range)
}

impl GuessSession {
    #[verifier::type_invariant]
    spec fn inv(self) -> bool {
        self@.wf()
    }

    /// A round with a secret number that the caller chose, before the first
    /// guess.
    pub fn new(secret: u32, max_guesses: u32, max_rand_range: u32) -> (session: GuessSession)
        requires
            1 <= secret <= max_rand_range,
        ensures
            session@ == RoundState::start(secret as nat, max_guesses as nat, max_rand_range as nat),
            session@.wf(),
            session@.status() is AwaitingGuess,
    {
        GuessSession { secret, max_rand_range, max_guesses, guess_count: 0, won: false }
    }

    /// The number to find.
    pub fn secret(&self) -> (secret: u32)
        ensures
            secret == self@.secret,
    {
        self.secret
    }

    /// The number of guesses allowed, `0` for any number.
    pub fn max_guesses(&self) -> (budget: u32)
        ensures
            budget == self@.budget,
    {
        self.max_guesses
    }

    /// The upper bound of the range that the secret number was drawn from.
    pub fn max_rand_range(&self) -> (range: u32)
        ensures
            range == self@.max_range,
    {
        self.max_rand_range
    }

    /// The number of guesses made so far.
    pub fn guess_count(&self) -> (count: u32)
        ensures
            count == self@.guess_count,
            self@.wf(),
    {
        proof {
            use_type_invariant(self);
        }
        self.guess_count
    }

    /// Where the round stands.
    pub fn status(&self) -> (status: RoundStatus)
        ensures
            status == self@.status(),
            self@.wf(),
    {
        proof {
            use_type_invariant(self);
        }
        if self.won {
            RoundStatus::Won
        } else if has_max_guess_defined(self.max_guesses) && has_reached_max_guess(
            self.max_guesses,
            self.guess_count,
        ) {
            RoundStatus::Lost
        } else {
            RoundStatus::AwaitingGuess
        }
    }

    /// The guesses left of the budget, `None` where there is no budget.
    pub fn guesses_left(&self) -> (left: Option<u32>)
        ensures
            left.is_some() == self@.has_budget(),
            self@.guesses_left() == match left {
                Some(count) => Some(count as nat),
                None => None,
            },
    {
        proof {
            use_type_invariant(self);
        }
        if has_max_guess_defined(self.max_guesses) {
            Some(self.max_guesses - self.guess_count)
        } else {
            None
        }
    }

    /// Makes a guess: while the round awaits one, the guess is counted and
    /// the right one wins the round; a round that is over stays as it is.
    /// Either way the guess is compared with the secret number.
    ///
    /// The count of guesses is a `u32`. A budget keeps it below the limit of
    /// that type; without a budget the caller does.
    pub fn submit_guess(&mut self, guess: u32) -> (hint: Hint)
        requires
            old(self)@.can_count(),
        ensures
            final(self)@ == old(self)@.guess(guess as nat),
            hint == old(self)@.hint(guess as nat),
            final(self)@.wf(),
    {
        proof {
            use_type_invariant(&*self);
        }
        if self.status() == RoundStatus::AwaitingGuess {
            *self = GuessSession {
                secret: self.secret,
                max_rand_range: self.max_rand_range,
                max_guesses: self.max_guesses,
                guess_count: self.guess_count + 1,
                won: guess == self.secret,
            };
        }
        if guess < self.secret {
            Hint::TooSmall
        } else if guess > self.secret {
            Hint::TooBig
        } else {
            Hint::Correct
        }
    }

    /// Takes a line that the player typed. A line that holds a number is a
    /// guess, and the hint for it comes back. Any other line is free:
    /// nothing is counted, and `None` comes back.
    pub fn submit_line(&mut self, line: &str) -> (hint: Option<Hint>)
        requires
            parse_line(line@) is Some ==> old(self)@.can_count(),
        ensures
            final(self)@ == old(self)@.line(line@),
            hint == match parse_line(line@) {
                Some(number) => Some(old(self)@.hint(number as nat)),
                None => None,
            },
            parse_line(line@) is None ==> final(self)@ == old(self)@,
            final(self)@.wf(),
    {
        proof {
            use_type_invariant(&*self);
        }
        match parse_number(line) {
            Some(number) => Some(self.submit_guess(number)),
            None => None,
        }
    }
}

/// A budget that is set is never exceeded: a guess leaves a round in one of
/// the states that a round can be in.
pub proof fn lemma_guess_keeps_wf(round: RoundState, guess: nat)
    requires
        round.wf(),
    ensures
        round.guess(guess).wf(),
        round.guess(guess).has_budget() ==> round.guess(guess).guess_count <= round.budget,
{
}

/// The same of any number of guesses made in turn.
pub proof fn lemma_guesses_keep_wf(round: RoundState, guesses: Seq<nat>)
    requires
        round.wf(),
    ensures
        round.guesses(guesses).wf(),
        round.guesses(guesses).budget == round.budget,
        round.guesses(guesses).secret == round.secret,
        round.guesses(guesses).max_range == round.max_range,
    decreases guesses.len(),
{
    if guesses.len() > 0 {
        lemma_guesses_keep_wf(round, guesses.drop_last());
    }
}

/// A round is lost with the whole budget spent and no guess beyond it.
pub proof fn lemma_lost_means_budget_spent(round: RoundState)
    requires
        round.wf(),
        round.status() is Lost,
    ensures
        round.has_budget(),
        round.guess_count == round.budget,
        !round.won,
{
}

/// A round that is over takes no further guess: whatever is guessed then,
/// nothing is counted and the outcome stands.
pub proof fn lemma_round_over_stays(round: RoundState, guess: nat)
    requires
        !(round.status() is AwaitingGuess),
    ensures
        round.guess(guess) == round,
{
}

/// The secret number wins the round on the spot, as long as a guess is
/// awaited.
pub proof fn lemma_secret_wins(round: RoundState)
    requires
        round.status() is AwaitingGuess,
    ensures
        round.guess(round.secret).status() is Won,
        round.guess(round.secret).guess_count == round.guess_count + 1,
{
}

/// A line that holds no number is free: the round stays as it is, so the
/// line neither counts as a guess nor uses up the budget.
pub proof fn lemma_invalid_line_is_free(round: RoundState, line: Seq<char>)
    requires
        parse_line(line) is None,
    ensures
        round.line(line) == round,
{
}

/// Wrong guesses are counted one by one until the budget is spent: after
/// `guesses`, none of them the secret number, a fresh round with a budget
/// has counted as many guesses as fit in the budget. It is lost exactly when
/// that is the whole budget, and awaits a guess before.
pub proof fn lemma_wrong_guesses_spend_budget(secret: nat, budget: nat, max_range: nat, guesses: Seq<nat>)
    requires
        budget > 0,
        forall|i: int| 0 <= i < guesses.len() ==> guesses[i] != secret,
    ensures
        ({
            let round = RoundState::start(secret, budget, max_range).guesses(guesses);
            &&& round.secret == secret
            &&& round.budget == budget
            &&& !round.won
            &&& round.guess_count == if guesses.len() <= budget {
                guesses.len()
            } else {
                budget
            }
            &&& round.status() is Lost <==> guesses.len() >= budget
            &&& round.status() is AwaitingGuess <==> guesses.len() < budget
        }),
    decreases guesses.len(),
{
    if guesses.len() > 0 {
        let earlier = guesses.drop_last();
        assert forall|i: int| 0 <= i < earlier.len() implies earlier[i] != secret by {
            assert(earlier[i] == guesses[i]);
        }
        lemma_wrong_guesses_spend_budget(secret, budget, max_range, earlier);
        assert(guesses.last() == guesses[guesses.len() - 1]);
    }
}

/// Without a budget a round is never lost: wrong guesses are counted
/// without end and the round goes on awaiting the next.
pub proof fn lemma_no_budget_never_loses(secret: nat, max_range: nat, guesses: Seq<nat>)
    requires
        forall|i: int| 0 <= i < guesses.len() ==> guesses[i] != secret,
    ensures
        ({
            let round = RoundState::start(secret, 0, max_range).guesses(guesses);
            &&& round.secret == secret
            &&& round.budget == 0
            &&& round.status() is AwaitingGuess
            &&& round.guess_count == guesses.len()
        }),
    decreases guesses.len(),
{
    if guesses.len() > 0 {
        let earlier = guesses.drop_last();
        assert forall|i: int| 0 <= i < earlier.len() implies earlier[i] != secret by {
            assert(earlier[i] == guesses[i]);
        }
        lemma_no_budget_never_loses(secret, max_range, earlier);
        assert(guesses.last() == guesses[guesses.len() - 1]);
    }
}

} // verus!
