//! The guessing session.
//!
//! A session owns a secret number and, in bounded mode, a count of attempts
//! that are left. It is driven one round at a time: [`GuessingSession::next_prompt`]
//! says whether another guess is wanted, and [`GuessingSession::submit_line`]
//! takes the line that was read in answer. The session never reads or prints
//! anything itself.
//!
//! Every contract is stated over [`SessionView`], the mathematical model of a
//! session, and the functions on it that say what one round does.

use crate::input::{chars_of, parse_unsigned, parsed_unsigned, trim_bounds, trimmed, ParseError};
use crate::random::random_in_range;
use vstd::prelude::*;

verus! {

/// The number of guesses that a bounded session allows.
pub const MAX_ATTEMPTS: u32 = 5;

/// The smallest secret.
pub const SECRET_MIN: u32 = 1;

/// The largest secret.
pub const SECRET_MAX: u32 = 100;

/// Whether the number of guesses is limited.
#[derive(Clone, Copy, Debug, PartialEq, Eq, Structural)]
pub enum Mode {
    /// At most [`MAX_ATTEMPTS`] guesses.
    Bounded,
    /// As many guesses as it takes.
    Unbounded,
}

/// Whether the answer to the mode question asks for the bounded game: its
/// trimmed text is the single letter `c`, in either case.
pub open spec fn asks_for_bounded(answer: Seq<char>) -> bool {
    let t = trimmed(answer);
    t.len() == 1 && (t[0] == 'c' || t[0] == 'C')
}

impl Mode {
    /// The mode that an answer to the mode question selects.
    pub open spec fn selected_by(answer: Seq<char>) -> Mode {
        if asks_for_bounded(answer) {
            Mode::Bounded
        } else {
            Mode::Unbounded
        }
    }

    /// The attempts that a session in this mode starts with.
    pub open spec fn initial_attempts(self) -> Option<nat> {
        match self {
            Mode::Bounded => Some(MAX_ATTEMPTS as nat),
            Mode::Unbounded => None,
        }
    }

    /// Selects the mode from the line that answers the mode question.
    ///
    /// `c` or `C`, with any white space around it, selects the bounded game;
    /// every other line selects the unbounded one.
    pub fn select(answer: &str) -> (mode: Mode)
        ensures
            mode == Mode::selected_by(answer@),
    {
        let chars = chars_of(answer);
        let (start, end) = trim_bounds(&chars);
        if end - start == 1 && (chars[start] == 'c' || chars[start] == 'C') {
            Mode::Bounded
        } else {
            Mode::Unbounded
        }
    }
}

/// How a session ended. Either way the secret is revealed.
#[derive(Clone, Copy, Debug, PartialEq, Eq, Structural)]
pub enum Outcome {
    /// The secret was guessed.
    Win(u32),
    /// The attempts ran out.
    Lose(u32),
}

/// How a guess compares to the secret.
#[derive(Clone, Copy, Debug, PartialEq, Eq, Structural)]
pub enum Verdict {
    /// The guess is below the secret.
    TooSmall,
    /// The guess is above the secret.
    TooBig,
    /// The guess is the secret.
    Correct,
}

/// The verdict on `guess` where the secret is `secret`.
pub open spec fn verdict_on(guess: int, secret: int) -> Verdict {
    if guess < secret {
        Verdict::TooSmall
    } else if guess > secret {
        Verdict::TooBig
    } else {
        Verdict::Correct
    }
}

/// Compares a guess to the secret.
pub fn judge(guess: u32, secret: u32) -> (verdict: Verdict)
    ensures
        verdict == verdict_on(guess as int, secret as int),
{
    if guess < secret {
        Verdict::TooSmall
    } else if guess > secret {
        Verdict::TooBig
    } else {
        Verdict::Correct
    }
}

/// What a session wants at the start of a round.
#[derive(Clone, Copy, Debug, PartialEq, Eq, Structural)]
pub enum Prompt {
    /// A line with the next guess. In bounded mode the prompt carries the
    /// number of attempts that are left, which is at least one.
    Guess { attempts_remaining: Option<u32> },
    /// Nothing more: the session is over.
    Finished(Outcome),
}

/// What a session answers to a line of input.
#[derive(Clone, Copy, Debug, PartialEq, Eq, Structural)]
pub enum Reply {
    /// The line holds no number. Nothing has changed; the same prompt is due
    /// again.
    Rejected(ParseError),
    /// The line held `guess`, which was compared to the secret.
    Judged { guess: u32, verdict: Verdict },
    /// The session was over before the line came; the line was not looked at.
    Over(Outcome),
}

/// The mathematical model of a session.
pub struct SessionView {
    /// The number to be guessed.
    pub secret: nat,
    /// The attempts that are left: a number in bounded mode, `None` in
    /// unbounded mode.
    pub attempts_remaining: Option<nat>,
    /// How the session ended, once it has.
    pub outcome: Option<Outcome>,
}

impl SessionView {
    /// The session as it starts: all attempts left, no outcome.
    pub open spec fn fresh(mode: Mode, secret: nat) -> SessionView {
        SessionView { secret, attempts_remaining: mode.initial_attempts(), outcome: None }
    }

    /// What holds of every session: the secret lies in its range, the attempts
    /// never exceed the allowance, a win or a loss reveals the secret, and a
    /// loss comes only with no attempt left, hence only in bounded mode.
    pub open spec fn valid(self) -> bool {
        &&& SECRET_MIN <= self.secret <= SECRET_MAX
        &&& (self.attempts_remaining matches Some(n) ==> n <= MAX_ATTEMPTS)
        &&& match self.outcome {
            None => true,
            Some(Outcome::Win(n)) => n == self.secret,
            Some(Outcome::Lose(n)) => n == self.secret && self.attempts_remaining == Some(0nat),
        }
    }

    /// The mode of the session.
    pub open spec fn mode(self) -> Mode {
        if self.attempts_remaining is Some {
            Mode::Bounded
        } else {
            Mode::Unbounded
        }
    }

    /// Whether the session has ended.
    pub open spec fn finished(self) -> bool {
        self.outcome is Some
    }

    /// The session after the check that opens every round: a bounded session
    /// that is still running with no attempt left is lost there and then.
    /// Every other session is left as it is.
    pub open spec fn checked(self) -> SessionView {
        if !self.finished() && self.attempts_remaining == Some(0nat) {
            SessionView { outcome: Some(Outcome::Lose(self.secret as u32)), ..self }
        } else {
            self
        }
    }

    /// What the session wants at the start of a round.
    pub open spec fn prompt(self) -> Prompt {
        match self.checked().outcome {
            Some(outcome) => Prompt::Finished(outcome),
            None => Prompt::Guess {
                attempts_remaining: match self.attempts_remaining {
                    Some(n) => Some(n as u32),
                    None => None,
                },
            },
        }
    }

    /// The session after a round in which the number `guess` came in.
    ///
    /// A running session with an attempt left pays one attempt in bounded
    /// mode, whatever the verdict, and is won if the guess is the secret.
    pub open spec fn after_guess(self, guess: u32) -> SessionView {
        let opened = self.checked();
        if opened.finished() {
            opened
        } else {
            SessionView {
                secret: opened.secret,
                attempts_remaining: match opened.attempts_remaining {
                    Some(n) => Some((n - 1) as nat),
                    None => None,
                },
                outcome: if guess == opened.secret {
                    Some(Outcome::Win(guess))
                } else {
                    None
                },
            }
        }
    }

    /// The reply to a round in which the number `guess` came in.
    pub open spec fn guess_reply(self, guess: u32) -> Reply {
        match self.checked().outcome {
            Some(outcome) => Reply::Over(outcome),
            None => Reply::Judged { guess, verdict: verdict_on(guess as int, self.secret as int) },
        }
    }

    /// The session after a round in which `line` came in: a line that holds a
    /// number counts as that guess, any other line changes nothing.
    pub open spec fn after_line(self, line: Seq<char>) -> SessionView {
        match parsed_unsigned(line) {
            Ok(guess) => self.after_guess(guess),
            Err(_) => self.checked(),
        }
    }

    /// The reply to a round in which `line` came in.
    pub open spec fn line_reply(self, line: Seq<char>) -> Reply {
        match parsed_unsigned(line) {
            Ok(guess) => self.guess_reply(guess),
            Err(error) => match self.checked().outcome {
                Some(outcome) => Reply::Over(outcome),
                None => Reply::Rejected(error),
            },
        }
    }

    /// The session after one round for each of `lines`, in order.
    pub open spec fn after_lines(self, lines: Seq<Seq<char>>) -> SessionView
        decreases lines.len(),
    {
        if lines.len() == 0 {
            self
        } else {
            self.after_lines(lines.drop_last()).after_line(lines.last())
        }
    }

    /// How many of `lines`, fed in order, were judged as guesses.
    pub open spec fn judged_count(self, lines: Seq<Seq<char>>) -> nat
        decreases lines.len(),
    {
        if lines.len() == 0 {
            0
        } else {
            let before = self.after_lines(lines.drop_last());
            let judged: nat = if before.line_reply(lines.last()) is Judged {
                1
            } else {
                0
            };
            self.judged_count(lines.drop_last()) + judged
        }
    }
}

/// A game of guessing a secret number.
pub struct GuessingSession {
    secret: u32,
    attempts_remaining: Option<u32>,
    outcome: Option<Outcome>,
}

impl View for GuessingSession {
    type V = SessionView;

    closed spec fn view(&self) -> SessionView {
        SessionView {
            secret: self.secret as nat,
            attempts_remaining: match self.attempts_remaining {
                Some(n) => Some(n as nat),
                None => None,
            },
            outcome: self.outcome,
        }
    }
}

impl GuessingSession {
    /// Every session that exists is valid.
    #[verifier::type_invariant]
    pub closed spec fn well_formed(&self) -> bool {
        self@.valid()
    }

    /// Starts a session with a secret drawn at random from
    /// [`SECRET_MIN`]`..=`[`SECRET_MAX`].
    pub fn start(mode: Mode) -> (session: GuessingSession)
        ensures
            session@.valid(),
            session@ == SessionView::fresh(mode, session@.secret),
    {
        let secret = random_in_range(SECRET_MIN, SECRET_MAX);
        GuessingSession {
            secret,
            attempts_remaining: match mode {
                Mode::Bounded => Some(MAX_ATTEMPTS),
                Mode::Unbounded => None,
            },
            outcome: None,
        }
    }

    /// Starts a session with the secret given, if it is one that a session
    /// can have.
    pub fn with_secret(mode: Mode, secret: u32) -> (session: Option<GuessingSession>)
        ensures
            session is Some <==> SECRET_MIN <= secret <= SECRET_MAX,
            session matches Some(s) ==> s@ == SessionView::fresh(mode, secret as nat) && s@.valid(),
    {
        if SECRET_MIN <= secret && secret <= SECRET_MAX {
            Some(
                GuessingSession {
                    secret,
                    attempts_remaining: match mode {
                        Mode::Bounded => Some(MAX_ATTEMPTS),
                        Mode::Unbounded => None,
                    },
                    outcome: None,
                },
            )
        } else {
            None
        }
    }

    /// Opens a round: tells whether a guess is wanted or the session is over.
    ///
    /// A bounded session with no attempt left is lost at this point, before
    /// any line is asked for. Nothing else changes.
    pub fn next_prompt(&mut self) -> (prompt: Prompt)
        ensures
            final(self)@ == old(self)@.checked(),
            prompt == old(self)@.prompt(),
            final(self)@.valid(),
    {
        proof {
            use_type_invariant(&*self);
        }
        match self.outcome {
            Some(outcome) => Prompt::Finished(outcome),
            None => {
                if self.attempts_remaining == Some(0) {
                    let lost = Outcome::Lose(self.secret);
                    self.outcome = Some(lost);
                    Prompt::Finished(lost)
                } else {
                    Prompt::Guess { attempts_remaining: self.attempts_remaining }
                }
            },
        }
    }

    /// Plays a round with the number `guess`.
    ///
    /// The round opens as in [`Self::next_prompt`]. If the session is over by
    /// then, the guess is not looked at. Otherwise a bounded session pays one
    /// attempt, the guess is compared to the secret, and a correct guess wins.
    pub fn submit_guess(&mut self, guess: u32) -> (reply: Reply)
        ensures
            final(self)@ == old(self)@.after_guess(guess),
            reply == old(self)@.guess_reply(guess),
            final(self)@.valid(),
    {
        proof {
            use_type_invariant(&*self);
        }
        match self.next_prompt() {
            Prompt::Finished(outcome) => Reply::Over(outcome),
            Prompt::Guess { attempts_remaining } => {
                let verdict = judge(guess, self.secret);
                let left = match attempts_remaining {
                    Some(n) => Some(n - 1),
                    None => None,
                };
                let outcome = match verdict {
                    Verdict::Correct => Some(Outcome::Win(guess)),
                    _ => None,
                };
                *self = GuessingSession { secret: self.secret, attempts_remaining: left, outcome };
                Reply::Judged { guess, verdict }
            },
        }
    }

    /// Plays a round with the line that was read in answer to the prompt.
    ///
    /// A line that holds a number is played as that guess. A line that does
    /// not is rejected: no attempt is paid and the same prompt is due again.
    pub fn submit_line(&mut self, line: &str) -> (reply: Reply)
        ensures
            final(self)@ == old(self)@.after_line(line@),
            reply == old(self)@.line_reply(line@),
            final(self)@.valid(),
    {
        match parse_unsigned(line) {
            Ok(guess) => self.submit_guess(guess),
            Err(error) => match self.next_prompt() {
                Prompt::Finished(outcome) => Reply::Over(outcome),
                Prompt::Guess { .. } => Reply::Rejected(error),
            },
        }
    }

    /// The mode of the session.
    pub fn mode(&self) -> (mode: Mode)
        ensures
            mode == self@.mode(),
    {
        match self.attempts_remaining {
            Some(_) => Mode::Bounded,
            None => Mode::Unbounded,
        }
    }

    /// The attempts that are left, in bounded mode.
    pub fn attempts_remaining(&self) -> (left: Option<u32>)
        ensures
            left is Some <==> self@.attempts_remaining is Some,
            left matches Some(n) ==> self@.attempts_remaining == Some(n as nat),
    {
        self.attempts_remaining
    }

    /// How the session ended, once it has.
    pub fn outcome(&self) -> (outcome: Option<Outcome>)
        ensures
            outcome == self@.outcome,
    {
        self.outcome
    }
}

} // verus!
