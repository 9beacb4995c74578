//! What holds of every guessing session, whatever lines it is fed.
//!
//! The laws are stated over [`SessionView`] and the functions that the
//! contracts of [`crate::session::GuessingSession`] use, so each of them holds
//! of every run of the executable session.

use crate::input::parsed_unsigned;
use crate::session::{Mode, Outcome, Prompt, Reply, SessionView, MAX_ATTEMPTS};
use vstd::prelude::*;

verus! {

/// A valid session stays valid, and neither its secret nor its mode ever
/// changes.
pub proof fn session_stays_valid(s: SessionView, lines: Seq<Seq<char>>)
    requires
        s.valid(),
    ensures
        s.after_lines(lines).valid(),
        s.after_lines(lines).secret == s.secret,
        s.after_lines(lines).mode() == s.mode(),
    decreases lines.len(),
{
    if lines.len() > 0 {
        session_stays_valid(s, lines.drop_last());
    }
}

/// The outcome is set once: a session that has ended ignores every further
/// line.
pub proof fn finished_session_is_final(s: SessionView, lines: Seq<Seq<char>>)
    requires
        s.finished(),
    ensures
        s.after_lines(lines) == s,
        s.judged_count(lines) == 0,
    decreases lines.len(),
{
    if lines.len() > 0 {
        finished_session_is_final(s, lines.drop_last());
    }
}

/// An unbounded session never has a count of attempts, so there is none to
/// pay from, and it cannot be lost.
pub proof fn unbounded_session_never_counts(s: SessionView, lines: Seq<Seq<char>>)
    requires
        s.valid(),
        s.mode() == Mode::Unbounded,
    ensures
        s.after_lines(lines).attempts_remaining is None,
        !(s.after_lines(lines).outcome matches Some(Outcome::Lose(_))),
        !(s.after_lines(lines).prompt() matches Prompt::Finished(Outcome::Lose(_))),
    decreases lines.len(),
{
    if lines.len() > 0 {
        unbounded_session_never_counts(s, lines.drop_last());
    }
}

/// A bounded session starts with [`MAX_ATTEMPTS`] attempts.
pub proof fn bounded_session_starts_full(secret: nat)
    ensures
        SessionView::fresh(Mode::Bounded, secret).attempts_remaining == Some(MAX_ATTEMPTS as nat),
        !SessionView::fresh(Mode::Bounded, secret).finished(),
{
}

/// A bounded session pays exactly one attempt for each line that is judged as
/// a guess and none for any other line, and the count never goes below zero.
pub proof fn bounded_session_counts_down(s: SessionView, lines: Seq<Seq<char>>)
    requires
        s.valid(),
        s.mode() == Mode::Bounded,
    ensures
        s.judged_count(lines) <= s.attempts_remaining->0,
        s.after_lines(lines).attempts_remaining == Some(
            (s.attempts_remaining->0 - s.judged_count(lines)) as nat,
        ),
    decreases lines.len(),
{
    if lines.len() > 0 {
        bounded_session_counts_down(s, lines.drop_last());
        session_stays_valid(s, lines.drop_last());
    }
}

/// A bounded session that is asked for its prompt with no attempt left and no
/// win is lost at once, revealing the secret: no further guess is asked for,
/// and a line that comes all the same is not looked at.
pub proof fn exhausted_session_is_lost(s: SessionView, line: Seq<char>)
    requires
        s.valid(),
        !s.finished(),
        s.attempts_remaining == Some(0nat),
    ensures
        s.prompt() == Prompt::Finished(Outcome::Lose(s.secret as u32)),
        s.line_reply(line) == Reply::Over(Outcome::Lose(s.secret as u32)),
        s.after_line(line) == s.checked(),
        s.after_line(line).finished(),
{
}

/// A line that holds no number never changes the attempts, and a session that
/// was waiting for a guess is left exactly as it was: it rejects the line and
/// prompts again as before.
pub proof fn rejected_line_changes_nothing(s: SessionView, line: Seq<char>)
    requires
        s.valid(),
        parsed_unsigned(line) is Err,
    ensures
        s.after_line(line).attempts_remaining == s.attempts_remaining,
        s.prompt() is Guess ==> {
            &&& s.line_reply(line) == Reply::Rejected(parsed_unsigned(line)->Err_0)
            &&& s.after_line(line) == s
            &&& s.after_line(line).prompt() == s.prompt()
        },
{
}

/// A line that holds a number, put to a session that was waiting for a guess,
/// is judged against the secret; the session is won if and only if the number
/// is the secret, and goes on otherwise.
pub proof fn judged_line_wins_on_the_secret(s: SessionView, line: Seq<char>)
    requires
        s.valid(),
        s.prompt() is Guess,
        parsed_unsigned(line) is Ok,
    ensures
        s.line_reply(line) is Judged,
        s.after_line(line).outcome == if parsed_unsigned(line)->Ok_0 == s.secret {
            Some(Outcome::Win(s.secret as u32))
        } else {
            None
        },
{
}

} // verus!
