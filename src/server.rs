//! What the web endpoints of the game decide: ending a round with the
//! measured value, and publishing the live value.

use vstd::prelude::*;
use crate::live::LiveMetric;
use crate::text::{decimal_text, decimal_value, parse_decimal, push_decimal};
use crate::wpm::{winner_of, WpmGame};

verus! {

/// How a request to end the round went.
#[derive(Debug)]
pub enum RoundEnd {
    /// The value was missing or not a number.
    BadRequest,
    /// No round was open; nothing changed.
    NotRunning,
    /// The round was scored; the announcement for the chat.
    Finished(String),
}

/// How a request to publish the live value went.
#[derive(Debug, Clone, Copy, PartialEq, Eq, Structural)]
pub enum LiveUpdate {
    /// The value was missing or not a byte.
    BadRequest,
    /// No round was open; the value was not published.
    Ignored,
    /// The value was published.
    Published(u8),
}

/// The chat announcement of a round won by `winner` with `guess`, when the
/// streamer did `wpm`.
pub open spec fn winner_text(wpm: usize, winner: Seq<char>, guess: usize) -> Seq<char> {
    "typing test ended with "@ + decimal_text(wpm as nat) + " WPM. The the winner is "@ + winner
        + " with a guess of "@ + decimal_text(guess as nat) + " WPM."@
}

/// The chat announcement of a round nobody guessed in.
pub open spec fn no_guesses_text(wpm: usize) -> Seq<char> {
    "MrKeebs did "@ + decimal_text(wpm as nat) + " WPM but still is forever alone: no guesses :-("@
}

/// Ends the round with the measured value given as text in `param`.
pub fn finish_round(game: &mut WpmGame, param: Option<&str>) -> (r: RoundEnd)
    requires
        old(game).wf(),
    ensures
        final(game).wf(),
        match param {
            None => r is BadRequest && final(game)@ == old(game)@,
            Some(p) => match decimal_value(p@, usize::MAX as int) {
                None => r is BadRequest && final(game)@ == old(game)@,
                Some(v) => if !old(game)@.running {
                    r is NotRunning && final(game)@ == old(game)@
                } else {
                    !final(game)@.running && match r {
                        RoundEnd::Finished(t) => match winner_of(old(game)@.guesses, v as int) {
                            Some(w) => t@ == winner_text(v as usize, w.0, w.1)
                                && final(game)@.guesses.len() == 0
                                && final(game)@.last_winner == Some(w.0),
                            None => t@ == no_guesses_text(v as usize)
                                && final(game)@.guesses == old(game)@.guesses
                                && final(game)@.last_winner == old(game)@.last_winner,
                        },
                        _ => false,
                    }
                },
            },
        },
{
    let p = match param {
        Some(p) => p,
        None => return RoundEnd::BadRequest,
    };
    let wpm = match parse_decimal(p, usize::MAX as u64) {
        Some(v) => v as usize,
        None => return RoundEnd::BadRequest,
    };
    if !game.is_running() {
        return RoundEnd::NotRunning;
    }
    match game.winner(wpm) {
        Some((user, guess)) => {
            let mut t = String::from_str("typing test ended with ");
            push_decimal(&mut t, wpm as u64);
            t.append(" WPM. The the winner is ");
            t.append(user.as_str());
            t.append(" with a guess of ");
            push_decimal(&mut t, guess as u64);
            t.append(" WPM.");
            RoundEnd::Finished(t)
        },
        None => {
            let mut t = String::from_str("MrKeebs did ");
            push_decimal(&mut t, wpm as u64);
            t.append(" WPM but still is forever alone: no guesses :-(");
            RoundEnd::Finished(t)
        },
    }
}

/// Publishes the live value given as text in `param`, while a round is
/// open.
pub fn set_live_wpm(game: &WpmGame, live: &mut LiveMetric, param: Option<&str>) -> (r: LiveUpdate)
    ensures
        r matches LiveUpdate::Published(v) ==> final(live)@ == v,
        !(r is Published) ==> final(live)@ == old(live)@,
        match param {
            None => r == LiveUpdate::BadRequest,
            Some(p) => match decimal_value(p@, 255) {
                None => r == LiveUpdate::BadRequest,
                Some(v) => if game@.running {
                    r == LiveUpdate::Published(v as u8)
                } else {
                    r == LiveUpdate::Ignored
                },
            },
        },
{
    let p = match param {
        Some(p) => p,
        None => return LiveUpdate::BadRequest,
    };
    let v = match parse_decimal(p, 255) {
        Some(v) => v as u8,
        None => return LiveUpdate::BadRequest,
    };
    if !game.is_running() {
        return LiveUpdate::Ignored;
    }
    let _ = live.set(v as i64);
    LiveUpdate::Published(v)
}

} // verus!
