//! Chat commands of the guessing game: `!wpm start` opens a round,
//! `!wpm <number>` places a guess.

use vstd::prelude::*;
use crate::text::{
    digits_value, lemma_run_end_unique, push_decimal, run_end, scan_digits, starts_with,
    str_eq, str_starts_with, decimal_text,
};
use crate::wpm::{upsert, GameView, WpmGame};

verus! {

/// What a chat line asks of the game.
#[derive(Debug, Clone, Copy, PartialEq, Eq, Structural)]
pub enum ChatCommand {
    /// The broadcaster opens a round.
    Start,
    /// A viewer guesses a value.
    Guess(usize),
    /// A game command that could not be read.
    Invalid,
    /// Not a game command.
    Ignored,
}

/// The guess in `text`: `!wpm ` followed by a run of digits whose value
/// fits in a `usize`. What follows the digits does not matter.
pub open spec fn guess_value(text: Seq<char>) -> Option<usize> {
    let b = choose|b: int| run_end(text, 5, b);
    if starts_with(text, "!wpm "@) && run_end(text, 5, b) && b > 5 && digits_value(
        text.subrange(5, b),
    ) <= usize::MAX {
        Some(digits_value(text.subrange(5, b)) as usize)
    } else {
        None
    }
}

/// The command in a chat line, given whether its sender is the broadcaster.
pub open spec fn command_of(text: Seq<char>, broadcaster: bool) -> ChatCommand {
    if text == "!wpm start"@ && broadcaster {
        ChatCommand::Start
    } else if starts_with(text, "!wpm"@) {
        match guess_value(text) {
            Some(v) => ChatCommand::Guess(v),
            None => ChatCommand::Invalid,
        }
    } else {
        ChatCommand::Ignored
    }
}

/// Some badge is the broadcaster's.
pub open spec fn has_broadcaster_badge(badges: Seq<String>) -> bool {
    exists|i: int| 0 <= i < badges.len() && #[trigger] badges[i]@ == "broadcaster"@
}

/// Reads a chat line.
pub fn parse_command(text: &str, broadcaster: bool) -> (r: ChatCommand)
    ensures
        r == command_of(text@, broadcaster),
{
    if broadcaster && str_eq(text, "!wpm start") {
        return ChatCommand::Start;
    }
    if !str_starts_with(text, "!wpm") {
        return ChatCommand::Ignored;
    }
    if !str_starts_with(text, "!wpm ") {
        assert(guess_value(text@) is None);
        return ChatCommand::Invalid;
    }
    proof {
        reveal_strlit("!wpm ");
    }
    let len = text.unicode_len();
    let (end, value) = scan_digits(text, len, 5, usize::MAX as u64);
    proof {
        let b = choose|b: int| run_end(text@, 5, b);
        lemma_run_end_unique(text@, 5, end as int, b);
    }
    if end == 5 {
        return ChatCommand::Invalid;
    }
    match value {
        Some(v) => ChatCommand::Guess(v as usize),
        None => ChatCommand::Invalid,
    }
}

/// Does the sender hold the broadcaster's badge?
pub fn is_broadcaster(badges: &Vec<String>) -> (r: bool)
    ensures
        r == has_broadcaster_badge(badges@),
{
    let mut i: usize = 0;
    while i < badges.len()
        invariant
            0 <= i <= badges.len(),
            forall|k: int| 0 <= k < i ==> #[trigger] badges@[k]@ != "broadcaster"@,
        decreases badges.len() - i,
    {
        if str_eq(badges[i].as_str(), "broadcaster") {
            return true;
        }
        i = i + 1;
    }
    false
}

/// `r` is a reply that reads `text`.
pub open spec fn replies(r: Option<String>, text: Seq<char>) -> bool {
    match r {
        Some(t) => t@ == text,
        None => false,
    }
}

/// The announcement of a new round.
pub open spec fn start_text() -> Seq<char> {
    "A new WPM guessing game has started. Send your guess by using !wpm <guess>."@
}

/// The reply to an accepted guess.
pub open spec fn guess_ack_text(sender: Seq<char>, value: usize) -> Seq<char> {
    sender + " got your "@ + decimal_text(value as nat) + " WPM guess"@
}

/// The reply to a refused guess.
pub open spec fn guess_refused_text(sender: Seq<char>) -> Seq<char> {
    sender + " "@ + "there is no typing test going on at the moment"@
}

/// The reply to a game command that could not be read.
pub open spec fn invalid_guess_text(sender: Seq<char>) -> Seq<char> {
    sender + " invalid guess, use !wpm <wpm estimate>"@
}

/// Handles one chat line seen in `message_channel` from `sender`, for a bot
/// that listens to `channel`. Lines from other channels and lines that are
/// not game commands are ignored. Returns the reply to send, if any.
pub fn handle_message(
    game: &mut WpmGame,
    channel: &str,
    message_channel: &str,
    sender: &str,
    text: &str,
    badges: &Vec<String>,
) -> (r: Option<String>)
    requires
        old(game).wf(),
    ensures
        final(game).wf(),
        message_channel@ != channel@ ==> r is None && final(game)@ == old(game)@,
        message_channel@ == channel@ ==> match command_of(text@, has_broadcaster_badge(badges@)) {
            ChatCommand::Start => final(game)@ == (GameView {
                running: true,
                guesses: Seq::empty(),
                last_winner: old(game)@.last_winner,
            }) && replies(r, start_text()),
            ChatCommand::Guess(v) => if old(game)@.running {
                final(game)@ == (GameView {
                    guesses: upsert(old(game)@.guesses, sender@, v),
                    ..old(game)@
                }) && replies(r, guess_ack_text(sender@, v))
            } else {
                final(game)@ == old(game)@ && replies(r, guess_refused_text(sender@))
            },
            ChatCommand::Invalid => final(game)@ == old(game)@ && replies(
                r,
                invalid_guess_text(sender@),
            ),
            ChatCommand::Ignored => final(game)@ == old(game)@ && r is None,
        },
{
    if !str_eq(message_channel, channel) {
        return None;
    }
    let broadcaster = is_broadcaster(badges);
    match parse_command(text, broadcaster) {
        ChatCommand::Start => {
            game.start();
            Some(String::from_str("A new WPM guessing game has started. Send your guess by using !wpm <guess>."))
        },
        ChatCommand::Guess(v) => {
            match game.add_guess(sender, v) {
                Ok(()) => {
                    let mut t = String::from_str(sender);
                    t.append(" got your ");
                    push_decimal(&mut t, v as u64);
                    t.append(" WPM guess");
                    Some(t)
                },
                Err(e) => {
                    let mut t = String::from_str(sender);
                    t.append(" ");
                    t.append(e.message());
                    Some(t)
                },
            }
        },
        ChatCommand::Invalid => {
            let mut t = String::from_str(sender);
            t.append(" invalid guess, use !wpm <wpm estimate>");
            Some(t)
        },
        ChatCommand::Ignored => None,
    }
}

} // verus!
