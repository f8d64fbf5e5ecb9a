//! The community server's commands: linking a platform account, showing a
//! balance, the daily draw.

use vstd::prelude::*;
use crate::ledger::{DailyResult, User};
use crate::text::{push_signed_decimal, signed_decimal_text, str_eq};

verus! {

/// The percent-encoding of a text.
pub uninterp spec fn percent_encoded(s: Seq<char>) -> Seq<char>;

/// A character that percent-encoding leaves as it is.
pub open spec fn is_unreserved(c: char) -> bool {
    ('0' <= c && c <= '9') || ('A' <= c && c <= 'Z') || ('a' <= c && c <= 'z') || c == '-' || c
        == '.' || c == '_' || c == '~'
}

/// Relies on urlencoding::encode: percent-encodes every byte but ASCII
/// letters, digits and `-._~`, so a text made only of those comes back
/// unchanged.
#[verifier::external_body]
fn encode_component(s: &str) -> (r: String)
    ensures
        r@ == percent_encoded(s@),
        (forall|k: int| 0 <= k < s@.len() ==> is_unreserved(#[trigger] s@[k])) ==> r@ == s@,
{
    urlencoding::encode(s).into_owned()
}

/// The authorization address that links a community account to a platform
/// account, for this application and redirect address.
pub open spec fn oauth_url_text(client_id: Seq<char>, redirect_uri: Seq<char>) -> Seq<char> {
    "https://discord.com/api/oauth2/authorize?client_id="@ + client_id + "&redirect_uri="@
        + percent_encoded(redirect_uri) + "&response_type=code&scope=identify%20connections"@
}

/// The message sent privately to a member who asked to link accounts.
pub open spec fn link_dm_text(client_id: Seq<char>, redirect_uri: Seq<char>) -> Seq<char> {
    "In order to link your Twitch account, [please click here]("@ + oauth_url_text(
        client_id,
        redirect_uri,
    ) + ")."@
}

/// The private message with the link that connects the accounts.
pub fn link_dm(client_id: &str, redirect_uri: &str) -> (r: String)
    ensures
        r@ == link_dm_text(client_id@, redirect_uri@),
{
    let encoded = encode_component(redirect_uri);
    let mut t = String::from_str("In order to link your Twitch account, [please click here](https://discord.com/api/oauth2/authorize?client_id=");
    t.append(client_id);
    t.append("&redirect_uri=");
    t.append(encoded.as_str());
    t.append("&response_type=code&scope=identify%20connections).");
    proof {
        reveal_strlit("In order to link your Twitch account, [please click here](https://discord.com/api/oauth2/authorize?client_id=");
        reveal_strlit("In order to link your Twitch account, [please click here](");
        reveal_strlit("https://discord.com/api/oauth2/authorize?client_id=");
        reveal_strlit("&response_type=code&scope=identify%20connections).");
        reveal_strlit("&response_type=code&scope=identify%20connections");
        reveal_strlit(").");
    }
    assert(t@ =~= link_dm_text(client_id@, redirect_uri@));
    t
}

/// The reply to a member asking for their balance.
pub open spec fn balance_text(user: Option<User>) -> Seq<char> {
    match user {
        Some(u) => "You have "@ + signed_decimal_text(u.clacks as int) + " clacks."@,
        None => "You have no clacks."@,
    }
}

/// Tells a member their balance; one with no record has none.
pub fn balance_reply(user: Option<&User>) -> (r: String)
    ensures
        r@ == balance_text(
            match user {
                Some(u) => Some(*u),
                None => None,
            },
        ),
{
    match user {
        Some(u) => {
            let mut t = String::from_str("You have ");
            push_signed_decimal(&mut t, u.clacks as i64);
            t.append(" clacks.");
            t
        },
        None => String::from_str("You have no clacks."),
    }
}

/// The reply to a daily claim.
pub open spec fn daily_text(r: DailyResult) -> Seq<char> {
    match r {
        DailyResult::Success(a) => "You have received "@ + signed_decimal_text(a as int)
            + " clacks!"@,
        DailyResult::AlreadyClaimed(h) => "You have already claimed your daily clacks. Try again in "@
            + signed_decimal_text(h as int) + " hours."@,
    }
}

/// Tells a member how their daily claim went.
pub fn daily_reply(result: DailyResult) -> (r: String)
    requires
        result matches DailyResult::AlreadyClaimed(h) ==> h > i64::MIN,
    ensures
        r@ == daily_text(result),
{
    match result {
        DailyResult::Success(a) => {
            let mut t = String::from_str("You have received ");
            push_signed_decimal(&mut t, a as i64);
            t.append(" clacks!");
            t
        },
        DailyResult::AlreadyClaimed(h) => {
            let mut t = String::from_str("You have already claimed your daily clacks. Try again in ");
            push_signed_decimal(&mut t, h);
            t.append(" hours.");
            t
        },
    }
}

/// An account connected to a community member's profile.
#[derive(Debug)]
pub struct Connection {
    pub kind: String,
    pub id: String,
    pub name: String,
}

/// Index of the first connection to the streaming platform.
pub fn find_twitch_connection(connections: &Vec<Connection>) -> (r: Option<usize>)
    ensures
        match r {
            Some(i) => i < connections@.len() && connections@[i as int].kind@ == "twitch"@
                && forall|k: int| 0 <= k < i ==> #[trigger] connections@[k].kind@ != "twitch"@,
            None => forall|k: int|
                0 <= k < connections@.len() ==> #[trigger] connections@[k].kind@ != "twitch"@,
        },
{
    let mut i: usize = 0;
    while i < connections.len()
        invariant
            0 <= i <= connections.len(),
            forall|k: int| 0 <= k < i ==> #[trigger] connections@[k].kind@ != "twitch"@,
        decreases connections.len() - i,
    {
        if str_eq(connections[i].kind.as_str(), "twitch") {
            return Some(i);
        }
        i = i + 1;
    }
    None
}

/// The page shown once the accounts are linked.
pub fn linked_text(twitch_name: &str) -> (r: String)
    ensures
        r@ == "Successfully linked your Twitch account "@ + twitch_name@
            + ". You can now close this window."@,
{
    let mut t = String::from_str("Successfully linked your Twitch account ");
    t.append(twitch_name);
    t.append(". You can now close this window.");
    t
}

} // verus!
