//! Credentials of the platform's API client, and the addresses and headers
//! of the calls it makes.

use vstd::prelude::*;

verus! {

/// The base of the platform's API.
pub open spec fn helix_base() -> Seq<char> {
    "https://api.twitch.tv/helix/"@
}

/// Abstract credentials of a client.
pub struct ClientView {
    pub client_id: Seq<char>,
    pub secret: Seq<char>,
    pub token: Seq<char>,
    pub access_token: Option<Seq<char>>,
    pub user_id: Option<Seq<char>>,
}

/// Credentials for the platform's API: the application's id and secret,
/// the user token, and once obtained an app access token and the id of the
/// user the token belongs to.
#[derive(Debug)]
pub struct Client {
    client_id: String,
    secret: String,
    token: String,
    access_token: Option<String>,
    user_id: Option<String>,
}

/// The text of an optional string.
pub open spec fn opt_view(o: Option<String>) -> Option<Seq<char>> {
    match o {
        Some(s) => Some(s@),
        None => None,
    }
}

impl View for Client {
    type V = ClientView;

    closed spec fn view(&self) -> ClientView {
        ClientView {
            client_id: self.client_id@,
            secret: self.secret@,
            token: self.token@,
            access_token: opt_view(self.access_token),
            user_id: opt_view(self.user_id),
        }
    }
}

impl Client {
    /// A client with no access token yet.
    pub fn new(client_id: String, secret: String, token: String) -> (r: Client)
        ensures
            r@ == (ClientView {
                client_id: client_id@,
                secret: secret@,
                token: token@,
                access_token: None,
                user_id: None,
            }),
    {
        Client { client_id, secret, token, access_token: None, user_id: None }
    }

    /// The same client, with an app access token.
    pub fn with_access_token(self, access_token: String) -> (r: Client)
        ensures
            r@ == (ClientView { access_token: Some(access_token@), ..self@ }),
    {
        let mut c = self;
        c.access_token = Some(access_token);
        c
    }

    /// The same client, with a user access token and the id of its user.
    pub fn with_token(self, access_token: String, user_id: String) -> (r: Client)
        ensures
            r@ == (ClientView {
                access_token: Some(access_token@),
                user_id: Some(user_id@),
                ..self@
            }),
    {
        let mut c = self;
        c.access_token = Some(access_token);
        c.user_id = Some(user_id);
        c
    }

    /// The application's id.
    pub fn client_id(&self) -> (r: &String)
        ensures
            r@ == self@.client_id,
    {
        &self.client_id
    }

    /// The application's secret.
    pub fn secret(&self) -> (r: &String)
        ensures
            r@ == self@.secret,
    {
        &self.secret
    }

    /// The id of the user the access token belongs to, once known.
    pub fn user_id(&self) -> (r: Option<&String>)
        ensures
            match r {
                Some(u) => self@.user_id == Some(u@),
                None => self@.user_id is None,
            },
    {
        match &self.user_id {
            Some(u) => Some(u),
            None => None,
        }
    }

    /// The authorization header for calls made with the user token.
    pub fn token_header(&self) -> (r: String)
        ensures
            r@ == "Bearer "@ + self@.token,
    {
        let mut h = String::from_str("Bearer ");
        h.append(self.token.as_str());
        h
    }

    /// The authorization header for calls made with the access token;
    /// `None` before one was obtained.
    pub fn access_token_header(&self) -> (r: Option<String>)
        ensures
            match self@.access_token {
                Some(t) => r matches Some(h) && h@ == "Bearer "@ + t,
                None => r is None,
            },
    {
        match &self.access_token {
            Some(t) => {
                let mut h = String::from_str("Bearer ");
                h.append(t.as_str());
                Some(h)
            },
            None => None,
        }
    }
}

/// The address of an API endpoint.
pub fn helix_url(endpoint: &str) -> (r: String)
    ensures
        r@ == helix_base() + endpoint@,
{
    let mut u = String::from_str("https://api.twitch.tv/helix/");
    u.append(endpoint);
    u
}

/// The address listing, or creating, the custom rewards of a broadcaster.
pub fn custom_rewards_url(broadcaster_id: &str) -> (r: String)
    ensures
        r@ == "https://api.twitch.tv/helix/channel_points/custom_rewards?broadcaster_id="@
            + broadcaster_id@,
{
    let mut u = String::from_str("https://api.twitch.tv/helix/channel_points/custom_rewards?broadcaster_id=");
    u.append(broadcaster_id);
    u
}

/// The address listing the pending redemptions of one reward.
pub fn pending_redemptions_url(broadcaster_id: &str, reward_id: &str) -> (r: String)
    ensures
        r@ == "https://api.twitch.tv/helix/channel_points/custom_rewards/redemptions?broadcaster_id="@
            + broadcaster_id@ + "&reward_id="@ + reward_id@ + "&status=UNFULFILLED"@,
{
    let mut u = String::from_str("https://api.twitch.tv/helix/channel_points/custom_rewards/redemptions?broadcaster_id=");
    u.append(broadcaster_id);
    u.append("&reward_id=");
    u.append(reward_id);
    u.append("&status=UNFULFILLED");
    u
}

/// The address that updates the status of one redemption.
pub fn redemption_url(redemption_id: &str, broadcaster_id: &str, reward_id: &str) -> (r: String)
    ensures
        r@ == "https://api.twitch.tv/helix/channel_points/custom_rewards/redemptions?broadcaster_id="@
            + broadcaster_id@ + "&id="@ + redemption_id@ + "&reward_id="@ + reward_id@,
{
    let mut u = String::from_str("https://api.twitch.tv/helix/channel_points/custom_rewards/redemptions?broadcaster_id=");
    u.append(broadcaster_id);
    u.append("&id=");
    u.append(redemption_id);
    u.append("&reward_id=");
    u.append(reward_id);
    u
}

} // verus!
