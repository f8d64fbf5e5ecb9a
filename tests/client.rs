use clackbot::client::{custom_rewards_url, helix_url, pending_redemptions_url, redemption_url, Client};

#[test]
fn client_credentials_and_headers() {
    let c = Client::new("cid".to_string(), "SECRET-REDACTED".to_string(), "tok".to_string());
    assert_eq!(c.client_id(), "cid");
    assert_eq!(c.secret(), "SECRET-REDACTED");
    assert_eq!(c.token_header(), "Bearer tok");
    assert_eq!(c.access_token_header(), None);
    assert_eq!(c.user_id(), None);
    let c = c.with_access_token("app".to_string());
    assert_eq!(c.access_token_header(), Some("Bearer app".to_string()));
    let c = c.with_token("usr".to_string(), "11028617".to_string());
    assert_eq!(c.access_token_header(), Some("Bearer usr".to_string()));
    assert_eq!(c.user_id().map(|s| s.as_str()), Some("11028617"));
}

#[test]
fn api_addresses() {
    assert_eq!(helix_url("users"), "https://api.twitch.tv/helix/users");
    assert_eq!(
        custom_rewards_url("42"),
        "https://api.twitch.tv/helix/channel_points/custom_rewards?broadcaster_id=42"
    );
    assert_eq!(
        pending_redemptions_url("42", "r9"),
        "https://api.twitch.tv/helix/channel_points/custom_rewards/redemptions?broadcaster_id=42&reward_id=r9&status=UNFULFILLED"
    );
    assert_eq!(
        redemption_url("x1", "42", "r9"),
        "https://api.twitch.tv/helix/channel_points/custom_rewards/redemptions?broadcaster_id=42&id=x1&reward_id=r9"
    );
}
