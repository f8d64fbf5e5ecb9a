//! Data exchanged with the streaming platform: rewards, redemptions and the
//! event-subscription messages.

use std::collections::HashMap;
use vstd::prelude::*;

verus! {

/// A JSON value carried through unread.
#[verifier::external_type_specification]
#[verifier::external_body]
pub struct ExJsonValue(serde_json::Value);

/// Image links of a reward.
#[derive(Debug)]
pub struct Image {
    pub url_1x: Option<String>,
    pub url_2x: Option<String>,
    pub url_4x: Option<String>,
}

/// Cooldown between two redemptions of a reward.
#[derive(Debug)]
pub struct CooldownSetting {
    pub is_enabled: bool,
    pub global_cooldown_seconds: i64,
}

/// Cap on redemptions of a reward per stream.
#[derive(Debug)]
pub struct RedemptionPerStreamLimitSetting {
    pub is_enabled: bool,
    pub max_per_stream: Option<i64>,
}

/// Cap on redemptions of a reward per user and stream.
#[derive(Debug)]
pub struct RedemptionPerUserStreamLimitSetting {
    pub is_enabled: bool,
    pub max_per_user_per_stream: Option<i64>,
}

/// State of a redemption on the platform.
#[derive(Debug, Clone, Copy, PartialEq, Eq, Structural)]
pub enum RedemptionStatus {
    Canceled,
    Fulfilled,
    Unfulfilled,
}

/// The reward a redemption refers to.
#[derive(Debug)]
pub struct SimpleReward {
    pub id: String,
    pub title: String,
    pub prompt: String,
    pub cost: i64,
}

/// A viewer's claim of a reward, as listed by the platform.
#[derive(Debug)]
pub struct Redemption {
    pub broadcaster_id: String,
    pub broadcaster_login: String,
    pub broadcaster_name: String,
    pub id: String,
    pub user_login: String,
    pub user_id: String,
    pub user_name: String,
    pub user_input: Option<String>,
    pub status: RedemptionStatus,
    /// Time of the claim, as RFC 3339 text.
    pub redeemed_at: String,
    pub reward: SimpleReward,
}

/// A page of redemptions.
#[derive(Debug)]
pub struct RedemptionsResponse {
    pub data: Vec<Redemption>,
}

/// A reward of the channel.
#[derive(Debug)]
pub struct Reward {
    pub broadcaster_id: String,
    pub broadcaster_login: String,
    pub broadcaster_name: String,
    pub id: String,
    pub title: String,
    pub prompt: String,
    pub cost: i32,
    pub image: Option<Image>,
    pub default_image: Image,
    pub background_color: String,
    pub is_enabled: bool,
    pub is_user_input_required: bool,
    pub max_per_stream_setting: RedemptionPerStreamLimitSetting,
    pub max_per_user_per_stream_setting: RedemptionPerUserStreamLimitSetting,
    pub global_cooldown_setting: CooldownSetting,
    pub is_paused: bool,
    pub is_in_stock: bool,
    pub should_redemptions_skip_request_queue: bool,
    pub redemptions_redeemed_current_stream: Option<i32>,
    pub cooldown_expires_at: Option<String>,
}

/// A page of rewards.
#[derive(Debug)]
pub struct RewardsResponse {
    pub data: Vec<Reward>,
}

/// Metadata of an event-subscription message.
#[derive(Debug)]
pub struct MessageMetadata {
    pub message_id: String,
    pub message_type: String,
    pub message_timestamp: String,
}

/// A session of the event-subscription connection.
#[derive(Debug)]
pub struct SessionData {
    pub id: String,
    pub status: String,
    pub keepalive_timeout_seconds: Option<i32>,
    pub reconnect_url: Option<String>,
    pub connected_at: String,
}

/// Payload of the message that opens a session.
#[derive(Debug)]
pub struct WelcomeData {
    pub session: SessionData,
}

/// Payload of a request to reconnect elsewhere.
#[derive(Debug)]
pub struct ReconnectData {
    pub session: SessionData,
}

/// How a subscription's events are delivered.
#[derive(Debug)]
pub struct TransportData {
    pub method: String,
    pub session_id: String,
}

/// A subscription to an event type.
#[derive(Debug)]
pub struct SubscriptionDetail {
    pub id: String,
    pub status: String,
    pub typ: String,
    pub version: String,
    pub cost: i32,
    pub condition: HashMap<String, serde_json::Value>,
    pub transport: TransportData,
    pub created_at: String,
}

/// Payload of a subscription that was revoked.
#[derive(Debug)]
pub struct RevocationData {
    pub subscription: SubscriptionDetail,
}

/// A viewer redeemed a custom reward.
#[derive(Debug)]
pub struct ChannelPointsCustomRewardRedemptionAdd {
    pub id: String,
    pub user_id: String,
    pub user_login: String,
    pub user_name: String,
    pub broadcaster_user_id: String,
    pub broadcaster_user_login: String,
    pub broadcaster_user_name: String,
    pub redeemed_at: String,
    pub reward: SimpleReward,
    pub user_input: Option<String>,
}

/// The event of a notification: the one kind read here, or any other.
#[derive(Debug)]
pub enum EventDetail {
    ChannelPointsCustomRewardRedemptionAdd(ChannelPointsCustomRewardRedemptionAdd),
    Generic(HashMap<String, serde_json::Value>),
}

/// Payload of a notification.
#[derive(Debug)]
pub struct NotificationData {
    pub subscription: SubscriptionDetail,
    pub event: EventDetail,
}

/// The payload of a message, by message type.
#[derive(Debug)]
pub enum Payload {
    Welcome(WelcomeData),
    Keepalive,
    Notification(NotificationData),
    Reconnect(ReconnectData),
    Revocation(RevocationData),
}

/// A message of the event-subscription connection.
#[derive(Debug)]
pub struct WebSocketMessage {
    pub metadata: MessageMetadata,
    pub payload: Payload,
}

} // verus!
