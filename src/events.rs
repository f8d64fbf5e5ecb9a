//! The event-subscription connection: which message types exist, and what
//! the reading loop does with each message before anything is queued.

use vstd::prelude::*;
use crate::text::str_eq;
use crate::types::{NotificationData, Payload, ReconnectData, RevocationData};

verus! {

/// Room in the queue between the reading loop and the consumer; the reader
/// waits when it is full.
pub const QUEUE_CAPACITY: usize = 100;

/// The event type this bot subscribes to.
pub open spec fn redemption_event_type() -> Seq<char> {
    "channel.channel_points_custom_reward_redemption.add"@
}

/// The discriminator of a message.
#[derive(Debug, Clone, Copy, PartialEq, Eq, Structural)]
pub enum MessageKind {
    Welcome,
    Keepalive,
    Notification,
    Reconnect,
    Revocation,
}

/// The kind named by a message's `message_type`.
pub open spec fn kind_of(message_type: Seq<char>) -> Option<MessageKind> {
    if message_type == "session_welcome"@ {
        Some(MessageKind::Welcome)
    } else if message_type == "session_keepalive"@ {
        Some(MessageKind::Keepalive)
    } else if message_type == "notification"@ {
        Some(MessageKind::Notification)
    } else if message_type == "session_reconnect"@ {
        Some(MessageKind::Reconnect)
    } else if message_type == "revocation"@ {
        Some(MessageKind::Revocation)
    } else {
        None
    }
}

/// Reads a message's `message_type`; `None` for an unknown type.
pub fn message_kind(message_type: &str) -> (r: Option<MessageKind>)
    ensures
        r == kind_of(message_type@),
{
    if str_eq(message_type, "session_welcome") {
        Some(MessageKind::Welcome)
    } else if str_eq(message_type, "session_keepalive") {
        Some(MessageKind::Keepalive)
    } else if str_eq(message_type, "notification") {
        Some(MessageKind::Notification)
    } else if str_eq(message_type, "session_reconnect") {
        Some(MessageKind::Reconnect)
    } else if str_eq(message_type, "revocation") {
        Some(MessageKind::Revocation)
    } else {
        None
    }
}

/// A request to deliver events of one type to a session.
#[derive(Debug)]
pub struct SubscriptionRequest {
    pub session_id: String,
    pub version: String,
    pub event_type: String,
}

/// What the reading loop does with one message.
#[derive(Debug)]
pub enum ListenerAction {
    /// A session opened: subscribe to redemptions on it right away.
    Subscribe(SubscriptionRequest),
    /// Nothing to do.
    Nothing,
    /// Hand the notification to the consumer through the queue.
    Enqueue(NotificationData),
    /// The platform asks to reconnect elsewhere: report it.
    Reconnect(ReconnectData),
    /// A subscription was revoked: report it.
    Revoked(RevocationData),
}

/// Decides what the reading loop does with a message. Only notifications
/// reach the queue; a session's welcome is answered at once with a
/// subscription to redemptions on that session.
pub fn on_payload(payload: Payload) -> (r: ListenerAction)
    ensures
        match payload {
            Payload::Welcome(w) => match r {
                ListenerAction::Subscribe(s) => s.session_id@ == w.session.id@ && s.version@
                    == "1"@ && s.event_type@ == redemption_event_type(),
                _ => false,
            },
            Payload::Keepalive => r is Nothing,
            Payload::Notification(n) => r == ListenerAction::Enqueue(n),
            Payload::Reconnect(d) => r == ListenerAction::Reconnect(d),
            Payload::Revocation(d) => r == ListenerAction::Revoked(d),
        },
{
    match payload {
        Payload::Welcome(w) => ListenerAction::Subscribe(
            SubscriptionRequest {
                session_id: w.session.id,
                version: String::from_str("1"),
                event_type: String::from_str("channel.channel_points_custom_reward_redemption.add"),
            },
        ),
        Payload::Keepalive => ListenerAction::Nothing,
        Payload::Notification(n) => ListenerAction::Enqueue(n),
        Payload::Reconnect(d) => ListenerAction::Reconnect(d),
        Payload::Revocation(d) => ListenerAction::Revoked(d),
    }
}

} // verus!
