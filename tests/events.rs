use clackbot::events::{message_kind, on_payload, ListenerAction, MessageKind, QUEUE_CAPACITY};
use clackbot::types::{
    ChannelPointsCustomRewardRedemptionAdd, EventDetail, NotificationData, Payload, ReconnectData,
    RevocationData, SessionData, SimpleReward, WelcomeData,
};

#[test]
fn message_types() {
    assert_eq!(message_kind("session_welcome"), Some(MessageKind::Welcome));
    assert_eq!(message_kind("session_keepalive"), Some(MessageKind::Keepalive));
    assert_eq!(message_kind("notification"), Some(MessageKind::Notification));
    assert_eq!(message_kind("session_reconnect"), Some(MessageKind::Reconnect));
    assert_eq!(message_kind("revocation"), Some(MessageKind::Revocation));
    assert_eq!(message_kind("other"), None);
    assert_eq!(QUEUE_CAPACITY, 100);
}

#[test]
fn welcome_subscribes_on_the_session() {
    let welcome = Payload::Welcome(WelcomeData {
        session: SessionData {
            id: "123".to_string(),
            status: "enabled".to_string(),
            keepalive_timeout_seconds: Some(60),
            reconnect_url: Some("wss://example.com".to_string()),
            connected_at: "2021-09-01T00:00:00Z".to_string(),
        },
    });
    match on_payload(welcome) {
        ListenerAction::Subscribe(s) => {
            assert_eq!(s.session_id, "123");
            assert_eq!(s.version, "1");
            assert_eq!(s.event_type, "channel.channel_points_custom_reward_redemption.add");
        }
        other => panic!("unexpected {:?}", other),
    }
    assert!(matches!(on_payload(Payload::Keepalive), ListenerAction::Nothing));
}

fn subscription() -> clackbot::types::SubscriptionDetail {
    clackbot::types::SubscriptionDetail {
        id: "sub".to_string(),
        status: "enabled".to_string(),
        typ: "channel.channel_points_custom_reward_redemption.add".to_string(),
        version: "1".to_string(),
        cost: 0,
        condition: std::collections::HashMap::new(),
        transport: clackbot::types::TransportData {
            method: "websocket".to_string(),
            session_id: "123".to_string(),
        },
        created_at: "2024-05-04T02:16:30Z".to_string(),
    }
}

#[test]
fn only_notifications_are_queued() {
    let event = ChannelPointsCustomRewardRedemptionAdd {
        id: "169d650a-d573-41f2-bff0-8e51ac6f8d40".to_string(),
        user_id: "11028617".to_string(),
        user_login: "misterkeebs".to_string(),
        user_name: "MisterKeebs".to_string(),
        broadcaster_user_id: "11028617".to_string(),
        broadcaster_user_login: "misterkeebs".to_string(),
        broadcaster_user_name: "MisterKeebs".to_string(),
        redeemed_at: "2024-05-04T02:16:30.409485142Z".to_string(),
        reward: SimpleReward {
            id: "4d2f55b1-15ed-45b2-9902-ddff7db91c7c".to_string(),
            title: "3 Clacks".to_string(),
            prompt: "3 Clacks".to_string(),
            cost: 100,
        },
        user_input: Some(String::new()),
    };
    let n = NotificationData {
        subscription: subscription(),
        event: EventDetail::ChannelPointsCustomRewardRedemptionAdd(event),
    };
    match on_payload(Payload::Notification(n)) {
        ListenerAction::Enqueue(d) => match d.event {
            EventDetail::ChannelPointsCustomRewardRedemptionAdd(e) => {
                assert_eq!(e.reward.title, "3 Clacks")
            }
            other => panic!("unexpected {:?}", other),
        },
        other => panic!("unexpected {:?}", other),
    }
    let revoked = Payload::Revocation(RevocationData { subscription: subscription() });
    assert!(matches!(on_payload(revoked), ListenerAction::Revoked(_)));
    let reconnect = Payload::Reconnect(ReconnectData {
        session: SessionData {
            id: "9".to_string(),
            status: "reconnecting".to_string(),
            keepalive_timeout_seconds: None,
            reconnect_url: Some("wss://example.com".to_string()),
            connected_at: "2021-09-01T00:00:00Z".to_string(),
        },
    });
    assert!(matches!(on_payload(reconnect), ListenerAction::Reconnect(_)));
}
