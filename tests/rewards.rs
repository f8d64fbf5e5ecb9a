use clackbot::rewards::{desired_rewards, has_title, rewards_to_create, RewardSpec};
use clackbot::types::Reward;

#[test]
fn builder_defaults() {
    let r = Reward::builder("3 Clacks".to_string(), 100)
        .prompt("Get 3".to_string())
        .build();
    assert_eq!(r.title, "3 Clacks");
    assert_eq!(r.cost, 100);
    assert_eq!(r.prompt, "Get 3");
    assert_eq!(r.id, "");
    assert_eq!(r.background_color, "#6441A4");
    assert!(r.is_enabled && r.is_in_stock);
    assert!(!r.is_paused && !r.is_user_input_required);
    assert!(!r.max_per_stream_setting.is_enabled);
    assert!(!r.global_cooldown_setting.is_enabled);
    assert_eq!(r.global_cooldown_setting.global_cooldown_seconds, 0);
    assert_eq!(
        r.default_image.url_4x.as_deref(),
        Some("https://static-cdn.jtvnw.net/custom-reward-images/default-4.png")
    );
    assert_eq!(
        r.image.unwrap().url_1x.as_deref(),
        Some("https://static-cdn.jtvnw.net/custom-reward-images/default-1.png")
    );
}

#[test]
fn catalog_creates_only_missing() {
    let desired = desired_rewards();
    let titles: Vec<&str> = desired.iter().map(|d| d.title.as_str()).collect();
    assert_eq!(titles, vec!["3 Clacks", "10 Clacks", "20 Clacks"]);
    assert_eq!(desired[1].cost, 350);
    assert_eq!(desired[1].prompt, "5 Clacks");

    let mut existing = vec![Reward::builder("10 Clacks".to_string(), 1).build()];
    let first = rewards_to_create(&desired, &existing);
    let made: Vec<(&str, i32)> = first.iter().map(|r| (r.title.as_str(), r.cost)).collect();
    assert_eq!(made, vec![("3 Clacks", 100), ("20 Clacks", 600)]);
    assert_eq!(first[1].prompt, "20 Clacks");

    existing.extend(first);
    let second = rewards_to_create(&desired, &existing);
    assert!(second.is_empty());
}

#[test]
fn catalog_from_empty_and_title_match_is_exact() {
    let desired = vec![RewardSpec { title: "3 Clacks".to_string(), cost: 1, prompt: String::new() }];
    let existing = vec![Reward::builder("3 clacks".to_string(), 1).build()];
    assert!(!has_title(&existing, &"3 Clacks".to_string()));
    assert_eq!(rewards_to_create(&desired, &existing).len(), 1);
    assert_eq!(rewards_to_create(&desired, &Vec::new()).len(), 1);
}
