use clackbot::types::{Redemption, RedemptionStatus, SimpleReward};
use clackbot::ledger::{
    claim_daily, credit_message, daily_transaction, daily_result, daily_wait_hours, daily_weights, link_instruction,
    redemption_transaction, DailyResult, RedemptionPlan, Reconciler, User,
};

fn member(id: i32, clacks: i32, twitch_name: Option<&str>) -> User {
    User {
        id,
        username: "keeb".to_string(),
        discord_id: Some("42".to_string()),
        discord_name: None,
        twitch_id: Some("11028617".to_string()),
        twitch_name: twitch_name.map(|s| s.to_string()),
        clacks,
        modified_at: None,
        created_at: None,
        last_daily_at: None,
    }
}

#[test]
fn plans_for_each_case() {
    let rec = Reconciler::new();
    let u = member(7, 10, Some("MisterKeebs"));
    assert_eq!(rec.plan("r1", "No Number Here", Some(&u)), RedemptionPlan::NoAmount);
    assert_eq!(rec.plan("r1", "3 Clacks", None), RedemptionPlan::NotLinked);
    assert_eq!(
        rec.plan("r1", "3 Clacks", Some(&u)),
        RedemptionPlan::Credit { user_id: 7, amount: 3, new_balance: 13 }
    );
    let rich = member(8, i32::MAX - 2, None);
    assert_eq!(rec.plan("r1", "3 Clacks", Some(&rich)), RedemptionPlan::BalanceOverflow);
}

#[test]
fn same_redemption_credited_once() {
    let mut rec = Reconciler::new();
    let mut u = member(7, 0, None);
    let mut total = 0;
    let attempts = ["r1", "r2", "r1", "r1", "r2", "r3"];
    let titles = ["3 Clacks", "20 Clacks", "3 Clacks", "3 Clacks", "20 Clacks", "10 Clacks"];
    for (id, title) in attempts.iter().zip(titles.iter()) {
        let steps = rec.steps(id, title, "keeb", Some(&u), true, None);
        if let RedemptionPlan::Credit { amount, new_balance, .. } = steps.plan {
            total += amount;
            u.clacks = new_balance;
            rec.record(id);
        }
    }
    assert_eq!(total, 3 + 20 + 10);
    assert_eq!(u.clacks, 33);
    assert!(rec.has_credited("r1"));
    assert!(rec.has_credited("r3"));
    assert!(!rec.has_credited("r4"));
    assert_eq!(
        rec.plan("r2", "20 Clacks", Some(&u)),
        RedemptionPlan::AlreadyCredited
    );
}

#[test]
fn credit_steps_carry_ledger_line_and_message() {
    let rec = Reconciler::new();
    let u = member(7, 10, Some("MisterKeebs"));
    let s = rec.steps("r1", "3 Clacks", "MisterKeebs", Some(&u), true, None);
    assert!(s.acknowledge);
    let t = s.transaction.unwrap();
    assert_eq!(t.user_id, 7);
    assert_eq!(t.clacks, 3);
    assert_eq!(t.description, "Redeemed Twitch reward '3 Clacks'");
    assert_eq!(
        s.message.unwrap(),
        "MisterKeebs your \"3 Clacks\" reward has been processed! You've got credited 3 clacks, you now have 13 clacks."
    );
}

#[test]
fn unlinked_viewer_is_told_to_link() {
    let rec = Reconciler::new();
    let s = rec.steps("r1", "3 Clacks", "Viewer", None, true, Some("https://discord.gg/x"));
    assert_eq!(s.plan, RedemptionPlan::NotLinked);
    assert!(!s.acknowledge);
    assert!(s.transaction.is_none());
    assert_eq!(
        s.message.unwrap(),
        "Viewer you need to link your Twitch account in our Discord: https://discord.gg/x using the /link command on the #bot-spam channel. Once you finish, all pending rewards will be processed automatically."
    );
    let quiet = rec.steps("r1", "3 Clacks", "Viewer", None, false, None);
    assert!(quiet.message.is_none());
}

#[test]
fn title_without_number_is_left_alone() {
    let rec = Reconciler::new();
    let u = member(7, 10, None);
    let s = rec.steps("r1", "No Number Here", "keeb", Some(&u), true, None);
    assert_eq!(s.plan, RedemptionPlan::NoAmount);
    assert!(!s.acknowledge);
    assert!(s.transaction.is_none());
    assert!(s.message.is_none());
}

#[test]
fn already_credited_is_only_acknowledged() {
    let mut rec = Reconciler::new();
    rec.record("r1");
    rec.record("r1");
    let u = member(7, 10, None);
    let s = rec.steps("r1", "3 Clacks", "keeb", Some(&u), true, None);
    assert_eq!(s.plan, RedemptionPlan::AlreadyCredited);
    assert!(s.acknowledge);
    assert!(s.transaction.is_none());
    assert!(s.message.is_none());
}

#[test]
fn messages_and_lines() {
    let u = member(1, 0, None);
    assert_eq!(
        credit_message(&u, "20 Clacks", 20, -5),
        "keeb your \"20 Clacks\" reward has been processed! You've got credited 20 clacks, you now have -5 clacks."
    );
    assert_eq!(
        link_instruction("v", None),
        "v you need to link your Twitch account in our Discord using the /link command on the #bot-spam channel. Once you finish, all pending rewards will be processed automatically."
    );
    let t = redemption_transaction(3, "x", 9);
    assert_eq!((t.user_id, t.clacks, t.description.as_str()), (3, 9, "Redeemed Twitch reward 'x'"));
}

#[test]
fn daily_waits_whole_hours() {
    let day = 24 * 3600;
    assert_eq!(daily_wait_hours(1_000_000, None), None);
    assert_eq!(daily_wait_hours(1_000_000, Some(1_000_000)), Some(24));
    assert_eq!(daily_wait_hours(1_000_000 + 3599, Some(1_000_000)), Some(24));
    assert_eq!(daily_wait_hours(1_000_000 + 3600, Some(1_000_000)), Some(23));
    assert_eq!(daily_wait_hours(1_000_000 + day - 1, Some(1_000_000)), Some(1));
    assert_eq!(daily_wait_hours(1_000_000 + day, Some(1_000_000)), None);
    // a claim stamped in the future blocks for longer
    assert_eq!(daily_wait_hours(1_000_000, Some(1_000_000 + 7200)), Some(26));
    assert_eq!(daily_wait_hours(i64::MAX, Some(i64::MIN)), None);
}

#[test]
fn daily_results() {
    assert_eq!(daily_result(100, Some(100), 3), DailyResult::AlreadyClaimed(24));
    assert_eq!(daily_result(100, None, 0), DailyResult::Success(1));
    assert_eq!(daily_result(100, None, 9), DailyResult::Success(10));
    assert_eq!(daily_weights(), vec![1000, 512, 256, 128, 64, 32, 16, 8, 4, 1]);
    assert_eq!(claim_daily(100, Some(90)), Some(DailyResult::AlreadyClaimed(24)));
    for _ in 0..50 {
        match claim_daily(1_000_000, None) {
            Some(DailyResult::Success(a)) => assert!((1..=10).contains(&a)),
            other => panic!("unexpected {:?}", other),
        }
    }
}

#[test]
fn daily_ledger_line() {
    let t = daily_transaction(4, 7);
    assert_eq!((t.user_id, t.clacks, t.description.as_str()), (4, 7, "Daily clacks"));
}

#[test]
fn member_processes_listed_redemption() {
    let u = member(7, 1, Some("MisterKeebs"));
    let r = Redemption {
        broadcaster_id: "1".to_string(),
        broadcaster_login: "b".to_string(),
        broadcaster_name: "B".to_string(),
        id: "x".to_string(),
        user_login: "misterkeebs".to_string(),
        user_id: "11028617".to_string(),
        user_name: "MisterKeebs".to_string(),
        user_input: None,
        status: RedemptionStatus::Unfulfilled,
        redeemed_at: "2024-05-04T02:16:30Z".to_string(),
        reward: SimpleReward { id: "r".to_string(), title: "20 Clacks".to_string(), prompt: String::new(), cost: 600 },
    };
    let rec = Reconciler::new();
    let s = u.process_redemption(&rec, &r);
    assert_eq!(s.plan, RedemptionPlan::Credit { user_id: 7, amount: 20, new_balance: 21 });
    assert_eq!(s.transaction.unwrap().description, "Redeemed Twitch reward '20 Clacks'");
}

#[test]
fn link_request_sent_once_per_redemption() {
    let mut rec = Reconciler::new();
    let first = rec.steps("r1", "3 Clacks", "Viewer", None, true, None);
    assert!(first.message.is_some());
    assert!(!rec.has_notified("r1"));
    rec.mark_notified("r1");
    assert!(rec.has_notified("r1"));
    let again = rec.steps("r1", "3 Clacks", "Viewer", None, true, None);
    assert_eq!(again.plan, RedemptionPlan::NotLinked);
    assert!(again.message.is_none());
    let other = rec.steps("r2", "3 Clacks", "Viewer", None, true, None);
    assert!(other.message.is_some());
    // asking does not count as crediting
    assert!(!rec.has_credited("r1"));
}
