use clackbot::live::{LiveMetric, MetricError};
use clackbot::server::{finish_round, set_live_wpm, LiveUpdate, RoundEnd};
use clackbot::wpm::WpmGame;

#[test]
fn finishing_a_round() {
    let mut game = WpmGame::new();
    assert!(matches!(finish_round(&mut game, Some("90")), RoundEnd::NotRunning));
    game.start();
    assert!(matches!(finish_round(&mut game, None), RoundEnd::BadRequest));
    assert!(matches!(finish_round(&mut game, Some("fast")), RoundEnd::BadRequest));
    assert!(game.is_running());
    game.add_guess("purry", 99).unwrap();
    game.add_guess("keeb", 80).unwrap();
    match finish_round(&mut game, Some("98")) {
        RoundEnd::Finished(t) => assert_eq!(
            t,
            "typing test ended with 98 WPM. The the winner is purry with a guess of 99 WPM."
        ),
        other => panic!("unexpected {:?}", other),
    }
    assert!(!game.is_running());
    game.start();
    match finish_round(&mut game, Some("120")) {
        RoundEnd::Finished(t) => {
            assert_eq!(t, "MrKeebs did 120 WPM but still is forever alone: no guesses :-(")
        }
        other => panic!("unexpected {:?}", other),
    }
    assert_eq!(game.last_winner(), Some("purry".to_string()));
}

#[test]
fn publishing_live_value() {
    let mut live = LiveMetric::new();
    let mut game = WpmGame::new();
    assert_eq!(live.get(), 0);
    assert_eq!(set_live_wpm(&game, &mut live, Some("80")), LiveUpdate::Ignored);
    assert_eq!(live.get(), 0);
    game.start();
    assert_eq!(set_live_wpm(&game, &mut live, Some("80")), LiveUpdate::Published(80));
    assert_eq!(live.get(), 80);
    assert_eq!(set_live_wpm(&game, &mut live, Some("256")), LiveUpdate::BadRequest);
    assert_eq!(set_live_wpm(&game, &mut live, None), LiveUpdate::BadRequest);
    assert_eq!(live.get(), 80);
}

#[test]
fn live_metric_range() {
    let mut live = LiveMetric::new();
    assert_eq!(live.set(255), Ok(()));
    assert_eq!(live.get(), 255);
    assert_eq!(live.set(256), Err(MetricError::InvalidValue));
    assert_eq!(live.set(-1), Err(MetricError::InvalidValue));
    assert_eq!(live.get(), 255);
    assert_eq!(live.set(0), Ok(()));
    assert_eq!(live.get(), 0);
}

#[test]
fn standings_against_live_value() {
    let mut live = LiveMetric::new();
    let mut game = WpmGame::new();
    game.start();
    game.add_guess("a", 70).unwrap();
    game.add_guess("b", 90).unwrap();
    game.add_guess("c", 85).unwrap();
    set_live_wpm(&game, &mut live, Some("88"));
    let s = game.standings(live.get());
    let order: Vec<(&str, usize)> = s.iter().map(|x| (x.user.as_str(), x.distance)).collect();
    assert_eq!(order, vec![("b", 2), ("c", 3), ("a", 18)]);
}
