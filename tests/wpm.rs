use clackbot::wpm::{GameError, WpmGame};

#[test]
fn test_not_running() {
    let mut game = WpmGame::new();
    assert!(game.add_guess("misterkeebs", 100).is_err());
}

#[test]
fn test_tied_winner_under() {
    let mut game = WpmGame::new();
    game.start();
    game.add_guess("misterkeebs", 98).unwrap();
    game.add_guess("forbidden404", 103).unwrap();
    game.add_guess("owesome", 99).unwrap();
    game.add_guess("purryoverlord", 99).unwrap();

    assert_eq!(game.winner(100), Some(("owesome".to_string(), 99)));
}

#[test]
fn test_winner_over() {
    let mut game = WpmGame::new();
    game.start();
    game.add_guess("forbidden404", 103).unwrap();
    game.add_guess("purryoverlord", 99).unwrap();
    game.add_guess("misterkeebs", 97).unwrap();

    assert_eq!(game.winner(98), Some(("purryoverlord".to_string(), 99)));
}

#[test]
fn test_winner_exact() {
    let mut game = WpmGame::new();
    game.start();
    game.add_guess("misterkeebs", 98).unwrap();
    game.add_guess("forbidden404", 103).unwrap();
    game.add_guess("owesome", 99).unwrap();
    game.add_guess("purryoverlord", 99).unwrap();

    assert_eq!(game.winner(99), Some(("owesome".to_string(), 99)));
}

#[test]
fn test_no_guesses() {
    let mut game = WpmGame::new();
    game.start();
    assert!(game.winner(99).is_none());
}

#[test]
fn tie_goes_to_first_guesser() {
    let mut game = WpmGame::new();
    game.start();
    game.add_guess("A", 99).unwrap();
    game.add_guess("B", 99).unwrap();
    assert_eq!(game.winner(100), Some(("A".to_string(), 99)));
    assert_eq!(game.last_winner(), Some("A".to_string()));
    assert!(game.guesses().is_empty());
    assert!(!game.is_running());
}

#[test]
fn tie_follows_arrival_not_alphabet() {
    let mut game = WpmGame::new();
    game.start();
    game.add_guess("forbidden", 103).unwrap();
    game.add_guess("purry", 99).unwrap();
    game.add_guess("mister", 97).unwrap();
    assert_eq!(game.winner(98), Some(("purry".to_string(), 99)));
}

#[test]
fn score_without_guesses_closes_round() {
    let mut game = WpmGame::new();
    game.start();
    assert_eq!(game.winner(50), None);
    assert!(!game.is_running());
    assert_eq!(game.last_winner(), None);
    assert_eq!(
        game.add_guess("late", 10),
        Err(GameError::NotRunning)
    );
}

#[test]
fn guess_while_idle_changes_nothing() {
    let mut game = WpmGame::new();
    game.start();
    game.add_guess("a", 1).unwrap();
    game.winner(1);
    assert_eq!(game.add_guess("b", 2), Err(GameError::NotRunning));
    assert!(game.guesses().is_empty());
    assert!(!game.is_running());
    assert_eq!(game.last_winner(), Some("a".to_string()));
    assert_eq!(
        GameError::NotRunning.message(),
        "there is no typing test going on at the moment"
    );
}

#[test]
fn latest_guess_replaces_earlier() {
    let mut game = WpmGame::new();
    game.start();
    game.add_guess("a", 10).unwrap();
    game.add_guess("b", 60).unwrap();
    game.add_guess("a", 95).unwrap();
    assert_eq!(game.guesses().len(), 2);
    assert_eq!(game.guesses()[0].user, "a");
    assert_eq!(game.guesses()[0].wpm, 95);
    assert_eq!(game.guesses()[1].wpm, 60);
    // only the latest value of "a" counts: 95 beats 60 for target 100
    assert_eq!(game.winner(100), Some(("a".to_string(), 95)));
}

#[test]
fn start_clears_guesses_keeps_last_winner() {
    let mut game = WpmGame::new();
    game.start();
    game.add_guess("a", 10).unwrap();
    game.winner(10);
    game.start();
    game.add_guess("b", 10).unwrap();
    game.start();
    assert!(game.guesses().is_empty());
    assert!(game.is_running());
    assert_eq!(game.last_winner(), Some("a".to_string()));
}

#[test]
fn standings_sorted_and_stable() {
    let mut game = WpmGame::new();
    game.start();
    game.add_guess("far", 150).unwrap();
    game.add_guess("over", 105).unwrap();
    game.add_guess("under", 95).unwrap();
    game.add_guess("exact", 100).unwrap();
    game.add_guess("under2", 95).unwrap();
    let s = game.standings(100);
    let names: Vec<&str> = s.iter().map(|x| x.user.as_str()).collect();
    assert_eq!(names, vec!["exact", "over", "under", "under2", "far"]);
    let dists: Vec<usize> = s.iter().map(|x| x.distance).collect();
    assert_eq!(dists, vec![0, 5, 5, 5, 50]);
    assert_eq!(s[4].wpm, 150);
    // reading standings does not change the round
    assert_eq!(game.guesses().len(), 5);
    assert!(game.is_running());
}

#[test]
fn standings_empty_round() {
    let game = WpmGame::new();
    assert!(game.standings(42).is_empty());
}

#[test]
fn distance_of_large_guess() {
    assert_eq!(clackbot::wpm::abs_diff(3, 10), 7);
    assert_eq!(clackbot::wpm::abs_diff(10, 3), 7);
    assert_eq!(clackbot::wpm::abs_diff(usize::MAX, 0), usize::MAX);
}
