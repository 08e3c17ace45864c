use snake::flow::{results_text, results_title, GameFlow, GameMode, GameState, MenuButtonAction};
use snake::logic::GameEvent;
use snake::timer::{Countdown, GameTimer, REFRESH_RATE};

#[test]
fn splash_gives_way_to_menu_after_a_second() {
    let mut f = GameFlow::new();
    assert_eq!(f.state, GameState::Splash);
    assert!(!f.countdown(600_000_000));
    assert_eq!(f.state, GameState::Splash);
    assert!(f.countdown(400_000_000));
    assert_eq!(f.state, GameState::Menu);
    assert!(!f.countdown(5_000_000_000));
    assert_eq!(f.state, GameState::Menu);
}

#[test]
fn play_pause_results_and_back() {
    let mut f = GameFlow::new();
    f.countdown(1_000_000_000);
    assert_eq!(f.play_label(), "Play");
    assert!(!f.menu_action(MenuButtonAction::Play));
    assert_eq!(f.state, GameState::Game);
    assert!(f.simulation_runs());
    f.toggle_pause();
    assert_eq!(f.mode, GameMode::Pause);
    assert!(!f.simulation_runs());
    f.toggle_pause();
    assert_eq!(f.mode, GameMode::Running);
    f.end_game();
    assert_eq!(f.state, GameState::Results);
    assert!(!f.simulation_runs());
    assert!(!f.countdown(1_999_999_999));
    assert!(f.countdown(1));
    assert_eq!(f.state, GameState::Menu);
    assert_eq!(f.results.elapsed, 0);
    assert_eq!(f.play_label(), "Replay");
}

#[test]
fn quit_only_from_menu() {
    let mut f = GameFlow::new();
    assert!(!f.menu_action(MenuButtonAction::Quit));
    f.countdown(1_000_000_000);
    assert!(f.menu_action(MenuButtonAction::Quit));
    assert_eq!(f.state, GameState::Menu);
}

#[test]
fn pause_only_in_game() {
    let mut f = GameFlow::new();
    f.toggle_pause();
    assert_eq!(f.mode, GameMode::Running);
    f.end_game();
    assert_eq!(f.state, GameState::Splash);
}

#[test]
fn results_texts() {
    let lost = GameEvent::GameOver("You hit a wall!".to_string());
    assert_eq!(results_title(&lost), "Game over!");
    assert_eq!(results_text(&lost), "You hit a wall!");
    assert_eq!(results_title(&GameEvent::GameWon), "Good job!");
    assert_eq!(results_text(&GameEvent::GameWon), "Congratulations!");
}

#[test]
fn repeating_timer_keeps_remainder() {
    let mut t = GameTimer::new(10);
    assert!(!t.tick(9));
    assert!(t.tick(4));
    assert_eq!(t.elapsed, 3);
    assert!(t.tick(25));
    assert_eq!(t.elapsed, 8);
    t.reset();
    assert_eq!(t.elapsed, 0);
    assert_eq!(GameTimer::from_rate(REFRESH_RATE).period, 142_857_142);
}

#[test]
fn countdown_stays_finished() {
    let mut c = Countdown::new(10);
    assert!(!c.tick(4));
    assert!(c.tick(u64::MAX));
    assert_eq!(c.elapsed, 10);
    assert!(c.finished());
    c.reset();
    assert!(!c.finished());
}
