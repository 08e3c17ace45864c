use snake::direction::SnakeDirection;
use snake::flow::{GameMode, GameState, MenuButtonAction};
use snake::grid::{Grid, GridPos, GRID_HEIGHT, GRID_WIDTH};
use snake::logic::{FrameOutcome, GameEvent};
use snake::session::Session;

const TICK: u64 = 142_857_142;

fn to_menu(s: &mut Session) {
    assert_eq!(s.update(1_000_000_000), FrameOutcome::Idle);
    assert_eq!(s.flow.state, GameState::Menu);
}

#[test]
fn session_starts_on_splash_and_reaches_menu() {
    let mut s = Session::new(Grid::new(GRID_WIDTH, GRID_HEIGHT));
    assert_eq!(s.flow.state, GameState::Splash);
    assert!(s.game.is_none());
    assert_eq!(s.update(999_999_999), FrameOutcome::Idle);
    assert_eq!(s.flow.state, GameState::Splash);
    assert_eq!(s.update(1), FrameOutcome::Idle);
    assert_eq!(s.flow.state, GameState::Menu);
}

#[test]
fn session_play_starts_fresh_game() {
    let mut s = Session::new(Grid::new(GRID_WIDTH, GRID_HEIGHT));
    to_menu(&mut s);
    s.press(SnakeDirection::Left);
    assert!(!s.menu_action(MenuButtonAction::Play));
    assert_eq!(s.flow.state, GameState::Game);
    let g = s.game.as_ref().expect("a game");
    assert_eq!(g.head.position, GridPos { x: 0, y: 0 });
    assert_eq!(g.scoreboard.value, 0);
    assert_eq!(g.input.len(), 0);
}

#[test]
fn session_ticks_and_queues_input() {
    let mut s = Session::new(Grid::new(GRID_WIDTH, GRID_HEIGHT));
    to_menu(&mut s);
    s.menu_action(MenuButtonAction::Play);
    s.press(SnakeDirection::Down);
    s.press(SnakeDirection::Right);
    assert_eq!(s.game.as_ref().unwrap().input.len(), 2);
    assert!(matches!(s.update(TICK), FrameOutcome::Ticked(_)));
    let g = s.game.as_ref().unwrap();
    assert_eq!(g.head.direction, SnakeDirection::Right);
    assert_eq!(g.head.position, GridPos { x: 1, y: 0 });
}

#[test]
fn session_pause_freezes_game() {
    let mut s = Session::new(Grid::new(GRID_WIDTH, GRID_HEIGHT));
    to_menu(&mut s);
    s.menu_action(MenuButtonAction::Play);
    s.toggle_pause();
    assert_eq!(s.flow.mode, GameMode::Pause);
    s.press(SnakeDirection::Left);
    assert_eq!(s.update(10 * TICK), FrameOutcome::Idle);
    let g = s.game.as_ref().unwrap();
    assert_eq!(g.head.position, GridPos { x: 0, y: 0 });
    assert_eq!(g.input.len(), 0);
    s.toggle_pause();
    assert_eq!(s.flow.mode, GameMode::Running);
    assert!(matches!(s.update(TICK), FrameOutcome::Ticked(_)));
}

#[test]
fn session_wall_leads_to_results_then_menu() {
    let mut s = Session::new(Grid::new(3, 3));
    to_menu(&mut s);
    s.menu_action(MenuButtonAction::Play);
    let mut ticks = 0;
    while s.flow.state == GameState::Game && ticks < 10 {
        s.press(SnakeDirection::Left);
        s.update(TICK);
        ticks += 1;
    }
    assert_eq!(s.flow.state, GameState::Results);
    let g = s.game.as_ref().unwrap();
    match &g.event {
        Some(GameEvent::GameOver(why)) => assert_eq!(why, "You hit a wall!"),
        Some(GameEvent::GameWon) => panic!("cannot win by walking left"),
        None => panic!("the game should have ended"),
    }
    assert_eq!(s.update(1_999_999_999), FrameOutcome::Idle);
    assert_eq!(s.flow.state, GameState::Results);
    assert_eq!(s.update(1), FrameOutcome::Idle);
    assert_eq!(s.flow.state, GameState::Menu);
    assert_eq!(s.flow.play_label(), "Replay");
    assert!(s.menu_action(MenuButtonAction::Quit));
}
