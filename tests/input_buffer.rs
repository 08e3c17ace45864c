use snake::direction::SnakeDirection;
use snake::direction::SnakeDirection::{Down, Left, Right, Up};
use snake::input::{pressed_direction, PlayerInput};

#[test]
fn resolve_scans_newest_first() {
    let mut input = PlayerInput::new();
    input.push(SnakeDirection::Left);
    input.push(SnakeDirection::Up);
    assert_eq!(input.resolve(SnakeDirection::Right), Some(SnakeDirection::Up));
    assert_eq!(input.len(), 0);
}

#[test]
fn resolve_skips_reversals() {
    let mut input = PlayerInput::new();
    input.push(SnakeDirection::Up);
    input.push(SnakeDirection::Left);
    assert_eq!(input.resolve(SnakeDirection::Right), Some(SnakeDirection::Up));
    assert_eq!(input.len(), 0);
}

#[test]
fn resolve_with_only_reversals_keeps_heading() {
    let mut input = PlayerInput::new();
    input.push(SnakeDirection::Down);
    input.push(SnakeDirection::Down);
    assert_eq!(input.resolve(SnakeDirection::Up), None);
    assert_eq!(input.len(), 0);
}

#[test]
fn resolve_empty_queue() {
    let mut input = PlayerInput::new();
    assert_eq!(input.resolve(SnakeDirection::Left), None);
}

#[test]
fn same_heading_is_accepted() {
    let mut input = PlayerInput::new();
    input.push(SnakeDirection::Left);
    assert_eq!(input.resolve(SnakeDirection::Left), Some(SnakeDirection::Left));
}

#[test]
fn heading_never_reverses_over_all_queues() {
    let all = [Left, Right, Up, Down];
    for &heading in &all {
        for &a in &all {
            for &b in &all {
                let mut input = PlayerInput::new();
                input.push(a);
                input.push(b);
                let next = input.resolve(heading).unwrap_or(heading);
                assert_ne!(next, heading.opposite());
            }
        }
    }
}

#[test]
fn opposites_and_reversals() {
    assert_eq!(Left.opposite(), Right);
    assert_eq!(Up.opposite(), Down);
    assert!(Right.is_reversal(Left));
    assert!(Down.is_reversal(Up));
    assert!(!Up.is_reversal(Left));
    assert!(!Up.is_reversal(Up));
    assert_eq!(Left.unit(), (-1, 0));
    assert_eq!(Right.unit(), (1, 0));
    assert_eq!(Up.unit(), (0, 1));
    assert_eq!(Down.unit(), (0, -1));
}

#[test]
fn last_held_key_wins() {
    assert_eq!(pressed_direction(false, false, false, false), None);
    assert_eq!(pressed_direction(true, false, false, false), Some(SnakeDirection::Up));
    assert_eq!(pressed_direction(true, true, false, false), Some(SnakeDirection::Down));
    assert_eq!(pressed_direction(true, true, true, false), Some(SnakeDirection::Left));
    assert_eq!(pressed_direction(true, true, true, true), Some(SnakeDirection::Right));
    assert_eq!(pressed_direction(false, true, false, true), Some(SnakeDirection::Right));
}
