use tetrs::mode::{GameMode, ModeState};

#[test]
fn test_mode_names() {
    assert_eq!(GameMode::Marathon.name(), "Marathon");
    assert_eq!(GameMode::Sprint.name(), "Sprint");
    assert_eq!(GameMode::Ultra.name(), "Ultra");
    assert_eq!(GameMode::all().len(), 3);
}

#[test]
fn test_starting_levels() {
    assert_eq!(GameMode::Marathon.starting_level(), 1);
    assert_eq!(GameMode::Sprint.starting_level(), 5);
    assert_eq!(GameMode::Ultra.starting_level(), 5);
}

#[test]
fn test_completion_rules() {
    let marathon = ModeState::new(GameMode::Marathon);
    assert!(!marathon.is_complete(10_000));

    let sprint = ModeState::new(GameMode::Sprint);
    assert!(!sprint.is_complete(39));
    assert!(sprint.is_complete(40));

    let mut ultra = ModeState::new(GameMode::Ultra);
    ultra.start(0);
    ultra.update(179_999);
    assert!(!ultra.is_complete(0));
    ultra.update(180_000);
    assert!(ultra.is_complete(0));
}

#[test]
fn test_remaining_queries() {
    let mut ultra = ModeState::new(GameMode::Ultra);
    ultra.start(1000);
    ultra.update(61_000);
    assert_eq!(ultra.time_remaining(), Some(120_000));
    assert_eq!(ultra.lines_remaining(0), None);

    let sprint = ModeState::new(GameMode::Sprint);
    assert_eq!(sprint.lines_remaining(15), Some(25));
    assert_eq!(sprint.time_remaining(), None);
}

#[test]
fn test_format_time() {
    let mut state = ModeState::new(GameMode::Sprint);
    state.start(0);
    state.update(61_234);
    assert_eq!(state.format_time(), "01:01.234");
}

#[test]
fn test_format_remaining() {
    let mut ultra = ModeState::new(GameMode::Ultra);
    ultra.start(0);
    ultra.update(59_000);
    assert_eq!(ultra.format_remaining(), Some("02:01".to_string()));
    let sprint = ModeState::new(GameMode::Sprint);
    assert_eq!(sprint.format_remaining(), None);
}
