use mosaico_core::{Action, Direction};

#[test]
fn roundtrip_all_actions() {
    let actions = [
        Action::Focus(Direction::Left),
        Action::Focus(Direction::Right),
        Action::Focus(Direction::Up),
        Action::Focus(Direction::Down),
        Action::Move(Direction::Left),
        Action::Move(Direction::Right),
        Action::Move(Direction::Up),
        Action::Move(Direction::Down),
        Action::Retile,
        Action::ToggleMonocle,
        Action::CloseFocused,
    ];
    for action in &actions {
        let s = action.to_string();
        let parsed: Action = s.parse().unwrap();
        assert_eq!(&parsed, action, "roundtrip failed for {s}");
    }
}

#[test]
fn unknown_action_returns_error() {
    let result: Result<Action, _> = "fly-away".parse();
    assert!(result.is_err());
}

#[test]
fn unknown_direction_returns_error() {
    let result: Result<Action, _> = "focus-diagonal".parse();
    assert!(result.is_err());
}

#[test]
fn workspace_actions_roundtrip() {
    for n in 1..=mosaico_core::action::MAX_WORKSPACES {
        for action in [Action::GoToWorkspace(n), Action::SendToWorkspace(n)] {
            let s = action.to_string();
            let parsed: Action = s.parse().unwrap();
            assert_eq!(parsed, action);
        }
    }
    assert_eq!(Action::GoToWorkspace(3).to_string(), "goto-workspace-3");
    assert_eq!(Action::SendToWorkspace(8).to_string(), "send-to-workspace-8");
    assert_eq!(Action::MinimizeFocused.to_string(), "minimize-focused");
}

#[test]
fn action_names_are_kebab_case() {
    assert_eq!(Action::Focus(Direction::Left).to_string(), "focus-left");
    assert_eq!(Action::Move(Direction::Down).to_string(), "move-down");
    assert_eq!(Action::Retile.to_string(), "retile");
    assert_eq!(Action::ToggleMonocle.to_string(), "toggle-monocle");
    assert_eq!(Action::CloseFocused.to_string(), "close-focused");
    assert_eq!(Action::CycleLayout.to_string(), "cycle-layout");
}

#[test]
fn readme_actions_parse() {
    for s in ["cycle-layout", "minimize-focused", "goto-workspace-3", "send-to-workspace-5"] {
        let parsed: Result<Action, _> = s.parse();
        assert!(parsed.is_ok(), "{s} should parse");
        assert_eq!(parsed.unwrap().to_string(), s);
    }
    assert_eq!(Action::parse("cycle-layout"), Ok(Action::CycleLayout));
}

#[test]
fn parse_errors_name_the_offending_text() {
    assert_eq!(Action::parse("fly-away"), Err("unknown action: fly-away".to_string()));
    assert_eq!(Action::parse("focus-diagonal"), Err("unknown direction: diagonal".to_string()));
    assert_eq!(Action::parse("move-"), Err("unknown direction: ".to_string()));
    assert_eq!(Action::parse("goto-workspace-0"), Err("invalid workspace number: 0".to_string()));
    assert_eq!(Action::parse("goto-workspace-9"), Err("invalid workspace number: 9".to_string()));
    assert_eq!(
        Action::parse("send-to-workspace-x"),
        Err("invalid workspace number: x".to_string())
    );
    assert_eq!(Action::parse("Retile"), Err("unknown action: Retile".to_string()));
}

#[test]
fn workspace_numbers_accept_leading_zeros_within_range() {
    assert_eq!(Action::parse("goto-workspace-08"), Ok(Action::GoToWorkspace(8)));
    assert_eq!(Action::parse("goto-workspace-256").is_err(), true);
    assert_eq!(mosaico_core::action::parse_workspace_number("5"), Some(5));
    assert_eq!(mosaico_core::action::parse_workspace_number(""), None);
}

#[test]
fn direction_parse_and_names() {
    for d in [Direction::Left, Direction::Right, Direction::Up, Direction::Down] {
        assert_eq!(Direction::parse(d.as_str()), Ok(d));
        let parsed: Direction = d.to_string().parse().unwrap();
        assert_eq!(parsed, d);
    }
    assert_eq!(Direction::parse("north"), Err("unknown direction: north".to_string()));
}
