use mosaico_core::config::keybinding;
use mosaico_core::config::{default_rules, should_manage, WindowRule};

#[test]
fn mod_default_keybindings_are_not_empty() {
    // Act
    let bindings = keybinding::defaults();

    // Assert
    assert!(!bindings.is_empty());
}

#[test]
fn mod_rule_excludes_by_class() {
    // Arrange
    let rules = vec![WindowRule {
        match_class: Some("TaskManager".into()),
        match_title: None,
        manage: false,
    }];

    // Act / Assert
    assert!(!should_manage("TaskManager", "Task Manager", &rules));
    assert!(should_manage("Notepad", "Untitled", &rules));
}

#[test]
fn mod_rule_excludes_by_title_substring() {
    // Arrange
    let rules = vec![WindowRule {
        match_class: None,
        match_title: Some("settings".into()),
        manage: false,
    }];

    // Act / Assert
    assert!(!should_manage("App", "Windows Settings", &rules));
    assert!(should_manage("App", "My Document", &rules));
}

#[test]
fn mod_first_matching_rule_wins() {
    // Arrange
    let rules = vec![
        WindowRule {
            match_class: Some("Chrome".into()),
            match_title: None,
            manage: false,
        },
        WindowRule {
            match_class: Some("Chrome".into()),
            match_title: None,
            manage: true,
        },
    ];

    // Act / Assert
    assert!(!should_manage("Chrome", "Google", &rules));
}

#[test]
fn mod_no_rules_defaults_to_manage() {
    // Act / Assert
    assert!(should_manage("Any", "Window", &[]));
}

#[test]
fn tests_default_keybindings_are_not_empty() {
    // Act
    let bindings = keybinding::defaults();

    // Assert
    assert!(!bindings.is_empty());
}

#[test]
fn tests_rule_excludes_by_class() {
    // Arrange
    let rules = vec![WindowRule {
        match_class: Some("TaskManager".into()),
        match_title: None,
        manage: false,
    }];

    // Act / Assert
    assert!(!should_manage("TaskManager", "Task Manager", &rules));
    assert!(should_manage("Notepad", "Untitled", &rules));
}

#[test]
fn tests_rule_excludes_by_title_substring() {
    // Arrange
    let rules = vec![WindowRule {
        match_class: None,
        match_title: Some("settings".into()),
        manage: false,
    }];

    // Act / Assert
    assert!(!should_manage("App", "Windows Settings", &rules));
    assert!(should_manage("App", "My Document", &rules));
}

#[test]
fn tests_first_matching_rule_wins() {
    // Arrange
    let rules = vec![
        WindowRule {
            match_class: Some("Chrome".into()),
            match_title: None,
            manage: false,
        },
        WindowRule {
            match_class: Some("Chrome".into()),
            match_title: None,
            manage: true,
        },
    ];

    // Act / Assert
    assert!(!should_manage("Chrome", "Google", &rules));
}

#[test]
fn tests_no_rules_defaults_to_manage() {
    // Act / Assert
    assert!(should_manage("Any", "Window", &[]));
}

#[test]
fn empty_match_title_only_matches_empty_title() {
    // Arrange
    let rules = vec![WindowRule {
        match_class: Some("ApplicationFrameWindow".into()),
        match_title: Some(String::new()),
        manage: false,
    }];

    // Act / Assert
    assert!(!should_manage("ApplicationFrameWindow", "", &rules));
    assert!(should_manage("ApplicationFrameWindow", "Settings", &rules));
}

#[test]
fn default_rules_are_empty() {
    // Arrange / Act
    let rules = default_rules();

    // Assert
    assert!(rules.is_empty());
}

#[test]
fn user_rules_take_priority_over_community_rules() {
    let user = vec![WindowRule { match_class: Some("Chrome".into()), match_title: None, manage: true }];
    let community = vec![
        WindowRule { match_class: Some("chrome".into()), match_title: None, manage: false },
        WindowRule { match_class: None, match_title: Some("Settings".into()), manage: false },
    ];
    let merged = mosaico_core::config::rules::merge_rules(user, community);
    assert_eq!(merged.len(), 3);
    assert!(should_manage("CHROME", "Inbox", &merged));
    assert!(!should_manage("Explorer", "System settings", &merged));
}

#[test]
fn rule_without_conditions_never_matches() {
    let rules = vec![
        WindowRule { match_class: None, match_title: None, manage: false },
        WindowRule { match_class: Some("App".into()), match_title: Some("doc".into()), manage: false },
    ];
    assert!(should_manage("Anything", "At all", &rules));
    assert!(!should_manage("app", "My DOCUMENT", &rules));
    assert!(should_manage("app", "Other", &rules));
}
