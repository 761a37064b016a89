use mosaico_core::action::{Action, Direction};
use mosaico_core::config::keybinding::{
    defaults, keybinding_toml_entry, merge_keybindings, missing_keybindings, missing_keybindings_text, Keybinding,
    Modifier,
};
use mosaico_core::config::template::generate_keybindings;

fn kb(action: Action, key: &str, modifiers: &[Modifier]) -> Keybinding {
    Keybinding { action, key: key.to_string(), modifiers: modifiers.to_vec() }
}

#[test]
fn defaults_bind_every_action_once() {
    let d = defaults();
    assert_eq!(d.len(), 29);
    for (i, a) in d.iter().enumerate() {
        for b in &d[i + 1..] {
            assert_ne!(a.action, b.action);
        }
    }
    assert_eq!(d[0].action, Action::Focus(Direction::Down));
    assert_eq!(d[0].key, "J");
    assert_eq!(d[0].modifiers, vec![Modifier::Alt]);
    let cycle = d.iter().find(|b| b.action == Action::CycleLayout).unwrap();
    assert_eq!(cycle.key, "N");
    assert_eq!(cycle.modifiers, vec![Modifier::Alt]);
    let minimize = d.iter().find(|b| b.action == Action::MinimizeFocused).unwrap();
    assert_eq!(minimize.key, "M");
}

#[test]
fn missing_keybindings_keeps_default_order() {
    let d = defaults();
    let user = vec![kb(Action::Focus(Direction::Down), "Down", &[Modifier::Ctrl]), kb(Action::Retile, "F5", &[])];
    let missing = missing_keybindings(&user, &d);
    assert_eq!(missing.len(), d.len() - 2);
    let expected: Vec<Action> = d
        .iter()
        .map(|b| b.action)
        .filter(|a| *a != Action::Focus(Direction::Down) && *a != Action::Retile)
        .collect();
    let got: Vec<Action> = missing.iter().map(|b| b.action).collect();
    assert_eq!(got, expected);
}

#[test]
fn nothing_missing_when_user_binds_everything() {
    let d = defaults();
    assert!(missing_keybindings(&d, &d).is_empty());
}

#[test]
fn merge_appends_missing_only_when_written() {
    let d = defaults();
    let user = vec![kb(Action::Retile, "F5", &[])];
    let missing = missing_keybindings(&user, &d);
    let merged = merge_keybindings(user.clone(), missing.clone(), true);
    assert_eq!(merged.len(), 1 + missing.len());
    assert_eq!(merged[0].key, "F5");
    for default in &d {
        assert!(merged.iter().any(|b| b.action == default.action));
    }
    let unchanged = merge_keybindings(user, missing, false);
    assert_eq!(unchanged.len(), 1);
}

#[test]
fn toml_entry_format() {
    let entry = keybinding_toml_entry(&kb(Action::Move(Direction::Left), "H", &[Modifier::Alt, Modifier::Shift]));
    assert_eq!(entry, "\n[[keybinding]]\naction = \"move-left\"\nkey = \"H\"\nmodifiers = [\"alt\", \"shift\"]\n");
    let entry = keybinding_toml_entry(&kb(Action::Retile, "R", &[]));
    assert_eq!(entry, "\n[[keybinding]]\naction = \"retile\"\nkey = \"R\"\nmodifiers = []\n");
}

#[test]
fn addition_text_starts_with_comment() {
    let text = missing_keybindings_text(&vec![kb(Action::CloseFocused, "Q", &[Modifier::Win])]);
    assert_eq!(
        text,
        "\n# Added automatically — new defaults from this version of mosaico\n\n[[keybinding]]\naction = \"close-focused\"\nkey = \"Q\"\nmodifiers = [\"win\"]\n"
    );
    let parsed: toml::Table = text.parse().unwrap();
    assert_eq!(parsed["keybinding"].as_array().unwrap().len(), 1);
}

#[test]
fn keybindings_template_matches_defaults() {
    let parsed: toml::Table = generate_keybindings().parse().unwrap();
    let entries = parsed["keybinding"].as_array().unwrap();
    let d = defaults();
    assert_eq!(entries.len(), d.len());
    for (entry, binding) in entries.iter().zip(&d) {
        assert_eq!(entry["action"].as_str().unwrap(), binding.action.to_string());
        assert_eq!(entry["key"].as_str().unwrap(), binding.key);
    }
}
