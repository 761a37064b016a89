use mosaico_core::config::bar::{BarConfig, WidgetConfig};
use mosaico_core::config::theme::{CatppuccinFlavor, Theme};

#[test]
fn default_bar_config_has_expected_values() {
    let config = BarConfig::default();

    assert!(config.enabled);
    assert_eq!(config.height, 64);
    assert_eq!(config.font, "CaskaydiaCove Nerd Font");
    assert_eq!(config.font_size, 24);
    assert_eq!(config.pill_radius, 4);
    assert_eq!(config.pill_border_width, 2);
    assert!(config.font_bold);
    assert!(!config.font_italic);
    assert!(!config.font_underline);
    assert_eq!(config.background_opacity, 0);
    assert!(config.monitors.is_empty());
    assert_eq!(config.left.len(), 3);
    assert_eq!(config.right.len(), 5);
}

#[test]
fn should_show_on_empty_monitors_means_all() {
    let config = BarConfig::default();
    assert!(config.should_show_on(0));
    assert!(config.should_show_on(1));
    assert!(config.should_show_on(99));
}

#[test]
fn should_show_on_filters_by_index() {
    let config = BarConfig {
        monitors: vec![0, 2],
        ..Default::default()
    };
    assert!(config.should_show_on(0));
    assert!(!config.should_show_on(1));
    assert!(config.should_show_on(2));
}

#[test]
fn should_show_on_respects_enabled() {
    let config = BarConfig {
        enabled: false,
        ..Default::default()
    };
    assert!(!config.should_show_on(0));
}

#[test]
fn resolve_colors_fills_from_theme() {
    let mut config = BarConfig::default();
    config.resolve_colors(Theme::Catppuccin(CatppuccinFlavor::Mocha));

    assert_eq!(config.colors.background, "#1e1e2e");
    assert_eq!(config.colors.widget_background, "#313244");
    assert_eq!(config.colors.active_workspace_text, "#cdd6f4");
}

#[test]
fn bar_validate_clamps_extreme_values() {
    let mut config = BarConfig {
        height: 200,
        font_size: 0,
        padding: -5,
        pill_radius: 100,
        background_opacity: 150,
        ..Default::default()
    };

    config.validate();

    assert_eq!(config.height, 96);
    assert_eq!(config.font_size, 8);
    assert_eq!(config.padding, 0);
    assert_eq!(config.pill_radius, 32);
    assert_eq!(config.background_opacity, 100);
}

#[test]
fn validate_preserves_valid_values() {
    let mut config = BarConfig::default();
    config.validate();
    assert_eq!(config.height, 64);
    assert_eq!(config.pill_radius, 4);
}

#[test]
fn resolve_colors_latte_fills_light_colors() {
    let mut config = BarConfig::default();
    config.resolve_colors(Theme::Catppuccin(CatppuccinFlavor::Latte));
    assert_eq!(config.colors.background, "#eff1f5");
    assert_eq!(config.colors.foreground, "#1e66f5");
}

#[test]
fn widget_color_resolves_named_to_hex() {
    let mut config = BarConfig::default();
    config.resolve_colors(Theme::Catppuccin(CatppuccinFlavor::Mocha));
    // Update widget defaults to "green", resolved to Mocha green hex.
    let update = config
        .right
        .iter()
        .find(|w| matches!(w, WidgetConfig::Update { .. }))
        .unwrap();
    assert_eq!(update.color(), "#a6e3a1");
}

#[test]
fn widget_color_empty_means_no_override() {
    let mut config = BarConfig::default();
    config.resolve_colors(Theme::Catppuccin(CatppuccinFlavor::Mocha));
    // Clock has no custom color — stays empty.
    let clock = config
        .right
        .iter()
        .find(|w| matches!(w, WidgetConfig::Clock { .. }))
        .unwrap();
    assert!(clock.color().is_empty());
}

#[test]
fn resolving_colors_twice_changes_nothing() {
    let theme = Theme::Catppuccin(CatppuccinFlavor::Mocha);
    let mut config = BarConfig::default();
    config.colors.accent = "pink".to_string();
    config.colors.separator = "not-a-color".to_string();
    config.resolve_colors(theme);
    let once = config.clone();
    config.resolve_colors(theme);
    assert_eq!(config.colors.accent, "#f5c2e7");
    assert_eq!(config.colors.separator, "not-a-color");
    assert_eq!(config.colors.background, once.colors.background);
    assert_eq!(config.colors.accent, once.colors.accent);
    assert_eq!(config.colors.separator, once.colors.separator);
    assert_eq!(config.colors.pill_border, once.colors.pill_border);
    assert_eq!(config.left.len(), once.left.len());
    assert_eq!(config.right.len(), once.right.len());
    for (a, b) in config.left.iter().zip(once.left.iter()) {
        assert_eq!(a.color(), b.color());
    }
    for (a, b) in config.right.iter().zip(once.right.iter()) {
        assert_eq!(a.color(), b.color());
    }
}
