use mosaico_core::pid::parse_pid;
use mosaico_core::config::template::{
    generate_bar, generate_config, generate_rules, generate_user_rules, BAR_TEMPLATE, CONFIG_TEMPLATE,
};
use mosaico_core::config::types::{clamp_gap, layouts_from_entries, BorderColors, BorderConfig, CornerStyle};
use mosaico_core::config::theme::{CatppuccinFlavor, Theme, ThemeConfig};
use mosaico_core::event::hex_string;
use mosaico_core::ipc::{Response, ResponseStatus};
use mosaico_core::layout::LayoutKind;
use mosaico_core::log::{clock_timestamp, log_line, max_log_bytes, needs_rotation, Level, LogConfig};
use mosaico_core::{Rect, WindowEvent};

#[test]
fn rect_centers_and_overlaps() {
    let a = Rect::new(0, 0, 960, 1080);
    let b = Rect::new(960, 540, 960, 540);
    assert_eq!(a.center_x(), 480);
    assert_eq!(a.center_y(), 540);
    assert_eq!(b.center_x(), 1440);
    assert_eq!(a.vertical_overlap(&b), 540);
    assert_eq!(a.horizontal_overlap(&b), 0);
    let c = Rect::new(-5, -5, 3, 3);
    assert_eq!(c.center_x(), -4);
    assert_eq!(Rect::new(0, 0, 10, 10).vertical_overlap(&Rect::new(0, 20, 10, 10)), 0);
}

#[test]
fn window_event_display() {
    let e = WindowEvent::Created { hwnd: 0x1A2B };
    assert_eq!(e.hwnd(), 0x1A2B);
    assert_eq!(e.name(), "Created");
    assert_eq!(e.to_string(), "Created 0x1A2B");
    assert_eq!(WindowEvent::DisplayChanged.to_string(), "DisplayChanged 0x0");
    assert_eq!(hex_string(255), "FF");
    assert_eq!(hex_string(usize::MAX), format!("{:X}", usize::MAX));
}

#[test]
fn responses() {
    let r = Response::ok();
    assert_eq!(r.status, ResponseStatus::Success);
    assert_eq!(r.message, None);
    let r = Response::ok_with_message("done".to_string());
    assert_eq!(r.message.as_deref(), Some("done"));
}

#[test]
fn log_levels() {
    assert_eq!(Level::parse("DEBUG"), Level::Debug);
    assert_eq!(Level::parse("warn"), Level::Warn);
    assert_eq!(Level::parse("Error"), Level::Error);
    assert_eq!(Level::parse("verbose"), Level::Info);
    assert_eq!(Level::Warn.as_str(), "WARN");
    assert!(Level::Error.at_least(Level::Warn));
    assert!(Level::Info.at_least(Level::Info));
    assert!(!Level::Debug.at_least(Level::Info));
    let c = LogConfig::default();
    assert!(!c.enabled);
    assert_eq!(c.level, "info");
    assert_eq!(c.max_file_mb, 10);
}

#[test]
fn log_rotation_and_lines() {
    assert_eq!(max_log_bytes(10), 10 * 1024 * 1024);
    assert!(!needs_rotation(0, 1_000_000));
    assert!(!needs_rotation(100, 99));
    assert!(needs_rotation(100, 100));
    assert_eq!(clock_timestamp(0), "00:00:00");
    assert_eq!(clock_timestamp(86_399), "23:59:59");
    assert_eq!(clock_timestamp(90_061), "01:01:01");
    assert_eq!(log_line("12:00:00", Level::Info, "started"), "12:00:00 [INFO] started\n");
}

#[test]
fn corner_radius_and_gap() {
    assert_eq!(CornerStyle::Square.border_radius(), 0);
    assert_eq!(CornerStyle::Small.border_radius(), 8);
    assert_eq!(CornerStyle::Round.border_radius(), 16);
    assert_eq!(clamp_gap(-50), 0);
    assert_eq!(clamp_gap(8), 8);
    assert_eq!(clamp_gap(1000), 200);
}

#[test]
fn border_validate_resolves_colors_from_theme() {
    let theme = ThemeConfig::default().resolve();
    let mut borders = BorderConfig::default();
    borders.validate(theme);
    assert_eq!(borders.width, 4);
    assert_eq!(borders.colors.focused, "#89b4fa");
    assert_eq!(borders.colors.monocle, "#a6e3a1");

    let mut borders = BorderConfig {
        width: 999,
        colors: BorderColors { focused: "#ff0000".into(), monocle: "teal".into() },
        ..Default::default()
    };
    borders.validate(Theme::Catppuccin(CatppuccinFlavor::Mocha));
    assert_eq!(borders.width, 32);
    assert_eq!(borders.colors.focused, "#ff0000");
    assert_eq!(borders.colors.monocle, "#94e2d5");

    let mut borders = BorderConfig::default();
    borders.validate(Theme::Catppuccin(CatppuccinFlavor::Latte));
    assert_eq!(borders.colors.focused, "#1e66f5");
    assert_eq!(borders.colors.monocle, "#40a02b");
}

#[test]
fn workspace_layout_keys_are_filtered() {
    let entries = vec![
        ("1".to_string(), LayoutKind::VerticalStack),
        ("3".to_string(), LayoutKind::ThreeColumn),
        ("9".to_string(), LayoutKind::Bsp),
        ("0".to_string(), LayoutKind::Bsp),
        ("two".to_string(), LayoutKind::Bsp),
        ("3".to_string(), LayoutKind::Bsp),
    ];
    let m = layouts_from_entries(&entries);
    assert_eq!(m.len(), 2);
    assert_eq!(m.get(&1), Some(&LayoutKind::VerticalStack));
    assert_eq!(m.get(&3), Some(&LayoutKind::Bsp));
}

#[test]
fn templates_are_the_starter_files() {
    assert_eq!(generate_bar(), BAR_TEMPLATE);
    assert_eq!(generate_config(), CONFIG_TEMPLATE);
    let config: toml::Table = generate_config().parse().unwrap();
    assert_eq!(config["theme"]["name"].as_str(), Some("catppuccin"));
    assert_eq!(config["layout"]["gap"].as_integer(), Some(8));
    let rules: toml::Table = generate_rules().parse().unwrap();
    assert!(!rules["rule"].as_array().unwrap().is_empty());
    let user: toml::Table = generate_user_rules().parse().unwrap();
    assert!(user.get("rule").is_none());
    let bar: toml::Table = generate_bar().parse().unwrap();
    assert_eq!(bar["height"].as_integer(), Some(64));
}

#[test]
fn pid_file_contents_are_read_as_a_u32() {
    assert_eq!(parse_pid("1234"), Some(1234));
    assert_eq!(parse_pid("  4321\n"), Some(4321));
    assert_eq!(parse_pid("\t+7\r\n"), Some(7));
    assert_eq!(parse_pid("\u{a0}42\u{3000}"), Some(42));
    assert_eq!(parse_pid("4294967295"), Some(u32::MAX));
    assert_eq!(parse_pid("4294967296"), None);
    assert_eq!(parse_pid(""), None);
    assert_eq!(parse_pid("   "), None);
    assert_eq!(parse_pid("12 34"), None);
    assert_eq!(parse_pid("-1"), None);
    assert_eq!(parse_pid("abc"), None);
}
