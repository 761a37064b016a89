use mosaico_core::config::palette::{catppuccin, named_color, rose_pine, tokyo_night};
use mosaico_core::config::theme::{CatppuccinFlavor, RosePineFlavor, Theme, TokyoNightFlavor};

#[test]
fn named_color_resolves_blue() {
    assert_eq!(named_color(Theme::Catppuccin(CatppuccinFlavor::Mocha), "blue"), Some("#89b4fa"));
    assert_eq!(named_color(Theme::Catppuccin(CatppuccinFlavor::Latte), "blue"), Some("#1e66f5"));
}

#[test]
fn palette_named_color_is_case_insensitive() {
    assert_eq!(named_color(Theme::Catppuccin(CatppuccinFlavor::Mocha), "Blue"), Some("#89b4fa"));
    assert_eq!(named_color(Theme::Catppuccin(CatppuccinFlavor::Mocha), "GREEN"), Some("#a6e3a1"));
}

#[test]
fn palette_named_color_returns_none_for_unknown() {
    assert_eq!(named_color(Theme::Catppuccin(CatppuccinFlavor::Mocha), "chartreuse"), None);
    assert_eq!(named_color(Theme::Catppuccin(CatppuccinFlavor::Mocha), "#89b4fa"), None);
}

#[test]
fn each_theme_has_14_named_colors() {
    assert_eq!(catppuccin::table(CatppuccinFlavor::Mocha).len(), 14);
    assert_eq!(catppuccin::table(CatppuccinFlavor::Macchiato).len(), 14);
    assert_eq!(catppuccin::table(CatppuccinFlavor::Frappe).len(), 14);
    assert_eq!(catppuccin::table(CatppuccinFlavor::Latte).len(), 14);
}

#[test]
fn named_color_resolves_blue_for_each_family() {
    // Common name "blue" works under every theme family so
    // portable configs (focused = "blue") look right regardless
    // of the theme the user picks.
    assert!(named_color(Theme::Catppuccin(CatppuccinFlavor::Mocha), "blue").is_some());
    assert!(named_color(Theme::RosePine(RosePineFlavor::Main), "blue").is_some());
    assert!(named_color(Theme::TokyoNight(TokyoNightFlavor::Night), "blue").is_some());
}

#[test]
fn mod_named_color_is_case_insensitive() {
    let mocha = Theme::Catppuccin(CatppuccinFlavor::Mocha);
    assert_eq!(named_color(mocha, "Blue"), Some("#89b4fa"));
    assert_eq!(named_color(mocha, "GREEN"), Some("#a6e3a1"));

    let pine = Theme::RosePine(RosePineFlavor::Main);
    assert_eq!(named_color(pine, "PINE"), named_color(pine, "pine"));
}

#[test]
fn mod_named_color_returns_none_for_unknown() {
    let mocha = Theme::Catppuccin(CatppuccinFlavor::Mocha);
    assert_eq!(named_color(mocha, "chartreuse"), None);
    // Hex codes are not resolved as named colors.
    assert_eq!(named_color(mocha, "#89b4fa"), None);
}

#[test]
fn family_specific_names_do_not_leak_across_families() {
    // `pine` is a Rosé Pine name, not a Catppuccin one.
    assert!(named_color(Theme::RosePine(RosePineFlavor::Main), "pine").is_some());
    assert!(named_color(Theme::Catppuccin(CatppuccinFlavor::Mocha), "pine").is_none());

    // `mauve` resolves under both Catppuccin (native) and Tokyo
    // Night (alias for purple).
    assert!(named_color(Theme::Catppuccin(CatppuccinFlavor::Mocha), "mauve").is_some());
    assert!(named_color(Theme::TokyoNight(TokyoNightFlavor::Night), "mauve").is_some());
}

#[test]
fn common_aliases_resolve_in_every_theme() {
    // The four most-used names work under every supported theme.
    // Distinct themes return distinct shades.
    let themes = [
        Theme::Catppuccin(CatppuccinFlavor::Mocha),
        Theme::Catppuccin(CatppuccinFlavor::Macchiato),
        Theme::Catppuccin(CatppuccinFlavor::Frappe),
        Theme::Catppuccin(CatppuccinFlavor::Latte),
        Theme::RosePine(RosePineFlavor::Main),
        Theme::RosePine(RosePineFlavor::Moon),
        Theme::RosePine(RosePineFlavor::Dawn),
        Theme::TokyoNight(TokyoNightFlavor::Night),
        Theme::TokyoNight(TokyoNightFlavor::Storm),
        Theme::TokyoNight(TokyoNightFlavor::Day),
    ];
    for name in ["red", "green", "blue", "yellow"] {
        for theme in themes {
            assert!(
                named_color(theme, name).is_some(),
                "{name} should resolve in {theme:?}"
            );
        }
    }
}

#[test]
fn each_flavor_has_14_named_colors() {
    assert_eq!(catppuccin::table(CatppuccinFlavor::Mocha).len(), 14);
    assert_eq!(catppuccin::table(CatppuccinFlavor::Macchiato).len(), 14);
    assert_eq!(catppuccin::table(CatppuccinFlavor::Frappe).len(), 14);
    assert_eq!(catppuccin::table(CatppuccinFlavor::Latte).len(), 14);
}

#[test]
fn mocha_blue_matches_catppuccin_palette() {
    let blue = catppuccin::table(CatppuccinFlavor::Mocha).iter().find(|(n, _)| *n == "blue").map(|(_, h)| *h);
    assert_eq!(blue, Some("#89b4fa"));
}

#[test]
fn each_flavor_has_pine_and_blue_alias() {
    for (table, name) in [(rose_pine::table(RosePineFlavor::Main), "main"), (rose_pine::table(RosePineFlavor::Moon), "moon"), (rose_pine::table(RosePineFlavor::Dawn), "dawn")] {
        let pine = table.iter().find(|(n, _)| *n == "pine").map(|(_, h)| *h);
        let blue = table.iter().find(|(n, _)| *n == "blue").map(|(_, h)| *h);
        assert!(pine.is_some(), "{name}: missing pine");
        assert_eq!(pine, blue, "{name}: blue should alias pine");
    }
}

#[test]
fn dawn_is_lighter_than_main() {
    // Dawn's base is the lightest of the three (off-white).
    assert_eq!(rose_pine::bar_colors(RosePineFlavor::Dawn).background, "#faf4ed");
    // Main's base is the darkest.
    assert_eq!(rose_pine::bar_colors(RosePineFlavor::Main).background, "#191724");
}

#[test]
fn bar_lead_color_is_rose_family() {
    // The bar foreground (the most visible accent) uses Iris on
    // dark flavors and Iris-Dawn on the light flavor so the
    // Rose Pine identity reads as purple-rose, not teal.
    assert_eq!(rose_pine::bar_colors(RosePineFlavor::Main).foreground, "#c4a7e7");
    assert_eq!(rose_pine::bar_colors(RosePineFlavor::Moon).foreground, "#c4a7e7");
    assert_eq!(rose_pine::bar_colors(RosePineFlavor::Dawn).foreground, "#907aa9");
}

#[test]
fn bar_accent_uses_rose() {
    // The secondary accent is the namesake Rose hex per flavor.
    assert_eq!(rose_pine::bar_colors(RosePineFlavor::Main).accent, "#ebbcba");
    assert_eq!(rose_pine::bar_colors(RosePineFlavor::Moon).accent, "#ea9a97");
    assert_eq!(rose_pine::bar_colors(RosePineFlavor::Dawn).accent, "#d7827e");
}

#[test]
fn night_and_storm_share_accent_palette() {
    let night_blue = tokyo_night::table(TokyoNightFlavor::Night).iter().find(|(n, _)| *n == "blue").map(|(_, h)| *h);
    let storm_blue = tokyo_night::table(TokyoNightFlavor::Storm).iter().find(|(n, _)| *n == "blue").map(|(_, h)| *h);
    assert_eq!(night_blue, storm_blue);
}

#[test]
fn day_is_a_distinct_light_palette() {
    let day_blue = tokyo_night::table(TokyoNightFlavor::Day).iter().find(|(n, _)| *n == "blue").map(|(_, h)| *h);
    let night_blue = tokyo_night::table(TokyoNightFlavor::Night).iter().find(|(n, _)| *n == "blue").map(|(_, h)| *h);
    assert_ne!(day_blue, night_blue);
    assert_eq!(tokyo_night::bar_colors(TokyoNightFlavor::Day).background, "#e1e2e7");
}

#[test]
fn purple_and_magenta_are_distinct() {
    // Upstream tokyonight.nvim has purple (#9d7cd8) and magenta
    // (#bb9af7) as separate shades.
    for table in [tokyo_night::table(TokyoNightFlavor::Night), tokyo_night::table(TokyoNightFlavor::Storm)] {
        let purple = table.iter().find(|(n, _)| *n == "purple").map(|(_, h)| *h);
        let magenta = table.iter().find(|(n, _)| *n == "magenta").map(|(_, h)| *h);
        assert_eq!(purple, Some("#9d7cd8"));
        assert_eq!(magenta, Some("#bb9af7"));
    }
    let day_purple = tokyo_night::table(TokyoNightFlavor::Day).iter().find(|(n, _)| *n == "purple").map(|(_, h)| *h);
    let day_magenta = tokyo_night::table(TokyoNightFlavor::Day).iter().find(|(n, _)| *n == "magenta").map(|(_, h)| *h);
    assert_eq!(day_purple, Some("#7847bd"));
    assert_eq!(day_magenta, Some("#9854f1"));
}

#[test]
fn mauve_aliases_magenta() {
    // `mauve` is a Catppuccin name; we expose it as an alias for
    // magenta so portable configs (focused = "mauve") resolve
    // under Tokyo Night too.
    for table in [tokyo_night::table(TokyoNightFlavor::Night), tokyo_night::table(TokyoNightFlavor::Storm), tokyo_night::table(TokyoNightFlavor::Day)] {
        let magenta = table.iter().find(|(n, _)| *n == "magenta").map(|(_, h)| *h);
        let mauve = table.iter().find(|(n, _)| *n == "mauve").map(|(_, h)| *h);
        assert_eq!(magenta, mauve);
    }
}

#[test]
fn day_red_matches_upstream() {
    // Sanity-check a single Day value against tokyonight.nvim so
    // a future copy-paste regression is caught.
    let red = tokyo_night::table(TokyoNightFlavor::Day).iter().find(|(n, _)| *n == "red").map(|(_, h)| *h);
    assert_eq!(red, Some("#f52a65"));
}
