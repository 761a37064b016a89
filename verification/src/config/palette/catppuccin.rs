//! Catppuccin color palettes (Mocha, Macchiato, Frappé, Latte).

use vstd::prelude::*;
use crate::config::bar::{BarColors, BarColorsView};
use crate::config::theme::CatppuccinFlavor;

verus! {

broadcast use vstd::string::group_string_axioms;

/// The named colors of the Mocha flavor.
pub open spec fn mocha_table() -> Seq<(&'static str, &'static str)> {
    seq![
        ("rosewater", "#f5e0dc"),
        ("flamingo", "#f2cdcd"),
        ("pink", "#f5c2e7"),
        ("mauve", "#cba6f7"),
        ("red", "#f38ba8"),
        ("maroon", "#eba0ac"),
        ("peach", "#fab387"),
        ("yellow", "#f9e2af"),
        ("green", "#a6e3a1"),
        ("teal", "#94e2d5"),
        ("sky", "#89dceb"),
        ("sapphire", "#74c7ec"),
        ("blue", "#89b4fa"),
        ("lavender", "#b4befe"),
    ]
}

/// The bar colors of the Mocha flavor.
pub open spec fn mocha_bar_view() -> BarColorsView {
    BarColorsView {
        background: "#1e1e2e"@,
        foreground: "#89b4fa"@,
        active_workspace: "#435375"@,
        active_workspace_text: "#cdd6f4"@,
        inactive_workspace: "#89b4fa"@,
        separator: "#45475a"@,
        accent: "#a6e3a1"@,
        widget_background: "#313244"@,
        pill_border: "#89b4fa"@,
    }
}

fn mocha_bar() -> (c: BarColors)
    ensures
        c@ == mocha_bar_view(),
{
    BarColors {
        background: "#1e1e2e".to_string(),
        foreground: "#89b4fa".to_string(),
        active_workspace: "#435375".to_string(),
        active_workspace_text: "#cdd6f4".to_string(),
        inactive_workspace: "#89b4fa".to_string(),
        separator: "#45475a".to_string(),
        accent: "#a6e3a1".to_string(),
        widget_background: "#313244".to_string(),
        pill_border: "#89b4fa".to_string(),
    }
}

fn mocha_vec() -> (t: Vec<(&'static str, &'static str)>)
    ensures
        t@ == mocha_table(),
{
    let t = vec![
        ("rosewater", "#f5e0dc"),
        ("flamingo", "#f2cdcd"),
        ("pink", "#f5c2e7"),
        ("mauve", "#cba6f7"),
        ("red", "#f38ba8"),
        ("maroon", "#eba0ac"),
        ("peach", "#fab387"),
        ("yellow", "#f9e2af"),
        ("green", "#a6e3a1"),
        ("teal", "#94e2d5"),
        ("sky", "#89dceb"),
        ("sapphire", "#74c7ec"),
        ("blue", "#89b4fa"),
        ("lavender", "#b4befe"),
    ];
    assert(t@ =~= mocha_table());
    t
}

/// The named colors of the Macchiato flavor.
pub open spec fn macchiato_table() -> Seq<(&'static str, &'static str)> {
    seq![
        ("rosewater", "#f4dbd6"),
        ("flamingo", "#f0c6c6"),
        ("pink", "#f5bde6"),
        ("mauve", "#c6a0f6"),
        ("red", "#ed8796"),
        ("maroon", "#ee99a0"),
        ("peach", "#f5a97f"),
        ("yellow", "#eed49f"),
        ("green", "#a6da95"),
        ("teal", "#8bd5ca"),
        ("sky", "#91d7e3"),
        ("sapphire", "#7dc4e4"),
        ("blue", "#8aadf4"),
        ("lavender", "#b7bdf8"),
    ]
}

/// The bar colors of the Macchiato flavor.
pub open spec fn macchiato_bar_view() -> BarColorsView {
    BarColorsView {
        background: "#24273a"@,
        foreground: "#8aadf4"@,
        active_workspace: "#48567b"@,
        active_workspace_text: "#cad3f5"@,
        inactive_workspace: "#8aadf4"@,
        separator: "#494d64"@,
        accent: "#a6da95"@,
        widget_background: "#363a4f"@,
        pill_border: "#8aadf4"@,
    }
}

fn macchiato_bar() -> (c: BarColors)
    ensures
        c@ == macchiato_bar_view(),
{
    BarColors {
        background: "#24273a".to_string(),
        foreground: "#8aadf4".to_string(),
        active_workspace: "#48567b".to_string(),
        active_workspace_text: "#cad3f5".to_string(),
        inactive_workspace: "#8aadf4".to_string(),
        separator: "#494d64".to_string(),
        accent: "#a6da95".to_string(),
        widget_background: "#363a4f".to_string(),
        pill_border: "#8aadf4".to_string(),
    }
}

fn macchiato_vec() -> (t: Vec<(&'static str, &'static str)>)
    ensures
        t@ == macchiato_table(),
{
    let t = vec![
        ("rosewater", "#f4dbd6"),
        ("flamingo", "#f0c6c6"),
        ("pink", "#f5bde6"),
        ("mauve", "#c6a0f6"),
        ("red", "#ed8796"),
        ("maroon", "#ee99a0"),
        ("peach", "#f5a97f"),
        ("yellow", "#eed49f"),
        ("green", "#a6da95"),
        ("teal", "#8bd5ca"),
        ("sky", "#91d7e3"),
        ("sapphire", "#7dc4e4"),
        ("blue", "#8aadf4"),
        ("lavender", "#b7bdf8"),
    ];
    assert(t@ =~= macchiato_table());
    t
}

/// The named colors of the Frappe flavor.
pub open spec fn frappe_table() -> Seq<(&'static str, &'static str)> {
    seq![
        ("rosewater", "#f2d5cf"),
        ("flamingo", "#eebebe"),
        ("pink", "#f4b8e4"),
        ("mauve", "#ca9ee6"),
        ("red", "#e78284"),
        ("maroon", "#ea999c"),
        ("peach", "#ef9f76"),
        ("yellow", "#e5c890"),
        ("green", "#a6d189"),
        ("teal", "#81c8be"),
        ("sky", "#99d1db"),
        ("sapphire", "#85c1dc"),
        ("blue", "#8caaee"),
        ("lavender", "#babbf1"),
    ]
}

/// The bar colors of the Frappe flavor.
pub open spec fn frappe_bar_view() -> BarColorsView {
    BarColorsView {
        background: "#303446"@,
        foreground: "#8caaee"@,
        active_workspace: "#505d81"@,
        active_workspace_text: "#c6d0f5"@,
        inactive_workspace: "#8caaee"@,
        separator: "#51576d"@,
        accent: "#a6d189"@,
        widget_background: "#414559"@,
        pill_border: "#8caaee"@,
    }
}

fn frappe_bar() -> (c: BarColors)
    ensures
        c@ == frappe_bar_view(),
{
    BarColors {
        background: "#303446".to_string(),
        foreground: "#8caaee".to_string(),
        active_workspace: "#505d81".to_string(),
        active_workspace_text: "#c6d0f5".to_string(),
        inactive_workspace: "#8caaee".to_string(),
        separator: "#51576d".to_string(),
        accent: "#a6d189".to_string(),
        widget_background: "#414559".to_string(),
        pill_border: "#8caaee".to_string(),
    }
}

fn frappe_vec() -> (t: Vec<(&'static str, &'static str)>)
    ensures
        t@ == frappe_table(),
{
    let t = vec![
        ("rosewater", "#f2d5cf"),
        ("flamingo", "#eebebe"),
        ("pink", "#f4b8e4"),
        ("mauve", "#ca9ee6"),
        ("red", "#e78284"),
        ("maroon", "#ea999c"),
        ("peach", "#ef9f76"),
        ("yellow", "#e5c890"),
        ("green", "#a6d189"),
        ("teal", "#81c8be"),
        ("sky", "#99d1db"),
        ("sapphire", "#85c1dc"),
        ("blue", "#8caaee"),
        ("lavender", "#babbf1"),
    ];
    assert(t@ =~= frappe_table());
    t
}

/// The named colors of the Latte flavor.
pub open spec fn latte_table() -> Seq<(&'static str, &'static str)> {
    seq![
        ("rosewater", "#dc8a78"),
        ("flamingo", "#dd7878"),
        ("pink", "#ea76cb"),
        ("mauve", "#8839ef"),
        ("red", "#d20f39"),
        ("maroon", "#e64553"),
        ("peach", "#fe640b"),
        ("yellow", "#df8e1d"),
        ("green", "#40a02b"),
        ("teal", "#179299"),
        ("sky", "#04a5e5"),
        ("sapphire", "#209fb5"),
        ("blue", "#1e66f5"),
        ("lavender", "#7287fd"),
    ]
}

/// The bar colors of the Latte flavor.
pub open spec fn latte_bar_view() -> BarColorsView {
    BarColorsView {
        background: "#eff1f5"@,
        foreground: "#1e66f5"@,
        active_workspace: "#7287d5"@,
        active_workspace_text: "#eff1f5"@,
        inactive_workspace: "#1e66f5"@,
        separator: "#bcc0cc"@,
        accent: "#40a02b"@,
        widget_background: "#ccd0da"@,
        pill_border: "#1e66f5"@,
    }
}

fn latte_bar() -> (c: BarColors)
    ensures
        c@ == latte_bar_view(),
{
    BarColors {
        background: "#eff1f5".to_string(),
        foreground: "#1e66f5".to_string(),
        active_workspace: "#7287d5".to_string(),
        active_workspace_text: "#eff1f5".to_string(),
        inactive_workspace: "#1e66f5".to_string(),
        separator: "#bcc0cc".to_string(),
        accent: "#40a02b".to_string(),
        widget_background: "#ccd0da".to_string(),
        pill_border: "#1e66f5".to_string(),
    }
}

fn latte_vec() -> (t: Vec<(&'static str, &'static str)>)
    ensures
        t@ == latte_table(),
{
    let t = vec![
        ("rosewater", "#dc8a78"),
        ("flamingo", "#dd7878"),
        ("pink", "#ea76cb"),
        ("mauve", "#8839ef"),
        ("red", "#d20f39"),
        ("maroon", "#e64553"),
        ("peach", "#fe640b"),
        ("yellow", "#df8e1d"),
        ("green", "#40a02b"),
        ("teal", "#179299"),
        ("sky", "#04a5e5"),
        ("sapphire", "#209fb5"),
        ("blue", "#1e66f5"),
        ("lavender", "#7287fd"),
    ];
    assert(t@ =~= latte_table());
    t
}

/// The named-color table of a flavor.
pub open spec fn spec_table(flavor: CatppuccinFlavor) -> Seq<(&'static str, &'static str)> {
    match flavor {
        CatppuccinFlavor::Mocha => mocha_table(),
        CatppuccinFlavor::Macchiato => macchiato_table(),
        CatppuccinFlavor::Frappe => frappe_table(),
        CatppuccinFlavor::Latte => latte_table(),
    }
}

/// The bar colors of a flavor.
pub open spec fn spec_bar_colors(flavor: CatppuccinFlavor) -> BarColorsView {
    match flavor {
        CatppuccinFlavor::Mocha => mocha_bar_view(),
        CatppuccinFlavor::Macchiato => macchiato_bar_view(),
        CatppuccinFlavor::Frappe => frappe_bar_view(),
        CatppuccinFlavor::Latte => latte_bar_view(),
    }
}

/// The named-color table of a flavor: pairs of name and hex color.
pub fn table(flavor: CatppuccinFlavor) -> (t: Vec<(&'static str, &'static str)>)
    ensures
        t@ == spec_table(flavor),
{
    match flavor {
        CatppuccinFlavor::Mocha => mocha_vec(),
        CatppuccinFlavor::Macchiato => macchiato_vec(),
        CatppuccinFlavor::Frappe => frappe_vec(),
        CatppuccinFlavor::Latte => latte_vec(),
    }
}

/// The bar colors of a flavor.
pub fn bar_colors(flavor: CatppuccinFlavor) -> (c: BarColors)
    ensures
        c@ == spec_bar_colors(flavor),
{
    match flavor {
        CatppuccinFlavor::Mocha => mocha_bar(),
        CatppuccinFlavor::Macchiato => macchiato_bar(),
        CatppuccinFlavor::Frappe => frappe_bar(),
        CatppuccinFlavor::Latte => latte_bar(),
    }
}

} // verus!
