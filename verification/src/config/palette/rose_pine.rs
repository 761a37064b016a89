//! Rosé Pine color palettes (Main, Moon, Dawn), with common aliases
//! (red, yellow, green, blue, ...) for portable configs.

use vstd::prelude::*;
use crate::config::bar::{BarColors, BarColorsView};
use crate::config::theme::RosePineFlavor;

verus! {

broadcast use vstd::string::group_string_axioms;

/// The named colors of the Main flavor.
pub open spec fn main_table() -> Seq<(&'static str, &'static str)> {
    seq![
        ("love", "#eb6f92"),
        ("gold", "#f6c177"),
        ("rose", "#ebbcba"),
        ("pine", "#31748f"),
        ("foam", "#9ccfd8"),
        ("iris", "#c4a7e7"),
        ("red", "#eb6f92"),
        ("yellow", "#f6c177"),
        ("green", "#9ccfd8"),
        ("blue", "#31748f"),
        ("teal", "#9ccfd8"),
        ("mauve", "#c4a7e7"),
        ("purple", "#c4a7e7"),
        ("magenta", "#c4a7e7"),
    ]
}

/// The bar colors of the Main flavor.
pub open spec fn main_bar_view() -> BarColorsView {
    BarColorsView {
        background: "#191724"@,
        foreground: "#c4a7e7"@,
        active_workspace: "#403d52"@,
        active_workspace_text: "#e0def4"@,
        inactive_workspace: "#c4a7e7"@,
        separator: "#26233a"@,
        accent: "#ebbcba"@,
        widget_background: "#1f1d2e"@,
        pill_border: "#c4a7e7"@,
    }
}

fn main_bar() -> (c: BarColors)
    ensures
        c@ == main_bar_view(),
{
    BarColors {
        background: "#191724".to_string(),
        foreground: "#c4a7e7".to_string(),
        active_workspace: "#403d52".to_string(),
        active_workspace_text: "#e0def4".to_string(),
        inactive_workspace: "#c4a7e7".to_string(),
        separator: "#26233a".to_string(),
        accent: "#ebbcba".to_string(),
        widget_background: "#1f1d2e".to_string(),
        pill_border: "#c4a7e7".to_string(),
    }
}

fn main_vec() -> (t: Vec<(&'static str, &'static str)>)
    ensures
        t@ == main_table(),
{
    let t = vec![
        ("love", "#eb6f92"),
        ("gold", "#f6c177"),
        ("rose", "#ebbcba"),
        ("pine", "#31748f"),
        ("foam", "#9ccfd8"),
        ("iris", "#c4a7e7"),
        ("red", "#eb6f92"),
        ("yellow", "#f6c177"),
        ("green", "#9ccfd8"),
        ("blue", "#31748f"),
        ("teal", "#9ccfd8"),
        ("mauve", "#c4a7e7"),
        ("purple", "#c4a7e7"),
        ("magenta", "#c4a7e7"),
    ];
    assert(t@ =~= main_table());
    t
}

/// The named colors of the Moon flavor.
pub open spec fn moon_table() -> Seq<(&'static str, &'static str)> {
    seq![
        ("love", "#eb6f92"),
        ("gold", "#f6c177"),
        ("rose", "#ea9a97"),
        ("pine", "#3e8fb0"),
        ("foam", "#9ccfd8"),
        ("iris", "#c4a7e7"),
        ("red", "#eb6f92"),
        ("yellow", "#f6c177"),
        ("green", "#9ccfd8"),
        ("blue", "#3e8fb0"),
        ("teal", "#9ccfd8"),
        ("mauve", "#c4a7e7"),
        ("purple", "#c4a7e7"),
        ("magenta", "#c4a7e7"),
    ]
}

/// The bar colors of the Moon flavor.
pub open spec fn moon_bar_view() -> BarColorsView {
    BarColorsView {
        background: "#232136"@,
        foreground: "#c4a7e7"@,
        active_workspace: "#44415a"@,
        active_workspace_text: "#e0def4"@,
        inactive_workspace: "#c4a7e7"@,
        separator: "#393552"@,
        accent: "#ea9a97"@,
        widget_background: "#2a273f"@,
        pill_border: "#c4a7e7"@,
    }
}

fn moon_bar() -> (c: BarColors)
    ensures
        c@ == moon_bar_view(),
{
    BarColors {
        background: "#232136".to_string(),
        foreground: "#c4a7e7".to_string(),
        active_workspace: "#44415a".to_string(),
        active_workspace_text: "#e0def4".to_string(),
        inactive_workspace: "#c4a7e7".to_string(),
        separator: "#393552".to_string(),
        accent: "#ea9a97".to_string(),
        widget_background: "#2a273f".to_string(),
        pill_border: "#c4a7e7".to_string(),
    }
}

fn moon_vec() -> (t: Vec<(&'static str, &'static str)>)
    ensures
        t@ == moon_table(),
{
    let t = vec![
        ("love", "#eb6f92"),
        ("gold", "#f6c177"),
        ("rose", "#ea9a97"),
        ("pine", "#3e8fb0"),
        ("foam", "#9ccfd8"),
        ("iris", "#c4a7e7"),
        ("red", "#eb6f92"),
        ("yellow", "#f6c177"),
        ("green", "#9ccfd8"),
        ("blue", "#3e8fb0"),
        ("teal", "#9ccfd8"),
        ("mauve", "#c4a7e7"),
        ("purple", "#c4a7e7"),
        ("magenta", "#c4a7e7"),
    ];
    assert(t@ =~= moon_table());
    t
}

/// The named colors of the Dawn flavor.
pub open spec fn dawn_table() -> Seq<(&'static str, &'static str)> {
    seq![
        ("love", "#b4637a"),
        ("gold", "#ea9d34"),
        ("rose", "#d7827e"),
        ("pine", "#286983"),
        ("foam", "#56949f"),
        ("iris", "#907aa9"),
        ("red", "#b4637a"),
        ("yellow", "#ea9d34"),
        ("green", "#56949f"),
        ("blue", "#286983"),
        ("teal", "#56949f"),
        ("mauve", "#907aa9"),
        ("purple", "#907aa9"),
        ("magenta", "#907aa9"),
    ]
}

/// The bar colors of the Dawn flavor.
pub open spec fn dawn_bar_view() -> BarColorsView {
    BarColorsView {
        background: "#faf4ed"@,
        foreground: "#907aa9"@,
        active_workspace: "#dfdad9"@,
        active_workspace_text: "#575279"@,
        inactive_workspace: "#907aa9"@,
        separator: "#cecacd"@,
        accent: "#d7827e"@,
        widget_background: "#fffaf3"@,
        pill_border: "#907aa9"@,
    }
}

fn dawn_bar() -> (c: BarColors)
    ensures
        c@ == dawn_bar_view(),
{
    BarColors {
        background: "#faf4ed".to_string(),
        foreground: "#907aa9".to_string(),
        active_workspace: "#dfdad9".to_string(),
        active_workspace_text: "#575279".to_string(),
        inactive_workspace: "#907aa9".to_string(),
        separator: "#cecacd".to_string(),
        accent: "#d7827e".to_string(),
        widget_background: "#fffaf3".to_string(),
        pill_border: "#907aa9".to_string(),
    }
}

fn dawn_vec() -> (t: Vec<(&'static str, &'static str)>)
    ensures
        t@ == dawn_table(),
{
    let t = vec![
        ("love", "#b4637a"),
        ("gold", "#ea9d34"),
        ("rose", "#d7827e"),
        ("pine", "#286983"),
        ("foam", "#56949f"),
        ("iris", "#907aa9"),
        ("red", "#b4637a"),
        ("yellow", "#ea9d34"),
        ("green", "#56949f"),
        ("blue", "#286983"),
        ("teal", "#56949f"),
        ("mauve", "#907aa9"),
        ("purple", "#907aa9"),
        ("magenta", "#907aa9"),
    ];
    assert(t@ =~= dawn_table());
    t
}

/// The named-color table of a flavor.
pub open spec fn spec_table(flavor: RosePineFlavor) -> Seq<(&'static str, &'static str)> {
    match flavor {
        RosePineFlavor::Main => main_table(),
        RosePineFlavor::Moon => moon_table(),
        RosePineFlavor::Dawn => dawn_table(),
    }
}

/// The bar colors of a flavor.
pub open spec fn spec_bar_colors(flavor: RosePineFlavor) -> BarColorsView {
    match flavor {
        RosePineFlavor::Main => main_bar_view(),
        RosePineFlavor::Moon => moon_bar_view(),
        RosePineFlavor::Dawn => dawn_bar_view(),
    }
}

/// The named-color table of a flavor: pairs of name and hex color.
pub fn table(flavor: RosePineFlavor) -> (t: Vec<(&'static str, &'static str)>)
    ensures
        t@ == spec_table(flavor),
{
    match flavor {
        RosePineFlavor::Main => main_vec(),
        RosePineFlavor::Moon => moon_vec(),
        RosePineFlavor::Dawn => dawn_vec(),
    }
}

/// The bar colors of a flavor.
pub fn bar_colors(flavor: RosePineFlavor) -> (c: BarColors)
    ensures
        c@ == spec_bar_colors(flavor),
{
    match flavor {
        RosePineFlavor::Main => main_bar(),
        RosePineFlavor::Moon => moon_bar(),
        RosePineFlavor::Dawn => dawn_bar(),
    }
}

} // verus!
