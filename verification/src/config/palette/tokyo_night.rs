//! Tokyo Night color palettes (Night, Storm, Day).

use vstd::prelude::*;
use crate::config::bar::{BarColors, BarColorsView};
use crate::config::theme::TokyoNightFlavor;

verus! {

broadcast use vstd::string::group_string_axioms;

/// The named colors of the Night flavor.
pub open spec fn night_table() -> Seq<(&'static str, &'static str)> {
    seq![
        ("red", "#f7768e"),
        ("orange", "#ff9e64"),
        ("yellow", "#e0af68"),
        ("green", "#9ece6a"),
        ("cyan", "#7dcfff"),
        ("teal", "#1abc9c"),
        ("blue", "#7aa2f7"),
        ("purple", "#9d7cd8"),
        ("magenta", "#bb9af7"),
        ("mauve", "#bb9af7"),
    ]
}

/// The bar colors of the Night flavor.
pub open spec fn night_bar_view() -> BarColorsView {
    BarColorsView {
        background: "#1a1b26"@,
        foreground: "#7aa2f7"@,
        active_workspace: "#3b4261"@,
        active_workspace_text: "#c0caf5"@,
        inactive_workspace: "#7aa2f7"@,
        separator: "#414868"@,
        accent: "#9ece6a"@,
        widget_background: "#16161e"@,
        pill_border: "#7aa2f7"@,
    }
}

fn night_bar() -> (c: BarColors)
    ensures
        c@ == night_bar_view(),
{
    BarColors {
        background: "#1a1b26".to_string(),
        foreground: "#7aa2f7".to_string(),
        active_workspace: "#3b4261".to_string(),
        active_workspace_text: "#c0caf5".to_string(),
        inactive_workspace: "#7aa2f7".to_string(),
        separator: "#414868".to_string(),
        accent: "#9ece6a".to_string(),
        widget_background: "#16161e".to_string(),
        pill_border: "#7aa2f7".to_string(),
    }
}

fn night_vec() -> (t: Vec<(&'static str, &'static str)>)
    ensures
        t@ == night_table(),
{
    let t = vec![
        ("red", "#f7768e"),
        ("orange", "#ff9e64"),
        ("yellow", "#e0af68"),
        ("green", "#9ece6a"),
        ("cyan", "#7dcfff"),
        ("teal", "#1abc9c"),
        ("blue", "#7aa2f7"),
        ("purple", "#9d7cd8"),
        ("magenta", "#bb9af7"),
        ("mauve", "#bb9af7"),
    ];
    assert(t@ =~= night_table());
    t
}

/// The named colors of the Storm flavor.
pub open spec fn storm_table() -> Seq<(&'static str, &'static str)> {
    seq![
        ("red", "#f7768e"),
        ("orange", "#ff9e64"),
        ("yellow", "#e0af68"),
        ("green", "#9ece6a"),
        ("cyan", "#7dcfff"),
        ("teal", "#1abc9c"),
        ("blue", "#7aa2f7"),
        ("purple", "#9d7cd8"),
        ("magenta", "#bb9af7"),
        ("mauve", "#bb9af7"),
    ]
}

/// The bar colors of the Storm flavor.
pub open spec fn storm_bar_view() -> BarColorsView {
    BarColorsView {
        background: "#24283b"@,
        foreground: "#7aa2f7"@,
        active_workspace: "#3b4261"@,
        active_workspace_text: "#c0caf5"@,
        inactive_workspace: "#7aa2f7"@,
        separator: "#414868"@,
        accent: "#9ece6a"@,
        widget_background: "#1f2335"@,
        pill_border: "#7aa2f7"@,
    }
}

fn storm_bar() -> (c: BarColors)
    ensures
        c@ == storm_bar_view(),
{
    BarColors {
        background: "#24283b".to_string(),
        foreground: "#7aa2f7".to_string(),
        active_workspace: "#3b4261".to_string(),
        active_workspace_text: "#c0caf5".to_string(),
        inactive_workspace: "#7aa2f7".to_string(),
        separator: "#414868".to_string(),
        accent: "#9ece6a".to_string(),
        widget_background: "#1f2335".to_string(),
        pill_border: "#7aa2f7".to_string(),
    }
}

fn storm_vec() -> (t: Vec<(&'static str, &'static str)>)
    ensures
        t@ == storm_table(),
{
    let t = vec![
        ("red", "#f7768e"),
        ("orange", "#ff9e64"),
        ("yellow", "#e0af68"),
        ("green", "#9ece6a"),
        ("cyan", "#7dcfff"),
        ("teal", "#1abc9c"),
        ("blue", "#7aa2f7"),
        ("purple", "#9d7cd8"),
        ("magenta", "#bb9af7"),
        ("mauve", "#bb9af7"),
    ];
    assert(t@ =~= storm_table());
    t
}

/// The named colors of the Day flavor.
pub open spec fn day_table() -> Seq<(&'static str, &'static str)> {
    seq![
        ("red", "#f52a65"),
        ("orange", "#b15c00"),
        ("yellow", "#8c6c3e"),
        ("green", "#587539"),
        ("cyan", "#007197"),
        ("teal", "#118c74"),
        ("blue", "#2e7de9"),
        ("purple", "#7847bd"),
        ("magenta", "#9854f1"),
        ("mauve", "#9854f1"),
    ]
}

/// The bar colors of the Day flavor.
pub open spec fn day_bar_view() -> BarColorsView {
    BarColorsView {
        background: "#e1e2e7"@,
        foreground: "#2e7de9"@,
        active_workspace: "#a8aecb"@,
        active_workspace_text: "#3760bf"@,
        inactive_workspace: "#2e7de9"@,
        separator: "#a8aecb"@,
        accent: "#587539"@,
        widget_background: "#d0d5e3"@,
        pill_border: "#2e7de9"@,
    }
}

fn day_bar() -> (c: BarColors)
    ensures
        c@ == day_bar_view(),
{
    BarColors {
        background: "#e1e2e7".to_string(),
        foreground: "#2e7de9".to_string(),
        active_workspace: "#a8aecb".to_string(),
        active_workspace_text: "#3760bf".to_string(),
        inactive_workspace: "#2e7de9".to_string(),
        separator: "#a8aecb".to_string(),
        accent: "#587539".to_string(),
        widget_background: "#d0d5e3".to_string(),
        pill_border: "#2e7de9".to_string(),
    }
}

fn day_vec() -> (t: Vec<(&'static str, &'static str)>)
    ensures
        t@ == day_table(),
{
    let t = vec![
        ("red", "#f52a65"),
        ("orange", "#b15c00"),
        ("yellow", "#8c6c3e"),
        ("green", "#587539"),
        ("cyan", "#007197"),
        ("teal", "#118c74"),
        ("blue", "#2e7de9"),
        ("purple", "#7847bd"),
        ("magenta", "#9854f1"),
        ("mauve", "#9854f1"),
    ];
    assert(t@ =~= day_table());
    t
}

/// The named-color table of a flavor.
pub open spec fn spec_table(flavor: TokyoNightFlavor) -> Seq<(&'static str, &'static str)> {
    match flavor {
        TokyoNightFlavor::Night => night_table(),
        TokyoNightFlavor::Storm => storm_table(),
        TokyoNightFlavor::Day => day_table(),
    }
}

/// The bar colors of a flavor.
pub open spec fn spec_bar_colors(flavor: TokyoNightFlavor) -> BarColorsView {
    match flavor {
        TokyoNightFlavor::Night => night_bar_view(),
        TokyoNightFlavor::Storm => storm_bar_view(),
        TokyoNightFlavor::Day => day_bar_view(),
    }
}

/// The named-color table of a flavor: pairs of name and hex color.
pub fn table(flavor: TokyoNightFlavor) -> (t: Vec<(&'static str, &'static str)>)
    ensures
        t@ == spec_table(flavor),
{
    match flavor {
        TokyoNightFlavor::Night => night_vec(),
        TokyoNightFlavor::Storm => storm_vec(),
        TokyoNightFlavor::Day => day_vec(),
    }
}

/// The bar colors of a flavor.
pub fn bar_colors(flavor: TokyoNightFlavor) -> (c: BarColors)
    ensures
        c@ == spec_bar_colors(flavor),
{
    match flavor {
        TokyoNightFlavor::Night => night_bar(),
        TokyoNightFlavor::Storm => storm_bar(),
        TokyoNightFlavor::Day => day_bar(),
    }
}

} // verus!
