//! Color palettes for each supported theme family.
//!
//! Public dispatchers route lookups to the right family module based
//! on the resolved [`Theme`] variant.

pub mod catppuccin;
pub mod rose_pine;
pub mod tokyo_night;
pub mod hex;

use vstd::prelude::*;
use crate::config::bar::BarColors;
use crate::config::theme::{lookup_color, Theme};
use crate::text::str_eq_ignore_case;

verus! {

/// Resolves a named theme color (e.g. `"blue"`, `"pine"`) to its hex
/// value for the given theme, ignoring ASCII case. Returns `None` for
/// unknown names.
///
/// Common color names like `"red"`, `"blue"`, `"green"`, `"yellow"`
/// resolve in every theme family; family-specific names (`pine`,
/// `iris`, `magenta`, ...) only resolve under their own family.
pub fn named_color(theme: Theme, name: &str) -> (r: Option<&'static str>)
    ensures
        r == theme.spec_named_color(name@),
{
    let table = match theme {
        Theme::Catppuccin(f) => catppuccin::table(f),
        Theme::RosePine(f) => rose_pine::table(f),
        Theme::TokyoNight(f) => tokyo_night::table(f),
    };
    let ghost t = table@;
    assert(t.skip(0) =~= t);
    let mut i: usize = 0;
    while i < table.len()
        invariant
            0 <= i <= table.len(),
            t == table@,
            t == theme.spec_table(),
            lookup_color(t, name@) == lookup_color(t.skip(i as int), name@),
        decreases table.len() - i,
    {
        let (n, hex) = table[i];
        assert(t.skip(i as int)[0] == t[i as int]);
        if str_eq_ignore_case(n, name) {
            return Some(hex);
        }
        assert(t.skip(i as int).drop_first() =~= t.skip(i + 1));
        i = i + 1;
    }
    None
}

/// Returns the bar color palette for the given theme.
pub fn bar_colors(theme: Theme) -> (c: BarColors)
    ensures
        c@ == theme.spec_bar_colors(),
{
    match theme {
        Theme::Catppuccin(f) => catppuccin::bar_colors(f),
        Theme::RosePine(f) => rose_pine::bar_colors(f),
        Theme::TokyoNight(f) => tokyo_night::bar_colors(f),
    }
}

} // verus!
