//! The border colors of each theme are named colors of its palette: the
//! focused border is its blue (Iris for Rosé Pine) and the monocle border
//! its green (Foam for Rosé Pine).

use vstd::prelude::*;
use crate::config::palette;
use crate::config::theme::{lookup_color, CatppuccinFlavor, RosePineFlavor, Theme, TokyoNightFlavor};
use crate::text::{eq_ignore_case, lower, lower_seq};

verus! {

broadcast use vstd::string::group_string_axioms;

/// The name of the color a theme draws the focused border in.
pub open spec fn focus_color_name(theme: Theme) -> Seq<char> {
    match theme {
        Theme::RosePine(_) => "iris"@,
        _ => "blue"@,
    }
}

/// The name of the color a theme draws the monocle border in.
pub open spec fn monocle_color_name(theme: Theme) -> Seq<char> {
    match theme {
        Theme::RosePine(_) => "foam"@,
        _ => "green"@,
    }
}

/// Names of different lengths, or that differ (ignoring ASCII case) at
/// position `i`, are different names.
proof fn lemma_names_differ(a: Seq<char>, b: Seq<char>, i: int)
    requires
        a.len() != b.len() || (0 <= i < a.len() && i < b.len() && lower(a[i]) != lower(b[i])),
    ensures
        !eq_ignore_case(a, b),
{
    assert(lower_seq(a).len() == a.len());
    assert(lower_seq(b).len() == b.len());
    if a.len() == b.len() {
        assert(lower_seq(a)[i] == lower(a[i]));
        assert(lower_seq(b)[i] == lower(b[i]));
        assert(lower_seq(a)[i] != lower_seq(b)[i]);
    }
}

/// An entry whose name does not match is passed over by the lookup.
proof fn lemma_lookup_skip(table: Seq<(&'static str, &'static str)>, name: Seq<char>, j: int)
    requires
        0 <= j < table.len(),
        !eq_ignore_case(table[j].0@, name),
    ensures
        lookup_color(table.skip(j), name) == lookup_color(table.skip(j + 1), name),
{
    assert(table.skip(j).drop_first() =~= table.skip(j + 1));
    assert(table.skip(j)[0] == table[j]);
}

/// An entry whose name matches ends the lookup.
proof fn lemma_lookup_hit(table: Seq<(&'static str, &'static str)>, name: Seq<char>, j: int)
    requires
        0 <= j < table.len(),
        eq_ignore_case(table[j].0@, name),
    ensures
        lookup_color(table.skip(j), name) == Some(table[j].1),
{
    assert(table.skip(j)[0] == table[j]);
}

proof fn lemma_mocha_blue()
    ensures
        lookup_color(palette::catppuccin::mocha_table(), "blue"@) == Some(palette::catppuccin::mocha_table()[12].1),
{
    let t = palette::catppuccin::mocha_table();
    reveal_strlit("blue");
    reveal_strlit("rosewater");
    lemma_names_differ(t[0].0@, "blue"@, 0);
    lemma_lookup_skip(t, "blue"@, 0);
    reveal_strlit("flamingo");
    lemma_names_differ(t[1].0@, "blue"@, 0);
    lemma_lookup_skip(t, "blue"@, 1);
    reveal_strlit("pink");
    lemma_names_differ(t[2].0@, "blue"@, 0);
    lemma_lookup_skip(t, "blue"@, 2);
    reveal_strlit("mauve");
    lemma_names_differ(t[3].0@, "blue"@, 0);
    lemma_lookup_skip(t, "blue"@, 3);
    reveal_strlit("red");
    lemma_names_differ(t[4].0@, "blue"@, 0);
    lemma_lookup_skip(t, "blue"@, 4);
    reveal_strlit("maroon");
    lemma_names_differ(t[5].0@, "blue"@, 0);
    lemma_lookup_skip(t, "blue"@, 5);
    reveal_strlit("peach");
    lemma_names_differ(t[6].0@, "blue"@, 0);
    lemma_lookup_skip(t, "blue"@, 6);
    reveal_strlit("yellow");
    lemma_names_differ(t[7].0@, "blue"@, 0);
    lemma_lookup_skip(t, "blue"@, 7);
    reveal_strlit("green");
    lemma_names_differ(t[8].0@, "blue"@, 0);
    lemma_lookup_skip(t, "blue"@, 8);
    reveal_strlit("teal");
    lemma_names_differ(t[9].0@, "blue"@, 0);
    lemma_lookup_skip(t, "blue"@, 9);
    reveal_strlit("sky");
    lemma_names_differ(t[10].0@, "blue"@, 0);
    lemma_lookup_skip(t, "blue"@, 10);
    reveal_strlit("sapphire");
    lemma_names_differ(t[11].0@, "blue"@, 0);
    lemma_lookup_skip(t, "blue"@, 11);
    lemma_lookup_hit(t, "blue"@, 12);
    assert(t.skip(0) =~= t);
}

proof fn lemma_mocha_green()
    ensures
        lookup_color(palette::catppuccin::mocha_table(), "green"@) == Some(palette::catppuccin::mocha_table()[8].1),
{
    let t = palette::catppuccin::mocha_table();
    reveal_strlit("green");
    reveal_strlit("rosewater");
    lemma_names_differ(t[0].0@, "green"@, 0);
    lemma_lookup_skip(t, "green"@, 0);
    reveal_strlit("flamingo");
    lemma_names_differ(t[1].0@, "green"@, 0);
    lemma_lookup_skip(t, "green"@, 1);
    reveal_strlit("pink");
    lemma_names_differ(t[2].0@, "green"@, 0);
    lemma_lookup_skip(t, "green"@, 2);
    reveal_strlit("mauve");
    lemma_names_differ(t[3].0@, "green"@, 0);
    lemma_lookup_skip(t, "green"@, 3);
    reveal_strlit("red");
    lemma_names_differ(t[4].0@, "green"@, 0);
    lemma_lookup_skip(t, "green"@, 4);
    reveal_strlit("maroon");
    lemma_names_differ(t[5].0@, "green"@, 0);
    lemma_lookup_skip(t, "green"@, 5);
    reveal_strlit("peach");
    lemma_names_differ(t[6].0@, "green"@, 0);
    lemma_lookup_skip(t, "green"@, 6);
    reveal_strlit("yellow");
    lemma_names_differ(t[7].0@, "green"@, 0);
    lemma_lookup_skip(t, "green"@, 7);
    lemma_lookup_hit(t, "green"@, 8);
    assert(t.skip(0) =~= t);
}

proof fn lemma_macchiato_blue()
    ensures
        lookup_color(palette::catppuccin::macchiato_table(), "blue"@) == Some(palette::catppuccin::macchiato_table()[12].1),
{
    let t = palette::catppuccin::macchiato_table();
    reveal_strlit("blue");
    reveal_strlit("rosewater");
    lemma_names_differ(t[0].0@, "blue"@, 0);
    lemma_lookup_skip(t, "blue"@, 0);
    reveal_strlit("flamingo");
    lemma_names_differ(t[1].0@, "blue"@, 0);
    lemma_lookup_skip(t, "blue"@, 1);
    reveal_strlit("pink");
    lemma_names_differ(t[2].0@, "blue"@, 0);
    lemma_lookup_skip(t, "blue"@, 2);
    reveal_strlit("mauve");
    lemma_names_differ(t[3].0@, "blue"@, 0);
    lemma_lookup_skip(t, "blue"@, 3);
    reveal_strlit("red");
    lemma_names_differ(t[4].0@, "blue"@, 0);
    lemma_lookup_skip(t, "blue"@, 4);
    reveal_strlit("maroon");
    lemma_names_differ(t[5].0@, "blue"@, 0);
    lemma_lookup_skip(t, "blue"@, 5);
    reveal_strlit("peach");
    lemma_names_differ(t[6].0@, "blue"@, 0);
    lemma_lookup_skip(t, "blue"@, 6);
    reveal_strlit("yellow");
    lemma_names_differ(t[7].0@, "blue"@, 0);
    lemma_lookup_skip(t, "blue"@, 7);
    reveal_strlit("green");
    lemma_names_differ(t[8].0@, "blue"@, 0);
    lemma_lookup_skip(t, "blue"@, 8);
    reveal_strlit("teal");
    lemma_names_differ(t[9].0@, "blue"@, 0);
    lemma_lookup_skip(t, "blue"@, 9);
    reveal_strlit("sky");
    lemma_names_differ(t[10].0@, "blue"@, 0);
    lemma_lookup_skip(t, "blue"@, 10);
    reveal_strlit("sapphire");
    lemma_names_differ(t[11].0@, "blue"@, 0);
    lemma_lookup_skip(t, "blue"@, 11);
    lemma_lookup_hit(t, "blue"@, 12);
    assert(t.skip(0) =~= t);
}

proof fn lemma_macchiato_green()
    ensures
        lookup_color(palette::catppuccin::macchiato_table(), "green"@) == Some(palette::catppuccin::macchiato_table()[8].1),
{
    let t = palette::catppuccin::macchiato_table();
    reveal_strlit("green");
    reveal_strlit("rosewater");
    lemma_names_differ(t[0].0@, "green"@, 0);
    lemma_lookup_skip(t, "green"@, 0);
    reveal_strlit("flamingo");
    lemma_names_differ(t[1].0@, "green"@, 0);
    lemma_lookup_skip(t, "green"@, 1);
    reveal_strlit("pink");
    lemma_names_differ(t[2].0@, "green"@, 0);
    lemma_lookup_skip(t, "green"@, 2);
    reveal_strlit("mauve");
    lemma_names_differ(t[3].0@, "green"@, 0);
    lemma_lookup_skip(t, "green"@, 3);
    reveal_strlit("red");
    lemma_names_differ(t[4].0@, "green"@, 0);
    lemma_lookup_skip(t, "green"@, 4);
    reveal_strlit("maroon");
    lemma_names_differ(t[5].0@, "green"@, 0);
    lemma_lookup_skip(t, "green"@, 5);
    reveal_strlit("peach");
    lemma_names_differ(t[6].0@, "green"@, 0);
    lemma_lookup_skip(t, "green"@, 6);
    reveal_strlit("yellow");
    lemma_names_differ(t[7].0@, "green"@, 0);
    lemma_lookup_skip(t, "green"@, 7);
    lemma_lookup_hit(t, "green"@, 8);
    assert(t.skip(0) =~= t);
}

proof fn lemma_frappe_blue()
    ensures
        lookup_color(palette::catppuccin::frappe_table(), "blue"@) == Some(palette::catppuccin::frappe_table()[12].1),
{
    let t = palette::catppuccin::frappe_table();
    reveal_strlit("blue");
    reveal_strlit("rosewater");
    lemma_names_differ(t[0].0@, "blue"@, 0);
    lemma_lookup_skip(t, "blue"@, 0);
    reveal_strlit("flamingo");
    lemma_names_differ(t[1].0@, "blue"@, 0);
    lemma_lookup_skip(t, "blue"@, 1);
    reveal_strlit("pink");
    lemma_names_differ(t[2].0@, "blue"@, 0);
    lemma_lookup_skip(t, "blue"@, 2);
    reveal_strlit("mauve");
    lemma_names_differ(t[3].0@, "blue"@, 0);
    lemma_lookup_skip(t, "blue"@, 3);
    reveal_strlit("red");
    lemma_names_differ(t[4].0@, "blue"@, 0);
    lemma_lookup_skip(t, "blue"@, 4);
    reveal_strlit("maroon");
    lemma_names_differ(t[5].0@, "blue"@, 0);
    lemma_lookup_skip(t, "blue"@, 5);
    reveal_strlit("peach");
    lemma_names_differ(t[6].0@, "blue"@, 0);
    lemma_lookup_skip(t, "blue"@, 6);
    reveal_strlit("yellow");
    lemma_names_differ(t[7].0@, "blue"@, 0);
    lemma_lookup_skip(t, "blue"@, 7);
    reveal_strlit("green");
    lemma_names_differ(t[8].0@, "blue"@, 0);
    lemma_lookup_skip(t, "blue"@, 8);
    reveal_strlit("teal");
    lemma_names_differ(t[9].0@, "blue"@, 0);
    lemma_lookup_skip(t, "blue"@, 9);
    reveal_strlit("sky");
    lemma_names_differ(t[10].0@, "blue"@, 0);
    lemma_lookup_skip(t, "blue"@, 10);
    reveal_strlit("sapphire");
    lemma_names_differ(t[11].0@, "blue"@, 0);
    lemma_lookup_skip(t, "blue"@, 11);
    lemma_lookup_hit(t, "blue"@, 12);
    assert(t.skip(0) =~= t);
}

proof fn lemma_frappe_green()
    ensures
        lookup_color(palette::catppuccin::frappe_table(), "green"@) == Some(palette::catppuccin::frappe_table()[8].1),
{
    let t = palette::catppuccin::frappe_table();
    reveal_strlit("green");
    reveal_strlit("rosewater");
    lemma_names_differ(t[0].0@, "green"@, 0);
    lemma_lookup_skip(t, "green"@, 0);
    reveal_strlit("flamingo");
    lemma_names_differ(t[1].0@, "green"@, 0);
    lemma_lookup_skip(t, "green"@, 1);
    reveal_strlit("pink");
    lemma_names_differ(t[2].0@, "green"@, 0);
    lemma_lookup_skip(t, "green"@, 2);
    reveal_strlit("mauve");
    lemma_names_differ(t[3].0@, "green"@, 0);
    lemma_lookup_skip(t, "green"@, 3);
    reveal_strlit("red");
    lemma_names_differ(t[4].0@, "green"@, 0);
    lemma_lookup_skip(t, "green"@, 4);
    reveal_strlit("maroon");
    lemma_names_differ(t[5].0@, "green"@, 0);
    lemma_lookup_skip(t, "green"@, 5);
    reveal_strlit("peach");
    lemma_names_differ(t[6].0@, "green"@, 0);
    lemma_lookup_skip(t, "green"@, 6);
    reveal_strlit("yellow");
    lemma_names_differ(t[7].0@, "green"@, 0);
    lemma_lookup_skip(t, "green"@, 7);
    lemma_lookup_hit(t, "green"@, 8);
    assert(t.skip(0) =~= t);
}

proof fn lemma_latte_blue()
    ensures
        lookup_color(palette::catppuccin::latte_table(), "blue"@) == Some(palette::catppuccin::latte_table()[12].1),
{
    let t = palette::catppuccin::latte_table();
    reveal_strlit("blue");
    reveal_strlit("rosewater");
    lemma_names_differ(t[0].0@, "blue"@, 0);
    lemma_lookup_skip(t, "blue"@, 0);
    reveal_strlit("flamingo");
    lemma_names_differ(t[1].0@, "blue"@, 0);
    lemma_lookup_skip(t, "blue"@, 1);
    reveal_strlit("pink");
    lemma_names_differ(t[2].0@, "blue"@, 0);
    lemma_lookup_skip(t, "blue"@, 2);
    reveal_strlit("mauve");
    lemma_names_differ(t[3].0@, "blue"@, 0);
    lemma_lookup_skip(t, "blue"@, 3);
    reveal_strlit("red");
    lemma_names_differ(t[4].0@, "blue"@, 0);
    lemma_lookup_skip(t, "blue"@, 4);
    reveal_strlit("maroon");
    lemma_names_differ(t[5].0@, "blue"@, 0);
    lemma_lookup_skip(t, "blue"@, 5);
    reveal_strlit("peach");
    lemma_names_differ(t[6].0@, "blue"@, 0);
    lemma_lookup_skip(t, "blue"@, 6);
    reveal_strlit("yellow");
    lemma_names_differ(t[7].0@, "blue"@, 0);
    lemma_lookup_skip(t, "blue"@, 7);
    reveal_strlit("green");
    lemma_names_differ(t[8].0@, "blue"@, 0);
    lemma_lookup_skip(t, "blue"@, 8);
    reveal_strlit("teal");
    lemma_names_differ(t[9].0@, "blue"@, 0);
    lemma_lookup_skip(t, "blue"@, 9);
    reveal_strlit("sky");
    lemma_names_differ(t[10].0@, "blue"@, 0);
    lemma_lookup_skip(t, "blue"@, 10);
    reveal_strlit("sapphire");
    lemma_names_differ(t[11].0@, "blue"@, 0);
    lemma_lookup_skip(t, "blue"@, 11);
    lemma_lookup_hit(t, "blue"@, 12);
    assert(t.skip(0) =~= t);
}

proof fn lemma_latte_green()
    ensures
        lookup_color(palette::catppuccin::latte_table(), "green"@) == Some(palette::catppuccin::latte_table()[8].1),
{
    let t = palette::catppuccin::latte_table();
    reveal_strlit("green");
    reveal_strlit("rosewater");
    lemma_names_differ(t[0].0@, "green"@, 0);
    lemma_lookup_skip(t, "green"@, 0);
    reveal_strlit("flamingo");
    lemma_names_differ(t[1].0@, "green"@, 0);
    lemma_lookup_skip(t, "green"@, 1);
    reveal_strlit("pink");
    lemma_names_differ(t[2].0@, "green"@, 0);
    lemma_lookup_skip(t, "green"@, 2);
    reveal_strlit("mauve");
    lemma_names_differ(t[3].0@, "green"@, 0);
    lemma_lookup_skip(t, "green"@, 3);
    reveal_strlit("red");
    lemma_names_differ(t[4].0@, "green"@, 0);
    lemma_lookup_skip(t, "green"@, 4);
    reveal_strlit("maroon");
    lemma_names_differ(t[5].0@, "green"@, 0);
    lemma_lookup_skip(t, "green"@, 5);
    reveal_strlit("peach");
    lemma_names_differ(t[6].0@, "green"@, 0);
    lemma_lookup_skip(t, "green"@, 6);
    reveal_strlit("yellow");
    lemma_names_differ(t[7].0@, "green"@, 0);
    lemma_lookup_skip(t, "green"@, 7);
    lemma_lookup_hit(t, "green"@, 8);
    assert(t.skip(0) =~= t);
}

proof fn lemma_main_iris()
    ensures
        lookup_color(palette::rose_pine::main_table(), "iris"@) == Some(palette::rose_pine::main_table()[5].1),
{
    let t = palette::rose_pine::main_table();
    reveal_strlit("iris");
    reveal_strlit("love");
    lemma_names_differ(t[0].0@, "iris"@, 0);
    lemma_lookup_skip(t, "iris"@, 0);
    reveal_strlit("gold");
    lemma_names_differ(t[1].0@, "iris"@, 0);
    lemma_lookup_skip(t, "iris"@, 1);
    reveal_strlit("rose");
    lemma_names_differ(t[2].0@, "iris"@, 0);
    lemma_lookup_skip(t, "iris"@, 2);
    reveal_strlit("pine");
    lemma_names_differ(t[3].0@, "iris"@, 0);
    lemma_lookup_skip(t, "iris"@, 3);
    reveal_strlit("foam");
    lemma_names_differ(t[4].0@, "iris"@, 0);
    lemma_lookup_skip(t, "iris"@, 4);
    lemma_lookup_hit(t, "iris"@, 5);
    assert(t.skip(0) =~= t);
}

proof fn lemma_main_foam()
    ensures
        lookup_color(palette::rose_pine::main_table(), "foam"@) == Some(palette::rose_pine::main_table()[4].1),
{
    let t = palette::rose_pine::main_table();
    reveal_strlit("foam");
    reveal_strlit("love");
    lemma_names_differ(t[0].0@, "foam"@, 0);
    lemma_lookup_skip(t, "foam"@, 0);
    reveal_strlit("gold");
    lemma_names_differ(t[1].0@, "foam"@, 0);
    lemma_lookup_skip(t, "foam"@, 1);
    reveal_strlit("rose");
    lemma_names_differ(t[2].0@, "foam"@, 0);
    lemma_lookup_skip(t, "foam"@, 2);
    reveal_strlit("pine");
    lemma_names_differ(t[3].0@, "foam"@, 0);
    lemma_lookup_skip(t, "foam"@, 3);
    lemma_lookup_hit(t, "foam"@, 4);
    assert(t.skip(0) =~= t);
}

proof fn lemma_moon_iris()
    ensures
        lookup_color(palette::rose_pine::moon_table(), "iris"@) == Some(palette::rose_pine::moon_table()[5].1),
{
    let t = palette::rose_pine::moon_table();
    reveal_strlit("iris");
    reveal_strlit("love");
    lemma_names_differ(t[0].0@, "iris"@, 0);
    lemma_lookup_skip(t, "iris"@, 0);
    reveal_strlit("gold");
    lemma_names_differ(t[1].0@, "iris"@, 0);
    lemma_lookup_skip(t, "iris"@, 1);
    reveal_strlit("rose");
    lemma_names_differ(t[2].0@, "iris"@, 0);
    lemma_lookup_skip(t, "iris"@, 2);
    reveal_strlit("pine");
    lemma_names_differ(t[3].0@, "iris"@, 0);
    lemma_lookup_skip(t, "iris"@, 3);
    reveal_strlit("foam");
    lemma_names_differ(t[4].0@, "iris"@, 0);
    lemma_lookup_skip(t, "iris"@, 4);
    lemma_lookup_hit(t, "iris"@, 5);
    assert(t.skip(0) =~= t);
}

proof fn lemma_moon_foam()
    ensures
        lookup_color(palette::rose_pine::moon_table(), "foam"@) == Some(palette::rose_pine::moon_table()[4].1),
{
    let t = palette::rose_pine::moon_table();
    reveal_strlit("foam");
    reveal_strlit("love");
    lemma_names_differ(t[0].0@, "foam"@, 0);
    lemma_lookup_skip(t, "foam"@, 0);
    reveal_strlit("gold");
    lemma_names_differ(t[1].0@, "foam"@, 0);
    lemma_lookup_skip(t, "foam"@, 1);
    reveal_strlit("rose");
    lemma_names_differ(t[2].0@, "foam"@, 0);
    lemma_lookup_skip(t, "foam"@, 2);
    reveal_strlit("pine");
    lemma_names_differ(t[3].0@, "foam"@, 0);
    lemma_lookup_skip(t, "foam"@, 3);
    lemma_lookup_hit(t, "foam"@, 4);
    assert(t.skip(0) =~= t);
}

proof fn lemma_dawn_iris()
    ensures
        lookup_color(palette::rose_pine::dawn_table(), "iris"@) == Some(palette::rose_pine::dawn_table()[5].1),
{
    let t = palette::rose_pine::dawn_table();
    reveal_strlit("iris");
    reveal_strlit("love");
    lemma_names_differ(t[0].0@, "iris"@, 0);
    lemma_lookup_skip(t, "iris"@, 0);
    reveal_strlit("gold");
    lemma_names_differ(t[1].0@, "iris"@, 0);
    lemma_lookup_skip(t, "iris"@, 1);
    reveal_strlit("rose");
    lemma_names_differ(t[2].0@, "iris"@, 0);
    lemma_lookup_skip(t, "iris"@, 2);
    reveal_strlit("pine");
    lemma_names_differ(t[3].0@, "iris"@, 0);
    lemma_lookup_skip(t, "iris"@, 3);
    reveal_strlit("foam");
    lemma_names_differ(t[4].0@, "iris"@, 0);
    lemma_lookup_skip(t, "iris"@, 4);
    lemma_lookup_hit(t, "iris"@, 5);
    assert(t.skip(0) =~= t);
}

proof fn lemma_dawn_foam()
    ensures
        lookup_color(palette::rose_pine::dawn_table(), "foam"@) == Some(palette::rose_pine::dawn_table()[4].1),
{
    let t = palette::rose_pine::dawn_table();
    reveal_strlit("foam");
    reveal_strlit("love");
    lemma_names_differ(t[0].0@, "foam"@, 0);
    lemma_lookup_skip(t, "foam"@, 0);
    reveal_strlit("gold");
    lemma_names_differ(t[1].0@, "foam"@, 0);
    lemma_lookup_skip(t, "foam"@, 1);
    reveal_strlit("rose");
    lemma_names_differ(t[2].0@, "foam"@, 0);
    lemma_lookup_skip(t, "foam"@, 2);
    reveal_strlit("pine");
    lemma_names_differ(t[3].0@, "foam"@, 0);
    lemma_lookup_skip(t, "foam"@, 3);
    lemma_lookup_hit(t, "foam"@, 4);
    assert(t.skip(0) =~= t);
}

proof fn lemma_night_blue()
    ensures
        lookup_color(palette::tokyo_night::night_table(), "blue"@) == Some(palette::tokyo_night::night_table()[6].1),
{
    let t = palette::tokyo_night::night_table();
    reveal_strlit("blue");
    reveal_strlit("red");
    lemma_names_differ(t[0].0@, "blue"@, 0);
    lemma_lookup_skip(t, "blue"@, 0);
    reveal_strlit("orange");
    lemma_names_differ(t[1].0@, "blue"@, 0);
    lemma_lookup_skip(t, "blue"@, 1);
    reveal_strlit("yellow");
    lemma_names_differ(t[2].0@, "blue"@, 0);
    lemma_lookup_skip(t, "blue"@, 2);
    reveal_strlit("green");
    lemma_names_differ(t[3].0@, "blue"@, 0);
    lemma_lookup_skip(t, "blue"@, 3);
    reveal_strlit("cyan");
    lemma_names_differ(t[4].0@, "blue"@, 0);
    lemma_lookup_skip(t, "blue"@, 4);
    reveal_strlit("teal");
    lemma_names_differ(t[5].0@, "blue"@, 0);
    lemma_lookup_skip(t, "blue"@, 5);
    lemma_lookup_hit(t, "blue"@, 6);
    assert(t.skip(0) =~= t);
}

proof fn lemma_night_green()
    ensures
        lookup_color(palette::tokyo_night::night_table(), "green"@) == Some(palette::tokyo_night::night_table()[3].1),
{
    let t = palette::tokyo_night::night_table();
    reveal_strlit("green");
    reveal_strlit("red");
    lemma_names_differ(t[0].0@, "green"@, 0);
    lemma_lookup_skip(t, "green"@, 0);
    reveal_strlit("orange");
    lemma_names_differ(t[1].0@, "green"@, 0);
    lemma_lookup_skip(t, "green"@, 1);
    reveal_strlit("yellow");
    lemma_names_differ(t[2].0@, "green"@, 0);
    lemma_lookup_skip(t, "green"@, 2);
    lemma_lookup_hit(t, "green"@, 3);
    assert(t.skip(0) =~= t);
}

proof fn lemma_storm_blue()
    ensures
        lookup_color(palette::tokyo_night::storm_table(), "blue"@) == Some(palette::tokyo_night::storm_table()[6].1),
{
    let t = palette::tokyo_night::storm_table();
    reveal_strlit("blue");
    reveal_strlit("red");
    lemma_names_differ(t[0].0@, "blue"@, 0);
    lemma_lookup_skip(t, "blue"@, 0);
    reveal_strlit("orange");
    lemma_names_differ(t[1].0@, "blue"@, 0);
    lemma_lookup_skip(t, "blue"@, 1);
    reveal_strlit("yellow");
    lemma_names_differ(t[2].0@, "blue"@, 0);
    lemma_lookup_skip(t, "blue"@, 2);
    reveal_strlit("green");
    lemma_names_differ(t[3].0@, "blue"@, 0);
    lemma_lookup_skip(t, "blue"@, 3);
    reveal_strlit("cyan");
    lemma_names_differ(t[4].0@, "blue"@, 0);
    lemma_lookup_skip(t, "blue"@, 4);
    reveal_strlit("teal");
    lemma_names_differ(t[5].0@, "blue"@, 0);
    lemma_lookup_skip(t, "blue"@, 5);
    lemma_lookup_hit(t, "blue"@, 6);
    assert(t.skip(0) =~= t);
}

proof fn lemma_storm_green()
    ensures
        lookup_color(palette::tokyo_night::storm_table(), "green"@) == Some(palette::tokyo_night::storm_table()[3].1),
{
    let t = palette::tokyo_night::storm_table();
    reveal_strlit("green");
    reveal_strlit("red");
    lemma_names_differ(t[0].0@, "green"@, 0);
    lemma_lookup_skip(t, "green"@, 0);
    reveal_strlit("orange");
    lemma_names_differ(t[1].0@, "green"@, 0);
    lemma_lookup_skip(t, "green"@, 1);
    reveal_strlit("yellow");
    lemma_names_differ(t[2].0@, "green"@, 0);
    lemma_lookup_skip(t, "green"@, 2);
    lemma_lookup_hit(t, "green"@, 3);
    assert(t.skip(0) =~= t);
}

proof fn lemma_day_blue()
    ensures
        lookup_color(palette::tokyo_night::day_table(), "blue"@) == Some(palette::tokyo_night::day_table()[6].1),
{
    let t = palette::tokyo_night::day_table();
    reveal_strlit("blue");
    reveal_strlit("red");
    lemma_names_differ(t[0].0@, "blue"@, 0);
    lemma_lookup_skip(t, "blue"@, 0);
    reveal_strlit("orange");
    lemma_names_differ(t[1].0@, "blue"@, 0);
    lemma_lookup_skip(t, "blue"@, 1);
    reveal_strlit("yellow");
    lemma_names_differ(t[2].0@, "blue"@, 0);
    lemma_lookup_skip(t, "blue"@, 2);
    reveal_strlit("green");
    lemma_names_differ(t[3].0@, "blue"@, 0);
    lemma_lookup_skip(t, "blue"@, 3);
    reveal_strlit("cyan");
    lemma_names_differ(t[4].0@, "blue"@, 0);
    lemma_lookup_skip(t, "blue"@, 4);
    reveal_strlit("teal");
    lemma_names_differ(t[5].0@, "blue"@, 0);
    lemma_lookup_skip(t, "blue"@, 5);
    lemma_lookup_hit(t, "blue"@, 6);
    assert(t.skip(0) =~= t);
}

proof fn lemma_day_green()
    ensures
        lookup_color(palette::tokyo_night::day_table(), "green"@) == Some(palette::tokyo_night::day_table()[3].1),
{
    let t = palette::tokyo_night::day_table();
    reveal_strlit("green");
    reveal_strlit("red");
    lemma_names_differ(t[0].0@, "green"@, 0);
    lemma_lookup_skip(t, "green"@, 0);
    reveal_strlit("orange");
    lemma_names_differ(t[1].0@, "green"@, 0);
    lemma_lookup_skip(t, "green"@, 1);
    reveal_strlit("yellow");
    lemma_names_differ(t[2].0@, "green"@, 0);
    lemma_lookup_skip(t, "green"@, 2);
    lemma_lookup_hit(t, "green"@, 3);
    assert(t.skip(0) =~= t);
}

/// Every theme draws the focused border in its blue (Iris for Rosé Pine)
/// and the monocle border in its green (Foam for Rosé Pine), as its
/// named-color table gives them.
pub proof fn lemma_borders_are_named_colors(theme: Theme)
    ensures
        theme.spec_named_color(focus_color_name(theme)) matches Some(h) && h@ == theme.spec_border_focused(),
        theme.spec_named_color(monocle_color_name(theme)) matches Some(h) && h@ == theme.spec_border_monocle(),
{
    match theme {
        Theme::Catppuccin(f) => match f {
            CatppuccinFlavor::Mocha => {
                lemma_mocha_blue();
                lemma_mocha_green();
            },
            CatppuccinFlavor::Macchiato => {
                lemma_macchiato_blue();
                lemma_macchiato_green();
            },
            CatppuccinFlavor::Frappe => {
                lemma_frappe_blue();
                lemma_frappe_green();
            },
            CatppuccinFlavor::Latte => {
                lemma_latte_blue();
                lemma_latte_green();
            },
        },
        Theme::RosePine(f) => match f {
            RosePineFlavor::Main => {
                lemma_main_iris();
                lemma_main_foam();
            },
            RosePineFlavor::Moon => {
                lemma_moon_iris();
                lemma_moon_foam();
            },
            RosePineFlavor::Dawn => {
                lemma_dawn_iris();
                lemma_dawn_foam();
            },
        },
        Theme::TokyoNight(f) => match f {
            TokyoNightFlavor::Night => {
                lemma_night_blue();
                lemma_night_green();
            },
            TokyoNightFlavor::Storm => {
                lemma_storm_blue();
                lemma_storm_green();
            },
            TokyoNightFlavor::Day => {
                lemma_day_blue();
                lemma_day_green();
            },
        },
    }
}

} // verus!
