//! Every palette color is a hex code (it begins with `#`), and no color
//! name does: so a resolved color never resolves any further.

use vstd::prelude::*;
use crate::config::bar::BarColorsView;
use crate::config::palette::{catppuccin, rose_pine, tokyo_night};
use crate::config::theme::{lookup_color, CatppuccinFlavor, RosePineFlavor, Theme, TokyoNightFlavor};
use crate::text::{eq_ignore_case, lower, lower_seq};

verus! {

broadcast use vstd::string::group_string_axioms;

/// `s` is written as a hex code: it begins with `#`.
pub open spec fn is_hex(s: Seq<char>) -> bool {
    s.len() > 0 && s[0] == '#'
}

/// A table entry whose name does not begin with `#` and whose value does.
pub open spec fn entry_is_hex(e: (&'static str, &'static str)) -> bool {
    e.0@.len() > 0 && e.0@[0] != '#' && is_hex(e.1@)
}

/// Every entry of the table is a name with a hex value.
pub open spec fn table_is_hex(t: Seq<(&'static str, &'static str)>) -> bool {
    forall|j: int| 0 <= j < t.len() ==> #[trigger] entry_is_hex(t[j])
}

/// Every bar color of the palette is a hex code.
pub open spec fn bar_is_hex(c: BarColorsView) -> bool {
    &&& is_hex(c.background)
    &&& is_hex(c.foreground)
    &&& is_hex(c.active_workspace)
    &&& is_hex(c.active_workspace_text)
    &&& is_hex(c.inactive_workspace)
    &&& is_hex(c.separator)
    &&& is_hex(c.accent)
    &&& is_hex(c.widget_background)
    &&& is_hex(c.pill_border)
}

/// The rest of a table of hex values is a table of hex values.
proof fn lemma_rest_is_hex(t: Seq<(&'static str, &'static str)>)
    requires
        t.len() > 0,
        table_is_hex(t),
    ensures
        table_is_hex(t.drop_first()),
{
    assert forall|j: int| 0 <= j < t.drop_first().len() implies #[trigger] entry_is_hex(t.drop_first()[j]) by {
        assert(t.drop_first()[j] == t[j + 1]);
        assert(entry_is_hex(t[j + 1]));
    }
}

/// A table of hex values resolves a name only to a hex code.
pub proof fn lemma_lookup_gives_hex(t: Seq<(&'static str, &'static str)>, name: Seq<char>)
    requires
        table_is_hex(t),
    ensures
        lookup_color(t, name) matches Some(h) ==> is_hex(h@),
    decreases t.len(),
{
    if t.len() > 0 {
        assert(entry_is_hex(t[0]));
        if !eq_ignore_case(t[0].0@, name) {
            lemma_rest_is_hex(t);
            lemma_lookup_gives_hex(t.drop_first(), name);
        }
    }
}

/// A hex code is not a name in a table whose names do not begin with `#`.
pub proof fn lemma_hex_is_no_name(t: Seq<(&'static str, &'static str)>, s: Seq<char>)
    requires
        table_is_hex(t),
        is_hex(s),
    ensures
        lookup_color(t, s) is None,
    decreases t.len(),
{
    if t.len() > 0 {
        assert(entry_is_hex(t[0]));
        let a = t[0].0@;
        assert(lower_seq(a).len() == a.len());
        assert(lower_seq(s).len() == s.len());
        assert(lower_seq(a)[0] == lower(a[0]));
        assert(lower_seq(s)[0] == lower(s[0]));
        assert(lower(a[0]) != '#');
        assert(!eq_ignore_case(a, s));
        lemma_rest_is_hex(t);
        lemma_hex_is_no_name(t.drop_first(), s);
    }
}

proof fn lemma_mocha_hex()
    ensures
        table_is_hex(catppuccin::mocha_table()),
        bar_is_hex(catppuccin::mocha_bar_view()),
{
    reveal_strlit("rosewater");
    reveal_strlit("#f5e0dc");
    reveal_strlit("flamingo");
    reveal_strlit("#f2cdcd");
    reveal_strlit("pink");
    reveal_strlit("#f5c2e7");
    reveal_strlit("mauve");
    reveal_strlit("#cba6f7");
    reveal_strlit("red");
    reveal_strlit("#f38ba8");
    reveal_strlit("maroon");
    reveal_strlit("#eba0ac");
    reveal_strlit("peach");
    reveal_strlit("#fab387");
    reveal_strlit("yellow");
    reveal_strlit("#f9e2af");
    reveal_strlit("green");
    reveal_strlit("#a6e3a1");
    reveal_strlit("teal");
    reveal_strlit("#94e2d5");
    reveal_strlit("sky");
    reveal_strlit("#89dceb");
    reveal_strlit("sapphire");
    reveal_strlit("#74c7ec");
    reveal_strlit("blue");
    reveal_strlit("#89b4fa");
    reveal_strlit("lavender");
    reveal_strlit("#b4befe");
    reveal_strlit("#1e1e2e");
    reveal_strlit("#435375");
    reveal_strlit("#cdd6f4");
    reveal_strlit("#45475a");
    reveal_strlit("#313244");
    let t = catppuccin::mocha_table();
    assert(entry_is_hex(t[0]));
    assert(entry_is_hex(t[1]));
    assert(entry_is_hex(t[2]));
    assert(entry_is_hex(t[3]));
    assert(entry_is_hex(t[4]));
    assert(entry_is_hex(t[5]));
    assert(entry_is_hex(t[6]));
    assert(entry_is_hex(t[7]));
    assert(entry_is_hex(t[8]));
    assert(entry_is_hex(t[9]));
    assert(entry_is_hex(t[10]));
    assert(entry_is_hex(t[11]));
    assert(entry_is_hex(t[12]));
    assert(entry_is_hex(t[13]));
    assert forall|j: int| 0 <= j < t.len() implies #[trigger] entry_is_hex(t[j]) by {
        assert(j == 0 || j == 1 || j == 2 || j == 3 || j == 4 || j == 5 || j == 6 || j == 7 || j == 8 || j == 9 || j == 10 || j == 11 || j == 12 || j == 13);
    }
}

proof fn lemma_macchiato_hex()
    ensures
        table_is_hex(catppuccin::macchiato_table()),
        bar_is_hex(catppuccin::macchiato_bar_view()),
{
    reveal_strlit("rosewater");
    reveal_strlit("#f4dbd6");
    reveal_strlit("flamingo");
    reveal_strlit("#f0c6c6");
    reveal_strlit("pink");
    reveal_strlit("#f5bde6");
    reveal_strlit("mauve");
    reveal_strlit("#c6a0f6");
    reveal_strlit("red");
    reveal_strlit("#ed8796");
    reveal_strlit("maroon");
    reveal_strlit("#ee99a0");
    reveal_strlit("peach");
    reveal_strlit("#f5a97f");
    reveal_strlit("yellow");
    reveal_strlit("#eed49f");
    reveal_strlit("green");
    reveal_strlit("#a6da95");
    reveal_strlit("teal");
    reveal_strlit("#8bd5ca");
    reveal_strlit("sky");
    reveal_strlit("#91d7e3");
    reveal_strlit("sapphire");
    reveal_strlit("#7dc4e4");
    reveal_strlit("blue");
    reveal_strlit("#8aadf4");
    reveal_strlit("lavender");
    reveal_strlit("#b7bdf8");
    reveal_strlit("#24273a");
    reveal_strlit("#48567b");
    reveal_strlit("#cad3f5");
    reveal_strlit("#494d64");
    reveal_strlit("#363a4f");
    let t = catppuccin::macchiato_table();
    assert(entry_is_hex(t[0]));
    assert(entry_is_hex(t[1]));
    assert(entry_is_hex(t[2]));
    assert(entry_is_hex(t[3]));
    assert(entry_is_hex(t[4]));
    assert(entry_is_hex(t[5]));
    assert(entry_is_hex(t[6]));
    assert(entry_is_hex(t[7]));
    assert(entry_is_hex(t[8]));
    assert(entry_is_hex(t[9]));
    assert(entry_is_hex(t[10]));
    assert(entry_is_hex(t[11]));
    assert(entry_is_hex(t[12]));
    assert(entry_is_hex(t[13]));
    assert forall|j: int| 0 <= j < t.len() implies #[trigger] entry_is_hex(t[j]) by {
        assert(j == 0 || j == 1 || j == 2 || j == 3 || j == 4 || j == 5 || j == 6 || j == 7 || j == 8 || j == 9 || j == 10 || j == 11 || j == 12 || j == 13);
    }
}

proof fn lemma_frappe_hex()
    ensures
        table_is_hex(catppuccin::frappe_table()),
        bar_is_hex(catppuccin::frappe_bar_view()),
{
    reveal_strlit("rosewater");
    reveal_strlit("#f2d5cf");
    reveal_strlit("flamingo");
    reveal_strlit("#eebebe");
    reveal_strlit("pink");
    reveal_strlit("#f4b8e4");
    reveal_strlit("mauve");
    reveal_strlit("#ca9ee6");
    reveal_strlit("red");
    reveal_strlit("#e78284");
    reveal_strlit("maroon");
    reveal_strlit("#ea999c");
    reveal_strlit("peach");
    reveal_strlit("#ef9f76");
    reveal_strlit("yellow");
    reveal_strlit("#e5c890");
    reveal_strlit("green");
    reveal_strlit("#a6d189");
    reveal_strlit("teal");
    reveal_strlit("#81c8be");
    reveal_strlit("sky");
    reveal_strlit("#99d1db");
    reveal_strlit("sapphire");
    reveal_strlit("#85c1dc");
    reveal_strlit("blue");
    reveal_strlit("#8caaee");
    reveal_strlit("lavender");
    reveal_strlit("#babbf1");
    reveal_strlit("#303446");
    reveal_strlit("#505d81");
    reveal_strlit("#c6d0f5");
    reveal_strlit("#51576d");
    reveal_strlit("#414559");
    let t = catppuccin::frappe_table();
    assert(entry_is_hex(t[0]));
    assert(entry_is_hex(t[1]));
    assert(entry_is_hex(t[2]));
    assert(entry_is_hex(t[3]));
    assert(entry_is_hex(t[4]));
    assert(entry_is_hex(t[5]));
    assert(entry_is_hex(t[6]));
    assert(entry_is_hex(t[7]));
    assert(entry_is_hex(t[8]));
    assert(entry_is_hex(t[9]));
    assert(entry_is_hex(t[10]));
    assert(entry_is_hex(t[11]));
    assert(entry_is_hex(t[12]));
    assert(entry_is_hex(t[13]));
    assert forall|j: int| 0 <= j < t.len() implies #[trigger] entry_is_hex(t[j]) by {
        assert(j == 0 || j == 1 || j == 2 || j == 3 || j == 4 || j == 5 || j == 6 || j == 7 || j == 8 || j == 9 || j == 10 || j == 11 || j == 12 || j == 13);
    }
}

proof fn lemma_latte_hex()
    ensures
        table_is_hex(catppuccin::latte_table()),
        bar_is_hex(catppuccin::latte_bar_view()),
{
    reveal_strlit("rosewater");
    reveal_strlit("#dc8a78");
    reveal_strlit("flamingo");
    reveal_strlit("#dd7878");
    reveal_strlit("pink");
    reveal_strlit("#ea76cb");
    reveal_strlit("mauve");
    reveal_strlit("#8839ef");
    reveal_strlit("red");
    reveal_strlit("#d20f39");
    reveal_strlit("maroon");
    reveal_strlit("#e64553");
    reveal_strlit("peach");
    reveal_strlit("#fe640b");
    reveal_strlit("yellow");
    reveal_strlit("#df8e1d");
    reveal_strlit("green");
    reveal_strlit("#40a02b");
    reveal_strlit("teal");
    reveal_strlit("#179299");
    reveal_strlit("sky");
    reveal_strlit("#04a5e5");
    reveal_strlit("sapphire");
    reveal_strlit("#209fb5");
    reveal_strlit("blue");
    reveal_strlit("#1e66f5");
    reveal_strlit("lavender");
    reveal_strlit("#7287fd");
    reveal_strlit("#eff1f5");
    reveal_strlit("#7287d5");
    reveal_strlit("#bcc0cc");
    reveal_strlit("#ccd0da");
    let t = catppuccin::latte_table();
    assert(entry_is_hex(t[0]));
    assert(entry_is_hex(t[1]));
    assert(entry_is_hex(t[2]));
    assert(entry_is_hex(t[3]));
    assert(entry_is_hex(t[4]));
    assert(entry_is_hex(t[5]));
    assert(entry_is_hex(t[6]));
    assert(entry_is_hex(t[7]));
    assert(entry_is_hex(t[8]));
    assert(entry_is_hex(t[9]));
    assert(entry_is_hex(t[10]));
    assert(entry_is_hex(t[11]));
    assert(entry_is_hex(t[12]));
    assert(entry_is_hex(t[13]));
    assert forall|j: int| 0 <= j < t.len() implies #[trigger] entry_is_hex(t[j]) by {
        assert(j == 0 || j == 1 || j == 2 || j == 3 || j == 4 || j == 5 || j == 6 || j == 7 || j == 8 || j == 9 || j == 10 || j == 11 || j == 12 || j == 13);
    }
}

proof fn lemma_main_hex()
    ensures
        table_is_hex(rose_pine::main_table()),
        bar_is_hex(rose_pine::main_bar_view()),
{
    reveal_strlit("love");
    reveal_strlit("#eb6f92");
    reveal_strlit("gold");
    reveal_strlit("#f6c177");
    reveal_strlit("rose");
    reveal_strlit("#ebbcba");
    reveal_strlit("pine");
    reveal_strlit("#31748f");
    reveal_strlit("foam");
    reveal_strlit("#9ccfd8");
    reveal_strlit("iris");
    reveal_strlit("#c4a7e7");
    reveal_strlit("red");
    reveal_strlit("yellow");
    reveal_strlit("green");
    reveal_strlit("blue");
    reveal_strlit("teal");
    reveal_strlit("mauve");
    reveal_strlit("purple");
    reveal_strlit("magenta");
    reveal_strlit("#191724");
    reveal_strlit("#403d52");
    reveal_strlit("#e0def4");
    reveal_strlit("#26233a");
    reveal_strlit("#1f1d2e");
    let t = rose_pine::main_table();
    assert(entry_is_hex(t[0]));
    assert(entry_is_hex(t[1]));
    assert(entry_is_hex(t[2]));
    assert(entry_is_hex(t[3]));
    assert(entry_is_hex(t[4]));
    assert(entry_is_hex(t[5]));
    assert(entry_is_hex(t[6]));
    assert(entry_is_hex(t[7]));
    assert(entry_is_hex(t[8]));
    assert(entry_is_hex(t[9]));
    assert(entry_is_hex(t[10]));
    assert(entry_is_hex(t[11]));
    assert(entry_is_hex(t[12]));
    assert(entry_is_hex(t[13]));
    assert forall|j: int| 0 <= j < t.len() implies #[trigger] entry_is_hex(t[j]) by {
        assert(j == 0 || j == 1 || j == 2 || j == 3 || j == 4 || j == 5 || j == 6 || j == 7 || j == 8 || j == 9 || j == 10 || j == 11 || j == 12 || j == 13);
    }
}

proof fn lemma_moon_hex()
    ensures
        table_is_hex(rose_pine::moon_table()),
        bar_is_hex(rose_pine::moon_bar_view()),
{
    reveal_strlit("love");
    reveal_strlit("#eb6f92");
    reveal_strlit("gold");
    reveal_strlit("#f6c177");
    reveal_strlit("rose");
    reveal_strlit("#ea9a97");
    reveal_strlit("pine");
    reveal_strlit("#3e8fb0");
    reveal_strlit("foam");
    reveal_strlit("#9ccfd8");
    reveal_strlit("iris");
    reveal_strlit("#c4a7e7");
    reveal_strlit("red");
    reveal_strlit("yellow");
    reveal_strlit("green");
    reveal_strlit("blue");
    reveal_strlit("teal");
    reveal_strlit("mauve");
    reveal_strlit("purple");
    reveal_strlit("magenta");
    reveal_strlit("#232136");
    reveal_strlit("#44415a");
    reveal_strlit("#e0def4");
    reveal_strlit("#393552");
    reveal_strlit("#2a273f");
    let t = rose_pine::moon_table();
    assert(entry_is_hex(t[0]));
    assert(entry_is_hex(t[1]));
    assert(entry_is_hex(t[2]));
    assert(entry_is_hex(t[3]));
    assert(entry_is_hex(t[4]));
    assert(entry_is_hex(t[5]));
    assert(entry_is_hex(t[6]));
    assert(entry_is_hex(t[7]));
    assert(entry_is_hex(t[8]));
    assert(entry_is_hex(t[9]));
    assert(entry_is_hex(t[10]));
    assert(entry_is_hex(t[11]));
    assert(entry_is_hex(t[12]));
    assert(entry_is_hex(t[13]));
    assert forall|j: int| 0 <= j < t.len() implies #[trigger] entry_is_hex(t[j]) by {
        assert(j == 0 || j == 1 || j == 2 || j == 3 || j == 4 || j == 5 || j == 6 || j == 7 || j == 8 || j == 9 || j == 10 || j == 11 || j == 12 || j == 13);
    }
}

proof fn lemma_dawn_hex()
    ensures
        table_is_hex(rose_pine::dawn_table()),
        bar_is_hex(rose_pine::dawn_bar_view()),
{
    reveal_strlit("love");
    reveal_strlit("#b4637a");
    reveal_strlit("gold");
    reveal_strlit("#ea9d34");
    reveal_strlit("rose");
    reveal_strlit("#d7827e");
    reveal_strlit("pine");
    reveal_strlit("#286983");
    reveal_strlit("foam");
    reveal_strlit("#56949f");
    reveal_strlit("iris");
    reveal_strlit("#907aa9");
    reveal_strlit("red");
    reveal_strlit("yellow");
    reveal_strlit("green");
    reveal_strlit("blue");
    reveal_strlit("teal");
    reveal_strlit("mauve");
    reveal_strlit("purple");
    reveal_strlit("magenta");
    reveal_strlit("#faf4ed");
    reveal_strlit("#dfdad9");
    reveal_strlit("#575279");
    reveal_strlit("#cecacd");
    reveal_strlit("#fffaf3");
    let t = rose_pine::dawn_table();
    assert(entry_is_hex(t[0]));
    assert(entry_is_hex(t[1]));
    assert(entry_is_hex(t[2]));
    assert(entry_is_hex(t[3]));
    assert(entry_is_hex(t[4]));
    assert(entry_is_hex(t[5]));
    assert(entry_is_hex(t[6]));
    assert(entry_is_hex(t[7]));
    assert(entry_is_hex(t[8]));
    assert(entry_is_hex(t[9]));
    assert(entry_is_hex(t[10]));
    assert(entry_is_hex(t[11]));
    assert(entry_is_hex(t[12]));
    assert(entry_is_hex(t[13]));
    assert forall|j: int| 0 <= j < t.len() implies #[trigger] entry_is_hex(t[j]) by {
        assert(j == 0 || j == 1 || j == 2 || j == 3 || j == 4 || j == 5 || j == 6 || j == 7 || j == 8 || j == 9 || j == 10 || j == 11 || j == 12 || j == 13);
    }
}

proof fn lemma_night_hex()
    ensures
        table_is_hex(tokyo_night::night_table()),
        bar_is_hex(tokyo_night::night_bar_view()),
{
    reveal_strlit("red");
    reveal_strlit("#f7768e");
    reveal_strlit("orange");
    reveal_strlit("#ff9e64");
    reveal_strlit("yellow");
    reveal_strlit("#e0af68");
    reveal_strlit("green");
    reveal_strlit("#9ece6a");
    reveal_strlit("cyan");
    reveal_strlit("#7dcfff");
    reveal_strlit("teal");
    reveal_strlit("#1abc9c");
    reveal_strlit("blue");
    reveal_strlit("#7aa2f7");
    reveal_strlit("purple");
    reveal_strlit("#9d7cd8");
    reveal_strlit("magenta");
    reveal_strlit("#bb9af7");
    reveal_strlit("mauve");
    reveal_strlit("#1a1b26");
    reveal_strlit("#3b4261");
    reveal_strlit("#c0caf5");
    reveal_strlit("#414868");
    reveal_strlit("#16161e");
    let t = tokyo_night::night_table();
    assert(entry_is_hex(t[0]));
    assert(entry_is_hex(t[1]));
    assert(entry_is_hex(t[2]));
    assert(entry_is_hex(t[3]));
    assert(entry_is_hex(t[4]));
    assert(entry_is_hex(t[5]));
    assert(entry_is_hex(t[6]));
    assert(entry_is_hex(t[7]));
    assert(entry_is_hex(t[8]));
    assert(entry_is_hex(t[9]));
    assert forall|j: int| 0 <= j < t.len() implies #[trigger] entry_is_hex(t[j]) by {
        assert(j == 0 || j == 1 || j == 2 || j == 3 || j == 4 || j == 5 || j == 6 || j == 7 || j == 8 || j == 9);
    }
}

proof fn lemma_storm_hex()
    ensures
        table_is_hex(tokyo_night::storm_table()),
        bar_is_hex(tokyo_night::storm_bar_view()),
{
    reveal_strlit("red");
    reveal_strlit("#f7768e");
    reveal_strlit("orange");
    reveal_strlit("#ff9e64");
    reveal_strlit("yellow");
    reveal_strlit("#e0af68");
    reveal_strlit("green");
    reveal_strlit("#9ece6a");
    reveal_strlit("cyan");
    reveal_strlit("#7dcfff");
    reveal_strlit("teal");
    reveal_strlit("#1abc9c");
    reveal_strlit("blue");
    reveal_strlit("#7aa2f7");
    reveal_strlit("purple");
    reveal_strlit("#9d7cd8");
    reveal_strlit("magenta");
    reveal_strlit("#bb9af7");
    reveal_strlit("mauve");
    reveal_strlit("#24283b");
    reveal_strlit("#3b4261");
    reveal_strlit("#c0caf5");
    reveal_strlit("#414868");
    reveal_strlit("#1f2335");
    let t = tokyo_night::storm_table();
    assert(entry_is_hex(t[0]));
    assert(entry_is_hex(t[1]));
    assert(entry_is_hex(t[2]));
    assert(entry_is_hex(t[3]));
    assert(entry_is_hex(t[4]));
    assert(entry_is_hex(t[5]));
    assert(entry_is_hex(t[6]));
    assert(entry_is_hex(t[7]));
    assert(entry_is_hex(t[8]));
    assert(entry_is_hex(t[9]));
    assert forall|j: int| 0 <= j < t.len() implies #[trigger] entry_is_hex(t[j]) by {
        assert(j == 0 || j == 1 || j == 2 || j == 3 || j == 4 || j == 5 || j == 6 || j == 7 || j == 8 || j == 9);
    }
}

proof fn lemma_day_hex()
    ensures
        table_is_hex(tokyo_night::day_table()),
        bar_is_hex(tokyo_night::day_bar_view()),
{
    reveal_strlit("red");
    reveal_strlit("#f52a65");
    reveal_strlit("orange");
    reveal_strlit("#b15c00");
    reveal_strlit("yellow");
    reveal_strlit("#8c6c3e");
    reveal_strlit("green");
    reveal_strlit("#587539");
    reveal_strlit("cyan");
    reveal_strlit("#007197");
    reveal_strlit("teal");
    reveal_strlit("#118c74");
    reveal_strlit("blue");
    reveal_strlit("#2e7de9");
    reveal_strlit("purple");
    reveal_strlit("#7847bd");
    reveal_strlit("magenta");
    reveal_strlit("#9854f1");
    reveal_strlit("mauve");
    reveal_strlit("#e1e2e7");
    reveal_strlit("#a8aecb");
    reveal_strlit("#3760bf");
    reveal_strlit("#d0d5e3");
    let t = tokyo_night::day_table();
    assert(entry_is_hex(t[0]));
    assert(entry_is_hex(t[1]));
    assert(entry_is_hex(t[2]));
    assert(entry_is_hex(t[3]));
    assert(entry_is_hex(t[4]));
    assert(entry_is_hex(t[5]));
    assert(entry_is_hex(t[6]));
    assert(entry_is_hex(t[7]));
    assert(entry_is_hex(t[8]));
    assert(entry_is_hex(t[9]));
    assert forall|j: int| 0 <= j < t.len() implies #[trigger] entry_is_hex(t[j]) by {
        assert(j == 0 || j == 1 || j == 2 || j == 3 || j == 4 || j == 5 || j == 6 || j == 7 || j == 8 || j == 9);
    }
}

/// Every color of every theme's palette is a hex code, and no name of a
/// theme's named colors begins with `#`.
pub proof fn lemma_theme_is_hex(theme: Theme)
    ensures
        table_is_hex(theme.spec_table()),
        bar_is_hex(theme.spec_bar_colors()),
{
    match theme {
        Theme::Catppuccin(f) => match f {
            CatppuccinFlavor::Mocha => lemma_mocha_hex(),
            CatppuccinFlavor::Macchiato => lemma_macchiato_hex(),
            CatppuccinFlavor::Frappe => lemma_frappe_hex(),
            CatppuccinFlavor::Latte => lemma_latte_hex(),
        },
        Theme::RosePine(f) => match f {
            RosePineFlavor::Main => lemma_main_hex(),
            RosePineFlavor::Moon => lemma_moon_hex(),
            RosePineFlavor::Dawn => lemma_dawn_hex(),
        },
        Theme::TokyoNight(f) => match f {
            TokyoNightFlavor::Night => lemma_night_hex(),
            TokyoNightFlavor::Storm => lemma_storm_hex(),
            TokyoNightFlavor::Day => lemma_day_hex(),
        },
    }
}

} // verus!
