//! Named color themes for the mosaico UI.
//!
//! [`ThemeConfig`] is the user-facing pair of theme family name and
//! flavor (e.g. `name = "catppuccin"`, `flavor = "mocha"`). Call
//! [`ThemeConfig::resolve`] to get the concrete [`Theme`] used
//! internally for color lookups.

use vstd::prelude::*;
use crate::config::bar::{BarColors, BarColorsView};
use crate::config::palette;
use crate::text::{eq_ignore_case, str_chars, str_eq_ignore_case};

verus! {

broadcast use vstd::string::group_string_axioms;

/// User-facing theme configuration (the `[theme]` section).
#[derive(Debug, Clone, PartialEq, Eq)]
pub struct ThemeConfig {
    /// Theme family name (e.g. "catppuccin", "rose-pine", "tokyo-night").
    pub name: String,
    /// Flavor or variant within the theme (e.g. "mocha", "moon", "night").
    pub flavor: String,
}

impl Default for ThemeConfig {
    fn default() -> (t: Self)
        ensures
            t.name@ == "catppuccin"@,
            t.flavor@ == "mocha"@,
    {
        ThemeConfig { name: "catppuccin".to_string(), flavor: "mocha".to_string() }
    }
}

/// A resolved color theme used internally for color lookups.
///
/// Each variant pairs a theme family with a flavor of that family,
/// so invalid combinations are unrepresentable.
#[derive(Debug, Clone, Copy, PartialEq, Eq, Structural)]
pub enum Theme {
    /// Catppuccin (Mocha, Macchiato, Frappé, Latte).
    Catppuccin(CatppuccinFlavor),
    /// Rosé Pine (Main, Moon, Dawn).
    RosePine(RosePineFlavor),
    /// Tokyo Night (Night, Storm, Day).
    TokyoNight(TokyoNightFlavor),
}

/// Catppuccin flavors.
#[derive(Debug, Clone, Copy, PartialEq, Eq, Structural)]
pub enum CatppuccinFlavor {
    /// Mocha -- dark theme with warm pastels (default).
    Mocha,
    /// Macchiato -- dark theme with muted tones.
    Macchiato,
    /// Frappé -- mid-tone dark theme.
    Frappe,
    /// Latte -- light theme.
    Latte,
}

/// Rosé Pine flavors.
#[derive(Debug, Clone, Copy, PartialEq, Eq, Structural)]
pub enum RosePineFlavor {
    /// Main -- the standard dark variant (default).
    Main,
    /// Moon -- a slightly lighter dark variant.
    Moon,
    /// Dawn -- the light variant.
    Dawn,
}

/// Tokyo Night flavors.
#[derive(Debug, Clone, Copy, PartialEq, Eq, Structural)]
pub enum TokyoNightFlavor {
    /// Night -- the standard dark variant (default).
    Night,
    /// Storm -- darker variant with a bluish tint.
    Storm,
    /// Day -- the light variant.
    Day,
}

impl Default for Theme {
    fn default() -> (t: Self)
        ensures
            t == Theme::Catppuccin(CatppuccinFlavor::Mocha),
    {
        Theme::Catppuccin(CatppuccinFlavor::Mocha)
    }
}

impl Default for CatppuccinFlavor {
    fn default() -> (f: Self)
        ensures
            f == CatppuccinFlavor::Mocha,
    {
        CatppuccinFlavor::Mocha
    }
}

impl Default for RosePineFlavor {
    fn default() -> (f: Self)
        ensures
            f == RosePineFlavor::Main,
    {
        RosePineFlavor::Main
    }
}

impl Default for TokyoNightFlavor {
    fn default() -> (f: Self)
        ensures
            f == TokyoNightFlavor::Night,
    {
        TokyoNightFlavor::Night
    }
}

/// The Catppuccin flavor a flavor name selects (case-insensitive),
/// Mocha for unknown names.
pub open spec fn catppuccin_flavor(f: Seq<char>) -> CatppuccinFlavor {
    if eq_ignore_case(f, "macchiato"@) {
        CatppuccinFlavor::Macchiato
    } else if eq_ignore_case(f, "frappe"@) || eq_ignore_case(f, "frappé"@) {
        CatppuccinFlavor::Frappe
    } else if eq_ignore_case(f, "latte"@) {
        CatppuccinFlavor::Latte
    } else {
        CatppuccinFlavor::Mocha
    }
}

/// The Rosé Pine flavor a flavor name selects, Main for unknown names.
pub open spec fn rose_pine_flavor(f: Seq<char>) -> RosePineFlavor {
    if eq_ignore_case(f, "moon"@) {
        RosePineFlavor::Moon
    } else if eq_ignore_case(f, "dawn"@) {
        RosePineFlavor::Dawn
    } else {
        RosePineFlavor::Main
    }
}

/// The Tokyo Night flavor a flavor name selects, Night for unknown names.
pub open spec fn tokyo_night_flavor(f: Seq<char>) -> TokyoNightFlavor {
    if eq_ignore_case(f, "storm"@) {
        TokyoNightFlavor::Storm
    } else if eq_ignore_case(f, "day"@) {
        TokyoNightFlavor::Day
    } else {
        TokyoNightFlavor::Night
    }
}

/// The theme a (name, flavor) pair selects; names are case-insensitive,
/// with aliases for the multi-word families, and unknown names select
/// Catppuccin Mocha.
pub open spec fn resolve_theme(name: Seq<char>, flavor: Seq<char>) -> Theme {
    if eq_ignore_case(name, "catppuccin"@) {
        Theme::Catppuccin(catppuccin_flavor(flavor))
    } else if eq_ignore_case(name, "rose-pine"@) || eq_ignore_case(name, "rosepine"@) || eq_ignore_case(
        name,
        "rose_pine"@,
    ) {
        Theme::RosePine(rose_pine_flavor(flavor))
    } else if eq_ignore_case(name, "tokyo-night"@) || eq_ignore_case(name, "tokyonight"@)
        || eq_ignore_case(name, "tokyo_night"@) {
        Theme::TokyoNight(tokyo_night_flavor(flavor))
    } else {
        Theme::Catppuccin(CatppuccinFlavor::Mocha)
    }
}

impl CatppuccinFlavor {
    fn resolve(flavor: &str) -> (f: Self)
        ensures
            f == catppuccin_flavor(flavor@),
    {
        if str_eq_ignore_case(flavor, "macchiato") {
            CatppuccinFlavor::Macchiato
        } else if str_eq_ignore_case(flavor, "frappe") || str_eq_ignore_case(flavor, "frappé") {
            CatppuccinFlavor::Frappe
        } else if str_eq_ignore_case(flavor, "latte") {
            CatppuccinFlavor::Latte
        } else {
            CatppuccinFlavor::Mocha
        }
    }
}

impl RosePineFlavor {
    fn resolve(flavor: &str) -> (f: Self)
        ensures
            f == rose_pine_flavor(flavor@),
    {
        if str_eq_ignore_case(flavor, "moon") {
            RosePineFlavor::Moon
        } else if str_eq_ignore_case(flavor, "dawn") {
            RosePineFlavor::Dawn
        } else {
            RosePineFlavor::Main
        }
    }
}

impl TokyoNightFlavor {
    fn resolve(flavor: &str) -> (f: Self)
        ensures
            f == tokyo_night_flavor(flavor@),
    {
        if str_eq_ignore_case(flavor, "storm") {
            TokyoNightFlavor::Storm
        } else if str_eq_ignore_case(flavor, "day") {
            TokyoNightFlavor::Day
        } else {
            TokyoNightFlavor::Night
        }
    }
}

impl ThemeConfig {
    /// Resolves the config into a concrete [`Theme`] for color lookups.
    ///
    /// Unknown name/flavor combinations fall back to Catppuccin Mocha
    /// (unknown flavors to the family's default flavor).
    pub fn resolve(&self) -> (t: Theme)
        ensures
            t == resolve_theme(self.name@, self.flavor@),
    {
        let name = self.name.as_str();
        let flavor = self.flavor.as_str();
        if str_eq_ignore_case(name, "catppuccin") {
            Theme::Catppuccin(CatppuccinFlavor::resolve(flavor))
        } else if str_eq_ignore_case(name, "rose-pine") || str_eq_ignore_case(name, "rosepine")
            || str_eq_ignore_case(name, "rose_pine") {
            Theme::RosePine(RosePineFlavor::resolve(flavor))
        } else if str_eq_ignore_case(name, "tokyo-night") || str_eq_ignore_case(name, "tokyonight")
            || str_eq_ignore_case(name, "tokyo_night") {
            Theme::TokyoNight(TokyoNightFlavor::resolve(flavor))
        } else {
            Theme::Catppuccin(CatppuccinFlavor::Mocha)
        }
    }
}

/// The hex color of the first entry of `table` whose name matches `name`
/// ignoring ASCII case.
pub open spec fn lookup_color(table: Seq<(&'static str, &'static str)>, name: Seq<char>) -> Option<
    &'static str,
>
    decreases table.len(),
{
    if table.len() == 0 {
        None
    } else if eq_ignore_case(table[0].0@, name) {
        Some(table[0].1)
    } else {
        lookup_color(table.drop_first(), name)
    }
}

impl Theme {
    /// The named-color table of the theme.
    pub open spec fn spec_table(self) -> Seq<(&'static str, &'static str)> {
        match self {
            Theme::Catppuccin(f) => palette::catppuccin::spec_table(f),
            Theme::RosePine(f) => palette::rose_pine::spec_table(f),
            Theme::TokyoNight(f) => palette::tokyo_night::spec_table(f),
        }
    }

    pub open spec fn spec_named_color(self, name: Seq<char>) -> Option<&'static str> {
        lookup_color(self.spec_table(), name)
    }

    pub open spec fn spec_bar_colors(self) -> BarColorsView {
        match self {
            Theme::Catppuccin(f) => palette::catppuccin::spec_bar_colors(f),
            Theme::RosePine(f) => palette::rose_pine::spec_bar_colors(f),
            Theme::TokyoNight(f) => palette::tokyo_night::spec_bar_colors(f),
        }
    }

    pub open spec fn spec_border_focused(self) -> Seq<char> {
        match self {
            Theme::Catppuccin(f) => match f {
                CatppuccinFlavor::Mocha => "#89b4fa"@,
                CatppuccinFlavor::Macchiato => "#8aadf4"@,
                CatppuccinFlavor::Frappe => "#8caaee"@,
                CatppuccinFlavor::Latte => "#1e66f5"@,
            },
            Theme::RosePine(f) => match f {
                RosePineFlavor::Main | RosePineFlavor::Moon => "#c4a7e7"@,
                RosePineFlavor::Dawn => "#907aa9"@,
            },
            Theme::TokyoNight(f) => match f {
                TokyoNightFlavor::Night | TokyoNightFlavor::Storm => "#7aa2f7"@,
                TokyoNightFlavor::Day => "#2e7de9"@,
            },
        }
    }

    pub open spec fn spec_border_monocle(self) -> Seq<char> {
        match self {
            Theme::Catppuccin(f) => match f {
                CatppuccinFlavor::Mocha => "#a6e3a1"@,
                CatppuccinFlavor::Macchiato => "#a6da95"@,
                CatppuccinFlavor::Frappe => "#a6d189"@,
                CatppuccinFlavor::Latte => "#40a02b"@,
            },
            Theme::RosePine(f) => match f {
                RosePineFlavor::Main | RosePineFlavor::Moon => "#9ccfd8"@,
                RosePineFlavor::Dawn => "#56949f"@,
            },
            Theme::TokyoNight(f) => match f {
                TokyoNightFlavor::Night | TokyoNightFlavor::Storm => "#9ece6a"@,
                TokyoNightFlavor::Day => "#587539"@,
            },
        }
    }

    pub open spec fn spec_border_unfocused(self) -> Seq<char> {
        match self {
            Theme::Catppuccin(f) => match f {
                CatppuccinFlavor::Mocha => "#6c7086"@,
                CatppuccinFlavor::Macchiato => "#6e738d"@,
                CatppuccinFlavor::Frappe => "#737994"@,
                CatppuccinFlavor::Latte => "#9ca0b0"@,
            },
            Theme::RosePine(f) => match f {
                RosePineFlavor::Main | RosePineFlavor::Moon => "#908caa"@,
                RosePineFlavor::Dawn => "#797593"@,
            },
            Theme::TokyoNight(f) => match f {
                TokyoNightFlavor::Night | TokyoNightFlavor::Storm => "#565f89"@,
                TokyoNightFlavor::Day => "#848cb5"@,
            },
        }
    }

    /// What a color value resolves to: empty gives the fallback, a `#`
    /// hex code is kept, a known color name gives its hex value, and any
    /// other text is kept as it is.
    pub open spec fn spec_resolve_color(self, value: Seq<char>, fallback: Seq<char>) -> Seq<char> {
        if value.len() == 0 {
            fallback
        } else if value[0] == '#' {
            value
        } else {
            match self.spec_named_color(value) {
                Some(hex) => hex@,
                None => value,
            }
        }
    }

    /// Returns the bar color palette for this theme.
    pub fn bar_colors(self) -> (c: BarColors)
        ensures
            c@ == self.spec_bar_colors(),
    {
        palette::bar_colors(self)
    }

    /// Returns the focused window border color.
    pub fn border_focused(self) -> (s: &'static str)
        ensures
            s@ == self.spec_border_focused(),
    {
        match self {
            Theme::Catppuccin(f) => match f {
                CatppuccinFlavor::Mocha => "#89b4fa",
                CatppuccinFlavor::Macchiato => "#8aadf4",
                CatppuccinFlavor::Frappe => "#8caaee",
                CatppuccinFlavor::Latte => "#1e66f5",
            },
            Theme::RosePine(f) => match f {
                RosePineFlavor::Main | RosePineFlavor::Moon => "#c4a7e7",
                RosePineFlavor::Dawn => "#907aa9",
            },
            Theme::TokyoNight(f) => match f {
                TokyoNightFlavor::Night | TokyoNightFlavor::Storm => "#7aa2f7",
                TokyoNightFlavor::Day => "#2e7de9",
            },
        }
    }

    /// Returns the monocle window border color.
    pub fn border_monocle(self) -> (s: &'static str)
        ensures
            s@ == self.spec_border_monocle(),
    {
        match self {
            Theme::Catppuccin(f) => match f {
                CatppuccinFlavor::Mocha => "#a6e3a1",
                CatppuccinFlavor::Macchiato => "#a6da95",
                CatppuccinFlavor::Frappe => "#a6d189",
                CatppuccinFlavor::Latte => "#40a02b",
            },
            Theme::RosePine(f) => match f {
                RosePineFlavor::Main | RosePineFlavor::Moon => "#9ccfd8",
                RosePineFlavor::Dawn => "#56949f",
            },
            Theme::TokyoNight(f) => match f {
                TokyoNightFlavor::Night | TokyoNightFlavor::Storm => "#9ece6a",
                TokyoNightFlavor::Day => "#587539",
            },
        }
    }

    /// Returns the unfocused window border color.
    pub fn border_unfocused(self) -> (s: &'static str)
        ensures
            s@ == self.spec_border_unfocused(),
    {
        match self {
            Theme::Catppuccin(f) => match f {
                CatppuccinFlavor::Mocha => "#6c7086",
                CatppuccinFlavor::Macchiato => "#6e738d",
                CatppuccinFlavor::Frappe => "#737994",
                CatppuccinFlavor::Latte => "#9ca0b0",
            },
            Theme::RosePine(f) => match f {
                RosePineFlavor::Main | RosePineFlavor::Moon => "#908caa",
                RosePineFlavor::Dawn => "#797593",
            },
            Theme::TokyoNight(f) => match f {
                TokyoNightFlavor::Night | TokyoNightFlavor::Storm => "#565f89",
                TokyoNightFlavor::Day => "#848cb5",
            },
        }
    }

    /// Resolves a named color (e.g. `"blue"`, `"pine"`) to its hex
    /// value for this theme, ignoring ASCII case. Returns `None` for
    /// unknown names.
    pub fn named_color(self, name: &str) -> (r: Option<&'static str>)
        ensures
            r == self.spec_named_color(name@),
    {
        palette::named_color(self, name)
    }

    /// Resolves a color value that may be a hex code, a named color,
    /// or empty. Returns the resolved hex string.
    ///
    /// - `""` returns `fallback`
    /// - `"blue"` resolves via the theme palette
    /// - `"#89b4fa"` is returned as-is
    pub fn resolve_color<'a>(&self, value: &'a str, fallback: &'a str) -> (r: &'a str)
        ensures
            r@ == self.spec_resolve_color(value@, fallback@),
    {
        let v = str_chars(value);
        if v.len() == 0 {
            return fallback;
        }
        if v[0] == '#' {
            return value;
        }
        match self.named_color(value) {
            Some(hex) => hex,
            None => value,
        }
    }
}

/// Theme names and flavors are case-insensitive: a configuration that
/// differs only in ASCII case selects the same theme.
pub proof fn lemma_resolve_ignores_case(name1: Seq<char>, flavor1: Seq<char>, name2: Seq<char>, flavor2: Seq<char>)
    requires
        eq_ignore_case(name1, name2),
        eq_ignore_case(flavor1, flavor2),
    ensures
        resolve_theme(name1, flavor1) == resolve_theme(name2, flavor2),
{
}

proof fn lemma_lookup_ignores_case(table: Seq<(&'static str, &'static str)>, a: Seq<char>, b: Seq<char>)
    requires
        eq_ignore_case(a, b),
    ensures
        lookup_color(table, a) == lookup_color(table, b),
    decreases table.len(),
{
    if table.len() > 0 {
        lemma_lookup_ignores_case(table.drop_first(), a, b);
    }
}

/// Color names are case-insensitive: names that differ only in ASCII
/// case resolve to the same color in every theme.
pub proof fn lemma_named_color_ignores_case(theme: Theme, a: Seq<char>, b: Seq<char>)
    requires
        eq_ignore_case(a, b),
    ensures
        theme.spec_named_color(a) == theme.spec_named_color(b),
{
    lemma_lookup_ignores_case(theme.spec_table(), a, b);
}

/// In every theme the unfocused border is drawn in a color of its own,
/// distinct from the focused and the monocle border.
pub proof fn lemma_unfocused_border_distinct(theme: Theme)
    ensures
        theme.spec_border_focused() != theme.spec_border_unfocused(),
        theme.spec_border_monocle() != theme.spec_border_unfocused(),
{
    reveal_strlit("#89b4fa");
    reveal_strlit("#8aadf4");
    reveal_strlit("#8caaee");
    reveal_strlit("#1e66f5");
    reveal_strlit("#c4a7e7");
    reveal_strlit("#907aa9");
    reveal_strlit("#7aa2f7");
    reveal_strlit("#2e7de9");
    reveal_strlit("#a6e3a1");
    reveal_strlit("#a6da95");
    reveal_strlit("#a6d189");
    reveal_strlit("#40a02b");
    reveal_strlit("#9ccfd8");
    reveal_strlit("#56949f");
    reveal_strlit("#9ece6a");
    reveal_strlit("#587539");
    reveal_strlit("#6c7086");
    reveal_strlit("#6e738d");
    reveal_strlit("#737994");
    reveal_strlit("#9ca0b0");
    reveal_strlit("#908caa");
    reveal_strlit("#797593");
    reveal_strlit("#565f89");
    reveal_strlit("#848cb5");
    let f = theme.spec_border_focused();
    let m = theme.spec_border_monocle();
    let u = theme.spec_border_unfocused();
    assert(f[1] != u[1]);
    assert(m[1] != u[1] || m[2] != u[2]);
}

/// Every Rosé Pine flavor draws the focused border in the bar's
/// foreground color, so the highlight is the same across the UI.
pub proof fn lemma_rose_pine_focus_matches_bar(flavor: RosePineFlavor)
    ensures
        Theme::RosePine(flavor).spec_border_focused() == Theme::RosePine(flavor).spec_bar_colors().foreground,
{
}

/// Every theme has a bar background of its own.
#[verifier::rlimit(50)]
pub proof fn lemma_distinct_backgrounds(a: Theme, b: Theme)
    requires
        a != b,
    ensures
        a.spec_bar_colors().background != b.spec_bar_colors().background,
{
    reveal_strlit("#1e1e2e");
    reveal_strlit("#24273a");
    reveal_strlit("#303446");
    reveal_strlit("#eff1f5");
    reveal_strlit("#191724");
    reveal_strlit("#232136");
    reveal_strlit("#faf4ed");
    reveal_strlit("#1a1b26");
    reveal_strlit("#24283b");
    reveal_strlit("#e1e2e7");
    let x = a.spec_bar_colors().background;
    let y = b.spec_bar_colors().background;
    assert(x[1] != y[1] || x[2] != y[2] || x[3] != y[3] || x[4] != y[4]);
}

} // verus!
