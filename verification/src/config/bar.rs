//! Status bar configuration.

use vstd::prelude::*;
use crate::config::theme::Theme;
use crate::config::palette::hex::{is_hex, lemma_hex_is_no_name, lemma_lookup_gives_hex, lemma_theme_is_hex};
use crate::rect::{max_int, min_int};

verus! {

broadcast use vstd::string::group_string_axioms;

/// Color scheme for the status bar.
#[derive(Debug, Clone)]
pub struct BarColors {
    /// Background color (hex, e.g. "#1e1e2e").
    pub background: String,
    /// Default text color (hex, e.g. "#cdd6f4").
    pub foreground: String,
    /// Color for the active workspace indicator.
    pub active_workspace: String,
    /// Text color inside the active workspace pill.
    pub active_workspace_text: String,
    /// Color for inactive workspace indicators.
    pub inactive_workspace: String,
    /// Separator color.
    pub separator: String,
    /// Accent color for alerts and update notifications.
    pub accent: String,
    /// Background color for widget pills.
    pub widget_background: String,
    /// Border color for widget pills (empty string = no border).
    pub pill_border: String,
}

/// The text of every color of a bar color scheme.
pub struct BarColorsView {
    pub background: Seq<char>,
    pub foreground: Seq<char>,
    pub active_workspace: Seq<char>,
    pub active_workspace_text: Seq<char>,
    pub inactive_workspace: Seq<char>,
    pub separator: Seq<char>,
    pub accent: Seq<char>,
    pub widget_background: Seq<char>,
    pub pill_border: Seq<char>,
}

impl View for BarColors {
    type V = BarColorsView;

    open spec fn view(&self) -> BarColorsView {
        BarColorsView {
            background: self.background@,
            foreground: self.foreground@,
            active_workspace: self.active_workspace@,
            active_workspace_text: self.active_workspace_text@,
            inactive_workspace: self.inactive_workspace@,
            separator: self.separator@,
            accent: self.accent@,
            widget_background: self.widget_background@,
            pill_border: self.pill_border@,
        }
    }
}

impl Default for BarColors {
    /// Empty colors, so that [`BarConfig::resolve_colors`] can tell which
    /// fields the user set.
    fn default() -> (c: Self)
        ensures
            c@.background.len() == 0,
            c@.foreground.len() == 0,
            c@.active_workspace.len() == 0,
            c@.active_workspace_text.len() == 0,
            c@.inactive_workspace.len() == 0,
            c@.separator.len() == 0,
            c@.accent.len() == 0,
            c@.widget_background.len() == 0,
            c@.pill_border.len() == 0,
    {
        BarColors {
            background: String::new(),
            foreground: String::new(),
            active_workspace: String::new(),
            active_workspace_text: String::new(),
            inactive_workspace: String::new(),
            separator: String::new(),
            accent: String::new(),
            widget_background: String::new(),
            pill_border: String::new(),
        }
    }
}

/// The kind of a bar widget, without its settings.
#[derive(Debug, Clone, Copy, PartialEq, Eq, Structural)]
pub enum WidgetKind {
    Workspaces,
    Layout,
    Clock,
    Date,
    Ram,
    Cpu,
    Update,
    ActiveWindow,
}

/// Configuration for a single bar widget.
///
/// Each widget has a kind and optional settings. `enabled = false` hides
/// a widget without removing its entry; `color` overrides text and
/// border color (hex or named).
#[derive(Debug, Clone)]
pub enum WidgetConfig {
    /// Numbered workspace indicators with active highlight.
    Workspaces { enabled: bool, icon: String, color: String },
    /// Current layout name (BSP) and monocle indicator.
    Layout { enabled: bool, icon: String, color: String },
    /// Current time with configurable strftime format.
    Clock { enabled: bool, format: String, icon: String, color: String },
    /// Current date with configurable strftime format.
    Date { enabled: bool, format: String, icon: String, color: String },
    /// System RAM usage percentage.
    Ram { enabled: bool, icon: String, color: String },
    /// System CPU usage percentage.
    Cpu { enabled: bool, icon: String, color: String },
    /// Update availability notification.
    Update { enabled: bool, icon: String, color: String },
    /// Icon of the currently focused window.
    ActiveWindow { enabled: bool, icon: String, color: String },
}

impl WidgetConfig {
    pub open spec fn kind(self) -> WidgetKind {
        match self {
            WidgetConfig::Workspaces { .. } => WidgetKind::Workspaces,
            WidgetConfig::Layout { .. } => WidgetKind::Layout,
            WidgetConfig::Clock { .. } => WidgetKind::Clock,
            WidgetConfig::Date { .. } => WidgetKind::Date,
            WidgetConfig::Ram { .. } => WidgetKind::Ram,
            WidgetConfig::Cpu { .. } => WidgetKind::Cpu,
            WidgetConfig::Update { .. } => WidgetKind::Update,
            WidgetConfig::ActiveWindow { .. } => WidgetKind::ActiveWindow,
        }
    }

    pub open spec fn spec_enabled(self) -> bool {
        match self {
            WidgetConfig::Workspaces { enabled, .. } => enabled,
            WidgetConfig::Layout { enabled, .. } => enabled,
            WidgetConfig::Clock { enabled, .. } => enabled,
            WidgetConfig::Date { enabled, .. } => enabled,
            WidgetConfig::Ram { enabled, .. } => enabled,
            WidgetConfig::Cpu { enabled, .. } => enabled,
            WidgetConfig::Update { enabled, .. } => enabled,
            WidgetConfig::ActiveWindow { enabled, .. } => enabled,
        }
    }

    pub open spec fn spec_icon(self) -> Seq<char> {
        match self {
            WidgetConfig::Workspaces { icon, .. } => icon@,
            WidgetConfig::Layout { icon, .. } => icon@,
            WidgetConfig::Clock { icon, .. } => icon@,
            WidgetConfig::Date { icon, .. } => icon@,
            WidgetConfig::Ram { icon, .. } => icon@,
            WidgetConfig::Cpu { icon, .. } => icon@,
            WidgetConfig::Update { icon, .. } => icon@,
            WidgetConfig::ActiveWindow { icon, .. } => icon@,
        }
    }

    pub open spec fn spec_color(self) -> Seq<char> {
        match self {
            WidgetConfig::Workspaces { color, .. } => color@,
            WidgetConfig::Layout { color, .. } => color@,
            WidgetConfig::Clock { color, .. } => color@,
            WidgetConfig::Date { color, .. } => color@,
            WidgetConfig::Ram { color, .. } => color@,
            WidgetConfig::Cpu { color, .. } => color@,
            WidgetConfig::Update { color, .. } => color@,
            WidgetConfig::ActiveWindow { color, .. } => color@,
        }
    }

    /// The strftime format of a clock or date widget.
    pub open spec fn spec_format(self) -> Option<Seq<char>> {
        match self {
            WidgetConfig::Workspaces { .. } => None,
            WidgetConfig::Layout { .. } => None,
            WidgetConfig::Clock { format, .. } => Some(format@),
            WidgetConfig::Date { format, .. } => Some(format@),
            WidgetConfig::Ram { .. } => None,
            WidgetConfig::Cpu { .. } => None,
            WidgetConfig::Update { .. } => None,
            WidgetConfig::ActiveWindow { .. } => None,
        }
    }

    /// `self` and `other` are the same widget with the same settings,
    /// except perhaps for their colors.
    pub open spec fn same_but_color(self, other: WidgetConfig) -> bool {
        &&& self.kind() == other.kind()
        &&& self.spec_enabled() == other.spec_enabled()
        &&& self.spec_icon() == other.spec_icon()
        &&& self.spec_format() == other.spec_format()
    }

    /// The color a widget ends with after resolving named colors.
    pub open spec fn resolved_color(self, theme: Theme) -> Seq<char> {
        if self.spec_color().len() > 0 && theme.spec_named_color(self.spec_color()) is Some {
            theme.spec_named_color(self.spec_color())->0@
        } else {
            self.spec_color()
        }
    }

    /// The kind of this widget.
    pub fn widget_kind(&self) -> (k: WidgetKind)
        ensures
            k == self.kind(),
    {
        match self {
            WidgetConfig::Workspaces { .. } => WidgetKind::Workspaces,
            WidgetConfig::Layout { .. } => WidgetKind::Layout,
            WidgetConfig::Clock { .. } => WidgetKind::Clock,
            WidgetConfig::Date { .. } => WidgetKind::Date,
            WidgetConfig::Ram { .. } => WidgetKind::Ram,
            WidgetConfig::Cpu { .. } => WidgetKind::Cpu,
            WidgetConfig::Update { .. } => WidgetKind::Update,
            WidgetConfig::ActiveWindow { .. } => WidgetKind::ActiveWindow,
        }
    }

    /// Returns the icon string for this widget.
    pub fn icon(&self) -> (s: &str)
        ensures
            s@ == self.spec_icon(),
    {
        match self {
            WidgetConfig::Workspaces { icon, .. } => icon.as_str(),
            WidgetConfig::Layout { icon, .. } => icon.as_str(),
            WidgetConfig::Clock { icon, .. } => icon.as_str(),
            WidgetConfig::Date { icon, .. } => icon.as_str(),
            WidgetConfig::Ram { icon, .. } => icon.as_str(),
            WidgetConfig::Cpu { icon, .. } => icon.as_str(),
            WidgetConfig::Update { icon, .. } => icon.as_str(),
            WidgetConfig::ActiveWindow { icon, .. } => icon.as_str(),
        }
    }

    /// Returns whether this widget is enabled.
    pub fn enabled(&self) -> (b: bool)
        ensures
            b == self.spec_enabled(),
    {
        match self {
            WidgetConfig::Workspaces { enabled, .. } => *enabled,
            WidgetConfig::Layout { enabled, .. } => *enabled,
            WidgetConfig::Clock { enabled, .. } => *enabled,
            WidgetConfig::Date { enabled, .. } => *enabled,
            WidgetConfig::Ram { enabled, .. } => *enabled,
            WidgetConfig::Cpu { enabled, .. } => *enabled,
            WidgetConfig::Update { enabled, .. } => *enabled,
            WidgetConfig::ActiveWindow { enabled, .. } => *enabled,
        }
    }

    /// Returns the custom color override for this widget (empty = use defaults).
    pub fn color(&self) -> (s: &str)
        ensures
            s@ == self.spec_color(),
    {
        match self {
            WidgetConfig::Workspaces { color, .. } => color.as_str(),
            WidgetConfig::Layout { color, .. } => color.as_str(),
            WidgetConfig::Clock { color, .. } => color.as_str(),
            WidgetConfig::Date { color, .. } => color.as_str(),
            WidgetConfig::Ram { color, .. } => color.as_str(),
            WidgetConfig::Cpu { color, .. } => color.as_str(),
            WidgetConfig::Update { color, .. } => color.as_str(),
            WidgetConfig::ActiveWindow { color, .. } => color.as_str(),
        }
    }

    /// A copy of the widget with the same settings.
    pub fn duplicate(&self) -> (w: WidgetConfig)
        ensures
            w == *self,
    {
        match self {
            WidgetConfig::Workspaces { enabled, icon, color } => WidgetConfig::Workspaces { enabled: *enabled, icon: icon.clone(), color: color.clone() },
            WidgetConfig::Layout { enabled, icon, color } => WidgetConfig::Layout { enabled: *enabled, icon: icon.clone(), color: color.clone() },
            WidgetConfig::Clock { enabled, format, icon, color } => WidgetConfig::Clock { enabled: *enabled, format: format.clone(), icon: icon.clone(), color: color.clone() },
            WidgetConfig::Date { enabled, format, icon, color } => WidgetConfig::Date { enabled: *enabled, format: format.clone(), icon: icon.clone(), color: color.clone() },
            WidgetConfig::Ram { enabled, icon, color } => WidgetConfig::Ram { enabled: *enabled, icon: icon.clone(), color: color.clone() },
            WidgetConfig::Cpu { enabled, icon, color } => WidgetConfig::Cpu { enabled: *enabled, icon: icon.clone(), color: color.clone() },
            WidgetConfig::Update { enabled, icon, color } => WidgetConfig::Update { enabled: *enabled, icon: icon.clone(), color: color.clone() },
            WidgetConfig::ActiveWindow { enabled, icon, color } => WidgetConfig::ActiveWindow { enabled: *enabled, icon: icon.clone(), color: color.clone() },
        }
    }

    /// Resolves the widget's custom color (named color name → hex).
    ///
    /// Empty colors and colors that are not a name of the theme are kept.
    pub fn resolve_color_field(&mut self, theme: Theme)
        ensures
            final(self).same_but_color(*old(self)),
            final(self).spec_color() == old(self).resolved_color(theme),
    {
        let resolved: Option<String> = {
            let c = self.color();
            if !c.is_empty() {
                match theme.named_color(c) {
                    Some(hex) => Some(hex.to_string()),
                    None => None,
                }
            } else {
                None
            }
        };
        match resolved {
            Some(hex) => {
                match self {
                    WidgetConfig::Workspaces { color, .. } => {
                        *color = hex;
                    },
                    WidgetConfig::Layout { color, .. } => {
                        *color = hex;
                    },
                    WidgetConfig::Clock { color, .. } => {
                        *color = hex;
                    },
                    WidgetConfig::Date { color, .. } => {
                        *color = hex;
                    },
                    WidgetConfig::Ram { color, .. } => {
                        *color = hex;
                    },
                    WidgetConfig::Cpu { color, .. } => {
                        *color = hex;
                    },
                    WidgetConfig::Update { color, .. } => {
                        *color = hex;
                    },
                    WidgetConfig::ActiveWindow { color, .. } => {
                        *color = hex;
                    },
                }
            },
            None => {},
        }
    }
}

/// Top-level bar configuration (`bar.toml`).
#[derive(Debug, Clone)]
pub struct BarConfig {
    /// Whether the status bar is enabled.
    pub enabled: bool,
    /// Bar height in pixels.
    pub height: i32,
    /// Font family name (e.g. "JetBrainsMono Nerd Font").
    pub font: String,
    /// Font size in pixels for bar text.
    pub font_size: i32,
    /// Whether to render bar text in bold (weight 700 vs 400).
    pub font_bold: bool,
    /// Whether to render bar text in italic.
    pub font_italic: bool,
    /// Whether to render bar text with underline.
    pub font_underline: bool,
    /// Horizontal padding inside the bar (outer edges) in pixels.
    pub padding: i32,
    /// Horizontal padding inside each pill in pixels.
    pub pill_padding: i32,
    /// Corner radius for pill backgrounds in pixels. 0 = square.
    pub pill_radius: i32,
    /// Border width for pill backgrounds in pixels. 0 = no border.
    pub pill_border_width: i32,
    /// Gap between pills in pixels.
    pub item_gap: i32,
    /// Gap between individual workspace number pills in pixels.
    pub workspace_gap: i32,
    /// Separator string between widget groups (empty = no separator).
    pub separator: String,
    /// Background opacity as a percentage (0 = fully transparent, 100 = opaque).
    pub background_opacity: i32,
    /// Which monitors to show the bar on (0-indexed). Empty = all monitors.
    pub monitors: Vec<usize>,
    /// Bar color scheme. Empty fields are filled from the theme.
    pub colors: BarColors,
    /// Widgets displayed on the left side (rendered left-to-right).
    pub left: Vec<WidgetConfig>,
    /// Widgets displayed on the right side (rendered right-to-left).
    pub right: Vec<WidgetConfig>,
}

/// `v` limited to `lo..=hi`.
pub open spec fn clamp(v: int, lo: int, hi: int) -> int {
    max_int(lo, min_int(v, hi))
}

/// `v` limited to `lo..=hi` (what `i32::clamp` computes).
pub fn clamp_i32(v: i32, lo: i32, hi: i32) -> (r: i32)
    requires
        lo <= hi,
    ensures
        r == clamp(v as int, lo as int, hi as int),
{
    if v < lo {
        lo
    } else if v > hi {
        hi
    } else {
        v
    }
}

/// `w` is a widget of kind `k` with the given settings.
pub open spec fn widget_is(
    w: WidgetConfig,
    k: WidgetKind,
    enabled: bool,
    icon: Seq<char>,
    color: Seq<char>,
    format: Option<Seq<char>>,
) -> bool {
    &&& w.kind() == k
    &&& w.spec_enabled() == enabled
    &&& w.spec_icon() == icon
    &&& w.spec_color() == color
    &&& w.spec_format() == format
}

/// Default strftime format of the clock widget.
pub open spec fn default_clock_format() -> Seq<char> {
    "%H:%M:%S"@
}

/// Default strftime format of the date widget.
pub open spec fn default_date_format() -> Seq<char> {
    "%A %d %B %Y"@
}

/// The default left widgets: workspaces, active window and layout.
pub open spec fn default_left(ws: Seq<WidgetConfig>) -> bool {
    &&& ws.len() == 3
    &&& widget_is(ws[0], WidgetKind::Workspaces, true, Seq::<char>::empty(), Seq::<char>::empty(), None)
    &&& widget_is(ws[1], WidgetKind::ActiveWindow, true, Seq::<char>::empty(), Seq::<char>::empty(), None)
    &&& widget_is(ws[2], WidgetKind::Layout, true, "\u{F009}"@, Seq::<char>::empty(), None)
}

/// The default right widgets: clock, date, RAM, CPU and update.
pub open spec fn default_right(ws: Seq<WidgetConfig>) -> bool {
    &&& ws.len() == 5
    &&& widget_is(ws[0], WidgetKind::Clock, true, "\u{F017}"@, Seq::<char>::empty(), Some(default_clock_format()))
    &&& widget_is(ws[1], WidgetKind::Date, true, "\u{F073}"@, Seq::<char>::empty(), Some(default_date_format()))
    &&& widget_is(ws[2], WidgetKind::Ram, true, "\u{F2DB}"@, Seq::<char>::empty(), None)
    &&& widget_is(ws[3], WidgetKind::Cpu, true, "\u{F085}"@, Seq::<char>::empty(), None)
    &&& widget_is(ws[4], WidgetKind::Update, true, "\u{F019}"@, "green"@, None)
}

fn default_left_widgets() -> (ws: Vec<WidgetConfig>)
    ensures
        default_left(ws@),
{
    let mut ws: Vec<WidgetConfig> = Vec::new();
    ws.push(WidgetConfig::Workspaces { enabled: true, icon: String::new(), color: String::new() });
    ws.push(WidgetConfig::ActiveWindow { enabled: true, icon: String::new(), color: String::new() });
    ws.push(WidgetConfig::Layout { enabled: true, icon: "\u{F009}".to_string(), color: String::new() });
    ws
}

fn default_right_widgets() -> (ws: Vec<WidgetConfig>)
    ensures
        default_right(ws@),
{
    let mut ws: Vec<WidgetConfig> = Vec::new();
    ws.push(
        WidgetConfig::Clock {
            enabled: true,
            format: "%H:%M:%S".to_string(),
            icon: "\u{F017}".to_string(),
            color: String::new(),
        },
    );
    ws.push(
        WidgetConfig::Date {
            enabled: true,
            format: "%A %d %B %Y".to_string(),
            icon: "\u{F073}".to_string(),
            color: String::new(),
        },
    );
    ws.push(WidgetConfig::Ram { enabled: true, icon: "\u{F2DB}".to_string(), color: String::new() });
    ws.push(WidgetConfig::Cpu { enabled: true, icon: "\u{F085}".to_string(), color: String::new() });
    ws.push(WidgetConfig::Update { enabled: true, icon: "\u{F019}".to_string(), color: "green".to_string() });
    ws
}

impl Default for BarConfig {
    fn default() -> (c: Self)
        ensures
            c.enabled,
            c.height == 64,
            c.font@ == "CaskaydiaCove Nerd Font"@,
            c.font_size == 24,
            c.font_bold,
            !c.font_italic,
            !c.font_underline,
            c.padding == 8,
            c.pill_padding == 12,
            c.pill_radius == 4,
            c.pill_border_width == 2,
            c.item_gap == 10,
            c.workspace_gap == 4,
            c.separator@.len() == 0,
            c.background_opacity == 0,
            c.monitors@.len() == 0,
            c.colors@.background.len() == 0,
            c.colors@.foreground.len() == 0,
            c.colors@.active_workspace.len() == 0,
            c.colors@.active_workspace_text.len() == 0,
            c.colors@.inactive_workspace.len() == 0,
            c.colors@.separator.len() == 0,
            c.colors@.accent.len() == 0,
            c.colors@.widget_background.len() == 0,
            c.colors@.pill_border.len() == 0,
            default_left(c.left@),
            default_right(c.right@),
    {
        BarConfig {
            enabled: true,
            height: 64,
            font: "CaskaydiaCove Nerd Font".to_string(),
            font_size: 24,
            font_bold: true,
            font_italic: false,
            font_underline: false,
            padding: 8,
            pill_padding: 12,
            pill_radius: 4,
            pill_border_width: 2,
            item_gap: 10,
            workspace_gap: 4,
            separator: String::new(),
            background_opacity: 0,
            monitors: Vec::new(),
            colors: BarColors::default(),
            left: default_left_widgets(),
            right: default_right_widgets(),
        }
    }
}

/// Resolves each widget's named color with `theme`.
fn resolve_widgets(ws: &Vec<WidgetConfig>, theme: Theme) -> (r: Vec<WidgetConfig>)
    ensures
        r@.len() == ws@.len(),
        forall|i: int|
            0 <= i < ws@.len() ==> (#[trigger] r@[i]).same_but_color(ws@[i]) && r@[i].spec_color()
                == ws@[i].resolved_color(theme),
{
    let mut r: Vec<WidgetConfig> = Vec::new();
    let mut i: usize = 0;
    while i < ws.len()
        invariant
            0 <= i <= ws.len(),
            r@.len() == i,
            forall|k: int|
                0 <= k < i ==> (#[trigger] r@[k]).same_but_color(ws@[k]) && r@[k].spec_color()
                    == ws@[k].resolved_color(theme),
        decreases ws.len() - i,
    {
        let mut w = ws[i].duplicate();
        w.resolve_color_field(theme);
        r.push(w);
        i = i + 1;
    }
    r
}


/// The bar colors that resolving `c` against `theme` gives: each color is
/// resolved with the theme's own bar color as its fallback.
pub open spec fn resolved_bar_colors(theme: Theme, c: BarColorsView) -> BarColorsView {
    let p = theme.spec_bar_colors();
    BarColorsView {
        background: theme.spec_resolve_color(c.background, p.background),
        foreground: theme.spec_resolve_color(c.foreground, p.foreground),
        active_workspace: theme.spec_resolve_color(c.active_workspace, p.active_workspace),
        active_workspace_text: theme.spec_resolve_color(c.active_workspace_text, p.active_workspace_text),
        inactive_workspace: theme.spec_resolve_color(c.inactive_workspace, p.inactive_workspace),
        separator: theme.spec_resolve_color(c.separator, p.separator),
        accent: theme.spec_resolve_color(c.accent, p.accent),
        widget_background: theme.spec_resolve_color(c.widget_background, p.widget_background),
        pill_border: theme.spec_resolve_color(c.pill_border, p.pill_border),
    }
}

/// `after` holds the widgets of `before`, in order, each with its color
/// resolved against `theme`.
pub open spec fn widgets_resolved_from(after: Seq<WidgetConfig>, before: Seq<WidgetConfig>, theme: Theme) -> bool {
    &&& after.len() == before.len()
    &&& forall|i: int|
        0 <= i < before.len() ==> (#[trigger] after[i]).same_but_color(before[i])
            && after[i].spec_color() == before[i].resolved_color(theme)
}

impl BarConfig {
    /// Clamps bar values to safe ranges.
    pub fn validate(&mut self)
        ensures
            final(self).height == clamp(old(self).height as int, 16, 96),
            final(self).font_size == clamp(old(self).font_size as int, 8, 48),
            final(self).padding == clamp(old(self).padding as int, 0, 64),
            final(self).pill_padding == clamp(old(self).pill_padding as int, 0, 32),
            final(self).pill_radius == clamp(old(self).pill_radius as int, 0, 32),
            final(self).pill_border_width == clamp(old(self).pill_border_width as int, 0, 8),
            final(self).item_gap == clamp(old(self).item_gap as int, 0, 32),
            final(self).workspace_gap == clamp(old(self).workspace_gap as int, 0, 16),
            final(self).background_opacity == clamp(old(self).background_opacity as int, 0, 100),
            final(self).enabled == old(self).enabled,
            final(self).font == old(self).font,
            final(self).font_bold == old(self).font_bold,
            final(self).font_italic == old(self).font_italic,
            final(self).font_underline == old(self).font_underline,
            final(self).separator == old(self).separator,
            final(self).monitors == old(self).monitors,
            final(self).colors == old(self).colors,
            final(self).left == old(self).left,
            final(self).right == old(self).right,
    {
        self.height = clamp_i32(self.height, 16, 96);
        self.font_size = clamp_i32(self.font_size, 8, 48);
        self.padding = clamp_i32(self.padding, 0, 64);
        self.pill_padding = clamp_i32(self.pill_padding, 0, 32);
        self.pill_radius = clamp_i32(self.pill_radius, 0, 32);
        self.pill_border_width = clamp_i32(self.pill_border_width, 0, 8);
        self.item_gap = clamp_i32(self.item_gap, 0, 32);
        self.workspace_gap = clamp_i32(self.workspace_gap, 0, 16);
        self.background_opacity = clamp_i32(self.background_opacity, 0, 100);
    }

    /// The bar colors and widgets of `self` are those of `before`, resolved
    /// against `theme`.
    pub open spec fn colors_resolved_from(self, before: BarConfig, theme: Theme) -> bool {
        &&& self.colors@ == resolved_bar_colors(theme, before.colors@)
        &&& widgets_resolved_from(self.left@, before.left@, theme)
        &&& widgets_resolved_from(self.right@, before.right@, theme)
    }

    /// Fills empty color fields from the given theme, and resolves
    /// named colors (e.g. "blue") to their theme hex values, in the bar
    /// colors and in every widget's color.
    ///
    /// Any color the user explicitly set is preserved.
    pub fn resolve_colors(&mut self, theme: Theme)
        ensures
            final(self).colors_resolved_from(*old(self), theme),
            final(self).enabled == old(self).enabled,
            final(self).height == old(self).height,
            final(self).font == old(self).font,
            final(self).font_size == old(self).font_size,
            final(self).monitors == old(self).monitors,
            final(self).separator == old(self).separator,
            final(self).font_bold == old(self).font_bold,
            final(self).font_italic == old(self).font_italic,
            final(self).font_underline == old(self).font_underline,
            final(self).padding == old(self).padding,
            final(self).pill_padding == old(self).pill_padding,
            final(self).pill_radius == old(self).pill_radius,
            final(self).pill_border_width == old(self).pill_border_width,
            final(self).item_gap == old(self).item_gap,
            final(self).workspace_gap == old(self).workspace_gap,
            final(self).background_opacity == old(self).background_opacity,
    {
        let palette = theme.bar_colors();
        let v = theme.resolve_color(self.colors.background.as_str(), palette.background.as_str()).to_string();
        self.colors.background = v;
        let v = theme.resolve_color(self.colors.foreground.as_str(), palette.foreground.as_str()).to_string();
        self.colors.foreground = v;
        let v = theme.resolve_color(self.colors.active_workspace.as_str(), palette.active_workspace.as_str()).to_string();
        self.colors.active_workspace = v;
        let v = theme.resolve_color(
            self.colors.active_workspace_text.as_str(),
            palette.active_workspace_text.as_str(),
        ).to_string();
        self.colors.active_workspace_text = v;
        let v = theme.resolve_color(self.colors.inactive_workspace.as_str(), palette.inactive_workspace.as_str()).to_string();
        self.colors.inactive_workspace = v;
        let v = theme.resolve_color(self.colors.separator.as_str(), palette.separator.as_str()).to_string();
        self.colors.separator = v;
        let v = theme.resolve_color(self.colors.accent.as_str(), palette.accent.as_str()).to_string();
        self.colors.accent = v;
        let v = theme.resolve_color(self.colors.widget_background.as_str(), palette.widget_background.as_str()).to_string();
        self.colors.widget_background = v;
        let v = theme.resolve_color(self.colors.pill_border.as_str(), palette.pill_border.as_str()).to_string();
        self.colors.pill_border = v;
        let left = resolve_widgets(&self.left, theme);
        self.left = left;
        let right = resolve_widgets(&self.right, theme);
        self.right = right;
    }

    /// Returns true if the bar should be displayed on the given monitor index.
    ///
    /// An empty `monitors` list means all monitors.
    pub fn should_show_on(&self, monitor_index: usize) -> (b: bool)
        ensures
            b == (self.enabled && (self.monitors@.len() == 0 || self.monitors@.contains(monitor_index))),
    {
        if !self.enabled {
            return false;
        }
        if self.monitors.len() == 0 {
            return true;
        }
        let mut i: usize = 0;
        while i < self.monitors.len()
            invariant
                0 <= i <= self.monitors.len(),
                self.enabled,
                forall|k: int| 0 <= k < i ==> self.monitors@[k] != monitor_index,
            decreases self.monitors.len() - i,
        {
            if self.monitors[i] == monitor_index {
                assert(self.monitors@[i as int] == monitor_index);
                return true;
            }
            i = i + 1;
        }
        false
    }

    /// Returns true if an enabled CPU widget appears in the config.
    pub fn has_cpu_widget(&self) -> (b: bool)
        ensures
            b == (has_enabled_cpu(self.left@) || has_enabled_cpu(self.right@)),
    {
        any_enabled_cpu(&self.left) || any_enabled_cpu(&self.right)
    }
}

/// Some widget of `ws` is an enabled CPU widget.
pub open spec fn has_enabled_cpu(ws: Seq<WidgetConfig>) -> bool {
    exists|i: int| 0 <= i < ws.len() && (#[trigger] ws[i]).kind() == WidgetKind::Cpu && ws[i].spec_enabled()
}

fn any_enabled_cpu(ws: &Vec<WidgetConfig>) -> (b: bool)
    ensures
        b == has_enabled_cpu(ws@),
{
    let mut i: usize = 0;
    while i < ws.len()
        invariant
            0 <= i <= ws.len(),
            forall|k: int| 0 <= k < i ==> !((#[trigger] ws@[k]).kind() == WidgetKind::Cpu && ws@[k].spec_enabled()),
        decreases ws.len() - i,
    {
        if ws[i].widget_kind() == WidgetKind::Cpu && ws[i].enabled() {
            return true;
        }
        i = i + 1;
    }
    false
}

/// The widgets of `defaults` whose kind appears nowhere in `user`, in order.
pub open spec fn missing_widget_seq(user: Seq<WidgetConfig>, defaults: Seq<WidgetConfig>) -> Seq<WidgetConfig> {
    defaults.filter(|d: WidgetConfig| !(exists|j: int| 0 <= j < user.len() && (#[trigger] user[j]).kind() == d.kind()))
}

fn has_kind(ws: &Vec<WidgetConfig>, k: WidgetKind) -> (b: bool)
    ensures
        b == exists|j: int| 0 <= j < ws@.len() && (#[trigger] ws@[j]).kind() == k,
{
    let mut j: usize = 0;
    while j < ws.len()
        invariant
            0 <= j <= ws.len(),
            forall|m: int| 0 <= m < j ==> (#[trigger] ws@[m]).kind() != k,
        decreases ws.len() - j,
    {
        if ws[j].widget_kind() == k {
            return true;
        }
        j = j + 1;
    }
    false
}

/// The default widgets whose kind the user's list lacks, in the order of
/// the defaults: the widgets a newer version added, to be appended to the
/// user's bar file (a kind the user removed on purpose is not a new one
/// only if it still appears in the list).
pub fn missing_widgets(user: &Vec<WidgetConfig>, defaults: &Vec<WidgetConfig>) -> (r: Vec<WidgetConfig>)
    ensures
        r@ == missing_widget_seq(user@, defaults@),
{
    let ghost pred = |d: WidgetConfig| !(exists|j: int| 0 <= j < user@.len() && (#[trigger] user@[j]).kind() == d.kind());
    let mut r: Vec<WidgetConfig> = Vec::new();
    let mut i: usize = 0;
    while i < defaults.len()
        invariant
            0 <= i <= defaults.len(),
            pred == (|d: WidgetConfig| !(exists|j: int| 0 <= j < user@.len() && (#[trigger] user@[j]).kind() == d.kind())),
            r@ == defaults@.take(i as int).filter(pred),
        decreases defaults.len() - i,
    {
        proof {
            reveal_with_fuel(Seq::filter, 1);
            assert(defaults@.take(i + 1).drop_last() =~= defaults@.take(i as int));
        }
        if !has_kind(user, defaults[i].widget_kind()) {
            r.push(defaults[i].duplicate());
        }
        i = i + 1;
    }
    assert(defaults@.take(i as int) =~= defaults@);
    r
}

/// Some widget in `ws` has kind `k`.
pub open spec fn has_widget_kind(ws: Seq<WidgetConfig>, k: WidgetKind) -> bool {
    exists|j: int| 0 <= j < ws.len() && (#[trigger] ws[j]).kind() == k
}

/// `a` and `b` agree on every setting but the widget lists.
pub open spec fn same_but_widgets(a: BarConfig, b: BarConfig) -> bool {
    &&& a.enabled == b.enabled
    &&& a.height == b.height
    &&& a.font == b.font
    &&& a.font_size == b.font_size
    &&& a.font_bold == b.font_bold
    &&& a.font_italic == b.font_italic
    &&& a.font_underline == b.font_underline
    &&& a.padding == b.padding
    &&& a.pill_padding == b.pill_padding
    &&& a.pill_radius == b.pill_radius
    &&& a.pill_border_width == b.pill_border_width
    &&& a.item_gap == b.item_gap
    &&& a.workspace_gap == b.workspace_gap
    &&& a.separator == b.separator
    &&& a.background_opacity == b.background_opacity
    &&& a.monitors == b.monitors
    &&& a.colors == b.colors
}

impl BarConfig {
    /// The bar configuration in effect once the missing default widgets
    /// have been dealt with: when they were appended to the user's file
    /// (`appended`), they follow the user's widgets on each side;
    /// otherwise the configuration stays as it is.
    pub fn merge_missing(&mut self, missing_left: Vec<WidgetConfig>, missing_right: Vec<WidgetConfig>, appended: bool)
        ensures
            same_but_widgets(*final(self), *old(self)),
            appended ==> final(self).left@ == old(self).left@ + missing_left@,
            appended ==> final(self).right@ == old(self).right@ + missing_right@,
            !appended ==> final(self).left@ == old(self).left@,
            !appended ==> final(self).right@ == old(self).right@,
    {
        if appended {
            let mut l = missing_left;
            self.left.append(&mut l);
            let mut r = missing_right;
            self.right.append(&mut r);
        }
    }
}

/// Appending the missing default widgets to a user's list leaves every
/// default kind present, and keeps the user's own widgets first,
/// unchanged.
pub proof fn lemma_merge_has_every_default_kind(user: Seq<WidgetConfig>, defaults: Seq<WidgetConfig>)
    ensures
        forall|i: int|
            0 <= i < defaults.len() ==> has_widget_kind(
                user + missing_widget_seq(user, defaults),
                (#[trigger] defaults[i]).kind(),
            ),
        (user + missing_widget_seq(user, defaults)).take(user.len() as int) == user,
{
    let missing = missing_widget_seq(user, defaults);
    let merged = user + missing;
    let pred = |d: WidgetConfig| !(exists|j: int| 0 <= j < user.len() && (#[trigger] user[j]).kind() == d.kind());
    assert(missing == defaults.filter(pred));
    assert forall|i: int| 0 <= i < defaults.len() implies has_widget_kind(merged, (#[trigger] defaults[i]).kind()) by {
        if exists|j: int| 0 <= j < user.len() && (#[trigger] user[j]).kind() == defaults[i].kind() {
            let j = choose|j: int| 0 <= j < user.len() && (#[trigger] user[j]).kind() == defaults[i].kind();
            assert(merged[j] == user[j]);
        } else {
            assert(pred(defaults[i]));
            defaults.lemma_filter_contains(pred, i);
            let k = choose|k: int| 0 <= k < missing.len() && missing[k] == defaults[i];
            assert(merged[user.len() + k] == missing[k]);
        }
    }
    assert(merged.take(user.len() as int) =~= user);
}


/// A color resolved against a theme, with one of the theme's bar colors as
/// fallback, resolves to itself.
proof fn lemma_resolved_color_settles(theme: Theme, value: Seq<char>, fallback: Seq<char>)
    requires
        is_hex(fallback),
    ensures
        theme.spec_resolve_color(theme.spec_resolve_color(value, fallback), fallback)
            == theme.spec_resolve_color(value, fallback),
{
    lemma_theme_is_hex(theme);
    lemma_lookup_gives_hex(theme.spec_table(), value);
}

/// A widget color resolved against a theme resolves to itself.
proof fn lemma_widget_color_settles(theme: Theme, w: WidgetConfig, resolved: WidgetConfig)
    requires
        resolved.spec_color() == w.resolved_color(theme),
    ensures
        resolved.resolved_color(theme) == resolved.spec_color(),
{
    lemma_theme_is_hex(theme);
    lemma_lookup_gives_hex(theme.spec_table(), w.spec_color());
    if w.spec_color().len() > 0 && theme.spec_named_color(w.spec_color()) is Some {
        lemma_hex_is_no_name(theme.spec_table(), resolved.spec_color());
    }
}

/// Resolving a bar's colors a second time with the same theme changes
/// nothing: the bar colors and every widget color stay as the first call
/// left them.
pub proof fn lemma_resolve_colors_twice(theme: Theme, first: BarConfig, second: BarConfig, third: BarConfig)
    requires
        second.colors_resolved_from(first, theme),
        third.colors_resolved_from(second, theme),
    ensures
        third.colors@ == second.colors@,
        third.left@.len() == second.left@.len(),
        forall|i: int|
            0 <= i < second.left@.len() ==> (#[trigger] third.left@[i]).same_but_color(second.left@[i])
                && third.left@[i].spec_color() == second.left@[i].spec_color(),
        third.right@.len() == second.right@.len(),
        forall|i: int|
            0 <= i < second.right@.len() ==> (#[trigger] third.right@[i]).same_but_color(second.right@[i])
                && third.right@[i].spec_color() == second.right@[i].spec_color(),
{
    lemma_theme_is_hex(theme);
    let p = theme.spec_bar_colors();
    let c = first.colors@;
    lemma_resolved_color_settles(theme, c.background, p.background);
    lemma_resolved_color_settles(theme, c.foreground, p.foreground);
    lemma_resolved_color_settles(theme, c.active_workspace, p.active_workspace);
    lemma_resolved_color_settles(theme, c.active_workspace_text, p.active_workspace_text);
    lemma_resolved_color_settles(theme, c.inactive_workspace, p.inactive_workspace);
    lemma_resolved_color_settles(theme, c.separator, p.separator);
    lemma_resolved_color_settles(theme, c.accent, p.accent);
    lemma_resolved_color_settles(theme, c.widget_background, p.widget_background);
    lemma_resolved_color_settles(theme, c.pill_border, p.pill_border);
    assert forall|i: int| 0 <= i < second.left@.len() implies (#[trigger] third.left@[i]).same_but_color(
        second.left@[i],
    ) && third.left@[i].spec_color() == second.left@[i].spec_color() by {
        assert(second.left@[i].same_but_color(first.left@[i]));
        lemma_widget_color_settles(theme, first.left@[i], second.left@[i]);
    }
    assert forall|i: int| 0 <= i < second.right@.len() implies (#[trigger] third.right@[i]).same_but_color(
        second.right@[i],
    ) && third.right@[i].spec_color() == second.right@[i].spec_color() by {
        assert(second.right@[i].same_but_color(first.right@[i]));
        lemma_widget_color_settles(theme, first.right@[i], second.right@[i]);
    }
}

} // verus!
