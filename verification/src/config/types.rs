//! Reusable configuration types: workspaces, hiding, corners, mouse and
//! borders.

use std::collections::HashMap;
use vstd::prelude::*;
use crate::action::{parse_workspace, parse_workspace_number};
use crate::config::bar::{clamp, clamp_i32};
use crate::config::theme::Theme;
use crate::layout::LayoutKind;

verus! {

broadcast use {vstd::string::group_string_axioms, vstd::std_specs::hash::group_hash_axioms};

/// How windows are hidden when switching away from their workspace.
#[derive(Debug, Clone, Copy, PartialEq, Eq, Structural)]
pub enum HidingBehaviour {
    /// DWM Cloak: window becomes invisible but keeps its taskbar icon.
    /// Recommended default.
    Cloak,
    /// The window is fully hidden and loses its taskbar icon.
    Hide,
    /// The window is minimized; it keeps its taskbar icon.
    Minimize,
}

impl Default for HidingBehaviour {
    fn default() -> (h: Self)
        ensures
            h == HidingBehaviour::Cloak,
    {
        HidingBehaviour::Cloak
    }
}

/// Corner style for borders and tiled windows.
#[derive(Debug, Clone, Copy, PartialEq, Eq, Structural)]
pub enum CornerStyle {
    /// Sharp rectangular corners.
    Square,
    /// Subtle rounding (border: 8 px).
    Small,
    /// Standard rounding (border: 16 px).
    Round,
}

impl Default for CornerStyle {
    fn default() -> (c: Self)
        ensures
            c == CornerStyle::Small,
    {
        CornerStyle::Small
    }
}

impl CornerStyle {
    pub open spec fn spec_border_radius(self) -> i32 {
        match self {
            CornerStyle::Square => 0,
            CornerStyle::Small => 8,
            CornerStyle::Round => 16,
        }
    }

    /// Pixel radius used for the border overlay rasterization.
    pub fn border_radius(self) -> (r: i32)
        ensures
            r == self.spec_border_radius(),
    {
        match self {
            CornerStyle::Square => 0,
            CornerStyle::Small => 8,
            CornerStyle::Round => 16,
        }
    }
}

/// How a workspace switch is applied across monitors.
#[derive(Debug, Clone, Copy, PartialEq, Eq, Structural)]
pub enum WorkspaceMode {
    /// Switching workspaces only affects the focused monitor (default).
    PerMonitor,
    /// Switching workspaces affects every monitor in lockstep.
    Global,
}

impl Default for WorkspaceMode {
    fn default() -> (m: Self)
        ensures
            m == WorkspaceMode::PerMonitor,
    {
        WorkspaceMode::PerMonitor
    }
}

/// Mouse integration settings.
#[derive(Debug, Clone, Copy, PartialEq, Eq, Structural)]
pub struct MouseConfig {
    /// Move the cursor to the center of the focused window on keyboard navigation.
    pub follows_focus: bool,
    /// Automatically focus the window under the cursor without clicking.
    pub focus_follows_mouse: bool,
}

impl Default for MouseConfig {
    fn default() -> (m: Self)
        ensures
            m.follows_focus,
            !m.focus_follows_mouse,
    {
        MouseConfig { follows_focus: true, focus_follows_mouse: false }
    }
}

/// Border colors for the focused window across layout modes.
///
/// Both fields hold a hex string (e.g. `"#00b4d8"`) or a named theme
/// color. Empty strings resolve to the active theme's defaults during
/// validation.
#[derive(Debug, Clone)]
pub struct BorderColors {
    /// Focused-window border color while a tiled layout is active.
    pub focused: String,
    /// Focused-window border color while monocle mode is active.
    pub monocle: String,
}

impl Default for BorderColors {
    fn default() -> (c: Self)
        ensures
            c.focused@.len() == 0,
            c.monocle@.len() == 0,
    {
        BorderColors { focused: String::new(), monocle: String::new() }
    }
}

/// Border appearance configuration.
#[derive(Debug, Clone)]
pub struct BorderConfig {
    /// Border width in pixels.
    pub width: i32,
    /// Corner style for borders and tiled windows.
    pub corner_style: CornerStyle,
    /// Border colors for focused windows in different layout modes.
    pub colors: BorderColors,
}

impl Default for BorderConfig {
    /// Default border colors are empty; they are resolved from the theme
    /// by [`BorderConfig::validate`].
    fn default() -> (b: Self)
        ensures
            b.width == 4,
            b.corner_style == CornerStyle::Small,
            b.colors.focused@.len() == 0,
            b.colors.monocle@.len() == 0,
    {
        BorderConfig { width: 4, corner_style: CornerStyle::Small, colors: BorderColors::default() }
    }
}

impl BorderConfig {
    /// Resolves the border colors with `theme` (empty → theme default,
    /// named → theme hex) and clamps the width to `0..=32`.
    pub fn validate(&mut self, theme: Theme)
        ensures
            final(self).colors.focused@ == theme.spec_resolve_color(
                old(self).colors.focused@,
                theme.spec_border_focused(),
            ),
            final(self).colors.monocle@ == theme.spec_resolve_color(
                old(self).colors.monocle@,
                theme.spec_border_monocle(),
            ),
            final(self).width == clamp(old(self).width as int, 0, 32),
            final(self).corner_style == old(self).corner_style,
    {
        let f = theme.resolve_color(self.colors.focused.as_str(), theme.border_focused()).to_string();
        self.colors.focused = f;
        let m = theme.resolve_color(self.colors.monocle.as_str(), theme.border_monocle()).to_string();
        self.colors.monocle = m;
        self.width = clamp_i32(self.width, 0, 32);
    }
}

/// The gap between windows limited to `0..=200` pixels.
pub fn clamp_gap(gap: i32) -> (g: i32)
    ensures
        g == clamp(gap as int, 0, 200),
{
    clamp_i32(gap, 0, 200)
}

/// Workspace-level configuration: the switching mode and per-workspace
/// layout overrides (workspace number 1-8 to layout).
#[derive(Debug, Clone)]
pub struct WorkspacesConfig {
    /// How a workspace switch is applied across monitors.
    pub mode: WorkspaceMode,
    /// Per-workspace layout overrides.
    pub layouts: HashMap<u8, LayoutKind>,
}

impl Default for WorkspacesConfig {
    fn default() -> (w: Self)
        ensures
            w.mode == WorkspaceMode::PerMonitor,
            w.layouts@ == Map::<u8, LayoutKind>::empty(),
    {
        WorkspacesConfig { mode: WorkspaceMode::PerMonitor, layouts: HashMap::new() }
    }
}

/// The layout overrides that a list of (key, layout) entries gives: the
/// keys that are workspace numbers `1..=8` map to their layout, a later
/// entry for the same number replacing an earlier one; other keys are
/// dropped.
pub open spec fn layout_overrides(entries: Seq<(Seq<char>, LayoutKind)>) -> Map<u8, LayoutKind>
    decreases entries.len(),
{
    if entries.len() == 0 {
        Map::empty()
    } else {
        let m = layout_overrides(entries.drop_last());
        match parse_workspace(entries.last().0) {
            Some(n) => m.insert(n, entries.last().1),
            None => m,
        }
    }
}

/// Builds the per-workspace layout overrides from the entries of a
/// `[workspaces.layouts]` table, whose keys are text.
///
/// Keys that are not a workspace number in `1..=8` are dropped, so that
/// a typo on one workspace never fails the whole config.
pub fn layouts_from_entries(entries: &Vec<(String, LayoutKind)>) -> (m: HashMap<u8, LayoutKind>)
    ensures
        m@ == layout_overrides(entries@.map_values(|e: (String, LayoutKind)| (e.0@, e.1))),
{
    let ghost view = entries@.map_values(|e: (String, LayoutKind)| (e.0@, e.1));
    let mut m: HashMap<u8, LayoutKind> = HashMap::new();
    let mut i: usize = 0;
    while i < entries.len()
        invariant
            0 <= i <= entries.len(),
            view == entries@.map_values(|e: (String, LayoutKind)| (e.0@, e.1)),
            m@ == layout_overrides(view.take(i as int)),
        decreases entries.len() - i,
    {
        assert(view.take(i + 1).drop_last() =~= view.take(i as int));
        assert(view.take(i + 1).last() == (entries@[i as int].0@, entries@[i as int].1));
        match parse_workspace_number(entries[i].0.as_str()) {
            Some(n) => {
                m.insert(n, entries[i].1);
            },
            None => {},
        }
        i = i + 1;
    }
    assert(view.take(i as int) =~= view);
    m
}

} // verus!
