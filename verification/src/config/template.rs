//! Starter configuration files written by `mosaico init`, with
//! explanatory comments.

use vstd::prelude::*;

verus! {

broadcast use vstd::string::group_string_axioms;

/// The starter `bar.toml`.
pub const BAR_TEMPLATE: &'static str = "# Mosaico status bar\n\
# Location: ~/.config/mosaico/bar.toml\n\
\n\
# Whether the status bar is displayed.\n\
enabled = true\n\
# Bar height in pixels. Increase for high-DPI displays.\n\
height = 64\n\
# Font family name. A Nerd Font is required for widget icons.\n\
# See https://www.nerdfonts.com/ for installation instructions.\n\
font = \"CaskaydiaCove Nerd Font\"\n\
# Font size in pixels.\n\
font_size = 24\n\
# Render bar text in bold.\n\
font_bold = true\n\
# Render bar text in italic.\n\
font_italic = false\n\
# Render bar text with underline.\n\
font_underline = false\n\
# Horizontal padding at the bar edges in pixels.\n\
padding = 8\n\
# Horizontal padding inside each widget pill in pixels.\n\
pill_padding = 12\n\
# Corner radius for pill backgrounds (0 = square corners).\n\
pill_radius = 4\n\
# Border width for pill backgrounds in pixels. 0 = no border.\n\
pill_border_width = 2\n\
# Gap between pills in pixels.\n\
item_gap = 10\n\
# Gap between individual workspace number pills in pixels.\n\
workspace_gap = 4\n\
# Separator string between widget groups (empty string = no separator).\n\
separator = \"\"\n\
# Background opacity as a percentage (0 = fully transparent, 100 = opaque).\n\
background_opacity = 0\n\
# Which monitors to show the bar on (0-indexed). Empty = all monitors.\n\
# Example: monitors = [0] shows the bar only on the primary monitor.\n\
monitors = []\n\
\n\
# Override individual theme colors (hex or named: blue, green, mauve, etc.).\n\
# [colors]\n\
# background = \"#1e1e2e\"\n\
# foreground = \"#89b4fa\"\n\
# active_workspace = \"#435375\"\n\
# active_workspace_text = \"#cdd6f4\"\n\
# inactive_workspace = \"#89b4fa\"\n\
# separator = \"#45475a\"\n\
# accent = \"#a6e3a1\"\n\
# widget_background = \"#313244\"\n\
# pill_border = \"#89b4fa\"\n\
\n\
# Left-side widgets (rendered left-to-right).\n\
# Set enabled = false to hide a widget without removing it.\n\
# Set icon = \"\" to hide the icon, or use any Nerd Font glyph.\n\
\n\
[[left]]\n\
type = \"workspaces\"\n\
# enabled = true\n\
\n\
[[left]]\n\
type = \"active_window\"\n\
# enabled = true\n\
\n\
[[left]]\n\
type = \"layout\"\n\
# enabled = true\n\
icon = \"\\uF009\"\n\
\n\
# Right-side widgets (rendered right-to-left).\n\
# Set enabled = false to hide a widget without removing it.\n\
\n\
[[right]]\n\
type = \"clock\"\n\
# enabled = true\n\
format = \"%H:%M:%S\"\n\
icon = \"\\uF017\"\n\
\n\
[[right]]\n\
type = \"date\"\n\
# enabled = true\n\
format = \"%A %d %B %Y\"\n\
icon = \"\\uF073\"\n\
\n\
[[right]]\n\
type = \"ram\"\n\
# enabled = true\n\
icon = \"\\uF2DB\"\n\
\n\
[[right]]\n\
type = \"cpu\"\n\
# enabled = true\n\
icon = \"\\uF085\"\n\
\n\
[[right]]\n\
type = \"update\"\n\
# enabled = true  # auto-hidden when no update is available\n\
icon = \"\\uF019\"\n\
color = \"green\"  # custom color for text and border (hex or named)\n\
\n\
# Media widget -- shows currently playing track from Spotify, YouTube Music, etc.\n\
# Auto-hidden when nothing is playing.\n\
# [[right]]\n\
# type = \"media\"\n\
# icon = \"\\uF001\"\n\
# max_length = 40  # truncate long titles with \"...\"\n";

/// The starter `config.toml`.
pub const CONFIG_TEMPLATE: &'static str = r##"# Mosaico configuration
# Location: ~/.config/mosaico/config.toml

# Color theme. Controls border colors and status bar colors.
# Available: name = "catppuccin", flavor = mocha | macchiato | frappe | latte
[theme]
name = "catppuccin"
flavor = "mocha"

[layout]
# Gap in pixels between windows and screen edges.
gap = 8
# Ratio of space given to the first window in each split (0.0 to 1.0).
ratio = 0.5
# How windows are hidden during workspace switches.
# "cloak" (recommended): invisible via DWM, keeps taskbar icon.
# "hide": SW_HIDE, removes taskbar icon.
# "minimize": SW_MINIMIZE, keeps taskbar icon but shows as minimized.
hiding = "cloak"
# Default layout algorithm: "bsp", "vertical-stack", or "three-column".
default = "bsp"

[workspaces]
# How a workspace switch is applied across monitors.
# "per-monitor" (default): only the focused monitor switches.
# "global": all monitors switch in lockstep, like Windows virtual desktops.
mode = "per-monitor"

# Per-workspace layout overrides (workspace number 1-8).
# Available layouts: "bsp", "vertical-stack", "three-column".
# Workspaces without an entry use the [layout] default above.
# [workspaces.layouts]
# 1 = "vertical-stack"
# 3 = "three-column"

[borders]
# Border width in pixels around the focused window.
width = 4
# Corner style for borders and tiled windows: "square", "small", or "round".
corner_style = "small"

# Override theme border colors. Both fields accept a hex color
# ("#00b4d8") or a named theme color (blue, green, mauve, teal, etc.).
# focused: color while a tiled layout is active
# monocle: color while monocle mode is active
# [borders.colors]
# focused = "blue"
# monocle = "green"

[mouse]
# Move the cursor to the center of the focused window on keyboard navigation.
follows_focus = true
# Automatically focus the window under the cursor without clicking.
focus_follows_mouse = false

[logging]
# Enable file logging to ~/.config/mosaico/logs/mosaico.log.
enabled = false
# Minimum log level: "debug", "info", "warn", or "error".
level = "info"
# Maximum log file size in MB before rotation.
max_file_mb = 10
"##;

/// The starter `rules.toml`, used as the cache before community rules
/// are downloaded.
pub const RULES_TEMPLATE: &'static str = r#"# Community-maintained default rules for Mosaico
# Location: ~/.config/mosaico/rules.toml
#
# This file is downloaded automatically when the daemon starts.
# To override a rule, add an entry in ~/.config/mosaico/user-rules.toml
# rather than editing this file (it will be overwritten on next startup).
#
# To contribute: https://github.com/jmelosegui/mosaico-rules

# UWP ghost frames — invisible companion windows with no title.
[[rule]]
match_class = "ApplicationFrameWindow"
match_title = ""
manage = false

# GPG passphrase prompt — small modal dialog, should not be tiled.
[[rule]]
match_title = "pinentry"
manage = false
"#;

/// The starter `user-rules.toml`, where every rule is commented out.
pub const USER_RULES_TEMPLATE: &'static str = r#"# User-specific window rules for Mosaico
# Location: ~/.config/mosaico/user-rules.toml
#
# Rules in this file take priority over community defaults in rules.toml.
# Community rules are downloaded automatically — to contribute a rule
# that benefits everyone, please submit it to:
#
#   https://github.com/jmelosegui/mosaico-rules
#
# Only add rules here for personal preferences that don't apply to all
# users (e.g., tiling a specific app that most people would exclude).

# Example: force-tile a window that community rules exclude
# [[rule]]
# match_class = "MySpecialApp"
# manage = true

# Example: exclude a personal app
# [[rule]]
# match_title = "My Private Tool"
# manage = false
"#;

/// The comment block at the top of `keybindings.toml`.
pub const KEYBINDINGS_HEADER: &'static str = r##"# Mosaico keybindings
# Location: ~/.config/mosaico/keybindings.toml
#
# Each [[keybinding]] entry maps a key combination to an action.
#
# Available actions:
#   focus-left, focus-right, focus-up, focus-down,
#   move-left, move-right, move-up, move-down,
#   goto-workspace-1 .. goto-workspace-8,
#   send-to-workspace-1 .. send-to-workspace-8,
#   retile, toggle-monocle, cycle-layout, close-focused, minimize-focused
#
# Available modifiers: alt, shift, ctrl, win
#
# Key names: A-Z, 0-9, F1-F24, Enter, Space, Tab, Escape,
#            Left, Right, Up, Down, Minus, Plus, Comma, Period

# Focus: Alt + H/J/K/L (vim-style spatial navigation)
"##;

/// The focus, move and window bindings of `keybindings.toml`.
pub const KEYBINDINGS_FOCUS_MOVE: &'static str = r##"[[keybinding]]
action = "focus-down"
key = "J"
modifiers = ["alt"]

[[keybinding]]
action = "focus-up"
key = "K"
modifiers = ["alt"]

[[keybinding]]
action = "focus-right"
key = "L"
modifiers = ["alt"]

[[keybinding]]
action = "focus-left"
key = "H"
modifiers = ["alt"]

# Move: Alt + Shift + H/J/K/L (swap or cross-monitor)
[[keybinding]]
action = "move-down"
key = "J"
modifiers = ["alt", "shift"]

[[keybinding]]
action = "move-up"
key = "K"
modifiers = ["alt", "shift"]

[[keybinding]]
action = "move-right"
key = "L"
modifiers = ["alt", "shift"]

[[keybinding]]
action = "move-left"
key = "H"
modifiers = ["alt", "shift"]

# Re-apply layout: Alt + Shift + R
[[keybinding]]
action = "retile"
key = "R"
modifiers = ["alt", "shift"]

# Toggle monocle mode: Alt + T
[[keybinding]]
action = "toggle-monocle"
key = "T"
modifiers = ["alt"]

# Cycle layout (BSP / vertical stack / three columns): Alt + N
[[keybinding]]
action = "cycle-layout"
key = "N"
modifiers = ["alt"]

# Close focused window: Alt + Q
[[keybinding]]
action = "close-focused"
key = "Q"
modifiers = ["alt"]

# Minimize focused window: Alt + M
[[keybinding]]
action = "minimize-focused"
key = "M"
modifiers = ["alt"]
"##;

/// The workspace bindings of `keybindings.toml`.
pub const KEYBINDINGS_WORKSPACES: &'static str = r##"
# Workspaces: Alt + 1..8 to switch, Alt + Shift + 1..8 to send the focused window
[[keybinding]]
action = "goto-workspace-1"
key = "1"
modifiers = ["alt"]

[[keybinding]]
action = "send-to-workspace-1"
key = "1"
modifiers = ["alt", "shift"]

[[keybinding]]
action = "goto-workspace-2"
key = "2"
modifiers = ["alt"]

[[keybinding]]
action = "send-to-workspace-2"
key = "2"
modifiers = ["alt", "shift"]

[[keybinding]]
action = "goto-workspace-3"
key = "3"
modifiers = ["alt"]

[[keybinding]]
action = "send-to-workspace-3"
key = "3"
modifiers = ["alt", "shift"]

[[keybinding]]
action = "goto-workspace-4"
key = "4"
modifiers = ["alt"]

[[keybinding]]
action = "send-to-workspace-4"
key = "4"
modifiers = ["alt", "shift"]

[[keybinding]]
action = "goto-workspace-5"
key = "5"
modifiers = ["alt"]

[[keybinding]]
action = "send-to-workspace-5"
key = "5"
modifiers = ["alt", "shift"]

[[keybinding]]
action = "goto-workspace-6"
key = "6"
modifiers = ["alt"]

[[keybinding]]
action = "send-to-workspace-6"
key = "6"
modifiers = ["alt", "shift"]

[[keybinding]]
action = "goto-workspace-7"
key = "7"
modifiers = ["alt"]

[[keybinding]]
action = "send-to-workspace-7"
key = "7"
modifiers = ["alt", "shift"]

[[keybinding]]
action = "goto-workspace-8"
key = "8"
modifiers = ["alt"]

[[keybinding]]
action = "send-to-workspace-8"
key = "8"
modifiers = ["alt", "shift"]
"##;

/// Generates the default `bar.toml` contents with explanatory comments.
pub fn generate_bar() -> (s: String)
    ensures
        s@ == BAR_TEMPLATE@,
{
    BAR_TEMPLATE.to_string()
}

/// Generates the default `config.toml` contents with explanatory comments.
pub fn generate_config() -> (s: String)
    ensures
        s@ == CONFIG_TEMPLATE@,
{
    CONFIG_TEMPLATE.to_string()
}

/// Generates the default `rules.toml` contents with explanatory comments.
pub fn generate_rules() -> (s: String)
    ensures
        s@ == RULES_TEMPLATE@,
{
    RULES_TEMPLATE.to_string()
}

/// Generates the default `user-rules.toml` contents with explanatory comments.
pub fn generate_user_rules() -> (s: String)
    ensures
        s@ == USER_RULES_TEMPLATE@,
{
    USER_RULES_TEMPLATE.to_string()
}

/// The binding entries of `keybindings.toml`: focus and move bindings,
/// then workspace bindings.
pub fn keybinding_entries() -> (s: String)
    ensures
        s@ == KEYBINDINGS_FOCUS_MOVE@ + KEYBINDINGS_WORKSPACES@,
{
    let mut s = KEYBINDINGS_FOCUS_MOVE.to_string();
    s.append(KEYBINDINGS_WORKSPACES);
    s
}

/// Generates the default `keybindings.toml` contents with explanatory comments.
pub fn generate_keybindings() -> (s: String)
    ensures
        s@ == KEYBINDINGS_HEADER@ + KEYBINDINGS_FOCUS_MOVE@ + KEYBINDINGS_WORKSPACES@,
{
    let mut s = KEYBINDINGS_HEADER.to_string();
    let e = keybinding_entries();
    s.append(e.as_str());
    s
}

} // verus!
