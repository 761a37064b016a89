//! Configuration types, themes, window rules and file templates.

pub mod bar;
pub mod borders;
pub mod keybinding;
pub mod loading;
pub mod palette;
pub mod rules;
pub mod sections;
pub mod template;
pub mod theme;
pub mod types;

pub use bar::{BarColors, BarConfig, WidgetConfig};
pub use keybinding::{Keybinding, Modifier};
pub use rules::{default_rules, should_manage, WindowRule};
pub use theme::{Theme, ThemeConfig};
pub use types::{BorderColors, BorderConfig, CornerStyle, HidingBehaviour, MouseConfig, WorkspaceMode, WorkspacesConfig};
