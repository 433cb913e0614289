//! User-settings data shapes.

use vstd::prelude::*;

verus! {

#[derive(Debug, Clone, PartialEq)]
pub struct Keybindings {
    pub open_ai_panel: String,
    pub open_workflows: String,
    pub split_vertical: String,
    pub split_horizontal: String,
    pub close_pane: String,
}

#[derive(Debug, Clone, PartialEq)]
pub struct Settings {
    pub theme: String,          // "dark" or "light"
    pub font_size: u16,         // terminal font size hint
    pub telemetry_enabled: bool,
    pub analytics_endpoint: Option<String>,
    pub keybindings: Keybindings,
}

} // verus!
