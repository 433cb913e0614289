//! Saved-workspace data shapes: tabs and panes as persisted session state.

use vstd::prelude::*;

verus! {

#[derive(Debug, Clone, PartialEq)]
pub struct TabInfo {
    pub id: String,
    pub title: String,
    pub working_dir: String,
    pub shell: String,
    pub panes: Vec<PaneInfo>,
    pub active_pane_id: Option<String>,
}

#[derive(Debug, Clone, PartialEq)]
pub struct PaneInfo {
    pub id: String,
    pub terminal_id: String,
    pub working_dir: String,
    pub command_history: Vec<String>,
    pub scrollback_lines: u32,
}

} // verus!
