//! Tab, pane and session data shapes for the multi-pane terminal surface.

use vstd::prelude::*;

verus! {

#[derive(Debug, Clone, PartialEq)]
pub struct TerminalTab {
    pub tab_id: String,
    pub title: String,
    pub icon: Option<String>,
    pub closable: bool,
    pub session_id: String,
    pub created_at: u64,
    pub last_accessed: u64,
    pub is_pinned: bool,
    pub color: Option<String>,
}

#[derive(Debug, Clone, PartialEq)]
pub enum SessionStatus {
    Active,
    Inactive,
    Suspended,
    Restored,
    Terminated,
}

#[derive(Debug, Clone, PartialEq)]
pub enum PaneStatus {
    Active,
    Inactive,
    Running,
    Idle,
    Closed,
}

#[derive(Debug, Clone, PartialEq)]
pub struct PaneSize {
    pub rows: u16,
    pub columns: u16,
}

#[derive(Debug, Clone, PartialEq)]
pub enum SplitType {
    Horizontal,
    Vertical,
    Unsplit,
}

#[derive(Debug, Clone, PartialEq)]
pub enum LayoutType {
    Single,
    TwoColumn,
    TwoRow,
    ThreeColumn,
    ThreeRow,
    Grid,
    Custom,
}

#[derive(Debug, Clone, PartialEq)]
pub struct TabGroup {
    pub group_id: String,
    pub name: String,
    pub color: String,
    pub tabs: Vec<String>, // tab_ids
    pub collapsible: bool,
    pub collapsed: bool,
}

#[derive(Debug, Clone, PartialEq)]
pub enum TabPosition {
    Top,
    Bottom,
    Left,
    Right,
    Hidden,
}

#[derive(Debug, Clone, PartialEq)]
pub enum BorderStyle {
    Hidden,
    Solid,
    Dashed,
    Dotted,
    Double,
}

#[derive(Debug, Clone, PartialEq)]
pub enum TerminalEventType {
    SessionCreated,
    SessionDestroyed,
    SessionSuspended,
    SessionResumed,
    PaneCreated,
    PaneDestroyed,
    PaneSplit,
    PaneResized,
    PaneFocused,
    TabCreated,
    TabClosed,
    TabSwitched,
    CommandExecuted,
    ProcessStarted,
    ProcessEnded,
}

} // verus!
