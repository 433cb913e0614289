//! Process-management data shapes: process states and the actions and events around them.

use vstd::prelude::*;

verus! {

#[derive(Debug, Clone, PartialEq)]
pub enum ProcessState {
    Running,
    Stopped,
    Suspended,
    Zombie,
    Finished,
    Failed,
}

#[derive(Debug, Clone, PartialEq)]
pub enum ProcessType {
    Foreground,
    Background,
    Job,
    Daemon,
    Service,
}

#[derive(Debug, Clone, PartialEq)]
pub struct ProcessAction {
    pub action_type: ProcessActionType,
    pub pid: u32,
    pub signal: Option<String>,
    pub priority: Option<i32>,
}

#[derive(Debug, Clone, PartialEq)]
pub enum ProcessActionType {
    Kill,
    Stop,
    Continue,
    Terminate,
    Suspend,
    Resume,
    SetPriority,
    SendSignal,
}

#[derive(Debug, Clone, PartialEq)]
pub enum ProcessEventType {
    Started,
    Stopped,
    Crashed,
    HighCpuUsage,
    HighMemoryUsage,
    StateChanged,
    Suspended,
    Resumed,
}

} // verus!
