//! Shell-integration data shapes: completions, prompt configuration and shell variables.

use vstd::prelude::*;

verus! {

#[derive(Debug, Clone, PartialEq)]
pub struct ShellCompletion {
    pub text: String,
    pub display: String,
    pub description: Option<String>,
    pub completion_type: CompletionType,
    pub priority: i32,
    pub source: String,
}

#[derive(Debug, Clone, PartialEq)]
pub enum CompletionType {
    Command,
    File,
    Directory,
    Variable,
    Alias,
    Function,
    Argument,
    Flag,
    History,
    Custom,
}

#[derive(Debug, Clone, PartialEq)]
pub struct PromptConfiguration {
    pub template: String,
    pub segments: Vec<PromptSegment>,
    pub colors: PromptColors,
    pub icons: PromptIcons,
    pub show_git: bool,
    pub show_duration: bool,
    pub show_exit_code: bool,
    pub multiline: bool,
}

#[derive(Debug, Clone, PartialEq)]
pub struct PromptSegment {
    pub name: String,
    pub enabled: bool,
    pub format: String,
    pub condition: Option<String>,
    pub color: Option<String>,
    pub background: Option<String>,
}

#[derive(Debug, Clone, PartialEq)]
pub struct PromptColors {
    pub primary: String,
    pub secondary: String,
    pub success: String,
    pub warning: String,
    pub error: String,
    pub info: String,
    pub directory: String,
    pub git: String,
}

#[derive(Debug, Clone, PartialEq)]
pub struct PromptIcons {
    pub directory: String,
    pub git_branch: String,
    pub git_modified: String,
    pub git_staged: String,
    pub git_untracked: String,
    pub success: String,
    pub error: String,
    pub lock: String,
    pub user: String,
    pub host: String,
}

#[derive(Debug, Clone, PartialEq)]
pub struct ShellVariable {
    pub name: String,
    pub value: String,
    pub var_type: VariableType,
    pub exported: bool,
    pub readonly: bool,
    pub description: Option<String>,
}

#[derive(Debug, Clone, PartialEq)]
pub enum VariableType {
    String,
    Integer,
    Array,
    Hash,
    Path,
    Boolean,
}

#[derive(Debug, Clone, PartialEq)]
pub struct GitStatus {
    pub branch: Option<String>,
    pub ahead: u32,
    pub behind: u32,
    pub staged: u32,
    pub modified: u32,
    pub untracked: u32,
    pub conflicts: u32,
    pub stashes: u32,
    pub is_dirty: bool,
    pub is_detached: bool,
}

} // verus!
