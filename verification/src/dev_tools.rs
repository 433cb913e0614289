//! Developer-tooling data shapes: git state, language-server status and diagnostics, debugging, project templates and test outcomes.

use vstd::prelude::*;

verus! {

#[derive(Debug, Clone, PartialEq)]
pub struct GitStatus {
    pub staged: Vec<GitFileStatus>,
    pub unstaged: Vec<GitFileStatus>,
    pub untracked: Vec<String>,
    pub ignored: Vec<String>,
    pub conflicted: Vec<String>,
}

#[derive(Debug, Clone, PartialEq)]
pub struct GitFileStatus {
    pub path: String,
    pub status: GitFileChange,
    pub additions: usize,
    pub deletions: usize,
}

#[derive(Debug, Clone, PartialEq)]
pub enum GitFileChange {
    Added,
    Modified,
    Deleted,
    Renamed,
    Copied,
    Unmerged,
    TypeChanged,
}

#[derive(Debug, Clone, PartialEq)]
pub struct GitCommit {
    pub hash: String,
    pub short_hash: String,
    pub author: String,
    pub email: String,
    pub message: String,
    pub timestamp: u64,
    pub files_changed: usize,
    pub insertions: usize,
    pub deletions: usize,
}

#[derive(Debug, Clone, PartialEq)]
pub struct GitBranch {
    pub name: String,
    pub is_current: bool,
    pub is_remote: bool,
    pub upstream: Option<String>,
    pub last_commit: Option<GitCommit>,
    pub ahead: usize,
    pub behind: usize,
}

#[derive(Debug, Clone, PartialEq)]
pub struct GitSubmodule {
    pub name: String,
    pub path: String,
    pub url: String,
    pub branch: Option<String>,
    pub status: SubmoduleStatus,
}

#[derive(Debug, Clone, PartialEq)]
pub enum SubmoduleStatus {
    Uninitialized,
    Initialized,
    Updated,
    OutOfDate,
    Modified,
}

#[derive(Debug, Clone, PartialEq)]
pub struct GitRemote {
    pub name: String,
    pub fetch_url: String,
    pub push_url: String,
}

#[derive(Debug, Clone, PartialEq)]
pub struct GitStash {
    pub index: usize,
    pub branch: String,
    pub message: String,
    pub timestamp: u64,
}

#[derive(Debug, Clone, PartialEq)]
pub enum LspStatus {
    Stopped,
    Starting,
    Running,
    Error,
    Crashed,
}

#[derive(Debug, Clone, PartialEq)]
pub struct LspCapabilities {
    pub hover: bool,
    pub completion: bool,
    pub signature_help: bool,
    pub goto_definition: bool,
    pub goto_references: bool,
    pub document_symbols: bool,
    pub workspace_symbols: bool,
    pub code_actions: bool,
    pub formatting: bool,
    pub range_formatting: bool,
    pub rename: bool,
    pub diagnostics: bool,
}

#[derive(Debug, Clone, PartialEq)]
pub struct LspDiagnostic {
    pub file_path: String,
    pub line: usize,
    pub column: usize,
    pub severity: DiagnosticSeverity,
    pub message: String,
    pub source: Option<String>,
    pub code: Option<String>,
}

#[derive(Debug, Clone, PartialEq)]
pub enum DiagnosticSeverity {
    Error,
    Warning,
    Information,
    Hint,
}

#[derive(Debug, Clone, PartialEq)]
pub enum DebuggerStatus {
    Stopped,
    Starting,
    Running,
    Paused,
    Debugging,
    Error,
}

#[derive(Debug, Clone, PartialEq)]
pub struct Breakpoint {
    pub id: String,
    pub file_path: String,
    pub line: usize,
    pub condition: Option<String>,
    pub hit_condition: Option<String>,
    pub log_message: Option<String>,
    pub enabled: bool,
    pub verified: bool,
}

#[derive(Debug, Clone, PartialEq)]
pub enum VariableScope {
    Local,
    Global,
    Parameter,
    Return,
}

#[derive(Debug, Clone, PartialEq)]
pub struct StackFrame {
    pub id: usize,
    pub name: String,
    pub file_path: String,
    pub line: usize,
    pub column: usize,
}

#[derive(Debug, Clone, PartialEq)]
pub struct ProjectTemplate {
    pub id: String,
    pub name: String,
    pub description: String,
    pub language: String,
    pub framework: Option<String>,
    pub tags: Vec<String>,
    pub files: Vec<TemplateFile>,
    pub post_creation_commands: Vec<String>,
}

#[derive(Debug, Clone, PartialEq)]
pub struct TemplateFile {
    pub path: String,
    pub content: String,
    pub is_template: bool, // If true, content contains variables like {{project_name}}
    pub executable: bool,
}

#[derive(Debug, Clone, PartialEq)]
pub enum TestStatus {
    Passed,
    Failed,
    Skipped,
    Error,
}

#[derive(Debug, Clone, PartialEq)]
pub enum DevToolsEventType {
    GitStatusChanged,
    LspServerStarted,
    LspServerStopped,
    DiagnosticsUpdated,
    DebugSessionStarted,
    DebugSessionStopped,
    BreakpointHit,
    BuildStarted,
    BuildCompleted,
    TestsStarted,
    TestsCompleted,
}

} // verus!
