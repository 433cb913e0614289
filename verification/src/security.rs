//! Security-policy and audit data shapes.

use vstd::prelude::*;

verus! {

#[derive(Debug, Clone, PartialEq)]
pub struct SecurityPolicy {
    pub enable_audit_logging: bool,
    pub mask_sensitive_data: bool,
    pub blocked_commands: Vec<String>,
    pub allowed_directories: Vec<String>,
    pub require_confirmation: Vec<String>,  // Commands that require user confirmation
    pub secure_input_mode: bool,
    pub max_session_duration: Option<u64>, // in seconds
    pub auto_lock_timeout: Option<u64>,    // in seconds
    pub encryption_enabled: bool,
}

#[derive(Debug, Clone, PartialEq)]
pub struct AuditLogEntry {
    pub id: String,
    pub timestamp: u64,
    pub session_id: String,
    pub user: String,
    pub command: String,
    pub working_directory: String,
    pub exit_code: Option<i32>,
    pub duration_ms: Option<u64>,
    pub ip_address: Option<String>,
    pub event_type: AuditEventType,
    pub risk_level: RiskLevel,
    pub blocked: bool,
}

#[derive(Debug, Clone, PartialEq)]
pub enum AuditEventType {
    CommandExecution,
    FileAccess,
    NetworkActivity,
    PrivilegeEscalation,
    SecurityViolation,
    SessionStart,
    SessionEnd,
    Authentication,
}

#[derive(Debug, Clone, PartialEq)]
pub enum RiskLevel {
    Low,
    Medium,
    High,
    Critical,
}

#[derive(Debug, Clone, PartialEq)]
pub struct SecurityAlert {
    pub id: String,
    pub timestamp: u64,
    pub session_id: String,
    pub alert_type: SecurityAlertType,
    pub message: String,
    pub risk_level: RiskLevel,
    pub command: Option<String>,
    pub remediation: Option<String>,
}

#[derive(Debug, Clone, PartialEq)]
pub enum SecurityAlertType {
    BlockedCommand,
    SuspiciousActivity,
    PrivilegeEscalation,
    UnauthorizedAccess,
    DataLeakage,
    MaliciousPattern,
    SessionTimeout,
}

#[derive(Debug, Clone, PartialEq)]
pub struct AuditLogFilter {
    pub user: Option<String>,
    pub command: Option<String>,
    pub event_type: Option<AuditEventType>,
    pub risk_level: Option<RiskLevel>,
    pub start_time: Option<u64>,
    pub end_time: Option<u64>,
}

#[derive(Debug, Clone, PartialEq)]
pub enum CommandValidationResult {
    Allowed,
    Blocked(String),
    RequiresConfirmation(String),
}

} // verus!
