//! Network and SSH data shapes: connections, sessions, port forwards and monitoring alerts.

use vstd::prelude::*;

verus! {

#[derive(Debug, Clone, PartialEq)]
pub struct SshConnection {
    pub id: String,
    pub name: String,
    pub host: String,
    pub port: u16,
    pub username: String,
    pub password: Option<String>,
    pub private_key_path: Option<String>,
    pub identity_file: Option<String>,
    pub connection_timeout: u64,
    pub keepalive_interval: u64,
    pub compression: bool,
    pub forward_agent: bool,
    pub forward_x11: bool,
    pub proxy_jump: Option<String>,
    pub tags: Vec<String>,
    pub last_connected: Option<u64>,
    pub connection_count: u32,
}

#[derive(Debug, Clone, PartialEq)]
pub enum SshConnectionStatus {
    Disconnected,
    Connecting,
    Connected,
    Failed,
    Timeout,
}

#[derive(Debug, Clone, PartialEq)]
pub struct ActiveSshSession {
    pub connection_id: String,
    pub session_id: String,
    pub terminal_id: Option<String>,
    pub status: SshConnectionStatus,
    pub connected_at: u64,
    pub bytes_sent: u64,
    pub bytes_received: u64,
    pub last_activity: u64,
    pub local_port_forwards: Vec<PortForward>,
    pub remote_port_forwards: Vec<PortForward>,
}

#[derive(Debug, Clone, PartialEq)]
pub struct PortForward {
    pub id: String,
    pub local_port: u16,
    pub remote_host: String,
    pub remote_port: u16,
    pub is_active: bool,
    pub created_at: u64,
    pub bytes_transferred: u64,
}

#[derive(Debug, Clone, PartialEq)]
pub enum NetworkProtocol {
    Tcp,
    Udp,
    Icmp,
}

#[derive(Debug, Clone, PartialEq)]
pub enum ConnectionState {
    Listen,
    Established,
    SynSent,
    SynReceived,
    FinWait1,
    FinWait2,
    CloseWait,
    Closing,
    LastAck,
    TimeWait,
    Closed,
}

#[derive(Debug, Clone, PartialEq)]
pub struct NetworkMonitorConfig {
    pub interface_monitoring: bool,
    pub connection_monitoring: bool,
    pub port_scan_detection: bool,
    pub bandwidth_monitoring: bool,
    pub update_interval: u64, // seconds
    pub alert_thresholds: NetworkAlertThresholds,
}

#[derive(Debug, Clone, PartialEq)]
pub struct NetworkAlertThresholds {
    pub high_bandwidth_threshold: u64, // bytes per second
    pub suspicious_connection_count: usize,
    pub failed_connection_threshold: usize,
    pub port_scan_detection_threshold: usize,
}

#[derive(Debug, Clone, PartialEq)]
pub enum NetworkAlertType {
    HighBandwidth,
    SuspiciousConnections,
    PortScanDetected,
    InterfaceDown,
    ConnectionFailed,
    UnauthorizedAccess,
}

#[derive(Debug, Clone, PartialEq)]
pub enum AlertSeverity {
    Low,
    Medium,
    High,
    Critical,
}

} // verus!
