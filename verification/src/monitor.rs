//! Performance-monitoring data shapes.

use vstd::prelude::*;

verus! {

#[derive(Debug, Clone, PartialEq)]
pub struct DiskUsage {
    pub total: u64,
    pub available: u64,
    pub used: u64,
}

#[derive(Debug, Clone, PartialEq)]
pub enum AlertType {
    HighCpuUsage,
    HighMemoryUsage,
    HighLatency,
    SlowCommand,
    LargeOutput,
    HighBandwidth,
}

} // verus!
