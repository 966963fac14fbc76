//! What is shown of the machine.

use vstd::prelude::*;

verus! {

/// The machine and its system.
#[derive(Debug, Clone, PartialEq, Eq)]
pub struct SystemInfo {
    pub hostname: String,
    pub os_name: String,
    pub os_version: String,
    pub kernel_version: String,
    pub uptime_seconds: u64,
    pub boot_time: String,
}

/// The processor.
#[derive(Debug, Clone, PartialEq, Eq)]
pub struct CpuInfo {
    pub name: String,
    pub brand: String,
    pub physical_cores: usize,
    pub logical_cores: usize,
    pub frequency_mhz: u64,
    pub architecture: String,
}

/// A network interface and its counters.
#[derive(Debug, Clone, PartialEq, Eq)]
pub struct NetworkInfo {
    pub interface_name: String,
    pub mac_address: String,
    pub received_bytes: u64,
    pub transmitted_bytes: u64,
    pub received_packets: u64,
    pub transmitted_packets: u64,
    pub errors_in: u64,
    pub errors_out: u64,
}

/// The answer to the question whether the service is up.
#[derive(Debug, Clone, PartialEq, Eq)]
pub struct HealthResponse {
    pub status: String,
    pub timestamp: String,
}

/// What the service is and what it offers.
#[derive(Debug, Clone, PartialEq, Eq)]
pub struct ApiInfo {
    pub name: String,
    pub version: String,
    pub description: String,
    pub endpoints: Vec<&'static str>,
}

/// How many processes are asked for.
#[derive(Debug, Clone, Copy, PartialEq, Eq)]
pub struct ProcessQuery {
    pub limit: Option<usize>,
}

/// How the attempt to end a process went.
#[derive(Debug, Clone, PartialEq, Eq)]
pub struct KillResponse {
    pub success: bool,
    pub message: String,
    pub pid: u32,
}

} // verus!
