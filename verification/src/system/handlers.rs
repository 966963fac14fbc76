//! What the requests about the machine decide, apart from the reading of its
//! state: how what was read is shown, and what is answered when a process
//! was to be ended.

use vstd::prelude::*;
use crate::system::models::{
    ApiInfo, CpuInfo, HealthResponse, KillResponse, ProcessQuery, SystemInfo,
};
use crate::text::{decimal, from_chars, option_text, push_decimal, push_str};

verus! {

/// The date and time in UTC that lies `secs` seconds after the start of
/// 1970, as chrono writes it with the pattern year-month-day
/// hour:minute:second; nothing where chrono has no date for it.
pub uninterp spec fn utc_stamp(secs: int) -> Option<Seq<char>>;

/// `chrono::DateTime::from_timestamp` for `secs` whole seconds and no
/// nanoseconds, written by chrono's `DateTime::format` with the pattern
/// year-month-day hour:minute:second; nothing where `from_timestamp` gives
/// nothing. The result depends on `secs` alone: the contract gives it the
/// name `utc_stamp` and claims no more of it.
#[verifier::external_body]
fn utc_timestamp(secs: i64) -> (r: Option<String>)
    ensures
        option_text(r) == utc_stamp(secs as int),
{
    match chrono::DateTime::from_timestamp(secs, 0) {
        Some(t) => Some(t.format("%Y-%m-%d %H:%M:%S").to_string()),
        None => None,
    }
}

/// The text `s`, or `unknown` where there is none.
pub open spec fn text_or_unknown(s: Option<String>) -> Seq<char> {
    match s {
        Some(t) => t@,
        None => "unknown"@,
    }
}

/// The text `s`, or `unknown` where there is none.
pub fn or_unknown(s: Option<String>) -> (r: String)
    ensures
        r@ == text_or_unknown(s),
{
    match s {
        Some(t) => t,
        None => "unknown".to_string(),
    }
}

/// The seconds since 1970 that the system gives as an unsigned number, read
/// as a signed one: numbers from 2 to the power 63 on wrap to negative ones.
pub open spec fn signed_seconds(t: u64) -> int {
    if t <= i64::MAX {
        t as int
    } else {
        t - 0x1_0000_0000_0000_0000
    }
}

/// How the time of the start of the machine is shown, once chrono has
/// written it as `stamp`: that text, or `unknown` where chrono has none.
pub fn shown_boot_time(stamp: Option<String>) -> (r: String)
    ensures
        r@ == text_or_unknown(stamp),
{
    or_unknown(stamp)
}

/// The time of the start of the machine, `boot_time` seconds after the start
/// of 1970, as it is shown: written by chrono in UTC, or `unknown` where
/// chrono has no date for it.
pub fn boot_time_text(boot_time: u64) -> (r: String)
    ensures
        r@ == match utc_stamp(signed_seconds(boot_time)) {
            Some(s) => s,
            None => "unknown"@,
        },
{
    let secs: i64 = if boot_time <= 0x7fff_ffff_ffff_ffff {
        boot_time as i64
    } else {
        let over: u64 = boot_time - 0x8000_0000_0000_0000;
        (over as i64) - 0x7fff_ffff_ffff_ffff - 1
    };
    let stamp = utc_timestamp(secs);
    shown_boot_time(stamp)
}

/// The machine and its system as they are shown. What the system does not
/// tell is shown as `unknown`.
pub fn system_info(
    hostname: Option<String>,
    os_name: Option<String>,
    os_version: Option<String>,
    kernel_version: Option<String>,
    uptime_seconds: u64,
    boot_time: u64,
) -> (info: SystemInfo)
    ensures
        info.hostname@ == text_or_unknown(hostname),
        info.os_name@ == text_or_unknown(os_name),
        info.os_version@ == text_or_unknown(os_version),
        info.kernel_version@ == text_or_unknown(kernel_version),
        info.uptime_seconds == uptime_seconds,
        info.boot_time@ == match utc_stamp(signed_seconds(boot_time)) {
            Some(s) => s,
            None => "unknown"@,
        },
{
    SystemInfo {
        hostname: or_unknown(hostname),
        os_name: or_unknown(os_name),
        os_version: or_unknown(os_version),
        kernel_version: or_unknown(kernel_version),
        uptime_seconds,
        boot_time: boot_time_text(boot_time),
    }
}

/// What is read of one core of the processor.
#[derive(Debug, Clone, PartialEq, Eq)]
pub struct CoreReading {
    pub name: String,
    pub brand: String,
    pub frequency: u64,
}

/// The processor as it is shown: name, brand and frequency are those of the
/// first core, and empty or zero where there is no core; the number of
/// physical cores is zero where it is not known.
pub fn cpu_info(
    first: Option<CoreReading>,
    physical_cores: Option<usize>,
    logical_cores: usize,
    architecture: String,
) -> (info: CpuInfo)
    ensures
        match first {
            Some(core) => info.name@ == core.name@ && info.brand@ == core.brand@
                && info.frequency_mhz == core.frequency,
            None => info.name@.len() == 0 && info.brand@.len() == 0 && info.frequency_mhz == 0,
        },
        info.physical_cores == match physical_cores {
            Some(n) => n,
            None => 0,
        },
        info.logical_cores == logical_cores,
        info.architecture@ == architecture@,
{
    let physical = match physical_cores {
        Some(n) => n,
        None => 0,
    };
    match first {
        Some(core) => CpuInfo {
            name: core.name,
            brand: core.brand,
            physical_cores: physical,
            logical_cores,
            frequency_mhz: core.frequency,
            architecture,
        },
        None => CpuInfo {
            name: String::new(),
            brand: String::new(),
            physical_cores: physical,
            logical_cores,
            frequency_mhz: 0,
            architecture,
        },
    }
}

/// The space in use on a disk of `total` bytes of which `available` are
/// free: their difference, and zero where more is free than there is.
pub fn used_space(total: u64, available: u64) -> (used: u64)
    ensures
        used == if total >= available {
            total - available
        } else {
            0
        },
{
    if total >= available {
        total - available
    } else {
        0
    }
}

impl ProcessQuery {
    /// How many processes are listed: as many as asked for, and 50 where
    /// the request does not say.
    pub fn limit_or_default(&self) -> (n: usize)
        ensures
            n == match self.limit {
                Some(k) => k,
                None => 50,
            },
    {
        match self.limit {
            Some(k) => k,
            None => 50,
        }
    }
}

/// What the service is and what it offers.
pub fn api_info() -> (info: ApiInfo)
    ensures
        info.name@ == "Ubuntu Resource API"@,
        info.version@ == "0.1.0"@,
        info.description@ == "REST API for monitoring Ubuntu system resources"@,
        info.endpoints@.len() == 9,
        info.endpoints@[0]@ == "/api/system"@,
        info.endpoints@[1]@ == "/api/cpu"@,
        info.endpoints@[2]@ == "/api/cpu/usage"@,
        info.endpoints@[3]@ == "/api/memory"@,
        info.endpoints@[4]@ == "/api/disks"@,
        info.endpoints@[5]@ == "/api/network"@,
        info.endpoints@[6]@ == "/api/processes"@,
        info.endpoints@[7]@ == "/api/load"@,
        info.endpoints@[8]@ == "/health"@,
{
    let mut endpoints: Vec<&'static str> = Vec::new();
    endpoints.push("/api/system");
    endpoints.push("/api/cpu");
    endpoints.push("/api/cpu/usage");
    endpoints.push("/api/memory");
    endpoints.push("/api/disks");
    endpoints.push("/api/network");
    endpoints.push("/api/processes");
    endpoints.push("/api/load");
    endpoints.push("/health");
    ApiInfo {
        name: "Ubuntu Resource API".to_string(),
        version: "0.1.0".to_string(),
        description: "REST API for monitoring Ubuntu system resources".to_string(),
        endpoints,
    }
}

/// The answer that the service is up, at the time `timestamp`.
pub fn health_response(timestamp: String) -> (r: HealthResponse)
    ensures
        r.status@ == "healthy"@,
        r.timestamp@ == timestamp@,
{
    HealthResponse { status: "healthy".to_string(), timestamp }
}

/// What became of the process that was to be ended.
#[derive(Debug, Clone, PartialEq, Eq)]
pub enum KillOutcome {
    /// The process of this name took the signal.
    Terminated(String),
    /// The signal could not be sent to the process of this name.
    Survived(String),
    /// There is no such process.
    Missing,
}

/// The message about the process `pid` whose end was attempted with `outcome`.
pub open spec fn kill_message(pid: u32, outcome: KillOutcome) -> Seq<char> {
    match outcome {
        KillOutcome::Terminated(name) => "Process '"@ + name@ + "' (PID: "@ + decimal(pid as nat)
            + ") terminated successfully"@,
        KillOutcome::Survived(name) => "Failed to terminate process '"@ + name@ + "' (PID: "@
            + decimal(pid as nat) + ")"@,
        KillOutcome::Missing => "Process with PID "@ + decimal(pid as nat) + " not found"@,
    }
}

/// The status and the body of the answer to the attempt to end the process
/// `pid`: 200 where it took the signal, 500 where the signal could not be
/// sent, 404 where there is no such process.
pub fn kill_response(pid: u32, outcome: KillOutcome) -> (r: (u16, KillResponse))
    ensures
        r.0 == match outcome {
            KillOutcome::Terminated(_) => 200u16,
            KillOutcome::Survived(_) => 500u16,
            KillOutcome::Missing => 404u16,
        },
        r.1.success == (outcome is Terminated),
        r.1.pid == pid,
        r.1.message@ == kill_message(pid, outcome),
{
    let mut out: Vec<char> = Vec::new();
    match &outcome {
        KillOutcome::Terminated(name) => {
            push_str(&mut out, "Process '");
            push_str(&mut out, name.as_str());
            push_str(&mut out, "' (PID: ");
            push_decimal(&mut out, pid as usize);
            push_str(&mut out, ") terminated successfully");
            assert(out@ =~= kill_message(pid, outcome));
            (200, KillResponse { success: true, message: from_chars(&out), pid })
        },
        KillOutcome::Survived(name) => {
            push_str(&mut out, "Failed to terminate process '");
            push_str(&mut out, name.as_str());
            push_str(&mut out, "' (PID: ");
            push_decimal(&mut out, pid as usize);
            push_str(&mut out, ")");
            assert(out@ =~= kill_message(pid, outcome));
            (500, KillResponse { success: false, message: from_chars(&out), pid })
        },
        KillOutcome::Missing => {
            push_str(&mut out, "Process with PID ");
            push_decimal(&mut out, pid as usize);
            push_str(&mut out, " not found");
            assert(out@ =~= kill_message(pid, outcome));
            (404, KillResponse { success: false, message: from_chars(&out), pid })
        },
    }
}

} // verus!
