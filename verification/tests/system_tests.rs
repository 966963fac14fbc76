use ubuntu_resource_api::system::handlers::{
    api_info, boot_time_text, cpu_info, health_response, kill_response, shown_boot_time,
    system_info, used_space, CoreReading, KillOutcome,
};
use ubuntu_resource_api::system::models::{KillResponse, ProcessQuery};

#[test]
fn boot_time_is_written_in_utc() {
    assert_eq!(boot_time_text(0), "1970-01-01 00:00:00");
    assert_eq!(boot_time_text(1431648000), "2015-05-15 00:00:00");
    assert_eq!(boot_time_text(1700000000), "2023-11-14 22:13:20");
}

#[test]
fn boot_time_out_of_range_is_unknown() {
    assert_eq!(boot_time_text(u64::MAX / 2), "unknown");
    assert_eq!(boot_time_text(1 << 63), "unknown");
    assert_eq!(boot_time_text(u64::MAX), "1969-12-31 23:59:59");
    assert_eq!(shown_boot_time(None), "unknown");
    assert_eq!(shown_boot_time(Some("x".to_string())), "x");
}

#[test]
fn system_info_fills_what_is_missing() {
    let info = system_info(Some("host".to_string()), None, Some("22.04".to_string()), None, 99, 60);
    assert_eq!(info.hostname, "host");
    assert_eq!(info.os_name, "unknown");
    assert_eq!(info.os_version, "22.04");
    assert_eq!(info.kernel_version, "unknown");
    assert_eq!(info.uptime_seconds, 99);
    assert_eq!(info.boot_time, "1970-01-01 00:01:00");
}

#[test]
fn cpu_info_takes_the_first_core() {
    let core = CoreReading { name: "cpu0".to_string(), brand: "Brand".to_string(), frequency: 2400 };
    let info = cpu_info(Some(core), Some(4), 8, "x86_64".to_string());
    assert_eq!(info.name, "cpu0");
    assert_eq!(info.brand, "Brand");
    assert_eq!(info.frequency_mhz, 2400);
    assert_eq!(info.physical_cores, 4);
    assert_eq!(info.logical_cores, 8);
    assert_eq!(info.architecture, "x86_64");

    let info = cpu_info(None, None, 0, "aarch64".to_string());
    assert_eq!(info.name, "");
    assert_eq!(info.brand, "");
    assert_eq!(info.frequency_mhz, 0);
    assert_eq!(info.physical_cores, 0);
}

#[test]
fn used_space_never_goes_below_zero() {
    assert_eq!(used_space(100, 30), 70);
    assert_eq!(used_space(30, 100), 0);
    assert_eq!(used_space(5, 5), 0);
    assert_eq!(used_space(u64::MAX, 0), u64::MAX);
}

#[test]
fn process_limit_defaults_to_fifty() {
    assert_eq!(ProcessQuery { limit: None }.limit_or_default(), 50);
    assert_eq!(ProcessQuery { limit: Some(3) }.limit_or_default(), 3);
    assert_eq!(ProcessQuery { limit: Some(0) }.limit_or_default(), 0);
}

#[test]
fn api_info_lists_the_endpoints() {
    let info = api_info();
    assert_eq!(info.name, "Ubuntu Resource API");
    assert_eq!(info.version, "0.1.0");
    assert_eq!(info.description, "REST API for monitoring Ubuntu system resources");
    assert_eq!(
        info.endpoints,
        vec![
            "/api/system",
            "/api/cpu",
            "/api/cpu/usage",
            "/api/memory",
            "/api/disks",
            "/api/network",
            "/api/processes",
            "/api/load",
            "/health",
        ]
    );
}

#[test]
fn health_is_reported_with_the_time() {
    let r = health_response("2024-01-01T00:00:00+00:00".to_string());
    assert_eq!(r.status, "healthy");
    assert_eq!(r.timestamp, "2024-01-01T00:00:00+00:00");
}

#[test]
fn kill_answers_by_outcome() {
    assert_eq!(
        kill_response(4242, KillOutcome::Terminated("sleep".to_string())),
        (
            200,
            KillResponse {
                success: true,
                message: "Process 'sleep' (PID: 4242) terminated successfully".to_string(),
                pid: 4242
            }
        )
    );
    assert_eq!(
        kill_response(1, KillOutcome::Survived("init".to_string())),
        (
            500,
            KillResponse {
                success: false,
                message: "Failed to terminate process 'init' (PID: 1)".to_string(),
                pid: 1
            }
        )
    );
    assert_eq!(
        kill_response(u32::MAX, KillOutcome::Missing),
        (
            404,
            KillResponse {
                success: false,
                message: "Process with PID 4294967295 not found".to_string(),
                pid: u32::MAX
            }
        )
    );
    assert_eq!(
        kill_response(0, KillOutcome::Missing).1.message,
        "Process with PID 0 not found"
    );
}
