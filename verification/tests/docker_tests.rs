use ubuntu_resource_api::docker::handlers::{
    collect_logs, connection_failure, container_name, container_summary, format_ports,
    image_summary, logs_unavailable, needs_stats, network_summary, operation_response,
    volume_summary, Operation,
};
use ubuntu_resource_api::docker::models::{DockerResponse, PortMapping};

#[test]
fn container_name_drops_leading_slashes() {
    assert_eq!(container_name(&Some(vec!["/web".to_string(), "/alias".to_string()])), "web");
    assert_eq!(container_name(&Some(vec!["//a/b".to_string()])), "a/b");
    assert_eq!(container_name(&Some(vec!["plain".to_string()])), "plain");
    assert_eq!(container_name(&Some(vec!["/".to_string()])), "");
    assert_eq!(container_name(&Some(Vec::new())), "unknown");
    assert_eq!(container_name(&None), "unknown");
}

#[test]
fn ports_list_only_published_ones() {
    let ports = vec![
        PortMapping { public_port: Some(8080), private_port: 80 },
        PortMapping { public_port: None, private_port: 443 },
        PortMapping { public_port: Some(65535), private_port: 0 },
    ];
    assert_eq!(format_ports(&ports), "8080:80, 65535:0");
    assert_eq!(format_ports(&Vec::new()), "");
    assert_eq!(format_ports(&vec![PortMapping { public_port: None, private_port: 1 }]), "");
}

#[test]
fn stats_are_asked_of_running_containers_only() {
    assert!(needs_stats("running"));
    assert!(!needs_stats("exited"));
    assert!(!needs_stats("Running"));
    assert!(!needs_stats(""));
}

#[test]
fn container_summary_fills_what_is_missing() {
    let c = container_summary(
        Some("abc".to_string()),
        &Some(vec!["/db".to_string()]),
        None,
        Some("running".to_string()),
        None,
        &Some(vec![PortMapping { public_port: Some(5432), private_port: 5432 }]),
        None,
    );
    assert_eq!(c.id, "abc");
    assert_eq!(c.name, "db");
    assert_eq!(c.image, "");
    assert_eq!(c.state, "running");
    assert_eq!(c.status, "");
    assert_eq!(c.ports, "5432:5432");
    assert_eq!(c.created, 0);

    let c = container_summary(None, &None, None, None, None, &None, Some(17));
    assert_eq!(c.name, "unknown");
    assert_eq!(c.ports, "");
    assert_eq!(c.created, 17);
}

#[test]
fn image_reference_is_split_at_colons() {
    let img = image_summary("sha256:1".to_string(), &vec!["nginx:1.25".to_string()], 10, 20);
    assert_eq!(img.id, "sha256:1");
    assert_eq!(img.repository, "nginx");
    assert_eq!(img.tag, "1.25");
    assert_eq!(img.size, 10);
    assert_eq!(img.created, 20);

    let img = image_summary("x".to_string(), &Vec::new(), 0, 0);
    assert_eq!(img.repository, "<none>");
    assert_eq!(img.tag, "<none>");

    let img = image_summary("x".to_string(), &vec!["busybox".to_string()], 0, 0);
    assert_eq!(img.repository, "busybox");
    assert_eq!(img.tag, "<none>");

    let img =
        image_summary("x".to_string(), &vec!["localhost:5000/app:v2".to_string()], 0, 0);
    assert_eq!(img.repository, "localhost");
    assert_eq!(img.tag, "5000/app");

    let img = image_summary("x".to_string(), &vec!["app:".to_string()], 0, 0);
    assert_eq!(img.repository, "app");
    assert_eq!(img.tag, "");
}

#[test]
fn volumes_and_networks_are_shown_as_told() {
    let v = volume_summary("data".to_string(), "local".to_string(), "/var/lib".to_string());
    assert_eq!(v.name, "data");
    assert_eq!(v.driver, "local");
    assert_eq!(v.mountpoint, "/var/lib");
    assert_eq!(v.created, None);

    let n = network_summary(
        Some("id".to_string()),
        None,
        Some("bridge".to_string()),
        None,
        vec![Some("172.17.0.0/16".to_string()), Some("10.0.0.0/8".to_string())],
    );
    assert_eq!(n.id, "id");
    assert_eq!(n.name, "");
    assert_eq!(n.driver, "bridge");
    assert_eq!(n.scope, "");
    assert_eq!(n.subnet, Some("172.17.0.0/16".to_string()));

    let n = network_summary(None, None, None, None, vec![None, Some("10.0.0.0/8".to_string())]);
    assert_eq!(n.subnet, None);
    let n = network_summary(None, None, None, None, Vec::new());
    assert_eq!(n.subnet, None);
}

#[test]
fn operations_answer_with_status_and_message() {
    let cases = [
        (Operation::StartContainer, "✅ Container started successfully", "Failed to start container: "),
        (Operation::StopContainer, "✅ Container stopped successfully", "Failed to stop container: "),
        (Operation::RestartContainer, "✅ Container restarted successfully", "Failed to restart container: "),
        (Operation::RemoveContainer, "✅ Container removed successfully", "Failed to remove container: "),
        (Operation::RemoveImage, "✅ Image removed successfully", "Failed to remove image: "),
        (Operation::RemoveVolume, "✅ Volume removed successfully", "Failed to remove volume: "),
        (Operation::RemoveNetwork, "✅ Network removed successfully", "Failed to remove network: "),
    ];
    for (op, good, bad) in cases {
        assert_eq!(
            operation_response(op, Ok(())),
            (200, DockerResponse { success: true, message: good.to_string() })
        );
        assert_eq!(
            operation_response(op, Err("no such object".to_string())),
            (500, DockerResponse { success: false, message: format!("{}no such object", bad) })
        );
    }
    assert_eq!(
        connection_failure("refused"),
        (
            500,
            DockerResponse {
                success: false,
                message: "Docker connection failed: refused. Is Docker running?".to_string()
            }
        )
    );
}

#[test]
fn logs_stop_at_the_first_unreadable_piece() {
    let chunks = vec![
        Ok("one\n".to_string()),
        Ok("two\n".to_string()),
        Err("broken pipe".to_string()),
        Ok("three\n".to_string()),
    ];
    assert_eq!(collect_logs(&chunks).logs, "one\ntwo\n");
    assert_eq!(collect_logs(&Vec::new()).logs, "");
    assert_eq!(collect_logs(&vec![Ok("a".to_string()), Ok("b".to_string())]).logs, "ab");
    assert_eq!(logs_unavailable("refused").logs, "Error: refused");
}
