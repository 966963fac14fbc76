use ubuntu_resource_api::config::AppConfig;

#[test]
fn test_with_defaults() {
    let config = AppConfig::with_defaults();

    assert_eq!(config.server.bind_address, "0.0.0.0:8080");
    assert_eq!(config.nginx.sites_available_path, "/etc/nginx/sites-available");
    assert_eq!(config.nginx.sites_enabled_path, "/etc/nginx/sites-enabled");
    assert_eq!(config.docker.socket_path, "unix:///var/run/docker.sock");
}

#[test]
fn test_from_env_with_defaults() {
    let config = AppConfig::from_settings(None, None, None, None).unwrap();

    assert_eq!(config.server.bind_address, "0.0.0.0:8080");
    assert_eq!(config.nginx.sites_available_path, "/etc/nginx/sites-available");
    assert_eq!(config.nginx.sites_enabled_path, "/etc/nginx/sites-enabled");
    assert_eq!(config.docker.socket_path, "unix:///var/run/docker.sock");
}

#[test]
fn test_from_env_with_custom_values() {
    let config = AppConfig::from_settings(
        Some("127.0.0.1:9000".to_string()),
        Some("/custom/nginx/available".to_string()),
        Some("/custom/nginx/enabled".to_string()),
        Some("tcp://localhost:2375".to_string()),
    )
    .unwrap();

    assert_eq!(config.server.bind_address, "127.0.0.1:9000");
    assert_eq!(config.nginx.sites_available_path, "/custom/nginx/available");
    assert_eq!(config.nginx.sites_enabled_path, "/custom/nginx/enabled");
    assert_eq!(config.docker.socket_path, "tcp://localhost:2375");
}

#[test]
fn settings_mix_given_values_and_defaults() {
    let config =
        AppConfig::from_settings(None, Some("/srv/sites".to_string()), None, None).unwrap();

    assert_eq!(config.server.bind_address, AppConfig::default_bind_address());
    assert_eq!(config.nginx.sites_available_path, "/srv/sites");
    assert_eq!(config.nginx.sites_enabled_path, AppConfig::default_nginx_sites_enabled());
    assert_eq!(config.docker.socket_path, AppConfig::default_docker_socket());
    assert_eq!(AppConfig::default_nginx_sites_available(), "/etc/nginx/sites-available");
}
