//! Where the server listens and where the services it manages keep their files.

use vstd::prelude::*;

verus! {

/// All settings of the application.
#[derive(Debug, Clone, PartialEq, Eq)]
pub struct AppConfig {
    pub server: ServerConfig,
    pub nginx: NginxConfig,
    pub docker: DockerConfig,
}

/// The address and port the server binds to.
#[derive(Debug, Clone, PartialEq, Eq)]
pub struct ServerConfig {
    pub bind_address: String,
}

/// The directory of the proxy's configuration files and the directory of the
/// links that enable them.
#[derive(Debug, Clone, PartialEq, Eq)]
pub struct NginxConfig {
    pub sites_available_path: String,
    pub sites_enabled_path: String,
}

/// The socket of the container engine.
#[derive(Debug, Clone, PartialEq, Eq)]
pub struct DockerConfig {
    pub socket_path: String,
}

/// The mathematical content of an `AppConfig`.
pub struct AppConfigView {
    pub bind_address: Seq<char>,
    pub sites_available_path: Seq<char>,
    pub sites_enabled_path: Seq<char>,
    pub socket_path: Seq<char>,
}

impl View for AppConfig {
    type V = AppConfigView;

    open spec fn view(&self) -> AppConfigView {
        AppConfigView {
            bind_address: self.server.bind_address@,
            sites_available_path: self.nginx.sites_available_path@,
            sites_enabled_path: self.nginx.sites_enabled_path@,
            socket_path: self.docker.socket_path@,
        }
    }
}

/// The settings used where nothing else is given.
pub open spec fn default_settings() -> AppConfigView {
    AppConfigView {
        bind_address: "0.0.0.0:8080"@,
        sites_available_path: "/etc/nginx/sites-available"@,
        sites_enabled_path: "/etc/nginx/sites-enabled"@,
        socket_path: "unix:///var/run/docker.sock"@,
    }
}

/// The given text, or `fallback` where none is given.
pub open spec fn or_default(given: Option<String>, fallback: Seq<char>) -> Seq<char> {
    match given {
        Some(s) => s@,
        None => fallback,
    }
}

impl AppConfig {
    /// The settings made of the four values given, each replaced by its
    /// default where it is absent. The caller reads the values from wherever
    /// the deployment keeps them; no combination of them is refused.
    pub fn from_settings(
        bind_address: Option<String>,
        sites_available_path: Option<String>,
        sites_enabled_path: Option<String>,
        socket_path: Option<String>,
    ) -> (r: Result<AppConfig, String>)
        ensures
            r is Ok,
            r->Ok_0@ == (AppConfigView {
                bind_address: or_default(bind_address, default_settings().bind_address),
                sites_available_path: or_default(
                    sites_available_path,
                    default_settings().sites_available_path,
                ),
                sites_enabled_path: or_default(
                    sites_enabled_path,
                    default_settings().sites_enabled_path,
                ),
                socket_path: or_default(socket_path, default_settings().socket_path),
            }),
    {
        let server = ServerConfig {
            bind_address: match bind_address {
                Some(s) => s,
                None => Self::default_bind_address(),
            },
        };
        let nginx = NginxConfig {
            sites_available_path: match sites_available_path {
                Some(s) => s,
                None => Self::default_nginx_sites_available(),
            },
            sites_enabled_path: match sites_enabled_path {
                Some(s) => s,
                None => Self::default_nginx_sites_enabled(),
            },
        };
        let docker = DockerConfig {
            socket_path: match socket_path {
                Some(s) => s,
                None => Self::default_docker_socket(),
            },
        };
        Ok(AppConfig { server, nginx, docker })
    }

    /// The default settings.
    pub fn with_defaults() -> (c: AppConfig)
        ensures
            c@ == default_settings(),
    {
        AppConfig {
            server: ServerConfig { bind_address: Self::default_bind_address() },
            nginx: NginxConfig {
                sites_available_path: Self::default_nginx_sites_available(),
                sites_enabled_path: Self::default_nginx_sites_enabled(),
            },
            docker: DockerConfig { socket_path: Self::default_docker_socket() },
        }
    }

    pub fn default_bind_address() -> (s: String)
        ensures
            s@ == default_settings().bind_address,
    {
        "0.0.0.0:8080".to_string()
    }

    pub fn default_nginx_sites_available() -> (s: String)
        ensures
            s@ == default_settings().sites_available_path,
    {
        "/etc/nginx/sites-available".to_string()
    }

    pub fn default_nginx_sites_enabled() -> (s: String)
        ensures
            s@ == default_settings().sites_enabled_path,
    {
        "/etc/nginx/sites-enabled".to_string()
    }

    pub fn default_docker_socket() -> (s: String)
        ensures
            s@ == default_settings().socket_path,
    {
        "unix:///var/run/docker.sock".to_string()
    }
}

} // verus!
