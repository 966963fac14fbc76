use std::collections::BTreeMap;

use ubuntu_resource_api::config::NginxConfig;
use ubuntu_resource_api::error::AppError;
use ubuntu_resource_api::nginx::config::render_nginx_config;
use ubuntu_resource_api::nginx::handlers::{
    create_nginx_proxy, delete_nginx_proxy, respond, update_nginx_proxy,
};
use ubuntu_resource_api::nginx::lifecycle::{
    begin_create, begin_remove, begin_update, is_safe_segment, settle, Action, Event, Step,
};
use ubuntu_resource_api::nginx::models::NginxProxy;

const AVAILABLE: &str = "/etc/nginx/sites-available";
const ENABLED: &str = "/etc/nginx/sites-enabled";
const STAMP: &str = "2024-05-06 07:08:09";

#[derive(Debug, Clone, PartialEq, Eq)]
enum Node {
    File(String),
    Link(String),
    Directory,
}

/// A host in memory. Actions whose description is listed in `broken` fail.
struct Host {
    nodes: BTreeMap<String, Node>,
    validator: Event,
    reload: Event,
    broken: Vec<String>,
    log: Vec<String>,
}

fn describe(action: &Action) -> String {
    match action {
        Action::Probe { path } => format!("probe {}", path),
        Action::Copy { from, to } => format!("copy {} {}", from, to),
        Action::Write { path, .. } => format!("write {}", path),
        Action::Remove { path } => format!("remove {}", path),
        Action::Link { target, link } => format!("link {} {}", target, link),
        Action::Validate => "validate".to_string(),
        Action::Reload => "reload".to_string(),
    }
}

impl Host {
    fn new() -> Host {
        let mut nodes = BTreeMap::new();
        nodes.insert(AVAILABLE.to_string(), Node::Directory);
        nodes.insert(ENABLED.to_string(), Node::Directory);
        Host {
            nodes,
            validator: Event::Succeeded,
            reload: Event::Succeeded,
            broken: Vec::new(),
            log: Vec::new(),
        }
    }

    fn with_file(mut self, path: &str, content: &str) -> Host {
        self.nodes.insert(path.to_string(), Node::File(content.to_string()));
        self
    }

    fn with_link(mut self, link: &str, target: &str) -> Host {
        self.nodes.insert(link.to_string(), Node::Link(target.to_string()));
        self
    }

    fn breaking(mut self, what: &str) -> Host {
        self.broken.push(what.to_string());
        self
    }

    fn perform(&mut self, action: &Action) -> Event {
        let what = describe(action);
        self.log.push(what.clone());
        if let Action::Probe { path } = action {
            return if self.nodes.contains_key(path) {
                Event::Succeeded
            } else {
                Event::Refused(String::new())
            };
        }
        if self.broken.contains(&what) {
            return Event::Failed(format!("cannot {}", what));
        }
        match action {
            Action::Copy { from, to } => match self.nodes.get(from).cloned() {
                Some(node) => {
                    self.nodes.insert(to.clone(), node);
                    Event::Succeeded
                }
                None => Event::Failed("no such file".to_string()),
            },
            Action::Write { path, content } => {
                self.nodes.insert(path.clone(), Node::File(content.clone()));
                Event::Succeeded
            }
            Action::Remove { path } => match self.nodes.remove(path) {
                Some(_) => Event::Succeeded,
                None => Event::Failed("no such file".to_string()),
            },
            Action::Link { target, link } => {
                self.nodes.insert(link.clone(), Node::Link(target.clone()));
                Event::Succeeded
            }
            Action::Validate => self.validator.clone(),
            Action::Reload => self.reload.clone(),
            Action::Probe { .. } => unreachable!(),
        }
    }

    fn run(&mut self, first: Step) -> Result<String, AppError> {
        let mut step = first;
        let mut actions = 0;
        loop {
            match step {
                Step::Finish(verdict) => return verdict,
                Step::Perform(action, machine) => {
                    actions += 1;
                    assert!(actions <= 12, "the request does not end: {:?}", self.log);
                    let event = self.perform(&action);
                    step = machine.advance(event);
                }
            }
        }
    }

    fn file(&self, path: &str) -> Option<String> {
        match self.nodes.get(path) {
            Some(Node::File(content)) => Some(content.clone()),
            _ => None,
        }
    }

    fn has(&self, path: &str) -> bool {
        self.nodes.contains_key(path)
    }
}

fn cfg() -> NginxConfig {
    NginxConfig {
        sites_available_path: AVAILABLE.to_string(),
        sites_enabled_path: ENABLED.to_string(),
    }
}

fn proxy(name: &str) -> NginxProxy {
    NginxProxy {
        name: name.to_string(),
        domain: "api.example.com".to_string(),
        backend: "http://127.0.0.1:3000".to_string(),
        ssl: false,
        extra_config: None,
    }
}

fn config_path(name: &str) -> String {
    format!("{}/{}", AVAILABLE, name)
}

fn link_path(name: &str) -> String {
    format!("{}/{}", ENABLED, name)
}

fn backup_path(name: &str) -> String {
    format!("{}/{}.backup", AVAILABLE, name)
}

#[test]
fn rejected_upsert_restores_the_committed_config() {
    let old = "server { listen 80; server_name old.example.com; }\n";
    let mut host = Host::new()
        .with_file(&config_path("api"), old)
        .with_link(&link_path("api"), &config_path("api"));
    host.validator = Event::Refused("nginx: [emerg] unexpected \"}\"".to_string());

    let verdict = host.run(begin_create(&cfg(), proxy("api"), STAMP));

    assert_eq!(
        verdict,
        Err(AppError::ValidationError(
            "❌ Nginx konfiqurasiya xətası: nginx: [emerg] unexpected \"}\"\n\n✅ Əvvəlki konfiqurasiya bərpa edildi."
                .to_string()
        ))
    );
    assert_eq!(host.file(&config_path("api")), Some(old.to_string()));
    assert!(!host.has(&backup_path("api")));
    assert_eq!(
        host.log,
        vec![
            format!("probe {}", AVAILABLE),
            format!("probe {}", config_path("api")),
            format!("copy {} {}", config_path("api"), backup_path("api")),
            format!("write {}", config_path("api")),
            format!("probe {}", link_path("api")),
            format!("remove {}", link_path("api")),
            format!("link {} {}", config_path("api"), link_path("api")),
            "validate".to_string(),
            format!("copy {} {}", backup_path("api"), config_path("api")),
            format!("remove {}", backup_path("api")),
        ]
    );
}

#[test]
fn rejected_update_restores_the_committed_config() {
    let old = "old text";
    let mut host = Host::new()
        .with_file(&config_path("api"), old)
        .with_link(&link_path("api"), &config_path("api"));
    host.validator = Event::Refused("bad".to_string());

    let verdict = host.run(begin_update(&cfg(), "api", proxy("api"), STAMP));

    assert_eq!(
        verdict,
        Err(AppError::ValidationError(
            "❌ Nginx konfiqurasiya xətası: bad\n\n✅ Əvvəlki konfiqurasiya bərpa edildi."
                .to_string()
        ))
    );
    assert_eq!(host.file(&config_path("api")), Some(old.to_string()));
    assert!(!host.has(&backup_path("api")));
    assert_eq!(
        host.log,
        vec![
            format!("probe {}", AVAILABLE),
            format!("probe {}", config_path("api")),
            format!("copy {} {}", config_path("api"), backup_path("api")),
            format!("write {}", config_path("api")),
            format!("probe {}", link_path("api")),
            "validate".to_string(),
            format!("copy {} {}", backup_path("api"), config_path("api")),
            format!("remove {}", backup_path("api")),
        ]
    );
}

#[test]
fn rejected_new_config_is_cleaned_up() {
    let mut host = Host::new();
    host.validator = Event::Refused("bad".to_string());

    let verdict = host.run(begin_create(&cfg(), proxy("fresh"), STAMP));

    assert_eq!(
        verdict,
        Err(AppError::ValidationError(
            "❌ Nginx konfiqurasiya xətası: bad\n\nYanlış konfiqurasiya silindi.".to_string()
        ))
    );
    assert!(!host.has(&config_path("fresh")));
    assert!(!host.has(&link_path("fresh")));
    assert!(!host.has(&backup_path("fresh")));
}

#[test]
fn failed_reload_does_not_roll_back() {
    let mut host = Host::new();
    host.reload = Event::Refused("Failed to reload nginx.service".to_string());
    let p = proxy("api");
    let text = render_nginx_config(&p, STAMP);

    let verdict = host.run(begin_create(&cfg(), p, STAMP));

    assert_eq!(
        verdict,
        Err(AppError::NginxError(
            "Nginx reload edilə bilmədi: Failed to reload nginx.service. Systemctl icazəsi lazımdır."
                .to_string()
        ))
    );
    assert_eq!(host.file(&config_path("api")), Some(text));
    assert_eq!(host.nodes.get(&link_path("api")), Some(&Node::Link(config_path("api"))));
}

#[test]
fn failed_reload_after_update_keeps_the_new_config() {
    let mut host = Host::new().with_file(&config_path("api"), "old");
    host.reload = Event::Failed("No such file or directory".to_string());
    let p = proxy("api");
    let text = render_nginx_config(&p, STAMP);

    let verdict = host.run(begin_update(&cfg(), "api", p, STAMP));

    assert_eq!(
        verdict,
        Err(AppError::NginxError(
            "Systemctl çalışdırıla bilmədi: No such file or directory".to_string()
        ))
    );
    assert_eq!(host.file(&config_path("api")), Some(text));
    assert_eq!(host.nodes.get(&link_path("api")), Some(&Node::Link(config_path("api"))));
    assert!(!host.has(&backup_path("api")));
}

#[test]
fn accepted_creation_succeeds() {
    let mut host = Host::new();
    let mut p = proxy("shop");
    p.extra_config = Some("gzip on;\n  client_max_body_size 10m;".to_string());
    let mut written = p.clone();
    written.extra_config = Some("gzip on;\nclient_max_body_size 10m;".to_string());

    let verdict = host.run(begin_create(&cfg(), p, STAMP));

    assert_eq!(
        verdict,
        Ok("✅ api.example.com proxy konfiqurasiyası yaradıldı və aktiv edildi".to_string())
    );
    assert_eq!(host.file(&config_path("shop")), Some(render_nginx_config(&written, STAMP)));
    assert_eq!(host.nodes.get(&link_path("shop")), Some(&Node::Link(config_path("shop"))));
    assert_eq!(
        host.log,
        vec![
            format!("probe {}", AVAILABLE),
            format!("probe {}", config_path("shop")),
            format!("write {}", config_path("shop")),
            format!("probe {}", link_path("shop")),
            format!("link {} {}", config_path("shop"), link_path("shop")),
            "validate".to_string(),
            "reload".to_string(),
        ]
    );
}

#[test]
fn accepted_update_succeeds_and_drops_the_backup() {
    let mut host = Host::new().with_file(&config_path("api"), "old");

    let verdict = host.run(begin_update(&cfg(), "api", proxy("api"), STAMP));

    assert_eq!(verdict, Ok("✅ api.example.com proxy konfiqurasiyası yeniləndi".to_string()));
    assert_eq!(host.file(&config_path("api")), Some(render_nginx_config(&proxy("api"), STAMP)));
    assert!(host.has(&link_path("api")));
    assert!(!host.has(&backup_path("api")));
}

#[test]
fn refused_fragment_ends_before_any_action() {
    let mut p = proxy("api");
    p.extra_config = Some("proxy_buffering off".to_string());
    let step = begin_create(&cfg(), p.clone(), STAMP);
    assert_eq!(
        step,
        Step::Finish(Err(AppError::ValidationError(
            "❌ Əlavə konfiqurasiya xətası: Sətir 1: Direktiv nöqtəli vergüllə (;) bitməlidir: proxy_buffering off"
                .to_string()
        )))
    );
    let step = begin_update(&cfg(), "api", p, STAMP);
    assert!(matches!(step, Step::Finish(Err(AppError::ValidationError(_)))));

    let mut q = proxy("api");
    q.extra_config = Some("location / {".to_string());
    assert_eq!(
        begin_create(&cfg(), q, STAMP),
        Step::Finish(Err(AppError::ValidationError(
            "❌ Əlavə konfiqurasiya xətası: Sintaksis xətası: Açılan və bağlanan mötərizələr uyğun gəlmir (açıq: 1, bağlı: 0)"
                .to_string()
        )))
    );
}

#[test]
fn blank_fragment_is_not_checked() {
    let mut p = proxy("api");
    p.extra_config = Some("  \n ".to_string());
    assert_eq!(settle(p.clone()), Ok(p));
}

#[test]
fn unusable_definitions_are_refused() {
    for name in ["", ".", "..", "a/b", "../x", "a\\b", "a\0b"] {
        assert!(!is_safe_segment(name), "{:?}", name);
        assert_eq!(
            begin_create(&cfg(), proxy(name), STAMP),
            Step::Finish(Err(AppError::ValidationError("❌ Proxy adı yanlışdır".to_string())))
        );
        assert_eq!(
            begin_remove(&cfg(), name),
            Step::Finish(Err(AppError::ValidationError("❌ Proxy adı yanlışdır".to_string())))
        );
    }
    for name in ["api", "my-site.conf", "...", ".hidden", "a b"] {
        assert!(is_safe_segment(name), "{:?}", name);
    }
    let mut p = proxy("api");
    p.domain = String::new();
    assert!(!p.is_well_formed());
    assert_eq!(settle(p), Err("❌ Domain boş ola bilməz".to_string()));
    let mut p = proxy("api");
    p.backend = String::new();
    assert_eq!(settle(p), Err("❌ Backend boş ola bilməz".to_string()));
    assert!(proxy("api").is_well_formed());
}

#[test]
fn missing_directory_is_a_configuration_error() {
    let mut host = Host::new();
    host.nodes.remove(AVAILABLE);

    let verdict = host.run(begin_create(&cfg(), proxy("api"), STAMP));

    assert_eq!(
        verdict,
        Err(AppError::ConfigError(
            "Nginx qovluğu tapılmadı: /etc/nginx/sites-available. Nginx quraşdırılıb?".to_string()
        ))
    );
    assert_eq!(host.log, vec![format!("probe {}", AVAILABLE)]);

    let mut host = Host::new();
    host.nodes.remove(AVAILABLE);
    let verdict = host.run(begin_update(&cfg(), "api", proxy("api"), STAMP));
    assert_eq!(
        verdict,
        Err(AppError::ConfigError(
            "Nginx qovluğu tapılmadı: /etc/nginx/sites-available. Nginx quraşdırılıb?".to_string()
        ))
    );
    assert_eq!(host.log, vec![format!("probe {}", AVAILABLE)]);
}

#[test]
fn update_needs_an_existing_config_under_the_same_name() {
    let mut host = Host::new();
    let verdict = host.run(begin_update(&cfg(), "api", proxy("api"), STAMP));
    assert_eq!(verdict, Err(AppError::NotFound("Konfiqurasiya tapılmadı: api".to_string())));
    assert!(!host.has(&config_path("api")));

    let step = begin_update(&cfg(), "other", proxy("api"), STAMP);
    assert_eq!(
        step,
        Step::Finish(Err(AppError::ValidationError(
            "URL-dəki ad və body-dəki ad uyğun gəlmir".to_string()
        )))
    );
}

#[test]
fn failed_backup_stops_before_the_write() {
    let copy = format!("copy {} {}", config_path("api"), backup_path("api"));
    let mut host = Host::new().with_file(&config_path("api"), "old").breaking(&copy);

    let verdict = host.run(begin_create(&cfg(), proxy("api"), STAMP));

    assert_eq!(
        verdict,
        Err(AppError::NginxError(format!(
            "Mövcud konfiqurasiya yedəklənə bilmədi: cannot {}. Dəyişiklik təhlükəlidir.",
            copy
        )))
    );
    assert_eq!(host.file(&config_path("api")), Some("old".to_string()));

    let mut host = Host::new().with_file(&config_path("api"), "old").breaking(&copy);
    let verdict = host.run(begin_update(&cfg(), "api", proxy("api"), STAMP));
    assert_eq!(
        verdict,
        Err(AppError::NginxError(format!("Yedək yaradıla bilmədi: cannot {}", copy)))
    );
}

#[test]
fn failed_link_rolls_back_and_says_so() {
    let link = format!("link {} {}", config_path("api"), link_path("api"));
    let mut host = Host::new().with_file(&config_path("api"), "old").breaking(&link);

    let verdict = host.run(begin_create(&cfg(), proxy("api"), STAMP));

    assert_eq!(
        verdict,
        Err(AppError::NginxError(format!(
            "Symlink yaradıla bilmədi: cannot {}. Root icazəsi lazımdır.\n\n✅ Əvvəlki konfiqurasiya bərpa edildi.",
            link
        )))
    );
    assert_eq!(host.file(&config_path("api")), Some("old".to_string()));
    assert!(!host.has(&backup_path("api")));
}

#[test]
fn failed_write_without_backup_ends_with_the_failure() {
    let write = format!("write {}", config_path("api"));
    let mut host = Host::new().breaking(&write);

    let verdict = host.run(begin_create(&cfg(), proxy("api"), STAMP));

    assert_eq!(
        verdict,
        Err(AppError::NginxError(format!(
            "Fayl yazıla bilmədi: cannot {}. Root icazəsi lazımdır. Container root olaraq çalışmalıdır.",
            write
        )))
    );
    assert!(!host.has(&config_path("api")));
}

#[test]
fn validator_that_cannot_run_rolls_back() {
    let mut host = Host::new().with_file(&config_path("api"), "old");
    host.validator = Event::Failed("No such file or directory".to_string());

    let verdict = host.run(begin_update(&cfg(), "api", proxy("api"), STAMP));

    assert_eq!(
        verdict,
        Err(AppError::NginxError(
            "Nginx test edilə bilmədi: No such file or directory\n\n✅ Əvvəlki konfiqurasiya bərpa edildi."
                .to_string()
        ))
    );
    assert_eq!(host.file(&config_path("api")), Some("old".to_string()));
    assert!(!host.has(&backup_path("api")));
}

#[test]
fn failed_restore_names_both_failures_and_keeps_the_backup() {
    let restore = format!("copy {} {}", backup_path("api"), config_path("api"));
    let mut host = Host::new().with_file(&config_path("api"), "old").breaking(&restore);
    host.validator = Event::Refused("bad".to_string());

    let verdict = host.run(begin_create(&cfg(), proxy("api"), STAMP));

    assert_eq!(
        verdict,
        Err(AppError::NginxError(format!(
            "❌ Nginx xətası: bad\n❌ Yedək bərpa edilə bilmədi: cannot {}",
            restore
        )))
    );
    assert_eq!(host.file(&backup_path("api")), Some("old".to_string()));
}

#[test]
fn removal_takes_link_and_config_away() {
    let mut host = Host::new()
        .with_file(&config_path("api"), "text")
        .with_link(&link_path("api"), &config_path("api"));

    let verdict = host.run(begin_remove(&cfg(), "api"));

    assert_eq!(verdict, Ok("✅ api proxy konfiqurasiyası silindi".to_string()));
    assert!(!host.has(&config_path("api")));
    assert!(!host.has(&link_path("api")));
    assert_eq!(
        host.log,
        vec![
            format!("probe {}", link_path("api")),
            format!("remove {}", link_path("api")),
            format!("remove {}", config_path("api")),
            "reload".to_string(),
        ]
    );
}

#[test]
fn removal_reports_a_failed_reload_as_advice() {
    let mut host = Host::new().with_file(&config_path("api"), "text");
    host.reload = Event::Failed("no systemctl".to_string());
    let verdict = host.run(delete_nginx_proxy(&cfg(), "api"));
    assert_eq!(verdict, Ok("✅ api silindi (nginx reload edilmədi: no systemctl)".to_string()));
    assert!(!host.has(&config_path("api")));

    let mut host = Host::new().with_file(&config_path("api"), "text");
    host.reload = Event::Refused("failed".to_string());
    let verdict = host.run(delete_nginx_proxy(&cfg(), "api"));
    assert_eq!(verdict, Ok("✅ api proxy konfiqurasiyası silindi".to_string()));
}

#[test]
fn removal_fails_fast() {
    let unlink = format!("remove {}", link_path("api"));
    let mut host = Host::new()
        .with_file(&config_path("api"), "text")
        .with_link(&link_path("api"), &config_path("api"))
        .breaking(&unlink);
    let verdict = host.run(begin_remove(&cfg(), "api"));
    assert_eq!(
        verdict,
        Err(AppError::NginxError(format!(
            "Enabled link silinə bilmədi: cannot {}. Root icazəsi lazımdır.",
            unlink
        )))
    );
    assert!(host.has(&config_path("api")));

    let mut host = Host::new();
    let verdict = host.run(begin_remove(&cfg(), "api"));
    assert_eq!(
        verdict,
        Err(AppError::NginxError("Silinə bilmədi: no such file. Root icazəsi lazımdır.".to_string()))
    );
}

#[test]
fn stamped_requests_run_like_the_others() {
    let mut host = Host::new();
    let verdict = host.run(create_nginx_proxy(&cfg(), proxy("api")));
    assert!(verdict.is_ok());
    let written = host.file(&config_path("api")).unwrap();
    let stamp = written.lines().nth(1).unwrap().strip_prefix("# Yaradılma: ").unwrap().to_string();
    assert_eq!(written, render_nginx_config(&proxy("api"), &stamp));

    let verdict = host.run(update_nginx_proxy(&cfg(), "api", proxy("api")));
    assert_eq!(verdict, Ok("✅ api.example.com proxy konfiqurasiyası yeniləndi".to_string()));
    assert!(!host.has(&backup_path("api")));

    assert_eq!(
        update_nginx_proxy(&cfg(), "web", proxy("api")),
        Step::Finish(Err(AppError::ValidationError(
            "URL-dəki ad və body-dəki ad uyğun gəlmir".to_string()
        )))
    );
}

#[test]
fn verdicts_become_status_and_body() {
    let (status, body) = respond(Ok("done".to_string()));
    assert_eq!(status, 200);
    assert!(body.success);
    assert_eq!(body.message, "done");

    let (status, body) = respond(Err(AppError::ValidationError("bad".to_string())));
    assert_eq!(status, 400);
    assert!(!body.success);
    assert_eq!(body.message, "bad");

    let (status, _) = respond(Err(AppError::NotFound("none".to_string())));
    assert_eq!(status, 404);
    let (status, _) = respond(Err(AppError::NginxError("x".to_string())));
    assert_eq!(status, 500);
    let (status, _) = respond(Err(AppError::ConfigError("x".to_string())));
    assert_eq!(status, 500);
}

#[test]
fn nothing_is_lost_whatever_fails() {
    let config = config_path("api");
    let backup = backup_path("api");
    let link = link_path("api");
    let breakable = [
        format!("copy {} {}", config, backup),
        format!("write {}", config),
        format!("remove {}", link),
        format!("link {} {}", config, link),
        format!("copy {} {}", backup, config),
        format!("remove {}", backup),
        format!("remove {}", config),
    ];
    let answers = [
        Event::Succeeded,
        Event::Refused("refused".to_string()),
        Event::Failed("failed".to_string()),
    ];
    let new_text = render_nginx_config(&proxy("api"), STAMP);
    let mut runs = 0;
    for updating in [false, true] {
        for linked in [false, true] {
            for mask in 0..(1u32 << breakable.len()) {
                for validator in &answers {
                    for reload in &answers {
                        let mut host = Host::new().with_file(&config, "old");
                        if linked {
                            host = host.with_link(&link, &config);
                        }
                        for (i, what) in breakable.iter().enumerate() {
                            if mask & (1 << i) != 0 {
                                host = host.breaking(what);
                            }
                        }
                        host.validator = validator.clone();
                        host.reload = reload.clone();
                        let first = if updating {
                            begin_update(&cfg(), "api", proxy("api"), STAMP)
                        } else {
                            begin_create(&cfg(), proxy("api"), STAMP)
                        };
                        let verdict = host.run(first);
                        runs += 1;

                        let kept = host.file(&config) == Some("old".to_string());
                        let replaced = host.file(&config) == Some(new_text.clone())
                            && *validator == Event::Succeeded;
                        let saved = host.file(&backup) == Some("old".to_string());
                        assert!(kept || replaced || saved, "{:?}", host.log);
                        if host.has(&backup) {
                            assert!(
                                host.broken.contains(&breakable[4])
                                    || host.broken.contains(&breakable[5]),
                                "{:?}",
                                host.log
                            );
                        }
                        if verdict.is_ok() {
                            assert!(replaced && host.has(&link), "{:?}", host.log);
                            assert_eq!(*reload, Event::Succeeded);
                        }
                    }
                }
            }
        }
    }
    assert_eq!(runs, 2 * 2 * 128 * 9);
}
