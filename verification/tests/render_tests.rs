use ubuntu_resource_api::nginx::config::{
    generate_nginx_config, render_nginx_config, validate_nginx_extra_config,
};
use ubuntu_resource_api::nginx::models::NginxProxy;

fn proxy(ssl: bool, extra: Option<&str>) -> NginxProxy {
    NginxProxy {
        name: "api".to_string(),
        domain: "api.example.com".to_string(),
        backend: "http://127.0.0.1:3000".to_string(),
        ssl,
        extra_config: extra.map(|e| e.to_string()),
    }
}

const FIXED: &str = "        proxy_http_version 1.1;
        proxy_set_header Upgrade $http_upgrade;
        proxy_set_header Connection 'upgrade';
        proxy_set_header Host $host;
        proxy_set_header X-Real-IP $remote_addr;
        proxy_set_header X-Forwarded-For $proxy_add_x_forwarded_for;
        proxy_set_header X-Forwarded-Proto $scheme;
        proxy_cache_bypass $http_upgrade;
        proxy_connect_timeout 60s;
        proxy_send_timeout 60s;
        proxy_read_timeout 60s;";

#[test]
fn render_plain_proxy_exactly() {
    let text = render_nginx_config(&proxy(false, None), "2024-01-02 03:04:05");
    let expected = format!(
        "# Nginx Reverse Proxy - api\n# Yaradılma: 2024-01-02 03:04:05\n# Backend: http://127.0.0.1:3000\n\nserver {{\n    listen 80;\n    listen [::]:80;\n    server_name api.example.com;\n\n    location / {{\n        proxy_pass http://127.0.0.1:3000;\n{}\n    }}\n}}\n",
        FIXED
    );
    assert_eq!(text, expected);
}

#[test]
fn render_tls_proxy_exactly() {
    let text = render_nginx_config(&proxy(true, None), "2024-01-02 03:04:05");
    let expected = format!(
        "# Nginx Reverse Proxy - api\n# Yaradılma: 2024-01-02 03:04:05\n# Backend: http://127.0.0.1:3000\n\nserver {{\n\n    listen 443 ssl http2;\n    listen [::]:443 ssl http2;\n    \n    # SSL sertifikatları (Let's Encrypt və ya özəl)\n    # ssl_certificate /etc/letsencrypt/live/api.example.com/fullchain.pem;\n    # ssl_certificate_key /etc/letsencrypt/live/api.example.com/privkey.pem;\n    \n    ssl_protocols TLSv1.2 TLSv1.3;\n    ssl_ciphers HIGH:!aNULL:!MD5;\n    ssl_prefer_server_ciphers on;\n    server_name api.example.com;\n\n    location / {{\n        proxy_pass http://127.0.0.1:3000;\n{}\n    }}\n}}\n",
        FIXED
    );
    assert_eq!(text, expected);
}

#[test]
fn render_ssl_flag_selects_the_listen_stanza() {
    let tls = render_nginx_config(&proxy(true, None), "t");
    assert!(tls.contains("listen 443 ssl http2"));
    assert!(!tls.contains("listen 80"));

    let plain = render_nginx_config(&proxy(false, None), "t");
    assert!(plain.contains("listen 80"));
    assert!(!plain.contains("listen 443 ssl http2"));
}

#[test]
fn render_places_location_blocks_at_server_level() {
    let extra = "location /ws {\n    proxy_pass http://127.0.0.1:4000;\n}";
    let text = render_nginx_config(&proxy(false, Some(extra)), "t");
    let tail = "        proxy_read_timeout 60s;\n    }\n    # Əlavə konfiqurasiya\n    location /ws {\n        proxy_pass http://127.0.0.1:4000;\n    }\n}\n";
    assert!(text.ends_with(tail), "{}", text);
}

#[test]
fn render_places_directives_inside_the_location_block() {
    let extra = "  client_max_body_size 10m;\r\ngzip on;\n";
    let text = render_nginx_config(&proxy(false, Some(extra)), "t");
    let tail = "        proxy_read_timeout 60s;\n        # Əlavə konfiqurasiya\n        client_max_body_size 10m;\n        gzip on;\n    }\n}\n";
    assert!(text.ends_with(tail), "{}", text);
}

#[test]
fn render_blank_extra_leaves_only_the_comment() {
    let text = render_nginx_config(&proxy(false, Some("   ")), "t");
    assert!(text.ends_with("proxy_read_timeout 60s;\n        # Əlavə konfiqurasiya\n\n    }\n}\n"));
}

#[test]
fn generate_differs_from_render_only_in_the_stamp() {
    let p = proxy(true, Some("gzip on;"));
    let generated = generate_nginx_config(&p);
    let lines: Vec<&str> = generated.lines().collect();
    let stamp = lines[1].strip_prefix("# Yaradılma: ").unwrap();
    assert_eq!(stamp.len(), 19);
    assert_eq!(generated, render_nginx_config(&p, stamp));
}

#[test]
fn validate_reports_brace_counts() {
    assert_eq!(
        validate_nginx_extra_config("a { b {"),
        Err("Sintaksis xətası: Açılan və bağlanan mötərizələr uyğun gəlmir (açıq: 2, bağlı: 0)"
            .to_string())
    );
    assert_eq!(validate_nginx_extra_config("a { b }"), Ok("a { b }".to_string()));
}

#[test]
fn validate_reports_the_first_unterminated_line() {
    assert_eq!(
        validate_nginx_extra_config("foo bar"),
        Err("Sətir 1: Direktiv nöqtəli vergüllə (;) bitməlidir: foo bar".to_string())
    );
    assert_eq!(
        validate_nginx_extra_config("gzip on;\n# note\n\n  a b  \nc d"),
        Err("Sətir 4: Direktiv nöqtəli vergüllə (;) bitməlidir: a b".to_string())
    );
    let mut many = String::new();
    for _ in 0..11 {
        many.push_str("gzip on;\n");
    }
    many.push_str("oops");
    assert_eq!(
        validate_nginx_extra_config(&many),
        Err("Sətir 12: Direktiv nöqtəli vergüllə (;) bitməlidir: oops".to_string())
    );
}

#[test]
fn validate_accepts_block_openers_and_comments() {
    assert_eq!(validate_nginx_extra_config("location /x"), Ok("location /x".to_string()));
    assert_eq!(validate_nginx_extra_config("server"), Ok("server".to_string()));
    assert_eq!(validate_nginx_extra_config("ifconfig"), Ok("ifconfig".to_string()));
    assert_eq!(validate_nginx_extra_config("# a comment"), Ok("# a comment".to_string()));
    assert_eq!(
        validate_nginx_extra_config("location /x {\nproxy_pass http://b;\n}"),
        Ok("location /x {\n    proxy_pass http://b;\n}".to_string())
    );
}
