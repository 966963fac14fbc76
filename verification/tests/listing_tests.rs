use ubuntu_resource_api::nginx::config::{format_nginx_config, render_nginx_config};
use ubuntu_resource_api::nginx::handlers::{
    format_nginx_extra_config, get_nginx_proxies, missing_directory_warning, summarize,
    unreadable_directory_error, SiteFile,
};
use ubuntu_resource_api::nginx::models::{FormatRequest, FormatResponse, NginxProxy};
use ubuntu_resource_api::text::{
    from_chars, split_lines, split_words, strip_trailing_char, to_chars, trim_chars,
};

fn chars(s: &str) -> Vec<char> {
    s.chars().collect()
}

#[test]
fn format_request_is_answered_with_text_or_complaint() {
    let ok = format_nginx_extra_config(&FormatRequest { config: "a {\nb;\n}".to_string() });
    assert_eq!(
        ok,
        FormatResponse { success: true, formatted: Some("a {\n    b;\n}".to_string()), error: None }
    );
    let bad = format_nginx_extra_config(&FormatRequest { config: "a {".to_string() });
    assert_eq!(
        bad,
        FormatResponse {
            success: false,
            formatted: None,
            error: Some(
                "Sintaksis xətası: Açılan və bağlanan mötərizələr uyğun gəlmir (açıq: 1, bağlı: 0)"
                    .to_string()
            ),
        }
    );
}

#[test]
fn summary_reads_domain_backend_and_tls() {
    let p = NginxProxy {
        name: "api".to_string(),
        domain: "api.example.com".to_string(),
        backend: "http://127.0.0.1:3000".to_string(),
        ssl: true,
        extra_config: Some("gzip on;".to_string()),
    };
    let text = render_nginx_config(&p, "2024-01-01 00:00:00");
    let expected = NginxProxy { extra_config: None, ..p };
    assert_eq!(summarize("api", &text), Some(expected));
}

#[test]
fn summary_falls_back_to_unknown() {
    let got = summarize("site", "listen 80;\nserver_name\n  proxy_pass   http://b;;; extra\n").unwrap();
    assert_eq!(got.domain, "unknown");
    assert_eq!(got.backend, "http://b");
    assert!(!got.ssl);
    assert_eq!(got.name, "site");
    assert_eq!(got.extra_config, None);

    let got = summarize("site", "").unwrap();
    assert_eq!(got.domain, "unknown");
    assert_eq!(got.backend, "unknown");
}

#[test]
fn summary_takes_the_first_matching_line() {
    let text = "# server_name commented;\nserver_name_x first.example;\nserver_name second.example;\n";
    assert_eq!(summarize("site", text).unwrap().domain, "first.example");
}

#[test]
fn samples_are_skipped() {
    assert_eq!(summarize("default", "server_name x;"), None);
    assert_eq!(summarize("my-example.conf", "server_name x;"), None);
    assert!(summarize("defaults", "server_name x;").is_some());
}

#[test]
fn listing_keeps_the_order_of_the_files() {
    let files = vec![
        SiteFile { name: "b".to_string(), content: "server_name b.example;".to_string() },
        SiteFile { name: "default".to_string(), content: "server_name _;".to_string() },
        SiteFile { name: "a".to_string(), content: "proxy_pass http://a;".to_string() },
    ];
    let proxies = get_nginx_proxies(&files);
    assert_eq!(proxies.len(), 2);
    assert_eq!(proxies[0].name, "b");
    assert_eq!(proxies[0].domain, "b.example");
    assert_eq!(proxies[1].name, "a");
    assert_eq!(proxies[1].backend, "http://a");
    assert_eq!(get_nginx_proxies(&Vec::new()), Vec::new());
}

#[test]
fn listing_messages() {
    assert_eq!(
        missing_directory_warning("/etc/nginx/sites-available"),
        "Nginx konfiqurasiya qovluğu tapılmadı: /etc/nginx/sites-available. Nginx quraşdırılıb?"
    );
    assert_eq!(
        unreadable_directory_error("Permission denied"),
        "Qovluq oxuna bilmədi: Permission denied. İcazə problemi ola bilər."
    );
}

#[test]
fn text_functions_agree_with_the_standard_library() {
    let samples = [
        "",
        "\n",
        "a",
        "a\n",
        "a\nb",
        "a\r\nb\r\n",
        "a\r",
        "\r\n",
        "\r",
        "a\n\nb\n\n",
        "  x  y\t z \n\u{a0}w\u{3000}",
        "foo\nbar\n\r\nbaz\r",
        " \u{2003}lead and trail\u{2028}",
        "tab\tseparated\twords",
        "semi;;;",
    ];
    for s in samples {
        let v = to_chars(s);
        assert_eq!(v, chars(s));
        assert_eq!(from_chars(&v), s);
        let lines: Vec<Vec<char>> = s.lines().map(chars).collect();
        assert_eq!(split_lines(&v), lines, "{:?}", s);
        assert_eq!(trim_chars(&v), chars(s.trim()), "{:?}", s);
        let words: Vec<Vec<char>> = s.split_whitespace().map(chars).collect();
        assert_eq!(split_words(&v), words, "{:?}", s);
        assert_eq!(strip_trailing_char(&v, ';'), chars(s.trim_end_matches(';')), "{:?}", s);
    }
}

#[test]
fn format_is_idempotent_on_samples() {
    let samples = [
        "",
        "server {\nlisten 80;\n}\n\n",
        "}\n}\na {\n{\nb\n",
        "\n\n  x {  \r\n\ty;\r\n}\r\n",
        "a {\n\n\n}\n   \n",
        "if ($x) {\nreturn 301;\n}",
    ];
    for s in samples {
        let once = format_nginx_config(s);
        assert_eq!(format_nginx_config(&once), once, "{:?}", s);
    }
}
