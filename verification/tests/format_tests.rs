use ubuntu_resource_api::nginx::config::format_nginx_config;
use ubuntu_resource_api::text::char_is_space;

#[test]
fn format_indents_by_brace_depth() {
    let text = "server {\nlisten 80;\n  location / {\nproxy_pass http://x;\n}\n}";
    assert_eq!(
        format_nginx_config(text),
        "server {\n    listen 80;\n    location / {\n        proxy_pass http://x;\n    }\n}"
    );
}

#[test]
fn format_keeps_blank_lines_and_drops_trailing_space() {
    assert_eq!(format_nginx_config("a;\n\n   \nb;\n\n\n"), "a;\n\n\nb;");
    assert_eq!(format_nginx_config(""), "");
    assert_eq!(format_nginx_config("\n\n"), "");
    assert_eq!(format_nginx_config("\n\nfoo"), "\n\nfoo");
}

#[test]
fn format_depth_stops_at_zero() {
    assert_eq!(format_nginx_config("}\na {\nb;\n}"), "}\na {\n    b;\n}");
}

#[test]
fn white_space_agrees_with_the_standard_predicate() {
    let mut code: u32 = 0;
    while code <= 0x10FFFF {
        if let Some(c) = char::from_u32(code) {
            assert_eq!(char_is_space(c), c.is_whitespace(), "U+{:04X}", code);
        }
        code += 1;
    }
}
