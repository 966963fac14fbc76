//! The text of a proxy configuration: how a fragment is laid out and checked,
//! and how a whole configuration is written from a proxy definition.

use vstd::prelude::*;
use crate::nginx::models::{NginxProxy, ProxyView};
use crate::text::{
    char_is_space, contains, count, count_char, decimal, from_chars, has_prefix, has_substring,
    lines, padded_block, push_all, push_decimal, push_str, rows_view, spaces, split_lines,
    to_chars, trim, trim_chars, trim_end,
};

verus! {

/// The line is not blank and begins with a closing brace.
pub open spec fn closes_block(t: Seq<char>) -> bool {
    t.len() > 0 && t.first() == '}'
}

/// The line is not blank and ends with an opening brace.
pub open spec fn opens_block(t: Seq<char>) -> bool {
    t.len() > 0 && t.last() == '{'
}

/// The depth at which the trimmed line `t` is written when the depth before
/// it is `depth`: a closing brace at its start takes one level off, down to zero.
pub open spec fn line_level(depth: nat, t: Seq<char>) -> nat {
    if closes_block(t) && depth > 0 {
        (depth - 1) as nat
    } else {
        depth
    }
}

/// The depth after the trimmed line `t`: an opening brace at its end adds a
/// level to the depth at which the line was written. A blank line changes nothing.
pub open spec fn depth_behind(depth: nat, t: Seq<char>) -> nat {
    if t.len() == 0 {
        depth
    } else if opens_block(t) {
        line_level(depth, t) + 1
    } else {
        line_level(depth, t)
    }
}

/// The brace depth after the trimmed lines `ts`, starting from zero.
pub open spec fn depth_after(ts: Seq<Seq<char>>) -> nat
    decreases ts.len(),
{
    if ts.len() == 0 {
        0
    } else {
        depth_behind(depth_after(ts.drop_last()), ts.last())
    }
}

/// The trimmed line `t`, indented by four spaces for each level; a blank
/// line stays empty.
pub open spec fn laid_out_line(depth: nat, t: Seq<char>) -> Seq<char> {
    if t.len() == 0 {
        t
    } else {
        spaces(4 * line_level(depth, t)) + t
    }
}

/// The trimmed lines `ts` laid out one after the other, a line feed behind each.
pub open spec fn laid_out(ts: Seq<Seq<char>>) -> Seq<char>
    decreases ts.len(),
{
    if ts.len() == 0 {
        Seq::empty()
    } else {
        laid_out(ts.drop_last()) + laid_out_line(depth_after(ts.drop_last()), ts.last()) + seq![
            '\n',
        ]
    }
}

/// The lines of `s`, each without the white space around it.
pub open spec fn trimmed_lines(s: Seq<char>) -> Seq<Seq<char>> {
    lines(s).map_values(|l: Seq<char>| trim(l))
}

/// The configuration text `s` with every line trimmed and indented by its
/// brace depth, without white space at the end of the text.
pub open spec fn format_text(s: Seq<char>) -> Seq<char> {
    trim_end(laid_out(trimmed_lines(s)))
}

/// Appends `4 * level` spaces to `out`.
fn push_indent(out: &mut Vec<char>, level: usize)
    ensures
        final(out)@ == old(out)@ + spaces(4 * level as nat),
{
    let mut k: usize = 0;
    while k < level
        invariant
            k <= level,
            out@ == old(out)@ + spaces(4 * k as nat),
        decreases level - k,
    {
        out.push(' ');
        out.push(' ');
        out.push(' ');
        out.push(' ');
        k += 1;
        assert(out@ =~= old(out)@ + spaces(4 * k as nat));
    }
}

/// Removes the white space at the end of `out`.
fn drop_trailing_space(out: &mut Vec<char>)
    ensures
        final(out)@ == trim_end(old(out)@),
{
    let mut n: usize = out.len();
    proof {
        assert(out@.take(n as int) == out@);
    }
    while n > 0 && char_is_space(out[n - 1])
        invariant
            n <= out.len(),
            out@ == old(out)@,
            trim_end(old(out)@) == trim_end(out@.take(n as int)),
        decreases n,
    {
        proof {
            assert(out@.take(n as int).drop_last() == out@.take(n - 1));
        }
        n -= 1;
    }
    out.truncate(n);
}

/// Lays out the configuration text `config`: every line is trimmed and
/// indented by four spaces for each brace level, blank lines stay as bare
/// line ends, and the text ends with its last visible character.
pub fn format_nginx_config(config: &str) -> (out: String)
    ensures
        out@ == format_text(config@),
{
    let chars = to_chars(config);
    let rows = split_lines(&chars);
    let ghost ts = trimmed_lines(config@);
    let mut out: Vec<char> = Vec::new();
    let mut depth: usize = 0;
    let mut i: usize = 0;
    while i < rows.len()
        invariant
            i <= rows.len(),
            rows_view(rows@) == lines(config@),
            ts == trimmed_lines(config@),
            ts.len() == rows.len(),
            depth <= i,
            depth == depth_after(ts.take(i as int)),
            out@ == laid_out(ts.take(i as int)),
        decreases rows.len() - i,
    {
        let t = trim_chars(&rows[i]);
        proof {
            assert(ts.take(i + 1).drop_last() == ts.take(i as int));
            assert(ts.take(i + 1).last() == ts[i as int]);
            assert(rows_view(rows@)[i as int] == rows@[i as int]@);
            assert(t@ == ts[i as int]);
        }
        if t.len() == 0 {
            out.push('\n');
        } else {
            if t[0] == '}' && depth > 0 {
                depth -= 1;
            }
            push_indent(&mut out, depth);
            push_all(&mut out, &t);
            out.push('\n');
            if t[t.len() - 1] == '{' {
                depth += 1;
            }
        }
        i += 1;
        assert(out@ =~= laid_out(ts.take(i as int)));
    }
    proof {
        assert(ts.take(i as int) == ts);
    }
    drop_trailing_space(&mut out);
    from_chars(&out)
}

/// The trimmed line `t` is a statement without its end: it is neither blank
/// nor a comment, ends with none of `{`, `}` and `;`, and begins with none of
/// the words `location`, `server` and `if`.
pub open spec fn lacks_terminator(t: Seq<char>) -> bool {
    &&& t.len() > 0
    &&& t.first() != '#'
    &&& t.last() != '{'
    &&& t.last() != '}'
    &&& t.last() != ';'
    &&& !"location"@.is_prefix_of(t)
    &&& !"server"@.is_prefix_of(t)
    &&& !"if"@.is_prefix_of(t)
}

/// The position of the first of the trimmed lines `ts` that lacks its terminator.
pub open spec fn first_unterminated(ts: Seq<Seq<char>>) -> Option<int>
    decreases ts.len(),
{
    if ts.len() == 0 {
        None
    } else {
        match first_unterminated(ts.drop_last()) {
            Some(i) => Some(i),
            None => if lacks_terminator(ts.last()) {
                Some(ts.len() - 1)
            } else {
                None
            },
        }
    }
}

/// The complaint about `open` opening and `close` closing braces.
pub open spec fn brace_message(open: nat, close: nat) -> Seq<char> {
    "Sintaksis xətası: Açılan və bağlanan mötərizələr uyğun gəlmir (açıq: "@ + decimal(open)
        + ", bağlı: "@ + decimal(close) + ")"@
}

/// The complaint about line number `line`, counted from one, whose trimmed
/// text is `content`.
pub open spec fn terminator_message(line: nat, content: Seq<char>) -> Seq<char> {
    "Sətir "@ + decimal(line) + ": Direktiv nöqtəli vergüllə (;) bitməlidir: "@ + content
}

/// What is wrong with the laid-out text `f`: unequal numbers of opening and
/// closing braces, or else its first line that lacks a terminator.
pub open spec fn complaint(f: Seq<char>) -> Option<Seq<char>> {
    if count(f, '{') != count(f, '}') {
        Some(brace_message(count(f, '{'), count(f, '}')))
    } else {
        match first_unterminated(trimmed_lines(f)) {
            Some(i) => Some(terminator_message((i + 1) as nat, trimmed_lines(f)[i])),
            None => None,
        }
    }
}

/// The fragment `s` laid out, or the complaint about its laid-out text.
pub open spec fn validate_text(s: Seq<char>) -> Result<Seq<char>, Seq<char>> {
    match complaint(format_text(s)) {
        Some(e) => Err(e),
        None => Ok(format_text(s)),
    }
}

/// Whether the trimmed line `t` lacks its terminator.
fn line_lacks_terminator(t: &Vec<char>) -> (r: bool)
    ensures
        r == lacks_terminator(t@),
{
    if t.len() == 0 {
        return false;
    }
    let first = t[0];
    let last = t[t.len() - 1];
    if first == '#' || last == '{' || last == '}' || last == ';' {
        return false;
    }
    let location = to_chars("location");
    let server = to_chars("server");
    let branch = to_chars("if");
    !has_prefix(t, &location) && !has_prefix(t, &server) && !has_prefix(t, &branch)
}

/// Lays out the fragment `config` and checks the result: the braces must
/// balance, and every statement must end with a semicolon. Returns the
/// laid-out text, or the complaint about its first fault.
pub fn validate_nginx_extra_config(config: &str) -> (r: Result<String, String>)
    ensures
        match r {
            Ok(s) => validate_text(config@) == Ok::<Seq<char>, Seq<char>>(s@),
            Err(e) => validate_text(config@) == Err::<Seq<char>, Seq<char>>(e@),
        },
{
    let formatted = format_nginx_config(config);
    let chars = to_chars(formatted.as_str());
    let open = count_char(&chars, '{');
    let close = count_char(&chars, '}');
    if open != close {
        let mut msg: Vec<char> = Vec::new();
        push_str(
            &mut msg,
            "Sintaksis xətası: Açılan və bağlanan mötərizələr uyğun gəlmir (açıq: ",
        );
        push_decimal(&mut msg, open);
        push_str(&mut msg, ", bağlı: ");
        push_decimal(&mut msg, close);
        push_str(&mut msg, ")");
        assert(msg@ =~= brace_message(open as nat, close as nat));
        return Err(from_chars(&msg));
    }
    let rows = split_lines(&chars);
    let ghost ts = trimmed_lines(formatted@);
    let mut i: usize = 0;
    while i < rows.len()
        invariant
            i <= rows.len(),
            rows_view(rows@) == lines(formatted@),
            ts == trimmed_lines(formatted@),
            ts.len() == rows.len(),
            formatted@ == format_text(config@),
            count(formatted@, '{') == count(formatted@, '}'),
            first_unterminated(ts.take(i as int)) is None,
        decreases rows.len() - i,
    {
        let t = trim_chars(&rows[i]);
        proof {
            assert(ts.take(i + 1).drop_last() == ts.take(i as int));
            assert(ts.take(i + 1).last() == ts[i as int]);
            assert(rows_view(rows@)[i as int] == rows@[i as int]@);
            assert(t@ == ts[i as int]);
        }
        if line_lacks_terminator(&t) {
            let mut msg: Vec<char> = Vec::new();
            push_str(&mut msg, "Sətir ");
            push_decimal(&mut msg, i + 1);
            push_str(&mut msg, ": Direktiv nöqtəli vergüllə (;) bitməlidir: ");
            push_all(&mut msg, &t);
            proof {
                assert(msg@ =~= terminator_message((i + 1) as nat, ts[i as int]));
                lemma_first_unterminated_stays(ts, i + 1);
            }
            return Err(from_chars(&msg));
        }
        i += 1;
    }
    proof {
        assert(ts.take(i as int) == ts);
    }
    Ok(formatted)
}

/// Once a line among the first `n` lacks its terminator, the first such line
/// of the whole text is that one.
pub proof fn lemma_first_unterminated_stays(ts: Seq<Seq<char>>, n: int)
    requires
        0 <= n <= ts.len(),
        first_unterminated(ts.take(n)) is Some,
    ensures
        first_unterminated(ts) == first_unterminated(ts.take(n)),
    decreases ts.len() - n,
{
    if n == ts.len() {
        assert(ts.take(n) == ts);
    } else {
        assert(ts.drop_last().take(n) == ts.take(n));
        lemma_first_unterminated_stays(ts.drop_last(), n);
    }
}

/// The start of the banner, before the name of the proxy.
pub open spec fn banner() -> Seq<char> {
    "# Nginx Reverse Proxy - "@
}

/// What stands before the time stamp in the banner.
pub open spec fn stamp_label() -> Seq<char> {
    "\n# Yaradılma: "@
}

/// What stands before the backend in the banner.
pub open spec fn backend_label() -> Seq<char> {
    "\n# Backend: "@
}

/// The opening of the server block.
pub open spec fn server_open() -> Seq<char> {
    "\n\nserver {\n"@
}

/// The stanza for TLS, up to the first place of the domain.
pub open spec fn tls_head() -> Seq<char> {
    "\n    listen 443 ssl http2;\n    listen [::]:443 ssl http2;\n    \n    # SSL sertifikatları (Let's Encrypt və ya özəl)\n    # ssl_certificate /etc/letsencrypt/live/"@
}

/// The stanza for TLS, between the two places of the domain.
pub open spec fn tls_middle() -> Seq<char> {
    "/fullchain.pem;\n    # ssl_certificate_key /etc/letsencrypt/live/"@
}

/// The stanza for TLS, behind the second place of the domain.
pub open spec fn tls_tail() -> Seq<char> {
    "/privkey.pem;\n    \n    ssl_protocols TLSv1.2 TLSv1.3;\n    ssl_ciphers HIGH:!aNULL:!MD5;\n    ssl_prefer_server_ciphers on;"@
}

/// The stanza without TLS.
pub open spec fn plain_stanza() -> Seq<char> {
    "    listen 80;\n    listen [::]:80;"@
}

/// What stands before the server name.
pub open spec fn name_label() -> Seq<char> {
    "\n    server_name "@
}

/// The opening of the default location block, up to the backend.
pub open spec fn location_open() -> Seq<char> {
    ";\n\n    location / {\n        proxy_pass "@
}

/// The fixed directives of the default location block: the version of the
/// protocol, the headers for WebSocket upgrades and for forwarding, and
/// timeouts of sixty seconds for connecting, sending and reading.
pub open spec fn directives() -> Seq<char> {
    ";\n        proxy_http_version 1.1;\n        proxy_set_header Upgrade $http_upgrade;\n        proxy_set_header Connection 'upgrade';\n        proxy_set_header Host $host;\n        proxy_set_header X-Real-IP $remote_addr;\n        proxy_set_header X-Forwarded-For $proxy_add_x_forwarded_for;\n        proxy_set_header X-Forwarded-Proto $scheme;\n        proxy_cache_bypass $http_upgrade;\n        proxy_connect_timeout 60s;\n        proxy_send_timeout 60s;\n        proxy_read_timeout 60s;"@
}

/// The closing of the default location block.
pub open spec fn location_close() -> Seq<char> {
    "\n    }"@
}

/// The closing of the server block.
pub open spec fn server_close() -> Seq<char> {
    "\n}\n"@
}

/// The lines that say where the server listens: with TLS, port 443 on both
/// address families with HTTP/2, the protocols and ciphers, and the places of
/// the certificate of `domain` as comments; without, port 80 on both families.
pub open spec fn listen_stanza(ssl: bool, domain: Seq<char>) -> Seq<char> {
    if ssl {
        tls_head() + domain + tls_middle() + domain + tls_tail()
    } else {
        plain_stanza()
    }
}

/// The extra text, trimmed, holds the word `location` somewhere: it is then
/// taken for a set of blocks of its own. Nothing of the text is parsed.
pub open spec fn has_location_marker(extra: Seq<char>) -> bool {
    contains(trim(extra), "location"@)
}

/// What the extra text adds inside the default location block: its lines
/// two levels deep under a comment, unless it holds the location marker.
pub open spec fn extra_in_location(extra: Option<Seq<char>>) -> Seq<char> {
    match extra {
        Some(e) => if has_location_marker(e) {
            Seq::empty()
        } else {
            "\n        # Əlavə konfiqurasiya\n"@ + padded_block(lines(trim(e)), "        "@)
        },
        None => Seq::empty(),
    }
}

/// What the extra text adds behind the default location block: its lines one
/// level deep under a comment, if it holds the location marker.
pub open spec fn extra_in_server(extra: Option<Seq<char>>) -> Seq<char> {
    match extra {
        Some(e) => if has_location_marker(e) {
            "\n    # Əlavə konfiqurasiya\n"@ + padded_block(lines(trim(e)), "    "@)
        } else {
            Seq::empty()
        },
        None => Seq::empty(),
    }
}

/// The configuration up to the end of the fixed directives of the default
/// location block; nothing of it depends on the extra text.
pub open spec fn render_head(p: ProxyView, stamp: Seq<char>) -> Seq<char> {
    banner() + p.name + stamp_label() + stamp + backend_label() + p.backend + server_open()
        + listen_stanza(p.ssl, p.domain) + name_label() + p.domain + location_open() + p.backend
        + directives()
}

/// The whole configuration of the proxy `p`, written at the time `stamp`: a
/// banner with name, time and backend, and a server block with the listen
/// stanza, the server name, the default location block with the extra text
/// that belongs into it, and the extra text that belongs behind it.
pub open spec fn render_text(p: ProxyView, stamp: Seq<char>) -> Seq<char> {
    render_head(p, stamp) + extra_in_location(p.extra_config) + location_close()
        + extra_in_server(p.extra_config) + server_close()
}

/// Appends each of `rows` behind `pad`, the rows separated by line feeds.
fn push_padded_block(out: &mut Vec<char>, rows: &Vec<Vec<char>>, pad: &str)
    ensures
        final(out)@ == old(out)@ + padded_block(rows_view(rows@), pad@),
{
    let ghost ls = rows_view(rows@);
    let mut i: usize = 0;
    while i < rows.len()
        invariant
            i <= rows.len(),
            ls == rows_view(rows@),
            out@ == old(out)@ + padded_block(ls.take(i as int), pad@),
        decreases rows.len() - i,
    {
        proof {
            assert(ls.take(i + 1).drop_last() == ls.take(i as int));
            assert(ls.take(i + 1).last() == rows@[i as int]@);
        }
        if i > 0 {
            out.push('\n');
        }
        push_str(out, pad);
        push_all(out, &rows[i]);
        i += 1;
        assert(out@ =~= old(out)@ + padded_block(ls.take(i as int), pad@));
    }
    proof {
        assert(ls.take(i as int) == ls);
    }
}

/// Appends the listen stanza.
fn push_listen_stanza(out: &mut Vec<char>, ssl: bool, domain: &str)
    ensures
        final(out)@ == old(out)@ + listen_stanza(ssl, domain@),
{
    if ssl {
        push_str(
            out,
            "\n    listen 443 ssl http2;\n    listen [::]:443 ssl http2;\n    \n    # SSL sertifikatları (Let's Encrypt və ya özəl)\n    # ssl_certificate /etc/letsencrypt/live/",
        );
        push_str(out, domain);
        push_str(out, "/fullchain.pem;\n    # ssl_certificate_key /etc/letsencrypt/live/");
        push_str(out, domain);
        push_str(
            out,
            "/privkey.pem;\n    \n    ssl_protocols TLSv1.2 TLSv1.3;\n    ssl_ciphers HIGH:!aNULL:!MD5;\n    ssl_prefer_server_ciphers on;",
        );
        assert(out@ =~= old(out)@ + listen_stanza(ssl, domain@));
    } else {
        push_str(out, "    listen 80;\n    listen [::]:80;");
    }
}

/// Appends the configuration up to the end of the fixed directives.
fn push_head(out: &mut Vec<char>, proxy: &NginxProxy, stamp: &str)
    ensures
        final(out)@ == old(out)@ + render_head(proxy@, stamp@),
{
    push_str(out, "# Nginx Reverse Proxy - ");
    push_str(out, proxy.name.as_str());
    push_str(out, "\n# Yaradılma: ");
    push_str(out, stamp);
    push_str(out, "\n# Backend: ");
    push_str(out, proxy.backend.as_str());
    push_str(out, "\n\nserver {\n");
    push_listen_stanza(out, proxy.ssl, proxy.domain.as_str());
    push_str(out, "\n    server_name ");
    push_str(out, proxy.domain.as_str());
    push_str(out, ";\n\n    location / {\n        proxy_pass ");
    push_str(out, proxy.backend.as_str());
    push_str(
        out,
        ";\n        proxy_http_version 1.1;\n        proxy_set_header Upgrade $http_upgrade;\n        proxy_set_header Connection 'upgrade';\n        proxy_set_header Host $host;\n        proxy_set_header X-Real-IP $remote_addr;\n        proxy_set_header X-Forwarded-For $proxy_add_x_forwarded_for;\n        proxy_set_header X-Forwarded-Proto $scheme;\n        proxy_cache_bypass $http_upgrade;\n        proxy_connect_timeout 60s;\n        proxy_send_timeout 60s;\n        proxy_read_timeout 60s;",
    );
    assert(out@ =~= old(out)@ + render_head(proxy@, stamp@));
}

/// Writes the whole configuration of `proxy`, with `stamp` as the time of
/// writing in its banner. Extra text that holds the word `location` goes
/// behind the default location block, one level deep; other extra text goes
/// inside that block, two levels deep.
pub fn render_nginx_config(proxy: &NginxProxy, stamp: &str) -> (out: String)
    ensures
        out@ == render_text(proxy@, stamp@),
{
    let mut out: Vec<char> = Vec::new();
    push_head(&mut out, proxy, stamp);
    let ghost head = out@;
    match &proxy.extra_config {
        Some(extra) => {
            let text = to_chars(extra.as_str());
            let trimmed = trim_chars(&text);
            let marker = to_chars("location");
            let rows = split_lines(&trimmed);
            if has_substring(&trimmed, &marker) {
                push_str(&mut out, "\n    }");
                push_str(&mut out, "\n    # Əlavə konfiqurasiya\n");
                push_padded_block(&mut out, &rows, "    ");
            } else {
                push_str(&mut out, "\n        # Əlavə konfiqurasiya\n");
                push_padded_block(&mut out, &rows, "        ");
                push_str(&mut out, "\n    }");
            }
        },
        None => {
            push_str(&mut out, "\n    }");
        },
    }
    push_str(&mut out, "\n}\n");
    assert(out@ =~= render_text(proxy@, stamp@));
    from_chars(&out)
}

/// The local date and time of the call, as `chrono::Local::now` gives it and
/// chrono's `DateTime::format` writes it with the pattern year-month-day
/// hour:minute:second. Nothing is claimed of the text: it changes from call
/// to call. The call stops the program where the clock of the machine reads
/// a time before 1970 or beyond chrono's range, or where the time zone data
/// of the machine give chrono no local time for the moment.
#[verifier::external_body]
pub(crate) fn local_timestamp() -> String {
    chrono::Local::now().format("%Y-%m-%d %H:%M:%S").to_string()
}

/// Writes the whole configuration of `proxy`, with the time of the call in
/// its banner: the text of `render_nginx_config` for some time stamp.
pub fn generate_nginx_config(proxy: &NginxProxy) -> (out: String)
    ensures
        exists|stamp: Seq<char>| out@ == render_text(proxy@, stamp),
{
    let stamp = local_timestamp();
    render_nginx_config(proxy, stamp.as_str())
}

} // verus!
