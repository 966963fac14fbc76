//! What the requests to the proxy manager decide, apart from the reading and
//! writing that carries them out: the answer to a fragment that is to be
//! checked, the list of the proxies that the files of a directory describe,
//! and the first step of a creation, an update or a removal.

use vstd::prelude::*;
use crate::config::NginxConfig;
use crate::error::AppError;
use crate::nginx::config::{local_timestamp, validate_nginx_extra_config, validate_text};
use crate::nginx::lifecycle::{
    begin_create, begin_remove, begin_update, creation, removal, update, Step,
};
use crate::nginx::models::{FormatRequest, FormatResponse, NginxProxy, NginxResponse, ProxyView};
use crate::text::{
    contains, from_chars, has_prefix, has_substring, join3, lines, rows_view, same_chars,
    split_lines, split_words, strip_trailing, strip_trailing_char, to_chars, trim, trim_chars,
    words,
};

verus! {

/// Checks and lays out the fragment of `req`. The answer holds the laid-out
/// text where the fragment passes, and the complaint where it does not.
pub fn format_nginx_extra_config(req: &FormatRequest) -> (resp: FormatResponse)
    ensures
        match validate_text(req.config@) {
            Ok(f) => {
                &&& resp.success
                &&& resp.error is None
                &&& resp.formatted matches Some(s)
                &&& s@ == f
            },
            Err(e) => {
                &&& !resp.success
                &&& resp.formatted is None
                &&& resp.error matches Some(s)
                &&& s@ == e
            },
        },
{
    match validate_nginx_extra_config(req.config.as_str()) {
        Ok(formatted) => FormatResponse { success: true, formatted: Some(formatted), error: None },
        Err(e) => FormatResponse { success: false, formatted: None, error: Some(e) },
    }
}

/// A file of the directory of the configurations.
#[derive(Debug, Clone, PartialEq, Eq)]
pub struct SiteFile {
    pub name: String,
    pub content: String,
}

/// The first of the lines `ls` whose trimmed text begins with `word`.
pub open spec fn first_line_with(ls: Seq<Seq<char>>, word: Seq<char>) -> Option<Seq<char>>
    decreases ls.len(),
{
    if ls.len() == 0 {
        None
    } else {
        match first_line_with(ls.drop_last(), word) {
            Some(l) => Some(l),
            None => if word.is_prefix_of(trim(ls.last())) {
                Some(ls.last())
            } else {
                None
            },
        }
    }
}

/// What the configuration `content` gives for the directive `word`: the
/// second word of the first line that begins with `word`, without the
/// semicolons at its end; `unknown` where there is no such line or word.
pub open spec fn directive_value(content: Seq<char>, word: Seq<char>) -> Seq<char> {
    match first_line_with(lines(content), word) {
        Some(l) => if words(l).len() >= 2 {
            strip_trailing(words(l)[1], ';')
        } else {
            "unknown"@
        },
        None => "unknown"@,
    }
}

/// Files that describe no proxy: the default site, and examples.
pub open spec fn is_sample(name: Seq<char>) -> bool {
    name == "default"@ || contains(name, "example"@)
}

/// The proxy that the file `name` with the text `content` describes, as far
/// as its text tells, or nothing for a sample.
pub open spec fn summary(name: Seq<char>, content: Seq<char>) -> Option<ProxyView> {
    if is_sample(name) {
        None
    } else {
        Some(
            ProxyView {
                name,
                domain: directive_value(content, "server_name"@),
                backend: directive_value(content, "proxy_pass"@),
                ssl: contains(content, "listen 443 ssl"@),
                extra_config: None,
            },
        )
    }
}

/// The proxies that the files `files` describe, in the order of the files.
pub open spec fn summaries(files: Seq<SiteFile>) -> Seq<ProxyView>
    decreases files.len(),
{
    if files.len() == 0 {
        Seq::empty()
    } else {
        match summary(files.last().name@, files.last().content@) {
            Some(p) => summaries(files.drop_last()).push(p),
            None => summaries(files.drop_last()),
        }
    }
}

/// The views of the proxies `ps`.
pub open spec fn proxy_views(ps: Seq<NginxProxy>) -> Seq<ProxyView> {
    Seq::new(ps.len(), |i: int| ps[i]@)
}

/// What the lines `rows` give for the directive `word`.
fn find_directive(rows: &Vec<Vec<char>>, word: &str) -> (r: String)
    ensures
        r@ == match first_line_with(rows_view(rows@), word@) {
            Some(l) => if words(l).len() >= 2 {
                strip_trailing(words(l)[1], ';')
            } else {
                "unknown"@
            },
            None => "unknown"@,
        },
{
    let key = to_chars(word);
    let ghost ls = rows_view(rows@);
    let mut i: usize = 0;
    while i < rows.len()
        invariant
            i <= rows.len(),
            ls == rows_view(rows@),
            key@ == word@,
            first_line_with(ls.take(i as int), word@) is None,
        decreases rows.len() - i,
    {
        proof {
            assert(ls.take(i + 1).drop_last() == ls.take(i as int));
            assert(ls.take(i + 1).last() == rows@[i as int]@);
        }
        let t = trim_chars(&rows[i]);
        if has_prefix(&t, &key) {
            proof {
                lemma_first_line_stays(ls, word@, i + 1);
            }
            let ws = split_words(&rows[i]);
            if ws.len() >= 2 {
                assert(rows_view(ws@)[1] == ws@[1]@);
                let value = strip_trailing_char(&ws[1], ';');
                return from_chars(&value);
            } else {
                return "unknown".to_string();
            }
        }
        i += 1;
    }
    proof {
        assert(ls.take(i as int) == ls);
    }
    "unknown".to_string()
}

/// Once a line among the first `n` begins with the word, the first such line
/// of all lines is that one.
proof fn lemma_first_line_stays(ls: Seq<Seq<char>>, word: Seq<char>, n: int)
    requires
        0 <= n <= ls.len(),
        first_line_with(ls.take(n), word) is Some,
    ensures
        first_line_with(ls, word) == first_line_with(ls.take(n), word),
    decreases ls.len() - n,
{
    if n == ls.len() {
        assert(ls.take(n) == ls);
    } else {
        assert(ls.drop_last().take(n) == ls.take(n));
        lemma_first_line_stays(ls.drop_last(), word, n);
    }
}

/// Reads from the text of a configuration file what it tells of its proxy:
/// the domain after `server_name`, the backend after `proxy_pass`, and
/// whether it listens with TLS. Samples describe no proxy.
pub fn summarize(name: &str, content: &str) -> (r: Option<NginxProxy>)
    ensures
        match r {
            Some(p) => summary(name@, content@) == Some(p@),
            None => summary(name@, content@) is None,
        },
{
    let name_chars = to_chars(name);
    let default_name = to_chars("default");
    let example = to_chars("example");
    if same_chars(&name_chars, &default_name) || has_substring(&name_chars, &example) {
        return None;
    }
    let text = to_chars(content);
    let rows = split_lines(&text);
    let domain = find_directive(&rows, "server_name");
    let backend = find_directive(&rows, "proxy_pass");
    let tls = to_chars("listen 443 ssl");
    let ssl = has_substring(&text, &tls);
    Some(NginxProxy { name: name.to_string(), domain, backend, ssl, extra_config: None })
}

/// The proxies that the files of the directory of the configurations
/// describe, in the order of the files.
pub fn get_nginx_proxies(files: &Vec<SiteFile>) -> (proxies: Vec<NginxProxy>)
    ensures
        proxy_views(proxies@) == summaries(files@),
{
    let mut proxies: Vec<NginxProxy> = Vec::new();
    let mut i: usize = 0;
    while i < files.len()
        invariant
            i <= files.len(),
            proxy_views(proxies@) == summaries(files@.take(i as int)),
        decreases files.len() - i,
    {
        proof {
            assert(files@.take(i + 1).drop_last() == files@.take(i as int));
            assert(files@.take(i + 1).last() == files@[i as int]);
        }
        let ghost before = proxy_views(proxies@);
        match summarize(files[i].name.as_str(), files[i].content.as_str()) {
            Some(p) => {
                let ghost view = p@;
                proxies.push(p);
                assert(proxy_views(proxies@) =~= before.push(view));
            },
            None => {},
        }
        i += 1;
    }
    proof {
        assert(files@.take(i as int) == files@);
    }
    proxies
}

/// The warning that goes with an empty list where the directory of the
/// configurations does not exist.
pub fn missing_directory_warning(directory: &str) -> (r: String)
    ensures
        r@ == "Nginx konfiqurasiya qovluğu tapılmadı: "@ + directory@ + ". Nginx quraşdırılıb?"@,
{
    join3("Nginx konfiqurasiya qovluğu tapılmadı: ", directory, ". Nginx quraşdırılıb?")
}

/// The error that goes with an empty list where the directory of the
/// configurations cannot be read, for the reason `why`.
pub fn unreadable_directory_error(why: &str) -> (r: String)
    ensures
        r@ == "Qovluq oxuna bilmədi: "@ + why@ + ". İcazə problemi ola bilər."@,
{
    join3("Qovluq oxuna bilmədi: ", why, ". İcazə problemi ola bilər.")
}

/// The status and the body of the answer to a request that ended with
/// `verdict`: 200 and the message of success, or the status of the error and
/// its message.
pub fn respond(verdict: Result<String, AppError>) -> (r: (u16, NginxResponse))
    ensures
        match verdict {
            Ok(m) => r.0 == 200 && r.1.success && r.1.message@ == m@,
            Err(e) => r.0 == e@.status() && !r.1.success && r.1.message@ == e@.message(),
        },
{
    match verdict {
        Ok(message) => (200, NginxResponse { success: true, message }),
        Err(e) => (e.status_code(), NginxResponse { success: false, message: e.message() }),
    }
}

/// Begins the creation of `proxy`, with the time of the call in the banner
/// of its text: the first step of `begin_create` for some time stamp.
pub fn create_nginx_proxy(cfg: &NginxConfig, proxy: NginxProxy) -> (step: Step)
    ensures
        exists|stamp: Seq<char>|
            step@ == creation(cfg.sites_available_path@, cfg.sites_enabled_path@, proxy@, stamp),
{
    let stamp = local_timestamp();
    begin_create(cfg, proxy, stamp.as_str())
}

/// Begins the update of the proxy `name` to `proxy`, with the time of the
/// call in the banner of its text: the first step of `begin_update` for some
/// time stamp.
pub fn update_nginx_proxy(cfg: &NginxConfig, name: &str, proxy: NginxProxy) -> (step: Step)
    ensures
        exists|stamp: Seq<char>|
            step@ == update(
                cfg.sites_available_path@,
                cfg.sites_enabled_path@,
                name@,
                proxy@,
                stamp,
            ),
{
    let stamp = local_timestamp();
    begin_update(cfg, name, proxy, stamp.as_str())
}

/// Begins the removal of the proxy `name`.
pub fn delete_nginx_proxy(cfg: &NginxConfig, name: &str) -> (step: Step)
    ensures
        step@ == removal(cfg.sites_available_path@, cfg.sites_enabled_path@, name@),
{
    begin_remove(cfg, name)
}

} // verus!
