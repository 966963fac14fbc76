//! Which listen token a rendered configuration holds. The fixed text of a
//! configuration for TLS never says `listen 80`, and that of a plain one
//! never says `listen 443 ssl http2`: such words can only come with the
//! parts that the definition supplies.

use vstd::prelude::*;
use crate::nginx::config::{
    backend_label, banner, directives, extra_in_location, extra_in_server, location_close,
    location_open, name_label, plain_stanza, render_text, server_close, server_open, stamp_label,
    tls_head, tls_middle, tls_tail,
};
use crate::nginx::models::ProxyView;
use crate::text::{contains, occurs_at};

verus! {

/// `c` does not occur in `t`.
pub open spec fn lacks(t: Seq<char>, c: char) -> bool {
    forall|j: int| 0 <= j < t.len() ==> t[j] != c
}

/// The fixed text `l` takes no part in any occurrence of `t`: its first
/// character does not occur in `t`, `t` does not occur in it, and it does
/// not end with a beginning of `t`.
pub open spec fn inert(l: Seq<char>, t: Seq<char>) -> bool {
    &&& l.len() > 0
    &&& lacks(t, l[0])
    &&& !contains(l, t)
    &&& forall|k: int| 0 < k < t.len() && k <= l.len() ==> l.skip(l.len() - k) != t.take(k)
}

/// None of the parts that the definition and the clock supply holds `t`.
pub open spec fn quiet(p: ProxyView, stamp: Seq<char>, t: Seq<char>) -> bool {
    &&& !contains(p.name, t)
    &&& !contains(stamp, t)
    &&& !contains(p.backend, t)
    &&& !contains(p.domain, t)
    &&& !contains(extra_in_location(p.extra_config), t)
    &&& !contains(extra_in_server(p.extra_config), t)
}

/// Behind a text that is inert for `t`, `t` occurs only where it occurs
/// before that text or behind it.
pub proof fn lemma_inert_between(x: Seq<char>, l: Seq<char>, v: Seq<char>, t: Seq<char>)
    requires
        inert(l, t),
        t.len() > 0,
    ensures
        contains(x + l + v, t) <==> contains(x, t) || contains(v, t),
{
    let whole = x + l + v;
    if contains(x, t) {
        let i = choose|i: int| occurs_at(x, t, i);
        assert(whole.subrange(i, i + t.len()) =~= x.subrange(i, i + t.len()));
        assert(occurs_at(whole, t, i));
    }
    if contains(v, t) {
        let i = choose|i: int| occurs_at(v, t, i);
        let at = x.len() + l.len() + i;
        assert(whole.subrange(at, at + t.len()) =~= v.subrange(i, i + t.len()));
        assert(occurs_at(whole, t, at));
    }
    if contains(whole, t) {
        let i = choose|i: int| occurs_at(whole, t, i);
        let part = whole.subrange(i, i + t.len());
        let a = x.len() as int;
        let b = a + l.len();
        if i + t.len() <= a {
            assert(x.subrange(i, i + t.len()) =~= part);
            assert(occurs_at(x, t, i));
        } else if i <= a {
            // The occurrence would hold the first character of `l`.
            assert(part[a - i] == l[0]);
            assert(t[a - i] == l[0]);
        } else if i + t.len() <= b {
            assert(l.subrange(i - a, i - a + t.len()) =~= part);
            assert(occurs_at(l, t, i - a));
        } else if i < b {
            // The occurrence would begin in the end of `l`.
            let k = b - i;
            assert(l.skip(l.len() - k) =~= t.take(k)) by {
                assert forall|j: int| 0 <= j < k implies l.skip(l.len() - k)[j] == t.take(k)[j] by {
                    assert(part[j] == whole[i + j]);
                    assert(whole[i + j] == l[i + j - a]);
                }
            }
        } else {
            assert(v.subrange(i - b, i - b + t.len()) =~= part);
            assert(occurs_at(v, t, i - b));
        }
    }
}

proof fn lemma_banner_inert_80()
    ensures
        inert(banner(), "listen 80"@),
{
    let l = banner();
    let t = "listen 80"@;
    reveal_strlit("listen 80");
    reveal_strlit("# Nginx Reverse Proxy - ");
    assert forall|i: int| !occurs_at(l, t, i) by {
        if 0 <= i && i + t.len() <= l.len() {
            let part = l.subrange(i, i + t.len());
            assert(part[0] == l[i]);
            assert(part[1] == l[i + 1]);
            assert(part[2] == l[i + 2]);
            assert(part[7] == l[i + 7]);
        }
    }
    assert forall|k: int| 0 < k < t.len() && k <= l.len() implies l.skip(l.len() - k) != t.take(
        k,
    ) by {
        assert(l.skip(l.len() - k)[k - 1] == l[l.len() - 1]);
        assert(t.take(k)[k - 1] == t[k - 1]);
        if k >= 2 {
            assert(l.skip(l.len() - k)[k - 2] == l[l.len() - 2]);
            assert(t.take(k)[k - 2] == t[k - 2]);
        }
    }
}

proof fn lemma_stamp_label_inert_80()
    ensures
        inert(stamp_label(), "listen 80"@),
{
    let l = stamp_label();
    let t = "listen 80"@;
    reveal_strlit("listen 80");
    reveal_strlit("\n# Yaradılma: ");
    assert forall|i: int| !occurs_at(l, t, i) by {
        if 0 <= i && i + t.len() <= l.len() {
            let part = l.subrange(i, i + t.len());
            assert(part[0] == l[i]);
            assert(part[1] == l[i + 1]);
            assert(part[2] == l[i + 2]);
            assert(part[7] == l[i + 7]);
        }
    }
    assert forall|k: int| 0 < k < t.len() && k <= l.len() implies l.skip(l.len() - k) != t.take(
        k,
    ) by {
        assert(l.skip(l.len() - k)[k - 1] == l[l.len() - 1]);
        assert(t.take(k)[k - 1] == t[k - 1]);
        if k >= 2 {
            assert(l.skip(l.len() - k)[k - 2] == l[l.len() - 2]);
            assert(t.take(k)[k - 2] == t[k - 2]);
        }
    }
}

proof fn lemma_backend_label_inert_80()
    ensures
        inert(backend_label(), "listen 80"@),
{
    let l = backend_label();
    let t = "listen 80"@;
    reveal_strlit("listen 80");
    reveal_strlit("\n# Backend: ");
    assert forall|i: int| !occurs_at(l, t, i) by {
        if 0 <= i && i + t.len() <= l.len() {
            let part = l.subrange(i, i + t.len());
            assert(part[0] == l[i]);
            assert(part[1] == l[i + 1]);
            assert(part[2] == l[i + 2]);
            assert(part[7] == l[i + 7]);
        }
    }
    assert forall|k: int| 0 < k < t.len() && k <= l.len() implies l.skip(l.len() - k) != t.take(
        k,
    ) by {
        assert(l.skip(l.len() - k)[k - 1] == l[l.len() - 1]);
        assert(t.take(k)[k - 1] == t[k - 1]);
        if k >= 2 {
            assert(l.skip(l.len() - k)[k - 2] == l[l.len() - 2]);
            assert(t.take(k)[k - 2] == t[k - 2]);
        }
    }
}

proof fn lemma_server_open_inert_80()
    ensures
        inert(server_open(), "listen 80"@),
{
    let l = server_open();
    let t = "listen 80"@;
    reveal_strlit("listen 80");
    reveal_strlit("\n\nserver {\n");
    assert forall|i: int| !occurs_at(l, t, i) by {
        if 0 <= i && i + t.len() <= l.len() {
            let part = l.subrange(i, i + t.len());
            assert(part[0] == l[i]);
            assert(part[1] == l[i + 1]);
            assert(part[2] == l[i + 2]);
            assert(part[7] == l[i + 7]);
        }
    }
    assert forall|k: int| 0 < k < t.len() && k <= l.len() implies l.skip(l.len() - k) != t.take(
        k,
    ) by {
        assert(l.skip(l.len() - k)[k - 1] == l[l.len() - 1]);
        assert(t.take(k)[k - 1] == t[k - 1]);
        if k >= 2 {
            assert(l.skip(l.len() - k)[k - 2] == l[l.len() - 2]);
            assert(t.take(k)[k - 2] == t[k - 2]);
        }
    }
}

proof fn lemma_tls_head_inert_80()
    ensures
        inert(tls_head(), "listen 80"@),
{
    let l = tls_head();
    let t = "listen 80"@;
    reveal_strlit("listen 80");
    reveal_strlit("\n    listen 443 ssl http2;\n    listen [::]:443 ssl http2;\n    \n    # SSL sertifikatları (Let's Encrypt və ya özəl)\n    # ssl_certificate /etc/letsencrypt/live/");
    assert forall|i: int| !occurs_at(l, t, i) by {
        if 0 <= i && i + t.len() <= l.len() {
            let part = l.subrange(i, i + t.len());
            assert(part[0] == l[i]);
            assert(part[1] == l[i + 1]);
            assert(part[2] == l[i + 2]);
            assert(part[7] == l[i + 7]);
        }
    }
    assert forall|k: int| 0 < k < t.len() && k <= l.len() implies l.skip(l.len() - k) != t.take(
        k,
    ) by {
        assert(l.skip(l.len() - k)[k - 1] == l[l.len() - 1]);
        assert(t.take(k)[k - 1] == t[k - 1]);
        if k >= 2 {
            assert(l.skip(l.len() - k)[k - 2] == l[l.len() - 2]);
            assert(t.take(k)[k - 2] == t[k - 2]);
        }
    }
}

proof fn lemma_tls_middle_inert_80()
    ensures
        inert(tls_middle(), "listen 80"@),
{
    let l = tls_middle();
    let t = "listen 80"@;
    reveal_strlit("listen 80");
    reveal_strlit("/fullchain.pem;\n    # ssl_certificate_key /etc/letsencrypt/live/");
    assert forall|i: int| !occurs_at(l, t, i) by {
        if 0 <= i && i + t.len() <= l.len() {
            let part = l.subrange(i, i + t.len());
            assert(part[0] == l[i]);
            assert(part[1] == l[i + 1]);
            assert(part[2] == l[i + 2]);
            assert(part[7] == l[i + 7]);
        }
    }
    assert forall|k: int| 0 < k < t.len() && k <= l.len() implies l.skip(l.len() - k) != t.take(
        k,
    ) by {
        assert(l.skip(l.len() - k)[k - 1] == l[l.len() - 1]);
        assert(t.take(k)[k - 1] == t[k - 1]);
        if k >= 2 {
            assert(l.skip(l.len() - k)[k - 2] == l[l.len() - 2]);
            assert(t.take(k)[k - 2] == t[k - 2]);
        }
    }
}

proof fn lemma_tls_tail_inert_80()
    ensures
        inert(tls_tail(), "listen 80"@),
{
    let l = tls_tail();
    let t = "listen 80"@;
    reveal_strlit("listen 80");
    reveal_strlit("/privkey.pem;\n    \n    ssl_protocols TLSv1.2 TLSv1.3;\n    ssl_ciphers HIGH:!aNULL:!MD5;\n    ssl_prefer_server_ciphers on;");
    assert forall|i: int| !occurs_at(l, t, i) by {
        if 0 <= i && i + t.len() <= l.len() {
            let part = l.subrange(i, i + t.len());
            assert(part[0] == l[i]);
            assert(part[1] == l[i + 1]);
            assert(part[2] == l[i + 2]);
            assert(part[7] == l[i + 7]);
        }
    }
    assert forall|k: int| 0 < k < t.len() && k <= l.len() implies l.skip(l.len() - k) != t.take(
        k,
    ) by {
        assert(l.skip(l.len() - k)[k - 1] == l[l.len() - 1]);
        assert(t.take(k)[k - 1] == t[k - 1]);
        if k >= 2 {
            assert(l.skip(l.len() - k)[k - 2] == l[l.len() - 2]);
            assert(t.take(k)[k - 2] == t[k - 2]);
        }
    }
}

proof fn lemma_name_label_inert_80()
    ensures
        inert(name_label(), "listen 80"@),
{
    let l = name_label();
    let t = "listen 80"@;
    reveal_strlit("listen 80");
    reveal_strlit("\n    server_name ");
    assert forall|i: int| !occurs_at(l, t, i) by {
        if 0 <= i && i + t.len() <= l.len() {
            let part = l.subrange(i, i + t.len());
            assert(part[0] == l[i]);
            assert(part[1] == l[i + 1]);
            assert(part[2] == l[i + 2]);
            assert(part[7] == l[i + 7]);
        }
    }
    assert forall|k: int| 0 < k < t.len() && k <= l.len() implies l.skip(l.len() - k) != t.take(
        k,
    ) by {
        assert(l.skip(l.len() - k)[k - 1] == l[l.len() - 1]);
        assert(t.take(k)[k - 1] == t[k - 1]);
        if k >= 2 {
            assert(l.skip(l.len() - k)[k - 2] == l[l.len() - 2]);
            assert(t.take(k)[k - 2] == t[k - 2]);
        }
    }
}

proof fn lemma_location_open_inert_80()
    ensures
        inert(location_open(), "listen 80"@),
{
    let l = location_open();
    let t = "listen 80"@;
    reveal_strlit("listen 80");
    reveal_strlit(";\n\n    location / {\n        proxy_pass ");
    assert forall|i: int| !occurs_at(l, t, i) by {
        if 0 <= i && i + t.len() <= l.len() {
            let part = l.subrange(i, i + t.len());
            assert(part[0] == l[i]);
            assert(part[1] == l[i + 1]);
            assert(part[2] == l[i + 2]);
            assert(part[7] == l[i + 7]);
        }
    }
    assert forall|k: int| 0 < k < t.len() && k <= l.len() implies l.skip(l.len() - k) != t.take(
        k,
    ) by {
        assert(l.skip(l.len() - k)[k - 1] == l[l.len() - 1]);
        assert(t.take(k)[k - 1] == t[k - 1]);
        if k >= 2 {
            assert(l.skip(l.len() - k)[k - 2] == l[l.len() - 2]);
            assert(t.take(k)[k - 2] == t[k - 2]);
        }
    }
}

proof fn lemma_directives_inert_80()
    ensures
        inert(directives(), "listen 80"@),
{
    let l = directives();
    let t = "listen 80"@;
    reveal_strlit("listen 80");
    reveal_strlit(";\n        proxy_http_version 1.1;\n        proxy_set_header Upgrade $http_upgrade;\n        proxy_set_header Connection 'upgrade';\n        proxy_set_header Host $host;\n        proxy_set_header X-Real-IP $remote_addr;\n        proxy_set_header X-Forwarded-For $proxy_add_x_forwarded_for;\n        proxy_set_header X-Forwarded-Proto $scheme;\n        proxy_cache_bypass $http_upgrade;\n        proxy_connect_timeout 60s;\n        proxy_send_timeout 60s;\n        proxy_read_timeout 60s;");
    assert forall|i: int| !occurs_at(l, t, i) by {
        if 0 <= i && i + t.len() <= l.len() {
            let part = l.subrange(i, i + t.len());
            assert(part[0] == l[i]);
            assert(part[1] == l[i + 1]);
            assert(part[2] == l[i + 2]);
            assert(part[7] == l[i + 7]);
        }
    }
    assert forall|k: int| 0 < k < t.len() && k <= l.len() implies l.skip(l.len() - k) != t.take(
        k,
    ) by {
        assert(l.skip(l.len() - k)[k - 1] == l[l.len() - 1]);
        assert(t.take(k)[k - 1] == t[k - 1]);
        if k >= 2 {
            assert(l.skip(l.len() - k)[k - 2] == l[l.len() - 2]);
            assert(t.take(k)[k - 2] == t[k - 2]);
        }
    }
}

proof fn lemma_location_close_inert_80()
    ensures
        inert(location_close(), "listen 80"@),
{
    let l = location_close();
    let t = "listen 80"@;
    reveal_strlit("listen 80");
    reveal_strlit("\n    }");
    assert forall|i: int| !occurs_at(l, t, i) by {
        if 0 <= i && i + t.len() <= l.len() {
            let part = l.subrange(i, i + t.len());
            assert(part[0] == l[i]);
            assert(part[1] == l[i + 1]);
            assert(part[2] == l[i + 2]);
            assert(part[7] == l[i + 7]);
        }
    }
    assert forall|k: int| 0 < k < t.len() && k <= l.len() implies l.skip(l.len() - k) != t.take(
        k,
    ) by {
        assert(l.skip(l.len() - k)[k - 1] == l[l.len() - 1]);
        assert(t.take(k)[k - 1] == t[k - 1]);
        if k >= 2 {
            assert(l.skip(l.len() - k)[k - 2] == l[l.len() - 2]);
            assert(t.take(k)[k - 2] == t[k - 2]);
        }
    }
}

proof fn lemma_server_close_inert_80()
    ensures
        inert(server_close(), "listen 80"@),
{
    let l = server_close();
    let t = "listen 80"@;
    reveal_strlit("listen 80");
    reveal_strlit("\n}\n");
    assert forall|i: int| !occurs_at(l, t, i) by {
        if 0 <= i && i + t.len() <= l.len() {
            let part = l.subrange(i, i + t.len());
            assert(part[0] == l[i]);
            assert(part[1] == l[i + 1]);
            assert(part[2] == l[i + 2]);
            assert(part[7] == l[i + 7]);
        }
    }
    assert forall|k: int| 0 < k < t.len() && k <= l.len() implies l.skip(l.len() - k) != t.take(
        k,
    ) by {
        assert(l.skip(l.len() - k)[k - 1] == l[l.len() - 1]);
        assert(t.take(k)[k - 1] == t[k - 1]);
        if k >= 2 {
            assert(l.skip(l.len() - k)[k - 2] == l[l.len() - 2]);
            assert(t.take(k)[k - 2] == t[k - 2]);
        }
    }
}

proof fn lemma_banner_inert_443()
    ensures
        inert(banner(), "listen 443 ssl http2"@),
{
    let l = banner();
    let t = "listen 443 ssl http2"@;
    reveal_strlit("listen 443 ssl http2");
    reveal_strlit("# Nginx Reverse Proxy - ");
    assert forall|i: int| !occurs_at(l, t, i) by {
        if 0 <= i && i + t.len() <= l.len() {
            let part = l.subrange(i, i + t.len());
            assert(part[0] == l[i]);
            assert(part[1] == l[i + 1]);
            assert(part[2] == l[i + 2]);
            assert(part[7] == l[i + 7]);
        }
    }
    assert forall|k: int| 0 < k < t.len() && k <= l.len() implies l.skip(l.len() - k) != t.take(
        k,
    ) by {
        assert(l.skip(l.len() - k)[k - 1] == l[l.len() - 1]);
        assert(t.take(k)[k - 1] == t[k - 1]);
        if k >= 2 {
            assert(l.skip(l.len() - k)[k - 2] == l[l.len() - 2]);
            assert(t.take(k)[k - 2] == t[k - 2]);
        }
    }
}

proof fn lemma_stamp_label_inert_443()
    ensures
        inert(stamp_label(), "listen 443 ssl http2"@),
{
    let l = stamp_label();
    let t = "listen 443 ssl http2"@;
    reveal_strlit("listen 443 ssl http2");
    reveal_strlit("\n# Yaradılma: ");
    assert forall|i: int| !occurs_at(l, t, i) by {
        if 0 <= i && i + t.len() <= l.len() {
            let part = l.subrange(i, i + t.len());
            assert(part[0] == l[i]);
            assert(part[1] == l[i + 1]);
            assert(part[2] == l[i + 2]);
            assert(part[7] == l[i + 7]);
        }
    }
    assert forall|k: int| 0 < k < t.len() && k <= l.len() implies l.skip(l.len() - k) != t.take(
        k,
    ) by {
        assert(l.skip(l.len() - k)[k - 1] == l[l.len() - 1]);
        assert(t.take(k)[k - 1] == t[k - 1]);
        if k >= 2 {
            assert(l.skip(l.len() - k)[k - 2] == l[l.len() - 2]);
            assert(t.take(k)[k - 2] == t[k - 2]);
        }
    }
}

proof fn lemma_backend_label_inert_443()
    ensures
        inert(backend_label(), "listen 443 ssl http2"@),
{
    let l = backend_label();
    let t = "listen 443 ssl http2"@;
    reveal_strlit("listen 443 ssl http2");
    reveal_strlit("\n# Backend: ");
    assert forall|i: int| !occurs_at(l, t, i) by {
        if 0 <= i && i + t.len() <= l.len() {
            let part = l.subrange(i, i + t.len());
            assert(part[0] == l[i]);
            assert(part[1] == l[i + 1]);
            assert(part[2] == l[i + 2]);
            assert(part[7] == l[i + 7]);
        }
    }
    assert forall|k: int| 0 < k < t.len() && k <= l.len() implies l.skip(l.len() - k) != t.take(
        k,
    ) by {
        assert(l.skip(l.len() - k)[k - 1] == l[l.len() - 1]);
        assert(t.take(k)[k - 1] == t[k - 1]);
        if k >= 2 {
            assert(l.skip(l.len() - k)[k - 2] == l[l.len() - 2]);
            assert(t.take(k)[k - 2] == t[k - 2]);
        }
    }
}

proof fn lemma_name_label_inert_443()
    ensures
        inert(name_label(), "listen 443 ssl http2"@),
{
    let l = name_label();
    let t = "listen 443 ssl http2"@;
    reveal_strlit("listen 443 ssl http2");
    reveal_strlit("\n    server_name ");
    assert forall|i: int| !occurs_at(l, t, i) by {
        if 0 <= i && i + t.len() <= l.len() {
            let part = l.subrange(i, i + t.len());
            assert(part[0] == l[i]);
            assert(part[1] == l[i + 1]);
            assert(part[2] == l[i + 2]);
            assert(part[7] == l[i + 7]);
        }
    }
    assert forall|k: int| 0 < k < t.len() && k <= l.len() implies l.skip(l.len() - k) != t.take(
        k,
    ) by {
        assert(l.skip(l.len() - k)[k - 1] == l[l.len() - 1]);
        assert(t.take(k)[k - 1] == t[k - 1]);
        if k >= 2 {
            assert(l.skip(l.len() - k)[k - 2] == l[l.len() - 2]);
            assert(t.take(k)[k - 2] == t[k - 2]);
        }
    }
}

proof fn lemma_location_open_inert_443()
    ensures
        inert(location_open(), "listen 443 ssl http2"@),
{
    let l = location_open();
    let t = "listen 443 ssl http2"@;
    reveal_strlit("listen 443 ssl http2");
    reveal_strlit(";\n\n    location / {\n        proxy_pass ");
    assert forall|i: int| !occurs_at(l, t, i) by {
        if 0 <= i && i + t.len() <= l.len() {
            let part = l.subrange(i, i + t.len());
            assert(part[0] == l[i]);
            assert(part[1] == l[i + 1]);
            assert(part[2] == l[i + 2]);
            assert(part[7] == l[i + 7]);
        }
    }
    assert forall|k: int| 0 < k < t.len() && k <= l.len() implies l.skip(l.len() - k) != t.take(
        k,
    ) by {
        assert(l.skip(l.len() - k)[k - 1] == l[l.len() - 1]);
        assert(t.take(k)[k - 1] == t[k - 1]);
        if k >= 2 {
            assert(l.skip(l.len() - k)[k - 2] == l[l.len() - 2]);
            assert(t.take(k)[k - 2] == t[k - 2]);
        }
    }
}

proof fn lemma_directives_inert_443()
    ensures
        inert(directives(), "listen 443 ssl http2"@),
{
    let l = directives();
    let t = "listen 443 ssl http2"@;
    reveal_strlit("listen 443 ssl http2");
    reveal_strlit(";\n        proxy_http_version 1.1;\n        proxy_set_header Upgrade $http_upgrade;\n        proxy_set_header Connection 'upgrade';\n        proxy_set_header Host $host;\n        proxy_set_header X-Real-IP $remote_addr;\n        proxy_set_header X-Forwarded-For $proxy_add_x_forwarded_for;\n        proxy_set_header X-Forwarded-Proto $scheme;\n        proxy_cache_bypass $http_upgrade;\n        proxy_connect_timeout 60s;\n        proxy_send_timeout 60s;\n        proxy_read_timeout 60s;");
    assert forall|i: int| !occurs_at(l, t, i) by {
        if 0 <= i && i + t.len() <= l.len() {
            let part = l.subrange(i, i + t.len());
            assert(part[0] == l[i]);
            assert(part[1] == l[i + 1]);
            assert(part[2] == l[i + 2]);
            assert(part[7] == l[i + 7]);
        }
    }
    assert forall|k: int| 0 < k < t.len() && k <= l.len() implies l.skip(l.len() - k) != t.take(
        k,
    ) by {
        assert(l.skip(l.len() - k)[k - 1] == l[l.len() - 1]);
        assert(t.take(k)[k - 1] == t[k - 1]);
        if k >= 2 {
            assert(l.skip(l.len() - k)[k - 2] == l[l.len() - 2]);
            assert(t.take(k)[k - 2] == t[k - 2]);
        }
    }
}

proof fn lemma_location_close_inert_443()
    ensures
        inert(location_close(), "listen 443 ssl http2"@),
{
    let l = location_close();
    let t = "listen 443 ssl http2"@;
    reveal_strlit("listen 443 ssl http2");
    reveal_strlit("\n    }");
    assert forall|i: int| !occurs_at(l, t, i) by {
        if 0 <= i && i + t.len() <= l.len() {
            let part = l.subrange(i, i + t.len());
            assert(part[0] == l[i]);
            assert(part[1] == l[i + 1]);
            assert(part[2] == l[i + 2]);
            assert(part[7] == l[i + 7]);
        }
    }
    assert forall|k: int| 0 < k < t.len() && k <= l.len() implies l.skip(l.len() - k) != t.take(
        k,
    ) by {
        assert(l.skip(l.len() - k)[k - 1] == l[l.len() - 1]);
        assert(t.take(k)[k - 1] == t[k - 1]);
        if k >= 2 {
            assert(l.skip(l.len() - k)[k - 2] == l[l.len() - 2]);
            assert(t.take(k)[k - 2] == t[k - 2]);
        }
    }
}

proof fn lemma_server_close_inert_443()
    ensures
        inert(server_close(), "listen 443 ssl http2"@),
{
    let l = server_close();
    let t = "listen 443 ssl http2"@;
    reveal_strlit("listen 443 ssl http2");
    reveal_strlit("\n}\n");
    assert forall|i: int| !occurs_at(l, t, i) by {
        if 0 <= i && i + t.len() <= l.len() {
            let part = l.subrange(i, i + t.len());
            assert(part[0] == l[i]);
            assert(part[1] == l[i + 1]);
            assert(part[2] == l[i + 2]);
            assert(part[7] == l[i + 7]);
        }
    }
    assert forall|k: int| 0 < k < t.len() && k <= l.len() implies l.skip(l.len() - k) != t.take(
        k,
    ) by {
        assert(l.skip(l.len() - k)[k - 1] == l[l.len() - 1]);
        assert(t.take(k)[k - 1] == t[k - 1]);
        if k >= 2 {
            assert(l.skip(l.len() - k)[k - 2] == l[l.len() - 2]);
            assert(t.take(k)[k - 2] == t[k - 2]);
        }
    }
}

proof fn lemma_plain_opening_inert_443()
    ensures
        inert(server_open() + plain_stanza(), "listen 443 ssl http2"@),
{
    let l = server_open() + plain_stanza();
    let t = "listen 443 ssl http2"@;
    reveal_strlit("listen 443 ssl http2");
    reveal_strlit("\n\nserver {\n");
    reveal_strlit("    listen 80;\n    listen [::]:80;");
    assert forall|i: int| !occurs_at(l, t, i) by {
        if 0 <= i && i + t.len() <= l.len() {
            let part = l.subrange(i, i + t.len());
            assert(part[0] == l[i]);
            assert(part[1] == l[i + 1]);
            assert(part[2] == l[i + 2]);
            assert(part[7] == l[i + 7]);
        }
    }
    assert forall|k: int| 0 < k < t.len() && k <= l.len() implies l.skip(l.len() - k) != t.take(
        k,
    ) by {
        assert(l.skip(l.len() - k)[k - 1] == l[l.len() - 1]);
        assert(t.take(k)[k - 1] == t[k - 1]);
        if k >= 2 {
            assert(l.skip(l.len() - k)[k - 2] == l[l.len() - 2]);
            assert(t.take(k)[k - 2] == t[k - 2]);
        }
    }
}

/// A configuration rendered for TLS holds the words `listen 80` exactly
/// where one of the parts that the definition and the clock supply holds
/// them: its fixed text does not.
pub proof fn lemma_tls_omits_plain_token(p: ProxyView, stamp: Seq<char>)
    requires
        p.ssl,
    ensures
        contains(render_text(p, stamp), "listen 80"@) <==> !quiet(p, stamp, "listen 80"@),
{
    let t = "listen 80"@;
    reveal_strlit("listen 80");
    let none = Seq::<char>::empty();
    assert(!contains(none, t)) by {
        assert forall|i: int| !occurs_at(none, t, i) by {}
    }
    let x0 = none;
    lemma_banner_inert_80();
    let x1 = x0 + (banner()) + p.name;
    lemma_inert_between(x0, banner(), p.name, t);
    lemma_stamp_label_inert_80();
    let x2 = x1 + (stamp_label()) + stamp;
    lemma_inert_between(x1, stamp_label(), stamp, t);
    lemma_backend_label_inert_80();
    let x3 = x2 + (backend_label()) + p.backend;
    lemma_inert_between(x2, backend_label(), p.backend, t);
    lemma_server_open_inert_80();
    let x4 = x3 + (server_open()) + none;
    lemma_inert_between(x3, server_open(), none, t);
    lemma_tls_head_inert_80();
    let x5 = x4 + (tls_head()) + p.domain;
    lemma_inert_between(x4, tls_head(), p.domain, t);
    lemma_tls_middle_inert_80();
    let x6 = x5 + (tls_middle()) + p.domain;
    lemma_inert_between(x5, tls_middle(), p.domain, t);
    lemma_tls_tail_inert_80();
    let x7 = x6 + (tls_tail()) + none;
    lemma_inert_between(x6, tls_tail(), none, t);
    lemma_name_label_inert_80();
    let x8 = x7 + (name_label()) + p.domain;
    lemma_inert_between(x7, name_label(), p.domain, t);
    lemma_location_open_inert_80();
    let x9 = x8 + (location_open()) + p.backend;
    lemma_inert_between(x8, location_open(), p.backend, t);
    lemma_directives_inert_80();
    let x10 = x9 + (directives()) + extra_in_location(p.extra_config);
    lemma_inert_between(x9, directives(), extra_in_location(p.extra_config), t);
    lemma_location_close_inert_80();
    let x11 = x10 + (location_close()) + extra_in_server(p.extra_config);
    lemma_inert_between(x10, location_close(), extra_in_server(p.extra_config), t);
    lemma_server_close_inert_80();
    let x12 = x11 + (server_close()) + none;
    lemma_inert_between(x11, server_close(), none, t);
    assert(render_text(p, stamp) =~= x12);
}

/// A configuration rendered without TLS holds the words
/// `listen 443 ssl http2` exactly where one of the parts that the definition
/// and the clock supply holds them: its fixed text does not.
pub proof fn lemma_plain_omits_tls_token(p: ProxyView, stamp: Seq<char>)
    requires
        !p.ssl,
    ensures
        contains(render_text(p, stamp), "listen 443 ssl http2"@) <==> !quiet(p, stamp, "listen 443 ssl http2"@),
{
    let t = "listen 443 ssl http2"@;
    reveal_strlit("listen 443 ssl http2");
    let none = Seq::<char>::empty();
    assert(!contains(none, t)) by {
        assert forall|i: int| !occurs_at(none, t, i) by {}
    }
    let x0 = none;
    lemma_banner_inert_443();
    let x1 = x0 + (banner()) + p.name;
    lemma_inert_between(x0, banner(), p.name, t);
    lemma_stamp_label_inert_443();
    let x2 = x1 + (stamp_label()) + stamp;
    lemma_inert_between(x1, stamp_label(), stamp, t);
    lemma_backend_label_inert_443();
    let x3 = x2 + (backend_label()) + p.backend;
    lemma_inert_between(x2, backend_label(), p.backend, t);
    lemma_plain_opening_inert_443();
    let x4 = x3 + (server_open() + plain_stanza()) + none;
    lemma_inert_between(x3, server_open() + plain_stanza(), none, t);
    lemma_name_label_inert_443();
    let x5 = x4 + (name_label()) + p.domain;
    lemma_inert_between(x4, name_label(), p.domain, t);
    lemma_location_open_inert_443();
    let x6 = x5 + (location_open()) + p.backend;
    lemma_inert_between(x5, location_open(), p.backend, t);
    lemma_directives_inert_443();
    let x7 = x6 + (directives()) + extra_in_location(p.extra_config);
    lemma_inert_between(x6, directives(), extra_in_location(p.extra_config), t);
    lemma_location_close_inert_443();
    let x8 = x7 + (location_close()) + extra_in_server(p.extra_config);
    lemma_inert_between(x7, location_close(), extra_in_server(p.extra_config), t);
    lemma_server_close_inert_443();
    let x9 = x8 + (server_close()) + none;
    lemma_inert_between(x8, server_close(), none, t);
    assert(render_text(p, stamp) =~= x9);
}

} // verus!
