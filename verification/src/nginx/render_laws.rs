//! What holds of every rendered configuration: which listen stanza it
//! carries, and where the extra text stands.

use vstd::prelude::*;
use crate::nginx::config::{
    backend_label, banner, directives, extra_in_location, extra_in_server, has_location_marker,
    listen_stanza, location_close, location_open, name_label, render_head, render_text,
    server_close, server_open, stamp_label, tls_head,
};
use crate::nginx::models::ProxyView;
use crate::text::{contains, lines, occurs_at, padded_block, trim};

verus! {

/// What occurs in a part of a text occurs in the text.
pub proof fn lemma_contains_in_part(before: Seq<char>, part: Seq<char>, after: Seq<char>, p: Seq<char>)
    requires
        contains(part, p),
    ensures
        contains(before + part + after, p),
{
    let i = choose|i: int| occurs_at(part, p, i);
    let whole = before + part + after;
    assert(whole.subrange(before.len() + i, before.len() + i + p.len()) =~= part.subrange(
        i,
        i + p.len(),
    ));
    assert(occurs_at(whole, p, before.len() + i));
}

/// The stanza for TLS names port 443 with TLS and HTTP/2, and the plain
/// stanza names port 80.
pub proof fn lemma_stanza_token(ssl: bool, domain: Seq<char>)
    ensures
        ssl ==> contains(listen_stanza(ssl, domain), "listen 443 ssl http2"@),
        !ssl ==> contains(listen_stanza(ssl, domain), "listen 80"@),
{
    let stanza = listen_stanza(ssl, domain);
    if ssl {
        let token = "listen 443 ssl http2"@;
        reveal_strlit("listen 443 ssl http2");
        reveal_strlit(
            "\n    listen 443 ssl http2;\n    listen [::]:443 ssl http2;\n    \n    # SSL sertifikatları (Let's Encrypt və ya özəl)\n    # ssl_certificate /etc/letsencrypt/live/",
        );
        assert(tls_head().subrange(5, 5int + token.len()) =~= token);
        assert(stanza.subrange(5, 5int + token.len()) =~= tls_head().subrange(
            5,
            5int + token.len(),
        ));
        assert(occurs_at(stanza, token, 5));
    } else {
        let token = "listen 80"@;
        reveal_strlit("listen 80");
        reveal_strlit("    listen 80;\n    listen [::]:80;");
        assert(stanza.subrange(4, 4int + token.len()) =~= token);
        assert(occurs_at(stanza, token, 4));
    }
}

/// A configuration rendered for TLS holds the words `listen 443 ssl http2`,
/// and one rendered without holds the words `listen 80`.
pub proof fn lemma_listen_token(p: ProxyView, stamp: Seq<char>)
    ensures
        p.ssl ==> contains(render_text(p, stamp), "listen 443 ssl http2"@),
        !p.ssl ==> contains(render_text(p, stamp), "listen 80"@),
{
    lemma_stanza_token(p.ssl, p.domain);
    let before = banner() + p.name + stamp_label() + stamp + backend_label() + p.backend
        + server_open();
    let stanza = listen_stanza(p.ssl, p.domain);
    let after = name_label() + p.domain + location_open() + p.backend + directives()
        + extra_in_location(p.extra_config) + location_close() + extra_in_server(p.extra_config)
        + server_close();
    assert(render_text(p, stamp) =~= before + stanza + after);
    if p.ssl {
        lemma_contains_in_part(before, stanza, after, "listen 443 ssl http2"@);
    } else {
        lemma_contains_in_part(before, stanza, after, "listen 80"@);
    }
}

/// Extra text that holds the word `location` stands behind the closing
/// brace of the default location block, at the level of the server; other
/// extra text stands before that brace, inside the block. What precedes the
/// extra text is the same whatever the extra text is.
pub proof fn lemma_extra_placement(p: ProxyView, stamp: Seq<char>)
    ensures
        render_head(p, stamp) == render_head(ProxyView { extra_config: None, ..p }, stamp),
        match p.extra_config {
            Some(e) => if has_location_marker(e) {
                render_text(p, stamp) == render_head(p, stamp) + location_close()
                    + "\n    # Əlavə konfiqurasiya\n"@ + padded_block(lines(trim(e)), "    "@)
                    + server_close()
            } else {
                render_text(p, stamp) == render_head(p, stamp)
                    + "\n        # Əlavə konfiqurasiya\n"@ + padded_block(
                    lines(trim(e)),
                    "        "@,
                ) + location_close() + server_close()
            },
            None => render_text(p, stamp) == render_head(p, stamp) + location_close() + server_close(),
        },
{
    let head = render_head(p, stamp);
    match p.extra_config {
        Some(e) => {
            if has_location_marker(e) {
                assert(render_text(p, stamp) =~= head + location_close()
                    + "\n    # Əlavə konfiqurasiya\n"@ + padded_block(lines(trim(e)), "    "@)
                    + server_close());
            } else {
                assert(render_text(p, stamp) =~= head + "\n        # Əlavə konfiqurasiya\n"@
                    + padded_block(lines(trim(e)), "        "@) + location_close() + server_close());
            }
        },
        None => {
            assert(render_text(p, stamp) =~= head + location_close() + server_close());
        },
    }
}

} // verus!
