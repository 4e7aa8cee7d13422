//! Multiplayer server list: parsing what the player typed as a server address,
//! the address shown for a server, session URLs and the keys that identify a
//! server, and the UI actions of the server screen.
use vstd::prelude::*;
use crate::text::{
    all_digits, ascii_lower, decimal_chars, find_seq_from, is_prefix, last_index_of, parse_unsigned,
    trim_end_matches_seq, trim_matches_seq, trim_seq, lemma_parse_decimal_chars, lemma_decimal_chars,
    lemma_last_index_of, lemma_find_seq_from, push_char, push_decimal, to_owned_string,
    to_ascii_lowercase, trim, trim_end_matches_char, trim_matches_char, rfind_char, find_text,
    strip_prefix, parse_u16, is_digit_char, is_ws,
};

verus! {

pub const DEFAULT_SERVER_PORT: u16 = 14191;

/// `s` without a leading `http://`, then without a leading `https://`.
pub open spec fn strip_schemes(s: Seq<char>) -> Seq<char> {
    let a = if is_prefix("http://"@, s) {
        s.subrange("http://"@.len() as int, s.len() as int)
    } else {
        s
    };
    if is_prefix("https://"@, a) {
        a.subrange("https://"@.len() as int, a.len() as int)
    } else {
        a
    }
}

/// The host and port that the typed server address `input` names.
pub open spec fn server_address_of(input: Seq<char>) -> Option<(Seq<char>, u16)> {
    let v0 = trim_matches_seq(trim_seq(input), '/');
    if v0.len() == 0 {
        None
    } else {
        let v = strip_schemes(v0);
        match last_index_of(v, ':') {
            Some(i) if all_digits(v.subrange(i + 1, v.len() as int)) => {
                match parse_unsigned(v.subrange(i + 1, v.len() as int), u16::MAX as nat) {
                    None => None,
                    Some(port) => {
                        let host = trim_end_matches_seq(trim_seq(v.subrange(0, i)), '/');
                        if host.len() == 0 {
                            None
                        } else {
                            Some((host, port as u16))
                        }
                    },
                }
            },
            _ => Some((trim_end_matches_seq(v, '/'), DEFAULT_SERVER_PORT)),
        }
    }
}

pub open spec fn opt_host_port(r: Option<(String, u16)>, s: Option<(Seq<char>, u16)>) -> bool {
    match s {
        Some((h, p)) => r matches Some((hs, pp)) && hs@ == h && pp == p,
        None => r is None,
    }
}

fn all_digit_chars(s: &str) -> (r: bool)
    ensures
        r == all_digits(s@),
{
    let n = s.unicode_len();
    let mut i: usize = 0;
    while i < n
        invariant
            n == s@.len(),
            i <= n,
            forall|k: int| 0 <= k < i ==> crate::text::is_digit(#[trigger] s@[k]),
        decreases n - i,
    {
        if !is_digit_char(s.get_char(i)) {
            return false;
        }
        i = i + 1;
    }
    true
}

/// The host and port of a server address typed by the player: surrounding
/// whitespace and slashes and an `http://` or `https://` scheme are dropped; a
/// trailing `:digits` is the port, otherwise the default port applies. `None`
/// for an empty address, an empty host or a port out of range.
pub fn parse_server_address(input: &str) -> (r: Option<(String, u16)>)
    ensures
        opt_host_port(r, server_address_of(input@)),
{
    let value0 = trim_matches_char(trim(input), '/');
    if value0.unicode_len() == 0 {
        return None;
    }
    let value1 = match strip_prefix(value0, "http://") {
        Some(rest) => rest,
        None => value0,
    };
    let value = match strip_prefix(value1, "https://") {
        Some(rest) => rest,
        None => value1,
    };
    assert(value@ == strip_schemes(value0@));
    let n = value.unicode_len();
    match rfind_char(value, ':') {
        Some(i) => {
            proof {
                lemma_last_index_of(value@, ':');
            }
            let port_text = value.substring_char(i + 1, n);
            if all_digit_chars(port_text) {
                let port = match parse_u16(port_text) {
                    Some(p) => p,
                    None => {
                        return None;
                    },
                };
                let host = trim_end_matches_char(trim(value.substring_char(0, i)), '/');
                if host.unicode_len() == 0 {
                    return None;
                }
                return Some((to_owned_string(host), port));
            }
        },
        None => {},
    }
    Some((to_owned_string(trim_end_matches_char(value, '/')), DEFAULT_SERVER_PORT))
}

/// `http://<host>:<port>`.
pub open spec fn display_address_of(host: Seq<char>, port: u16) -> Seq<char> {
    "http://"@ + host + seq![':'] + decimal_chars(port as nat)
}

/// The address shown for a server.
pub fn display_server_address(host: &str, port: u16) -> (r: String)
    ensures
        r@ == display_address_of(host@, port),
{
    let mut out = to_owned_string("http://");
    out.append(host);
    push_char(&mut out, ':');
    push_decimal(&mut out, port as u64);
    out
}

/// The UDP port on which a server answers discovery queries.
pub fn discovery_port_for(game_port: u16) -> (r: u16)
    ensures
        r == if game_port == u16::MAX {
            u16::MAX as int
        } else {
            game_port + 1
        },
{
    game_port.saturating_add(1)
}

/// `<lower-case trimmed host>:<port>`.
pub open spec fn server_key_of(host: Seq<char>, port: u16) -> Seq<char> {
    ascii_lower(trim_seq(host)) + seq![':'] + decimal_chars(port as nat)
}

/// The key that identifies a server in the list.
pub fn server_key(host: &str, port: u16) -> (r: String)
    ensures
        r@ == server_key_of(host@, port),
{
    let mut out = to_ascii_lowercase(trim(host));
    push_char(&mut out, ':');
    push_decimal(&mut out, port as u64);
    out
}

/// The part of a URL after its scheme (after the first `://`), or all of it.
pub open spec fn without_scheme(s: Seq<char>) -> Seq<char> {
    match find_seq_from(s, "://"@, 0) {
        Some(k) => s.subrange(k + "://"@.len(), s.len() as int),
        None => s,
    }
}

/// The part of `s` before the first `/`.
pub open spec fn before_slash(s: Seq<char>) -> Seq<char> {
    match crate::text::find_seq_from(s, seq!['/'], 0) {
        Some(k) => s.subrange(0, k),
        None => s,
    }
}

/// The host and port of a session URL `scheme://host:port/...`.
pub open spec fn session_address_of(url: Seq<char>) -> Option<(Seq<char>, u16)> {
    let host_port = trim_seq(before_slash(without_scheme(trim_seq(url))));
    match last_index_of(host_port, ':') {
        None => None,
        Some(i) => match parse_unsigned(
            host_port.subrange(i + 1, host_port.len() as int),
            u16::MAX as nat,
        ) {
            None => None,
            Some(p) => Some((host_port.subrange(0, i), p as u16)),
        },
    }
}

/// The host and port of a session URL.
pub fn parse_session_url(session_url: &str) -> (r: Option<(String, u16)>)
    ensures
        opt_host_port(r, session_address_of(session_url@)),
{
    let trimmed = trim(session_url);
    proof {
        reveal_strlit("://");
        reveal_strlit("/");
        assert("/"@ =~= seq!['/']);
    }
    let tn = trimmed.unicode_len();
    let rest = match find_text(trimmed, "://") {
        Some(k) => {
            proof {
                lemma_find_seq_from(trimmed@, "://"@, 0);
            }
            trimmed.substring_char(k + 3, tn)
        },
        None => trimmed,
    };
    assert(rest@ == without_scheme(trimmed@));
    let first = match find_text(rest, "/") {
        Some(k) => {
            proof {
                lemma_find_seq_from(rest@, "/"@, 0);
            }
            rest.substring_char(0, k)
        },
        None => rest,
    };
    assert(first@ == before_slash(rest@));
    let host_port = trim(first);
    let n = host_port.unicode_len();
    match rfind_char(host_port, ':') {
        None => None,
        Some(i) => {
            proof {
                lemma_last_index_of(host_port@, ':');
            }
            match parse_u16(host_port.substring_char(i + 1, n)) {
                None => None,
                Some(port) => Some((to_owned_string(host_port.substring_char(0, i)), port)),
            }
        },
    }
}

/// The key of the server a session URL points at.
pub fn session_url_to_key(session_url: &str) -> (r: Option<String>)
    ensures
        match session_address_of(session_url@) {
            Some((h, p)) => r matches Some(k) && k@ == server_key_of(h, p),
            None => r is None,
        },
{
    match parse_session_url(session_url) {
        Some((host, port)) => Some(server_key(host.as_str(), port)),
        None => None,
    }
}

/// `No discovery response on UDP <discovery port>.`
pub open spec fn offline_message_of(game_port: u16) -> Seq<char> {
    "No discovery response on UDP "@ + decimal_chars(
        (if game_port == u16::MAX {
            u16::MAX as int
        } else {
            game_port + 1
        }) as nat,
    ) + seq!['.']
}

/// The status line of a server that did not answer.
pub fn offline_status_message(game_port: u16) -> (r: String)
    ensures
        r@ == offline_message_of(game_port),
{
    let mut out = to_owned_string("No discovery response on UDP ");
    push_decimal(&mut out, discovery_port_for(game_port) as u64);
    push_char(&mut out, '.');
    out
}

// ---------------------------------------------------------------------------
// Laws
// ---------------------------------------------------------------------------

proof fn lemma_no_ws_at_ends(s: Seq<char>)
    requires
        s.len() > 0,
        !is_ws(s[0]),
        !is_ws(s.last()),
    ensures
        trim_seq(s) == s,
{
    crate::text::lemma_leading_ws_exact(s, 0);
    let t = crate::text::trim_start_seq(s);
    assert(t =~= s);
    crate::text::lemma_trailing_ws_exact(s, s.len() as int);
    assert(crate::text::trim_end_seq(s) =~= s);
}

/// The address shown for a server is a session URL that leads back to the same
/// host and port, for a host without `/` that does not begin with whitespace.
pub proof fn lemma_display_address_round_trip(host: Seq<char>, port: u16)
    requires
        !host.contains('/'),
        host.len() > 0 ==> !is_ws(host[0]),
    ensures
        session_address_of(display_address_of(host, port)) == Some((host, port)),
{
    reveal_strlit("http://");
    reveal_strlit("://");
    let d = decimal_chars(port as nat);
    lemma_decimal_chars(port as nat);
    lemma_parse_decimal_chars(port as nat, u16::MAX as nat);
    let url = display_address_of(host, port);
    assert(url[0] == 'h');
    assert(!is_ws(url.last())) by {
        assert(url.last() == d.last());
        assert(crate::text::is_digit(d[d.len() - 1]));
    }
    lemma_no_ws_at_ends(url);
    let hp = host + seq![':'] + d;
    // The first `://` is the one of the scheme.
    assert(url.subrange(4, 7) =~= "://"@);
    assert(find_seq_from(url, "://"@, 0) == Some(4int)) by {
        let pat = "://"@;
        assert(url.subrange(0, 3) != pat) by {
            assert(url.subrange(0, 3)[0] == 'h');
        }
        assert(url.subrange(1, 4) != pat) by {
            assert(url.subrange(1, 4)[0] == 't');
        }
        assert(url.subrange(2, 5) != pat) by {
            assert(url.subrange(2, 5)[0] == 't');
        }
        assert(url.subrange(3, 6) != pat) by {
            assert(url.subrange(3, 6)[0] == 'p');
        }
        assert(find_seq_from(url, pat, 4) == Some(4int));
        assert(find_seq_from(url, pat, 3) == find_seq_from(url, pat, 4));
        assert(find_seq_from(url, pat, 2) == find_seq_from(url, pat, 3));
        assert(find_seq_from(url, pat, 1) == find_seq_from(url, pat, 2));
        assert(find_seq_from(url, pat, 0) == find_seq_from(url, pat, 1));
    }
    assert(without_scheme(url) =~= hp);
    // No `/` in `host:port`.
    assert(!hp.contains('/')) by {
        assert forall|k: int| 0 <= k < hp.len() implies hp[k] != '/' by {
            if k < host.len() {
                assert(hp[k] == host[k]);
            } else if k > host.len() {
                assert(hp[k] == d[k - host.len() - 1]);
                assert(crate::text::is_digit(d[k - host.len() - 1]));
            }
        }
    }
    lemma_find_seq_from(hp, seq!['/'], 0);
    if find_seq_from(hp, seq!['/'], 0) is Some {
        let k = find_seq_from(hp, seq!['/'], 0)->0;
        assert(hp.subrange(k, k + 1)[0] == hp[k]);
    }
    assert(before_slash(hp) == hp);
    if host.len() > 0 {
        assert(hp[0] == host[0]);
    } else {
        assert(hp[0] == ':');
    }
    assert(hp.last() == d.last());
    lemma_no_ws_at_ends(hp);
    // The last `:` is the separator: the port digits hold none.
    lemma_last_index_of(hp, ':');
    let i = host.len() as int;
    assert(hp[i] == ':');
    assert forall|j: int| i < j < hp.len() implies hp[j] != ':' by {
        assert(hp[j] == d[j - i - 1]);
        assert(crate::text::is_digit(d[j - i - 1]));
    }
    assert(last_index_of(hp, ':') == Some(i)) by {
        let li = last_index_of(hp, ':');
        if li is None {
            assert(hp.contains(':'));
        } else {
            let k = li->0;
            if k < i {
                assert(hp[i] != ':');
            }
        }
    }
    assert(hp.subrange(i + 1, hp.len() as int) =~= d);
    assert(hp.subrange(0, i) =~= host);
}

/// The key of the session URL shown for a server is the server's own key.
pub proof fn lemma_display_address_key(host: Seq<char>, port: u16)
    requires
        !host.contains('/'),
        host.len() > 0 ==> !is_ws(host[0]),
    ensures
        session_address_of(display_address_of(host, port)) matches Some((h, p)) && server_key_of(h, p)
            == server_key_of(host, port),
{
    lemma_display_address_round_trip(host, port);
}

proof fn lemma_no_slash_at_ends(s: Seq<char>)
    requires
        s.len() > 0,
        s[0] != '/',
        s.last() != '/',
    ensures
        trim_matches_seq(s, '/') == s,
        trim_end_matches_seq(s, '/') == s,
{
    assert(crate::text::leading_count(s, '/') == 0);
    assert(crate::text::trim_start_matches_seq(s, '/') =~= s);
    assert(crate::text::trailing_count(s, '/') == 0);
    assert(trim_end_matches_seq(s, '/') =~= s);
}

/// A text whose character at `k` is not `/` does not begin with a scheme
/// whose character at `k` is.
proof fn lemma_not_scheme(s: Seq<char>, scheme: Seq<char>, k: int)
    requires
        0 <= k < scheme.len(),
        scheme[k] == '/',
        k < s.len() ==> s[k] != '/',
    ensures
        !is_prefix(scheme, s),
{
    if is_prefix(scheme, s) {
        assert(s.subrange(0, scheme.len() as int)[k] == s[k]);
    }
}

/// A host as the server list holds it: not empty, without surrounding
/// whitespace, and without `/` or `:`.
pub open spec fn plain_host(host: Seq<char>) -> bool {
    &&& host.len() > 0
    &&& !is_ws(host[0])
    &&& !is_ws(host.last())
    &&& !host.contains('/')
    &&& !host.contains(':')
}

/// Typing the address shown for a server gives back the server's host and
/// port; typing the bare host gives the host with the default port.
pub proof fn lemma_typed_address_round_trip(host: Seq<char>, port: u16)
    requires
        plain_host(host),
    ensures
        server_address_of(display_address_of(host, port)) == Some((host, port)),
        server_address_of(host) == Some((host, DEFAULT_SERVER_PORT)),
{
    reveal_strlit("http://");
    reveal_strlit("https://");
    let d = decimal_chars(port as nat);
    lemma_decimal_chars(port as nat);
    lemma_parse_decimal_chars(port as nat, u16::MAX as nat);
    assert(!host.contains('/') ==> host[0] != '/');
    assert(!host.contains('/') ==> host.last() != '/') by {
        assert(host[host.len() - 1] == host.last());
    }
    assert(host[host.len() - 1] != '/');
    // The shown address.
    let url = display_address_of(host, port);
    let a = host + seq![':'] + d;
    assert(url[0] == 'h');
    assert(url.last() == d.last());
    assert(crate::text::is_digit(d[d.len() - 1]));
    lemma_no_ws_at_ends(url);
    lemma_no_slash_at_ends(url);
    assert(url.subrange(0, 7) =~= "http://"@);
    assert(url.subrange(7, url.len() as int) =~= a);
    assert forall|k: int| 0 <= k < a.len() implies a[k] != '/' by {
        if k < host.len() {
            assert(a[k] == host[k]);
        } else if k > host.len() {
            assert(a[k] == d[k - host.len() - 1]);
            assert(crate::text::is_digit(d[k - host.len() - 1]));
        }
    }
    lemma_not_scheme(a, "https://"@, 6);
    assert(strip_schemes(url) =~= a);
    let i = host.len() as int;
    lemma_last_index_of(a, ':');
    assert(a[i] == ':');
    assert forall|j: int| i < j < a.len() implies a[j] != ':' by {
        assert(a[j] == d[j - i - 1]);
        assert(crate::text::is_digit(d[j - i - 1]));
    }
    assert(last_index_of(a, ':') == Some(i)) by {
        let li = last_index_of(a, ':');
        if li is None {
            assert(a.contains(':'));
        } else {
            let k = li->0;
            if k < i {
                assert(a[k] == host[k]);
            }
        }
    }
    assert(a.subrange(i + 1, a.len() as int) =~= d);
    assert(a.subrange(0, i) =~= host);
    lemma_no_ws_at_ends(host);
    lemma_no_slash_at_ends(host);
    // The bare host.
    lemma_not_scheme(host, "http://"@, 5);
    lemma_not_scheme(host, "https://"@, 6);
    assert(strip_schemes(host) == host);
    lemma_last_index_of(host, ':');
}

} // verus!
