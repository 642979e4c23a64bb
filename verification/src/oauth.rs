//! The OAuth authorization flow: choosing a loopback port, building the
//! authorization URL that embeds the matching redirect URI, and extracting
//! the authorization code from the callback request line.
//!
//! The surrounding process performs the socket work: it probes which ports
//! in the range are free, binds the chosen one, and hands the raw callback
//! URL back to [`extract_code`].

use vstd::prelude::*;
use crate::numfmt::{dec_chars, u64_to_string};
use crate::strutil::{find_char, until_char, matches_at, match_at, push_char};
use crate::strutil::{lemma_find_char_at, lemma_find_char_absent, lemma_until_char_clean};
use crate::urlenc::{url_encoded, encode};

verus! {

/// First port probed for the loopback listener.
pub const OAUTH_PORT_BASE: u16 = 8080;

/// Number of consecutive ports probed, ending at 8090.
pub const OAUTH_PORT_COUNT: usize = 11;

/// The space-separated scope list requested from the authorization server.
pub open spec fn scopes_chars() -> Seq<char> {
    "https://www.googleapis.com/auth/userinfo.email https://www.googleapis.com/auth/userinfo.profile https://www.googleapis.com/auth/forms.body https://www.googleapis.com/auth/forms.responses.readonly https://www.googleapis.com/auth/gmail.send https://www.googleapis.com/auth/drive"@
}

/// The scope list as a string.
pub fn oauth_scopes() -> (r: String)
    ensures
        r@ == scopes_chars(),
{
    String::from_str(
        "https://www.googleapis.com/auth/userinfo.email https://www.googleapis.com/auth/userinfo.profile https://www.googleapis.com/auth/forms.body https://www.googleapis.com/auth/forms.responses.readonly https://www.googleapis.com/auth/gmail.send https://www.googleapis.com/auth/drive",
    )
}

/// The redirect URI that the authorization server sends the browser back to.
pub open spec fn redirect_uri_chars(port: u16) -> Seq<char> {
    "http://localhost:"@ + dec_chars(port as nat) + "/callback"@
}

/// Builds the redirect URI for a port.
pub fn redirect_uri_for_port(port: u16) -> (r: String)
    ensures
        r@ == redirect_uri_chars(port),
{
    let mut s = String::from_str("http://localhost:");
    s.append(u64_to_string(port as u64).as_str());
    s.append("/callback");
    s
}

/// The loopback address the capture listener binds.
pub open spec fn bind_addr_chars(port: u16) -> Seq<char> {
    "127.0.0.1:"@ + dec_chars(port as nat)
}

/// Builds the loopback bind address for a port.
pub fn bind_address(port: u16) -> (r: String)
    ensures
        r@ == bind_addr_chars(port),
{
    let mut s = String::from_str("127.0.0.1:");
    s.append(u64_to_string(port as u64).as_str());
    s
}

/// The authorization URL: the fixed endpoint with the client id inserted
/// verbatim and the redirect URI and scope list percent-encoded.
pub open spec fn auth_url_chars(client_id: Seq<char>, redirect_uri: Seq<char>) -> Seq<char> {
    "https://accounts.google.com/o/oauth2/v2/auth?client_id="@ + client_id + "&redirect_uri="@
        + url_encoded(redirect_uri) + "&response_type=code&scope="@ + url_encoded(scopes_chars())
        + "&access_type=offline&prompt=consent"@
}

/// Builds the authorization URL for a client id and redirect URI.
pub fn get_google_auth_url(client_id: &str, redirect_uri: &str) -> (r: String)
    ensures
        r@ == auth_url_chars(client_id@, redirect_uri@),
{
    let mut s = String::from_str("https://accounts.google.com/o/oauth2/v2/auth?client_id=");
    s.append(client_id);
    s.append("&redirect_uri=");
    s.append(encode(redirect_uri).as_str());
    s.append("&response_type=code&scope=");
    let scopes = oauth_scopes();
    s.append(encode(scopes.as_str()).as_str());
    s.append("&access_type=offline&prompt=consent");
    proof {
        assert(s@ =~= auth_url_chars(client_id@, redirect_uri@));
    }
    s
}

/// Index of the first free port slot, if any.
pub open spec fn first_free_index(avail: Seq<bool>) -> Option<int>
    decreases avail.len(),
{
    if avail.len() == 0 {
        None
    } else if avail[0] {
        Some(0int)
    } else {
        match first_free_index(avail.skip(1)) {
            Some(i) => Some(i + 1),
            None => None,
        }
    }
}

/// `first_free_index` returns exactly the first free slot.
pub proof fn lemma_first_free_at(avail: Seq<bool>, i: int)
    requires
        0 <= i < avail.len(),
        avail[i],
        forall|j: int| 0 <= j < i ==> !avail[j],
    ensures
        first_free_index(avail) == Some(i),
    decreases i,
{
    if i > 0 {
        lemma_first_free_at(avail.skip(1), i - 1);
    }
}

/// When no slot is free, `first_free_index` reports so.
pub proof fn lemma_first_free_absent(avail: Seq<bool>)
    requires
        forall|j: int| 0 <= j < avail.len() ==> !avail[j],
    ensures
        first_free_index(avail) is None,
    decreases avail.len(),
{
    if avail.len() > 0 {
        lemma_first_free_absent(avail.skip(1));
    }
}

/// The outcome of planning the OAuth flow: the chosen loopback port, the
/// redirect URI embedding it, and the authorization URL embedding the
/// encoded redirect URI.
#[derive(Debug)]
pub struct OauthPlan {
    pub auth_url: String,
    pub port: u16,
    pub redirect_uri: String,
}

/// Plans the OAuth flow. `port_free[i]` reports whether port `8080 + i`
/// could be bound; the first free port in the range is chosen, and both the
/// returned redirect URI and the authorization URL embed exactly that port.
pub fn start_oauth_flow(client_id: &str, port_free: &Vec<bool>) -> (r: Result<OauthPlan, String>)
    requires
        port_free@.len() == OAUTH_PORT_COUNT,
    ensures
        match r {
            Ok(plan) => {
                &&& first_free_index(port_free@) == Some(plan.port - OAUTH_PORT_BASE)
                &&& OAUTH_PORT_BASE <= plan.port < OAUTH_PORT_BASE + OAUTH_PORT_COUNT
                &&& plan.redirect_uri@ == redirect_uri_chars(plan.port)
                &&& plan.auth_url@ == auth_url_chars(client_id@, redirect_uri_chars(plan.port))
            },
            Err(e) => first_free_index(port_free@) is None && e@
                == "Could not find an available port for OAuth callback"@,
        },
{
    let n = port_free.len();
    let mut i: usize = 0;
    while i < n
        invariant
            n == port_free@.len(),
            n == OAUTH_PORT_COUNT,
            0 <= i <= n,
            forall|j: int| 0 <= j < i ==> !port_free@[j],
        decreases n - i,
    {
        if port_free[i] {
            proof {
                lemma_first_free_at(port_free@, i as int);
            }
            let port: u16 = OAUTH_PORT_BASE + (i as u16);
            let redirect_uri = redirect_uri_for_port(port);
            let auth_url = get_google_auth_url(client_id, redirect_uri.as_str());
            return Ok(OauthPlan { auth_url, port, redirect_uri });
        }
        i += 1;
    }
    proof {
        lemma_first_free_absent(port_free@);
    }
    Err(String::from_str("Could not find an available port for OAuth callback"))
}

/// Index of the first occurrence of the `code=` marker, if any.
pub open spec fn find_code_marker(url: Seq<char>) -> Option<int>
    decreases url.len(),
{
    if url.len() < 5 {
        None
    } else if matches_at(url, 0, "code="@) {
        Some(0int)
    } else {
        match find_code_marker(url.skip(1)) {
            Some(i) => Some(i + 1),
            None => None,
        }
    }
}

/// A match one step into a sequence is a match of its tail.
proof fn lemma_matches_at_skip(s: Seq<char>, i: int, pat: Seq<char>)
    requires
        1 <= i,
        i + pat.len() <= s.len(),
    ensures
        matches_at(s, i, pat) == matches_at(s.skip(1), i - 1, pat),
{
    assert(s.skip(1).subrange(i - 1, i - 1 + pat.len()) =~= s.subrange(i, i + pat.len()));
}

/// `find_code_marker` returns exactly the first position of the marker.
pub proof fn lemma_code_marker_at(url: Seq<char>, i: int)
    requires
        matches_at(url, i, "code="@),
        forall|j: int| 0 <= j < i ==> !matches_at(url, j, "code="@),
    ensures
        find_code_marker(url) == Some(i),
    decreases i,
{
    reveal_strlit("code=");
    if i == 0 {
    } else {
        assert(!matches_at(url, 0, "code="@));
        lemma_matches_at_skip(url, i, "code="@);
        assert forall|j: int| 0 <= j < i - 1 implies !matches_at(url.skip(1), j, "code="@) by {
            if matches_at(url.skip(1), j, "code="@) {
                lemma_matches_at_skip(url, j + 1, "code="@);
                assert(matches_at(url, j + 1, "code="@));
            }
        }
        lemma_code_marker_at(url.skip(1), i - 1);
    }
}

/// When the marker occurs nowhere, `find_code_marker` reports so.
pub proof fn lemma_code_marker_absent(url: Seq<char>)
    requires
        forall|j: int| 0 <= j < url.len() ==> !matches_at(url, j, "code="@),
    ensures
        find_code_marker(url) is None,
    decreases url.len(),
{
    reveal_strlit("code=");
    if url.len() >= 5 {
        assert forall|j: int| 0 <= j < url.skip(1).len() implies !matches_at(
            url.skip(1),
            j,
            "code="@,
        ) by {
            if j + 5 <= url.skip(1).len() && matches_at(url.skip(1), j, "code="@) {
                lemma_matches_at_skip(url, j + 1, "code="@);
                assert(matches_at(url, j + 1, "code="@));
            }
        }
        lemma_code_marker_absent(url.skip(1));
    }
}

/// The code carried by a callback URL: the characters after the first
/// `code=` marker, up to the next `&` or the end.
pub open spec fn code_chars(url: Seq<char>) -> Seq<char>
    recommends
        find_code_marker(url) is Some,
{
    until_char(url.skip(find_code_marker(url)->Some_0 + 5), '&')
}

/// Scans for the first occurrence of the `code=` marker.
fn find_code_marker_pos(url: &str) -> (r: Option<usize>)
    ensures
        match r {
            Some(i) => find_code_marker(url@) == Some(i as int) && i + 5 <= url@.len(),
            None => find_code_marker(url@) is None,
        },
{
    let n = url.unicode_len();
    if n < 5 {
        proof {
            reveal_strlit("code=");
            lemma_code_marker_absent(url@);
        }
        return None;
    }
    let mut i: usize = 0;
    while i <= n - 5
        invariant
            n == url@.len(),
            5 <= n,
            0 <= i <= n - 4,
            forall|j: int| 0 <= j < i ==> !matches_at(url@, j, "code="@),
        decreases n - i,
    {
        if match_at(url, i, "code=") {
            proof {
                lemma_code_marker_at(url@, i as int);
            }
            return Some(i);
        }
        i += 1;
    }
    proof {
        reveal_strlit("code=");
        assert forall|j: int| 0 <= j < url@.len() implies !matches_at(url@, j, "code="@) by {
            if j + 5 <= url@.len() {
                assert(j < i);
            }
        }
        lemma_code_marker_absent(url@);
    }
    None
}

/// Extracts the authorization code from a raw callback URL: everything
/// after the first `code=` marker up to the next `&` or the end of the URL.
/// A URL without the marker yields the missing-code failure.
pub fn extract_code(url: &str) -> (r: Result<String, String>)
    ensures
        match r {
            Ok(code) => find_code_marker(url@) is Some && code@ == code_chars(url@),
            Err(e) => find_code_marker(url@) is None && e@
                == "No authorization code found in callback"@,
        },
{
    let n = url.unicode_len();
    match find_code_marker_pos(url) {
        None => Err(String::from_str("No authorization code found in callback")),
        Some(start) => {
            let ghost tail = url@.skip(start + 5);
            let mut code = String::new();
            let mut j: usize = start + 5;
            while j < n && url.get_char(j) != '&'
                invariant
                    n == url@.len(),
                    start + 5 <= j <= n,
                    tail == url@.skip(start + 5),
                    code@ == tail.take(j - (start + 5)),
                    forall|k: int| 0 <= k < j - (start + 5) ==> tail[k] != '&',
                decreases n - j,
            {
                let c = url.get_char(j);
                push_char(&mut code, c);
                proof {
                    assert(tail[j - (start + 5)] == url@[j as int]);
                    assert(tail.take(j + 1 - (start + 5)) =~= tail.take(j - (start + 5)).push(
                        url@[j as int],
                    ));
                }
                j += 1;
            }
            proof {
                let m = j - (start + 5);
                if j < n {
                    assert(tail[m] == url@[j as int]);
                    lemma_find_char_at(tail, '&', m);
                } else {
                    assert(tail.len() == m);
                    lemma_find_char_absent(tail, '&');
                    assert(tail.take(m) =~= tail);
                }
            }
            Ok(code)
        },
    }
}

/// Law: a callback URL whose first `code=` marker is followed by the code
/// value yields that value exactly, whether or not further parameters
/// follow. The code itself contains no `&`, and what follows it is either
/// nothing or begins with `&`.
pub proof fn lemma_code_round_trip(prefix: Seq<char>, code: Seq<char>, rest: Seq<char>)
    requires
        forall|j: int|
            0 <= j < prefix.len() ==> !matches_at(prefix + "code="@ + code + rest, j, "code="@),
        forall|k: int| 0 <= k < code.len() ==> code[k] != '&',
        rest.len() == 0 || rest[0] == '&',
    ensures
        find_code_marker(prefix + "code="@ + code + rest) == Some(prefix.len() as int),
        code_chars(prefix + "code="@ + code + rest) == code,
{
    reveal_strlit("code=");
    let url = prefix + "code="@ + code + rest;
    assert(url.subrange(prefix.len() as int, prefix.len() as int + 5) =~= "code="@);
    lemma_code_marker_at(url, prefix.len() as int);
    assert(url.skip(prefix.len() as int + 5) =~= code + rest);
    lemma_until_char_clean(code, rest, '&');
}

/// Law: the chosen port is embedded consistently. The authorization URL
/// carries the percent-encoded redirect URI at a fixed position, and the
/// redirect URI and the capture listener's bind address both spell out the
/// same decimal port number.
pub proof fn lemma_port_consistency(client_id: Seq<char>, port: u16)
    ensures
        ({
            let uri = redirect_uri_chars(port);
            let enc = url_encoded(uri);
            let url = auth_url_chars(client_id, uri);
            let at = "https://accounts.google.com/o/oauth2/v2/auth?client_id="@.len()
                + client_id.len() + "&redirect_uri="@.len();
            let digits_at = "http://localhost:"@.len();
            let digits = dec_chars(port as nat);
            &&& url.subrange(at as int, at as int + enc.len()) == enc
            &&& uri.subrange(digits_at as int, digits_at as int + digits.len()) == digits
            &&& bind_addr_chars(port).skip("127.0.0.1:"@.len() as int) == digits
        }),
{
    let uri = redirect_uri_chars(port);
    let enc = url_encoded(uri);
    let url = auth_url_chars(client_id, uri);
    let at = "https://accounts.google.com/o/oauth2/v2/auth?client_id="@.len() + client_id.len()
        + "&redirect_uri="@.len();
    let digits_at = "http://localhost:"@.len();
    let digits = dec_chars(port as nat);
    assert(url.subrange(at as int, at as int + enc.len()) =~= enc);
    assert(uri.subrange(digits_at as int, digits_at as int + digits.len()) =~= digits);
    assert(bind_addr_chars(port).skip("127.0.0.1:"@.len() as int) =~= digits);
}

} // verus!
