//! Form-encoded grant requests against the OAuth2 token endpoint: the
//! authorization-code grant and the refresh-token grant.

use vstd::prelude::*;
use crate::urlenc::{url_encoded, encode};

verus! {

/// The fixed token endpoint.
pub fn token_endpoint() -> (r: String)
    ensures
        r@ == "https://oauth2.googleapis.com/token"@,
{
    String::from_str("https://oauth2.googleapis.com/token")
}

/// The form body of the authorization-code grant.
pub open spec fn exchange_code_body_chars(
    code: Seq<char>,
    client_id: Seq<char>,
    client_secret: Seq<char>,
    redirect_uri: Seq<char>,
) -> Seq<char> {
    "code="@ + url_encoded(code) + "&client_id="@ + url_encoded(client_id) + "&client_secret="@
        + url_encoded(client_secret) + "&redirect_uri="@ + url_encoded(redirect_uri)
        + "&grant_type=authorization_code"@
}

/// Builds the form body that exchanges an authorization code for tokens.
pub fn exchange_code_body(
    code: &str,
    client_id: &str,
    client_secret: &str,
    redirect_uri: &str,
) -> (r: String)
    ensures
        r@ == exchange_code_body_chars(code@, client_id@, client_secret@, redirect_uri@),
{
    let mut s = String::from_str("code=");
    s.append(encode(code).as_str());
    s.append("&client_id=");
    s.append(encode(client_id).as_str());
    s.append("&client_secret=");
    s.append(encode(client_secret).as_str());
    s.append("&redirect_uri=");
    s.append(encode(redirect_uri).as_str());
    s.append("&grant_type=authorization_code");
    proof {
        assert(s@ =~= exchange_code_body_chars(code@, client_id@, client_secret@, redirect_uri@));
    }
    s
}

/// The form body of the refresh-token grant.
pub open spec fn refresh_token_body_chars(
    refresh_token: Seq<char>,
    client_id: Seq<char>,
    client_secret: Seq<char>,
) -> Seq<char> {
    "refresh_token="@ + url_encoded(refresh_token) + "&client_id="@ + url_encoded(client_id)
        + "&client_secret="@ + url_encoded(client_secret) + "&grant_type=refresh_token"@
}

/// Builds the form body that refreshes an access token.
pub fn refresh_token_body(refresh_token: &str, client_id: &str, client_secret: &str) -> (r: String)
    ensures
        r@ == refresh_token_body_chars(refresh_token@, client_id@, client_secret@),
{
    let mut s = String::from_str("refresh_token=");
    s.append(encode(refresh_token).as_str());
    s.append("&client_id=");
    s.append(encode(client_id).as_str());
    s.append("&client_secret=");
    s.append(encode(client_secret).as_str());
    s.append("&grant_type=refresh_token");
    proof {
        assert(s@ =~= refresh_token_body_chars(refresh_token@, client_id@, client_secret@));
    }
    s
}

/// The fixed userinfo endpoint.
pub fn userinfo_endpoint() -> (r: String)
    ensures
        r@ == "https://www.googleapis.com/oauth2/v2/userinfo"@,
{
    String::from_str("https://www.googleapis.com/oauth2/v2/userinfo")
}

} // verus!
