//! The Gmail send path: the raw message is base64url-encoded and wrapped
//! in the one-field JSON body that the send endpoint expects.

use vstd::prelude::*;
use base64::Engine;

verus! {

/// The base64url encoding of a string's UTF-8 bytes, unpadded.  The result
/// is a function of the characters alone.
pub uninterp spec fn b64url_of(s: Seq<char>) -> Seq<char>;

/// A character of the url-safe base64 alphabet.
pub open spec fn is_b64url_char(c: char) -> bool {
    ('A' <= c && c <= 'Z') || ('a' <= c && c <= 'z') || ('0' <= c && c <= '9') || c == '-' || c
        == '_'
}

/// Relies on base64's `URL_SAFE_NO_PAD` engine: every output character is
/// drawn from the url-safe alphabet (`A-Z a-z 0-9 - _`, no padding), the
/// output is empty exactly for empty input, and the result depends on the
/// input bytes alone.
#[verifier::external_body]
fn b64url_encode(s: &str) -> (r: String)
    ensures
        r@ == b64url_of(s@),
        r@.len() == 0 <==> s@.len() == 0,
        forall|i: int| 0 <= i < r@.len() ==> is_b64url_char(#[trigger] r@[i]),
{
    base64::engine::general_purpose::URL_SAFE_NO_PAD.encode(s.as_bytes())
}

/// The JSON body posted to the send endpoint: one `raw` field holding the
/// encoded message.
pub open spec fn gmail_send_body_chars(message: Seq<char>) -> Seq<char> {
    "{\"raw\":\""@ + b64url_of(message) + "\"}"@
}

/// Builds the Gmail send request body for a raw RFC 2822 message.  The
/// encoded message needs no JSON escaping: every character of the base64url
/// alphabet may stand in a JSON string verbatim.
pub fn gmail_send_body(message: &str) -> (r: String)
    ensures
        r@ == gmail_send_body_chars(message@),
{
    let mut s = String::from_str("{\"raw\":\"");
    s.append(b64url_encode(message).as_str());
    s.append("\"}");
    proof {
        assert(s@ =~= gmail_send_body_chars(message@));
    }
    s
}

/// The Gmail send endpoint.
pub fn gmail_send_endpoint() -> (r: String)
    ensures
        r@ == "https://gmail.googleapis.com/gmail/v1/users/me/messages/send"@,
{
    String::from_str("https://gmail.googleapis.com/gmail/v1/users/me/messages/send")
}

} // verus!
