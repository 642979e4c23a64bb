//! Uniform handling of remote-call outcomes.
//!
//! Every remote call is reported to the caller either as its successful body
//! or as a human-readable failure string that carries the response body
//! verbatim; nothing is retried and nothing is silently dropped.

use vstd::prelude::*;

verus! {

/// The failure string for a remote call: the context, a separator, and the
/// response body verbatim.
pub open spec fn failure_chars(context: Seq<char>, body: Seq<char>) -> Seq<char> {
    context + ": "@ + body
}

/// A status code in the 2xx range counts as success.
pub open spec fn is_success_status(status: u16) -> bool {
    200 <= status < 300
}

/// Builds the uniform failure string `context: body`.
pub fn failure_message(context: &str, body: &str) -> (r: String)
    ensures
        r@ == failure_chars(context@, body@),
{
    let mut s = String::from_str(context);
    s.append(": ");
    s.append(body);
    s
}

/// Turns a remote response into the caller-visible result: a 2xx status
/// passes the body through, any other status becomes the failure string
/// carrying the body.
pub fn handle_response(status: u16, body: String, context: &str) -> (r: Result<String, String>)
    ensures
        is_success_status(status) ==> (r matches Ok(b) && b@ == body@),
        !is_success_status(status) ==> (r matches Err(e) && e@ == failure_chars(context@, body@)),
{
    if 200 <= status && status < 300 {
        Ok(body)
    } else {
        Err(failure_message(context, body.as_str()))
    }
}

/// Law: a failure string always ends with the response body verbatim, so a
/// non-2xx response can never produce a silently empty error.
pub proof fn lemma_failure_carries_body(context: Seq<char>, body: Seq<char>)
    ensures
        failure_chars(context, body).len() == context.len() + 2 + body.len(),
        failure_chars(context, body).skip(context.len() as int + 2) == body,
{
    reveal_strlit(": ");
    assert(failure_chars(context, body).skip(context.len() as int + 2) =~= body);
}

} // verus!
