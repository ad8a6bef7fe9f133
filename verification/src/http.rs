//! Server endpoints and the reading of HTTP status codes.

use vstd::prelude::*;
use crate::text::concat;

verus! {

/// A 2xx status, as `http::StatusCode::is_success` decides it.
pub open spec fn is_success_spec(code: u16) -> bool {
    200 <= code < 300
}

/// A 4xx status, as `http::StatusCode::is_client_error` decides it.
pub open spec fn is_client_error_spec(code: u16) -> bool {
    400 <= code < 500
}

/// A status is a success exactly when its hundreds digit is 2, and a
/// client error exactly when it is 4; no status is both.
pub proof fn lemma_status_classes_by_hundreds(code: u16)
    ensures
        is_success_spec(code) <==> code / 100 == 2,
        is_client_error_spec(code) <==> code / 100 == 4,
        !(is_success_spec(code) && is_client_error_spec(code)),
{
}

/// Whether `code` reports success (2xx).
pub fn is_success_status(code: u16) -> (b: bool)
    ensures
        b == is_success_spec(code),
        b <==> code / 100 == 2,
{
    200 <= code && code < 300
}

/// Whether `code` reports a client error (4xx).
pub fn is_client_error_status(code: u16) -> (b: bool)
    ensures
        b == is_client_error_spec(code),
        b <==> code / 100 == 4,
{
    400 <= code && code < 500
}

/// Whether `code` says that the API key was refused (401).
pub fn is_unauthorized_status(code: u16) -> (b: bool)
    ensures
        b == (code == 401),
{
    code == 401
}

/// The endpoint that turns a tweet link into the URL of its video.
pub fn import_tweet_endpoint(server: &str) -> (u: String)
    ensures
        u@ == server@ + "/api/gifs/import-tweet"@,
{
    concat(server, "/api/gifs/import-tweet")
}

/// The endpoint that registers an upload and hands out its short id.
pub fn prepare_endpoint(server: &str) -> (u: String)
    ensures
        u@ == server@ + "/api/upload/prepare"@,
{
    concat(server, "/api/upload/prepare")
}

/// The endpoint that hands out client tokens for the blob store.
pub fn client_token_endpoint(server: &str) -> (u: String)
    ensures
        u@ == server@ + "/api/upload"@,
{
    concat(server, "/api/upload")
}

/// The endpoint that names the user an API key belongs to.
pub fn whoami_endpoint(server: &str) -> (u: String)
    ensures
        u@ == server@ + "/api/cli/auth/whoami"@,
{
    concat(server, "/api/cli/auth/whoami")
}

/// The endpoint that starts a device login.
pub fn login_request_endpoint(server: &str) -> (u: String)
    ensures
        u@ == server@ + "/api/cli/auth/request"@,
{
    concat(server, "/api/cli/auth/request")
}

/// The endpoint that reports whether a device login was approved.
pub fn login_poll_endpoint(server: &str) -> (u: String)
    ensures
        u@ == server@ + "/api/cli/auth/poll"@,
{
    concat(server, "/api/cli/auth/poll")
}

/// The name shown for the user of an API key: the `email` field of the
/// server's answer when it is a string, `unknown` otherwise.
pub fn whoami_label(email: Option<String>) -> (s: String)
    ensures
        s@ == match email {
            Some(e) => e@,
            None => "unknown"@,
        },
{
    match email {
        Some(e) => e,
        None => String::from_str("unknown"),
    }
}

} // verus!
