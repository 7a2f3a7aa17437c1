//! The transport adapter's logic: what every outbound call carries, and how
//! an HTTP outcome is classified.

use vstd::prelude::*;

use crate::error::SciXError;
use crate::text::{parse_unsigned, parsed_unsigned, push_str};

verus! {

/// The identification string sent with every request.
pub const USER_AGENT: &'static str = "scix-client/0.1.0";

/// The API's base URL.
pub const DEFAULT_BASE_URL: &'static str = "https://api.adsabs.harvard.edu/v1";

/// Seconds after which an outbound call is abandoned.
pub const REQUEST_TIMEOUT_SECS: u64 = 30;

/// Requests per second that a new client allows.
pub const DEFAULT_RATE: u64 = 5;

/// The advised wait of a `Retry-After` header: its value when it is a whole
/// number of seconds.
pub open spec fn retry_seconds(retry_after: Option<Seq<char>>) -> Option<nat> {
    match retry_after {
        Some(h) => parsed_unsigned(h, u64::MAX as nat),
        None => None,
    }
}

pub open spec fn opt_u64_nat(o: Option<u64>) -> Option<nat> {
    match o {
        Some(x) => Some(x as nat),
        None => None,
    }
}

/// Handle the HTTP response, mapping status codes to outcomes: 2xx gives
/// the body verbatim, 401 unauthorized, 404 not-found, 429 rate-limited with
/// the advised wait, and any other status an upstream error that carries the
/// status and the body.
pub fn handle_response(status: u16, body: String, retry_after: Option<&str>) -> (r: Result<
    String,
    SciXError,
>)
    ensures
        200 <= status <= 299 ==> r is Ok && r.unwrap()@ == body@,
        status == 401 ==> r matches Err(SciXError::AuthRequired),
        status == 404 ==> (r matches Err(SciXError::NotFound(m)) && m@ == "Resource not found"@),
        status == 429 ==> (r matches Err(SciXError::RateLimited { retry_after: w }) && opt_u64_nat(w)
            == retry_seconds(
            match retry_after {
                Some(h) => Some(h@),
                None => None,
            },
        )),
        !(200 <= status <= 299 || status == 401 || status == 404 || status == 429) ==> (r matches Err(
            SciXError::Api { status: s, message: m },
        ) && s == status && m@ == body@),
{
    if 200 <= status && status <= 299 {
        Ok(body)
    } else if status == 401 {
        Err(SciXError::AuthRequired)
    } else if status == 404 {
        Err(SciXError::NotFound(String::from_str("Resource not found")))
    } else if status == 429 {
        let wait = match retry_after {
            Some(h) => parse_unsigned(h, u64::MAX),
            None => None,
        };
        Err(SciXError::RateLimited { retry_after: wait })
    } else {
        Err(SciXError::Api { status, message: body })
    }
}

/// The value of the `Authorization` header for `token`.
pub fn bearer(token: &str) -> (r: String)
    ensures
        r@ == "Bearer "@ + token@,
{
    let mut s = String::from_str("Bearer ");
    push_str(&mut s, token);
    s
}

/// The URL of `path` under `base`.
pub fn endpoint_url(base: &str, path: &str) -> (r: String)
    ensures
        r@ == base@ + path@,
{
    let mut s = String::from_str(base);
    push_str(&mut s, path);
    s
}

} // verus!
