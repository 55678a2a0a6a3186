use crate::headers::{header_value, spec_header_value, Headers};
use crate::strutil::{parse_u32, spec_parse_u32};
use vstd::prelude::*;

verus! {

/// Call-quota metadata read from the standard rate-limit headers.
#[derive(Clone, Debug)]
pub struct RateLimit {
    /// Calls allowed per window, read from `x-ratelimit-limit`.
    pub limit: Option<u32>,
    /// Calls left in the window, read from `x-ratelimit-remaining`.
    pub remaining: Option<u32>,
    /// When the window opens again, from `x-ratelimit-reset`, kept verbatim.
    pub reset: Option<String>,
}

/// The per-window quota the headers spell out, when readable.
pub open spec fn spec_limit(h: Seq<(String, String)>) -> Option<u32> {
    match spec_header_value(h, "x-ratelimit-limit"@) {
        Some(v) => spec_parse_u32(v),
        None => None,
    }
}

/// The remaining quota the headers spell out, when readable.
pub open spec fn spec_remaining(h: Seq<(String, String)>) -> Option<u32> {
    match spec_header_value(h, "x-ratelimit-remaining"@) {
        Some(v) => spec_parse_u32(v),
        None => None,
    }
}

/// The reset mark the headers carry, verbatim.
pub open spec fn spec_reset(h: Seq<(String, String)>) -> Option<Seq<char>> {
    spec_header_value(h, "x-ratelimit-reset"@)
}

/// Whether the response carries any of the three rate-limit headers.
pub open spec fn spec_has_rate_limit(h: Seq<(String, String)>) -> bool {
    spec_header_value(h, "x-ratelimit-limit"@) is Some || spec_header_value(
        h,
        "x-ratelimit-remaining"@,
    ) is Some || spec_header_value(h, "x-ratelimit-reset"@) is Some
}

/// What every successful call hands back: the decoded payload, the
/// response headers exactly as they arrived, and the quota metadata
/// derived from them.
#[derive(Clone, Debug)]
pub struct Response<T> {
    pub payload: T,
    pub headers: Headers,
    pub rate_limit: Option<RateLimit>,
}

/// What wrapping a payload comes to: payload and headers stored
/// unchanged, and the rate-limit fields read off those headers.
pub open spec fn spec_envelope<T>(payload: T, headers: Headers, r: Response<T>) -> bool {
    &&& r.payload == payload
    &&& r.headers == headers
    &&& (r.rate_limit is Some <==> spec_has_rate_limit(headers@))
    &&& (r.rate_limit matches Some(rl) ==> rl.limit == spec_limit(headers@) && rl.remaining
        == spec_remaining(headers@) && rl.reset.deep_view() == spec_reset(headers@))
}

impl<T> Response<T> {
    /// Wraps an already-decoded payload together with the headers it
    /// arrived under; both are stored unchanged, and the rate-limit
    /// fields are read off the headers.
    pub fn new(payload: T, headers: Headers) -> (r: Response<T>)
        ensures
            spec_envelope(payload, headers, r),
    {
        let limit: Option<u32> = match header_value(&headers, "x-ratelimit-limit") {
            Some(v) => parse_u32(v.as_str()),
            None => None,
        };
        let remaining: Option<u32> = match header_value(&headers, "x-ratelimit-remaining") {
            Some(v) => parse_u32(v.as_str()),
            None => None,
        };
        let reset: Option<String> = match header_value(&headers, "x-ratelimit-reset") {
            Some(v) => Some(v.clone()),
            None => None,
        };
        let seen_limit = header_value(&headers, "x-ratelimit-limit").is_some();
        let seen_remaining = header_value(&headers, "x-ratelimit-remaining").is_some();
        let rate_limit: Option<RateLimit> = if seen_limit || seen_remaining || reset.is_some() {
            Some(RateLimit { limit, remaining, reset })
        } else {
            None
        };
        Response { payload, headers, rate_limit }
    }
}

} // verus!
