//! The decision core of the rate-limited request client.
//!
//! A request is a loop: wait out the global deadline, then the resource
//! bucket's; issue the call; then act on the status. Everything but the HTTP
//! call itself is decided here: how the status is classified, how a throttle
//! response updates the limiter, and when the loop retries, decodes, or fails.

use vstd::prelude::*;

use crate::limits::{spec_record_limit, RateLimitGate, RateLimitScope};
use crate::paths::{spec_digits_value, spec_is_digit};
use crate::types::DiscordApiError;

verus! {

/// HTTP verb of a request.
#[derive(Debug, Clone, Copy, PartialEq, Eq, Structural)]
pub enum HttpMethod {
    GET,
    POST,
    PUT,
    PATCH,
    DELETE,
}

/// Errors of the request client, surfaced synchronously to the caller.
#[derive(Debug)]
pub enum DApiError {
    /// The HTTP client could not be built.
    Instantiation(String),
    /// The call failed at the network level.
    Requesting(String),
    /// The response (a header or the body) could not be parsed.
    ParsingResponse(String),
    /// The server answered with a structured error body.
    ApiError(DiscordApiError),
    /// The server answered with an error status and no decodable body; the
    /// status is carried.
    ApiErrorWithoutBody(u16),
}

/// How a response status is acted on.
#[derive(Debug, Clone, Copy, PartialEq, Eq, Structural)]
pub enum StatusClass {
    /// A throttle response: record the reported limit and retry.
    TooManyRequests,
    /// No content: produce the empty value of the expected type, parsing
    /// nothing.
    NoContent,
    /// An error status: try to decode a structured error body.
    Failure,
    /// Decode the body as the expected response type.
    Success,
}

/// The class of each status: the throttle status is its own class, any other
/// status of 400 and above is a failure, 204 carries no content, and
/// everything else is a success to be decoded.
pub open spec fn spec_status_class(status: u16) -> StatusClass {
    if status == 429 {
        StatusClass::TooManyRequests
    } else if status >= 400 {
        StatusClass::Failure
    } else if status == 204 {
        StatusClass::NoContent
    } else {
        StatusClass::Success
    }
}

/// Classifies a response status.
pub fn status_class(status: u16) -> (r: StatusClass)
    ensures
        r == spec_status_class(status),
{
    if status == 429 {
        StatusClass::TooManyRequests
    } else if status >= 400 {
        StatusClass::Failure
    } else if status == 204 {
        StatusClass::NoContent
    } else {
        StatusClass::Success
    }
}

/// Whether the scope header names the per-user throttle.
pub open spec fn spec_is_user_scope(s: Seq<char>) -> bool {
    s.len() == 4 && s[0] == 'u' && s[1] == 's' && s[2] == 'e' && s[3] == 'r'
}

/// Whether the scope header names the global throttle.
pub open spec fn spec_is_global_scope(s: Seq<char>) -> bool {
    s.len() == 6 && s[0] == 'g' && s[1] == 'l' && s[2] == 'o' && s[3] == 'b' && s[4] == 'a' && s[5]
        == 'l'
}

/// The scope a throttle response names: `user` and `global` are the global
/// deadline, any other value is resource-scoped.
pub open spec fn spec_parse_scope(s: Seq<char>) -> RateLimitScope {
    if spec_is_user_scope(s) {
        RateLimitScope::User
    } else if spec_is_global_scope(s) {
        RateLimitScope::Global
    } else {
        RateLimitScope::Resource
    }
}

/// Parses the scope header of a throttle response.
pub fn parse_scope(s: &str) -> (r: RateLimitScope)
    ensures
        r == spec_parse_scope(s@),
{
    let n = s.unicode_len();
    if n == 4 && s.get_char(0) == 'u' && s.get_char(1) == 's' && s.get_char(2) == 'e' && s.get_char(
        3,
    ) == 'r' {
        RateLimitScope::User
    } else if n == 6 && s.get_char(0) == 'g' && s.get_char(1) == 'l' && s.get_char(2) == 'o'
        && s.get_char(3) == 'b' && s.get_char(4) == 'a' && s.get_char(5) == 'l' {
        RateLimitScope::Global
    } else {
        RateLimitScope::Resource
    }
}

/// Whether every character is a decimal digit.
pub open spec fn spec_all_digits(s: Seq<char>) -> bool {
    forall|i: int| 0 <= i < s.len() ==> spec_is_digit(#[trigger] s[i])
}

/// The number a header value denotes: defined exactly when the value is a
/// non-empty run of digits whose value fits.
pub open spec fn spec_parse_u64(s: Seq<char>) -> Option<u64> {
    if s.len() > 0 && spec_all_digits(s) && spec_digits_value(s, 0, s.len() as int) <= u64::MAX {
        Some(spec_digits_value(s, 0, s.len() as int) as u64)
    } else {
        None
    }
}

/// A digit run's value never shrinks as it extends.
proof fn lemma_digits_value_extends(s: Seq<char>, k: int, m: int)
    requires
        0 <= k <= m <= s.len(),
        spec_digits_value(s, 0, k) >= 0,
        forall|l: int| k <= l < m ==> spec_is_digit(#[trigger] s[l]),
    ensures
        spec_digits_value(s, 0, m) >= spec_digits_value(s, 0, k),
    decreases m - k,
{
    if k < m {
        lemma_digits_value_extends(s, k, m - 1);
        assert(spec_is_digit(s[m - 1]));
        assert(spec_digits_value(s, 0, m) == spec_digits_value(s, 0, m - 1) * 10
            + crate::paths::spec_digit_value(s[m - 1]));
        assert(spec_digits_value(s, 0, m - 1) * 10 >= spec_digits_value(s, 0, m - 1)) by (
            nonlinear_arith
        )
            requires
                spec_digits_value(s, 0, m - 1) >= 0,
        ;
    }
}

/// Parses an integer header value, as the retry-after header of a throttle
/// response: a non-empty run of digits whose value fits, anything else is
/// rejected.
pub fn parse_u64(s: &str) -> (r: Option<u64>)
    ensures
        r == spec_parse_u64(s@),
{
    let n = s.unicode_len();
    if n == 0 {
        return None;
    }
    let mut value: u64 = 0;
    let mut i: usize = 0;
    while i < n
        invariant
            0 <= i <= n,
            n == s@.len(),
            forall|l: int| 0 <= l < i ==> spec_is_digit(#[trigger] s@[l]),
            value == spec_digits_value(s@, 0, i as int),
        decreases n - i,
    {
        let c = s.get_char(i);
        if !((c as u32) >= 48 && (c as u32) <= 57) {
            proof {
                assert(!spec_all_digits(s@));
            }
            return None;
        }
        let d = ((c as u32) - 48) as u64;
        if value > (u64::MAX - d) / 10 {
            proof {
                assert(value * 10 + d > u64::MAX) by (nonlinear_arith)
                    requires
                        value > (u64::MAX - d) / 10,
                        0 <= d <= 9,
                ;
                if spec_all_digits(s@) {
                    lemma_digits_value_extends(s@, i as int + 1, n as int);
                    assert(spec_digits_value(s@, 0, i as int + 1) == value * 10
                        + crate::paths::spec_digit_value(s@[i as int]));
                    assert(spec_digits_value(s@, 0, n as int) > u64::MAX);
                }
            }
            return None;
        }
        proof {
            assert(value * 10 + d <= u64::MAX) by (nonlinear_arith)
                requires
                    value <= (u64::MAX - d) / 10,
                    0 <= d <= 9,
            ;
        }
        value = value * 10 + d;
        i = i + 1;
    }
    Some(value)
}

/// The deadline a throttle response sets: the current instant plus the
/// announced seconds, saturating at the far end of the clock.
pub open spec fn spec_retry_at(now: u64, secs: u64) -> u64 {
    if now + secs * 1000 <= u64::MAX {
        (now + secs * 1000) as u64
    } else {
        u64::MAX
    }
}

/// Computes the deadline a throttle response sets.
pub fn retry_at(now: u64, secs: u64) -> (r: u64)
    ensures
        r == spec_retry_at(now, secs),
{
    if secs <= (u64::MAX - now) / 1000 {
        proof {
            assert(secs * 1000 <= u64::MAX - now) by (nonlinear_arith)
                requires
                    secs <= (u64::MAX - now) / 1000,
            ;
        }
        now + secs * 1000
    } else {
        proof {
            assert(secs * 1000 > u64::MAX - now) by (nonlinear_arith)
                requires
                    secs > (u64::MAX - now) / 1000,
            ;
        }
        u64::MAX
    }
}

/// What the request loop does after the HTTP call returned.
#[derive(Debug)]
pub enum RequestStep {
    /// Loop: wait at the limiter again and reissue the call.
    Retry,
    /// Produce the no-content value of the expected response type without
    /// attempting to parse a body.
    NoContent,
    /// Decode the body as the expected response type; a decoding failure is
    /// a terminal parse error.
    DecodeBody,
    /// Try to decode a structured error body: fail with it if decodable,
    /// else fail with the bare status.
    DecodeErrorBody,
    /// A terminal error, already determined.
    Fail(DApiError),
}

/// Acts on the status (and, for a throttle response, the scope and
/// retry-after headers) of one HTTP response: classifies the status, records
/// a reported throttle in the limiter, and returns what the request loop does
/// next.
///
/// A throttle response with both headers records its limit and retries —
/// unless the limit is resource-scoped and no resource id was extracted from
/// the path, which fails with a parse error and does not loop, never
/// silently dropping the limit. One lacking either header retries without
/// recording anything; one whose retry-after value is not a number fails
/// with a parse error.
pub fn on_response_status(
    gate: &mut RateLimitGate,
    status: u16,
    scope_header: Option<&str>,
    retry_after_header: Option<&str>,
    resource: Option<u128>,
    now: u64,
) -> (r: RequestStep)
    ensures
        spec_status_class(status) is Success ==> r is DecodeBody && final(gate)@ == old(gate)@,
        spec_status_class(status) is NoContent ==> r is NoContent && final(gate)@ == old(gate)@,
        spec_status_class(status) is Failure ==> r is DecodeErrorBody
            && final(gate)@ == old(gate)@,
        spec_status_class(status) is TooManyRequests ==> (match (scope_header, retry_after_header) {
            (Some(sc), Some(ra)) => match spec_parse_u64(ra@) {
                Some(secs) => {
                    let scope = spec_parse_scope(sc@);
                    let t = spec_retry_at(now, secs);
                    let (m2, ok) = spec_record_limit(old(gate)@, scope, resource, t);
                    if ok {
                        r is Retry && final(gate)@ == m2
                    } else {
                        (r matches RequestStep::Fail(DApiError::ParsingResponse(_)))
                            && final(gate)@ == old(gate)@
                    }
                },
                None => (r matches RequestStep::Fail(DApiError::ParsingResponse(_)))
                    && final(gate)@ == old(gate)@,
            },
            _ => r is Retry && final(gate)@ == old(gate)@,
        }),
{
    match status_class(status) {
        StatusClass::Success => RequestStep::DecodeBody,
        StatusClass::NoContent => RequestStep::NoContent,
        StatusClass::Failure => RequestStep::DecodeErrorBody,
        StatusClass::TooManyRequests => {
            match (scope_header, retry_after_header) {
                (Some(sc), Some(ra)) => {
                    match parse_u64(ra) {
                        None => RequestStep::Fail(
                            DApiError::ParsingResponse(
                                String::from_str("The retry-after header is not an integer"),
                            ),
                        ),
                        Some(secs) => {
                            let scope = parse_scope(sc);
                            let t = retry_at(now, secs);
                            match gate.record_limit(scope, resource, t) {
                                Ok(()) => RequestStep::Retry,
                                Err(_) => RequestStep::Fail(
                                    DApiError::ParsingResponse(
                                        String::from_str(
                                            "Shared ratelimit encountered, however the resource ID could not be parsed from the path",
                                        ),
                                    ),
                                ),
                            }
                        },
                    }
                },
                _ => RequestStep::Retry,
            }
        },
    }
}



/// The description of each request client error. A structured API error is
/// described by its message field; an undecodable error body by its status.
pub open spec fn spec_dapi_message(e: DApiError) -> Seq<char> {
    match e {
        DApiError::Instantiation(s) => "An error occured while trying to create the client: "@
            + s@,
        DApiError::Requesting(s) => "Http request error: "@ + s@,
        DApiError::ParsingResponse(s) =>
            "An error has occured while trying to parse the http response: "@ + s@,
        DApiError::ApiError(e) => "Discord API Error: "@ + e.message@,
        DApiError::ApiErrorWithoutBody(status) => "Http error: "@ + crate::text::spec_decimal(
            status as int,
        ),
    }
}

impl DApiError {
    /// Describes the error, for logs and for the caller.
    pub fn message(&self) -> (r: String)
        ensures
            r@ == spec_dapi_message(*self),
    {
        match self {
            DApiError::Instantiation(s) => {
                let mut t = String::from_str(
                    "An error occured while trying to create the client: ",
                );
                t.append(s.as_str());
                t
            },
            DApiError::Requesting(s) => {
                let mut t = String::from_str("Http request error: ");
                t.append(s.as_str());
                t
            },
            DApiError::ParsingResponse(s) => {
                let mut t = String::from_str(
                    "An error has occured while trying to parse the http response: ",
                );
                t.append(s.as_str());
                t
            },
            DApiError::ApiError(e) => {
                let mut t = String::from_str("Discord API Error: ");
                t.append(e.message.as_str());
                t
            },
            DApiError::ApiErrorWithoutBody(status) => {
                let mut t = String::from_str("Http error: ");
                let st = crate::text::decimal_string(*status as u64);
                t.append(st.as_str());
                t
            },
        }
    }
}

} // verus!
