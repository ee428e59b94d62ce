use vstd::prelude::*;

verus! {

/// The kinds of failure that a forwarded call or an authentication step can report.
#[derive(Debug, Clone, Copy, PartialEq, Eq, Structural)]
pub enum ApiError {
    /// The upstream could not be reached.
    RequestError,
    /// No refresh token was held.
    NoRefreshToken,
    /// The response body could not be decoded.
    ResponseParseError,
    /// A field that the response must carry was missing or invalid.
    ResponseDataError,
    /// No access token was held when one was needed.
    NoAccessToken,
    /// The upstream rejected the access token.
    InvalidAccessToken,
    /// Waiting out a rate limit failed.
    BackoffError,
    /// The system browser could not be launched.
    BrowserError,
    /// An unexpected failure.
    InternalServerError,
    ResponseError204,
    ResponseError401,
    ResponseError403,
    ResponseError404,
    ResponseError429,
    ResponseError500,
    ResponseError502,
    ResponseError503,
    ResponseError504,
    /// Another 5xx status of the upstream, which passes through as it is.
    ResponseError5xx(u16),
}

/// The error that an upstream status maps to: the provider's error statuses keep
/// their own kind, every other status is an internal failure.
pub open spec fn response_error_of(status: u16) -> ApiError {
    if status == 204 {
        ApiError::ResponseError204
    } else if status == 401 {
        ApiError::ResponseError401
    } else if status == 403 {
        ApiError::ResponseError403
    } else if status == 404 {
        ApiError::ResponseError404
    } else if status == 429 {
        ApiError::ResponseError429
    } else if status == 500 {
        ApiError::ResponseError500
    } else if status == 502 {
        ApiError::ResponseError502
    } else if status == 503 {
        ApiError::ResponseError503
    } else if status == 504 {
        ApiError::ResponseError504
    } else if 500 <= status <= 599 {
        ApiError::ResponseError5xx(status)
    } else {
        ApiError::InternalServerError
    }
}

/// The HTTP status that an error is reported with to the caller: the
/// upstream's error statuses pass through (a rejected token as 401), other
/// failures are 500.
pub open spec fn response_code_of(e: ApiError) -> u16 {
    match e {
        ApiError::InvalidAccessToken => 401,
        ApiError::ResponseError5xx(s) => if 500 <= s <= 599 {
            s
        } else {
            500
        },
        ApiError::ResponseError204 => 204,
        ApiError::ResponseError401 => 401,
        ApiError::ResponseError403 => 403,
        ApiError::ResponseError404 => 404,
        ApiError::ResponseError429 => 429,
        ApiError::ResponseError500 => 500,
        ApiError::ResponseError502 => 502,
        ApiError::ResponseError503 => 503,
        ApiError::ResponseError504 => 504,
        _ => 500,
    }
}

/// The statuses that pass through to the caller unchanged.
pub open spec fn is_passed_through(status: u16) -> bool {
    status == 204 || status == 401 || status == 403 || status == 404 || status == 429 || (500
        <= status <= 599)
}

/// The human-readable message of an error.
pub open spec fn error_message(e: ApiError) -> Seq<char> {
    match e {
        ApiError::RequestError => "Error occurred while making the request"@,
        ApiError::NoRefreshToken => "No refresh token was found"@,
        ApiError::ResponseParseError => "Error occurred while parsing the response"@,
        ApiError::ResponseDataError => "Missing or invalid data in the response"@,
        ApiError::NoAccessToken => "No access token was found"@,
        ApiError::InvalidAccessToken => "Invalid access token"@,
        ApiError::BackoffError => "Error occurred while backing off"@,
        ApiError::BrowserError => "Error occurred while interacting with browser"@,
        ApiError::InternalServerError => "Error occurred on the api server"@,
        ApiError::ResponseError204 => "No content returned in the response"@,
        ApiError::ResponseError401 => "Unauthorized request"@,
        ApiError::ResponseError403 => "Forbidden request"@,
        ApiError::ResponseError404 => "Resource not found"@,
        ApiError::ResponseError429 => "Too many requests"@,
        ApiError::ResponseError500 => "Internal server error"@,
        ApiError::ResponseError502 => "Bad gateway"@,
        ApiError::ResponseError503 => "Service unavailable"@,
        ApiError::ResponseError504 => "Gateway timeout"@,
        ApiError::ResponseError5xx(_) => "Upstream server error"@,
    }
}

/// Maps an upstream status to the error it stands for.
pub fn return_response_error(status: u16) -> (r: ApiError)
    ensures
        r == response_error_of(status),
{
    match status {
        204 => ApiError::ResponseError204,
        401 => ApiError::ResponseError401,
        403 => ApiError::ResponseError403,
        404 => ApiError::ResponseError404,
        429 => ApiError::ResponseError429,
        500 => ApiError::ResponseError500,
        502 => ApiError::ResponseError502,
        503 => ApiError::ResponseError503,
        504 => ApiError::ResponseError504,
        _ => if 500 <= status && status <= 599 {
            ApiError::ResponseError5xx(status)
        } else {
            ApiError::InternalServerError
        },
    }
}

/// The HTTP status with which an error is answered.
pub fn return_response_code(ae: ApiError) -> (r: u16)
    ensures
        r == response_code_of(ae),
{
    match ae {
        ApiError::InvalidAccessToken => 401,
        ApiError::ResponseError5xx(s) => if 500 <= s && s <= 599 {
            s
        } else {
            500
        },
        ApiError::ResponseError204 => 204,
        ApiError::ResponseError401 => 401,
        ApiError::ResponseError403 => 403,
        ApiError::ResponseError404 => 404,
        ApiError::ResponseError429 => 429,
        ApiError::ResponseError500 => 500,
        ApiError::ResponseError502 => 502,
        ApiError::ResponseError503 => 503,
        ApiError::ResponseError504 => 504,
        _ => 500,
    }
}

/// An upstream error status reaches the caller unchanged; every other status
/// that is turned into an error reaches the caller as 500.
pub proof fn lemma_status_round_trip(status: u16)
    ensures
        is_passed_through(status) ==> response_code_of(response_error_of(status)) == status,
        !is_passed_through(status) ==> response_code_of(response_error_of(status)) == 500,
{
}

/// The message of an error.
pub fn return_error_message(e: &ApiError) -> (r: String)
    ensures
        r@ == error_message(*e),
{
    match e {
        ApiError::RequestError => String::from_str("Error occurred while making the request"),
        ApiError::NoRefreshToken => String::from_str("No refresh token was found"),
        ApiError::ResponseParseError => String::from_str(
            "Error occurred while parsing the response",
        ),
        ApiError::ResponseDataError => String::from_str("Missing or invalid data in the response"),
        ApiError::NoAccessToken => String::from_str("No access token was found"),
        ApiError::InvalidAccessToken => String::from_str("Invalid access token"),
        ApiError::BackoffError => String::from_str("Error occurred while backing off"),
        ApiError::BrowserError => String::from_str(
            "Error occurred while interacting with browser",
        ),
        ApiError::InternalServerError => String::from_str("Error occurred on the api server"),
        ApiError::ResponseError204 => String::from_str("No content returned in the response"),
        ApiError::ResponseError401 => String::from_str("Unauthorized request"),
        ApiError::ResponseError403 => String::from_str("Forbidden request"),
        ApiError::ResponseError404 => String::from_str("Resource not found"),
        ApiError::ResponseError429 => String::from_str("Too many requests"),
        ApiError::ResponseError500 => String::from_str("Internal server error"),
        ApiError::ResponseError502 => String::from_str("Bad gateway"),
        ApiError::ResponseError503 => String::from_str("Service unavailable"),
        ApiError::ResponseError504 => String::from_str("Gateway timeout"),
        ApiError::ResponseError5xx(_) => String::from_str("Upstream server error"),
    }
}

/// The text of the `error` field of an error reply: `Error: ` and the message.
pub fn error_reply_text(e: &ApiError) -> (r: String)
    ensures
        r@ == "Error: "@ + error_message(*e),
{
    let msg = return_error_message(e);
    String::from_str("Error: ").concat(msg.as_str())
}

} // verus!
