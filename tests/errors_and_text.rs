use spt::errors::{
    error_reply_text, return_error_message, return_response_code, return_response_error, ApiError,
};
use spt::pkce::{gen_challenge, gen_random_state};
use spt::text::{parse_u64, split_char, starts_with, trim_str, u64_to_decimal};

#[test]
fn upstream_error_statuses_pass_through() {
    for s in [204u16, 401, 403, 404, 429, 500, 501, 502, 503, 504, 505, 599] {
        assert_eq!(return_response_code(return_response_error(s)), s);
    }
    assert_eq!(return_response_error(429), ApiError::ResponseError429);
    assert_eq!(return_response_error(401), ApiError::ResponseError401);
    assert_eq!(return_response_error(501), ApiError::ResponseError5xx(501));
    assert_eq!(return_response_code(ApiError::InvalidAccessToken), 401);
    assert_eq!(return_response_error(600), ApiError::InternalServerError);
}

#[test]
fn other_statuses_become_internal_errors() {
    assert_eq!(return_response_error(418), ApiError::InternalServerError);
    assert_eq!(return_response_error(200), ApiError::InternalServerError);
    assert_eq!(return_response_code(ApiError::InternalServerError), 500);
    assert_eq!(return_response_code(ApiError::BrowserError), 500);
    assert_eq!(return_response_code(ApiError::NoAccessToken), 500);
}

#[test]
fn error_messages() {
    assert_eq!(return_error_message(&ApiError::ResponseError429), "Too many requests");
    assert_eq!(
        return_error_message(&ApiError::BrowserError),
        "Error occurred while interacting with browser"
    );
    assert_eq!(
        error_reply_text(&ApiError::NoAccessToken),
        "Error: No access token was found"
    );
}

#[test]
fn reads_decimal_numbers() {
    assert_eq!(parse_u64("10"), Some(10));
    assert_eq!(parse_u64("+7"), Some(7));
    assert_eq!(parse_u64("007"), Some(7));
    assert_eq!(parse_u64("18446744073709551615"), Some(u64::MAX));
    assert_eq!(parse_u64("18446744073709551616"), None);
    assert_eq!(parse_u64(""), None);
    assert_eq!(parse_u64("+"), None);
    assert_eq!(parse_u64("-1"), None);
    assert_eq!(parse_u64("12a"), None);
    assert_eq!(parse_u64(" 5"), None);
}

#[test]
fn writes_decimal_numbers() {
    assert_eq!(u64_to_decimal(0), "0");
    assert_eq!(u64_to_decimal(7), "7");
    assert_eq!(u64_to_decimal(1234), "1234");
    assert_eq!(u64_to_decimal(u64::MAX), "18446744073709551615");
}

#[test]
fn trims_and_splits() {
    assert_eq!(trim_str("  a b \t\n"), "a b");
    assert_eq!(trim_str("   "), "");
    assert_eq!(trim_str("\u{3000}x\u{a0}"), "x");
    assert_eq!(split_char("a:b::c", ':'), vec!["a", "b", "", "c"]);
    assert_eq!(split_char("", ':'), vec![""]);
    assert!(starts_with("spotify:track:1", "spotify:track"));
    assert!(!starts_with("spot", "spotify"));
}

#[test]
fn random_state_draws_from_charset() {
    let s = gen_random_state(64);
    assert_eq!(s.chars().count(), 64);
    assert!(s.chars().all(|c| c.is_ascii_uppercase() || c.is_ascii_digit()));
    assert_eq!(gen_random_state(0), "");
}

#[test]
fn pkce_challenge_matches_known_value() {
    assert_eq!(
        gen_challenge("dBjftJeZ4CVP-mB92K27uhbUJU1p1r_wW1gFWFOEjXk"),
        "E9Melhoa2OwvFrEMTJguCHaoeK1t8URWbuGJSstw-cM"
    );
}
