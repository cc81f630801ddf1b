use actix_rl::controller::default_do_rate_limit;
use actix_rl::controller::default_find_identifier;
use actix_rl::controller::default_on_rate_limit_error;
use actix_rl::controller::default_on_store_error;
use actix_rl::controller::DEFAULT_RATE_LIMITED_UNTIL_HEADER;
use actix_rl::decimal::u64_to_dec_string;
use actix_rl::error::Error;

#[test]
fn default_check_accepts_every_request() {
    assert!(default_do_rate_limit());
}

#[test]
fn default_identifier_is_peer_or_sentinel() {
    assert_eq!(
        default_find_identifier(Some("203.0.113.7".to_string())),
        "203.0.113.7"
    );
    assert_eq!(default_find_identifier(None), "<Unknown Source IP>");
}

#[test]
fn rate_limit_response_carries_expiry_header() {
    let response = default_on_rate_limit_error(&Error::RateLimited(Some(12_345_678)));
    assert_eq!(response.status, 429);
    assert_eq!(response.headers.len(), 1);
    assert_eq!(response.headers[0].0, DEFAULT_RATE_LIMITED_UNTIL_HEADER);
    assert_eq!(response.headers[0].0, "X-Rate-Limited-Until");
    // The expiry is reported in whole seconds since the epoch.
    assert_eq!(response.headers[0].1, "12345");
}

#[test]
fn rate_limit_response_without_known_expiry_has_no_header() {
    let response = default_on_rate_limit_error(&Error::RateLimited(None));
    assert_eq!(response.status, 429);
    assert!(response.headers.is_empty());
}

#[test]
fn store_error_response_is_a_plain_500() {
    let response = default_on_store_error();
    assert_eq!(response.status, 500);
    assert!(response.headers.is_empty());
}

#[test]
fn error_message_names_the_expiry_in_seconds() {
    let with_until = Error::RateLimited(Some(12_345_678));
    assert_eq!(with_until.message(), "rate limited, until 12345");
    assert_eq!(with_until.until(), Some(12_345_678));

    let without = Error::RateLimited(None);
    assert_eq!(without.message(), "rate limited");
    assert_eq!(without.until(), None);
}

#[test]
fn decimal_rendering_exact_values() {
    assert_eq!(u64_to_dec_string(0), "0");
    assert_eq!(u64_to_dec_string(7), "7");
    assert_eq!(u64_to_dec_string(10), "10");
    assert_eq!(u64_to_dec_string(429), "429");
    assert_eq!(u64_to_dec_string(100_000), "100000");
    assert_eq!(u64_to_dec_string(u64::MAX), "18446744073709551615");
}
