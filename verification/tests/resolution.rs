//! The client's address-resolution rule: exactly one candidate endpoint.

use myftp_rs::endpoint::{select_single_endpoint, ConfigError, Endpoint};

#[test]
fn zero_candidates_is_an_invalid_address() {
    let r = select_single_endpoint(Vec::new());
    assert_eq!(r.unwrap_err(), ConfigError::InvalidAddress);
}

#[test]
fn several_candidates_are_rejected() {
    let candidates = vec![
        Endpoint::new(String::from("10.0.0.1:9000")),
        Endpoint::new(String::from("10.0.0.2:9000")),
    ];
    let r = select_single_endpoint(candidates);
    assert_eq!(r.unwrap_err(), ConfigError::MultipleAddresses);
}

#[test]
fn a_single_candidate_becomes_the_fixed_peer() {
    let candidates = vec![Endpoint::new(String::from("127.0.0.1:9000"))];
    let r = select_single_endpoint(candidates);
    assert_eq!(r.unwrap().as_str(), "127.0.0.1:9000");
}

#[test]
fn error_reports_match_the_process_output() {
    assert_eq!(ConfigError::InvalidAddress.message(), "Invalid socket address input");
    assert_eq!(
        ConfigError::MultipleAddresses.message(),
        "This program only support single socket per client"
    );
}
