use akinator::database::{parse_port, ConfigError};
use akinator::github::{query_outcome, GraphqlError, HeaderError, Pat, PatError};

#[test]
fn pat_requires_prefix() {
    let p = Pat::from_str("ghp_abc123").ok().unwrap();
    assert_eq!(p.token(), "ghp_abc123");
    assert_eq!(p.clone().token(), "ghp_abc123");
    assert_eq!(p.authorization(), Ok("bearer ghp_abc123".to_string()));
    assert!(matches!(Pat::from_str("github_pat_1"), Err(PatError::InvalidPersonalAccessToken)));
    assert!(Pat::from_str("").is_err());
    assert_eq!(PatError::InvalidPersonalAccessToken.message(), "Invalid personal access token");
}

#[test]
fn pat_token_reparses() {
    let p = Pat::from_str("ghp_").ok().unwrap();
    let q = Pat::from_str(p.token()).ok().unwrap();
    assert_eq!(q.token(), p.token());
}

#[test]
fn graphql_outcomes() {
    assert_eq!(query_outcome(Some(3), false), Ok(3));
    assert_eq!(query_outcome(Some(3), true), Err(GraphqlError::QueryFailed));
    assert_eq!(query_outcome::<u8>(None, true), Err(GraphqlError::QueryFailed));
    assert_eq!(query_outcome::<u8>(None, false), Err(GraphqlError::UnexpectedFormat));
}

#[test]
fn database_port() {
    assert_eq!(parse_port("3306"), Ok(3306));
    assert_eq!(parse_port("+3306"), Ok(3306));
    assert_eq!(parse_port("70000"), Err(ConfigError::PortNotANumber));
    assert_eq!(parse_port("mysql"), Err(ConfigError::PortNotANumber));
    assert_eq!(ConfigError::PortNotANumber.message(), "DB_PORT must be a number");
}

#[test]
fn authorization_needs_header_characters() {
    let p = Pat::from_str("ghp_a\nb").ok().unwrap();
    assert_eq!(p.authorization(), Err(HeaderError::InvalidHeaderValue));
    let q = Pat::from_str("ghp_tab\tand é").ok().unwrap();
    assert_eq!(q.authorization(), Ok("bearer ghp_tab\tand é".to_string()));
    assert!(Pat::from_str("ghp_\u{7f}").ok().unwrap().authorization().is_err());
    assert_eq!(HeaderError::InvalidHeaderValue.message(), "failed to parse header value");
}
