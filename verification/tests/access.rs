use b2b_product_catalog_quote_system_api::auth::{bearer_token, bootstrap_credentials_ok};
use b2b_product_catalog_quote_system_api::error::ApiError;

#[test]
fn bearer_tokens() {
    assert_eq!(bearer_token(None), Err(ApiError::Unauthorized));
    assert_eq!(bearer_token(Some("Basic abc")), Err(ApiError::Unauthorized));
    assert_eq!(bearer_token(Some("bearer abc")), Err(ApiError::Unauthorized));
    assert_eq!(bearer_token(Some("Bearer")), Err(ApiError::Unauthorized));
    assert_eq!(bearer_token(Some("Bearer ")), Ok(String::new()));
    assert_eq!(bearer_token(Some("Bearer invalid.token.value")), Ok("invalid.token.value".to_string()));
}

#[test]
fn bootstrap_credentials() {
    assert!(bootstrap_credentials_ok("operator@example.invalid", "0123456789abcdef"));
    assert!(!bootstrap_credentials_ok("operator.example.invalid", "0123456789abcdef"));
    assert!(!bootstrap_credentials_ok("operator@example.invalid", "0123456789abcde"));
}
