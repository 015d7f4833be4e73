use streamserver::auth::{Auth, AuthError, SimpleTokenAuthenticator};

#[test]
fn test_auth_without_query_wants_token() {
    let auth = SimpleTokenAuthenticator::new("123456".to_string());
    let r = auth.auth(Some("live"), Some("a"), None);
    assert!(matches!(r, Err(AuthError::NoTokenFound)));
}

#[test]
fn test_auth_with_empty_query_wants_token() {
    let auth = SimpleTokenAuthenticator::new("123456".to_string());
    let r = auth.auth(Some("live"), Some("a"), Some(""));
    assert!(matches!(r, Err(AuthError::NoTokenFound)));
}

#[test]
fn test_auth_with_matching_token_passes() {
    let auth = SimpleTokenAuthenticator::new("123456".to_string());
    let r = auth.auth(Some("live"), Some("a"), Some("token=123456"));
    assert!(r.is_ok());
}

#[test]
fn test_auth_with_wrong_token_is_incorrect() {
    let auth = SimpleTokenAuthenticator::new("123456".to_string());
    let r = auth.auth(Some("live"), Some("a"), Some("token=999999"));
    assert!(matches!(r, Err(AuthError::TokenIsNotCorrect)));
}

#[test]
fn test_auth_with_unrelated_query_wants_token() {
    let auth = SimpleTokenAuthenticator::new("123456".to_string());
    let r = auth.auth(Some("live"), Some("a"), Some("user=alice&mode=push"));
    assert!(matches!(r, Err(AuthError::NoTokenFound)));
}

#[test]
fn test_auth_last_token_value_wins() {
    // Collecting pairs into a map keeps the later value for a repeated key.
    let auth = SimpleTokenAuthenticator::new("123456".to_string());
    let r = auth.auth(Some("live"), Some("a"), Some("token=bad&token=123456"));
    assert!(r.is_ok());
    let r = auth.auth(Some("live"), Some("a"), Some("token=123456&token=bad"));
    assert!(matches!(r, Err(AuthError::TokenIsNotCorrect)));
}

#[test]
fn test_auth_decodes_percent_escapes() {
    // %36 decodes to the digit six; a check on the raw text would refuse it.
    let auth = SimpleTokenAuthenticator::new("123456".to_string());
    let r = auth.auth(Some("live"), Some("a"), Some("token=12345%36"));
    assert!(r.is_ok());
}

#[test]
fn test_nonauth_passes_everyone() {
    let auth = SimpleTokenAuthenticator::new_nonauth();
    assert!(auth.auth(None, None, None).is_ok());
    assert!(auth.auth(Some("live"), Some("a"), Some("token=anything")).is_ok());
}

#[test]
fn test_auth_pull_passes_by_default() {
    let auth = SimpleTokenAuthenticator::new("123456".to_string());
    assert!(auth.auth_pull(Some("live"), Some("a"), None).is_ok());
}

#[test]
fn test_unit_authenticator_passes() {
    assert!(().auth(Some("live"), Some("a"), None).is_ok());
}
