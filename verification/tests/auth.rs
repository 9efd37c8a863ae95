use firebase_db::auth::{get_token, load_credentials, scopes, AuthError};

#[test]
fn scopes_are_email_and_database() {
    assert_eq!(
        scopes(),
        [
            "https://www.googleapis.com/auth/userinfo.email",
            "https://www.googleapis.com/auth/firebase.database",
        ]
    );
}

#[test]
fn loaded_credentials_pass() {
    let out = load_credentials(Ok(7u32));
    assert!(matches!(out, Ok(7)));
}

#[test]
fn missing_key_file_is_invalid_credentials() {
    let loaded = gcp_auth::CustomServiceAccount::from_file("/nonexistent/wave-mainframe-key.json");
    match load_credentials(loaded) {
        Err(AuthError::InvalidCredentials(gcp_auth::Error::CustomServiceAccountPath(_))) => {}
        other => panic!("expected invalid credentials, got {:?}", other.map(|_| ())),
    }
}

#[test]
fn malformed_key_file_is_invalid_credentials() {
    let loaded = gcp_auth::CustomServiceAccount::from_json("{\"type\": \"service_account\"");
    match load_credentials(loaded) {
        Err(AuthError::InvalidCredentials(gcp_auth::Error::CustomServiceAccountCredentials(_))) => {}
        other => panic!("expected invalid credentials, got {:?}", other.map(|_| ())),
    }
}

#[test]
fn issued_token_passes() {
    assert_eq!(get_token(Ok("ya29.abc".to_string())).unwrap(), "ya29.abc");
}

#[test]
fn refused_exchange_is_token_exchange_failed() {
    let refused = Err(gcp_auth::Error::ServerUnavailable("invalid_grant".to_string()));
    match get_token(refused) {
        Err(AuthError::TokenExchangeFailed(gcp_auth::Error::ServerUnavailable(why))) => {
            assert_eq!(why, "invalid_grant")
        }
        other => panic!("expected a failed exchange, got {:?}", other),
    }
}
