use mpesa::AuthError;
use mpesa::Environment;
use mpesa::HttpOutcome;
use mpesa::Mpesa;
use mpesa::TokenExtractor;
use mpesa::TokenResponse;
use mpesa::extract_auth_token;
use mpesa::token_from_response;

#[test]
fn extract_returns_token() {
    let mut response = TokenResponse::new();
    response.insert("access_token".to_owned(), "T".to_owned());
    let token = extract_auth_token(&response);
    assert_eq!(token, Ok("T".to_owned()));
}

#[test]
fn extract_ignores_other_fields() {
    let mut response = TokenResponse::new();
    response.insert("expires_in".to_owned(), "3599".to_owned());
    response.insert("access_token".to_owned(), "c9SQxWWhmdVRlyh0zh8gZDTkubVF".to_owned());
    let token = extract_auth_token(&response);
    assert_eq!(token, Ok("c9SQxWWhmdVRlyh0zh8gZDTkubVF".to_owned()));
}

#[test]
fn extract_missing_key_is_missing_token() {
    let mut response = TokenResponse::new();
    response.insert("expires_in".to_owned(), "3599".to_owned());
    let token = extract_auth_token(&response);
    match token {
        Err(AuthError::MissingToken(key)) => assert_eq!(key, "access_token"),
        other => panic!("expected MissingToken, got {other:?}"),
    }
}

#[test]
fn extract_empty_response_is_missing_token_not_empty_string() {
    let response = TokenResponse::new();
    let token = extract_auth_token(&response);
    assert!(!matches!(token, Ok(_)));
    assert!(matches!(token, Err(AuthError::MissingToken(_))));
}

#[test]
fn extract_takes_the_named_key() {
    let mut response = TokenResponse::new();
    response.insert("token".to_owned(), "abc".to_owned());
    let key = "token".to_owned();
    let token = TokenExtractor::extract(&response, &key);
    assert_eq!(token, Ok("abc".to_owned()));
    let other_key = "access_token".to_owned();
    let missing = TokenExtractor::extract(&response, &other_key);
    match missing {
        Err(AuthError::MissingToken(key)) => assert_eq!(key, "access_token"),
        other => panic!("expected MissingToken, got {other:?}"),
    }
}

#[test]
fn insert_shadows_earlier_entry() {
    let mut response = TokenResponse::new();
    response.insert("access_token".to_owned(), "first".to_owned());
    response.insert("access_token".to_owned(), "second".to_owned());
    let token = extract_auth_token(&response);
    assert_eq!(token, Ok("second".to_owned()));
}

#[test]
fn token_from_response_with_token_is_ok() {
    let mut response = TokenResponse::new();
    response.insert("access_token".to_owned(), "abc123".to_owned());
    let r = token_from_response(&HttpOutcome::Body(response));
    assert_eq!(r, Ok("abc123".to_owned()));
}

#[test]
fn token_from_response_empty_object_is_missing_token() {
    let response = TokenResponse::new();
    let r = token_from_response(&HttpOutcome::Body(response));
    assert!(matches!(r, Err(AuthError::MissingToken(_))));
}

#[test]
fn token_from_response_transport_failure() {
    let r = token_from_response(&HttpOutcome::TransportFailed);
    assert_eq!(r, Err(AuthError::Transport));
}

#[test]
fn token_from_response_undecodable_body() {
    let r = token_from_response(&HttpOutcome::BodyNotJson);
    assert_eq!(r, Err(AuthError::Decode));
}

#[test]
fn base_urls_per_environment() {
    assert_eq!(Environment::Sandbox.base_url(), "https://sandbox.safaricom.co.ke");
    assert_eq!(Environment::Production.base_url(), "https://api.safaricom.co.ke");
}

#[test]
fn auth_url_appends_oauth_path() {
    let client = Mpesa::new("key".to_owned(), "secret".to_owned(), Environment::Sandbox);
    assert_eq!(
        client.auth_url(),
        "https://sandbox.safaricom.co.ke/oauth/v1/generate?grant_type=client_credentials"
    );
    let client = Mpesa::new("key".to_owned(), "secret".to_owned(), Environment::Production);
    assert_eq!(
        client.auth_url(),
        "https://api.safaricom.co.ke/oauth/v1/generate?grant_type=client_credentials"
    );
}

#[test]
fn client_keeps_identity_and_environment() {
    let client = Mpesa::new("ck".to_owned(), "cs".to_owned(), Environment::Sandbox);
    assert_eq!(client.client_key(), "ck");
    assert_eq!(client.client_secret(), "cs");
    assert_eq!(client.environment(), Environment::Sandbox);
}
