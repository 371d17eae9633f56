//! The bearer-token flow: challenge parsing, token request planning, and
//! the registry engine's response decisions.

use opencontainers::auth::{
    bearer_challenges, collect_credentials, handle_token_response, token_request, Credential,
    Token,
};
use opencontainers::registry::{
    classify_response, credential_ttl, CredentialCache, GetDecision, RegistryError,
};

#[test]
fn success_response_is_returned_as_is() {
    assert_eq!(classify_response(200, false), GetDecision::Accept);
    assert_eq!(classify_response(204, true), GetDecision::Accept);
}

#[test]
fn unauthorized_with_challenge_authenticates() {
    assert_eq!(classify_response(401, true), GetDecision::Authenticate);
}

#[test]
fn unauthorized_without_challenge_is_invalid() {
    assert_eq!(classify_response(401, false), GetDecision::FailInvalidChallenge);
}

#[test]
fn other_statuses_fail_without_auth() {
    assert_eq!(classify_response(404, false), GetDecision::FailStatus);
    assert_eq!(classify_response(500, true), GetDecision::FailStatus);
    assert_eq!(classify_response(403, true), GetDecision::FailStatus);
}

#[test]
fn bearer_challenge_round() {
    let header =
        "Bearer realm=\"https://auth.example/token\",service=\"r.example\",scope=\"repository:x:pull\"";
    let challenges = bearer_challenges(header).expect("the challenge should parse");
    assert_eq!(challenges.len(), 1);
    let c = &challenges[0];
    assert_eq!(c.realm.as_deref(), Some("https://auth.example/token"));
    assert_eq!(c.service.as_deref(), Some("r.example"));
    assert_eq!(c.scopes.as_ref().unwrap(), &vec!["repository:x:pull".to_string()]);

    let req = token_request(c).expect("the challenge names a realm");
    assert_eq!(req.realm, "https://auth.example/token");
    assert_eq!(
        req.query,
        vec![
            ("scope".to_string(), "repository:x:pull".to_string()),
            ("service".to_string(), "r.example".to_string()),
        ]
    );

    let token = handle_token_response(200, "{\"token\":\"abc\"}").expect("the realm said yes");
    assert_eq!(token.token, "abc");
    let cred = Credential::Token(token);
    assert_eq!(cred.authorization_value(), "Bearer abc");
}

#[test]
fn scopes_are_split_at_spaces() {
    let header = "Bearer realm=\"https://auth.example/token\",scope=\"scope1 scope2\"";
    let challenges = bearer_challenges(header).unwrap();
    assert_eq!(
        challenges[0].scopes.as_ref().unwrap(),
        &vec!["scope1".to_string(), "scope2".to_string()]
    );
}

#[test]
fn challenge_without_bearer_is_invalid() {
    match bearer_challenges("Basic realm=\"x\"") {
        Err(RegistryError::InvalidAuthenticationChallenge(_)) => {},
        other => panic!("expected an invalid authentication challenge, got {:?}", other),
    }
}

#[test]
fn challenge_without_realm_cannot_be_attempted() {
    let header = "Bearer service=\"r.example\"";
    let challenges = bearer_challenges(header).unwrap();
    assert_eq!(challenges.len(), 1);
    match token_request(&challenges[0]) {
        Err(RegistryError::InvalidAuthenticationChallenge(_)) => {},
        other => panic!("expected an invalid authentication challenge, got {:?}", other),
    }
}

#[test]
fn forbidden_realm_is_skipped_and_leaves_no_credential() {
    match handle_token_response(403, "denied") {
        Err(RegistryError::CouldNotGetToken(status)) => assert_eq!(status, 403),
        other => panic!("expected a token failure, got {:?}", other),
    }
    let results = vec![Err(RegistryError::CouldNotGetToken(403))];
    let credentials = collect_credentials(&results);
    assert!(credentials.is_empty());
}

#[test]
fn token_fields_are_read() {
    let body = "{\"token\":\"abc\",\"expires_in\":3600,\"issued_at\":\"2009-11-10T23:00:00Z\",\"refresh_token\":\"r\"}";
    let token = handle_token_response(201, body).unwrap();
    assert_eq!(token.token, "abc");
    assert_eq!(token.expires_in, Some(3600));
    assert_eq!(token.issued_at.as_deref(), Some("2009-11-10T23:00:00Z"));
    assert_eq!(token.refresh_token.as_deref(), Some("r"));
}

#[test]
fn token_body_without_token_field_fails() {
    match handle_token_response(200, "{\"expires_in\":3600}") {
        Err(RegistryError::ReqwestError(_)) => {},
        other => panic!("expected a decode failure, got {:?}", other),
    }
}

#[test]
fn access_token_is_accepted_as_synonym() {
    let token = handle_token_response(200, "{\"access_token\":\"abc\"}").unwrap();
    assert_eq!(token.token, "abc");
}

#[test]
fn header_ending_in_backslash_is_rejected() {
    match bearer_challenges("Bearer realm=\"x\\") {
        Err(RegistryError::InvalidAuthenticationChallenge(_)) => {},
        other => panic!("expected an invalid authentication challenge, got {:?}", other),
    }
}

#[test]
fn huge_token_lifetime_is_clamped() {
    let cred = Credential::Token(Token {
        token: "t".to_string(),
        expires_in: Some(u64::MAX),
        issued_at: None,
        refresh_token: None,
    });
    let ttl = credential_ttl(&cred);
    assert_eq!(ttl, 315360000);
    let mut cache = CredentialCache::new(32);
    cache.insert("https://r.example/v2/".to_string(), cred, ttl);
    assert!(cache.get("https://r.example/v2/").is_some());
}

#[test]
fn successful_tokens_are_collected_in_order() {
    let t1 = Token {
        token: "one".to_string(),
        expires_in: None,
        issued_at: None,
        refresh_token: None,
    };
    let t2 = Token {
        token: "two".to_string(),
        expires_in: Some(10),
        issued_at: None,
        refresh_token: None,
    };
    let results =
        vec![Ok(t1), Err(RegistryError::CouldNotGetToken(403)), Ok(t2)];
    let credentials = collect_credentials(&results);
    assert_eq!(credentials.len(), 2);
    assert_eq!(credentials[0].authorization_value(), "Bearer one");
    assert_eq!(credentials[1].authorization_value(), "Bearer two");
}

#[test]
fn credential_ttl_prefers_expires_in() {
    let with = Credential::Token(Token {
        token: "t".to_string(),
        expires_in: Some(3600),
        issued_at: None,
        refresh_token: None,
    });
    let without = Credential::Token(Token {
        token: "t".to_string(),
        expires_in: None,
        issued_at: None,
        refresh_token: None,
    });
    assert_eq!(credential_ttl(&with), 3600);
    assert_eq!(credential_ttl(&without), 60);
}

#[test]
fn credential_cache_serves_inserted_entries() {
    let mut cache = CredentialCache::new(32);
    assert!(cache.get("https://r.example/v2/").is_none());
    let cred = Credential::Token(Token {
        token: "abc".to_string(),
        expires_in: Some(3600),
        issued_at: None,
        refresh_token: None,
    });
    cache.insert("https://r.example/v2/".to_string(), cred, 3600);
    let got = cache.get("https://r.example/v2/").expect("the entry is fresh");
    assert_eq!(got.authorization_value(), "Bearer abc");
    assert!(cache.get("https://other.example/").is_none());
}
