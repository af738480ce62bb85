use fame::auth::error::{validator_response, AuthBody, AuthError};
use fame::json::Json;

fn text_body(body: &AuthBody) -> &str {
    match body {
        AuthBody::Text(t) => t.as_str(),
        AuthBody::Json(_) => panic!("a text was expected"),
    }
}

fn json_body(body: &AuthBody) -> &Json {
    match body {
        AuthBody::Json(j) => j,
        AuthBody::Text(_) => panic!("JSON was expected"),
    }
}

fn is_true(v: Option<&Json>) -> bool {
    matches!(v, Some(Json::Bool(true)))
}

#[test]
fn enrichment_failure_is_401_with_retry_signal() {
    let resp = AuthError::EnrichmentFailed(
        "Userinfo endpoint returned error: {\"error\":\"invalid_token\"} status=400".to_string(),
    )
    .into_response();

    assert_eq!(resp.status, 401);

    let www = resp
        .www_authenticate
        .as_deref()
        .expect("WWW-Authenticate header required");
    assert!(www.starts_with("Bearer error=\"invalid_token\""), "{}", www);

    let v = json_body(&resp.body);
    assert_eq!(v.get_text("error"), Some("token_expired"));
    assert!(is_true(v.get("retryable")));
    assert!(v.get_text("detail").unwrap().contains("invalid_token"));
}

#[test]
fn authz_denial_stays_403_and_enrichment_never_is() {
    let claims_resp = AuthError::InvalidClaims("no permit".to_string()).into_response();
    assert_eq!(claims_resp.status, 403);

    let enrich_resp = AuthError::EnrichmentFailed("x".to_string()).into_response();
    assert_ne!(enrich_resp.status, 403);
}

#[test]
fn missing_token_carries_challenge_header() {
    let resp = AuthError::MissingToken.into_response();
    assert_eq!(resp.status, 401);
    assert!(resp.www_authenticate.is_some());
}

#[test]
fn challenge_values() {
    assert_eq!(
        AuthError::MissingToken.into_response().www_authenticate.as_deref(),
        Some("Bearer error=\"invalid_token\", error_description=\"missing or invalid bearer token\"")
    );
    assert_eq!(
        AuthError::EnrichmentFailed("x".to_string())
            .into_response()
            .www_authenticate
            .as_deref(),
        Some("Bearer error=\"invalid_token\", error_description=\"token enrichment failed\"")
    );
    assert_eq!(
        AuthError::www_authenticate("a \"b\" c"),
        "Bearer error=\"invalid_token\", error_description=\"a 'b' c\""
    );
}

#[test]
fn messages() {
    assert_eq!(AuthError::MissingToken.message(), "Missing authentication token");
    assert_eq!(AuthError::InvalidToken("a".to_string()).message(), "Invalid token: a");
    assert_eq!(AuthError::InvalidClaims("b".to_string()).message(), "Invalid claims: b");
    assert_eq!(
        AuthError::EnrichmentFailed("c".to_string()).message(),
        "Token enrichment failed: c"
    );
    assert_eq!(AuthError::Internal("d".to_string()).message(), "Internal error: d");
}

#[test]
fn rejected_token_is_retryable() {
    let resp = AuthError::InvalidToken("expired".to_string()).into_response();
    assert_eq!(resp.status, 401);
    assert!(resp.www_authenticate.is_some());
    let v = json_body(&resp.body);
    assert_eq!(v.get_text("error"), Some("token_expired"));
    assert!(is_true(v.get("retryable")));
    assert_eq!(v.get_text("detail"), Some("Invalid token: expired"));
}

#[test]
fn validator_errors_keep_their_status() {
    let expired = pep::error::PepError::JwtValidation("expired".to_string());
    let resp = AuthError::from_pep(&expired).into_response();
    assert_eq!(resp.status, 401);
    assert!(resp.www_authenticate.is_some());
    assert_eq!(
        json_body(&resp.body).get_text("detail"),
        Some("PEP error: JWT validation error: expired")
    );

    let down = pep::error::PepError::JwksFetch("down".to_string());
    let resp = AuthError::from_pep(&down).into_response();
    assert_eq!(resp.status, 502);
    assert!(resp.www_authenticate.is_none());
    assert_eq!(text_body(&resp.body), "PEP error: JWKS fetch error: down");

    let bad = pep::error::PepError::BadRequest("no".to_string());
    assert_eq!(AuthError::from_pep(&bad).into_response().status, 400);
    let denied = pep::error::PepError::AuthorizationFailed("no".to_string());
    assert_eq!(AuthError::from_pep(&denied).into_response().status, 403);
    let config = pep::error::PepError::Config("no".to_string());
    assert_eq!(AuthError::from_pep(&config).into_response().status, 500);
    let degraded = pep::error::PepError::AuthDegraded {
        detail: "later".to_string(),
        retryable: true,
    };
    assert_eq!(AuthError::from_pep(&degraded).into_response().status, 503);
}

#[test]
fn other_answers() {
    let resp = AuthError::Internal("x".to_string()).into_response();
    assert_eq!(resp.status, 500);
    assert!(resp.www_authenticate.is_none());
    assert_eq!(text_body(&resp.body), "Internal error: x");
    assert_eq!(
        text_body(&AuthError::MissingToken.into_response().body),
        "Missing authentication token"
    );
    let resp = validator_response(503, "m".to_string());
    assert_eq!(resp.status, 503);
    assert_eq!(text_body(&resp.body), "m");
    assert_eq!(
        json_body(&validator_response(401, "m".to_string()).body).get_text("detail"),
        Some("m")
    );
}
